//! Events the cockpit takes from the dashboard's frames, and what it sends back.
use vstd::prelude::*;

verus! {

/// Error code the cockpit reports when the dashboard does not confirm a command in time.
pub const CAN_TIMEOUT: u16 = 2;

/// Modules a dashboard command may target, as far as the cockpit is concerned.
#[derive(Debug, Clone, Copy, PartialEq, Eq, Structural)]
pub enum TargetModule {
    CockpitEcu,
    Broadcast,
    Other,
}

/// Commands the dashboard may send, as far as the cockpit is concerned.
#[derive(Debug, Clone, Copy, PartialEq, Eq, Structural)]
pub enum DashboardCommand {
    ForceShutdown,
    Other,
}

/// A frame received from the dashboard, decoded.
#[derive(Debug, Clone, Copy, PartialEq, Eq, Structural)]
pub enum DashboardMessage {
    /// Its procedure frame announcing its current state (raw value).
    State(u8),
    /// Its procedure frame carrying a command.
    Command { target: TargetModule, command: DashboardCommand },
    /// Its procedure frame carrying anything else.
    OtherProcedure,
    /// Its critical error frame.
    CriticalError,
}

/// Events passed on to the cockpit's state machine.
#[derive(Debug, Clone, Copy, PartialEq, Eq, Structural)]
pub enum CanEvent {
    /// The dashboard's current state (raw value).
    DashboardState(u8),
    ForceShutdown,
    CriticalError,
}

/// The event a dashboard frame gives: every state announcement; a force-shutdown command
/// addressed to the cockpit or broadcast; any critical error.
pub open spec fn spec_reader_event(msg: DashboardMessage) -> Option<CanEvent> {
    match msg {
        DashboardMessage::State(raw) => Some(CanEvent::DashboardState(raw)),
        DashboardMessage::Command { target, command } => if (target == TargetModule::CockpitEcu
            || target == TargetModule::Broadcast) && command == DashboardCommand::ForceShutdown {
            Some(CanEvent::ForceShutdown)
        } else {
            None
        },
        DashboardMessage::OtherProcedure => None,
        DashboardMessage::CriticalError => Some(CanEvent::CriticalError),
    }
}

/// The event a dashboard frame gives, if any.
pub fn reader_event(msg: DashboardMessage) -> (r: Option<CanEvent>)
    ensures
        r == spec_reader_event(msg),
{
    match msg {
        DashboardMessage::State(raw) => Some(CanEvent::DashboardState(raw)),
        DashboardMessage::Command { target, command } => {
            if target != TargetModule::CockpitEcu && target != TargetModule::Broadcast {
                return None;
            }
            if command == DashboardCommand::ForceShutdown {
                Some(CanEvent::ForceShutdown)
            } else {
                None
            }
        },
        DashboardMessage::OtherProcedure => None,
        DashboardMessage::CriticalError => Some(CanEvent::CriticalError),
    }
}

/// Commands the cockpit sends to the dashboard.
#[derive(Debug, Clone, Copy, PartialEq, Eq, Structural)]
pub enum CockpitCommand {
    Start,
    Shutdown,
}

/// States the cockpit confirms to the dashboard.
#[derive(Debug, Clone, Copy, PartialEq, Eq, Structural)]
pub enum CockpitState {
    Idle,
    Running,
}

/// The cockpit's timeout error code is 2; a dashboard frame yields an event exactly when it is
/// a state announcement (carried as is), a force-shutdown addressed to the cockpit or to
/// everyone, or a critical error.
pub proof fn lemma_reader_events(msg: DashboardMessage)
    ensures
        CAN_TIMEOUT == 2,
        msg matches DashboardMessage::State(raw) ==> spec_reader_event(msg) == Some(CanEvent::DashboardState(raw)),
        spec_reader_event(msg) == Some(CanEvent::ForceShutdown) <==> msg == (DashboardMessage::Command {
            target: TargetModule::CockpitEcu,
            command: DashboardCommand::ForceShutdown,
        }) || msg == (DashboardMessage::Command {
            target: TargetModule::Broadcast,
            command: DashboardCommand::ForceShutdown,
        }),
        spec_reader_event(msg) == Some(CanEvent::CriticalError) <==> msg == DashboardMessage::CriticalError,
        msg == DashboardMessage::OtherProcedure ==> spec_reader_event(msg) is None,
{
}

} // verus!
