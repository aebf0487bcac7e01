//! Safety loop: the dead man's switch (DMS) must be removed then inserted before the boat is
//! ready; on shutdown the loop waits for the contactors to be idle.
use vstd::prelude::*;

use super::can::{BoatState, ErrorType, WarningType};
use super::contactors::ContactorsState;

verus! {

/// How long the DMS reset output is held high, in milliseconds.
pub const DMS_RESET_DELAY_MS: u64 = 10;

#[derive(Debug, Clone, Copy, PartialEq, Eq, Structural)]
pub enum SafetyState {
    Idle,
    WaitingRemoval,
    WaitingInsertion,
    Ready,
    DmsFault,
    AlarmFault,
    WaitingContactorShutdown,
}

/// What entering a state does.
#[derive(Debug, Clone, Copy)]
pub struct SafetyEffects {
    /// The state entered (and announced).
    pub entered: SafetyState,
    /// New level of the DMS enable output, if it changes.
    pub enable_dms: Option<bool>,
    /// Whether the DMS reset output is pulsed high for `DMS_RESET_DELAY_MS`.
    pub pulse_reset_dms: bool,
    /// Warning to report, if any.
    pub warning: Option<WarningType>,
    /// Error to report, if any.
    pub error: Option<ErrorType>,
}

/// What entering `target` does, given whether the DMS status input is high (DMS removed).
/// Asking to wait for the removal of a DMS that is already removed waits for its insertion.
pub open spec fn spec_goto(target: SafetyState, dms_status_high: bool) -> SafetyEffects {
    match target {
        SafetyState::Idle => SafetyEffects {
            entered: SafetyState::Idle,
            enable_dms: Some(false),
            pulse_reset_dms: false,
            warning: None,
            error: None,
        },
        SafetyState::WaitingRemoval => if dms_status_high {
            SafetyEffects {
                entered: SafetyState::WaitingInsertion,
                enable_dms: None,
                pulse_reset_dms: false,
                warning: Some(WarningType::InsertDms),
                error: None,
            }
        } else {
            SafetyEffects {
                entered: SafetyState::WaitingRemoval,
                enable_dms: None,
                pulse_reset_dms: false,
                warning: Some(WarningType::RemoveDms),
                error: None,
            }
        },
        SafetyState::WaitingInsertion => SafetyEffects {
            entered: SafetyState::WaitingInsertion,
            enable_dms: None,
            pulse_reset_dms: false,
            warning: Some(WarningType::InsertDms),
            error: None,
        },
        SafetyState::Ready => SafetyEffects {
            entered: SafetyState::Ready,
            enable_dms: Some(true),
            pulse_reset_dms: true,
            warning: None,
            error: None,
        },
        SafetyState::DmsFault => SafetyEffects {
            entered: SafetyState::DmsFault,
            enable_dms: None,
            pulse_reset_dms: false,
            warning: None,
            error: Some(ErrorType::DmsFault),
        },
        SafetyState::AlarmFault => SafetyEffects {
            entered: SafetyState::AlarmFault,
            enable_dms: None,
            pulse_reset_dms: false,
            warning: None,
            error: Some(ErrorType::IsolationFault),
        },
        SafetyState::WaitingContactorShutdown => SafetyEffects {
            entered: SafetyState::WaitingContactorShutdown,
            enable_dms: None,
            pulse_reset_dms: false,
            warning: None,
            error: None,
        },
    }
}

/// What entering `target` does, given whether the DMS status input is high.
pub fn goto_state(target: SafetyState, dms_status_high: bool) -> (r: SafetyEffects)
    ensures
        r == spec_goto(target, dms_status_high),
{
    let mut effects = SafetyEffects {
        entered: target,
        enable_dms: None,
        pulse_reset_dms: false,
        warning: None,
        error: None,
    };
    match target {
        SafetyState::Idle => {
            effects.enable_dms = Some(false);
        },
        SafetyState::WaitingRemoval => {
            if dms_status_high {
                effects.warning = Some(WarningType::InsertDms);
                effects.entered = SafetyState::WaitingInsertion;
            } else {
                effects.warning = Some(WarningType::RemoveDms);
            }
        },
        SafetyState::WaitingInsertion => {
            effects.warning = Some(WarningType::InsertDms);
        },
        SafetyState::Ready => {
            effects.enable_dms = Some(true);
            effects.pulse_reset_dms = true;
        },
        SafetyState::DmsFault => {
            effects.error = Some(ErrorType::DmsFault);
        },
        SafetyState::AlarmFault => {
            effects.error = Some(ErrorType::IsolationFault);
        },
        SafetyState::WaitingContactorShutdown => {},
    }
    effects
}

/// The state a tick moves to from `state`, given the DMS status input and the contactor
/// sequencer's state; `None` to stay.
pub open spec fn spec_tick_target(state: SafetyState, dms_status_high: bool, contactors: Option<ContactorsState>) -> Option<SafetyState> {
    match state {
        SafetyState::WaitingRemoval => if dms_status_high {
            Some(SafetyState::WaitingInsertion)
        } else {
            None
        },
        SafetyState::WaitingInsertion => if !dms_status_high {
            Some(SafetyState::Ready)
        } else {
            None
        },
        SafetyState::WaitingContactorShutdown => if contactors == Some(ContactorsState::Idle) {
            Some(SafetyState::Idle)
        } else {
            None
        },
        _ => None,
    }
}

/// A tick (every 250 ms): what entering the next state does, if the state changes.
pub fn state_tick(state: SafetyState, dms_status_high: bool, contactors: Option<ContactorsState>) -> (r: Option<SafetyEffects>)
    ensures
        spec_tick_target(state, dms_status_high, contactors) matches Some(t) ==> r == Some(
            spec_goto(t, dms_status_high),
        ),
        spec_tick_target(state, dms_status_high, contactors) is None ==> r is None,
{
    match state {
        SafetyState::WaitingRemoval => {
            if dms_status_high {
                return Some(goto_state(SafetyState::WaitingInsertion, dms_status_high));
            }
        },
        SafetyState::WaitingInsertion => {
            if !dms_status_high {
                return Some(goto_state(SafetyState::Ready, dms_status_high));
            }
        },
        SafetyState::WaitingContactorShutdown => {
            if contactors == Some(ContactorsState::Idle) {
                return Some(goto_state(SafetyState::Idle, dms_status_high));
            }
        },
        _ => {},
    }
    None
}

/// A new boat state: start-up waits for the DMS removal, shutdown waits for the contactors.
pub fn on_boat_state(new_state: BoatState, dms_status_high: bool) -> (r: Option<SafetyEffects>)
    ensures
        new_state == BoatState::Startup ==> r == Some(
            spec_goto(SafetyState::WaitingRemoval, dms_status_high),
        ),
        new_state == BoatState::Shutdown ==> r == Some(
            spec_goto(SafetyState::WaitingContactorShutdown, dms_status_high),
        ),
        new_state != BoatState::Startup && new_state != BoatState::Shutdown ==> r is None,
{
    if new_state == BoatState::Startup {
        Some(goto_state(SafetyState::WaitingRemoval, dms_status_high))
    } else if new_state == BoatState::Shutdown {
        Some(goto_state(SafetyState::WaitingContactorShutdown, dms_status_high))
    } else {
        None
    }
}

/// The loop becomes ready only from waiting for the DMS insertion, once the DMS is inserted
/// (status low), and becoming ready enables the DMS and pulses its reset.
pub proof fn lemma_ready_needs_insertion(state: SafetyState, dms_status_high: bool, contactors: Option<ContactorsState>)
    ensures
        spec_tick_target(state, dms_status_high, contactors) == Some(SafetyState::Ready) <==> (
        state == SafetyState::WaitingInsertion && !dms_status_high),
        spec_goto(SafetyState::Ready, dms_status_high).enable_dms == Some(true),
        spec_goto(SafetyState::Ready, dms_status_high).pulse_reset_dms,
{
}

/// Going idle always disables the DMS.
pub proof fn lemma_idle_disables_dms(dms_status_high: bool)
    ensures
        spec_goto(SafetyState::Idle, dms_status_high).enable_dms == Some(false),
{
}

/// What entering a state does, as relations over the state actually entered: the state asked
/// for is entered, except that waiting for the removal of a DMS already removed waits for its
/// insertion; waiting for the removal asks the driver to remove the DMS, waiting for the
/// insertion (by any path) asks to insert it; only Ready enables the DMS, and pulses its
/// reset; only Idle disables it; the DMS fault and the alarm fault report their error; nothing
/// else reports anything.
pub proof fn lemma_goto_effects(t: SafetyState, dms_status_high: bool)
    ensures
        ({
            let e = spec_goto(t, dms_status_high);
            &&& e.entered == (if t == SafetyState::WaitingRemoval && dms_status_high {
                SafetyState::WaitingInsertion
            } else {
                t
            })
            &&& e.entered == SafetyState::WaitingInsertion ==> e.warning == Some(WarningType::InsertDms)
            &&& e.entered == SafetyState::WaitingRemoval ==> e.warning == Some(WarningType::RemoveDms)
                && !dms_status_high
            &&& e.entered != SafetyState::WaitingInsertion && e.entered != SafetyState::WaitingRemoval
                ==> e.warning is None
            &&& (e.enable_dms == Some(true)) == (e.entered == SafetyState::Ready)
            &&& (e.enable_dms == Some(false)) == (e.entered == SafetyState::Idle)
            &&& e.entered != SafetyState::Ready && e.entered != SafetyState::Idle ==> e.enable_dms is None
            &&& e.pulse_reset_dms == (e.entered == SafetyState::Ready)
            &&& (e.error == Some(ErrorType::DmsFault)) == (e.entered == SafetyState::DmsFault)
            &&& (e.error == Some(ErrorType::IsolationFault)) == (e.entered == SafetyState::AlarmFault)
            &&& e.entered != SafetyState::DmsFault && e.entered != SafetyState::AlarmFault ==> e.error is None
        }),
{
}

/// A tick moves the loop on only when what it waits for has happened: the DMS removed (status
/// high) while waiting for the removal, which then asks for its insertion; the DMS inserted
/// (status low) while waiting for the insertion, which makes the loop ready; the contactors
/// idle while waiting for them, which makes the loop idle. Nothing else moves on a tick.
pub proof fn lemma_tick_moves(state: SafetyState, dms_status_high: bool, contactors: Option<ContactorsState>)
    ensures
        spec_tick_target(state, dms_status_high, contactors) == (if state == SafetyState::WaitingRemoval
            && dms_status_high {
            Some(SafetyState::WaitingInsertion)
        } else if state == SafetyState::WaitingInsertion && !dms_status_high {
            Some(SafetyState::Ready)
        } else if state == SafetyState::WaitingContactorShutdown && contactors == Some(
            ContactorsState::Idle,
        ) {
            Some(SafetyState::Idle)
        } else {
            None
        }),
        state == SafetyState::WaitingRemoval && dms_status_high ==> spec_goto(
            spec_tick_target(state, dms_status_high, contactors).unwrap(),
            dms_status_high,
        ).warning == Some(WarningType::InsertDms),
{
}

/// The DMS reset output is pulsed for 10 ms.
pub proof fn lemma_documented_reset_pulse()
    ensures
        DMS_RESET_DELAY_MS == 10,
{
}

} // verus!
