//! The cockpit's state machine. The pilot starts the boat with the green button and stops it
//! with the red one; every command must be confirmed by the dashboard within ten seconds,
//! failing which the cockpit reports a timeout and goes to the fault state, which it never
//! leaves. The red LED is on when idle, the yellow one while starting and while shutting down,
//! the green one when running; the red one blinks in fault.
//!
//! Each turn of the loop is `begin` (before waiting) then `handle` (with what ended the wait:
//! an event from the dashboard, or the end of the wait with the buttons' levels and the time
//! since the last command).
use vstd::prelude::*;

use super::can::{CAN_TIMEOUT, CanEvent, CockpitCommand, CockpitState};
use crate::telemetry_battery::can_frames::DashboardState;

verus! {

/// Longest wait for the dashboard's confirmation of a command, in milliseconds.
pub const CONFIRMATION_TIMEOUT_MS: u64 = 10_000;

/// Wait of one turn while idle or running, in milliseconds.
pub const SHORT_POLL_MS: u64 = 50;
/// Wait of one turn while waiting for a confirmation, in milliseconds.
pub const CONFIRMATION_POLL_MS: u64 = 300;
/// Wait of one turn in fault, in milliseconds.
pub const FAULT_POLL_MS: u64 = 10;

#[derive(Debug, Clone, Copy, PartialEq, Eq, Structural)]
pub enum State {
    Idle,
    Starting,
    Running,
    ShuttingDown,
    Fault,
}

/// What to do with an LED.
#[derive(Debug, Clone, Copy, PartialEq, Eq, Structural)]
pub enum Led {
    Keep,
    On,
    Off,
    Toggle,
}

/// What ended a turn's wait.
#[derive(Debug, Clone, Copy, PartialEq, Eq, Structural)]
pub enum Input {
    Event(CanEvent),
    /// The wait ran out: the buttons' levels, and the milliseconds since the last command was
    /// sent.
    Timeout { button_green: bool, button_red: bool, elapsed_ms: u64 },
}

/// What to do at the start of a turn.
#[derive(Debug, Clone, Copy, PartialEq, Eq, Structural)]
pub struct TurnStart {
    pub green: Led,
    pub yellow: Led,
    pub red: Led,
    /// How long to wait for an event.
    pub wait_ms: u64,
}

/// What to do at the end of a turn, in this order: the command, the confirmation, the error
/// report, then the LEDs.
#[derive(Debug, Clone, Copy, PartialEq, Eq, Structural)]
pub struct TurnEnd {
    pub command: Option<CockpitCommand>,
    /// Whether the time of the command is recorded (the start of the confirmation wait).
    pub record_command_time: bool,
    pub confirm: Option<CockpitState>,
    pub error: Option<u16>,
    pub green: Led,
    pub yellow: Led,
    pub red: Led,
}

/// Raw value of the dashboard's Started state.
pub open spec fn started_raw() -> u8 {
    DashboardState::Started.spec_raw()
}

/// Raw value of the dashboard's Idle state.
pub open spec fn idle_raw() -> u8 {
    DashboardState::Idle.spec_raw()
}

/// An end of turn that does nothing but the given LEDs.
pub open spec fn leds_only(green: Led, yellow: Led, red: Led) -> TurnEnd {
    TurnEnd {
        command: None,
        record_command_time: false,
        confirm: None,
        error: None,
        green,
        yellow,
        red,
    }
}

/// An end of turn that does nothing.
pub open spec fn nothing() -> TurnEnd {
    leds_only(Led::Keep, Led::Keep, Led::Keep)
}

/// The cockpit: its state, and whether an error was detected.
#[derive(Debug, Clone, Copy, PartialEq, Eq, Structural)]
pub struct Cockpit {
    pub state: State,
    pub error_flag: bool,
}

/// The state a turn runs in: fault once an error was detected, except during a shutdown,
/// which runs to its end first.
pub open spec fn turn_state(c: Cockpit) -> State {
    if c.error_flag && c.state != State::ShuttingDown {
        State::Fault
    } else {
        c.state
    }
}

/// The start of a turn.
pub open spec fn spec_begin(c: Cockpit) -> (Cockpit, TurnStart) {
    let s = turn_state(c);
    let c2 = Cockpit { state: s, ..c };
    match s {
        State::Idle => (c2, TurnStart { green: Led::Off, yellow: Led::Off, red: Led::On, wait_ms: SHORT_POLL_MS }),
        State::Starting => (c2, TurnStart { green: Led::Keep, yellow: Led::Keep, red: Led::Keep, wait_ms: CONFIRMATION_POLL_MS }),
        State::Running => (c2, TurnStart { green: Led::On, yellow: Led::Off, red: Led::Off, wait_ms: SHORT_POLL_MS }),
        State::ShuttingDown => (c2, TurnStart { green: Led::Keep, yellow: Led::Keep, red: Led::Keep, wait_ms: CONFIRMATION_POLL_MS }),
        State::Fault => (c2, TurnStart { green: Led::Off, yellow: Led::Off, red: Led::Toggle, wait_ms: FAULT_POLL_MS }),
    }
}

/// The end of a turn.
pub open spec fn spec_handle(c: Cockpit, input: Input) -> (Cockpit, TurnEnd) {
    match c.state {
        State::Idle => match input {
            Input::Event(CanEvent::CriticalError) => (Cockpit { error_flag: true, ..c }, nothing()),
            Input::Event(_) => (c, nothing()),
            Input::Timeout { button_green, .. } => if button_green {
                (Cockpit { state: State::Starting, ..c }, TurnEnd {
                    command: Some(CockpitCommand::Start),
                    record_command_time: true,
                    ..leds_only(Led::Off, Led::On, Led::Off)
                })
            } else {
                (c, nothing())
            },
        },
        State::Starting => match input {
            Input::Event(CanEvent::DashboardState(raw)) => if raw == started_raw() {
                (Cockpit { state: State::Running, ..c }, TurnEnd {
                    confirm: Some(CockpitState::Running),
                    yellow: Led::Off,
                    ..nothing()
                })
            } else {
                (c, nothing())
            },
            Input::Event(CanEvent::ForceShutdown) => (Cockpit { state: State::Idle, ..c }, leds_only(Led::Off, Led::Off, Led::Off)),
            Input::Event(CanEvent::CriticalError) => (Cockpit { error_flag: true, ..c }, nothing()),
            Input::Timeout { elapsed_ms, .. } => if elapsed_ms > CONFIRMATION_TIMEOUT_MS {
                (Cockpit { error_flag: true, ..c }, TurnEnd { error: Some(CAN_TIMEOUT), ..nothing() })
            } else {
                (c, leds_only(Led::Off, Led::On, Led::Off))
            },
        },
        State::Running => match input {
            Input::Event(CanEvent::ForceShutdown) => (Cockpit { state: State::Idle, ..c }, leds_only(Led::Off, Led::Off, Led::Off)),
            Input::Event(CanEvent::CriticalError) => (Cockpit { error_flag: true, ..c }, nothing()),
            Input::Event(_) => (c, nothing()),
            Input::Timeout { button_red, .. } => if button_red {
                (Cockpit { state: State::ShuttingDown, ..c }, TurnEnd {
                    command: Some(CockpitCommand::Shutdown),
                    record_command_time: true,
                    ..leds_only(Led::Off, Led::On, Led::Off)
                })
            } else {
                (c, nothing())
            },
        },
        State::ShuttingDown => match input {
            Input::Event(CanEvent::DashboardState(raw)) => if raw == idle_raw() {
                (Cockpit { state: State::Idle, ..c }, TurnEnd {
                    confirm: Some(CockpitState::Idle),
                    yellow: Led::Off,
                    ..nothing()
                })
            } else {
                (c, nothing())
            },
            Input::Event(_) => (c, nothing()),
            Input::Timeout { elapsed_ms, .. } => if elapsed_ms > CONFIRMATION_TIMEOUT_MS {
                (Cockpit { state: State::Idle, error_flag: true }, TurnEnd {
                    error: Some(CAN_TIMEOUT),
                    yellow: Led::Off,
                    ..nothing()
                })
            } else {
                (c, leds_only(Led::Off, Led::On, Led::Off))
            },
        },
        State::Fault => (c, nothing()),
    }
}

impl Cockpit {
    /// The cockpit at power-up: idle, no error.
    pub fn new() -> (r: Self)
        ensures
            r == (Cockpit { state: State::Idle, error_flag: false }),
    {
        Cockpit { state: State::Idle, error_flag: false }
    }

    /// Starts a turn: goes to fault if an error was detected, and says what to do with the
    /// LEDs and how long to wait.
    pub fn begin(&mut self) -> (r: TurnStart)
        ensures
            (*final(self), r) == spec_begin(*old(self)),
    {
        if self.error_flag && self.state != State::ShuttingDown {
            self.state = State::Fault;
        }
        match self.state {
            State::Idle => TurnStart { green: Led::Off, yellow: Led::Off, red: Led::On, wait_ms: SHORT_POLL_MS },
            State::Starting => TurnStart { green: Led::Keep, yellow: Led::Keep, red: Led::Keep, wait_ms: CONFIRMATION_POLL_MS },
            State::Running => TurnStart { green: Led::On, yellow: Led::Off, red: Led::Off, wait_ms: SHORT_POLL_MS },
            State::ShuttingDown => TurnStart { green: Led::Keep, yellow: Led::Keep, red: Led::Keep, wait_ms: CONFIRMATION_POLL_MS },
            State::Fault => TurnStart { green: Led::Off, yellow: Led::Off, red: Led::Toggle, wait_ms: FAULT_POLL_MS },
        }
    }

    /// Ends a turn with what ended its wait.
    pub fn handle(&mut self, input: Input) -> (r: TurnEnd)
        ensures
            (*final(self), r) == spec_handle(*old(self), input),
    {
        let nothing = TurnEnd {
            command: None,
            record_command_time: false,
            confirm: None,
            error: None,
            green: Led::Keep,
            yellow: Led::Keep,
            red: Led::Keep,
        };
        let all_off = TurnEnd { green: Led::Off, yellow: Led::Off, red: Led::Off, ..nothing };
        let yellow_only = TurnEnd { green: Led::Off, yellow: Led::On, red: Led::Off, ..nothing };
        match self.state {
            State::Idle => match input {
                Input::Event(CanEvent::CriticalError) => {
                    self.error_flag = true;
                    nothing
                },
                Input::Event(_) => nothing,
                Input::Timeout { button_green, .. } => {
                    if button_green {
                        self.state = State::Starting;
                        TurnEnd {
                            command: Some(CockpitCommand::Start),
                            record_command_time: true,
                            ..yellow_only
                        }
                    } else {
                        nothing
                    }
                },
            },
            State::Starting => match input {
                Input::Event(CanEvent::DashboardState(raw)) => {
                    if raw == DashboardState::Started.raw() {
                        self.state = State::Running;
                        TurnEnd { confirm: Some(CockpitState::Running), yellow: Led::Off, ..nothing }
                    } else {
                        nothing
                    }
                },
                Input::Event(CanEvent::ForceShutdown) => {
                    self.state = State::Idle;
                    all_off
                },
                Input::Event(CanEvent::CriticalError) => {
                    self.error_flag = true;
                    nothing
                },
                Input::Timeout { elapsed_ms, .. } => {
                    if elapsed_ms > CONFIRMATION_TIMEOUT_MS {
                        self.error_flag = true;
                        TurnEnd { error: Some(CAN_TIMEOUT), ..nothing }
                    } else {
                        yellow_only
                    }
                },
            },
            State::Running => match input {
                Input::Event(CanEvent::ForceShutdown) => {
                    self.state = State::Idle;
                    all_off
                },
                Input::Event(CanEvent::CriticalError) => {
                    self.error_flag = true;
                    nothing
                },
                Input::Event(_) => nothing,
                Input::Timeout { button_red, .. } => {
                    if button_red {
                        self.state = State::ShuttingDown;
                        TurnEnd {
                            command: Some(CockpitCommand::Shutdown),
                            record_command_time: true,
                            ..yellow_only
                        }
                    } else {
                        nothing
                    }
                },
            },
            State::ShuttingDown => match input {
                Input::Event(CanEvent::DashboardState(raw)) => {
                    if raw == DashboardState::Idle.raw() {
                        self.state = State::Idle;
                        TurnEnd { confirm: Some(CockpitState::Idle), yellow: Led::Off, ..nothing }
                    } else {
                        nothing
                    }
                },
                Input::Event(_) => nothing,
                Input::Timeout { elapsed_ms, .. } => {
                    if elapsed_ms > CONFIRMATION_TIMEOUT_MS {
                        self.state = State::Idle;
                        self.error_flag = true;
                        TurnEnd { error: Some(CAN_TIMEOUT), yellow: Led::Off, ..nothing }
                    } else {
                        yellow_only
                    }
                },
            },
            State::Fault => nothing,
        }
    }
}

/// The fault state is never left, and a detected error is never forgotten: whatever happens,
/// a turn that starts with the error flag set ends in fault, with the flag still set.
pub proof fn lemma_fault_is_final(c: Cockpit, input: Input)
    requires
        c.error_flag,
        c.state != State::ShuttingDown,
    ensures
        spec_begin(c).0.state == State::Fault,
        spec_handle(spec_begin(c).0, input).0 == (Cockpit { state: State::Fault, error_flag: true }),
{
}

/// A detected error is never forgotten: no turn clears the error flag.
pub proof fn lemma_error_flag_sticks(c: Cockpit, input: Input)
    ensures
        c.error_flag ==> spec_begin(c).0.error_flag,
        c.error_flag ==> spec_handle(c, input).0.error_flag,
{
}

/// A command not confirmed within the timeout is reported as a CAN timeout, and the cockpit is
/// in fault from the next turn on (a shutdown first ends in idle, with the yellow LED off).
pub proof fn lemma_unconfirmed_command_faults(c: Cockpit, b_green: bool, b_red: bool, elapsed_ms: u64)
    requires
        c.state == State::Starting || c.state == State::ShuttingDown,
        elapsed_ms > CONFIRMATION_TIMEOUT_MS,
    ensures
        ({
            let (c2, end) = spec_handle(c, Input::Timeout { button_green: b_green, button_red: b_red, elapsed_ms });
            &&& end.error == Some(CAN_TIMEOUT)
            &&& c2.error_flag
            &&& spec_begin(c2).0.state == State::Fault
        }),
{
}

/// The green button starts the boat only from idle, sending the start command and starting
/// the confirmation wait; the boat runs only once the dashboard announces it started, which
/// the cockpit confirms.
pub proof fn lemma_start_sequence(c: Cockpit, input: Input)
    requires
        !c.error_flag,
    ensures
        c.state == State::Idle ==> ((input matches Input::Timeout { button_green, .. } && button_green)
            ==> spec_handle(c, input) == (Cockpit { state: State::Starting, ..c }, TurnEnd {
            command: Some(CockpitCommand::Start),
            record_command_time: true,
            ..leds_only(Led::Off, Led::On, Led::Off)
        })),
        c.state != State::Running && spec_handle(c, input).0.state == State::Running ==> (c.state
            == State::Starting && input == Input::Event(CanEvent::DashboardState(started_raw()))
            && spec_handle(c, input).1.confirm == Some(CockpitState::Running)),
{
}

/// The yellow LED shows a command waiting for its confirmation: sending the start or shutdown
/// command lights it (green and red off), every turn of the wait keeps it on with the others
/// off, and the confirmation turns it off.
pub proof fn lemma_yellow_while_waiting(c: Cockpit, b_green: bool, b_red: bool, elapsed_ms: u64, raw: u8)
    requires
        !c.error_flag,
    ensures
        c.state == State::Idle && b_green ==> {
            let end = spec_handle(c, Input::Timeout { button_green: b_green, button_red: b_red, elapsed_ms }).1;
            end.green == Led::Off && end.yellow == Led::On && end.red == Led::Off
        },
        c.state == State::Running && b_red ==> {
            let end = spec_handle(c, Input::Timeout { button_green: b_green, button_red: b_red, elapsed_ms }).1;
            end.green == Led::Off && end.yellow == Led::On && end.red == Led::Off
        },
        (c.state == State::Starting || c.state == State::ShuttingDown) && elapsed_ms
            <= CONFIRMATION_TIMEOUT_MS ==> {
            let end = spec_handle(c, Input::Timeout { button_green: b_green, button_red: b_red, elapsed_ms }).1;
            end.green == Led::Off && end.yellow == Led::On && end.red == Led::Off
        },
        c.state == State::Starting && raw == started_raw() ==> spec_handle(
            c,
            Input::Event(CanEvent::DashboardState(raw)),
        ).1.yellow == Led::Off,
        c.state == State::ShuttingDown && raw == idle_raw() ==> spec_handle(
            c,
            Input::Event(CanEvent::DashboardState(raw)),
        ).1.yellow == Led::Off,
{
}

/// A turn that ends with nothing to do: no command, no confirmation, no error, LEDs untouched.
pub open spec fn is_idle_turn(end: TurnEnd) -> bool {
    &&& end.command is None
    &&& !end.record_command_time
    &&& end.confirm is None
    &&& end.error is None
    &&& end.green == Led::Keep
    &&& end.yellow == Led::Keep
    &&& end.red == Led::Keep
}

/// A forced shutdown from the dashboard stops a starting or running boat at once: the cockpit
/// goes back to idle with every LED off, sending nothing. In any other state it is ignored.
pub proof fn lemma_force_shutdown(c: Cockpit)
    ensures
        c.state == State::Starting || c.state == State::Running ==> {
            let (c2, end) = spec_handle(c, Input::Event(CanEvent::ForceShutdown));
            &&& c2.state == State::Idle
            &&& c2.error_flag == c.error_flag
            &&& end.command is None
            &&& !end.record_command_time
            &&& end.confirm is None
            &&& end.error is None
            &&& end.green == Led::Off
            &&& end.yellow == Led::Off
            &&& end.red == Led::Off
        },
        c.state != State::Starting && c.state != State::Running ==> {
            let (c2, end) = spec_handle(c, Input::Event(CanEvent::ForceShutdown));
            c2 == c && is_idle_turn(end)
        },
{
}

/// A critical error reported by the dashboard sets the error flag in idle, while starting and
/// while running, leaving the state and the LEDs to the next turn (which goes to fault); a
/// shutdown under way and the fault state ignore it.
pub proof fn lemma_critical_error(c: Cockpit)
    ensures
        ({
            let (c2, end) = spec_handle(c, Input::Event(CanEvent::CriticalError));
            &&& is_idle_turn(end)
            &&& c2.state == c.state
            &&& (c.state == State::Idle || c.state == State::Starting || c.state == State::Running)
                ==> c2.error_flag
            &&& (c.state == State::ShuttingDown || c.state == State::Fault) ==> c2.error_flag
                == c.error_flag
        }),
{
}

/// Commands are sent only on the pilot's buttons: a turn sends a command, and records its time,
/// exactly when it ends the wait in idle with the green button pressed (start) or in running
/// with the red button pressed (shutdown).
pub proof fn lemma_commands_only_on_buttons(c: Cockpit, input: Input)
    ensures
        spec_handle(c, input).1.command == Some(CockpitCommand::Start) <==> (c.state == State::Idle
            && (input matches Input::Timeout { button_green: true, .. })),
        spec_handle(c, input).1.command == Some(CockpitCommand::Shutdown) <==> (c.state
            == State::Running && (input matches Input::Timeout { button_red: true, .. })),
        spec_handle(c, input).1.record_command_time <==> spec_handle(c, input).1.command is Some,
{
}

/// The cockpit confirms a state only on the dashboard's matching announcement: running once the
/// dashboard says it started (while starting), idle once it says it is idle (while shutting
/// down).
pub proof fn lemma_confirmations(c: Cockpit, input: Input)
    ensures
        spec_handle(c, input).1.confirm == Some(CockpitState::Running) <==> (c.state
            == State::Starting && input == Input::Event(CanEvent::DashboardState(2))),
        spec_handle(c, input).1.confirm == Some(CockpitState::Idle) <==> (c.state
            == State::ShuttingDown && input == Input::Event(CanEvent::DashboardState(0))),
        spec_handle(c, input).1.confirm == Some(CockpitState::Running) ==> spec_handle(c, input).0.state
            == State::Running,
        spec_handle(c, input).1.confirm == Some(CockpitState::Idle) ==> spec_handle(c, input).0.state
            == State::Idle,
{
}

/// The only error the cockpit reports is the CAN timeout, exactly when a command has waited
/// more than ten seconds for its confirmation.
pub proof fn lemma_errors_only_on_timeout(c: Cockpit, input: Input)
    ensures
        spec_handle(c, input).1.error is Some <==> ((c.state == State::Starting || c.state
            == State::ShuttingDown) && (input matches Input::Timeout { elapsed_ms, .. } && elapsed_ms
            > 10_000)),
        spec_handle(c, input).1.error is Some ==> spec_handle(c, input).1.error == Some(2u16),
{
}

/// What each state shows at the start of a turn, and how long it waits: idle shows red, running
/// green, fault blinks red (the others off); starting and shutting down leave the LEDs as the
/// last turn set them. Idle and running poll every 50 ms, the confirmation waits 300 ms, fault
/// 10 ms.
pub proof fn lemma_turn_start_leds(c: Cockpit)
    requires
        !c.error_flag,
    ensures
        c.state == State::Idle ==> spec_begin(c).1 == (TurnStart { green: Led::Off, yellow: Led::Off, red: Led::On, wait_ms: 50 }),
        c.state == State::Running ==> spec_begin(c).1 == (TurnStart { green: Led::On, yellow: Led::Off, red: Led::Off, wait_ms: 50 }),
        c.state == State::Fault ==> spec_begin(c).1 == (TurnStart { green: Led::Off, yellow: Led::Off, red: Led::Toggle, wait_ms: 10 }),
        c.state == State::Starting || c.state == State::ShuttingDown ==> spec_begin(c).1 == (TurnStart { green: Led::Keep, yellow: Led::Keep, red: Led::Keep, wait_ms: 300 }),
        spec_begin(c).0 == c,
{
}

/// The cockpit's timings: ten seconds for a confirmation, polling every 50 ms while idle or
/// running, every 300 ms while waiting, every 10 ms in fault.
pub proof fn lemma_documented_timings()
    ensures
        CONFIRMATION_TIMEOUT_MS == 10_000 && SHORT_POLL_MS == 50 && CONFIRMATION_POLL_MS == 300
            && FAULT_POLL_MS == 10,
{
}

} // verus!
