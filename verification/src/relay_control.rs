//! Relay sequencer of the relay board: a button press moves it through four timed relay
//! scripts, with waits for the button in between. After the fourth script every relay is back
//! where it started.
use vstd::prelude::*;

verus! {

#[derive(Debug, Clone, Copy, PartialEq, Eq, Structural)]
pub enum State {
    Idle,
    FirstState,
    SecondState,
    ThirdState,
    FourthState,
    WaitingForSecondState,
    WaitingForThirdState,
    ToggleState,
}

/// The six relays.
#[derive(Debug, Clone, Copy, PartialEq, Eq, Structural)]
pub enum Relay {
    R1,
    R2,
    R3,
    R4,
    R5,
    R6,
}

/// One step of a script, done in order.
#[derive(Debug, Clone, Copy, PartialEq, Eq, Structural)]
pub enum Action {
    /// Drive a relay output high (`true`) or low.
    Drive(Relay, bool),
    /// Drive the user LED high (`true`) or low.
    Led(bool),
    ToggleLed,
    /// Wait this many milliseconds.
    WaitMs(u64),
}

/// Levels of the six relay outputs.
#[derive(Debug, Clone, Copy, PartialEq, Eq, Structural)]
pub struct RelayLevels {
    pub r1: bool,
    pub r2: bool,
    pub r3: bool,
    pub r4: bool,
    pub r5: bool,
    pub r6: bool,
}

/// The levels at power-up: relays 1 to 4 low, 5 and 6 high.
pub open spec fn initial_levels() -> RelayLevels {
    RelayLevels { r1: false, r2: false, r3: false, r4: false, r5: true, r6: true }
}

/// The levels at power-up.
pub fn power_up_levels() -> (r: RelayLevels)
    ensures
        r == initial_levels(),
{
    RelayLevels { r1: false, r2: false, r3: false, r4: false, r5: true, r6: true }
}

/// The levels after driving `relay` to `high`.
pub open spec fn set_level(l: RelayLevels, relay: Relay, high: bool) -> RelayLevels {
    match relay {
        Relay::R1 => RelayLevels { r1: high, ..l },
        Relay::R2 => RelayLevels { r2: high, ..l },
        Relay::R3 => RelayLevels { r3: high, ..l },
        Relay::R4 => RelayLevels { r4: high, ..l },
        Relay::R5 => RelayLevels { r5: high, ..l },
        Relay::R6 => RelayLevels { r6: high, ..l },
    }
}

/// The levels after a script.
pub open spec fn apply(l: RelayLevels, script: Seq<Action>) -> RelayLevels
    decreases script.len(),
{
    if script.len() == 0 {
        l
    } else {
        let l2 = apply(l, script.drop_last());
        match script.last() {
            Action::Drive(relay, high) => set_level(l2, relay, high),
            _ => l2,
        }
    }
}

/// First script: relay 1 on for the first stage, LED on for thirty seconds.
pub open spec fn first_script() -> Seq<Action> {
    seq![Action::Led(true), Action::Drive(Relay::R1, true), Action::WaitMs(30_000), Action::Led(false)]
}

/// Second script: relay 2 for thirty seconds, then relay 3, then relay 2 off.
pub open spec fn second_script() -> Seq<Action> {
    seq![
        Action::Led(true),
        Action::Drive(Relay::R2, true),
        Action::WaitMs(30_000),
        Action::Drive(Relay::R3, true),
        Action::WaitMs(2_000),
        Action::Led(false),
        Action::Drive(Relay::R2, false),
    ]
}

/// Third script: relay 4, then relays 5 and 6 off, then relay 4 off.
pub open spec fn third_script() -> Seq<Action> {
    seq![
        Action::Drive(Relay::R4, true),
        Action::Led(true),
        Action::WaitMs(2_000),
        Action::Drive(Relay::R5, false),
        Action::WaitMs(30_000),
        Action::Drive(Relay::R6, false),
        Action::WaitMs(2_000),
        Action::Led(false),
        Action::Drive(Relay::R4, false),
    ]
}

/// Fourth script: everything back, two seconds apart.
pub open spec fn fourth_script() -> Seq<Action> {
    seq![
        Action::Drive(Relay::R4, true),
        Action::Led(true),
        Action::WaitMs(2_000),
        Action::Drive(Relay::R6, true),
        Action::WaitMs(2_000),
        Action::Drive(Relay::R5, true),
        Action::WaitMs(2_000),
        Action::Drive(Relay::R4, false),
        Action::Drive(Relay::R2, true),
        Action::WaitMs(2_000),
        Action::Drive(Relay::R3, false),
        Action::WaitMs(2_000),
        Action::Drive(Relay::R2, false),
        Action::WaitMs(2_000),
        Action::Drive(Relay::R1, false),
    ]
}

/// Blinking while waiting for the last press.
pub open spec fn toggle_script() -> Seq<Action> {
    seq![Action::WaitMs(500), Action::ToggleLed]
}

/// One turn of the sequencer in `state`, with the button's level read in that turn (only the
/// waiting states and the blinking state read it): the script to run, then the next state.
pub open spec fn spec_step(state: State, button_high: bool) -> (Seq<Action>, State) {
    match state {
        State::Idle => (Seq::empty(), if button_high {
            State::FirstState
        } else {
            State::Idle
        }),
        State::FirstState => (first_script(), State::WaitingForSecondState),
        State::WaitingForSecondState => (Seq::empty(), if button_high {
            State::SecondState
        } else {
            State::WaitingForSecondState
        }),
        State::SecondState => (second_script(), State::WaitingForThirdState),
        State::WaitingForThirdState => (Seq::empty(), if button_high {
            State::ThirdState
        } else {
            State::WaitingForThirdState
        }),
        State::ThirdState => (third_script(), State::ToggleState),
        State::ToggleState => (toggle_script(), if button_high {
            State::FourthState
        } else {
            State::ToggleState
        }),
        State::FourthState => (fourth_script(), State::Idle),
    }
}

/// One turn of the sequencer: the script to run, then the next state.
pub fn step(state: State, button_high: bool) -> (r: (Vec<Action>, State))
    ensures
        r.0@ == spec_step(state, button_high).0,
        r.1 == spec_step(state, button_high).1,
{
    match state {
        State::Idle => (Vec::new(), if button_high {
            State::FirstState
        } else {
            State::Idle
        }),
        State::FirstState => {
            let v = vec![Action::Led(true), Action::Drive(Relay::R1, true), Action::WaitMs(30_000), Action::Led(false)];
            assert(v@ =~= first_script());
            (v, State::WaitingForSecondState)
        },
        State::WaitingForSecondState => (Vec::new(), if button_high {
            State::SecondState
        } else {
            State::WaitingForSecondState
        }),
        State::SecondState => {
            let v = vec![
                Action::Led(true),
                Action::Drive(Relay::R2, true),
                Action::WaitMs(30_000),
                Action::Drive(Relay::R3, true),
                Action::WaitMs(2_000),
                Action::Led(false),
                Action::Drive(Relay::R2, false),
            ];
            assert(v@ =~= second_script());
            (v, State::WaitingForThirdState)
        },
        State::WaitingForThirdState => (Vec::new(), if button_high {
            State::ThirdState
        } else {
            State::WaitingForThirdState
        }),
        State::ThirdState => {
            let v = vec![
                Action::Drive(Relay::R4, true),
                Action::Led(true),
                Action::WaitMs(2_000),
                Action::Drive(Relay::R5, false),
                Action::WaitMs(30_000),
                Action::Drive(Relay::R6, false),
                Action::WaitMs(2_000),
                Action::Led(false),
                Action::Drive(Relay::R4, false),
            ];
            assert(v@ =~= third_script());
            (v, State::ToggleState)
        },
        State::ToggleState => {
            let v = vec![Action::WaitMs(500), Action::ToggleLed];
            assert(v@ =~= toggle_script());
            (v, if button_high {
                State::FourthState
            } else {
                State::ToggleState
            })
        },
        State::FourthState => {
            let v = vec![
                Action::Drive(Relay::R4, true),
                Action::Led(true),
                Action::WaitMs(2_000),
                Action::Drive(Relay::R6, true),
                Action::WaitMs(2_000),
                Action::Drive(Relay::R5, true),
                Action::WaitMs(2_000),
                Action::Drive(Relay::R4, false),
                Action::Drive(Relay::R2, true),
                Action::WaitMs(2_000),
                Action::Drive(Relay::R3, false),
                Action::WaitMs(2_000),
                Action::Drive(Relay::R2, false),
                Action::WaitMs(2_000),
                Action::Drive(Relay::R1, false),
            ];
            assert(v@ =~= fourth_script());
            (v, State::Idle)
        },
    }
}

/// A full cycle leaves the relays as it found them: from the power-up levels, the four
/// scripts in turn bring every relay back to its power-up level.
pub proof fn lemma_cycle_restores_relays()
    ensures
        apply(apply(apply(apply(initial_levels(), first_script()), second_script()), third_script()),
            fourth_script()) == initial_levels(),
{
    reveal_with_fuel(apply, 16);
}

/// The total wait of a script, in milliseconds.
pub open spec fn total_wait(script: Seq<Action>) -> int
    decreases script.len(),
{
    if script.len() == 0 {
        0
    } else {
        total_wait(script.drop_last()) + match script.last() {
            Action::WaitMs(ms) => ms as int,
            _ => 0,
        }
    }
}

/// The relays after each stage, from power-up: the first closes relay 1; the second leaves
/// relay 3 closed (relay 2 only for its thirty seconds); the third opens relays 5 and 6 (relay 4
/// only meanwhile); the stages last 30 s, 32 s, 34 s and 12 s; the sequence moves on from a
/// waiting state only on a press, and from a script's state whatever the button.
pub proof fn lemma_stage_levels(button_high: bool)
    ensures
        ({
            let l1 = apply(initial_levels(), first_script());
            let l2 = apply(l1, second_script());
            let l3 = apply(l2, third_script());
            &&& l1 == (RelayLevels { r1: true, r2: false, r3: false, r4: false, r5: true, r6: true })
            &&& l2 == (RelayLevels { r1: true, r2: false, r3: true, r4: false, r5: true, r6: true })
            &&& l3 == (RelayLevels { r1: true, r2: false, r3: true, r4: false, r5: false, r6: false })
        }),
        total_wait(first_script()) == 30_000 && total_wait(second_script()) == 32_000
            && total_wait(third_script()) == 34_000 && total_wait(fourth_script()) == 12_000,
        spec_step(State::Idle, button_high).1 == (if button_high { State::FirstState } else { State::Idle }),
        spec_step(State::WaitingForSecondState, button_high).1 == (if button_high {
            State::SecondState
        } else {
            State::WaitingForSecondState
        }),
        spec_step(State::WaitingForThirdState, button_high).1 == (if button_high {
            State::ThirdState
        } else {
            State::WaitingForThirdState
        }),
        spec_step(State::ToggleState, button_high).1 == (if button_high { State::FourthState } else { State::ToggleState }),
        spec_step(State::FirstState, button_high).1 == State::WaitingForSecondState,
        spec_step(State::SecondState, button_high).1 == State::WaitingForThirdState,
        spec_step(State::ThirdState, button_high).1 == State::ToggleState,
        spec_step(State::FourthState, button_high).1 == State::Idle,
{
    reveal_with_fuel(apply, 16);
    reveal_with_fuel(total_wait, 16);
}

} // verus!
