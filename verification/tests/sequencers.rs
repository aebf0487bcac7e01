use exo_rs::frame::FrameId;
use exo_rs::relay_control::{self, Action, Relay, RelayLevels, State};
use exo_rs::start_stop::{self, Command, State as ConsoleState};

fn apply(mut l: RelayLevels, script: &[Action]) -> RelayLevels {
    for a in script {
        if let Action::Drive(relay, high) = *a {
            match relay {
                Relay::R1 => l.r1 = high,
                Relay::R2 => l.r2 = high,
                Relay::R3 => l.r3 = high,
                Relay::R4 => l.r4 = high,
                Relay::R5 => l.r5 = high,
                Relay::R6 => l.r6 = high,
            }
        }
    }
    l
}

#[test]
fn relay_sequence_waits_for_the_button() {
    assert_eq!(relay_control::step(State::Idle, false), (vec![], State::Idle));
    assert_eq!(relay_control::step(State::Idle, true).1, State::FirstState);
    assert_eq!(relay_control::step(State::WaitingForSecondState, false).1, State::WaitingForSecondState);
    assert_eq!(relay_control::step(State::WaitingForThirdState, true).1, State::ThirdState);
    let (script, next) = relay_control::step(State::ToggleState, false);
    assert_eq!(script, vec![Action::WaitMs(500), Action::ToggleLed]);
    assert_eq!(next, State::ToggleState);
    assert_eq!(relay_control::step(State::ToggleState, true).1, State::FourthState);
}

#[test]
fn relay_cycle_restores_levels() {
    let start = relay_control::power_up_levels();
    assert_eq!(start, RelayLevels { r1: false, r2: false, r3: false, r4: false, r5: true, r6: true });
    let mut levels = start;
    let mut state = State::Idle;
    let presses = [true, false, true, false, true, false, false, true, false];
    for press in presses {
        let (script, next) = relay_control::step(state, press);
        levels = apply(levels, &script);
        state = next;
    }
    assert_eq!(state, State::Idle);
    assert_eq!(levels, start);
}

#[test]
fn relay_first_script() {
    let (script, _) = relay_control::step(relay_control::State::FirstState, false);
    assert_eq!(
        script,
        vec![Action::Led(true), Action::Drive(Relay::R1, true), Action::WaitMs(30_000), Action::Led(false)]
    );
    let total: u64 = relay_control::step(relay_control::State::FourthState, false)
        .0
        .iter()
        .map(|a| if let Action::WaitMs(ms) = a { *ms } else { 0 })
        .sum();
    assert_eq!(total, 12_000);
}

#[test]
fn console_frames() {
    let f = start_stop::start_frame();
    assert_eq!(f.id(), FrameId::Standard(0));
    assert_eq!(f.data(), &[0xFA, 0xCE, 0xFA, 0xCE]);
    let g = start_stop::stop_frame();
    assert_eq!(g.data(), &[0xDE, 0xAD, 0xBE, 0xEF]);
}

#[test]
fn console_alternates() {
    assert_eq!(start_stop::step(ConsoleState::Stopped, false, true), (Command::Wait, ConsoleState::Stopped));
    assert_eq!(start_stop::step(ConsoleState::Stopped, true, true), (Command::Start, ConsoleState::Running));
    assert_eq!(start_stop::step(ConsoleState::Running, true, false), (Command::Wait, ConsoleState::Running));
    assert_eq!(start_stop::step(ConsoleState::Running, false, true), (Command::Stop, ConsoleState::Stopped));
}
