//! Start/stop console: the start button sends the start frame three times and turns the green
//! LED on; the stop button sends the stop frame three times and turns the red LED on.
use vstd::prelude::*;

use crate::frame::{Frame, FrameId};

verus! {

/// How many times a frame is sent.
pub const REPEAT: u8 = 3;
/// Pause after each frame, in milliseconds.
pub const FRAME_GAP_MS: u64 = 100;
/// Pause between two readings of the buttons, in milliseconds.
pub const POLL_MS: u64 = 10;

#[derive(Debug, Clone, Copy, PartialEq, Eq, Structural)]
pub enum State {
    Stopped,
    Running,
}

/// The frame the start button sends.
pub open spec fn start_payload() -> Seq<u8> {
    seq![0xFAu8, 0xCEu8, 0xFAu8, 0xCEu8]
}

/// The frame the stop button sends.
pub open spec fn stop_payload() -> Seq<u8> {
    seq![0xDEu8, 0xADu8, 0xBEu8, 0xEFu8]
}

/// The start frame: identifier 0, payload FA CE FA CE.
pub fn start_frame() -> (r: Frame)
    ensures
        r.spec_id() == FrameId::Standard(0),
        r.spec_data() == start_payload(),
{
    let data: [u8; 4] = [0xFA, 0xCE, 0xFA, 0xCE];
    assert(data@ =~= start_payload());
    match Frame::new_standard(0, &data) {
        Ok(f) => f,
        Err(_) => {
            assert(false);
            Frame::new_standard(0, &[]).unwrap()
        },
    }
}

/// The stop frame: identifier 0, payload DE AD BE EF.
pub fn stop_frame() -> (r: Frame)
    ensures
        r.spec_id() == FrameId::Standard(0),
        r.spec_data() == stop_payload(),
{
    let data: [u8; 4] = [0xDE, 0xAD, 0xBE, 0xEF];
    assert(data@ =~= stop_payload());
    match Frame::new_standard(0, &data) {
        Ok(f) => f,
        Err(_) => {
            assert(false);
            Frame::new_standard(0, &[]).unwrap()
        },
    }
}

/// What a turn does, in order: the LED turned off first, the frame sent `REPEAT` times (each
/// followed by `FRAME_GAP_MS`), then the LED turned on.
#[derive(Debug, Clone, Copy, PartialEq, Eq, Structural)]
pub enum Command {
    /// Nothing to do this turn.
    Wait,
    /// Red LED off, start frame, green LED on.
    Start,
    /// Green LED off, stop frame, red LED on.
    Stop,
}

/// A turn in `state` with the buttons' levels: the command to carry out and the next state.
pub open spec fn spec_step(state: State, start_high: bool, stop_high: bool) -> (Command, State) {
    match state {
        State::Stopped => if start_high {
            (Command::Start, State::Running)
        } else {
            (Command::Wait, State::Stopped)
        },
        State::Running => if stop_high {
            (Command::Stop, State::Stopped)
        } else {
            (Command::Wait, State::Running)
        },
    }
}

/// A turn in `state` with the buttons' levels.
pub fn step(state: State, start_high: bool, stop_high: bool) -> (r: (Command, State))
    ensures
        r == spec_step(state, start_high, stop_high),
{
    match state {
        State::Stopped => if start_high {
            (Command::Start, State::Running)
        } else {
            (Command::Wait, State::Stopped)
        },
        State::Running => if stop_high {
            (Command::Stop, State::Stopped)
        } else {
            (Command::Wait, State::Running)
        },
    }
}

/// The console only alternates: a start is sent only when stopped, a stop only when running,
/// and each moves to the other state.
pub proof fn lemma_commands_alternate(state: State, start_high: bool, stop_high: bool)
    ensures
        spec_step(state, start_high, stop_high).0 == Command::Start ==> state == State::Stopped
            && spec_step(state, start_high, stop_high).1 == State::Running,
        spec_step(state, start_high, stop_high).0 == Command::Stop ==> state == State::Running
            && spec_step(state, start_high, stop_high).1 == State::Stopped,
        spec_step(state, start_high, stop_high).0 == Command::Wait ==> spec_step(state, start_high, stop_high).1 == state,
{
}

/// The console's frames have identifier 0 and payloads FA CE FA CE (start) and DE AD BE EF
/// (stop); each is sent three times, 100 ms apart, and the buttons are read every 10 ms.
pub proof fn lemma_documented_frames()
    ensures
        start_payload() == seq![0xFAu8, 0xCEu8, 0xFAu8, 0xCEu8],
        stop_payload() == seq![0xDEu8, 0xADu8, 0xBEu8, 0xEFu8],
        REPEAT == 3 && FRAME_GAP_MS == 100 && POLL_MS == 10,
{
}

} // verus!
