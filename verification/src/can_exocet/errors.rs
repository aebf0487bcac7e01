use vstd::prelude::*;

verus! {

/// Errors of the Exocet CAN layer.
#[derive(Debug, Copy, Clone, PartialEq, Eq, Structural)]
pub enum CanError {
    InvalidModule,
    FrameError,
    DroppedFrame,
    InvalidPayload,
    ExtendedHeaderReceived,
}

} // verus!
