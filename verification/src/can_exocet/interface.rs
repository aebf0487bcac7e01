//! Payload-only frames of the Exocet protocol, whose identifier fields are given when sent.
use vstd::prelude::*;

use super::can_driver::{accepts, encode_payload, encoded_payload};
use super::enums::{FrameType, Priority, Subsystem};
use super::errors::CanError;
use crate::frame::{Frame, FrameId};

verus! {

/// The standard identifier for the given fields, with a signed module number: priority code
/// in bits 9-10, subsystem address in bits 4-8, local priority in bit 3, the low three bits of
/// the module's two's-complement form in bits 0-2.
pub open spec fn signed_module_id(priority: Priority, subsystem: Subsystem, module: i8, local_priority: bool) -> u16 {
    ((priority.spec_code() as u16) << 9u16) | ((subsystem.spec_code() as u16) << 4u16) | ((
    if local_priority {
        1u16
    } else {
        0u16
    }) << 3u16) | ((module & 0b111i8) as u16)
}

/// The payload of a frame, before its identifier is chosen.
pub struct CanFrame {
    payload: [u8; 8],
}

impl CanFrame {
    pub closed spec fn spec_payload(&self) -> Seq<u8> {
        self.payload@
    }

    /// Builds the payload of a frame of type `frame_type` carrying `data`. Fails with
    /// `InvalidPayload` when the frame type does not accept the value.
    pub fn new(frame_type: FrameType, data: u64) -> (r: Result<Self, CanError>)
        ensures
            r is Ok <==> accepts(frame_type, data),
            r matches Err(e) ==> e == CanError::InvalidPayload,
            r matches Ok(f) ==> f.spec_payload() == encoded_payload(frame_type, data),
    {
        let payload = encode_payload(frame_type, data)?;
        Ok(Self { payload })
    }

    /// The payload bytes.
    pub fn payload(&self) -> (r: [u8; 8])
        ensures
            r@ == self.spec_payload(),
    {
        self.payload
    }

    /// The standard frame carrying this payload with the given identifier fields. Fails with
    /// `InvalidModule` when the module number is above 3.
    pub fn to_frame(&self, priority: Priority, subsystem: Subsystem, module: i8, local_priority: bool) -> (r: Result<Frame, CanError>)
        ensures
            module > 0b11 ==> r == Err::<Frame, CanError>(CanError::InvalidModule),
            module <= 0b11 ==> (r matches Ok(f) && f.spec_id() == FrameId::Standard(
                signed_module_id(priority, subsystem, module, local_priority),
            ) && f.spec_data() == self.spec_payload()),
    {
        if module > 0b11 {
            return Err(CanError::InvalidModule);
        }
        let p: u16 = priority.code() as u16;
        let s: u16 = subsystem.code() as u16;
        let l: u16 = if local_priority {
            1
        } else {
            0
        };
        let m: i8 = module & 0b111;
        let id: u16 = ((p & 0b11) << 9u16) | ((s & 0b1_1111) << 4u16) | ((l & 0b1) << 3u16) | (m as u16);
        assert(id == (p << 9u16) | (s << 4u16) | (l << 3u16) | ((module & 0b111i8) as u16)
            && id <= 0x7FF) by (bit_vector)
            requires
                p <= 3,
                s <= 0x1F,
                l <= 1,
                m == module & 0b111i8,
                id == ((p & 0b11) << 9u16) | ((s & 0b1_1111) << 4u16) | ((l & 0b1) << 3u16) | (m as u16),
        ;
        match Frame::new_standard(id, &self.payload) {
            Ok(f) => Ok(f),
            Err(_) => Err(CanError::FrameError),
        }
    }
}

} // verus!
