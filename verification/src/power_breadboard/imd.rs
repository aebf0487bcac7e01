//! Insulation monitoring device (IMD): the frame that starts it, and the reading of its
//! insulation resistance reports.
use vstd::prelude::*;

use crate::frame::{Frame, FrameId};

verus! {

/// Extended identifier of the start command.
pub const START_CMD_ID: u32 = 0x1819A1A5;

/// Below this insulation resistance, in ohms, there is an insulation fault.
pub const RESISTANCE_THRESHOLD: u32 = 1_000_000;

/// Ohms per unit of the reported resistance.
pub const RESISTANCE_SCALE: u32 = 8192;

/// The payload of the start command.
pub open spec fn start_cmd() -> Seq<u8> {
    seq![0x00u8, 0x01u8, 0x02u8, 0x03u8, 0x04u8, 0x05u8, 0x06u8, 0x07u8]
}

/// The frame that starts the IMD.
pub fn start_frame() -> (r: Frame)
    ensures
        r.spec_id() == FrameId::Extended(START_CMD_ID),
        r.spec_data() == start_cmd(),
{
    let cmd: [u8; 8] = [0x00, 0x01, 0x02, 0x03, 0x04, 0x05, 0x06, 0x07];
    assert(cmd@ =~= start_cmd());
    match Frame::new_extended(START_CMD_ID, &cmd) {
        Ok(f) => f,
        Err(_) => {
            assert(false);
            Frame::new_extended(0, &cmd).unwrap()
        },
    }
}

/// A reading of the IMD.
#[derive(Debug, Clone, Copy, PartialEq, Eq, Structural)]
pub struct ImdReading {
    /// The lower of the two insulation resistances (positive and negative rails), in the
    /// device's unit.
    pub r_iso_min: u16,
    /// That resistance, in ohms.
    pub resistance_ohms: u32,
    /// Whether it is below the fault threshold.
    pub is_fault: bool,
}

/// The insulation resistance on the positive rail: bytes 1 (high) and 2 (low).
pub open spec fn r_iso_plus(data: Seq<u8>) -> int {
    256 * data[1] + data[2]
}

/// The insulation resistance on the negative rail: bytes 5 (high) and 6 (low).
pub open spec fn r_iso_minus(data: Seq<u8>) -> int {
    256 * data[5] + data[6]
}

/// Reads a report of the IMD. Reports that are not eight bytes long are ignored (`None`).
pub fn imd_reading(data: &[u8]) -> (r: Option<ImdReading>)
    ensures
        data@.len() != 8 ==> r is None,
        data@.len() == 8 ==> (r matches Some(reading) && {
            let m = if r_iso_plus(data@) <= r_iso_minus(data@) {
                r_iso_plus(data@)
            } else {
                r_iso_minus(data@)
            };
            &&& reading.r_iso_min == m
            &&& reading.resistance_ohms == m * RESISTANCE_SCALE
            &&& reading.is_fault == (m * RESISTANCE_SCALE < RESISTANCE_THRESHOLD)
        }),
{
    if data.len() != 8 {
        return None;
    }
    let plus: u16 = ((data[1] as u16) << 8u16) | (data[2] as u16);
    let minus: u16 = ((data[5] as u16) << 8u16) | (data[6] as u16);
    let (h1, l1, h2, l2) = (data[1], data[2], data[5], data[6]);
    assert(plus == 256 * h1 + l1) by (bit_vector)
        requires
            plus == ((h1 as u16) << 8u16) | (l1 as u16),
    ;
    assert(minus == 256 * h2 + l2) by (bit_vector)
        requires
            minus == ((h2 as u16) << 8u16) | (l2 as u16),
    ;
    let r_iso_min: u16 = if plus <= minus {
        plus
    } else {
        minus
    };
    let resistance_ohms: u32 = (r_iso_min as u32) * RESISTANCE_SCALE;
    Some(ImdReading { r_iso_min, resistance_ohms, is_fault: resistance_ohms < RESISTANCE_THRESHOLD })
}

/// The insulation monitor is started by extended frame 0x1819A1A5 carrying 0 to 7; a report's
/// resistance is the smaller of the two rails' values in units of 8192 ohms, and below one
/// megohm it is a fault.
pub proof fn lemma_documented_imd()
    ensures
        START_CMD_ID == 0x1819A1A5,
        start_cmd() == seq![0u8, 1u8, 2u8, 3u8, 4u8, 5u8, 6u8, 7u8],
        RESISTANCE_SCALE == 8192 && RESISTANCE_THRESHOLD == 1_000_000,
{
}

} // verus!
