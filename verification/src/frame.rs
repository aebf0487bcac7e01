//! CAN frames as the control units exchange them: an identifier (standard 11-bit or extended
//! 29-bit) and up to eight data bytes.
use vstd::prelude::*;

verus! {

/// Largest raw value of a standard (11-bit) CAN identifier.
pub const MAX_STANDARD_ID: u16 = 0x7FF;

/// Largest raw value of an extended (29-bit) CAN identifier.
pub const MAX_EXTENDED_ID: u32 = 0x1FFF_FFFF;

/// Largest number of data bytes in a classic CAN frame.
pub const MAX_DATA_LEN: usize = 8;

/// Calls `embedded_can::StandardId::new`, which returns `Some` exactly when the raw value fits
/// in 11 bits (`raw <= 0x7FF`); only that verdict is handed back.
#[verifier::external_body]
fn standard_id_fits(raw: u16) -> (r: bool)
    ensures
        r == (raw <= MAX_STANDARD_ID),
{
    embedded_can::StandardId::new(raw).is_some()
}

/// Calls `embedded_can::ExtendedId::new`, which returns `Some` exactly when the raw value fits
/// in 29 bits (`raw <= 0x1FFF_FFFF`); only that verdict is handed back.
#[verifier::external_body]
fn extended_id_fits(raw: u32) -> (r: bool)
    ensures
        r == (raw <= MAX_EXTENDED_ID),
{
    embedded_can::ExtendedId::new(raw).is_some()
}

/// The identifier of a frame.
#[derive(Debug, Clone, Copy, PartialEq, Eq, Structural)]
pub enum FrameId {
    Standard(u16),
    Extended(u32),
}

/// Why a frame could not be built.
#[derive(Debug, Clone, Copy, PartialEq, Eq, Structural)]
pub enum FrameCreateError {
    InvalidCanId,
    InvalidDataLength,
}

/// A classic CAN data frame.
pub struct Frame {
    id: FrameId,
    data: Vec<u8>,
}

impl Frame {
    /// The identifier of the frame.
    pub closed spec fn spec_id(&self) -> FrameId {
        self.id
    }

    /// The data bytes of the frame.
    pub closed spec fn spec_data(&self) -> Seq<u8> {
        self.data@
    }

    #[verifier::type_invariant]
    closed spec fn inv(self) -> bool {
        &&& self.data@.len() <= MAX_DATA_LEN
        &&& match self.id {
            FrameId::Standard(raw) => raw <= MAX_STANDARD_ID,
            FrameId::Extended(raw) => raw <= MAX_EXTENDED_ID,
        }
    }

    fn copy_data(data: &[u8]) -> (r: Vec<u8>)
        ensures
            r@ == data@,
    {
        let mut v: Vec<u8> = Vec::new();
        let mut i: usize = 0;
        while i < data.len()
            invariant
                i <= data@.len(),
                v@ == data@.subrange(0, i as int),
            decreases data@.len() - i,
        {
            v.push(data[i]);
            i = i + 1;
        }
        assert(v@ == data@);
        v
    }

    /// Builds a frame with a standard identifier. The identifier is checked first, then the
    /// number of data bytes.
    pub fn new_standard(raw_id: u16, data: &[u8]) -> (r: Result<Frame, FrameCreateError>)
        ensures
            raw_id > MAX_STANDARD_ID ==> r == Err::<Frame, _>(FrameCreateError::InvalidCanId),
            raw_id <= MAX_STANDARD_ID && data@.len() > MAX_DATA_LEN ==> r == Err::<Frame, _>(
                FrameCreateError::InvalidDataLength,
            ),
            raw_id <= MAX_STANDARD_ID && data@.len() <= MAX_DATA_LEN ==> (r matches Ok(f) && f.spec_id()
                == FrameId::Standard(raw_id) && f.spec_data() == data@),
    {
        if !standard_id_fits(raw_id) {
            return Err(FrameCreateError::InvalidCanId);
        }
        if data.len() > MAX_DATA_LEN {
            return Err(FrameCreateError::InvalidDataLength);
        }
        Ok(Frame { id: FrameId::Standard(raw_id), data: Self::copy_data(data) })
    }

    /// Builds a frame with an extended identifier. The identifier is checked first, then the
    /// number of data bytes.
    pub fn new_extended(raw_id: u32, data: &[u8]) -> (r: Result<Frame, FrameCreateError>)
        ensures
            raw_id > MAX_EXTENDED_ID ==> r == Err::<Frame, _>(FrameCreateError::InvalidCanId),
            raw_id <= MAX_EXTENDED_ID && data@.len() > MAX_DATA_LEN ==> r == Err::<Frame, _>(
                FrameCreateError::InvalidDataLength,
            ),
            raw_id <= MAX_EXTENDED_ID && data@.len() <= MAX_DATA_LEN ==> (r matches Ok(f) && f.spec_id()
                == FrameId::Extended(raw_id) && f.spec_data() == data@),
    {
        if !extended_id_fits(raw_id) {
            return Err(FrameCreateError::InvalidCanId);
        }
        if data.len() > MAX_DATA_LEN {
            return Err(FrameCreateError::InvalidDataLength);
        }
        Ok(Frame { id: FrameId::Extended(raw_id), data: Self::copy_data(data) })
    }

    /// The identifier of the frame.
    pub fn id(&self) -> (r: FrameId)
        ensures
            r == self.spec_id(),
            r matches FrameId::Standard(raw) ==> raw <= MAX_STANDARD_ID,
            r matches FrameId::Extended(raw) ==> raw <= MAX_EXTENDED_ID,
    {
        proof {
            use_type_invariant(self);
        }
        self.id
    }

    /// The data bytes of the frame.
    pub fn data(&self) -> (r: &[u8])
        ensures
            r@ == self.spec_data(),
            r@.len() <= MAX_DATA_LEN,
    {
        proof {
            use_type_invariant(self);
        }
        self.data.as_slice()
    }
}

/// Classic CAN: standard identifiers have 11 bits, extended ones 29, and a frame carries at
/// most eight bytes.
pub proof fn lemma_documented_limits()
    ensures
        MAX_STANDARD_ID == 0x7FF && MAX_EXTENDED_ID == 0x1FFF_FFFF && MAX_DATA_LEN == 8,
{
}

} // verus!
