//! CRC-8 (Maxim/Dallas 1-Wire) checksums, computed by the `crc` crate.
use vstd::prelude::*;

verus! {

/// The CRC-8/MAXIM-DOW checksum (polynomial 0x31, reflected, initial value 0, no final xor)
/// of `data`, as the `crc` crate computes it.
pub uninterp spec fn crc8_maxim(data: Seq<u8>) -> u8;

/// Calls `crc::Crc::<u8>::checksum` on a `crc::Crc` built from `crc::CRC_8_MAXIM_DOW`. The
/// contract only names the result: it is `crc8_maxim` of the bytes handed over, a function of
/// those bytes alone.
#[verifier::external_body]
pub(crate) fn crc8_checksum(data: &[u8]) -> (r: u8)
    ensures
        r == crc8_maxim(data@),
{
    crc::Crc::<u8>::new(&crc::CRC_8_MAXIM_DOW).checksum(data)
}

} // verus!
