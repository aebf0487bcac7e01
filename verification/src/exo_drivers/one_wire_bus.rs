//! Bit-banged 1-Wire bus: bit order of bytes on the line, and the byte sequences that address
//! a device (with the CRC-8 of the address).
use vstd::prelude::*;

use super::crc8::{crc8_checksum, crc8_maxim};
use super::ds2484::{le_byte, le_bytes};

verus! {

/// Reset low pulse (t_RSTL), in microseconds.
pub const RESET_LOW_DURATION_US: u64 = 480;
/// Reset high period (t_RSTH), in microseconds.
pub const RESET_HIGH_DURATION_US: u64 = 480;
/// Low pulse that writes a zero (t_LOW0), in microseconds.
pub const WRITE_ZERO_PULSE_DURATION_US: u64 = 60;
/// Low pulse that writes a one (t_LOW1), in microseconds.
pub const WRITE_ONE_PULSE_DURATION_US: u64 = 15;
/// Recovery between slots (t_REC), in microseconds.
pub const RECOVERY_DURATION_US: u64 = 2;
/// Time slot (t_SLOT), in microseconds.
pub const SLOT_DURATION_US: u64 = 60;
/// Low pulse telling the devices the leader reads, in microseconds.
pub const READ_INIT_PULSE_DURATION_US: u64 = 2;
/// Read data valid (t_RDV), in microseconds.
pub const READ_DATA_VALID_DURATION_US: u64 = 11;

/// 1-Wire ROM commands (network layer).
#[derive(Debug, Clone, Copy, PartialEq, Eq, Structural)]
pub enum RomCommand {
    ReadRom,
    MatchRom,
    SkipRom,
}

impl RomCommand {
    pub open spec fn spec_code(self) -> u8 {
        match self {
            RomCommand::ReadRom => 0x33,
            RomCommand::MatchRom => 0x55,
            RomCommand::SkipRom => 0xCC,
        }
    }

    /// The byte sent for the command.
    #[verifier::when_used_as_spec(spec_code)]
    pub fn code(self) -> (r: u8)
        ensures
            r == self.spec_code(),
    {
        match self {
            RomCommand::ReadRom => 0x33,
            RomCommand::MatchRom => 0x55,
            RomCommand::SkipRom => 0xCC,
        }
    }
}

/// Errors of the 1-Wire bus.
#[derive(Debug, Clone, Copy, PartialEq, Eq, Structural)]
pub enum Error {
    NoDeviceOnReset,
    NoDeviceOnSearch,
    TooManyDevices,
    NotEnoughDevices,
    InvalidCrc,
}

/// Bit `i` of `byte`.
pub open spec fn bit_of(byte: u8, i: int) -> bool {
    (byte >> (i as u8)) & 1u8 == 1u8
}

/// The eight bits a byte is written as, least significant first.
pub fn byte_to_bits(byte: u8) -> (r: [bool; 8])
    ensures
        forall|i: int| 0 <= i < 8 ==> r@[i] == bit_of(byte, i),
{
    let mut bits = [false, false, false, false, false, false, false, false];
    let mut i: u8 = 0;
    while i < 8
        invariant
            i <= 8,
            forall|j: int| 0 <= j < i ==> bits@[j] == bit_of(byte, j),
        decreases 8 - i,
    {
        bits[i as usize] = (byte >> i) & 0x01 == 0x01;
        i = i + 1;
    }
    bits
}

/// The byte whose bits, least significant first, are `bits`.
pub open spec fn byte_of_bits(bits: Seq<bool>) -> u8
    recommends
        bits.len() == 8,
{
    (if bits[0] { 1u8 } else { 0u8 }) | ((if bits[1] { 1u8 } else { 0u8 }) << 1u8) | ((if bits[2] {
        1u8
    } else {
        0u8
    }) << 2u8) | ((if bits[3] { 1u8 } else { 0u8 }) << 3u8) | ((if bits[4] { 1u8 } else { 0u8 })
        << 4u8) | ((if bits[5] { 1u8 } else { 0u8 }) << 5u8) | ((if bits[6] { 1u8 } else { 0u8 })
        << 6u8) | ((if bits[7] { 1u8 } else { 0u8 }) << 7u8)
}

/// The byte read from eight bits received least significant first.
pub fn bits_to_byte(bits: [bool; 8]) -> (r: u8)
    ensures
        r == byte_of_bits(bits@),
{
    let b0: u8 = if bits[0] { 1 } else { 0 };
    let b1: u8 = if bits[1] { 1 } else { 0 };
    let b2: u8 = if bits[2] { 1 } else { 0 };
    let b3: u8 = if bits[3] { 1 } else { 0 };
    let b4: u8 = if bits[4] { 1 } else { 0 };
    let b5: u8 = if bits[5] { 1 } else { 0 };
    let b6: u8 = if bits[6] { 1 } else { 0 };
    let b7: u8 = if bits[7] { 1 } else { 0 };
    b0 | (b1 << 1u8) | (b2 << 2u8) | (b3 << 3u8) | (b4 << 4u8) | (b5 << 5u8) | (b6 << 6u8) | (b7
        << 7u8)
}

/// Reading the bits a byte is written as gives the byte back.
pub proof fn lemma_bits_roundtrip(byte: u8)
    ensures
        byte_of_bits(Seq::new(8, |i: int| bit_of(byte, i))) == byte,
{
    let s = Seq::new(8, |i: int| bit_of(byte, i));
    assert(s[0] == ((byte >> 0u8) & 1u8 == 1u8));
    assert(s[1] == ((byte >> 1u8) & 1u8 == 1u8));
    assert(s[2] == ((byte >> 2u8) & 1u8 == 1u8));
    assert(s[3] == ((byte >> 3u8) & 1u8 == 1u8));
    assert(s[4] == ((byte >> 4u8) & 1u8 == 1u8));
    assert(s[5] == ((byte >> 5u8) & 1u8 == 1u8));
    assert(s[6] == ((byte >> 6u8) & 1u8 == 1u8));
    assert(s[7] == ((byte >> 7u8) & 1u8 == 1u8));
    assert((if (byte >> 0u8) & 1u8 == 1u8 { 1u8 } else { 0u8 }) | ((if (byte >> 1u8) & 1u8 == 1u8 {
        1u8
    } else {
        0u8
    }) << 1u8) | ((if (byte >> 2u8) & 1u8 == 1u8 { 1u8 } else { 0u8 }) << 2u8) | ((if (byte
        >> 3u8) & 1u8 == 1u8 {
        1u8
    } else {
        0u8
    }) << 3u8) | ((if (byte >> 4u8) & 1u8 == 1u8 { 1u8 } else { 0u8 }) << 4u8) | ((if (byte
        >> 5u8) & 1u8 == 1u8 {
        1u8
    } else {
        0u8
    }) << 5u8) | ((if (byte >> 6u8) & 1u8 == 1u8 { 1u8 } else { 0u8 }) << 6u8) | ((if (byte
        >> 7u8) & 1u8 == 1u8 {
        1u8
    } else {
        0u8
    }) << 7u8) == byte) by (bit_vector);
}

/// The number whose bytes, least significant first, are the seven bytes of `b` (a 56-bit ROM
/// address without its checksum).
pub open spec fn le_u56(b: Seq<u8>) -> u64
    recommends
        b.len() == 7,
{
    (b[0] as u64) | ((b[1] as u64) << 8u64) | ((b[2] as u64) << 16u64) | ((b[3] as u64) << 24u64)
        | ((b[4] as u64) << 32u64) | ((b[5] as u64) << 40u64) | ((b[6] as u64) << 48u64)
}

/// The address read back from a ROM: the seven address bytes, least significant first, once
/// the received checksum has been checked against `calculated_crc`. A mismatch gives
/// `InvalidCrc`.
pub fn check_rom(address_bytes: [u8; 7], received_crc: u8, calculated_crc: u8) -> (r: Result<u64, Error>)
    ensures
        received_crc != calculated_crc ==> r == Err::<u64, Error>(Error::InvalidCrc),
        received_crc == calculated_crc ==> r == Ok::<u64, Error>(le_u56(address_bytes@)),
{
    if received_crc != calculated_crc {
        return Err(Error::InvalidCrc);
    }
    let b = address_bytes;
    Ok((b[0] as u64) | ((b[1] as u64) << 8u64) | ((b[2] as u64) << 16u64) | ((b[3] as u64)
        << 24u64) | ((b[4] as u64) << 32u64) | ((b[5] as u64) << 40u64) | ((b[6] as u64)
        << 48u64))
}

/// The address read back from the bytes a device sent after a Read ROM command: seven address
/// bytes and their checksum, which is computed and compared.
pub fn rom_address(address_bytes: [u8; 7], received_crc: u8) -> (r: Result<u64, Error>)
    ensures
        received_crc != crc8_maxim(address_bytes@) ==> r == Err::<u64, Error>(Error::InvalidCrc),
        received_crc == crc8_maxim(address_bytes@) ==> r == Ok::<u64, Error>(
            le_u56(address_bytes@),
        ),
{
    let crc = crc8_checksum(address_bytes.as_slice());
    check_rom(address_bytes, received_crc, crc)
}

/// The 1-Wire bytes sent after a reset to give `command` to the device at `address`: Match ROM,
/// the seven low bytes of the address (least significant first) and their checksum `crc`; or
/// Skip ROM when there is no address; then the command.
pub open spec fn command_sequence(command: u8, address: Option<u64>, crc: u8) -> Seq<u8> {
    match address {
        Some(a) => seq![RomCommand::MatchRom.spec_code()] + le_bytes(a).subrange(0, 7) + seq![
            crc,
            command,
        ],
        None => seq![RomCommand::SkipRom.spec_code(), command],
    }
}

/// The 1-Wire bytes sent after a reset to give `command` to the device at `address`, with the
/// checksum of the address bytes computed here.
pub fn command_bytes(command: u8, address: Option<u64>) -> (r: Vec<u8>)
    ensures
        address matches Some(a) ==> r@ == command_sequence(
            command,
            address,
            crc8_maxim(le_bytes(a).subrange(0, 7)),
        ),
        address is None ==> r@ == command_sequence(command, address, 0),
{
    let mut v: Vec<u8> = Vec::new();
    match address {
        Some(address) => {
            v.push(RomCommand::MatchRom.code());
            let mut i: u64 = 0;
            while i < 7
                invariant
                    i <= 7,
                    v@ == seq![RomCommand::MatchRom.spec_code()] + le_bytes(address).subrange(
                        0,
                        i as int,
                    ),
                decreases 7 - i,
            {
                v.push(((address >> (i * 8)) & 0xFF) as u8);
                proof {
                    assert(le_bytes(address).subrange(0, i + 1) =~= le_bytes(address).subrange(
                        0,
                        i as int,
                    ).push(le_byte(address, i as int)));
                }
                i = i + 1;
            }
            let addr_bytes = vstd::slice::slice_subrange(v.as_slice(), 1, 8);
            assert(addr_bytes@ =~= le_bytes(address).subrange(0, 7));
            let crc = crc8_checksum(addr_bytes);
            v.push(crc);
            v.push(command);
        },
        None => {
            v.push(RomCommand::SkipRom.code());
            v.push(command);
        },
    }
    proof {
        match address {
            Some(a) => {
                assert(v@ =~= command_sequence(
                    command,
                    address,
                    crc8_maxim(le_bytes(a).subrange(0, 7)),
                ));
            },
            None => {
                assert(v@ =~= command_sequence(command, address, 0));
            },
        }
    }
    v
}

/// The address bytes sent to select a device (after Match ROM) are the ones its ROM holds:
/// for an address of at most 56 bits, assembling them gives the address back, and they are
/// followed by their own checksum, so a device reading them back with `rom_address` finds
/// them valid.
pub proof fn lemma_match_rom_carries_address(command: u8, address: u64)
    requires
        address < 0x0100_0000_0000_0000u64,
    ensures
        ({
            let crc = crc8_maxim(le_bytes(address).subrange(0, 7));
            let s = command_sequence(command, Some(address), crc);
            &&& s.len() == 10
            &&& s[0] == RomCommand::MatchRom.spec_code()
            &&& le_u56(s.subrange(1, 8)) == address
            &&& s[8] == crc8_maxim(s.subrange(1, 8))
            &&& s[9] == command
        }),
{
    let crc = crc8_maxim(le_bytes(address).subrange(0, 7));
    let s = command_sequence(command, Some(address), crc);
    assert(s.subrange(1, 8) =~= le_bytes(address).subrange(0, 7));
    let b = s.subrange(1, 8);
    assert(b[0] == ((address >> 0u64) & 0xFFu64) as u8);
    assert(b[1] == ((address >> 8u64) & 0xFFu64) as u8);
    assert(b[2] == ((address >> 16u64) & 0xFFu64) as u8);
    assert(b[3] == ((address >> 24u64) & 0xFFu64) as u8);
    assert(b[4] == ((address >> 32u64) & 0xFFu64) as u8);
    assert(b[5] == ((address >> 40u64) & 0xFFu64) as u8);
    assert(b[6] == ((address >> 48u64) & 0xFFu64) as u8);
    assert(((((address >> 0u64) & 0xFFu64) as u8) as u64) | (((((address >> 8u64) & 0xFFu64) as u8) as u64)
        << 8u64) | (((((address >> 16u64) & 0xFFu64) as u8) as u64) << 16u64) | (((((address >> 24u64)
        & 0xFFu64) as u8) as u64) << 24u64) | (((((address >> 32u64) & 0xFFu64) as u8) as u64)
        << 32u64) | (((((address >> 40u64) & 0xFFu64) as u8) as u64) << 40u64) | (((((address >> 48u64)
        & 0xFFu64) as u8) as u64) << 48u64) == address) by (bit_vector)
        requires
            address < 0x0100_0000_0000_0000u64,
    ;
}

/// Bytes go on the line least significant bit first: bit 0 of a byte is its parity, bit 7
/// says whether it is at least 128, and the byte read from eight bits weighs bit `i` by 2 to
/// the power `i`.
pub proof fn lemma_bit_order(byte: u8, bits: Seq<bool>)
    requires
        bits.len() == 8,
    ensures
        bit_of(byte, 0) == (byte % 2 == 1),
        bit_of(byte, 7) == (byte >= 128),
        byte_of_bits(bits) == (if bits[0] { 1int } else { 0int }) + (if bits[1] { 2int } else { 0int })
            + (if bits[2] { 4int } else { 0int }) + (if bits[3] { 8int } else { 0int }) + (if bits[4] {
            16int
        } else {
            0int
        }) + (if bits[5] { 32int } else { 0int }) + (if bits[6] { 64int } else { 0int }) + (if bits[7] {
            128int
        } else {
            0int
        }),
        RomCommand::ReadRom.spec_code() == 0x33 && RomCommand::MatchRom.spec_code() == 0x55
            && RomCommand::SkipRom.spec_code() == 0xCC,
{
    assert(((byte >> 0u8) & 1u8 == 1u8) == (byte % 2 == 1)) by (bit_vector);
    assert(((byte >> 7u8) & 1u8 == 1u8) == (byte >= 128)) by (bit_vector);
    let b0: u8 = if bits[0] { 1 } else { 0 };
    let b1: u8 = if bits[1] { 1 } else { 0 };
    let b2: u8 = if bits[2] { 1 } else { 0 };
    let b3: u8 = if bits[3] { 1 } else { 0 };
    let b4: u8 = if bits[4] { 1 } else { 0 };
    let b5: u8 = if bits[5] { 1 } else { 0 };
    let b6: u8 = if bits[6] { 1 } else { 0 };
    let b7: u8 = if bits[7] { 1 } else { 0 };
    assert(b0 | (b1 << 1u8) | (b2 << 2u8) | (b3 << 3u8) | (b4 << 4u8) | (b5 << 5u8) | (b6 << 6u8) | (b7
        << 7u8) == b0 + 2 * b1 + 4 * b2 + 8 * b3 + 16 * b4 + 32 * b5 + 64 * b6 + 128 * b7) by (bit_vector)
        requires
            b0 <= 1,
            b1 <= 1,
            b2 <= 1,
            b3 <= 1,
            b4 <= 1,
            b5 <= 1,
            b6 <= 1,
            b7 <= 1,
    ;
}

} // verus!
