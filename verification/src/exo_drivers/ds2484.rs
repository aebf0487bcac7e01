//! DS2484 I2C-to-1-Wire bridge: its command bytes, status bits, and the 1-Wire byte sequences
//! that address a device.
use vstd::prelude::*;

use super::crc8::{crc8_checksum, crc8_maxim};
use super::one_wire_bus::le_u56;

verus! {

/// I2C address of the bridge.
pub const DS2484_ADDR: u8 = 0x18;

/// 1-Wire write byte.
pub const COMMAND_1WWB: u8 = 0xA5;
/// 1-Wire read byte.
pub const COMMAND_1WRB: u8 = 0x96;
/// Set read pointer.
pub const COMMAND_SRP: u8 = 0xE1;
/// Read pointer code of the read data register.
pub const COMMAND_READ_DATA_REG: u8 = 0xE1;
/// Read pointer code of the status register.
pub const COMMAND_STATUS_REG: u8 = 0xF0;
/// 1-Wire reset.
pub const COMMAND_1WIRE_RESET: u8 = 0xB4;
/// 1-Wire triplet.
pub const COMMAND_1WT: u8 = 0x78;

/// Status bit: 1-Wire busy.
pub const STATUS_1WB: u8 = 0x01;
/// Status bit: presence pulse detected.
pub const STATUS_PPD: u8 = 0x02;

/// 1-Wire ROM commands (network layer).
#[derive(Debug, Clone, Copy, PartialEq, Eq, Structural)]
pub enum RomCommand {
    ReadRom,
    MatchRom,
    SkipRom,
    SearchRom,
}

impl RomCommand {
    pub open spec fn spec_code(self) -> u8 {
        match self {
            RomCommand::ReadRom => 0x33,
            RomCommand::MatchRom => 0x55,
            RomCommand::SkipRom => 0xCC,
            RomCommand::SearchRom => 0xF0,
        }
    }

    /// The byte sent for the command.
    #[verifier::when_used_as_spec(spec_code)]
    pub fn code(self) -> (r: u8)
        ensures
            r == self.spec_code(),
    {
        match self {
            RomCommand::ReadRom => 0x33,
            RomCommand::MatchRom => 0x55,
            RomCommand::SkipRom => 0xCC,
            RomCommand::SearchRom => 0xF0,
        }
    }
}

/// Errors of the bridge.
#[derive(Debug, Clone, Copy, PartialEq, Eq, Structural)]
pub enum Error {
    I2cError,
    NoDeviceOnReset,
    InvalidCrc,
    UnexpectedReservedValue,
}

/// Whether status register value `status` reports a presence pulse after a reset.
pub fn presence_detected(status: u8) -> (r: bool)
    ensures
        r == (status & STATUS_PPD != 0),
{
    (status & STATUS_PPD) != 0
}

/// Outcome of a reset given the status register read after it: `NoDeviceOnReset` when no
/// device answered with a presence pulse.
pub fn reset_outcome(status: u8) -> (r: Result<(), Error>)
    ensures
        r is Ok <==> status & STATUS_PPD != 0,
        r matches Err(e) ==> e == Error::NoDeviceOnReset,
{
    if presence_detected(status) {
        Ok(())
    } else {
        Err(Error::NoDeviceOnReset)
    }
}

/// Whether status register value `status` reports an idle 1-Wire line.
pub fn is_1wire_free(status: u8) -> (r: bool)
    ensures
        r == (status & STATUS_1WB == 0),
{
    (status & STATUS_1WB) == 0
}

/// I2C bytes that write `byte` on the 1-Wire line.
pub fn write_byte_command(byte: u8) -> (r: [u8; 2])
    ensures
        r@ == seq![COMMAND_1WWB, byte],
{
    let r = [COMMAND_1WWB, byte];
    assert(r@ =~= seq![COMMAND_1WWB, byte]);
    r
}

/// I2C bytes that point the read pointer at the status register.
pub fn status_pointer() -> (r: [u8; 2])
    ensures
        r@ == seq![COMMAND_SRP, COMMAND_STATUS_REG],
{
    let r = [COMMAND_SRP, COMMAND_STATUS_REG];
    assert(r@ =~= seq![COMMAND_SRP, COMMAND_STATUS_REG]);
    r
}

/// I2C bytes that point the read pointer at the read data register.
pub fn read_data_pointer() -> (r: [u8; 2])
    ensures
        r@ == seq![COMMAND_SRP, COMMAND_READ_DATA_REG],
{
    let r = [COMMAND_SRP, COMMAND_READ_DATA_REG];
    assert(r@ =~= seq![COMMAND_SRP, COMMAND_READ_DATA_REG]);
    r
}

/// Byte `i` (least significant first) of `x`.
pub open spec fn le_byte(x: u64, i: int) -> u8 {
    ((x >> ((i * 8) as u64)) & 0xFFu64) as u8
}

/// The eight bytes of `x`, least significant first.
pub open spec fn le_bytes(x: u64) -> Seq<u8> {
    Seq::new(8, |i: int| le_byte(x, i))
}

/// The number whose bytes, least significant first, are the eight bytes of `b`.
pub open spec fn le_u64(b: Seq<u8>) -> u64
    recommends
        b.len() == 8,
{
    (b[0] as u64) | ((b[1] as u64) << 8u64) | ((b[2] as u64) << 16u64) | ((b[3] as u64) << 24u64)
        | ((b[4] as u64) << 32u64) | ((b[5] as u64) << 40u64) | ((b[6] as u64) << 48u64) | ((
    b[7] as u64) << 56u64)
}

/// Assembling the bytes of a number gives the number back.
pub proof fn lemma_le_roundtrip(x: u64)
    ensures
        le_u64(le_bytes(x)) == x,
{
    let b = le_bytes(x);
    assert(b[0] == ((x >> 0u64) & 0xFFu64) as u8);
    assert(b[1] == ((x >> 8u64) & 0xFFu64) as u8);
    assert(b[2] == ((x >> 16u64) & 0xFFu64) as u8);
    assert(b[3] == ((x >> 24u64) & 0xFFu64) as u8);
    assert(b[4] == ((x >> 32u64) & 0xFFu64) as u8);
    assert(b[5] == ((x >> 40u64) & 0xFFu64) as u8);
    assert(b[6] == ((x >> 48u64) & 0xFFu64) as u8);
    assert(b[7] == ((x >> 56u64) & 0xFFu64) as u8);
    assert(((((x >> 0u64) & 0xFFu64) as u8) as u64) | (((((x >> 8u64) & 0xFFu64) as u8) as u64)
        << 8u64) | (((((x >> 16u64) & 0xFFu64) as u8) as u64) << 16u64) | (((((x >> 24u64)
        & 0xFFu64) as u8) as u64) << 24u64) | (((((x >> 32u64) & 0xFFu64) as u8) as u64)
        << 32u64) | (((((x >> 40u64) & 0xFFu64) as u8) as u64) << 40u64) | (((((x >> 48u64)
        & 0xFFu64) as u8) as u64) << 48u64) | (((((x >> 56u64) & 0xFFu64) as u8) as u64)
        << 56u64) == x) by (bit_vector);
}

/// The address read back from a ROM: all eight bytes, least significant first, once the last
/// byte has been checked against `calculated_crc`, the checksum of the first seven. A
/// mismatch gives `InvalidCrc`.
pub fn check_rom(rom: [u8; 8], calculated_crc: u8) -> (r: Result<u64, Error>)
    ensures
        rom@[7] != calculated_crc ==> r == Err::<u64, Error>(Error::InvalidCrc),
        rom@[7] == calculated_crc ==> r == Ok::<u64, Error>(le_u64(rom@)),
{
    if rom[7] != calculated_crc {
        return Err(Error::InvalidCrc);
    }
    let address: u64 = (rom[0] as u64) | ((rom[1] as u64) << 8u64) | ((rom[2] as u64) << 16u64)
        | ((rom[3] as u64) << 24u64) | ((rom[4] as u64) << 32u64) | ((rom[5] as u64) << 40u64)
        | ((rom[6] as u64) << 48u64) | ((rom[7] as u64) << 56u64);
    Ok(address)
}

/// The address read back from the eight ROM bytes a device sent after a Read ROM command: the
/// checksum of the first seven bytes is computed and checked against the last one.
pub fn rom_address(rom: [u8; 8]) -> (r: Result<u64, Error>)
    ensures
        rom@[7] != crc8_maxim(rom@.subrange(0, 7)) ==> r == Err::<u64, Error>(Error::InvalidCrc),
        rom@[7] == crc8_maxim(rom@.subrange(0, 7)) ==> r == Ok::<u64, Error>(le_u64(rom@)),
{
    let crc = crc8_checksum(slice_prefix(&rom, 7));
    check_rom(rom, crc)
}

/// The first `n` bytes of `rom`.
fn slice_prefix(rom: &[u8; 8], n: usize) -> (r: &[u8])
    requires
        n <= 8,
    ensures
        r@ == rom@.subrange(0, n as int),
{
    let s: &[u8] = rom.as_slice();
    vstd::slice::slice_subrange(s, 0, n)
}

/// The 1-Wire bytes sent after a reset to give `command` to the device at `address`: Match ROM,
/// the seven low bytes of the address (least significant first) and their checksum (the
/// address need not hold its own checksum), or Skip ROM when there is no address; then the
/// command.
pub open spec fn command_sequence(command: u8, address: Option<u64>) -> Seq<u8> {
    match address {
        Some(a) => seq![RomCommand::MatchRom.spec_code()] + le_bytes(a).subrange(0, 7) + seq![
            crc8_maxim(le_bytes(a).subrange(0, 7)),
            command,
        ],
        None => seq![RomCommand::SkipRom.spec_code(), command],
    }
}

/// The 1-Wire bytes sent after a reset to give `command` to the device at `address`.
pub fn command_bytes(command: u8, address: Option<u64>) -> (r: Vec<u8>)
    ensures
        r@ == command_sequence(command, address),
{
    let mut v: Vec<u8> = Vec::new();
    match address {
        Some(address) => {
            v.push(RomCommand::MatchRom.code());
            let mut i: u64 = 0;
            while i < 7
                invariant
                    i <= 7,
                    v@ == seq![RomCommand::MatchRom.spec_code()] + le_bytes(address).subrange(
                        0,
                        i as int,
                    ),
                decreases 7 - i,
            {
                v.push(((address >> (i * 8)) & 0xFF) as u8);
                proof {
                    assert(le_bytes(address).subrange(0, i + 1) =~= le_bytes(address).subrange(
                        0,
                        i as int,
                    ).push(le_byte(address, i as int)));
                }
                i = i + 1;
            }
            let addr_bytes = vstd::slice::slice_subrange(v.as_slice(), 1, 8);
            assert(addr_bytes@ =~= le_bytes(address).subrange(0, 7));
            let crc = crc8_checksum(addr_bytes);
            v.push(crc);
            v.push(command);
        },
        None => {
            v.push(RomCommand::SkipRom.code());
            v.push(command);
        },
    }
    assert(v@ =~= command_sequence(command, address));
    v
}

/// The 1-Wire bytes sent to give `command` to the device at `address`, followed by `data`.
pub fn command_with_data_bytes(command: u8, address: Option<u64>, data: &[u8]) -> (r: Vec<u8>)
    ensures
        r@ == command_sequence(command, address) + data@,
{
    let mut v = command_bytes(command, address);
    let ghost prefix = v@;
    let mut i: usize = 0;
    while i < data.len()
        invariant
            i <= data@.len(),
            v@ == prefix + data@.subrange(0, i as int),
        decreases data@.len() - i,
    {
        v.push(data[i]);
        proof {
            assert(data@.subrange(0, i + 1) =~= data@.subrange(0, i as int).push(data@[i as int]));
        }
        i = i + 1;
    }
    assert(data@.subrange(0, data@.len() as int) =~= data@);
    v
}

/// The address bytes sent to select a device (after Match ROM) are the ones its ROM holds:
/// for an address of at most 56 bits, assembling the seven bytes gives the address back, and
/// they are followed by their own checksum, then the command.
pub proof fn lemma_match_rom_carries_address(command: u8, address: u64)
    requires
        address < 0x0100_0000_0000_0000u64,
    ensures
        ({
            let s = command_sequence(command, Some(address));
            &&& s.len() == 10
            &&& s[0] == RomCommand::MatchRom.spec_code()
            &&& le_u56(s.subrange(1, 8)) == address
            &&& s[8] == crc8_maxim(s.subrange(1, 8))
            &&& s[9] == command
        }),
{
    let crc = crc8_maxim(le_bytes(address).subrange(0, 7));
    assert(command_sequence(command, Some(address)) =~= super::one_wire_bus::command_sequence(
        command,
        Some(address),
        crc,
    ));
    super::one_wire_bus::lemma_match_rom_carries_address(command, address);
}

/// The 1-Wire ROM command bytes (Read ROM 0x33, Match ROM 0x55, Skip ROM 0xCC, Search ROM
/// 0xF0), and the bridge's command and status bytes as its datasheet gives them.
pub proof fn lemma_documented_bridge_codes()
    ensures
        RomCommand::ReadRom.spec_code() == 0x33 && RomCommand::MatchRom.spec_code() == 0x55
            && RomCommand::SkipRom.spec_code() == 0xCC && RomCommand::SearchRom.spec_code() == 0xF0,
        DS2484_ADDR == 0x18 && COMMAND_1WWB == 0xA5 && COMMAND_1WRB == 0x96 && COMMAND_SRP == 0xE1
            && COMMAND_READ_DATA_REG == 0xE1 && COMMAND_STATUS_REG == 0xF0
            && COMMAND_1WIRE_RESET == 0xB4 && COMMAND_1WT == 0x78,
        STATUS_1WB == 0x01 && STATUS_PPD == 0x02,
{
}

/// Addresses go on the line least significant byte first: byte 0 of a number is its
/// remainder by 256, byte 7 its quotient by 2 to the power 56.
pub proof fn lemma_le_byte_order(x: u64)
    ensures
        le_bytes(x)[0] == x % 256,
        le_bytes(x)[1] == (x / 256) % 256,
        le_bytes(x)[7] == x / 0x100_0000_0000_0000,
{
    assert(((x >> 0u64) & 0xFFu64) as u8 == x % 256) by (bit_vector);
    assert(((x >> 8u64) & 0xFFu64) as u8 == (x / 256) % 256) by (bit_vector);
    assert(((x >> 56u64) & 0xFFu64) as u8 == x / 0x100_0000_0000_0000) by (bit_vector);
}

} // verus!
