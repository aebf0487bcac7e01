//! DS18B20 temperature sensor on a 1-Wire bus: its configuration byte, conversion delays and
//! the scratchpad it answers with.
use vstd::prelude::*;

use super::crc8::{crc8_checksum, crc8_maxim};
use super::ds2484::Error;

verus! {

/// Configuration register bits that are always set.
pub const BASE_CONFIGURATION_REG: u8 = 0x1F;
/// Position of the resolution field in the configuration register.
pub const CONFIG_RESOLUTION_BITSHIFT: u8 = 5;

pub const NINE_BITS_CONVERSION_DELAY_MS: u64 = 100;
pub const TEN_BITS_CONVERSION_DELAY_MS: u64 = 200;
pub const ELEVEN_BITS_CONVERSION_DELAY_MS: u64 = 400;
pub const TWELVE_BITS_CONVERSION_DELAY_MS: u64 = 800;

/// Function commands of the sensor.
#[derive(Debug, Clone, Copy, PartialEq, Eq, Structural)]
pub enum FunctionCommands {
    Convert,
    WriteScratchpad,
    ReadScratchpad,
    CopyScratchpad,
    RecallEEPROM,
}

impl FunctionCommands {
    pub open spec fn spec_code(self) -> u8 {
        match self {
            FunctionCommands::Convert => 0x44,
            FunctionCommands::WriteScratchpad => 0x4E,
            FunctionCommands::ReadScratchpad => 0xBE,
            FunctionCommands::CopyScratchpad => 0x48,
            FunctionCommands::RecallEEPROM => 0xB8,
        }
    }

    /// The byte sent for the command.
    pub fn code(self) -> (r: u8)
        ensures
            r == self.spec_code(),
    {
        match self {
            FunctionCommands::Convert => 0x44,
            FunctionCommands::WriteScratchpad => 0x4E,
            FunctionCommands::ReadScratchpad => 0xBE,
            FunctionCommands::CopyScratchpad => 0x48,
            FunctionCommands::RecallEEPROM => 0xB8,
        }
    }
}

/// Resolution of a temperature conversion.
#[derive(Debug, Clone, Copy, PartialEq, Eq, Structural)]
pub enum Resolution {
    NineBits,
    TenBits,
    ElevenBits,
    TwelveBits,
}

impl Resolution {
    pub open spec fn spec_code(self) -> u8 {
        match self {
            Resolution::NineBits => 0b00,
            Resolution::TenBits => 0b01,
            Resolution::ElevenBits => 0b10,
            Resolution::TwelveBits => 0b11,
        }
    }

    /// The field value of the resolution.
    pub fn code(self) -> (r: u8)
        ensures
            r == self.spec_code(),
    {
        match self {
            Resolution::NineBits => 0b00,
            Resolution::TenBits => 0b01,
            Resolution::ElevenBits => 0b10,
            Resolution::TwelveBits => 0b11,
        }
    }

    pub open spec fn spec_conversion_delay_ms(self) -> u64 {
        match self {
            Resolution::NineBits => NINE_BITS_CONVERSION_DELAY_MS,
            Resolution::TenBits => TEN_BITS_CONVERSION_DELAY_MS,
            Resolution::ElevenBits => ELEVEN_BITS_CONVERSION_DELAY_MS,
            Resolution::TwelveBits => TWELVE_BITS_CONVERSION_DELAY_MS,
        }
    }

    /// How long a conversion at this resolution takes, in milliseconds.
    pub fn conversion_delay_ms(self) -> (r: u64)
        ensures
            r == self.spec_conversion_delay_ms(),
    {
        match self {
            Resolution::NineBits => NINE_BITS_CONVERSION_DELAY_MS,
            Resolution::TenBits => TEN_BITS_CONVERSION_DELAY_MS,
            Resolution::ElevenBits => ELEVEN_BITS_CONVERSION_DELAY_MS,
            Resolution::TwelveBits => TWELVE_BITS_CONVERSION_DELAY_MS,
        }
    }
}

/// A finer resolution never converts faster.
pub proof fn lemma_delay_grows_with_resolution(a: Resolution, b: Resolution)
    ensures
        a.spec_code() <= b.spec_code() ==> a.spec_conversion_delay_ms()
            <= b.spec_conversion_delay_ms(),
{
}

/// Sensor configuration.
#[derive(Debug, Clone, Copy, PartialEq, Eq, Structural)]
pub struct Config {
    pub resolution: Resolution,
}

impl Default for Config {
    fn default() -> (r: Self)
        ensures
            r == (Config { resolution: Resolution::NineBits }),
    {
        Self { resolution: Resolution::NineBits }
    }
}

/// The configuration register value for a resolution.
pub open spec fn config_register(resolution: Resolution) -> u8 {
    BASE_CONFIGURATION_REG | (resolution.spec_code() << CONFIG_RESOLUTION_BITSHIFT)
}

/// The three scratchpad bytes (alarm high, alarm low, configuration) the sensor holds once
/// configured with `config`.
pub open spec fn expected_config_bytes(config: Config) -> Seq<u8> {
    seq![0xFFu8, 0x00u8, config_register(config.resolution)]
}

impl Config {
    pub fn new(resolution: Resolution) -> (r: Self)
        ensures
            r.resolution == resolution,
    {
        Self { resolution }
    }

    /// The three scratchpad bytes written to the sensor for this configuration.
    pub fn expected_bytes(&self) -> (r: [u8; 3])
        ensures
            r@ == expected_config_bytes(*self),
    {
        let config_byte = BASE_CONFIGURATION_REG | (self.resolution.code()
            << CONFIG_RESOLUTION_BITSHIFT);
        let r = [0xFF, 0x00, config_byte];
        assert(r@ =~= expected_config_bytes(*self));
        r
    }
}

/// The temperature in a scratchpad, in sixteenths of a degree Celsius: bytes 0 (low) and 1
/// (high) read as a two's-complement 16-bit number.
pub open spec fn scratchpad_temperature(lo: u8, hi: u8) -> int {
    let u = lo as int + 256 * hi as int;
    if u >= 0x8000 {
        u - 0x10000
    } else {
        u
    }
}

/// What a scratchpad holds once its checksum is verified.
#[derive(Debug, Clone, Copy)]
pub struct ScratchpadReading {
    /// Temperature, in sixteenths of a degree Celsius.
    pub temperature_sixteenths: i16,
    /// Alarm high, alarm low and configuration bytes.
    pub configuration: [u8; 3],
}

/// Reads a nine-byte scratchpad whose first eight bytes have checksum `calculated_crc`: a
/// last byte that differs gives `InvalidCrc`; otherwise the temperature (bytes 0-1) and the
/// configuration bytes (2-4).
pub fn check_scratchpad(data: [u8; 9], calculated_crc: u8) -> (r: Result<ScratchpadReading, Error>)
    ensures
        data@[8] != calculated_crc ==> r == Err::<ScratchpadReading, Error>(Error::InvalidCrc),
        data@[8] == calculated_crc ==> (r matches Ok(reading) && reading.temperature_sixteenths
            == scratchpad_temperature(data@[0], data@[1]) && reading.configuration@
            == data@.subrange(2, 5)),
{
    if data[8] != calculated_crc {
        return Err(Error::InvalidCrc);
    }
    // shifts are done on the unsigned value, the sign is taken into account afterwards
    let lo = data[0];
    let hi = data[1];
    let unsigned: u16 = (lo as u16) | ((hi as u16) << 8u16);
    let temperature = unsigned as i16;
    assert(temperature as int == scratchpad_temperature(lo, hi)) by (bit_vector)
        requires
            unsigned == (lo as u16) | ((hi as u16) << 8u16),
            temperature == unsigned as i16,
    ;
    let configuration = [data[2], data[3], data[4]];
    assert(configuration@ =~= data@.subrange(2, 5));
    Ok(ScratchpadReading { temperature_sixteenths: temperature, configuration })
}

/// Reads the nine-byte scratchpad a sensor answered with, computing the checksum of its first
/// eight bytes.
pub fn parse_scratchpad(data: [u8; 9]) -> (r: Result<ScratchpadReading, Error>)
    ensures
        data@[8] != crc8_maxim(data@.subrange(0, 8)) ==> r == Err::<ScratchpadReading, Error>(
            Error::InvalidCrc,
        ),
        data@[8] == crc8_maxim(data@.subrange(0, 8)) ==> (r matches Ok(reading)
            && reading.temperature_sixteenths == scratchpad_temperature(data@[0], data@[1])
            && reading.configuration@ == data@.subrange(2, 5)),
{
    let s: &[u8] = data.as_slice();
    let crc = crc8_checksum(vstd::slice::slice_subrange(s, 0, 8));
    check_scratchpad(data, crc)
}

/// A DS18B20 on a bus, with its address (none when it is alone on the bus) and the
/// configuration it was given.
pub struct DS18B20 {
    address: Option<u64>,
    config: Option<Config>,
}

impl DS18B20 {
    pub closed spec fn spec_address(&self) -> Option<u64> {
        self.address
    }

    pub closed spec fn spec_config(&self) -> Option<Config> {
        self.config
    }

    /// A sensor at `address`, not yet configured. The address must be `None` if and only if
    /// the sensor is the only device on the bus; it need not hold its checksum byte.
    pub fn new(address: Option<u64>) -> (r: Self)
        ensures
            r.spec_address() == address,
            r.spec_config() is None,
    {
        Self { address, config: None }
    }

    /// The sensor's address.
    pub fn address(&self) -> (r: Option<u64>)
        ensures
            r == self.spec_address(),
    {
        self.address
    }

    /// The configuration the sensor was given, if any.
    pub fn config(&self) -> (r: Option<Config>)
        ensures
            r == self.spec_config(),
    {
        self.config
    }

    /// Whether the configuration bytes read from the scratchpad already hold `config`, in
    /// which case nothing is written to the sensor.
    pub fn config_loaded(current: [u8; 3], config: Config) -> (r: bool)
        ensures
            r == (current@ == expected_config_bytes(config)),
    {
        let expected = config.expected_bytes();
        let r = current[0] == expected[0] && current[1] == expected[1] && current[2]
            == expected[2];
        proof {
            if r {
                assert(current@ =~= expected_config_bytes(config));
            }
        }
        r
    }

    /// Configuring the sensor with `config`, once its scratchpad has been read back after an
    /// EEPROM recall: a failed read is the error and changes nothing; a scratchpad that
    /// already holds the configuration needs no write (`None`) and the sensor is recorded as
    /// configured; otherwise the three bytes to write to the scratchpad (then copy to EEPROM)
    /// are returned, and the sensor is recorded as configured only once that is done
    /// (`set_config`).
    pub fn config_from_scratchpad(&mut self, scratchpad: Result<ScratchpadReading, Error>, config: Config) -> (r: Result<Option<[u8; 3]>, Error>)
        ensures
            final(self).spec_address() == old(self).spec_address(),
            scratchpad matches Err(e) ==> r == Err::<Option<[u8; 3]>, Error>(e) && *final(self)
                == *old(self),
            scratchpad matches Ok(reading) ==> {
                &&& reading.configuration@ == expected_config_bytes(config) ==> r == Ok::<
                    Option<[u8; 3]>,
                    Error,
                >(None) && final(self).spec_config() == Some(config)
                &&& reading.configuration@ != expected_config_bytes(config) ==> (r matches Ok(
                    Some(bytes),
                ) && bytes@ == expected_config_bytes(config) && *final(self) == *old(self))
            },
    {
        match scratchpad {
            Err(e) => Err(e),
            Ok(reading) => {
                if Self::config_loaded(reading.configuration, config) {
                    self.set_config(config);
                    Ok(None)
                } else {
                    Ok(Some(config.expected_bytes()))
                }
            },
        }
    }

    /// Records that the sensor holds `config`.
    pub fn set_config(&mut self, config: Config)
        ensures
            final(self).spec_config() == Some(config),
            final(self).spec_address() == old(self).spec_address(),
    {
        self.config = Some(config);
    }

    /// How long the sensor takes to convert a temperature at its configured resolution. The
    /// sensor must have been configured.
    pub fn conversion_delay_ms(&self) -> (r: u64)
        requires
            self.spec_config() is Some,
        ensures
            r == self.spec_config().unwrap().resolution.spec_conversion_delay_ms(),
    {
        match self.config {
            Some(config) => config.resolution.conversion_delay_ms(),
            None => {
                assert(false);
                0
            },
        }
    }
}

/// The sensor's command bytes (Convert T 0x44, Write Scratchpad 0x4E, Read Scratchpad 0xBE,
/// Copy Scratchpad 0x48, Recall EEPROM 0xB8); the resolution field counts the bits beyond
/// nine (9 bits 0 to 12 bits 3), each extra bit doubles the conversion time from 100 ms, and the
/// configuration register holds the field in bits 5-6 with the low five bits set.
pub proof fn lemma_documented_sensor_codes(r: Resolution)
    ensures
        FunctionCommands::Convert.spec_code() == 0x44 && FunctionCommands::WriteScratchpad.spec_code() == 0x4E
            && FunctionCommands::ReadScratchpad.spec_code() == 0xBE
            && FunctionCommands::CopyScratchpad.spec_code() == 0x48
            && FunctionCommands::RecallEEPROM.spec_code() == 0xB8,
        Resolution::NineBits.spec_code() == 0 && Resolution::TenBits.spec_code() == 1
            && Resolution::ElevenBits.spec_code() == 2 && Resolution::TwelveBits.spec_code() == 3,
        r.spec_conversion_delay_ms() == 100 * (if r.spec_code() == 0 {
            1int
        } else if r.spec_code() == 1 {
            2int
        } else if r.spec_code() == 2 {
            4int
        } else {
            8int
        }),
        config_register(r) == 0x1F + 32 * r.spec_code(),
{
    let c = r.spec_code();
    assert(c <= 3);
    assert(0x1Fu8 | (c << 5u8) == 0x1F + 32 * c) by (bit_vector)
        requires
            c <= 3,
    ;
}

} // verus!
