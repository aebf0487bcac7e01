//! Configuration of the LTC2944 battery gauge, held in its control register: ADC mode in bits
//! 6-7, coulomb-counter prescaler in bits 3-5, ALCC pin configuration in bits 1-2, shutdown in
//! bit 0.
use vstd::prelude::*;

verus! {

/// I2C address of the gauge.
pub const I2C_ADDRESS: u8 = 0x64;

/// Address of the control register.
pub const CONTROL_REG_ADDRESS: u8 = 0x01;

pub const ADC_MODE_CONFIG_BITSHIFT: u8 = 6;
pub const ADC_MODE_CONFIG_MASK: u8 = 0b11000000;
pub const PRESCALER_CONFIG_BITSHIFT: u8 = 3;
pub const PRESCALER_CONFIG_MASK: u8 = 0b00111000;
pub const NALCC_CONFIG_BITSHIFT: u8 = 1;
pub const NALCC_CONFIG_MASK: u8 = 0b00000110;
pub const SHUTDOWN_CONFIG_MASK: u8 = 0b00000001;

/// ADC mode field of a control byte.
pub open spec fn adc_bits(byte: u8) -> u8 {
    (byte & ADC_MODE_CONFIG_MASK) >> ADC_MODE_CONFIG_BITSHIFT
}

/// Prescaler field of a control byte.
pub open spec fn prescaler_bits(byte: u8) -> u8 {
    (byte & PRESCALER_CONFIG_MASK) >> PRESCALER_CONFIG_BITSHIFT
}

/// ALCC configuration field of a control byte.
pub open spec fn nalcc_bits(byte: u8) -> u8 {
    (byte & NALCC_CONFIG_MASK) >> NALCC_CONFIG_BITSHIFT
}

#[derive(Debug, Clone, Copy, PartialEq, Eq, Structural)]
pub enum ADCMode {
    Sleep,
    Single,
    Scan,
    Automatic,
}

impl Default for ADCMode {
    fn default() -> (r: Self)
        ensures
            r == ADCMode::Sleep,
    {
        Self::Sleep
    }
}

impl ADCMode {
    pub open spec fn spec_code(self) -> u8 {
        match self {
            ADCMode::Sleep => 0,
            ADCMode::Single => 1,
            ADCMode::Scan => 2,
            ADCMode::Automatic => 3,
        }
    }

    pub open spec fn spec_from_bits(bits: u8) -> ADCMode {
        if bits == 0 {
            ADCMode::Sleep
        } else if bits == 1 {
            ADCMode::Single
        } else if bits == 2 {
            ADCMode::Scan
        } else {
            ADCMode::Automatic
        }
    }

    /// The field value of the mode.
    pub fn code(self) -> (r: u8)
        ensures
            r == self.spec_code(),
    {
        match self {
            ADCMode::Sleep => 0,
            ADCMode::Single => 1,
            ADCMode::Scan => 2,
            ADCMode::Automatic => 3,
        }
    }

    /// The mode held in control byte `byte`.
    pub fn from_config_byte(byte: u8) -> (r: Self)
        ensures
            r == Self::spec_from_bits(adc_bits(byte)),
            r.spec_code() == adc_bits(byte),
    {
        let bits = (byte & ADC_MODE_CONFIG_MASK) >> ADC_MODE_CONFIG_BITSHIFT;
        assert(bits <= 3) by (bit_vector)
            requires
                bits == (byte & 0b11000000u8) >> 6u8,
        ;
        if bits == 0b00 {
            Self::Sleep
        } else if bits == 0b01 {
            Self::Single
        } else if bits == 0b10 {
            Self::Scan
        } else {
            Self::Automatic
        }
    }
}

/// Coulomb counter prescale value.
#[derive(Debug, Clone, Copy, PartialEq, Eq, Structural)]
pub enum Prescaler {
    Prescale1,
    Prescale4,
    Prescale16,
    Prescale64,
    Prescale256,
    Prescale1024,
    Prescale4096,
}

impl Default for Prescaler {
    fn default() -> (r: Self)
        ensures
            r == Prescaler::Prescale4096,
    {
        Self::Prescale4096
    }
}

impl Prescaler {
    pub open spec fn spec_code(self) -> u8 {
        match self {
            Prescaler::Prescale1 => 0,
            Prescaler::Prescale4 => 1,
            Prescaler::Prescale16 => 2,
            Prescaler::Prescale64 => 3,
            Prescaler::Prescale256 => 4,
            Prescaler::Prescale1024 => 5,
            Prescaler::Prescale4096 => 7,
        }
    }

    /// The prescaler a field value selects: both 0b110 and 0b111 select 4096.
    pub open spec fn spec_from_bits(bits: u8) -> Prescaler {
        if bits == 0 {
            Prescaler::Prescale1
        } else if bits == 1 {
            Prescaler::Prescale4
        } else if bits == 2 {
            Prescaler::Prescale16
        } else if bits == 3 {
            Prescaler::Prescale64
        } else if bits == 4 {
            Prescaler::Prescale256
        } else if bits == 5 {
            Prescaler::Prescale1024
        } else {
            Prescaler::Prescale4096
        }
    }

    /// The field value written for the prescaler.
    pub fn code(self) -> (r: u8)
        ensures
            r == self.spec_code(),
    {
        match self {
            Prescaler::Prescale1 => 0,
            Prescaler::Prescale4 => 1,
            Prescaler::Prescale16 => 2,
            Prescaler::Prescale64 => 3,
            Prescaler::Prescale256 => 4,
            Prescaler::Prescale1024 => 5,
            Prescaler::Prescale4096 => 7,
        }
    }

    /// The prescaler held in control byte `byte`.
    pub fn from_config_byte(byte: u8) -> (r: Self)
        ensures
            r == Self::spec_from_bits(prescaler_bits(byte)),
    {
        let bits = (byte & PRESCALER_CONFIG_MASK) >> PRESCALER_CONFIG_BITSHIFT;
        if bits == 0b000 {
            Self::Prescale1
        } else if bits == 0b001 {
            Self::Prescale4
        } else if bits == 0b010 {
            Self::Prescale16
        } else if bits == 0b011 {
            Self::Prescale64
        } else if bits == 0b100 {
            Self::Prescale256
        } else if bits == 0b101 {
            Self::Prescale1024
        } else {
            Self::Prescale4096
        }
    }
}

/// Configuration of the ALCC pin.
#[derive(Debug, Clone, Copy, PartialEq, Eq, Structural)]
pub enum NALCCConfiguration {
    Alert,
    ChargeComplete,
    Disabled,
}

impl Default for NALCCConfiguration {
    fn default() -> (r: Self)
        ensures
            r == NALCCConfiguration::Alert,
    {
        Self::Alert
    }
}

impl NALCCConfiguration {
    pub open spec fn spec_code(self) -> u8 {
        match self {
            NALCCConfiguration::Alert => 2,
            NALCCConfiguration::ChargeComplete => 1,
            NALCCConfiguration::Disabled => 0,
        }
    }

    pub open spec fn spec_from_bits(bits: u8) -> NALCCConfiguration {
        if bits == 0 {
            NALCCConfiguration::Disabled
        } else if bits == 1 {
            NALCCConfiguration::ChargeComplete
        } else {
            NALCCConfiguration::Alert
        }
    }

    /// The field value of the configuration.
    pub fn code(self) -> (r: u8)
        ensures
            r == self.spec_code(),
    {
        match self {
            NALCCConfiguration::Alert => 2,
            NALCCConfiguration::ChargeComplete => 1,
            NALCCConfiguration::Disabled => 0,
        }
    }

    /// The configuration held in control byte `byte`, whose ALCC field must not be 0b11 (a
    /// value the gauge reserves).
    pub fn from_config_byte(byte: u8) -> (r: Self)
        requires
            nalcc_bits(byte) != 0b11,
        ensures
            r == Self::spec_from_bits(nalcc_bits(byte)),
            r.spec_code() == nalcc_bits(byte),
    {
        let bits = (byte & NALCC_CONFIG_MASK) >> NALCC_CONFIG_BITSHIFT;
        assert(bits <= 3) by (bit_vector)
            requires
                bits == (byte & 0b00000110u8) >> 1u8,
        ;
        if bits == 0b00 {
            Self::Disabled
        } else if bits == 0b01 {
            Self::ChargeComplete
        } else {
            Self::Alert
        }
    }
}

/// Contents of the control register.
#[derive(Debug, Clone, Copy, PartialEq, Eq, Structural)]
pub struct Configuration {
    pub adc_mode: ADCMode,
    pub prescaler: Prescaler,
    pub nalcc_configuration: NALCCConfiguration,
    pub shutdown: bool,
}

impl Default for Configuration {
    fn default() -> (r: Self)
        ensures
            r == (Configuration {
                adc_mode: ADCMode::Sleep,
                prescaler: Prescaler::Prescale4096,
                nalcc_configuration: NALCCConfiguration::Alert,
                shutdown: false,
            }),
    {
        Self {
            adc_mode: ADCMode::default(),
            prescaler: Prescaler::default(),
            nalcc_configuration: NALCCConfiguration::default(),
            shutdown: false,
        }
    }
}

/// The control byte of a configuration.
pub open spec fn config_byte(c: Configuration) -> u8 {
    (c.adc_mode.spec_code() << ADC_MODE_CONFIG_BITSHIFT) | (c.prescaler.spec_code()
        << PRESCALER_CONFIG_BITSHIFT) | (c.nalcc_configuration.spec_code() << NALCC_CONFIG_BITSHIFT)
        | (if c.shutdown {
        1u8
    } else {
        0u8
    })
}

/// The configuration a control byte holds.
pub open spec fn config_of_byte(byte: u8) -> Configuration {
    Configuration {
        adc_mode: ADCMode::spec_from_bits(adc_bits(byte)),
        prescaler: Prescaler::spec_from_bits(prescaler_bits(byte)),
        nalcc_configuration: NALCCConfiguration::spec_from_bits(nalcc_bits(byte)),
        shutdown: byte & SHUTDOWN_CONFIG_MASK != 0,
    }
}

impl Configuration {
    /// The control byte of the configuration.
    pub fn to_byte(self) -> (r: u8)
        ensures
            r == config_byte(self),
    {
        let shutdown: u8 = if self.shutdown {
            1
        } else {
            0
        };
        (self.adc_mode.code() << ADC_MODE_CONFIG_BITSHIFT) | (self.prescaler.code()
            << PRESCALER_CONFIG_BITSHIFT) | (self.nalcc_configuration.code() << NALCC_CONFIG_BITSHIFT)
            | shutdown
    }

    /// The configuration held in control byte `byte`, whose ALCC field must not be 0b11.
    pub fn from_byte(byte: u8) -> (r: Self)
        requires
            nalcc_bits(byte) != 0b11,
        ensures
            r == config_of_byte(byte),
    {
        let adc_mode = ADCMode::from_config_byte(byte);
        let prescaler = Prescaler::from_config_byte(byte);
        let nalcc_configuration = NALCCConfiguration::from_config_byte(byte);
        let shutdown = (byte & SHUTDOWN_CONFIG_MASK) != 0;
        Self { adc_mode, prescaler, nalcc_configuration, shutdown }
    }

    /// The bytes written to the gauge over I2C to load the configuration: the control
    /// register's address, then the control byte.
    pub fn control_register_write(self) -> (r: [u8; 2])
        ensures
            r@ == seq![CONTROL_REG_ADDRESS, config_byte(self)],
    {
        let r = [CONTROL_REG_ADDRESS, self.to_byte()];
        assert(r@ =~= seq![CONTROL_REG_ADDRESS, config_byte(self)]);
        r
    }
}

/// Reading back the control byte of a configuration gives the configuration.
pub proof fn lemma_config_roundtrip(c: Configuration)
    ensures
        nalcc_bits(config_byte(c)) != 0b11,
        config_of_byte(config_byte(c)) == c,
{
    let a = c.adc_mode.spec_code();
    let p = c.prescaler.spec_code();
    let n = c.nalcc_configuration.spec_code();
    let s: u8 = if c.shutdown { 1u8 } else { 0u8 };
    assert({
        let b = (a << 6u8) | (p << 3u8) | (n << 1u8) | s;
        &&& (b & 0b11000000u8) >> 6u8 == a
        &&& (b & 0b00111000u8) >> 3u8 == p
        &&& (b & 0b00000110u8) >> 1u8 == n
        &&& (b & 1u8 != 0) == (s == 1u8)
    }) by (bit_vector)
        requires
            a <= 3,
            p <= 7,
            n <= 2,
            s <= 1,
    ;
}

/// Writing back the configuration a control byte holds gives the byte, except for a
/// prescaler field of 0b110, which reads as 4096 and is written back as 0b111.
pub proof fn lemma_byte_roundtrip(byte: u8)
    requires
        nalcc_bits(byte) != 0b11,
        prescaler_bits(byte) != 0b110,
    ensures
        config_byte(config_of_byte(byte)) == byte,
{
    let a = adc_bits(byte);
    let p = prescaler_bits(byte);
    let n = nalcc_bits(byte);
    assert(a <= 3 && p <= 7 && n <= 3) by (bit_vector)
        requires
            a == (byte & 0b11000000u8) >> 6u8,
            p == (byte & 0b00111000u8) >> 3u8,
            n == (byte & 0b00000110u8) >> 1u8,
    ;
    let c = config_of_byte(byte);
    assert(c.adc_mode.spec_code() == a);
    assert(c.prescaler.spec_code() == p);
    assert(c.nalcc_configuration.spec_code() == n);
    let s: u8 = if c.shutdown { 1u8 } else { 0u8 };
    assert(((a << 6u8) | (p << 3u8) | (n << 1u8) | s) == byte) by (bit_vector)
        requires
            a == (byte & 0b11000000u8) >> 6u8,
            p == (byte & 0b00111000u8) >> 3u8,
            n == (byte & 0b00000110u8) >> 1u8,
            (s == 1u8) == (byte & 1u8 != 0),
            s <= 1,
    ;
}

/// Four to the power `n`.
pub open spec fn pow4(n: nat) -> nat
    decreases n,
{
    if n == 0 {
        1
    } else {
        4 * pow4((n - 1) as nat)
    }
}

/// The factor by which the coulomb counter's prescaler divides, as each prescaler is named.
pub open spec fn prescale_factor(p: Prescaler) -> nat {
    match p {
        Prescaler::Prescale1 => 1,
        Prescaler::Prescale4 => 4,
        Prescaler::Prescale16 => 16,
        Prescaler::Prescale64 => 64,
        Prescaler::Prescale256 => 256,
        Prescaler::Prescale1024 => 1024,
        Prescaler::Prescale4096 => 4096,
    }
}

/// The prescaler field selects a factor of 4 to the power of the field (fields 0 to 5), and
/// 4096 for fields 6 and 7, which is written as 7: each prescaler is written with the field that
/// selects its factor, and each field reads back as the prescaler with the factor it selects.
pub proof fn lemma_prescaler_field(p: Prescaler, bits: u8)
    ensures
        p != Prescaler::Prescale4096 ==> p.spec_code() <= 5 && prescale_factor(p) == pow4(p.spec_code() as nat),
        p == Prescaler::Prescale4096 ==> p.spec_code() == 7,
        bits <= 5 ==> prescale_factor(Prescaler::spec_from_bits(bits)) == pow4(bits as nat),
        bits == 6 || bits == 7 ==> Prescaler::spec_from_bits(bits) == Prescaler::Prescale4096,
{
    reveal_with_fuel(pow4, 7);
}

/// The ADC mode field: sleep 0, single conversion 1, scan 2, automatic 3; the ALCC field:
/// disabled 0, charge complete input 1, alert output 2.
pub proof fn lemma_mode_fields()
    ensures
        ADCMode::Sleep.spec_code() == 0 && ADCMode::Single.spec_code() == 1 && ADCMode::Scan.spec_code() == 2
            && ADCMode::Automatic.spec_code() == 3,
        NALCCConfiguration::Disabled.spec_code() == 0 && NALCCConfiguration::ChargeComplete.spec_code() == 1
            && NALCCConfiguration::Alert.spec_code() == 2,
{
}

/// The control byte as a number: 64 times the ADC mode field, plus 8 times the prescaler
/// field, plus 2 times the ALCC field, plus 1 when shut down.
pub proof fn lemma_control_byte_value(c: Configuration)
    ensures
        config_byte(c) == 64 * c.adc_mode.spec_code() + 8 * c.prescaler.spec_code() + 2
            * c.nalcc_configuration.spec_code() + (if c.shutdown {
            1int
        } else {
            0int
        }),
{
    let a = c.adc_mode.spec_code();
    let p = c.prescaler.spec_code();
    let n = c.nalcc_configuration.spec_code();
    let sd: u8 = if c.shutdown { 1 } else { 0 };
    assert((a << 6u8) | (p << 3u8) | (n << 1u8) | sd == 64 * a + 8 * p + 2 * n + sd) by (bit_vector)
        requires
            a <= 3,
            p <= 7,
            n <= 2,
            sd <= 1,
    ;
}

} // verus!
