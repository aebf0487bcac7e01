use exo_rs::exo_drivers::ds18b20::{
    check_scratchpad, parse_scratchpad, Config, Resolution, ScratchpadReading, DS18B20,
};
use exo_rs::exo_drivers::ds2484;
use exo_rs::exo_drivers::ltc2944::{
    ADCMode, Configuration, NALCCConfiguration, Prescaler, CONTROL_REG_ADDRESS,
};
use exo_rs::exo_drivers::one_wire_bus;

/// CRC-8/MAXIM (reflected polynomial 0x8C, initial value 0), bit by bit.
fn crc8_reference(data: &[u8]) -> u8 {
    let mut crc: u8 = 0;
    for &byte in data {
        let mut b = byte;
        for _ in 0..8 {
            let mix = (crc ^ b) & 1;
            crc >>= 1;
            if mix != 0 {
                crc ^= 0x8C;
            }
            b >>= 1;
        }
    }
    crc
}

#[test]
fn reference_checksum_matches_catalogue() {
    assert_eq!(crc8_reference(b"123456789"), 0xA1);
}

#[test]
fn ltc2944_default_configuration() {
    let c = Configuration::default();
    assert_eq!(c.adc_mode, ADCMode::Sleep);
    assert_eq!(c.prescaler, Prescaler::Prescale4096);
    assert_eq!(c.nalcc_configuration, NALCCConfiguration::Alert);
    assert!(!c.shutdown);
    assert_eq!(c.to_byte(), 0b0011_1100);
}

#[test]
fn ltc2944_control_byte() {
    let c = Configuration {
        adc_mode: ADCMode::Scan,
        prescaler: Prescaler::Prescale4096,
        nalcc_configuration: NALCCConfiguration::Alert,
        shutdown: false,
    };
    assert_eq!(c.to_byte(), 0b1011_1100);
    assert_eq!(c.control_register_write(), [CONTROL_REG_ADDRESS, 0b1011_1100]);
    assert_eq!(Configuration::from_byte(0b1011_1100), c);
    let d = Configuration {
        adc_mode: ADCMode::Automatic,
        prescaler: Prescaler::Prescale1,
        nalcc_configuration: NALCCConfiguration::Disabled,
        shutdown: true,
    };
    assert_eq!(Configuration::from_byte(d.to_byte()), d);
}

#[test]
fn ltc2944_prescaler_field_six_reads_as_4096() {
    assert_eq!(Prescaler::from_config_byte(0b0011_0000), Prescaler::Prescale4096);
    assert_eq!(Prescaler::from_config_byte(0b0011_1000), Prescaler::Prescale4096);
    assert_eq!(Prescaler::from_config_byte(0b0000_1000), Prescaler::Prescale4);
}

#[test]
fn ds2484_status_bits() {
    assert!(ds2484::presence_detected(0x02));
    assert!(!ds2484::presence_detected(0x01));
    assert_eq!(ds2484::reset_outcome(0x03), Ok(()));
    assert_eq!(ds2484::reset_outcome(0x01), Err(ds2484::Error::NoDeviceOnReset));
    assert!(ds2484::is_1wire_free(0x02));
    assert!(!ds2484::is_1wire_free(0x03));
}

#[test]
fn ds2484_register_commands() {
    assert_eq!(ds2484::write_byte_command(0x44), [0xA5, 0x44]);
    assert_eq!(ds2484::status_pointer(), [0xE1, 0xF0]);
    assert_eq!(ds2484::read_data_pointer(), [0xE1, 0xE1]);
}

#[test]
fn ds2484_command_sequences() {
    assert_eq!(ds2484::command_bytes(0x44, None), vec![0xCC, 0x44]);
    let crc = crc8_reference(&[1, 2, 3, 4, 5, 6, 7]);
    assert_eq!(
        ds2484::command_bytes(0xBE, Some(0x0007_0605_0403_0201)),
        vec![0x55, 1, 2, 3, 4, 5, 6, 7, crc, 0xBE]
    );
    // the eighth byte of a full ROM code is left out, its checksum computed anew
    assert_eq!(
        ds2484::command_bytes(0xBE, Some(0x0807_0605_0403_0201)),
        vec![0x55, 1, 2, 3, 4, 5, 6, 7, crc, 0xBE]
    );
    assert_eq!(crc8_reference(&[1, 0, 0, 0, 0, 0, 0]), 0x3D);
    assert_eq!(
        ds2484::command_bytes(0x44, Some(1)),
        vec![0x55, 1, 0, 0, 0, 0, 0, 0, 0x3D, 0x44]
    );
    assert_eq!(
        ds2484::command_with_data_bytes(0x4E, None, &[0xFF, 0x00, 0x1F]),
        vec![0xCC, 0x4E, 0xFF, 0x00, 0x1F]
    );
}

#[test]
fn ds2484_rom_address() {
    let mut rom = [0x28u8, 0xFF, 0x4B, 0x4C, 0x60, 0x17, 0x05, 0];
    rom[7] = crc8_reference(&rom[..7]);
    let expected = u64::from_le_bytes(rom);
    assert_eq!(ds2484::rom_address(rom), Ok(expected));
    assert_eq!(ds2484::check_rom(rom, rom[7]), Ok(expected));
    let mut bad = rom;
    bad[7] ^= 1;
    assert_eq!(ds2484::rom_address(bad), Err(ds2484::Error::InvalidCrc));
}

#[test]
fn one_wire_bits() {
    assert_eq!(
        one_wire_bus::byte_to_bits(0b1000_0101),
        [true, false, true, false, false, false, false, true]
    );
    assert_eq!(one_wire_bus::bits_to_byte([true, false, true, false, false, false, false, true]), 0b1000_0101);
    for b in 0..=255u8 {
        assert_eq!(one_wire_bus::bits_to_byte(one_wire_bus::byte_to_bits(b)), b);
    }
}

#[test]
fn one_wire_rom_address() {
    let bytes = [0x28u8, 0xAA, 0x0B, 0xC2, 0x3B, 0x14, 0x01];
    let crc = crc8_reference(&bytes);
    assert_eq!(one_wire_bus::rom_address(bytes, crc), Ok(0x0001_143B_C20B_AA28));
    assert_eq!(one_wire_bus::rom_address(bytes, crc ^ 0x80), Err(one_wire_bus::Error::InvalidCrc));
    assert_eq!(one_wire_bus::check_rom(bytes, 5, 5), Ok(0x0001_143B_C20B_AA28));
    assert_eq!(one_wire_bus::check_rom(bytes, 5, 6), Err(one_wire_bus::Error::InvalidCrc));
}

#[test]
fn one_wire_command_sequences() {
    assert_eq!(one_wire_bus::command_bytes(0x44, None), vec![0xCC, 0x44]);
    let address: u64 = 0x0001_143B_C20B_AA28;
    let bytes = [0x28u8, 0xAA, 0x0B, 0xC2, 0x3B, 0x14, 0x01];
    let crc = crc8_reference(&bytes);
    assert_eq!(
        one_wire_bus::command_bytes(0xBE, Some(address)),
        vec![0x55, 0x28, 0xAA, 0x0B, 0xC2, 0x3B, 0x14, 0x01, crc, 0xBE]
    );
}

#[test]
fn ds18b20_resolution() {
    assert_eq!(Resolution::NineBits.code(), 0);
    assert_eq!(Resolution::TwelveBits.code(), 3);
    assert_eq!(Resolution::NineBits.conversion_delay_ms(), 100);
    assert_eq!(Resolution::TenBits.conversion_delay_ms(), 200);
    assert_eq!(Resolution::ElevenBits.conversion_delay_ms(), 400);
    assert_eq!(Resolution::TwelveBits.conversion_delay_ms(), 800);
}

#[test]
fn ds18b20_configuration_bytes() {
    assert_eq!(Config::default().resolution, Resolution::NineBits);
    assert_eq!(Config::new(Resolution::NineBits).expected_bytes(), [0xFF, 0x00, 0x1F]);
    assert_eq!(Config::new(Resolution::TwelveBits).expected_bytes(), [0xFF, 0x00, 0x7F]);
    assert!(DS18B20::config_loaded([0xFF, 0x00, 0x7F], Config::new(Resolution::TwelveBits)));
    assert!(!DS18B20::config_loaded([0x4B, 0x46, 0x7F], Config::new(Resolution::TwelveBits)));
}

#[test]
fn ds18b20_sensor_state() {
    let mut s = DS18B20::new(Some(42));
    assert_eq!(s.address(), Some(42));
    assert!(s.config().is_none());
    s.set_config(Config::new(Resolution::ElevenBits));
    assert_eq!(s.config(), Some(Config::new(Resolution::ElevenBits)));
    assert_eq!(s.conversion_delay_ms(), 400);
    assert_eq!(s.address(), Some(42));
}

#[test]
fn ds18b20_power_on_scratchpad() {
    // 85 °C, the value the sensor holds at power-up
    let data = [0x50u8, 0x05, 0x4B, 0x46, 0x7F, 0xFF, 0x0C, 0x10, 0x1C];
    assert_eq!(crc8_reference(&data[..8]), 0x1C);
    let r = parse_scratchpad(data).unwrap();
    assert_eq!(r.temperature_sixteenths, 85 * 16);
    assert_eq!(r.configuration, [0x4B, 0x46, 0x7F]);
    let mut bad = data;
    bad[8] = 0x1D;
    assert!(matches!(parse_scratchpad(bad), Err(ds2484::Error::InvalidCrc)));
}

#[test]
fn ds18b20_negative_temperature() {
    // -10.125 °C is 0xFF5E
    let data = [0x5Eu8, 0xFF, 0, 0, 0x1F, 0, 0, 0, 0x33];
    let r = check_scratchpad(data, 0x33).unwrap();
    assert_eq!(r.temperature_sixteenths, -162);
    assert!(matches!(check_scratchpad(data, 0x34), Err(ds2484::Error::InvalidCrc)));
}

#[test]
fn ds18b20_configuration_written_only_when_needed() {
    let config = Config::new(Resolution::TwelveBits);
    let mut s = DS18B20::new(None);
    let loaded = ScratchpadReading { temperature_sixteenths: 0, configuration: [0xFF, 0x00, 0x7F] };
    assert_eq!(s.config_from_scratchpad(Ok(loaded), config), Ok(None));
    assert_eq!(s.config(), Some(config));
    let mut t = DS18B20::new(Some(7));
    let other = ScratchpadReading { temperature_sixteenths: 0, configuration: [0x4B, 0x46, 0x1F] };
    assert_eq!(t.config_from_scratchpad(Ok(other), config), Ok(Some([0xFF, 0x00, 0x7F])));
    assert_eq!(t.config(), None);
    assert_eq!(t.address(), Some(7));
    assert_eq!(
        t.config_from_scratchpad(Err(ds2484::Error::InvalidCrc), config),
        Err(ds2484::Error::InvalidCrc)
    );
    assert_eq!(t.config(), None);
}
