//! Sensor drivers: the 1-Wire bus (bit-banged or through a DS2484 bridge), the DS18B20
//! temperature sensor and the LTC2944 battery gauge.
pub mod crc8;
pub mod ds18b20;
pub mod ds2484;
pub mod ltc2944;
pub mod one_wire_bus;
