# exo_rs

Verified core of the Exocet boat's electrical control units.

- `src/` is the verified library: CAN frames and identifiers (`frame`, `can_module`,
  `can_exocet`), the sensor drivers' byte protocols (`exo_drivers`: LTC2944 gauge, DS2484
  1-Wire bridge, bit-banged 1-Wire bus, DS18B20 thermometer), the decision logic of the boards'
  tasks (`power_breadboard`, `telemetry_battery`, `h2_pcb`, `tasks`, `relay_control`,
  `start_stop`) and the AT-command modem (`modem`, `nb_modem`, `nb_udp`, `text`).
- `tests/` runs the library on concrete values.
- `app/` drives the modem over an `embedded-hal` serial port and keeps the floating-point
  conversions of the battery board.

Checksums are computed by the `crc` crate and CAN identifier ranges checked by `embedded-can`.
