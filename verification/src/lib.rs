//! Verified core of the Exocet boat's electrical control units: CAN identifier and payload
//! encodings, sensor-driver byte protocols, and the decision logic of the control tasks.
pub mod frame;
pub mod text;
pub mod can_exocet;
pub mod can_module;
pub mod telemetry_battery;
pub mod exo_drivers;
pub mod power_breadboard;
pub mod h2_pcb;
pub mod relay_control;
pub mod start_stop;
pub mod tasks;
pub mod modem;
pub mod nb_modem;
pub mod nb_udp;
