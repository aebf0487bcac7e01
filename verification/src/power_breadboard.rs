//! Power distribution board: report codes, the contactor sequencer, the safety (DMS) state
//! machine, the insulation monitor and the auxiliary battery temperature monitor.
pub mod can;
pub mod contactors;
pub mod imd;
pub mod safety;
pub mod temperature;
