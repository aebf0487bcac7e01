//! Hydrogen board: the error, warning and state codes it reports on the network bus.
pub mod can;
