//! Battery telemetry board: frame codes and fault latching.
pub mod can_frames;
pub mod fault;
pub mod temperature;
