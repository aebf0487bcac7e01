//! Cockpit board: the events it takes from the dashboard, and its start/stop state machine.
pub mod can;
pub mod cockpit;
