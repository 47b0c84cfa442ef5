//! Sensor readings, derived readings and threshold events.
pub mod axis;
pub mod composites;
pub mod laws;
pub mod math;
pub mod model;
pub mod poll_laws;
pub mod rule_laws;
pub mod service;
pub mod source;
pub mod thresholds;
pub mod types;
