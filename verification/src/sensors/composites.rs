//! Readings derived from other readings.
pub mod ecompass;
pub mod heading;
pub mod inputs;
pub mod laws;
pub mod odba;
pub mod sensor;
pub mod tilt;
pub mod vedba;
