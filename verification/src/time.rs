//! UTC kept on the local oscillator: anchors in, a mapping out.
pub mod anchor_laws;
pub mod estimator;
pub mod gps;
pub mod laws;
pub mod model;
pub mod types;
