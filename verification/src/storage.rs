//! Named append-only streams on a block device.
pub mod laws;
pub mod path_laws;
pub mod policy;
pub mod service;
pub mod types;
