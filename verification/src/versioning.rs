//! Identity of a device, its firmware and its modules.
pub mod service;
pub mod snapshot;
pub mod types;
