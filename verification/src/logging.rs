//! Ordered diagnostic log with a bounded queue and bounded lines.
pub mod laws;
pub mod line;
pub mod resources;
pub mod service;
pub mod types;
