//! Position filtered from GPS fixes.
pub mod filter;
pub mod laws;
pub mod types;
