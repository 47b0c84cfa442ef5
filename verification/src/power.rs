//! Supply, battery charge and battery health.
pub mod policy;
pub mod types;
