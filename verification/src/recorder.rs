//! Audio recordings of a fixed length, one file each.
pub mod laws;
pub mod metadata;
pub mod service;
pub mod wav;
