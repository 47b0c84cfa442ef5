//! What the field programs decide: when to power the card, which frames to
//! record, and what the logs say.
pub mod words;
pub mod labels;
pub mod status;
pub mod report;
pub mod versions;
pub mod card_power;
pub mod microphone;
pub mod forwarder;
pub mod cpu;
pub mod line_laws;
pub mod identity_laws;
pub mod program_laws;
pub mod recording;
pub mod board_sensors;
pub mod card_check;
