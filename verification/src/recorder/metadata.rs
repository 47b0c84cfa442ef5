//! What a recording's file says about it.
use crate::clock::Instant;
use crate::text;
use crate::text::{text_copy, text_new};
use crate::time::types;
use crate::time::types::{TimeState, UtcTimestamp};
use vstd::prelude::*;

verus! {

/// Bytes of a device's name.
pub const DEVICE_ID_CAPACITY: usize = 32;

/// Bytes of a firmware's version.
pub const FIRMWARE_VERSION_CAPACITY: usize = 32;

/// What a recording's file says about it.
#[derive(Debug, PartialEq, Eq)]
pub struct RecordingMetadata {
    pub started_utc: UtcTimestamp,
    pub latitude_e7: Option<i32>,
    pub longitude_e7: Option<i32>,
    pub device_id: heapless::String<DEVICE_ID_CAPACITY>,
    pub firmware_version: heapless::String<FIRMWARE_VERSION_CAPACITY>,
}

/// Whether a recording of which only the start is known is described.
pub open spec fn only_start(metadata: RecordingMetadata, started_utc: UtcTimestamp) -> bool {
    &&& metadata.started_utc == started_utc
    &&& metadata.latitude_e7 is None
    &&& metadata.longitude_e7 is None
    &&& text::text(metadata.device_id) == Seq::<char>::empty()
    &&& text::text(metadata.firmware_version) == Seq::<char>::empty()
}

impl RecordingMetadata {
    /// A recording of which only the start is known.
    pub fn new(started_utc: UtcTimestamp) -> (metadata: Self)
        ensures
            only_start(metadata, started_utc),
    {
        RecordingMetadata {
            started_utc,
            latitude_e7: None,
            longitude_e7: None,
            device_id: text_new(),
            firmware_version: text_new(),
        }
    }

    /// A recording that starts at a local instant, as soon as its UTC is
    /// known.
    pub fn starting_at(time: &TimeState, now: Instant) -> (metadata: Option<Self>)
        ensures
            match metadata {
                Some(metadata) => {
                    &&& time.knows(now)
                    &&& only_start(metadata, types::timestamp_at(time.mapped_micros(now)))
                },
                None => !time.knows(now),
            },
    {
        match time.system_to_utc(now) {
            Ok(utc) => Some(RecordingMetadata::new(utc)),
            Err(_) => None,
        }
    }
}

impl Clone for RecordingMetadata {
    /// The same metadata, with texts of its own.
    fn clone(&self) -> (metadata: Self)
        ensures
            metadata.started_utc == self.started_utc,
            metadata.latitude_e7 == self.latitude_e7,
            metadata.longitude_e7 == self.longitude_e7,
            text::text(metadata.device_id) == text::text(self.device_id),
            text::text(metadata.firmware_version) == text::text(self.firmware_version),
    {
        RecordingMetadata {
            started_utc: self.started_utc,
            latitude_e7: self.latitude_e7,
            longitude_e7: self.longitude_e7,
            device_id: text_copy(&self.device_id),
            firmware_version: text_copy(&self.firmware_version),
        }
    }
}

/// Says what a recording's file tells about it.
pub trait MetadataSource {
    /// What is told, once everything that a recording needs is known.
    fn snapshot(&self) -> Option<RecordingMetadata>;
}

} // verus!
