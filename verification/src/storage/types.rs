//! Values exchanged with the stream storage.
use crate::time::types::UtcTimestamp;
use vstd::prelude::*;

verus! {

/// Longest path, in bytes.
pub const PATH_CAPACITY: usize = 128;

/// What a stream holds.
#[derive(Clone, Copy, Debug, PartialEq, Eq, Structural)]
pub enum StreamKind {
    Log,
    Audio,
    GpsTiming,
}

/// How streams are put into folders.
#[derive(Clone, Copy, Debug, PartialEq, Eq, Structural)]
pub enum StorageLayout {
    Flat,
    DailyFolders,
    HourlyFolders,
    MissionFolders,
    IntervalFolders { interval_seconds: i64 },
}

impl StorageLayout {
    /// Whether the layout names a usable interval.
    pub open spec fn valid(self) -> bool {
        match self {
            StorageLayout::IntervalFolders { interval_seconds } => interval_seconds > 0,
            _ => true,
        }
    }

    /// Whether the layout names a usable interval.
    pub fn is_valid(self) -> (valid: bool)
        ensures
            valid == self.valid(),
    {
        match self {
            StorageLayout::IntervalFolders { interval_seconds } => interval_seconds > 0,
            _ => true,
        }
    }
}

/// A ticket for an open stream. It stays unusable once the stream is finished,
/// even when its slot is used again.
#[derive(Clone, Copy, Debug, PartialEq, Eq, Structural)]
pub struct StreamHandle {
    index: u8,
    generation: u8,
}

impl StreamHandle {
    /// Slot that the ticket is for.
    pub closed spec fn slot(self) -> int {
        self.index as int
    }

    /// Use of the slot that the ticket is for.
    pub closed spec fn turn(self) -> u8 {
        self.generation
    }

    /// A ticket for one use of a slot.
    pub(crate) fn new(index: usize, generation: u8) -> (handle: Self)
        requires
            index <= u8::MAX,
        ensures
            handle.slot() == index,
            handle.turn() == generation,
    {
        StreamHandle { index: index as u8, generation }
    }

    /// Slot that the ticket is for.
    pub(crate) fn index(self) -> (index: usize)
        ensures
            index == self.slot(),
    {
        self.index as usize
    }

    /// Use of the slot that the ticket is for.
    pub(crate) fn generation(self) -> (generation: u8)
        ensures
            generation == self.turn(),
    {
        self.generation
    }
}

/// Tells UTC, where it is known.
pub trait UtcClock {
    /// The present time.
    fn current_utc(&self) -> Option<UtcTimestamp>;
}

/// Why a request was refused.
#[derive(Debug, PartialEq, Eq)]
pub enum StorageServiceError<E> {
    /// The file system failed.
    Backend(E),
    /// The configuration cannot work.
    InvalidConfig,
    /// The ticket belongs to no open stream.
    InvalidStream,
    /// Every slot is taken.
    TooManyStreams,
    /// The stream needs a time that is not known.
    InvalidTimestamp,
    /// The path cannot be used.
    InvalidPath,
}

} // verus!
