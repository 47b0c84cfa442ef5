//! Values exchanged with the position filter.
use crate::clock::Instant;
use crate::time::gps::UtcDateTime;
use vstd::prelude::*;

verus! {

/// Fewest satellites of a usable fix, by default.
pub const DEFAULT_MIN_SATELLITES: u8 = 4;

/// Largest dilution of a usable fix, in hundredths, by default.
pub const DEFAULT_MAX_HDOP_CENTI: u16 = 500;

/// Fewest fixes of a valid position, by default.
pub const DEFAULT_MIN_ACCEPTED_FIXES: usize = 3;

/// Receivers that a position is published to by default.
pub const DEFAULT_LOCATION_WATCHERS: usize = 4;

/// Fixes that a position is taken from by default.
pub const DEFAULT_LOCATION_HISTORY: usize = 9;

/// An angle on the globe, in ten-millionths of a degree.
#[derive(Clone, Copy, Debug, PartialEq, Eq, Structural)]
pub struct Coordinate {
    pub degrees_e7: i32,
}

/// One fix of the receiver.
#[derive(Clone, Copy, Debug, PartialEq, Eq, Structural)]
pub struct GpsFix {
    pub latitude: Coordinate,
    pub longitude: Coordinate,
    pub utc_time: UtcDateTime,
    pub satellites: u8,
    pub hdop_centi: Option<u16>,
    pub system_timestamp: Instant,
}

/// Where a position comes from.
#[derive(Clone, Copy, Debug, PartialEq, Eq, Structural)]
pub enum LocationSource {
    NoSource,
    Gps,
    Manual,
    FutureExternal,
}

impl Default for LocationSource {
    fn default() -> (source: Self)
        ensures
            source == LocationSource::NoSource,
    {
        LocationSource::NoSource
    }
}

/// Which fixes are used.
#[derive(Clone, Copy, Debug, PartialEq, Eq, Structural)]
pub struct LocationConfig {
    /// Fewest satellites of a usable fix.
    pub minimum_satellites: u8,
    /// Largest dilution of a usable fix, in hundredths.
    pub maximum_hdop_centi: Option<u16>,
    /// Fewest fixes of a valid position.
    pub minimum_accepted_fixes: usize,
}

impl Default for LocationConfig {
    fn default() -> (config: Self)
        ensures
            config == (LocationConfig {
                minimum_satellites: 4,
                maximum_hdop_centi: Some(500),
                minimum_accepted_fixes: 3,
            }),
    {
        LocationConfig {
            minimum_satellites: DEFAULT_MIN_SATELLITES,
            maximum_hdop_centi: Some(DEFAULT_MAX_HDOP_CENTI),
            minimum_accepted_fixes: DEFAULT_MIN_ACCEPTED_FIXES,
        }
    }
}

/// The filtered position.
#[derive(Clone, Copy, Debug, PartialEq, Eq, Structural)]
pub struct LocationState {
    pub valid: bool,
    pub latitude: Coordinate,
    pub longitude: Coordinate,
    pub source: LocationSource,
    pub fix_count_used: u8,
    pub total_fix_count_seen: u64,
    pub last_fix_system_time: Instant,
    pub last_fix_utc_time: Option<UtcDateTime>,
    pub hdop_centi: Option<u16>,
    pub satellites: Option<u8>,
    pub uncertainty_meters: Option<u32>,
}

/// The position before any fix.
pub open spec fn no_location() -> LocationState {
    LocationState {
        valid: false,
        latitude: Coordinate { degrees_e7: 0 },
        longitude: Coordinate { degrees_e7: 0 },
        source: LocationSource::NoSource,
        fix_count_used: 0,
        total_fix_count_seen: 0,
        last_fix_system_time: Instant { ticks: 0 },
        last_fix_utc_time: None,
        hdop_centi: None,
        satellites: None,
        uncertainty_meters: None,
    }
}

impl LocationState {
    /// The position before any fix.
    pub fn invalid() -> (state: Self)
        ensures
            state == no_location(),
    {
        LocationState {
            valid: false,
            latitude: Coordinate { degrees_e7: 0 },
            longitude: Coordinate { degrees_e7: 0 },
            source: LocationSource::NoSource,
            fix_count_used: 0,
            total_fix_count_seen: 0,
            last_fix_system_time: Instant::from_ticks(0),
            last_fix_utc_time: None,
            hdop_centi: None,
            satellites: None,
            uncertainty_meters: None,
        }
    }
}

} // verus!
