//! Monotonic time: instants and durations counted in timer ticks.
//!
//! The values stand for `embassy_time`'s instants and durations; the unit
//! conversions are computed by that crate.
use vstd::prelude::*;

verus! {

/// Timer ticks in one second.
pub const TICK_HZ: u64 = 1_000_000;

/// A point on the monotonic clock.
#[derive(Clone, Copy, Debug, PartialEq, Eq, Structural)]
pub struct Instant {
    /// Ticks since the clock started.
    pub ticks: u64,
}

/// A span of monotonic time.
#[derive(Clone, Copy, Debug, PartialEq, Eq, Structural)]
pub struct Duration {
    /// Length in ticks.
    pub ticks: u64,
}

impl View for Instant {
    type V = u64;

    open spec fn view(&self) -> u64 {
        self.ticks
    }
}

impl View for Duration {
    type V = u64;

    open spec fn view(&self) -> u64 {
        self.ticks
    }
}

/// Calls `embassy_time::Duration::from_secs`: a second holds `TICK_HZ` ticks.
/// The product must fit, because that function multiplies without a check.
#[verifier::external_body]
fn ticks_from_secs(secs: u64) -> (ticks: u64)
    requires
        secs * TICK_HZ <= u64::MAX,
    ensures
        ticks == secs * TICK_HZ,
{
    embassy_time::Duration::from_secs(secs).as_ticks()
}

/// Calls `embassy_time::Duration::from_millis`: with `TICK_HZ` a multiple of
/// one thousand the product is exact. It must leave room below `u64::MAX`,
/// because that function multiplies without a check.
#[verifier::external_body]
fn ticks_from_millis(millis: u64) -> (ticks: u64)
    requires
        millis * (TICK_HZ / 1_000) <= u64::MAX,
    ensures
        ticks == millis * (TICK_HZ / 1_000),
{
    embassy_time::Duration::from_millis(millis).as_ticks()
}

/// Calls `embassy_time::Duration::from_micros`: a tick is one microsecond. The
/// largest count is left out, because that function rounds up by adding one.
#[verifier::external_body]
fn ticks_from_micros(micros: u64) -> (ticks: u64)
    requires
        micros < u64::MAX,
    ensures
        ticks == micros,
{
    embassy_time::Duration::from_micros(micros).as_ticks()
}

/// Calls `embassy_time::Duration::as_micros`: whole microseconds, rounded
/// down. A tick is one microsecond, so nothing can overflow.
#[verifier::external_body]
fn ticks_to_micros(ticks: u64) -> (micros: u64)
    ensures
        micros == ticks * 1_000_000 / TICK_HZ as int,
{
    embassy_time::Duration::from_ticks(ticks).as_micros()
}

/// Calls `embassy_time::Duration::as_millis`: whole milliseconds, rounded
/// down. A tick is shorter than a millisecond, so nothing can overflow.
#[verifier::external_body]
fn ticks_to_millis(ticks: u64) -> (millis: u64)
    ensures
        millis == ticks * 1_000 / TICK_HZ as int,
{
    embassy_time::Duration::from_ticks(ticks).as_millis()
}

/// Calls `embassy_time::Duration::as_secs`: whole seconds, rounded down.
#[verifier::external_body]
fn ticks_to_secs(ticks: u64) -> (secs: u64)
    ensures
        secs == ticks / TICK_HZ,
{
    embassy_time::Duration::from_ticks(ticks).as_secs()
}

impl Duration {
    /// The duration of a number of ticks.
    pub fn from_ticks(ticks: u64) -> (duration: Duration)
        ensures
            duration@ == ticks,
    {
        Duration { ticks }
    }

    /// The duration of a number of seconds.
    pub fn from_secs(secs: u64) -> (duration: Duration)
        requires
            secs * TICK_HZ <= u64::MAX,
        ensures
            duration@ == secs * TICK_HZ,
    {
        Duration { ticks: ticks_from_secs(secs) }
    }

    /// The duration of a number of milliseconds.
    pub fn from_millis(millis: u64) -> (duration: Duration)
        requires
            millis * (TICK_HZ / 1_000) <= u64::MAX,
        ensures
            duration@ == millis * (TICK_HZ / 1_000),
    {
        Duration { ticks: ticks_from_millis(millis) }
    }

    /// The duration of a number of microseconds.
    pub fn from_micros(micros: u64) -> (duration: Duration)
        requires
            micros < u64::MAX,
        ensures
            duration@ == micros,
    {
        Duration { ticks: ticks_from_micros(micros) }
    }

    /// Number of ticks.
    pub fn as_ticks(&self) -> (ticks: u64)
        ensures
            ticks == self@,
    {
        self.ticks
    }

    /// Whole microseconds.
    pub fn as_micros(&self) -> (micros: u64)
        ensures
            micros == self@ * 1_000_000 / TICK_HZ as int,
    {
        ticks_to_micros(self.ticks)
    }

    /// Whole milliseconds.
    pub fn as_millis(&self) -> (millis: u64)
        ensures
            millis == self@ * 1_000 / TICK_HZ as int,
    {
        ticks_to_millis(self.ticks)
    }

    /// Whole seconds.
    pub fn as_secs(&self) -> (secs: u64)
        ensures
            secs == self@ / TICK_HZ,
    {
        ticks_to_secs(self.ticks)
    }
}

impl Instant {
    /// The instant a number of ticks after the clock started.
    pub fn from_ticks(ticks: u64) -> (instant: Instant)
        ensures
            instant@ == ticks,
    {
        Instant { ticks }
    }

    /// The instant a number of seconds after the clock started.
    pub fn from_secs(secs: u64) -> (instant: Instant)
        requires
            secs * TICK_HZ <= u64::MAX,
        ensures
            instant@ == secs * TICK_HZ,
    {
        Instant { ticks: ticks_from_secs(secs) }
    }

    /// The instant a number of microseconds after the clock started.
    pub fn from_micros(micros: u64) -> (instant: Instant)
        requires
            micros < u64::MAX,
        ensures
            instant@ == micros,
    {
        Instant { ticks: ticks_from_micros(micros) }
    }

    /// The instant a number of milliseconds after the clock started.
    pub fn from_millis(millis: u64) -> (instant: Instant)
        requires
            millis * (TICK_HZ / 1_000) <= u64::MAX,
        ensures
            instant@ == millis * (TICK_HZ / 1_000),
    {
        Instant { ticks: ticks_from_millis(millis) }
    }

    /// Number of ticks since the clock started.
    pub fn as_ticks(&self) -> (ticks: u64)
        ensures
            ticks == self@,
    {
        self.ticks
    }

    /// Whole microseconds since the clock started.
    pub fn as_micros(&self) -> (micros: u64)
        ensures
            micros == self@ * 1_000_000 / TICK_HZ as int,
    {
        ticks_to_micros(self.ticks)
    }

    /// Whole milliseconds since the clock started.
    pub fn as_millis(&self) -> (millis: u64)
        ensures
            millis == self@ * 1_000 / TICK_HZ as int,
    {
        ticks_to_millis(self.ticks)
    }

    /// Time since `earlier`, or nothing where `earlier` is later.
    pub fn saturating_duration_since(&self, earlier: Instant) -> (duration: Duration)
        ensures
            duration@ == elapsed_ticks(earlier, *self),
    {
        Duration { ticks: self.ticks.saturating_sub(earlier.ticks) }
    }

    /// The instant `duration` later, where the clock reaches that far.
    pub fn checked_add(&self, duration: Duration) -> (later: Option<Instant>)
        ensures
            later is Some <==> self@ + duration@ <= u64::MAX,
            later is Some ==> later->0@ == self@ + duration@,
    {
        match self.ticks.checked_add(duration.ticks) {
            Some(ticks) => Some(Instant { ticks }),
            None => None,
        }
    }
}

/// Ticks from `earlier` to `later`, zero where `later` comes first.
pub open spec fn elapsed_ticks(earlier: Instant, later: Instant) -> u64 {
    if later@ >= earlier@ {
        (later@ - earlier@) as u64
    } else {
        0
    }
}

/// The time since an instant, added to it, leads to the later one; there is none
/// before it.
pub proof fn law_elapsed_time_leads_there(earlier: Instant, later: Instant)
    ensures
        earlier.ticks <= later.ticks ==> earlier.ticks + elapsed_ticks(earlier, later)
            == later.ticks,
        earlier.ticks >= later.ticks ==> elapsed_ticks(earlier, later) == 0,
{
}

} // verus!
