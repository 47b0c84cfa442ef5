//! Values exchanged with the clock, and the mapping they describe.
use crate::arith;
use crate::arith::saturate_i64;
use crate::clock::{Duration, Instant, TICK_HZ};
use vstd::prelude::*;

verus! {

/// Number of receivers that a clock publishes to by default.
pub const DEFAULT_WATCHERS: usize = 4;

/// Number of anchors that may wait for a clock by default.
pub const DEFAULT_ANCHOR_DEPTH: usize = 8;

/// Parts in a unit frequency ratio.
pub const NANOS_PER_SECOND: i128 = 1_000_000_000;

/// Microseconds in one second.
pub const MICROS_PER_SECOND: i64 = 1_000_000;

/// A UTC time since the Unix epoch.
#[derive(Clone, Copy, Debug, PartialEq, Eq, PartialOrd, Ord, Structural)]
pub struct UtcTimestamp {
    /// Whole seconds, negative before the epoch.
    pub seconds: i64,
    /// Microseconds within the second.
    pub microseconds: u32,
}

/// The timestamp that lies `micros` microseconds after the epoch.
pub open spec fn timestamp_at(micros: int) -> UtcTimestamp {
    UtcTimestamp {
        seconds: (micros / MICROS_PER_SECOND as int) as i64,
        microseconds: (micros % MICROS_PER_SECOND as int) as u32,
    }
}

impl UtcTimestamp {
    /// Whether the subsecond part is below one second.
    pub open spec fn is_normal(self) -> bool {
        self.microseconds < MICROS_PER_SECOND
    }

    /// Microseconds since the epoch, held inside `i64` after the seconds are
    /// scaled and again after the subsecond part is added.
    pub open spec fn micros(self) -> int {
        arith::saturated_i64(arith::saturated_i64(self.seconds * MICROS_PER_SECOND) + self.microseconds)
    }

    /// A timestamp, unless the subsecond part reaches a full second.
    pub fn new(seconds: i64, microseconds: u32) -> (timestamp: Option<Self>)
        ensures
            timestamp == (if microseconds < MICROS_PER_SECOND {
                Some(UtcTimestamp { seconds, microseconds })
            } else {
                None
            }),
    {
        if microseconds < 1_000_000 {
            Some(UtcTimestamp { seconds, microseconds })
        } else {
            None
        }
    }

    /// The timestamp that lies `micros` microseconds after the epoch.
    pub fn from_micros(micros: i64) -> (timestamp: Self)
        ensures
            timestamp == timestamp_at(micros as int),
            timestamp.is_normal(),
    {
        let mut seconds: i64 = micros / MICROS_PER_SECOND;
        let mut remainder: i64 = micros % MICROS_PER_SECOND;
        if remainder < 0 {
            seconds = seconds - 1;
            remainder = remainder + MICROS_PER_SECOND;
        }
        UtcTimestamp { seconds, microseconds: remainder as u32 }
    }

    /// Microseconds since the epoch.
    pub fn as_micros(self) -> (micros: i64)
        ensures
            micros == self.micros(),
    {
        let scaled: i64 = saturate_i64(self.seconds as i128 * 1_000_000);
        saturate_i64(scaled as i128 + self.microseconds as i128)
    }
}

impl Default for UtcTimestamp {
    /// The epoch.
    fn default() -> (timestamp: Self)
        ensures
            timestamp == (UtcTimestamp { seconds: 0, microseconds: 0 }),
    {
        UtcTimestamp { seconds: 0, microseconds: 0 }
    }
}

/// A microsecond count survives the conversion to a timestamp and back, unless
/// its whole seconds do not fit when scaled again.
pub proof fn law_micros_round_trip(micros: i64)
    requires
        micros >= -9_223_372_036_854_000_000,
    ensures
        timestamp_at(micros as int).micros() == micros,
{
}

/// A normal timestamp within the range of microsecond counts survives the
/// conversion to microseconds and back.
pub proof fn law_timestamp_round_trip(timestamp: UtcTimestamp)
    requires
        timestamp.is_normal(),
        i64::MIN <= timestamp.seconds * MICROS_PER_SECOND,
        timestamp.seconds * MICROS_PER_SECOND + timestamp.microseconds <= i64::MAX,
    ensures
        timestamp_at(timestamp.micros()) == timestamp,
{
}

/// Where a UTC anchor came from.
#[derive(Clone, Copy, Debug, PartialEq, Eq, Structural)]
pub enum TimeSource {
    NoSource,
    GpsNmea,
    GpsPps,
    Radio,
    Usb,
    Network,
    Laboratory,
    Other(u8),
}

impl Default for TimeSource {
    fn default() -> (source: Self)
        ensures
            source == TimeSource::NoSource,
    {
        TimeSource::NoSource
    }
}

/// How far an anchor may be trusted.
#[derive(Clone, Copy, Debug, PartialEq, Eq, Structural)]
pub struct AnchorQuality {
    /// Bound on the anchor's own error.
    pub uncertainty_us: u64,
}

impl AnchorQuality {
    /// A quality with the given error bound.
    pub fn new(uncertainty_us: u64) -> (quality: Self)
        ensures
            quality.uncertainty_us == uncertainty_us,
    {
        AnchorQuality { uncertainty_us }
    }
}

/// One observation of UTC at a known local instant.
#[derive(Clone, Copy, Debug, PartialEq, Eq, Structural)]
pub struct Anchor {
    /// Local instant of the observation.
    pub system_time: Instant,
    /// UTC at that instant.
    pub utc: UtcTimestamp,
    /// Trust in the observation.
    pub quality: AnchorQuality,
    /// Origin of the observation.
    pub source: TimeSource,
    /// Hardware capture count, where one was taken.
    pub capture_ticks: Option<u64>,
    /// Running number of the pulse edge, where the driver counts them.
    pub pps_sequence: Option<u64>,
    /// Measured edge-to-edge interval, where the driver measures it.
    pub pps_interval: Option<Duration>,
}

/// Parameters of the clock.
#[derive(Clone, Copy, Debug, PartialEq, Eq, Structural)]
pub struct TimeConfig {
    /// Uncertainty above which UTC counts as degraded.
    pub degraded_uncertainty_us: u64,
    /// Assumed drift of a free-running oscillator.
    pub holdover_stability_ppb: u64,
    /// Largest oscillator error that a slope may show.
    pub max_frequency_error_ppb: i64,
    /// Largest difference between an anchor and the mapping.
    pub max_anchor_residual_us: u64,
    /// Distance from a full second within which a pulse label is shifted.
    pub utc_second_correction_tolerance_us: u64,
    /// Shortest spacing of two frequency samples.
    pub minimum_frequency_baseline: Duration,
    /// Time over which a phase residual is slewed away.
    pub phase_slew_duration: Duration,
    /// Largest temporary rate correction.
    pub max_phase_slew_ppb: u32,
    /// Pulse interval from which the pulse counts as lost.
    pub pps_loss_timeout: Duration,
    /// Deviation from one second that a clean pulse interval may have.
    pub pps_interval_tolerance: Duration,
    /// Clean intervals needed after a loss.
    pub pps_reacquisition_intervals: u8,
    /// Holdover time from which a warning is raised.
    pub holdover_warning_threshold: Duration,
    /// Longest time between two published states.
    pub publish_interval: Duration,
}

impl Default for TimeConfig {
    fn default() -> (config: Self)
        ensures
            config == (TimeConfig {
                degraded_uncertainty_us: 5_000_000,
                holdover_stability_ppb: 10_000,
                max_frequency_error_ppb: 100_000,
                max_anchor_residual_us: 2_000_000,
                utc_second_correction_tolerance_us: 100_000,
                minimum_frequency_baseline: Duration { ticks: 10_000_000 },
                phase_slew_duration: Duration { ticks: 10_000_000 },
                max_phase_slew_ppb: 100_000,
                pps_loss_timeout: Duration { ticks: 2_000_000 },
                pps_interval_tolerance: Duration { ticks: 1_000 },
                pps_reacquisition_intervals: 3,
                holdover_warning_threshold: Duration { ticks: 600_000_000 },
                publish_interval: Duration { ticks: 1_000_000 },
            }),
    {
        TimeConfig {
            degraded_uncertainty_us: 5_000_000,
            holdover_stability_ppb: 10_000,
            max_frequency_error_ppb: 100_000,
            max_anchor_residual_us: 2_000_000,
            utc_second_correction_tolerance_us: 100_000,
            minimum_frequency_baseline: Duration::from_secs(10),
            phase_slew_duration: Duration::from_secs(10),
            max_phase_slew_ppb: 100_000,
            pps_loss_timeout: Duration::from_secs(2),
            pps_interval_tolerance: Duration::from_millis(1),
            pps_reacquisition_intervals: 3,
            holdover_warning_threshold: Duration::from_secs(600),
            publish_interval: Duration::from_secs(1),
        }
    }
}

/// Why a time could not be converted.
#[derive(Clone, Copy, Debug, PartialEq, Eq, Structural)]
pub enum TimeError {
    /// No anchor was accepted yet.
    NotValid,
    /// The result does not fit.
    OutOfRange,
}

/// How far UTC may be trusted.
#[derive(Clone, Copy, Debug, PartialEq, Eq, Structural)]
pub enum UtcStatus {
    /// No anchor was accepted yet.
    Invalid,
    /// The mapping holds, with a large uncertainty.
    Degraded,
    /// The mapping holds within the configured uncertainty.
    Synchronized,
}

/// The mapping from local time to UTC, and how it was obtained.
#[derive(Clone, Copy, Debug, PartialEq, Eq, Structural)]
pub struct TimeState {
    pub utc_status: UtcStatus,
    pub reference_system_time: Instant,
    pub reference_utc: UtcTimestamp,
    pub estimated_frequency_error_ppb: i64,
    pub calibrated_frequency_error_ppb: i64,
    pub phase_slew_ppb: i64,
    pub frequency_calibration_samples: u8,
    pub frequency_calibration_locked: bool,
    pub uncertainty_us: u64,
    pub last_anchor_system_time: Option<Instant>,
    pub last_anchor_utc: Option<UtcTimestamp>,
    pub last_anchor_residual_us: Option<i64>,
    pub holdover_duration: Duration,
    pub holdover_warning: bool,
    pub active_time_source: TimeSource,
    pub first_anchor_source: TimeSource,
    pub accepted_anchors: u32,
    pub rejected_anchors: u32,
    pub utc_second_corrections: u32,
    pub pps_reacquisition_active: bool,
    pub pps_reacquisition_clean_intervals: u8,
    pub pps_reacquisition_rejections: u32,
}

/// The state before any anchor.
pub open spec fn invalid_state() -> TimeState {
    TimeState {
        utc_status: UtcStatus::Invalid,
        reference_system_time: Instant { ticks: 0 },
        reference_utc: UtcTimestamp { seconds: 0, microseconds: 0 },
        estimated_frequency_error_ppb: 0,
        calibrated_frequency_error_ppb: 0,
        phase_slew_ppb: 0,
        frequency_calibration_samples: 0,
        frequency_calibration_locked: false,
        uncertainty_us: u64::MAX,
        last_anchor_system_time: None,
        last_anchor_utc: None,
        last_anchor_residual_us: None,
        holdover_duration: Duration { ticks: 0 },
        holdover_warning: false,
        active_time_source: TimeSource::NoSource,
        first_anchor_source: TimeSource::NoSource,
        accepted_anchors: 0,
        rejected_anchors: 0,
        utc_second_corrections: 0,
        pps_reacquisition_active: false,
        pps_reacquisition_clean_intervals: 0,
        pps_reacquisition_rejections: 0,
    }
}

impl TimeState {
    /// Rate of UTC against the nominal oscillator, in parts per billion.
    pub open spec fn scale(self) -> int {
        NANOS_PER_SECOND + self.estimated_frequency_error_ppb
    }

    /// Scaled distance of an instant from the reference.
    pub open spec fn scaled_delta(self, system_time: Instant) -> int {
        (system_time@ - self.reference_system_time@) * 1_000_000 * self.scale()
    }

    /// UTC microseconds that the mapping gives to a local instant.
    pub open spec fn mapped_micros(self, system_time: Instant) -> int {
        self.reference_utc.micros() + arith::trunc_div(
            self.scaled_delta(system_time),
            TICK_HZ * NANOS_PER_SECOND,
        )
    }

    /// Whether the mapping of an instant can be computed in 128 bits.
    pub open spec fn can_map(self, system_time: Instant) -> bool {
        i128::MIN <= self.scaled_delta(system_time) <= i128::MAX
    }

    /// Whether the UTC time of an instant is known.
    pub open spec fn knows(self, system_time: Instant) -> bool {
        &&& self.utc_status != UtcStatus::Invalid
        &&& self.can_map(system_time)
        &&& i64::MIN <= self.mapped_micros(system_time) <= i64::MAX
    }

    /// Local ticks that the mapping gives to a UTC time.
    pub open spec fn mapped_ticks(self, utc: UtcTimestamp) -> int {
        self.reference_system_time@ + arith::trunc_div(
            (utc.micros() - self.reference_utc.micros()) * TICK_HZ * NANOS_PER_SECOND,
            1_000_000 * self.scale(),
        )
    }

    /// The UTC time of a local instant, or why it cannot be told.
    pub open spec fn told_utc(self, system_time: Instant) -> Result<UtcTimestamp, TimeError> {
        if self.utc_status == UtcStatus::Invalid {
            Err(TimeError::NotValid)
        } else if self.can_map(system_time) && i64::MIN <= self.mapped_micros(system_time)
            <= i64::MAX {
            Ok(timestamp_at(self.mapped_micros(system_time)))
        } else {
            Err(TimeError::OutOfRange)
        }
    }

    /// The local instant of a UTC time, or why it cannot be told.
    pub open spec fn told_instant(self, utc: UtcTimestamp) -> Result<Instant, TimeError> {
        if self.utc_status == UtcStatus::Invalid {
            Err(TimeError::NotValid)
        } else if self.scale() > 0 && 0 <= self.mapped_ticks(utc) <= u64::MAX {
            Ok(Instant { ticks: self.mapped_ticks(utc) as u64 })
        } else {
            Err(TimeError::OutOfRange)
        }
    }

    /// The state before any anchor.
    pub fn invalid() -> (state: Self)
        ensures
            state == invalid_state(),
    {
        TimeState {
            utc_status: UtcStatus::Invalid,
            reference_system_time: Instant::from_ticks(0),
            reference_utc: UtcTimestamp { seconds: 0, microseconds: 0 },
            estimated_frequency_error_ppb: 0,
            calibrated_frequency_error_ppb: 0,
            phase_slew_ppb: 0,
            frequency_calibration_samples: 0,
            frequency_calibration_locked: false,
            uncertainty_us: u64::MAX,
            last_anchor_system_time: None,
            last_anchor_utc: None,
            last_anchor_residual_us: None,
            holdover_duration: Duration::from_ticks(0),
            holdover_warning: false,
            active_time_source: TimeSource::NoSource,
            first_anchor_source: TimeSource::NoSource,
            accepted_anchors: 0,
            rejected_anchors: 0,
            utc_second_corrections: 0,
            pps_reacquisition_active: false,
            pps_reacquisition_clean_intervals: 0,
            pps_reacquisition_rejections: 0,
        }
    }

    /// Whether the mapping may be used.
    pub fn utc_valid(&self) -> (valid: bool)
        ensures
            valid == (self.utc_status != UtcStatus::Invalid),
    {
        !(self.utc_status == UtcStatus::Invalid)
    }

    /// UTC microseconds of a local instant, where 128 bits hold the
    /// intermediate product.
    pub(crate) fn map_micros(&self, system_time: Instant) -> (micros: Option<i128>)
        ensures
            micros == (if self.can_map(system_time) {
                Some(self.mapped_micros(system_time) as i128)
            } else {
                None
            }),
            micros is Some ==> micros->0 == self.mapped_micros(system_time),
            micros is Some ==> -0x8000_0000_0000_0000_0000_0000 <= micros->0
                <= 0x8000_0000_0000_0000_0000_0000,
    {
        let delta_ticks: i128 = system_time.as_ticks() as i128
            - self.reference_system_time.as_ticks() as i128;
        let scale: i128 = NANOS_PER_SECOND + self.estimated_frequency_error_ppb as i128;
        match (delta_ticks * 1_000_000).checked_mul(scale) {
            None => None,
            Some(product) => {
                let divisor: i128 = TICK_HZ as i128 * NANOS_PER_SECOND;
                let delta_us: i128 = product / divisor;
                proof {
                    assert(divisor == 1_000_000_000_000_000);
                    arith::lemma_trunc_div_bounded(product as int, divisor as int);
                }
                Some(self.reference_utc.as_micros() as i128 + delta_us)
            },
        }
    }

    /// The UTC time of a local instant.
    pub fn system_to_utc(&self, system_time: Instant) -> (utc: Result<UtcTimestamp, TimeError>)
        ensures
            utc == self.told_utc(system_time),
    {
        if !self.utc_valid() {
            return Err(TimeError::NotValid);
        }
        match self.map_micros(system_time) {
            None => Err(TimeError::OutOfRange),
            Some(micros) => match i64::try_from(micros) {
                Ok(micros) => Ok(UtcTimestamp::from_micros(micros)),
                Err(_) => Err(TimeError::OutOfRange),
            },
        }
    }

    /// The local instant of a UTC time.
    pub fn utc_to_system(&self, utc: UtcTimestamp) -> (system_time: Result<Instant, TimeError>)
        ensures
            system_time == self.told_instant(utc),
    {
        if !self.utc_valid() {
            return Err(TimeError::NotValid);
        }
        let scale: i128 = NANOS_PER_SECOND + self.estimated_frequency_error_ppb as i128;
        if scale <= 0 {
            return Err(TimeError::OutOfRange);
        }
        let delta_us: i128 = utc.as_micros() as i128 - self.reference_utc.as_micros() as i128;
        assert(-0x1_0000_0000_0000_0000 <= delta_us <= 0x1_0000_0000_0000_0000);
        assert(-0x1_0000_0000_0000_0000 * 1_000_000 <= delta_us * 1_000_000
            <= 0x1_0000_0000_0000_0000 * 1_000_000);
        let product: i128 = delta_us * TICK_HZ as i128 * NANOS_PER_SECOND;
        let delta_ticks: i128 = product / (1_000_000 * scale);
        proof {
            arith::lemma_trunc_div_bounded(product as int, 1_000_000 * scale as int);
        }
        let ticks: i128 = self.reference_system_time.as_ticks() as i128 + delta_ticks;
        match u64::try_from(ticks) {
            Ok(ticks) => Ok(Instant::from_ticks(ticks)),
            Err(_) => Err(TimeError::OutOfRange),
        }
    }
}

} // verus!
