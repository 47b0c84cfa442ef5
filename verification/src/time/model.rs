//! What the clock does with an anchor, stated on plain values.
use crate::arith;
use crate::clock;
use crate::clock::{Duration, Instant, TICK_HZ};
use crate::order;
use crate::time::types;
use crate::time::types::{Anchor, TimeConfig, TimeSource, TimeState, UtcStatus};
use vstd::prelude::*;

verus! {

/// Frequency samples that a calibration is locked with.
pub const FREQUENCY_SAMPLE_CAPACITY: usize = 11;

/// One anchor as the frequency calibration keeps it.
#[derive(Clone, Copy, Debug, PartialEq, Eq, Structural)]
pub struct FrequencySample {
    /// Local ticks of the anchor.
    pub system_ticks: u64,
    /// UTC microseconds of the anchor.
    pub utc_us: i64,
    /// Origin of the anchor.
    pub source: TimeSource,
}

/// Everything a clock remembers.
#[verifier::ext_equal]
pub struct EstimatorModel {
    pub config: TimeConfig,
    pub state: TimeState,
    pub samples: Seq<FrequencySample>,
    pub last_pps_time: Option<Instant>,
    pub last_pps_sequence: Option<u64>,
}

/// A clock that has seen no anchor.
pub open spec fn fresh(config: TimeConfig) -> EstimatorModel {
    EstimatorModel {
        config,
        state: types::invalid_state(),
        samples: Seq::empty(),
        last_pps_time: None,
        last_pps_sequence: None,
    }
}

/// What holds of every clock: the samples fit their window and are counted, a
/// locked calibration is the one that the full window gives, only a clock with
/// an accepted anchor is valid or calibrated, and the reacquisition barrier is
/// open until a pulse was seen.
pub open spec fn consistent(m: EstimatorModel) -> bool {
    &&& m.samples.len() <= FREQUENCY_SAMPLE_CAPACITY
    &&& m.state.frequency_calibration_samples == m.samples.len()
    &&& m.state.frequency_calibration_locked ==> {
        &&& m.samples.len() == FREQUENCY_SAMPLE_CAPACITY
        &&& all_slopes(m).len() > 0
        &&& m.state.calibrated_frequency_error_ppb == median(all_slopes(m))
    }
    &&& m.state.accepted_anchors == 0 ==> {
        &&& m.samples.len() == 0
        &&& m.state.utc_status == UtcStatus::Invalid
        &&& m.state.last_anchor_system_time is None
    }
    &&& m.state.accepted_anchors > 0 ==> {
        &&& m.state.utc_status != UtcStatus::Invalid
        &&& m.state.last_anchor_system_time is Some
    }
    &&& m.last_pps_time is None ==> !m.state.pps_reacquisition_active
}

// ---- uncertainty and status ------------------------------------------------

/// Whole microseconds of a duration.
pub open spec fn micros_of(duration: Duration) -> int {
    duration@ * 1_000_000 / TICK_HZ as int
}

/// Uncertainty gathered over a free-running time.
pub open spec fn growth(duration: Duration, stability_ppb: u64) -> int {
    arith::min(micros_of(duration) * stability_ppb / 1_000_000_000, u64::MAX as int)
}

/// The status that an uncertainty earns.
pub open spec fn status_of(config: TimeConfig, state: TimeState) -> UtcStatus {
    if state.accepted_anchors == 0 {
        UtcStatus::Invalid
    } else if state.uncertainty_us > config.degraded_uncertainty_us {
        UtcStatus::Degraded
    } else {
        UtcStatus::Synchronized
    }
}

/// `m` with its status recomputed.
pub open spec fn refreshed(m: EstimatorModel) -> EstimatorModel {
    EstimatorModel {
        state: TimeState { utc_status: status_of(m.config, m.state), ..m.state },
        ..m
    }
}

/// `m` with one more rejected anchor.
pub open spec fn rejected(m: EstimatorModel) -> EstimatorModel {
    EstimatorModel {
        state: TimeState {
            rejected_anchors: arith::next_count(m.state.rejected_anchors),
            ..m.state
        },
        ..m
    }
}

// ---- frequency calibration -------------------------------------------------

/// Oscillator error that two samples show, in parts per billion, where both
/// clocks moved forward and the error is believable.
pub open spec fn pair_slope(first: FrequencySample, second: FrequencySample, limit: int) -> Option<
    i64,
> {
    let nominal_us = (second.system_ticks - first.system_ticks) * 1_000_000 / TICK_HZ as int;
    let utc_us = second.utc_us - first.utc_us;
    if second.system_ticks <= first.system_ticks || nominal_us <= 0 || utc_us <= 0 {
        None
    } else {
        let ppb = arith::trunc_div((utc_us - nominal_us) * 1_000_000_000, nominal_us);
        if arith::abs(ppb) <= limit {
            Some(ppb as i64)
        } else {
            None
        }
    }
}

/// Believable slopes of sample `first` against the samples after it and before
/// `end`.
pub open spec fn slopes_from(
    samples: Seq<FrequencySample>,
    limit: int,
    first: int,
    end: int,
) -> Seq<i64>
    decreases end - first,
{
    if end <= first + 1 {
        Seq::empty()
    } else {
        let before = slopes_from(samples, limit, first, end - 1);
        match pair_slope(samples[first], samples[end - 1], limit) {
            Some(ppb) => before.push(ppb),
            None => before,
        }
    }
}

/// Believable slopes of all pairs whose earlier sample is before `firsts`.
pub open spec fn slopes(samples: Seq<FrequencySample>, limit: int, firsts: int) -> Seq<i64>
    decreases firsts,
{
    if firsts <= 0 {
        Seq::empty()
    } else {
        slopes(samples, limit, firsts - 1) + slopes_from(
            samples,
            limit,
            firsts - 1,
            samples.len() as int,
        )
    }
}

/// Believable slopes of all pairs of samples.
pub open spec fn all_slopes(m: EstimatorModel) -> Seq<i64> {
    slopes(m.samples, m.config.max_frequency_error_ppb as int, m.samples.len() as int)
}

/// The middle value, or the mean of the two middle values rounded toward zero.
pub open spec fn median(values: Seq<i64>) -> int {
    let ordered = order::sorted(values);
    let middle = (values.len() / 2) as int;
    if values.len() % 2 == 0 {
        arith::trunc_div(ordered[middle - 1] + ordered[middle], 2)
    } else {
        ordered[middle] as int
    }
}

/// The samples that a new anchor is compared with: none from another source.
pub open spec fn comparable_samples(m: EstimatorModel, source: TimeSource) -> Seq<FrequencySample> {
    if m.samples.len() > 0 && m.samples.last().source != source {
        Seq::empty()
    } else {
        m.samples
    }
}

/// `m` with the anchor among its frequency samples, unless the calibration is
/// locked or the anchor follows the last sample too closely.
pub open spec fn with_sample(m: EstimatorModel, anchor: Anchor) -> EstimatorModel {
    let kept = comparable_samples(m, anchor.source);
    if m.state.frequency_calibration_locked {
        m
    } else if kept.len() > 0 && arith::max(anchor.system_time@ - kept.last().system_ticks, 0)
        < m.config.minimum_frequency_baseline@ {
        m
    } else {
        let window = if kept.len() == FREQUENCY_SAMPLE_CAPACITY {
            kept.drop_first()
        } else {
            kept
        };
        let samples = window.push(
            FrequencySample {
                system_ticks: anchor.system_time@,
                utc_us: anchor.utc.micros() as i64,
                source: anchor.source,
            },
        );
        EstimatorModel {
            state: TimeState { frequency_calibration_samples: samples.len() as u8, ..m.state },
            samples,
            ..m
        }
    }
}

/// `m` with the oscillator error taken from its samples, locked once the
/// window is full.
pub open spec fn calibrated(m: EstimatorModel) -> EstimatorModel {
    if all_slopes(m).len() == 0 {
        m
    } else {
        EstimatorModel {
            state: TimeState {
                calibrated_frequency_error_ppb: median(all_slopes(m)) as i64,
                frequency_calibration_locked: m.state.frequency_calibration_locked
                    || m.samples.len() == FREQUENCY_SAMPLE_CAPACITY,
                ..m.state
            },
            ..m
        }
    }
}

// ---- phase slew ------------------------------------------------------------

/// Temporary rate correction that removes a residual over the configured time.
pub open spec fn phase_slew(residual_us: int, config: TimeConfig) -> int {
    let duration_us = micros_of(config.phase_slew_duration);
    if duration_us == 0 {
        0
    } else {
        arith::clamp(
            arith::trunc_div(residual_us * 1_000_000_000, duration_us),
            -config.max_phase_slew_ppb,
            config.max_phase_slew_ppb as int,
        )
    }
}

/// `m` slewing a residual away on top of the calibrated rate.
pub open spec fn slewing(m: EstimatorModel, residual_us: int) -> EstimatorModel {
    let slew = phase_slew(residual_us, m.config);
    EstimatorModel {
        state: TimeState {
            phase_slew_ppb: slew as i64,
            estimated_frequency_error_ppb: arith::saturated_i64(
                m.state.calibrated_frequency_error_ppb + slew,
            ) as i64,
            ..m.state
        },
        ..m
    }
}

/// Whether the mapping of an instant exists and fits a timestamp.
pub open spec fn maps_to_timestamp(state: TimeState, at: Instant) -> bool {
    state.can_map(at) && i64::MIN <= state.mapped_micros(at) <= i64::MAX
}

/// `m` without its temporary rate correction, with the mapping carried on
/// from the instant `at`.
pub open spec fn unslewed(m: EstimatorModel, at: Instant) -> EstimatorModel {
    if m.state.phase_slew_ppb == 0 || !maps_to_timestamp(m.state, at) {
        m
    } else {
        EstimatorModel {
            state: TimeState {
                reference_system_time: at,
                reference_utc: types::timestamp_at(m.state.mapped_micros(at)),
                phase_slew_ppb: 0,
                estimated_frequency_error_ppb: m.state.calibrated_frequency_error_ppb,
                ..m.state
            },
            ..m
        }
    }
}

// ---- pulse reacquisition ---------------------------------------------------

/// Ticks between the previous pulse and this anchor's: measured by the driver,
/// or taken from the anchors themselves.
pub open spec fn pulse_interval(m: EstimatorModel, anchor: Anchor) -> int {
    match anchor.pps_interval {
        Some(interval) => interval@ as int,
        None => clock::elapsed_ticks(m.last_pps_time->0, anchor.system_time) as int,
    }
}

/// Whether more time passed since the previous anchor than its counted pulses
/// explain.
pub open spec fn sequence_gap(m: EstimatorModel, anchor: Anchor) -> bool {
    match (m.last_pps_sequence, anchor.pps_sequence) {
        (Some(previous), Some(current)) => {
            let edges = if current >= previous {
                current - previous
            } else {
                0
            };
            clock::elapsed_ticks(m.last_pps_time->0, anchor.system_time) > edges * TICK_HZ
                + m.config.pps_interval_tolerance@
        },
        _ => false,
    }
}

/// Whether the pulse was lost before this anchor.
pub open spec fn pulse_lost(m: EstimatorModel, anchor: Anchor) -> bool {
    pulse_interval(m, anchor) >= m.config.pps_loss_timeout@ || sequence_gap(m, anchor)
}

/// Whether the pulse interval is one second within the tolerance.
pub open spec fn pulse_clean(m: EstimatorModel, anchor: Anchor) -> bool {
    arith::abs(pulse_interval(m, anchor) - TICK_HZ) <= m.config.pps_interval_tolerance@
}

/// `m` with the anchor's pulse as the last one seen.
pub open spec fn pulse_noted(m: EstimatorModel, anchor: Anchor) -> EstimatorModel {
    EstimatorModel {
        last_pps_time: Some(anchor.system_time),
        last_pps_sequence: anchor.pps_sequence,
        ..m
    }
}

/// Clean intervals counted up to and with this anchor.
pub open spec fn clean_intervals(m: EstimatorModel, anchor: Anchor) -> u8 {
    if !pulse_clean(m, anchor) {
        0
    } else if m.state.pps_reacquisition_clean_intervals == u8::MAX {
        u8::MAX
    } else {
        (m.state.pps_reacquisition_clean_intervals + 1) as u8
    }
}

/// What the reacquisition barrier makes of a counted pulse: the clock and whether
/// the anchor may pass.
pub open spec fn qualified(m: EstimatorModel) -> (EstimatorModel, bool) {
    if m.state.pps_reacquisition_clean_intervals < m.config.pps_reacquisition_intervals {
        (
            EstimatorModel {
                state: TimeState {
                    pps_reacquisition_rejections: arith::next_count(m.state.pps_reacquisition_rejections),
                    ..m.state
                },
                ..m
            },
            false,
        )
    } else {
        (
            EstimatorModel {
                state: TimeState { pps_reacquisition_active: false, ..m.state },
                ..m
            },
            true,
        )
    }
}

/// The reacquisition barrier: the clock after a pulse and whether its anchor may
/// pass. A lost pulse closes the barrier; enough clean intervals open it.
pub open spec fn gated(m: EstimatorModel, anchor: Anchor) -> (EstimatorModel, bool) {
    let noted = pulse_noted(m, anchor);
    if m.last_pps_time is None {
        (noted, true)
    } else if pulse_lost(m, anchor) {
        qualified(
            unslewed(
                EstimatorModel {
                    state: TimeState {
                        pps_reacquisition_active: true,
                        pps_reacquisition_clean_intervals: 0,
                        ..m.state
                    },
                    ..noted
                },
                anchor.system_time,
            ),
        )
    } else if m.state.pps_reacquisition_active {
        qualified(
            EstimatorModel {
                state: TimeState {
                    pps_reacquisition_clean_intervals: clean_intervals(m, anchor),
                    ..m.state
                },
                ..noted
            },
        )
    } else {
        (noted, true)
    }
}

// ---- anchors ---------------------------------------------------------------

/// `m` with the mapping started at an anchor.
pub open spec fn first_mapping(m: EstimatorModel, anchor: Anchor) -> EstimatorModel {
    EstimatorModel {
        state: TimeState {
            reference_system_time: anchor.system_time,
            reference_utc: anchor.utc,
            estimated_frequency_error_ppb: 0,
            calibrated_frequency_error_ppb: 0,
            phase_slew_ppb: 0,
            uncertainty_us: anchor.quality.uncertainty_us,
            last_anchor_system_time: Some(anchor.system_time),
            last_anchor_utc: Some(anchor.utc),
            last_anchor_residual_us: None,
            holdover_duration: Duration { ticks: 0 },
            holdover_warning: false,
            active_time_source: anchor.source,
            first_anchor_source: anchor.source,
            accepted_anchors: 1,
            ..m.state
        },
        ..m
    }
}

/// The clock after its first anchor.
pub open spec fn started(m: EstimatorModel, anchor: Anchor) -> EstimatorModel {
    let noted = if anchor.source == TimeSource::GpsPps {
        pulse_noted(m, anchor)
    } else {
        m
    };
    with_sample(refreshed(first_mapping(noted, anchor)), anchor)
}

/// Whole second by which a pulse label is off, where it is off by one.
pub open spec fn second_correction(m: EstimatorModel, anchor: Anchor, residual_us: int) -> int {
    let tolerance = m.config.utc_second_correction_tolerance_us;
    if anchor.source != TimeSource::GpsPps {
        0
    } else if arith::abs(residual_us - 1_000_000) <= tolerance {
        1_000_000
    } else if arith::abs(residual_us + 1_000_000) <= tolerance {
        -1_000_000
    } else {
        0
    }
}

/// The anchor with its label shifted by a correction.
pub open spec fn corrected_anchor(anchor: Anchor, correction_us: int) -> Anchor {
    if correction_us == 0 {
        anchor
    } else {
        Anchor {
            utc: types::timestamp_at(arith::saturated_i64(anchor.utc.micros() - correction_us)),
            ..anchor
        }
    }
}

/// `m` with the residual of an anchor, and its correction, on record.
pub open spec fn measured(m: EstimatorModel, correction_us: int, residual_us: int) -> EstimatorModel {
    EstimatorModel {
        state: TimeState {
            utc_second_corrections: if correction_us == 0 {
                m.state.utc_second_corrections
            } else {
                arith::next_count(m.state.utc_second_corrections)
            },
            last_anchor_residual_us: Some(arith::saturated_i64(residual_us) as i64),
            ..m.state
        },
        ..m
    }
}

/// Largest residual with which an anchor is accepted.
pub open spec fn allowed_residual(m: EstimatorModel, anchor: Anchor) -> int {
    let own = arith::min(
        m.config.max_anchor_residual_us + anchor.quality.uncertainty_us,
        u64::MAX as int,
    );
    if anchor.source == TimeSource::GpsPps {
        own
    } else {
        own + m.state.uncertainty_us
    }
}

/// `m` rebased on an accepted anchor: the mapping runs on from the value it
/// predicted there.
pub open spec fn rebased(
    m: EstimatorModel,
    anchor: Anchor,
    predicted_us: int,
    residual_us: int,
) -> EstimatorModel {
    refreshed(
        EstimatorModel {
            state: TimeState {
                reference_system_time: anchor.system_time,
                reference_utc: types::timestamp_at(predicted_us),
                uncertainty_us: arith::min(
                    anchor.quality.uncertainty_us + arith::min(arith::abs(residual_us), u64::MAX as int),
                    u64::MAX as int,
                ) as u64,
                last_anchor_system_time: Some(anchor.system_time),
                last_anchor_utc: Some(anchor.utc),
                holdover_duration: Duration { ticks: 0 },
                holdover_warning: false,
                active_time_source: anchor.source,
                accepted_anchors: arith::next_count(m.state.accepted_anchors),
                ..m.state
            },
            ..m
        },
    )
}

/// What becomes of an anchor close enough to the mapping: the rate is tuned to
/// it, and the mapping is rebased on it as long as its prediction fits.
pub open spec fn adopted(
    m: EstimatorModel,
    anchor: Anchor,
    predicted_us: int,
    residual_us: int,
) -> (EstimatorModel, bool) {
    let tuned = slewing(calibrated(with_sample(m, anchor)), residual_us);
    if i64::MIN <= predicted_us <= i64::MAX {
        (rebased(tuned, anchor, predicted_us, residual_us), true)
    } else {
        (rejected(tuned), false)
    }
}

/// What becomes of an anchor that reached the mapping, and whether it was
/// accepted.
pub open spec fn compared(m: EstimatorModel, anchor: Anchor) -> (EstimatorModel, bool) {
    if !m.state.can_map(anchor.system_time) {
        (rejected(m), false)
    } else {
        let predicted = m.state.mapped_micros(anchor.system_time);
        let raw = anchor.utc.micros() - predicted;
        let correction = second_correction(m, anchor, raw);
        let residual = raw - correction;
        let noted = measured(m, correction, residual);
        let label = corrected_anchor(anchor, correction);
        if arith::abs(residual) > allowed_residual(m, anchor) {
            (rejected(noted), false)
        } else {
            adopted(noted, label, predicted, residual)
        }
    }
}

/// What becomes of an anchor, and whether it was accepted.
pub open spec fn ingested(m: EstimatorModel, anchor: Anchor) -> (EstimatorModel, bool) {
    if m.state.accepted_anchors == 0 {
        (started(m, anchor), true)
    } else if anchor.source == TimeSource::GpsPps {
        let (observed, pass) = gated(m, anchor);
        if pass {
            compared(observed, anchor)
        } else {
            (rejected(observed), false)
        }
    } else {
        compared(m, anchor)
    }
}

/// The clock at a later instant without a new anchor.
pub open spec fn held_over(m: EstimatorModel, now: Instant) -> EstimatorModel {
    match m.state.last_anchor_system_time {
        None => EstimatorModel {
            state: TimeState { utc_status: UtcStatus::Invalid, ..m.state },
            ..m
        },
        Some(last_anchor) => {
            let before = growth(m.state.holdover_duration, m.config.holdover_stability_ppb);
            let base = if m.state.uncertainty_us >= before {
                m.state.uncertainty_us - before
            } else {
                0
            };
            let duration = Duration { ticks: clock::elapsed_ticks(last_anchor, now) };
            let timed = EstimatorModel {
                state: TimeState { holdover_duration: duration, ..m.state },
                ..m
            };
            let free = if duration@ >= m.config.pps_loss_timeout@ {
                unslewed(timed, now)
            } else {
                timed
            };
            let uncertainty = arith::min(
                base + growth(duration, m.config.holdover_stability_ppb),
                u64::MAX as int,
            );
            let grown = refreshed(
                EstimatorModel {
                    state: TimeState { uncertainty_us: uncertainty as u64, ..free.state },
                    ..free
                },
            );
            EstimatorModel {
                state: TimeState {
                    holdover_warning: m.state.holdover_warning || duration@
                        >= m.config.holdover_warning_threshold@,
                    ..grown.state
                },
                ..grown
            }
        },
    }
}

} // verus!
