//! The clock: accepts UTC anchors and maintains the mapping.
use crate::arith;
use crate::arith::{saturate_i64, saturate_u64};
use crate::clock::{Duration, Instant, TICK_HZ};
use crate::order;
use crate::order::insertion_sort;
use crate::time::model;
use crate::time::model::{EstimatorModel, FrequencySample, FREQUENCY_SAMPLE_CAPACITY};
use crate::time::types::{Anchor, TimeConfig, TimeSource, TimeState, UtcStatus, UtcTimestamp};
use vstd::prelude::*;

verus! {

/// A clock disciplined by UTC anchors.
pub struct TimeEstimator {
    config: TimeConfig,
    state: TimeState,
    frequency_samples: Vec<FrequencySample>,
    last_observed_pps_system_time: Option<Instant>,
    last_observed_pps_sequence: Option<u64>,
}

impl View for TimeEstimator {
    type V = EstimatorModel;

    closed spec fn view(&self) -> EstimatorModel {
        EstimatorModel {
            config: self.config,
            state: self.state,
            samples: self.frequency_samples@,
            last_pps_time: self.last_observed_pps_system_time,
            last_pps_sequence: self.last_observed_pps_sequence,
        }
    }
}

impl TimeEstimator {
    /// What holds of every clock.
    pub open spec fn well_formed(self) -> bool {
        model::consistent(self@)
    }

    /// A clock that has seen no anchor.
    pub fn new(config: TimeConfig) -> (estimator: Self)
        ensures
            estimator@ == model::fresh(config),
            estimator.well_formed(),
    {
        TimeEstimator {
            config,
            state: TimeState::invalid(),
            frequency_samples: Vec::new(),
            last_observed_pps_system_time: None,
            last_observed_pps_sequence: None,
        }
    }

    /// The present mapping.
    pub fn state(&self) -> (state: TimeState)
        ensures
            state == self@.state,
    {
        self.state
    }

    /// Takes an anchor in; tells whether it was accepted.
    pub fn ingest(&mut self, anchor: Anchor) -> (accepted: bool)
        requires
            old(self).well_formed(),
        ensures
            (final(self)@, accepted) == model::ingested(old(self)@, anchor),
            final(self).well_formed(),
    {
        if self.state.accepted_anchors == 0 {
            if anchor.source == TimeSource::GpsPps {
                self.last_observed_pps_system_time = Some(anchor.system_time);
                self.last_observed_pps_sequence = anchor.pps_sequence;
            }
            self.accept_first(anchor);
            return true;
        }
        if anchor.source == TimeSource::GpsPps {
            if !self.pps_reacquisition_ready(anchor) {
                self.reject();
                return false;
            }
        }
        self.compare(anchor)
    }

    /// Holds an anchor against the mapping; tells whether it was accepted.
    fn compare(&mut self, anchor: Anchor) -> (accepted: bool)
        requires
            old(self).well_formed(),
            old(self)@.state.accepted_anchors > 0,
        ensures
            (final(self)@, accepted) == model::compared(old(self)@, anchor),
            final(self).well_formed(),
    {
        let predicted_us: i128 = match self.state.map_micros(anchor.system_time) {
            Some(predicted_us) => predicted_us,
            None => {
                self.reject();
                return false;
            },
        };
        let mut label: Anchor = anchor;
        let mut residual_us: i128 = anchor.utc.as_micros() as i128 - predicted_us;
        let correction_us: i64 = self.second_correction(anchor, residual_us);
        if correction_us != 0 {
            label.utc = UtcTimestamp::from_micros(
                saturate_i64(anchor.utc.as_micros() as i128 - correction_us as i128),
            );
            residual_us = residual_us - correction_us as i128;
            self.state.utc_second_corrections = self.state.utc_second_corrections.saturating_add(
                1,
            );
        }
        self.state.last_anchor_residual_us = Some(saturate_i64(residual_us));
        let mut allowed: i128 = self.config.max_anchor_residual_us.saturating_add(
            anchor.quality.uncertainty_us,
        ) as i128;
        if !(anchor.source == TimeSource::GpsPps) {
            allowed = allowed + self.state.uncertainty_us as i128;
        }
        if magnitude(residual_us) > allowed as u128 {
            self.reject();
            return false;
        }
        self.adopt(label, predicted_us, residual_us)
    }

    /// Tunes the rate to an anchor close enough to the mapping, and rebases the
    /// mapping on it; tells whether that was possible.
    fn adopt(&mut self, anchor: Anchor, predicted_us: i128, residual_us: i128) -> (accepted: bool)
        requires
            old(self).well_formed(),
            old(self)@.state.accepted_anchors > 0,
            -0x4_0000_0000_0000_0000 <= residual_us <= 0x4_0000_0000_0000_0000,
        ensures
            (final(self)@, accepted) == model::adopted(
                old(self)@,
                anchor,
                predicted_us as int,
                residual_us as int,
            ),
            final(self).well_formed(),
    {
        self.tune(anchor, residual_us);

        // The mapping is rebased at its own prediction before its rate
        // changes: UTC stays continuous while the residual is slewed away.
        let predicted: i64 = match i64::try_from(predicted_us) {
            Ok(predicted) => predicted,
            Err(_) => {
                self.reject();
                return false;
            },
        };
        self.state.reference_system_time = anchor.system_time;
        self.state.reference_utc = UtcTimestamp::from_micros(predicted);
        self.state.uncertainty_us = anchor.quality.uncertainty_us.saturating_add(
            saturate_u64(magnitude(residual_us)),
        );
        self.state.last_anchor_system_time = Some(anchor.system_time);
        self.state.last_anchor_utc = Some(anchor.utc);
        self.state.holdover_duration = Duration::from_ticks(0);
        self.state.active_time_source = anchor.source;
        self.state.accepted_anchors = self.state.accepted_anchors.saturating_add(1);
        self.state.holdover_warning = false;
        self.refresh_utc_status();
        true
    }

    /// Calibrates the oscillator with an anchor and slews its residual away.
    fn tune(&mut self, anchor: Anchor, residual_us: i128)
        requires
            old(self).well_formed(),
            old(self)@.state.accepted_anchors > 0,
            -0x4_0000_0000_0000_0000 <= residual_us <= 0x4_0000_0000_0000_0000,
        ensures
            final(self)@ == model::slewing(
                model::calibrated(model::with_sample(old(self)@, anchor)),
                residual_us as int,
            ),
            final(self).well_formed(),
            final(self)@.state.accepted_anchors == old(self)@.state.accepted_anchors,
    {
        self.add_frequency_sample(anchor);
        self.update_frequency_calibration();
        let slew: i64 = phase_slew_ppb(residual_us, &self.config);
        self.state.phase_slew_ppb = slew;
        self.state.estimated_frequency_error_ppb = saturate_i64(
            self.state.calibrated_frequency_error_ppb as i128 + slew as i128,
        );
    }

    /// Whole second by which a pulse label is off, where it is off by one.
    fn second_correction(&self, anchor: Anchor, residual_us: i128) -> (correction_us: i64)
        requires
            -0x1_0000_0000_0000_0000_0000_0000 <= residual_us <= 0x1_0000_0000_0000_0000_0000_0000,
        ensures
            correction_us == model::second_correction(self@, anchor, residual_us as int),
    {
        let tolerance_us: u128 = self.config.utc_second_correction_tolerance_us as u128;
        if !(anchor.source == TimeSource::GpsPps) {
            0
        } else if magnitude(residual_us - 1_000_000) <= tolerance_us {
            1_000_000
        } else if magnitude(residual_us + 1_000_000) <= tolerance_us {
            -1_000_000
        } else {
            0
        }
    }

    /// Moves the clock to a later instant without a new anchor.
    pub fn update_holdover(&mut self, now: Instant) -> (state: TimeState)
        requires
            old(self).well_formed(),
        ensures
            final(self)@ == model::held_over(old(self)@, now),
            state == final(self)@.state,
            final(self).well_formed(),
    {
        let last_anchor: Instant = match self.state.last_anchor_system_time {
            Some(last_anchor) => last_anchor,
            None => {
                self.state.utc_status = UtcStatus::Invalid;
                return self.state;
            },
        };
        let old_growth: u64 = uncertainty_growth(
            self.state.holdover_duration,
            self.config.holdover_stability_ppb,
        );
        let base_uncertainty: u64 = self.state.uncertainty_us.saturating_sub(old_growth);
        self.state.holdover_duration = now.saturating_duration_since(last_anchor);
        if self.state.holdover_duration.as_ticks() >= self.config.pps_loss_timeout.as_ticks() {
            self.disable_phase_slew(now);
        }
        let new_growth: u64 = uncertainty_growth(
            self.state.holdover_duration,
            self.config.holdover_stability_ppb,
        );
        self.state.uncertainty_us = base_uncertainty.saturating_add(new_growth);
        self.refresh_utc_status();
        if !self.state.holdover_warning && self.state.holdover_duration.as_ticks()
            >= self.config.holdover_warning_threshold.as_ticks() {
            self.state.holdover_warning = true;
        }
        self.state
    }

    /// Starts the mapping at the first anchor.
    fn accept_first(&mut self, anchor: Anchor)
        requires
            old(self)@.state.accepted_anchors == 0,
            old(self).well_formed(),
        ensures
            final(self)@ == model::with_sample(
                model::refreshed(model::first_mapping(old(self)@, anchor)),
                anchor,
            ),
            final(self).well_formed(),
    {
        self.state.reference_system_time = anchor.system_time;
        self.state.reference_utc = anchor.utc;
        self.state.estimated_frequency_error_ppb = 0;
        self.state.calibrated_frequency_error_ppb = 0;
        self.state.phase_slew_ppb = 0;
        self.state.uncertainty_us = anchor.quality.uncertainty_us;
        self.state.last_anchor_system_time = Some(anchor.system_time);
        self.state.last_anchor_utc = Some(anchor.utc);
        self.state.holdover_duration = Duration::from_ticks(0);
        self.state.holdover_warning = false;
        self.state.active_time_source = anchor.source;
        self.state.first_anchor_source = anchor.source;
        self.state.last_anchor_residual_us = None;
        self.state.accepted_anchors = 1;
        self.refresh_utc_status();
        self.add_frequency_sample(anchor);
    }

    /// Counts a rejected anchor.
    fn reject(&mut self)
        ensures
            final(self)@ == model::rejected(old(self)@),
    {
        self.state.rejected_anchors = self.state.rejected_anchors.saturating_add(1);
    }

    /// Keeps an anchor for the frequency calibration.
    fn add_frequency_sample(&mut self, anchor: Anchor)
        requires
            old(self)@.samples.len() <= FREQUENCY_SAMPLE_CAPACITY,
        ensures
            final(self)@ == model::with_sample(old(self)@, anchor),
    {
        if self.state.frequency_calibration_locked {
            return;
        }
        let count: usize = self.frequency_samples.len();
        if count != 0 {
            let last: FrequencySample = self.frequency_samples[count - 1];
            if last.source == anchor.source {
                if anchor.system_time.as_ticks().saturating_sub(last.system_ticks)
                    < self.config.minimum_frequency_baseline.as_ticks() {
                    return;
                }
            } else {
                self.frequency_samples.clear();
            }
        }
        if self.frequency_samples.len() == FREQUENCY_SAMPLE_CAPACITY {
            let ghost kept = self.frequency_samples@;
            self.frequency_samples.remove(0);
            assert(self.frequency_samples@ =~= kept.drop_first());
        }
        self.frequency_samples.push(
            FrequencySample {
                system_ticks: anchor.system_time.as_ticks(),
                utc_us: anchor.utc.as_micros(),
                source: anchor.source,
            },
        );
        self.state.frequency_calibration_samples = self.frequency_samples.len() as u8;
    }

    /// Takes the oscillator error from the samples. The median of the pairwise
    /// slopes is not moved by single mistagged samples.
    fn update_frequency_calibration(&mut self)
        requires
            old(self)@.samples.len() <= FREQUENCY_SAMPLE_CAPACITY,
        ensures
            final(self)@ == model::calibrated(old(self)@),
    {
        let count: usize = self.frequency_samples.len();
        let limit: i64 = self.config.max_frequency_error_ppb;
        let mut slopes: Vec<i64> = Vec::new();
        let mut first: usize = 0;
        while first < count
            invariant
                first <= count,
                count == self.frequency_samples@.len(),
                slopes@ == model::slopes(self.frequency_samples@, limit as int, first as int),
            decreases count - first,
        {
            let mut second: usize = first + 1;
            let ghost before = slopes@;
            while second < count
                invariant
                    first < second,
                    second <= count || second == first + 1,
                    first < count,
                    count == self.frequency_samples@.len(),
                    before == model::slopes(self.frequency_samples@, limit as int, first as int),
                    slopes@ == before + model::slopes_from(
                        self.frequency_samples@,
                        limit as int,
                        first as int,
                        second as int,
                    ),
                decreases count - second,
            {
                let observed: Option<i64> = observed_ppb(
                    self.frequency_samples[first],
                    self.frequency_samples[second],
                    limit,
                );
                if let Some(ppb) = observed {
                    slopes.push(ppb);
                }
                second = second + 1;
            }
            assert(second == count);
            first = first + 1;
        }
        let slope_count: usize = slopes.len();
        if slope_count == 0 {
            return;
        }
        insertion_sort(&mut slopes);
        proof {
            order::lemma_sorted(model::all_slopes(self@));
        }
        let middle: usize = slope_count / 2;
        let calibrated_ppb: i64 = if slope_count % 2 == 0 {
            let upper: i128 = slopes[middle] as i128;
            let lower: i128 = slopes[middle - 1] as i128;
            ((lower + upper) / 2) as i64
        } else {
            slopes[middle]
        };
        self.state.calibrated_frequency_error_ppb = calibrated_ppb;
        if count == FREQUENCY_SAMPLE_CAPACITY {
            self.state.frequency_calibration_locked = true;
        }
    }

    /// Removes the temporary phase correction while UTC stays continuous: only
    /// the learned oscillator frequency runs in holdover.
    fn disable_phase_slew(&mut self, at: Instant)
        ensures
            final(self)@ == model::unslewed(old(self)@, at),
    {
        if self.state.phase_slew_ppb == 0 {
            return;
        }
        let mapped_us: i128 = match self.state.map_micros(at) {
            Some(mapped_us) => mapped_us,
            None => {
                return;
            },
        };
        let mapped: i64 = match i64::try_from(mapped_us) {
            Ok(mapped) => mapped,
            Err(_) => {
                return;
            },
        };
        self.state.reference_system_time = at;
        self.state.reference_utc = UtcTimestamp::from_micros(mapped);
        self.state.phase_slew_ppb = 0;
        self.state.estimated_frequency_error_ppb = self.state.calibrated_frequency_error_ppb;
    }

    /// Refuses the edge after a gap and the first clean intervals behind it,
    /// which keeps standby gaps and timer restarts out of the mapping.
    fn pps_reacquisition_ready(&mut self, anchor: Anchor) -> (ready: bool)
        requires
            old(self).well_formed(),
        ensures
            (final(self)@, ready) == model::gated(old(self)@, anchor),
            final(self).well_formed(),
    {
        let observed: Option<Instant> = self.last_observed_pps_system_time;
        let previous_sequence: Option<u64> = self.last_observed_pps_sequence;
        self.last_observed_pps_system_time = Some(anchor.system_time);
        self.last_observed_pps_sequence = anchor.pps_sequence;
        let previous: Instant = match observed {
            Some(previous) => previous,
            None => {
                return true;
            },
        };
        // The driver's edge-to-edge interval is preferred: anchors can be
        // skipped when a label is late, so their spacing alone does not show
        // that the pulse was interrupted.
        let elapsed: Duration = anchor.system_time.saturating_duration_since(previous);
        let interval: Duration = match anchor.pps_interval {
            Some(interval) => interval,
            None => elapsed,
        };
        let interval_ticks: u64 = interval.as_ticks();
        let error_ticks: u64 = if interval_ticks >= TICK_HZ {
            interval_ticks - TICK_HZ
        } else {
            TICK_HZ - interval_ticks
        };
        let tolerance: u64 = self.config.pps_interval_tolerance.as_ticks();
        let clean: bool = error_ticks <= tolerance;
        let sequence_gap: bool = match (previous_sequence, anchor.pps_sequence) {
            (Some(before), Some(current)) => {
                let edge_count: u64 = current.saturating_sub(before);
                elapsed.as_ticks() as u128 > edge_count as u128 * TICK_HZ as u128
                    + tolerance as u128
            },
            _ => false,
        };
        if interval_ticks >= self.config.pps_loss_timeout.as_ticks() || sequence_gap {
            self.state.pps_reacquisition_active = true;
            self.state.pps_reacquisition_clean_intervals = 0;
            self.disable_phase_slew(anchor.system_time);
        } else if self.state.pps_reacquisition_active {
            self.state.pps_reacquisition_clean_intervals = if clean {
                self.state.pps_reacquisition_clean_intervals.saturating_add(1)
            } else {
                0
            };
        } else {
            return true;
        }
        if self.state.pps_reacquisition_clean_intervals < self.config.pps_reacquisition_intervals {
            self.state.pps_reacquisition_rejections =
            self.state.pps_reacquisition_rejections.saturating_add(1);
            return false;
        }
        self.state.pps_reacquisition_active = false;
        true
    }

    /// Recomputes the status from the uncertainty.
    fn refresh_utc_status(&mut self)
        ensures
            final(self)@ == model::refreshed(old(self)@),
    {
        self.state.utc_status = if self.state.accepted_anchors == 0 {
            UtcStatus::Invalid
        } else if self.state.uncertainty_us > self.config.degraded_uncertainty_us {
            UtcStatus::Degraded
        } else {
            UtcStatus::Synchronized
        };
    }
}

/// Oscillator error that two samples show, where it is believable.
fn observed_ppb(first: FrequencySample, second: FrequencySample, limit: i64) -> (ppb: Option<i64>)
    ensures
        ppb == model::pair_slope(first, second, limit as int),
{
    let system_ticks: u64 = second.system_ticks.saturating_sub(first.system_ticks);
    let nominal_us: i128 = system_ticks as i128 * 1_000_000 / TICK_HZ as i128;
    let utc_us: i128 = second.utc_us as i128 - first.utc_us as i128;
    if nominal_us <= 0 || utc_us <= 0 {
        return None;
    }
    let ppb: i128 = (utc_us - nominal_us) * 1_000_000_000 / nominal_us;
    proof {
        arith::lemma_trunc_div_bounded(
            (utc_us - nominal_us) * 1_000_000_000,
            nominal_us as int,
        );
    }
    if limit >= 0 && magnitude(ppb) <= limit as u128 {
        Some(ppb as i64)
    } else {
        None
    }
}

/// Magnitude of a wide value.
fn magnitude(value: i128) -> (result: u128)
    requires
        value > i128::MIN,
    ensures
        result == arith::abs(value as int),
{
    if value >= 0 {
        value as u128
    } else {
        (-value) as u128
    }
}

/// Temporary rate correction that removes a residual over the configured time.
fn phase_slew_ppb(residual_us: i128, config: &TimeConfig) -> (slew: i64)
    requires
        -0x4_0000_0000_0000_0000 <= residual_us <= 0x4_0000_0000_0000_0000,
    ensures
        slew == model::phase_slew(residual_us as int, *config),
{
    let duration_us: i128 = config.phase_slew_duration.as_micros() as i128;
    if duration_us == 0 {
        return 0;
    }
    let limit: i128 = config.max_phase_slew_ppb as i128;
    let requested: i128 = residual_us * 1_000_000_000 / duration_us;
    if requested < -limit {
        -limit as i64
    } else if requested > limit {
        limit as i64
    } else {
        requested as i64
    }
}

/// Uncertainty gathered over a free-running time.
fn uncertainty_growth(duration: Duration, stability_ppb: u64) -> (growth: u64)
    ensures
        growth == model::growth(duration, stability_ppb),
{
    let micros: u64 = duration.as_micros();
    proof {
        assert(micros * stability_ppb <= 0xffff_ffff_ffff_ffff * 0xffff_ffff_ffff_ffff)
            by (nonlinear_arith)
            requires
                micros <= 0xffff_ffff_ffff_ffff,
                stability_ppb <= 0xffff_ffff_ffff_ffff,
        ;
    }
    saturate_u64(micros as u128 * stability_ppb as u128 / 1_000_000_000)
}

} // verus!
