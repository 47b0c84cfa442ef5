//! What the clock is for: each statement speaks of an anchor and of the time
//! that the clock tells, in microseconds and ticks, which are the same.
use crate::arith;
use crate::clock::{Duration, Instant};
use crate::time::laws;
use crate::time::model;
use crate::time::model::{EstimatorModel, FrequencySample};
use crate::time::types;
use crate::time::types::{
    Anchor, TimeConfig, TimeError, TimeSource, TimeState, UtcStatus, UtcTimestamp,
};
use vstd::prelude::*;

verus! {

// ---- telling the time ------------------------------------------------------

/// Microseconds since the epoch count every second and every microsecond of a
/// timestamp.
pub proof fn law_micros_count_the_seconds(timestamp: UtcTimestamp)
    requires
        -9_000_000_000_000 <= timestamp.seconds <= 9_000_000_000_000,
        timestamp.microseconds < 1_000_000,
    ensures
        timestamp.micros() == timestamp.seconds * 1_000_000 + timestamp.microseconds,
        types::timestamp_at(timestamp.micros()) == timestamp,
{
}

/// The mapping passes through its reference and runs from there at one
/// microsecond per tick, faster by the estimated error in parts per billion,
/// rounded toward the reference.
pub proof fn law_mapping_runs_at_its_rate(state: TimeState, at: Instant)
    ensures
        ({
            let moved = state.mapped_micros(at) - state.reference_utc.micros();
            let run = (at.ticks - state.reference_system_time.ticks) * (1_000_000_000
                + state.estimated_frequency_error_ppb);
            &&& run >= 0 ==> moved * 1_000_000_000 <= run < (moved + 1) * 1_000_000_000
            &&& run <= 0 ==> (moved - 1) * 1_000_000_000 < run <= moved * 1_000_000_000
        }),
{
    let ticks = at.ticks - state.reference_system_time.ticks;
    let rate = 1_000_000_000 + state.estimated_frequency_error_ppb;
    let run = ticks * rate;
    assert(ticks * 1_000_000 * rate == run * 1_000_000) by (nonlinear_arith)
        requires
            run == ticks * rate,
    ;
    assert(state.scaled_delta(at) == run * 1_000_000);
    arith::lemma_trunc_div_bounded(run * 1_000_000, 1_000_000_000_000_000);
}

/// A valid clock with a believable rate knows the time of every instant within
/// thirty thousand years of its reference.
pub proof fn law_valid_clock_knows_the_time(state: TimeState, at: Instant)
    requires
        state.utc_status != UtcStatus::Invalid,
        -1_000_000_000 < state.estimated_frequency_error_ppb < 1_000_000_000,
        -4_000_000_000_000_000_000 <= state.reference_utc.micros() <= 4_000_000_000_000_000_000,
        -1_000_000_000_000_000_000 <= at.ticks - state.reference_system_time.ticks
            <= 1_000_000_000_000_000_000,
    ensures
        state.knows(at),
{
    law_mapping_runs_at_its_rate(state, at);
    let ticks = at.ticks - state.reference_system_time.ticks;
    let rate = 1_000_000_000 + state.estimated_frequency_error_ppb;
    let run = ticks * rate;
    assert(-2_000_000_000_000_000_000_000_000_000 <= run
        <= 2_000_000_000_000_000_000_000_000_000) by (nonlinear_arith)
        requires
            run == ticks * rate,
            0 < rate < 2_000_000_000,
            -1_000_000_000_000_000_000 <= ticks <= 1_000_000_000_000_000_000,
    ;
    assert(ticks * 1_000_000 * rate == run * 1_000_000) by (nonlinear_arith)
        requires
            run == ticks * rate,
    ;
    assert(state.scaled_delta(at) == run * 1_000_000);
}

/// The UTC time of an instant is told wherever the clock knows it, as whole seconds
/// and the microseconds behind them; an invalid clock tells none.
pub proof fn law_known_times_are_told(state: TimeState, at: Instant)
    ensures
        match state.told_utc(at) {
            Ok(utc) => {
                &&& state.knows(at)
                &&& utc.microseconds < 1_000_000
                &&& utc.seconds * 1_000_000 + utc.microseconds == state.mapped_micros(at)
            },
            Err(TimeError::NotValid) => state.utc_status == UtcStatus::Invalid,
            Err(TimeError::OutOfRange) => state.utc_status != UtcStatus::Invalid && !state.knows(
                at,
            ),
        },
{
}

/// The local instant of a UTC time lies as many ticks from the reference as the time
/// lies microseconds from it, fewer by the estimated error, rounded toward the
/// reference; an invalid clock tells none.
pub proof fn law_instants_are_told_at_the_same_rate(state: TimeState, utc: UtcTimestamp)
    ensures
        ({
            let rate = 1_000_000_000 + state.estimated_frequency_error_ppb;
            let owed = (utc.micros() - state.reference_utc.micros()) * 1_000_000_000;
            match state.told_instant(utc) {
                Ok(at) => {
                    let ticks = at.ticks - state.reference_system_time.ticks;
                    &&& state.utc_status != UtcStatus::Invalid
                    &&& rate > 0
                    &&& owed >= 0 ==> ticks * rate <= owed < (ticks + 1) * rate
                    &&& owed <= 0 ==> (ticks - 1) * rate < owed <= ticks * rate
                },
                Err(TimeError::NotValid) => state.utc_status == UtcStatus::Invalid,
                Err(TimeError::OutOfRange) => state.utc_status != UtcStatus::Invalid,
            }
        }),
{
    let rate = 1_000_000_000 + state.estimated_frequency_error_ppb;
    let owed = (utc.micros() - state.reference_utc.micros()) * 1_000_000_000;
    if rate > 0 {
        let product = (utc.micros() - state.reference_utc.micros()) * 1_000_000 * 1_000_000_000;
        assert(product == owed * 1_000_000);
        let divisor = 1_000_000 * rate;
        let ticks = arith::trunc_div(product, divisor);
        arith::lemma_trunc_div_bounded(product, divisor);
        let magnitude = arith::abs(ticks);
        assert(magnitude * divisor == 1_000_000 * (magnitude * rate)) by (nonlinear_arith)
            requires
                divisor == 1_000_000 * rate,
        ;
        assert((magnitude + 1) * divisor == 1_000_000 * ((magnitude + 1) * rate))
            by (nonlinear_arith)
            requires
                divisor == 1_000_000 * rate,
        ;
        assert(-magnitude * rate == -(magnitude * rate)) by (nonlinear_arith);
        assert((-magnitude - 1) * rate == -((magnitude + 1) * rate)) by (nonlinear_arith);
    }
}

// ---- the first anchor ------------------------------------------------------

/// The first anchor starts the clock: its time is the clock's at its instant,
/// and its uncertainty is the clock's.
pub proof fn law_first_anchor_sets_the_clock(m: EstimatorModel, anchor: Anchor)
    requires
        m.state.accepted_anchors == 0,
    ensures
        ({
            let (after, accepted) = model::ingested(m, anchor);
            &&& accepted
            &&& after.state.accepted_anchors == 1
            &&& after.state.reference_system_time == anchor.system_time
            &&& after.state.reference_utc == anchor.utc
            &&& after.state.estimated_frequency_error_ppb == 0
            &&& after.state.phase_slew_ppb == 0
            &&& after.state.mapped_micros(anchor.system_time) == anchor.utc.micros()
            &&& after.state.uncertainty_us == anchor.quality.uncertainty_us
            &&& after.state.last_anchor_system_time == Some(anchor.system_time)
            &&& after.state.last_anchor_utc == Some(anchor.utc)
            &&& after.state.last_anchor_residual_us is None
            &&& after.state.active_time_source == anchor.source
            &&& after.state.first_anchor_source == anchor.source
            &&& after.state.holdover_duration.ticks == 0
            &&& !after.state.holdover_warning
            &&& after.state.utc_status != UtcStatus::Invalid
            &&& anchor.source == TimeSource::GpsPps ==> after.last_pps_time == Some(
                anchor.system_time,
            ) && after.last_pps_sequence == anchor.pps_sequence
        }),
{
    let after = model::ingested(m, anchor).0;
    law_mapping_runs_at_its_rate(after.state, anchor.system_time);
}

// ---- phase slew ------------------------------------------------------------

/// Slewing takes a residual away: the correction has the residual's sign, stays
/// within its limit, and over the slew duration it removes no more than the
/// residual. Within the limit it removes all of it but for the rounding of the
/// rate, which is below a microsecond over a thousand seconds.
pub proof fn law_slew_removes_the_residual(residual_us: int, config: TimeConfig)
    requires
        config.phase_slew_duration.ticks > 0,
    ensures
        ({
            let slew = model::phase_slew(residual_us, config);
            let limit = config.max_phase_slew_ppb as int;
            let owed = residual_us * 1_000_000_000;
            let removed = slew * config.phase_slew_duration.ticks;
            &&& -limit <= slew <= limit
            &&& residual_us >= 0 ==> slew >= 0 && 0 <= removed <= owed
            &&& residual_us <= 0 ==> slew <= 0 && owed <= removed <= 0
            &&& -limit < slew < limit ==> {
                &&& -config.phase_slew_duration.ticks < owed - removed
                &&& owed - removed < config.phase_slew_duration.ticks
            }
            &&& -limit < slew < limit && config.phase_slew_duration.ticks <= 1_000_000_000 ==> {
                -1_000_000_000 < owed - removed < 1_000_000_000
            }
        }),
{
    let ticks = config.phase_slew_duration.ticks as int;
    let owed = residual_us * 1_000_000_000;
    let limit = config.max_phase_slew_ppb as int;
    let wanted = arith::trunc_div(owed, ticks);
    let slew = model::phase_slew(residual_us, config);
    assert(model::micros_of(config.phase_slew_duration) == ticks);
    arith::lemma_trunc_div_bounded(owed, ticks);
    assert(residual_us >= 0 ==> 0 <= wanted * ticks <= owed < (wanted + 1) * ticks);
    assert(residual_us <= 0 ==> owed <= wanted * ticks <= 0 && (wanted - 1) * ticks < owed)
        by (nonlinear_arith)
        requires
            owed == residual_us * 1_000_000_000,
            wanted == arith::trunc_div(owed, ticks),
            arith::abs(wanted) * ticks <= arith::abs(owed),
            arith::abs(owed) < (arith::abs(wanted) + 1) * ticks,
            owed <= 0 ==> wanted <= 0,
            ticks > 0,
    ;
    assert(residual_us >= 0 ==> 0 <= slew <= wanted);
    assert(residual_us <= 0 ==> wanted <= slew <= 0);
    assert(residual_us >= 0 ==> 0 <= slew * ticks <= wanted * ticks) by (nonlinear_arith)
        requires
            residual_us >= 0 ==> 0 <= slew <= wanted,
            ticks > 0,
    ;
    assert(residual_us <= 0 ==> wanted * ticks <= slew * ticks <= 0) by (nonlinear_arith)
        requires
            residual_us <= 0 ==> wanted <= slew <= 0,
            ticks > 0,
    ;
    assert((wanted + 1) * ticks == wanted * ticks + ticks) by (nonlinear_arith);
    assert((wanted - 1) * ticks == wanted * ticks - ticks) by (nonlinear_arith);
}

/// Without a slew duration nothing is slewed.
pub proof fn law_no_slew_without_a_duration(residual_us: int, config: TimeConfig)
    requires
        config.phase_slew_duration.ticks == 0,
    ensures
        model::phase_slew(residual_us, config) == 0,
{
}

// ---- judging anchors -------------------------------------------------------

/// Whether the times of an anchor and of the clock at its instant are far from
/// the ends of their range, about a hundred thousand years.
pub open spec fn in_reach(m: EstimatorModel, anchor: Anchor) -> bool {
    &&& m.state.can_map(anchor.system_time)
    &&& -4_000_000_000_000_000_000 <= m.state.mapped_micros(anchor.system_time)
        <= 4_000_000_000_000_000_000
    &&& -4_000_000_000_000_000_000 <= anchor.utc.micros() <= 4_000_000_000_000_000_000
    &&& m.config.max_anchor_residual_us + anchor.quality.uncertainty_us <= u64::MAX
}

/// How far an anchor's time lies ahead of the clock's at its instant.
pub open spec fn ahead(m: EstimatorModel, anchor: Anchor) -> int {
    anchor.utc.micros() - m.state.mapped_micros(anchor.system_time)
}

/// Whether a pulse anchor follows the pulse before it without a sign of a loss,
/// and no loss is being recovered from.
pub open spec fn plain_pulse(m: EstimatorModel, anchor: Anchor) -> bool {
    &&& anchor.source == TimeSource::GpsPps
    &&& !m.state.pps_reacquisition_active
    &&& m.last_pps_time is Some ==> anchor.pps_sequence is None && spacing(m, anchor)
        < m.config.pps_loss_timeout.ticks
}

/// Ticks between a pulse and the one before it: as the driver measured them, or
/// between the instants of their anchors.
pub open spec fn spacing(m: EstimatorModel, anchor: Anchor) -> int {
    match anchor.pps_interval {
        Some(interval) => interval.ticks as int,
        None => if anchor.system_time.ticks >= m.last_pps_time->0.ticks {
            anchor.system_time.ticks - m.last_pps_time->0.ticks
        } else {
            0
        },
    }
}

/// Whether an accepted anchor that lies some microseconds ahead of the clock is
/// on record, with the clock running on from its own time there and turning
/// toward the anchor.
pub open spec fn taken_up(
    m: EstimatorModel,
    after: EstimatorModel,
    anchor: Anchor,
    utc: UtcTimestamp,
    ahead_us: int,
) -> bool {
    let distance = if ahead_us >= 0 {
        ahead_us
    } else {
        -ahead_us
    };
    &&& after.state.last_anchor_system_time == Some(anchor.system_time)
    &&& after.state.last_anchor_utc == Some(utc)
    &&& after.state.last_anchor_residual_us == Some(ahead_us as i64)
    &&& after.state.active_time_source == anchor.source
    &&& after.state.first_anchor_source == m.state.first_anchor_source
    &&& after.state.holdover_duration.ticks == 0
    &&& !after.state.holdover_warning
    &&& anchor.quality.uncertainty_us + distance <= u64::MAX ==> after.state.uncertainty_us
        == anchor.quality.uncertainty_us + distance
    &&& after.state.reference_system_time == anchor.system_time
    &&& after.state.mapped_micros(anchor.system_time) == m.state.mapped_micros(
        anchor.system_time,
    )
    &&& after.state.phase_slew_ppb == model::phase_slew(ahead_us, m.config)
    &&& i64::MIN <= after.state.calibrated_frequency_error_ppb + after.state.phase_slew_ppb
        <= i64::MAX ==> after.state.estimated_frequency_error_ppb
        == after.state.calibrated_frequency_error_ppb + after.state.phase_slew_ppb
    &&& m.state.accepted_anchors < u32::MAX ==> after.state.accepted_anchors
        == m.state.accepted_anchors + 1
    &&& after.state.rejected_anchors == m.state.rejected_anchors
    &&& after.state.utc_status == (if after.state.uncertainty_us
        > m.config.degraded_uncertainty_us {
        UtcStatus::Degraded
    } else {
        UtcStatus::Synchronized
    })
    &&& after.config == m.config
    &&& calibrated_with(m, after, Anchor { utc, ..anchor })
}

/// Whether an anchor was offered to the window of samples, and the calibration
/// follows the window.
pub open spec fn calibrated_with(
    m: EstimatorModel,
    after: EstimatorModel,
    anchor: Anchor,
) -> bool {
    let sampled = model::with_sample(m, anchor);
    let tuned = model::calibrated(sampled);
    &&& after.samples == sampled.samples
    &&& after.state.frequency_calibration_samples == sampled.state.frequency_calibration_samples
    &&& after.state.calibrated_frequency_error_ppb == tuned.state.calibrated_frequency_error_ppb
    &&& after.state.frequency_calibration_locked == tuned.state.frequency_calibration_locked
}

/// Whether a refused anchor left the clock alone: it is counted, and how far it lay
/// from the clock is on record.
pub open spec fn turned_down(m: EstimatorModel, after: EstimatorModel, ahead_us: int) -> bool {
    &&& after.state == (TimeState {
        rejected_anchors: after.state.rejected_anchors,
        last_anchor_residual_us: Some(ahead_us as i64),
        utc_second_corrections: after.state.utc_second_corrections,
        ..m.state
    })
    &&& m.state.rejected_anchors < u32::MAX ==> after.state.rejected_anchors
        == m.state.rejected_anchors + 1
    &&& after.samples == m.samples
    &&& after.config == m.config
}

/// An anchor close enough to the clock is adopted as it stands.
proof fn lemma_adopted(m: EstimatorModel, anchor: Anchor, predicted_us: int, residual_us: int)
    requires
        m.state.can_map(anchor.system_time),
        predicted_us == m.state.mapped_micros(anchor.system_time),
        -4_000_000_000_000_000_000 <= predicted_us <= 4_000_000_000_000_000_000,
        m.state.last_anchor_residual_us == Some(residual_us as i64),
    ensures
        model::adopted(m, anchor, predicted_us, residual_us).1,
        taken_up(
            m,
            model::adopted(m, anchor, predicted_us, residual_us).0,
            anchor,
            anchor.utc,
            residual_us,
        ),
{
    let after = model::adopted(m, anchor, predicted_us, residual_us).0;
    types::law_micros_round_trip(predicted_us as i64);
    law_mapping_runs_at_its_rate(after.state, anchor.system_time);
    let limit = m.config.max_phase_slew_ppb as int;
    assert(-limit <= model::phase_slew(residual_us, m.config) <= limit);
    let sampled = model::with_sample(m, anchor);
    assert(sampled.config == m.config);
    assert(sampled.state.last_anchor_residual_us == m.state.last_anchor_residual_us);
    assert(sampled.state.first_anchor_source == m.state.first_anchor_source);
    let tuned = model::slewing(model::calibrated(sampled), residual_us);
    assert(tuned.config == m.config);
    assert(after == model::rebased(tuned, anchor, predicted_us, residual_us));
    assert(after.state.phase_slew_ppb == tuned.state.phase_slew_ppb);
}

/// An anchor that is no pulse is accepted exactly where it lies no further from
/// the clock than the allowed residual, its own uncertainty and the clock's
/// together.
pub proof fn law_label_is_judged_by_its_distance(m: EstimatorModel, anchor: Anchor)
    requires
        m.state.accepted_anchors > 0,
        anchor.source != TimeSource::GpsPps,
        in_reach(m, anchor),
    ensures
        ({
            let (after, accepted) = model::ingested(m, anchor);
            let bound = m.config.max_anchor_residual_us + anchor.quality.uncertainty_us
                + m.state.uncertainty_us;
            &&& accepted <==> -bound <= ahead(m, anchor) <= bound
            &&& accepted ==> taken_up(m, after, anchor, anchor.utc, ahead(m, anchor))
            &&& !accepted ==> turned_down(m, after, ahead(m, anchor))
            &&& after.state.utc_second_corrections == m.state.utc_second_corrections
        }),
{
    let residual = ahead(m, anchor);
    lemma_adopted(
        model::measured(m, 0, residual),
        anchor,
        m.state.mapped_micros(anchor.system_time),
        residual,
    );
}

/// A pulse passes the barrier unchanged while none is lost.
proof fn lemma_plain_pulse_passes(m: EstimatorModel, anchor: Anchor)
    requires
        plain_pulse(m, anchor),
    ensures
        model::gated(m, anchor) == (model::pulse_noted(m, anchor), true),
{
}

/// A pulse whose label is not off by a second is accepted exactly where it lies
/// no further from the clock than the allowed residual and its own uncertainty.
pub proof fn law_pulse_is_judged_by_its_distance(m: EstimatorModel, anchor: Anchor)
    requires
        m.state.accepted_anchors > 0,
        plain_pulse(m, anchor),
        in_reach(m, anchor),
        ({
            let tolerance = m.config.utc_second_correction_tolerance_us as int;
            let residual = ahead(m, anchor);
            &&& !(-tolerance <= residual - 1_000_000 <= tolerance)
            &&& !(-tolerance <= residual + 1_000_000 <= tolerance)
        }),
    ensures
        ({
            let (after, accepted) = model::ingested(m, anchor);
            let bound = m.config.max_anchor_residual_us + anchor.quality.uncertainty_us;
            &&& accepted <==> -bound <= ahead(m, anchor) <= bound
            &&& after.state.utc_second_corrections == m.state.utc_second_corrections
            &&& accepted ==> taken_up(m, after, anchor, anchor.utc, ahead(m, anchor))
            &&& !accepted ==> turned_down(m, after, ahead(m, anchor))
            &&& after.last_pps_time == Some(anchor.system_time)
            &&& after.last_pps_sequence == anchor.pps_sequence
        }),
{
    let residual = ahead(m, anchor);
    let noted = model::pulse_noted(m, anchor);
    lemma_plain_pulse_passes(m, anchor);
    assert(model::second_correction(noted, anchor, residual) == 0);
    lemma_adopted(
        model::measured(noted, 0, residual),
        anchor,
        m.state.mapped_micros(anchor.system_time),
        residual,
    );
}

/// A pulse whose label is off by one second, within the tolerance, is taken for
/// the second that the clock tells: its label is put on record a second earlier
/// or later, the correction is counted, and what is left decides.
pub proof fn law_label_off_by_a_second_is_corrected(
    m: EstimatorModel,
    anchor: Anchor,
    late: bool,
)
    requires
        m.state.accepted_anchors > 0,
        plain_pulse(m, anchor),
        in_reach(m, anchor),
        m.config.utc_second_correction_tolerance_us < 1_000_000,
        ({
            let tolerance = m.config.utc_second_correction_tolerance_us as int;
            let shift: int = if late {
                1_000_000
            } else {
                -1_000_000
            };
            -tolerance <= ahead(m, anchor) - shift <= tolerance
        }),
    ensures
        ({
            let (after, accepted) = model::ingested(m, anchor);
            let shift: int = if late {
                1_000_000
            } else {
                -1_000_000
            };
            let left = ahead(m, anchor) - shift;
            let bound = m.config.max_anchor_residual_us + anchor.quality.uncertainty_us;
            &&& accepted <==> -bound <= left <= bound
            &&& m.state.utc_second_corrections < u32::MAX ==> after.state.utc_second_corrections
                == m.state.utc_second_corrections + 1
            &&& accepted ==> {
                let utc = after.state.last_anchor_utc->0;
                &&& utc.micros() == anchor.utc.micros() - shift
                &&& taken_up(m, after, anchor, utc, left)
            }
            &&& !accepted ==> turned_down(m, after, left)
        }),
{
    let residual = ahead(m, anchor);
    let shift: int = if late {
        1_000_000
    } else {
        -1_000_000
    };
    let left = residual - shift;
    let noted = model::pulse_noted(m, anchor);
    lemma_plain_pulse_passes(m, anchor);
    assert(model::second_correction(noted, anchor, residual) == shift);
    let label = model::corrected_anchor(anchor, shift);
    types::law_micros_round_trip((anchor.utc.micros() - shift) as i64);
    assert(label.utc.micros() == anchor.utc.micros() - shift);
    let measured = model::measured(noted, shift, left);
    lemma_adopted(measured, label, m.state.mapped_micros(anchor.system_time), left);
    let predicted = m.state.mapped_micros(anchor.system_time);
    let (after, accepted) = model::ingested(m, anchor);
    assert((after, accepted) == model::compared(noted, anchor));
    assert(noted.state.mapped_micros(anchor.system_time) == predicted);
    let bound = m.config.max_anchor_residual_us + anchor.quality.uncertainty_us;
    assert(model::allowed_residual(noted, anchor) == bound);
    if -bound <= left <= bound {
        assert((after, accepted) == model::adopted(measured, label, predicted, left));
        lemma_adopting_keeps_corrections(measured, label, predicted, left);
        assert(taken_up(m, after, anchor, label.utc, left));
    } else {
        assert((after, accepted) == (model::rejected(measured), false));
    }
    assert(measured.state.utc_second_corrections == arith::next_count(
        m.state.utc_second_corrections,
    ));
}

/// Adopting an anchor corrects no label.
proof fn lemma_adopting_keeps_corrections(
    m: EstimatorModel,
    anchor: Anchor,
    predicted_us: int,
    residual_us: int,
)
    ensures
        model::adopted(m, anchor, predicted_us, residual_us).0.state.utc_second_corrections
            == m.state.utc_second_corrections,
{
}

/// How far the anchor's time, carried on at the calibrated rate, lies ahead of the
/// clock some ticks after the anchor, in billionths of a microsecond.
pub open spec fn ahead_later(
    after: EstimatorModel,
    anchor: Anchor,
    utc: UtcTimestamp,
    later: Instant,
) -> int {
    let ticks = later.ticks - anchor.system_time.ticks;
    1_000_000_000 * (utc.micros() + ticks - after.state.mapped_micros(later))
        + after.state.calibrated_frequency_error_ppb * ticks
}

/// A clock that took up an anchor comes closer to it: after the slew duration the
/// anchor's time lies on the same side of the clock as before, and no further, but
/// for the microsecond to which the clock is told. Where the slew is within its
/// limit the two agree, to the rounding of the rate and that microsecond. Without
/// drift the clock is never further away than before.
pub proof fn law_slewed_clock_comes_closer(
    m: EstimatorModel,
    after: EstimatorModel,
    anchor: Anchor,
    utc: UtcTimestamp,
    ahead_us: int,
    later: Instant,
)
    requires
        taken_up(m, after, anchor, utc, ahead_us),
        ahead_us == utc.micros() - m.state.mapped_micros(anchor.system_time),
        m.config.phase_slew_duration.ticks > 0,
        later.ticks == anchor.system_time.ticks + m.config.phase_slew_duration.ticks,
        i64::MIN <= after.state.calibrated_frequency_error_ppb + after.state.phase_slew_ppb
            <= i64::MAX,
        after.state.estimated_frequency_error_ppb >= -1_000_000_000,
    ensures
        ({
            let left = ahead_later(after, anchor, utc, later);
            let ticks = m.config.phase_slew_duration.ticks as int;
            let limit = m.config.max_phase_slew_ppb as int;
            &&& ahead_us >= 0 ==> 0 <= left < 1_000_000_000 * (ahead_us + 1)
            &&& ahead_us <= 0 ==> 1_000_000_000 * ahead_us <= left < 1_000_000_000
            &&& -limit < after.state.phase_slew_ppb < limit ==> -ticks < left < ticks
                + 1_000_000_000
            &&& after.state.calibrated_frequency_error_ppb == 0 && ahead_us >= 0 ==> 0
                <= utc.micros() + ticks - after.state.mapped_micros(later) <= ahead_us
            &&& after.state.calibrated_frequency_error_ppb == 0 && ahead_us <= 0 ==> ahead_us
                <= utc.micros() + ticks - after.state.mapped_micros(later) <= 0
        }),
{
    let ticks = m.config.phase_slew_duration.ticks as int;
    let slew = after.state.phase_slew_ppb as int;
    let drift = after.state.calibrated_frequency_error_ppb as int;
    law_slew_removes_the_residual(ahead_us, m.config);
    law_mapping_runs_at_its_rate(after.state, anchor.system_time);
    law_mapping_runs_at_its_rate(after.state, later);
    let base = after.state.reference_utc.micros();
    let none = after.state.mapped_micros(anchor.system_time) - base;
    assert(0 * (1_000_000_000 + after.state.estimated_frequency_error_ppb) == 0)
        by (nonlinear_arith);
    assert(none == 0);
    let run = ticks * (1_000_000_000 + after.state.estimated_frequency_error_ppb);
    assert(run >= 0) by (nonlinear_arith)
        requires
            run == ticks * (1_000_000_000 + after.state.estimated_frequency_error_ppb),
            ticks > 0,
            after.state.estimated_frequency_error_ppb >= -1_000_000_000,
    ;
    assert(run == 1_000_000_000 * ticks + drift * ticks + slew * ticks) by (nonlinear_arith)
        requires
            run == ticks * (1_000_000_000 + after.state.estimated_frequency_error_ppb),
            after.state.estimated_frequency_error_ppb == drift + slew,
    ;
    assert(drift == 0 ==> drift * ticks == 0) by (nonlinear_arith);
}

// ---- lost pulses -----------------------------------------------------------

/// A pulse after a gap is refused, and the barrier closes: the gap shows in the
/// spacing of the pulses, or in more time between two of them than their numbers
/// explain.
pub proof fn law_pulse_after_a_gap_is_refused(m: EstimatorModel, anchor: Anchor)
    requires
        m.state.accepted_anchors > 0,
        m.last_pps_time is Some,
        m.config.pps_reacquisition_intervals > 0,
        anchor.source == TimeSource::GpsPps,
        ({
            ||| spacing(m, anchor) >= m.config.pps_loss_timeout.ticks
            ||| (m.last_pps_sequence is Some && anchor.pps_sequence is Some
                && anchor.pps_sequence->0 >= m.last_pps_sequence->0 && anchor.system_time.ticks
                - m.last_pps_time->0.ticks > (anchor.pps_sequence->0 - m.last_pps_sequence->0)
                * 1_000_000 + m.config.pps_interval_tolerance.ticks)
        }),
    ensures
        ({
            let (after, accepted) = model::ingested(m, anchor);
            &&& !accepted
            &&& after.state.pps_reacquisition_active
            &&& after.state.pps_reacquisition_clean_intervals == 0
            &&& after.last_pps_time == Some(anchor.system_time)
            &&& after.last_pps_sequence == anchor.pps_sequence
            &&& m.state.pps_reacquisition_rejections < u32::MAX
                ==> after.state.pps_reacquisition_rejections
                == m.state.pps_reacquisition_rejections + 1
        }),
{
}

/// Numbers that explain the time between two pulses are no sign of a gap.
pub proof fn law_counted_pulses_are_no_gap(m: EstimatorModel, anchor: Anchor)
    requires
        m.last_pps_time is Some,
        !m.state.pps_reacquisition_active,
        anchor.source == TimeSource::GpsPps,
        spacing(m, anchor) < m.config.pps_loss_timeout.ticks,
        m.last_pps_sequence is Some,
        anchor.pps_sequence is Some,
        anchor.pps_sequence->0 >= m.last_pps_sequence->0,
        anchor.system_time.ticks - m.last_pps_time->0.ticks <= (anchor.pps_sequence->0
            - m.last_pps_sequence->0) * 1_000_000 + m.config.pps_interval_tolerance.ticks,
    ensures
        model::gated(m, anchor).1,
        model::gated(m, anchor).0.state == m.state,
{
}

/// Behind a closed barrier a pulse counts as clean exactly where its spacing is
/// one second within the tolerance; any other one starts the count over.
pub proof fn law_clean_pulses_are_counted(m: EstimatorModel, anchor: Anchor)
    requires
        m.state.accepted_anchors > 0,
        m.last_pps_time is Some,
        m.state.pps_reacquisition_active,
        anchor.source == TimeSource::GpsPps,
        anchor.pps_sequence is None,
        spacing(m, anchor) < m.config.pps_loss_timeout.ticks,
        m.state.pps_reacquisition_clean_intervals + 1 < m.config.pps_reacquisition_intervals,
    ensures
        ({
            let (after, accepted) = model::ingested(m, anchor);
            let tolerance = m.config.pps_interval_tolerance.ticks as int;
            &&& !accepted
            &&& after.state.pps_reacquisition_active
            &&& after.state.pps_reacquisition_clean_intervals == (if -tolerance <= spacing(
                m,
                anchor,
            ) - 1_000_000 <= tolerance {
                m.state.pps_reacquisition_clean_intervals + 1
            } else {
                0
            })
        }),
{
}

/// The clean pulse that completes the number asked for opens the barrier, and is
/// then judged like any other: the clock's time at its instant is what it was.
pub proof fn law_barrier_opens_after_enough_clean_pulses(m: EstimatorModel, anchor: Anchor)
    requires
        m.last_pps_time is Some,
        m.state.pps_reacquisition_active,
        anchor.source == TimeSource::GpsPps,
        anchor.pps_sequence is None,
        spacing(m, anchor) < m.config.pps_loss_timeout.ticks,
        -m.config.pps_interval_tolerance.ticks <= spacing(m, anchor) - 1_000_000,
        spacing(m, anchor) - 1_000_000 <= m.config.pps_interval_tolerance.ticks,
        m.state.pps_reacquisition_clean_intervals + 1 == m.config.pps_reacquisition_intervals,
    ensures
        ({
            let (after, passes) = model::gated(m, anchor);
            &&& passes
            &&& !after.state.pps_reacquisition_active
            &&& after.state.reference_system_time == m.state.reference_system_time
            &&& after.state.reference_utc == m.state.reference_utc
            &&& after.state.estimated_frequency_error_ppb
                == m.state.estimated_frequency_error_ppb
            &&& after.state.rejected_anchors == m.state.rejected_anchors
        }),
{
}

/// A lost pulse ends the slewing at once: from then on only the calibrated rate
/// runs, and the clock's time at that instant is what it was.
pub proof fn law_lost_pulse_ends_the_slewing(m: EstimatorModel, anchor: Anchor)
    requires
        m.state.accepted_anchors > 0,
        m.last_pps_time is Some,
        m.config.pps_reacquisition_intervals > 0,
        anchor.source == TimeSource::GpsPps,
        spacing(m, anchor) >= m.config.pps_loss_timeout.ticks,
        m.state.phase_slew_ppb != 0,
        in_reach(m, anchor),
    ensures
        ({
            let after = model::ingested(m, anchor).0;
            &&& after.state.phase_slew_ppb == 0
            &&& after.state.estimated_frequency_error_ppb
                == m.state.calibrated_frequency_error_ppb
            &&& after.state.mapped_micros(anchor.system_time) == m.state.mapped_micros(
                anchor.system_time,
            )
        }),
{
    laws::law_anchors_are_continuous(m, anchor);
}

// ---- calibration -----------------------------------------------------------

/// Two samples show how much faster UTC ran than the oscillator counted, in parts
/// per billion rounded toward zero: more than nothing where UTC gained on it.
/// They show nothing where a clock did not move forward, and nothing beyond the
/// limit.
pub proof fn law_slope_measures_the_drift(
    first: FrequencySample,
    second: FrequencySample,
    limit: int,
)
    requires
        0 <= limit <= i64::MAX,
    ensures
        ({
            let counted = second.system_ticks - first.system_ticks;
            let elapsed = second.utc_us - first.utc_us;
            let gained = (elapsed - counted) * 1_000_000_000;
            match model::pair_slope(first, second, limit) {
                Some(ppb) => {
                    &&& counted > 0 && elapsed > 0
                    &&& -limit <= ppb <= limit
                    &&& elapsed >= counted ==> 0 <= ppb && ppb * counted <= gained && gained < (ppb
                        + 1) * counted
                    &&& elapsed <= counted ==> ppb <= 0 && gained <= ppb * counted && (ppb - 1)
                        * counted < gained
                },
                None => counted <= 0 || elapsed <= 0 || gained >= (limit + 1) * counted || gained
                    <= -(limit + 1) * counted,
            }
        }),
{
    let counted = second.system_ticks - first.system_ticks;
    let elapsed = second.utc_us - first.utc_us;
    let gained = (elapsed - counted) * 1_000_000_000;
    if counted > 0 && elapsed > 0 {
        assert(counted * 1_000_000 / 1_000_000 == counted);
        let ppb = arith::trunc_div(gained, counted);
        arith::lemma_trunc_div_bounded(gained, counted);
        let magnitude = arith::abs(ppb);
        assert(-magnitude * counted == -(magnitude * counted)) by (nonlinear_arith);
        assert((magnitude + 1) * counted == magnitude * counted + counted) by (nonlinear_arith);
        assert((-magnitude - 1) * counted == -(magnitude * counted) - counted)
            by (nonlinear_arith);
        assert(-(limit + 1) * counted == -((limit + 1) * counted)) by (nonlinear_arith);
        if magnitude > limit {
            assert((limit + 1) * counted <= magnitude * counted) by (nonlinear_arith)
                requires
                    magnitude >= limit + 1,
                    counted > 0,
            ;
        }
    }
}

/// Every pair of samples has its say in the calibration, and nothing else does.
pub proof fn law_every_pair_is_heard(m: EstimatorModel)
    ensures
        ({
            let limit = m.config.max_frequency_error_ppb as int;
            let all = model::all_slopes(m);
            &&& forall|i: int, j: int|
                0 <= i < j < m.samples.len() ==> ((#[trigger] model::pair_slope(
                    m.samples[i],
                    m.samples[j],
                    limit,
                )) matches Some(ppb) ==> all.contains(ppb))
            &&& forall|ppb: i64| #[trigger]
                all.contains(ppb) ==> exists|i: int, j: int|
                    0 <= i < j < m.samples.len() && #[trigger] model::pair_slope(
                        m.samples[i],
                        m.samples[j],
                        limit,
                    ) == Some(ppb)
        }),
{
    lemma_pairs_heard(m, m.samples.len() as int);
    let limit = m.config.max_frequency_error_ppb as int;
    let all = model::all_slopes(m);
    assert forall|ppb: i64| #[trigger] all.contains(ppb) implies exists|i: int, j: int|
        0 <= i < j < m.samples.len() && #[trigger] model::pair_slope(
            m.samples[i],
            m.samples[j],
            limit,
        ) == Some(ppb) by {
        let k = choose|k: int| 0 <= k < all.len() && all[k] == ppb;
        assert(all[k] == ppb);
    }
}

/// The pairs whose earlier sample is among the first have their say.
proof fn lemma_pairs_heard(m: EstimatorModel, firsts: int)
    requires
        0 <= firsts <= m.samples.len(),
    ensures
        ({
            let limit = m.config.max_frequency_error_ppb as int;
            let all = model::slopes(m.samples, limit, firsts);
            &&& forall|i: int, j: int|
                0 <= i < firsts && i < j < m.samples.len() ==> ((#[trigger] model::pair_slope(
                    m.samples[i],
                    m.samples[j],
                    limit,
                )) matches Some(ppb) ==> all.contains(ppb))
            &&& forall|k: int|
                0 <= k < all.len() ==> exists|i: int, j: int|
                    0 <= i < j < m.samples.len() && #[trigger] model::pair_slope(
                        m.samples[i],
                        m.samples[j],
                        limit,
                    ) == Some(#[trigger] all[k])
        }),
    decreases firsts,
{
    if firsts > 0 {
        lemma_pairs_heard(m, firsts - 1);
        let limit = m.config.max_frequency_error_ppb as int;
        let before = model::slopes(m.samples, limit, firsts - 1);
        let own = model::slopes_from(m.samples, limit, firsts - 1, m.samples.len() as int);
        let all = model::slopes(m.samples, limit, firsts);
        lemma_later_samples_heard(m, firsts - 1, m.samples.len() as int);
        assert forall|i: int, j: int| 0 <= i < firsts && i < j < m.samples.len() implies ((
        #[trigger] model::pair_slope(m.samples[i], m.samples[j], limit)) matches Some(ppb)
            ==> all.contains(ppb)) by {
            if let Some(ppb) = model::pair_slope(m.samples[i], m.samples[j], limit) {
                if i < firsts - 1 {
                    assert(before.contains(ppb));
                    let k = choose|k: int| 0 <= k < before.len() && before[k] == ppb;
                    assert(all[k] == ppb);
                } else {
                    assert(own.contains(ppb));
                    let k = choose|k: int| 0 <= k < own.len() && own[k] == ppb;
                    assert(all[before.len() + k] == ppb);
                }
            }
        }
        assert forall|k: int| 0 <= k < all.len() implies exists|i: int, j: int|
            0 <= i < j < m.samples.len() && #[trigger] model::pair_slope(
                m.samples[i],
                m.samples[j],
                limit,
            ) == Some(#[trigger] all[k]) by {
            if k < before.len() {
                assert(all[k] == before[k]);
            } else {
                assert(all[k] == own[k - before.len()]);
            }
        }
    }
}

/// The pairs of one sample with later ones have their say.
proof fn lemma_later_samples_heard(m: EstimatorModel, first: int, end: int)
    requires
        0 <= first < end <= m.samples.len(),
    ensures
        ({
            let limit = m.config.max_frequency_error_ppb as int;
            let own = model::slopes_from(m.samples, limit, first, end);
            &&& forall|j: int|
                first < j < end ==> ((#[trigger] model::pair_slope(
                    m.samples[first],
                    m.samples[j],
                    limit,
                )) matches Some(ppb) ==> own.contains(ppb))
            &&& forall|k: int|
                0 <= k < own.len() ==> exists|j: int|
                    first < j < end && #[trigger] model::pair_slope(
                        m.samples[first],
                        m.samples[j],
                        limit,
                    ) == Some(#[trigger] own[k])
        }),
    decreases end - first,
{
    if end > first + 1 {
        lemma_later_samples_heard(m, first, end - 1);
        let limit = m.config.max_frequency_error_ppb as int;
        let before = model::slopes_from(m.samples, limit, first, end - 1);
        let own = model::slopes_from(m.samples, limit, first, end);
        assert forall|j: int| first < j < end implies ((#[trigger] model::pair_slope(
            m.samples[first],
            m.samples[j],
            limit,
        )) matches Some(ppb) ==> own.contains(ppb)) by {
            if let Some(ppb) = model::pair_slope(m.samples[first], m.samples[j], limit) {
                if j < end - 1 {
                    assert(before.contains(ppb));
                    let k = choose|k: int| 0 <= k < before.len() && before[k] == ppb;
                    assert(own[k] == ppb);
                } else {
                    assert(own[own.len() - 1] == ppb);
                }
            }
        }
        assert forall|k: int| 0 <= k < own.len() implies exists|j: int|
            first < j < end && #[trigger] model::pair_slope(
                m.samples[first],
                m.samples[j],
                limit,
            ) == Some(#[trigger] own[k]) by {
            if k < before.len() {
                assert(own[k] == before[k]);
            }
        }
    }
}

/// The calibration is a middle of the slopes: no more than half of them lie
/// beyond it on either side, and between two middle ones it is their mean,
/// rounded toward zero. Eleven samples lock it.
pub proof fn law_calibration_is_the_middle_slope(m: EstimatorModel, low: int, high: int)
    requires
        model::all_slopes(m).len() > 0,
    ensures
        ({
            let after = model::calibrated(m);
            let slopes = model::all_slopes(m);
            let ordered = crate::order::sorted(slopes);
            let count = slopes.len() as int;
            let ppb = after.state.calibrated_frequency_error_ppb as int;
            &&& after.samples == m.samples
            &&& after.config == m.config
            &&& m.samples.len() == 11 ==> after.state.frequency_calibration_locked
            &&& m.samples.len() < 11 ==> after.state.frequency_calibration_locked
                == m.state.frequency_calibration_locked
            &&& 2 * crate::order::count_between(slopes, low, high) > count ==> low <= ppb <= high
            &&& count % 2 == 1 ==> ppb == ordered[count / 2]
            &&& count % 2 == 0 ==> -1 <= 2 * ppb - (ordered[count / 2 - 1] + ordered[count / 2])
                <= 1
        }),
{
    let slopes = model::all_slopes(m);
    if 2 * crate::order::count_between(slopes, low, high) > slopes.len() {
        laws::law_calibration_follows_the_majority(m, low, high);
    }
}

/// A sample joins the window at its end, with its instant and its time. It
/// pushes out the oldest of eleven, starts the window over where it comes from
/// another source, and is passed over where it follows the last one too closely.
pub proof fn law_window_takes_the_latest_samples(m: EstimatorModel, anchor: Anchor)
    requires
        !m.state.frequency_calibration_locked,
        m.samples.len() <= 11,
    ensures
        ({
            let after = model::with_sample(m, anchor);
            let added = FrequencySample {
                system_ticks: anchor.system_time.ticks,
                utc_us: anchor.utc.micros() as i64,
                source: anchor.source,
            };
            let other = m.samples.len() > 0 && m.samples.last().source != anchor.source;
            let close = m.samples.len() > 0 && !other && (if anchor.system_time.ticks
                >= m.samples.last().system_ticks {
                anchor.system_time.ticks - m.samples.last().system_ticks
            } else {
                0
            }) < m.config.minimum_frequency_baseline.ticks;
            &&& close ==> after == m
            &&& !close ==> after.samples.len() > 0 && after.samples.last() == added
            &&& !close ==> after.state.frequency_calibration_samples == after.samples.len()
            &&& other || m.samples.len() == 0 ==> after.samples.len() == 1
            &&& !close && !other && 0 < m.samples.len() < 11 ==> after.samples.drop_last()
                == m.samples
            &&& !close && !other && m.samples.len() == 11 ==> after.samples.drop_last()
                == m.samples.skip(1)
        }),
{
    let after = model::with_sample(m, anchor);
    if m.samples.len() > 0 && m.samples.last().source == anchor.source {
        if m.samples.len() < 11 {
            assert(m.samples.push(after.samples.last()).drop_last() =~= m.samples);
        } else {
            assert(m.samples.drop_first() =~= m.samples.skip(1));
            assert(m.samples.drop_first().push(after.samples.last()).drop_last()
                =~= m.samples.skip(1));
        }
    }
}

/// A locked calibration takes no more samples.
pub proof fn law_locked_window_takes_no_samples(m: EstimatorModel, anchor: Anchor)
    requires
        m.state.frequency_calibration_locked,
    ensures
        model::with_sample(m, anchor) == m,
{
}

/// The first anchor is the first sample.
pub proof fn law_first_anchor_is_the_first_sample(m: EstimatorModel, anchor: Anchor)
    requires
        m.state.accepted_anchors == 0,
        m.samples.len() == 0,
        !m.state.frequency_calibration_locked,
    ensures
        model::ingested(m, anchor).0.samples == seq![
            FrequencySample {
                system_ticks: anchor.system_time.ticks,
                utc_us: anchor.utc.micros() as i64,
                source: anchor.source,
            },
        ],
        model::ingested(m, anchor).0.state.frequency_calibration_samples == 1,
{
    assert(model::ingested(m, anchor).0.samples =~= seq![
        FrequencySample {
            system_ticks: anchor.system_time.ticks,
            utc_us: anchor.utc.micros() as i64,
            source: anchor.source,
        },
    ]);
}

// ---- holdover --------------------------------------------------------------

/// The uncertainty gathered over a free run is its length times the stability,
/// in parts per billion, rounded down.
pub proof fn law_growth_is_the_share_of_the_time(duration: Duration, stability_ppb: u64)
    ensures
        ({
            let growth = model::growth(duration, stability_ppb);
            let share = duration.ticks * stability_ppb;
            &&& 0 <= growth <= u64::MAX
            &&& growth * 1_000_000_000 <= share
            &&& growth < u64::MAX ==> share < (growth + 1) * 1_000_000_000
        }),
{
    let share = duration.ticks * stability_ppb;
    assert(model::micros_of(duration) == duration.ticks);
    assert(share >= 0) by (nonlinear_arith)
        requires
            share == duration.ticks * stability_ppb,
    ;
}

/// Without an anchor the clock runs free from the last one: the free run is the
/// time since then, the uncertainty has grown by its share of it, the clock is
/// degraded beyond the configured uncertainty, and a run as long as the warning
/// threshold raises the warning.
pub proof fn law_free_run_is_measured_from_the_last_anchor(m: EstimatorModel, now: Instant)
    requires
        m.state.last_anchor_system_time is Some,
        m.state.accepted_anchors > 0,
        m.state.holdover_duration.ticks == 0,
        m.state.last_anchor_system_time->0.ticks <= now.ticks,
    ensures
        ({
            let after = model::held_over(m, now);
            let run = now.ticks - m.state.last_anchor_system_time->0.ticks;
            let growth = model::growth(
                after.state.holdover_duration,
                m.config.holdover_stability_ppb,
            );
            &&& after.state.holdover_duration.ticks == run
            &&& m.state.uncertainty_us + growth <= u64::MAX ==> after.state.uncertainty_us
                == m.state.uncertainty_us + growth
            &&& after.state.uncertainty_us >= m.state.uncertainty_us
            &&& after.state.utc_status == (if after.state.uncertainty_us
                > m.config.degraded_uncertainty_us {
                UtcStatus::Degraded
            } else {
                UtcStatus::Synchronized
            })
            &&& after.state.holdover_warning <==> (m.state.holdover_warning || run
                >= m.config.holdover_warning_threshold.ticks)
            &&& after.state.last_anchor_system_time == m.state.last_anchor_system_time
            &&& after.state.last_anchor_utc == m.state.last_anchor_utc
            &&& after.state.accepted_anchors == m.state.accepted_anchors
            &&& after.state.rejected_anchors == m.state.rejected_anchors
            &&& run < m.config.pps_loss_timeout.ticks ==> after.state.phase_slew_ppb
                == m.state.phase_slew_ppb && after.state.reference_system_time
                == m.state.reference_system_time
        }),
{
    law_growth_is_the_share_of_the_time(
        model::held_over(m, now).state.holdover_duration,
        m.config.holdover_stability_ppb,
    );
    assert(model::growth(m.state.holdover_duration, m.config.holdover_stability_ppb) == 0) by {
        law_growth_is_the_share_of_the_time(
            m.state.holdover_duration,
            m.config.holdover_stability_ppb,
        );
        assert(0 * m.config.holdover_stability_ppb == 0) by (nonlinear_arith);
    }
}

/// A new clock has had no anchor, tells no time, and has its parameters.
pub proof fn law_new_clock_tells_no_time(config: TimeConfig, at: Instant)
    ensures
        ({
            let clock = model::fresh(config);
            &&& clock.config == config
            &&& clock.state.accepted_anchors == 0
            &&& clock.state.rejected_anchors == 0
            &&& clock.state.last_anchor_system_time is None
            &&& !clock.state.frequency_calibration_locked
            &&& !clock.state.pps_reacquisition_active
            &&& clock.samples.len() == 0
            &&& clock.last_pps_time is None
            &&& !clock.state.knows(at)
            &&& clock.state.told_utc(at) == Err::<UtcTimestamp, TimeError>(TimeError::NotValid)
        }),
{
}

/// A clock that never had an anchor tells no time, however long it runs.
pub proof fn law_clock_without_an_anchor_tells_no_time(m: EstimatorModel, now: Instant, at: Instant)
    requires
        m.state.last_anchor_system_time is None,
    ensures
        model::held_over(m, now).state.utc_status == UtcStatus::Invalid,
        !model::held_over(m, now).state.knows(at),
        model::held_over(m, now).state.uncertainty_us == m.state.uncertainty_us,
        !m.state.holdover_warning ==> !model::held_over(m, now).state.holdover_warning,
{
}

} // verus!
