//! What the clock promises over several calls.
use crate::arith;
use crate::clock;
use crate::clock::{Duration, Instant, TICK_HZ};
use crate::time::model;
use crate::time::model::EstimatorModel;
use crate::time::types;
use crate::time::types::{Anchor, TimeSource, TimeState};
use vstd::prelude::*;

verus! {

/// UTC microseconds that survive the conversion to a timestamp and back.
pub open spec fn exact_micros(micros: int) -> bool {
    -9_223_372_036_854_000_000 <= micros <= i64::MAX
}

/// The mapping of its own reference instant is its reference time.
proof fn lemma_reference_maps_to_itself(state: TimeState)
    ensures
        state.can_map(state.reference_system_time),
        state.mapped_micros(state.reference_system_time) == state.reference_utc.micros(),
{
    assert(0 * state.scale() == 0) by (nonlinear_arith);
    assert(state.scaled_delta(state.reference_system_time) == 0);
}

/// Removing the phase slew at an instant does not step UTC there.
pub proof fn law_unslewing_is_continuous(m: EstimatorModel, at: Instant)
    requires
        m.state.can_map(at),
        exact_micros(m.state.mapped_micros(at)),
    ensures
        model::unslewed(m, at).state.can_map(at),
        model::unslewed(m, at).state.mapped_micros(at) == m.state.mapped_micros(at),
{
    let after = model::unslewed(m, at);
    if m.state.phase_slew_ppb != 0 {
        lemma_reference_maps_to_itself(after.state);
        types::law_micros_round_trip(m.state.mapped_micros(at) as i64);
    }
}

/// An anchor, accepted or not, does not step UTC at its own instant: a new
/// mapping runs on from the value that the old one had there.
pub proof fn law_anchors_are_continuous(m: EstimatorModel, anchor: Anchor)
    requires
        m.state.accepted_anchors > 0,
        m.state.can_map(anchor.system_time),
        exact_micros(m.state.mapped_micros(anchor.system_time)),
    ensures
        model::ingested(m, anchor).0.state.can_map(anchor.system_time),
        model::ingested(m, anchor).0.state.mapped_micros(anchor.system_time)
            == m.state.mapped_micros(anchor.system_time),
{
    let at = anchor.system_time;
    let observed = if anchor.source == TimeSource::GpsPps {
        model::gated(m, anchor).0
    } else {
        m
    };
    let armed = EstimatorModel {
        state: TimeState {
            pps_reacquisition_active: true,
            pps_reacquisition_clean_intervals: 0,
            ..m.state
        },
        ..model::pulse_noted(m, anchor)
    };
    law_unslewing_is_continuous(armed, at);
    assert(observed.state.can_map(at));
    assert(observed.state.mapped_micros(at) == m.state.mapped_micros(at));
    let after = model::ingested(m, anchor);
    if after.1 {
        lemma_reference_maps_to_itself(after.0.state);
        types::law_micros_round_trip(m.state.mapped_micros(at) as i64);
    }
}

/// Holdover does not step UTC at the instant it is evaluated.
pub proof fn law_holdover_is_continuous(m: EstimatorModel, now: Instant)
    requires
        m.state.can_map(now),
        exact_micros(m.state.mapped_micros(now)),
    ensures
        model::held_over(m, now).state.can_map(now),
        model::held_over(m, now).state.mapped_micros(now) == m.state.mapped_micros(now),
{
    if let Some(last_anchor) = m.state.last_anchor_system_time {
        let timed = EstimatorModel {
            state: TimeState {
                holdover_duration: Duration { ticks: clock::elapsed_ticks(last_anchor, now) },
                ..m.state
            },
            ..m
        };
        law_unslewing_is_continuous(timed, now);
    }
}

/// Once the pulse has been gone for the configured time, only the calibrated
/// rate is left.
pub proof fn law_holdover_runs_at_the_calibrated_rate(m: EstimatorModel, now: Instant)
    requires
        m.state.last_anchor_system_time is Some,
        clock::elapsed_ticks(m.state.last_anchor_system_time->0, now)
            >= m.config.pps_loss_timeout@,
        model::maps_to_timestamp(m.state, now),
        m.state.phase_slew_ppb == 0 ==> m.state.estimated_frequency_error_ppb
            == m.state.calibrated_frequency_error_ppb,
    ensures
        model::held_over(m, now).state.phase_slew_ppb == 0,
        model::held_over(m, now).state.estimated_frequency_error_ppb
            == m.state.calibrated_frequency_error_ppb,
{
}

/// Every anchor is counted once, as accepted or as rejected.
pub proof fn law_every_anchor_is_counted(m: EstimatorModel, anchor: Anchor)
    ensures
        model::ingested(m, anchor).1 ==> {
            let after = model::ingested(m, anchor).0.state;
            &&& after.accepted_anchors == arith::next_count(m.state.accepted_anchors)
            &&& after.rejected_anchors == m.state.rejected_anchors
        },
        !model::ingested(m, anchor).1 ==> {
            let after = model::ingested(m, anchor).0.state;
            &&& after.accepted_anchors == m.state.accepted_anchors
            &&& after.rejected_anchors == arith::next_count(m.state.rejected_anchors)
        },
{
}

/// Whether two states agree on the record of the last accepted anchor.
pub open spec fn same_record(a: TimeState, b: TimeState) -> bool {
    &&& a.last_anchor_system_time == b.last_anchor_system_time
    &&& a.last_anchor_utc == b.last_anchor_utc
    &&& a.active_time_source == b.active_time_source
    &&& a.first_anchor_source == b.first_anchor_source
    &&& a.uncertainty_us == b.uncertainty_us
    &&& a.holdover_duration == b.holdover_duration
    &&& a.holdover_warning == b.holdover_warning
    &&& a.utc_status == b.utc_status
}

/// The reacquisition barrier leaves the record alone.
proof fn lemma_gate_keeps_record(m: EstimatorModel, anchor: Anchor)
    ensures
        same_record(model::gated(m, anchor).0.state, m.state),
{
}

/// Calibrating and slewing leave the record alone.
proof fn lemma_tuning_keeps_record(m: EstimatorModel, anchor: Anchor, residual_us: int)
    ensures
        same_record(
            model::slewing(model::calibrated(model::with_sample(m, anchor)), residual_us).state,
            m.state,
        ),
{
}

/// A rejected anchor leaves the record of the last accepted one alone.
pub proof fn law_rejected_anchor_is_not_recorded(m: EstimatorModel, anchor: Anchor)
    requires
        !model::ingested(m, anchor).1,
    ensures
        same_record(model::ingested(m, anchor).0.state, m.state),
{
    lemma_gate_keeps_record(m, anchor);
    let observed = if anchor.source == TimeSource::GpsPps {
        model::gated(m, anchor).0
    } else {
        m
    };
    let predicted = observed.state.mapped_micros(anchor.system_time);
    let raw = anchor.utc.micros() - predicted;
    let correction = model::second_correction(observed, anchor, raw);
    lemma_tuning_keeps_record(
        model::measured(observed, correction, raw - correction),
        model::corrected_anchor(anchor, correction),
        raw - correction,
    );
}

/// Whether a calibration is locked to the one that its full window gives.
spec fn locked_to_window(m: EstimatorModel) -> bool {
    &&& m.state.frequency_calibration_locked
    &&& m.samples.len() == model::FREQUENCY_SAMPLE_CAPACITY
    &&& model::all_slopes(m).len() > 0
    &&& m.state.calibrated_frequency_error_ppb == model::median(model::all_slopes(m))
}

/// Whether two clocks have the same calibration.
spec fn same_calibration(a: EstimatorModel, b: EstimatorModel) -> bool {
    &&& a.config == b.config
    &&& a.samples == b.samples
    &&& a.state.frequency_calibration_locked == b.state.frequency_calibration_locked
    &&& a.state.calibrated_frequency_error_ppb == b.state.calibrated_frequency_error_ppb
}

/// The reacquisition barrier leaves the calibration alone.
proof fn lemma_gate_keeps_calibration(m: EstimatorModel, anchor: Anchor)
    ensures
        same_calibration(model::gated(m, anchor).0, m),
{
}

/// Tuning leaves a locked calibration alone.
proof fn lemma_tuning_keeps_lock(m: EstimatorModel, anchor: Anchor, residual_us: int)
    requires
        locked_to_window(m),
    ensures
        same_calibration(
            model::slewing(model::calibrated(model::with_sample(m, anchor)), residual_us),
            m,
        ),
{
    assert(model::with_sample(m, anchor) == m);
}

/// Holding an anchor against the mapping leaves a locked calibration alone.
proof fn lemma_comparing_keeps_lock(m: EstimatorModel, anchor: Anchor)
    requires
        locked_to_window(m),
    ensures
        same_calibration(model::compared(m, anchor).0, m),
{
    let predicted = m.state.mapped_micros(anchor.system_time);
    let raw = anchor.utc.micros() - predicted;
    let correction = model::second_correction(m, anchor, raw);
    let noted = model::measured(m, correction, raw - correction);
    assert(model::all_slopes(noted) == model::all_slopes(m));
    lemma_tuning_keeps_lock(
        noted,
        model::corrected_anchor(anchor, correction),
        raw - correction,
    );
}

/// A locked calibration ignores every later anchor.
pub proof fn law_locked_calibration_is_kept(m: EstimatorModel, anchor: Anchor)
    requires
        model::consistent(m),
        m.state.frequency_calibration_locked,
    ensures
        ({
            let after = model::ingested(m, anchor).0;
            &&& after.state.frequency_calibration_locked
            &&& after.state.calibrated_frequency_error_ppb
                == m.state.calibrated_frequency_error_ppb
            &&& after.samples == m.samples
        }),
{
    assert(locked_to_window(m));
    if anchor.source == TimeSource::GpsPps {
        lemma_gate_keeps_calibration(m, anchor);
        let observed = model::gated(m, anchor).0;
        assert(model::all_slopes(observed) == model::all_slopes(m));
        lemma_comparing_keeps_lock(observed, anchor);
    } else {
        lemma_comparing_keeps_lock(m, anchor);
    }
}

/// A calibration lies within the configured oscillator error.
pub proof fn law_calibration_is_bounded(m: EstimatorModel)
    requires
        model::all_slopes(m).len() > 0,
    ensures
        arith::abs(model::median(model::all_slopes(m))) <= m.config.max_frequency_error_ppb,
{
    let values = model::all_slopes(m);
    let limit = m.config.max_frequency_error_ppb as int;
    let ordered = crate::order::sorted(values);
    lemma_slopes_bounded(m.samples, limit, m.samples.len() as int);
    crate::order::lemma_sorted(values);
    let middle = (values.len() / 2) as int;
    assert(values.contains(ordered[middle]));
    if values.len() % 2 == 0 {
        assert(values.contains(ordered[middle - 1]));
        arith::lemma_trunc_div_bounded(ordered[middle - 1] + ordered[middle], 2);
    }
}

/// Every believable slope of one sample lies within the limit.
proof fn lemma_slopes_from_bounded(
    samples: Seq<model::FrequencySample>,
    limit: int,
    first: int,
    end: int,
)
    requires
        limit <= i64::MAX,
    ensures
        forall|v: i64|
            #[trigger] model::slopes_from(samples, limit, first, end).contains(v) ==> arith::abs(
                v as int,
            ) <= limit,
    decreases end - first,
{
    if end > first + 1 {
        lemma_slopes_from_bounded(samples, limit, first, end - 1);
        let before = model::slopes_from(samples, limit, first, end - 1);
        let all = model::slopes_from(samples, limit, first, end);
        assert forall|v: i64| #[trigger] all.contains(v) implies arith::abs(v as int) <= limit by {
            let i = choose|i: int| 0 <= i < all.len() && all[i] == v;
            if i < before.len() {
                assert(before[i] == v);
                assert(before.contains(v));
            }
        }
    }
}

/// Every believable slope lies within the limit.
proof fn lemma_slopes_bounded(samples: Seq<model::FrequencySample>, limit: int, firsts: int)
    requires
        limit <= i64::MAX,
    ensures
        forall|v: i64|
            #[trigger] model::slopes(samples, limit, firsts).contains(v) ==> arith::abs(v as int)
                <= limit,
    decreases firsts,
{
    if firsts > 0 {
        lemma_slopes_bounded(samples, limit, firsts - 1);
        lemma_slopes_from_bounded(samples, limit, firsts - 1, samples.len() as int);
        let before = model::slopes(samples, limit, firsts - 1);
        let own = model::slopes_from(samples, limit, firsts - 1, samples.len() as int);
        let all = model::slopes(samples, limit, firsts);
        assert forall|v: i64| #[trigger] all.contains(v) implies arith::abs(v as int) <= limit by {
            let i = choose|i: int| 0 <= i < all.len() && all[i] == v;
            if i < before.len() {
                assert(before[i] == v);
                assert(before.contains(v));
            } else {
                assert(own[i - before.len()] == v);
                assert(own.contains(v));
            }
        }
    }
}

/// The calibration is not moved by single mistagged samples: where more than
/// half of the slopes lie between two bounds, so does the calibration.
pub proof fn law_calibration_follows_the_majority(m: EstimatorModel, low: int, high: int)
    requires
        2 * crate::order::count_between(model::all_slopes(m), low, high)
            > model::all_slopes(m).len(),
    ensures
        low <= model::median(model::all_slopes(m)) <= high,
{
    crate::order::law_majority_bounds_the_middle(model::all_slopes(m), low, high);
}

/// A holdover warning stays until an anchor is accepted, and an accepted
/// anchor clears it.
pub proof fn law_holdover_warning_is_latched(m: EstimatorModel, anchor: Anchor, now: Instant)
    requires
        m.state.holdover_warning,
    ensures
        model::held_over(m, now).state.holdover_warning,
        model::ingested(m, anchor).0.state.holdover_warning == !model::ingested(m, anchor).1,
{
}

/// The uncertainty in holdover depends on how long ago the last anchor was,
/// not on how often the clock was asked.
pub proof fn law_holdover_uncertainty_is_path_independent(
    m: EstimatorModel,
    now: Instant,
    later: Instant,
)
    requires
        m.state.last_anchor_system_time is Some,
        model::held_over(m, now).state.uncertainty_us < u64::MAX,
    ensures
        model::held_over(model::held_over(m, now), later).state.uncertainty_us == model::held_over(
            m,
            later,
        ).state.uncertainty_us,
        model::held_over(model::held_over(m, now), later).state.holdover_duration
            == model::held_over(m, later).state.holdover_duration,
{
    let last_anchor = m.state.last_anchor_system_time->0;
    let first = Duration { ticks: clock::elapsed_ticks(last_anchor, now) };
    lemma_growth_nonnegative(m.state.holdover_duration, m.config.holdover_stability_ppb);
    lemma_growth_nonnegative(first, m.config.holdover_stability_ppb);
}

/// Asking a clock again at the same instant changes nothing.
pub proof fn law_holdover_is_settled_at_once(m: EstimatorModel, now: Instant)
    ensures
        model::held_over(model::held_over(m, now), now) == model::held_over(m, now),
{
    if m.state.last_anchor_system_time is Some {
        let elapsed = Duration {
            ticks: clock::elapsed_ticks(m.state.last_anchor_system_time->0, now),
        };
        lemma_growth_nonnegative(m.state.holdover_duration, m.config.holdover_stability_ppb);
        lemma_growth_nonnegative(elapsed, m.config.holdover_stability_ppb);
    }
}

/// Uncertainty never shrinks by itself.
proof fn lemma_growth_nonnegative(duration: Duration, stability_ppb: u64)
    ensures
        0 <= model::growth(duration, stability_ppb),
{
    let product = model::micros_of(duration) * stability_ppb;
    assert(product >= 0) by (nonlinear_arith)
        requires
            product == model::micros_of(duration) * stability_ppb,
            model::micros_of(duration) >= 0,
            stability_ppb >= 0,
    ;
}

/// In holdover the uncertainty does not shrink as time passes.
pub proof fn law_holdover_uncertainty_grows(m: EstimatorModel, now: Instant, later: Instant)
    requires
        m.state.last_anchor_system_time is Some,
        now@ <= later@,
    ensures
        model::held_over(m, now).state.uncertainty_us <= model::held_over(
            m,
            later,
        ).state.uncertainty_us,
{
    let last_anchor = m.state.last_anchor_system_time->0;
    let ppb = m.config.holdover_stability_ppb;
    let first = Duration { ticks: clock::elapsed_ticks(last_anchor, now) };
    let second = Duration { ticks: clock::elapsed_ticks(last_anchor, later) };
    lemma_growth_nonnegative(m.state.holdover_duration, ppb);
    lemma_growth_nonnegative(first, ppb);
    let a = model::micros_of(first);
    let b = model::micros_of(second);
    assert(a * ppb <= b * ppb) by (nonlinear_arith)
        requires
            a <= b,
            ppb >= 0,
    ;
}

/// Whether an anchor's measured pulse interval is clean and short enough not
/// to be a loss, on its own evidence.
pub open spec fn clean_pulse(config: types::TimeConfig, anchor: Anchor) -> bool {
    &&& anchor.source == TimeSource::GpsPps
    &&& anchor.pps_sequence is None
    &&& anchor.pps_interval is Some
    &&& anchor.pps_interval->0@ < config.pps_loss_timeout@
    &&& arith::abs(anchor.pps_interval->0@ - TICK_HZ) <= config.pps_interval_tolerance@
}

/// The clock after a run of anchors.
pub open spec fn after_all(m: EstimatorModel, anchors: Seq<Anchor>) -> EstimatorModel
    decreases anchors.len(),
{
    if anchors.len() == 0 {
        m
    } else {
        model::ingested(after_all(m, anchors.drop_last()), anchors.last()).0
    }
}

/// A lost pulse closes the barrier: the anchor is rejected and counting starts
/// over.
pub proof fn law_lost_pulse_closes_the_gate(m: EstimatorModel, anchor: Anchor)
    requires
        m.state.accepted_anchors > 0,
        m.last_pps_time is Some,
        m.config.pps_reacquisition_intervals > 0,
        anchor.source == TimeSource::GpsPps,
        model::pulse_lost(m, anchor),
    ensures
        !model::ingested(m, anchor).1,
        model::ingested(m, anchor).0.state.pps_reacquisition_active,
        model::ingested(m, anchor).0.state.pps_reacquisition_clean_intervals == 0,
{
}

/// Behind a closed barrier, fewer clean intervals than configured are not enough:
/// each one is rejected and the barrier stays closed.
pub proof fn law_reacquisition_needs_clean_intervals(m: EstimatorModel, anchors: Seq<Anchor>)
    requires
        m.state.accepted_anchors > 0,
        m.last_pps_time is Some,
        m.state.pps_reacquisition_active,
        m.state.pps_reacquisition_clean_intervals == 0,
        anchors.len() < m.config.pps_reacquisition_intervals,
        forall|i: int| 0 <= i < anchors.len() ==> clean_pulse(m.config, #[trigger] anchors[i]),
    ensures
        ({
            let after = after_all(m, anchors);
            &&& after.config == m.config
            &&& after.last_pps_time is Some
            &&& after.state.pps_reacquisition_active
            &&& after.state.pps_reacquisition_clean_intervals == anchors.len()
            &&& after.state.accepted_anchors == m.state.accepted_anchors
        }),
    decreases anchors.len(),
{
    if anchors.len() > 0 {
        assert forall|i: int| 0 <= i < anchors.len() - 1 implies clean_pulse(
            m.config,
            #[trigger] anchors.drop_last()[i],
        ) by {
            assert(anchors.drop_last()[i] == anchors[i]);
        }
        law_reacquisition_needs_clean_intervals(m, anchors.drop_last());
        assert(clean_pulse(m.config, anchors[anchors.len() - 1]));
    }
}

/// The clean interval that completes the configured number opens the barrier: its
/// anchor is held against the mapping.
pub proof fn law_last_clean_interval_opens_the_gate(m: EstimatorModel, anchor: Anchor)
    requires
        m.last_pps_time is Some,
        m.state.pps_reacquisition_active,
        m.state.pps_reacquisition_clean_intervals + 1 >= m.config.pps_reacquisition_intervals,
        clean_pulse(m.config, anchor),
    ensures
        model::gated(m, anchor).1,
        !model::gated(m, anchor).0.state.pps_reacquisition_active,
{
}

/// An interval that is not clean starts the count over.
pub proof fn law_unclean_interval_restarts_the_count(m: EstimatorModel, anchor: Anchor)
    requires
        m.last_pps_time is Some,
        m.state.pps_reacquisition_active,
        m.config.pps_reacquisition_intervals > 0,
        !model::pulse_clean(m, anchor),
    ensures
        !model::gated(m, anchor).1,
        model::gated(m, anchor).0.state.pps_reacquisition_clean_intervals == 0,
{
}

/// Without a frequency error the mapping and its inverse undo each other.
pub proof fn law_exact_mapping_round_trip(state: TimeState, system_time: Instant)
    requires
        state.estimated_frequency_error_ppb == 0,
        exact_micros(state.mapped_micros(system_time)),
    ensures
        state.mapped_ticks(types::timestamp_at(state.mapped_micros(system_time)))
            == system_time@,
{
    let micros = state.mapped_micros(system_time);
    types::law_micros_round_trip(micros as i64);
    let delta = system_time@ - state.reference_system_time@;
    assert(state.scaled_delta(system_time) == delta * 1_000_000_000_000_000);
    assert(micros - state.reference_utc.micros() == delta);
}

/// With a rate of at least half the nominal one, mapping an instant to UTC and
/// back moves it toward the reference by two ticks at most.
pub proof fn law_mapping_round_trip(state: TimeState, system_time: Instant)
    requires
        state.scale() >= 500_000_000,
        exact_micros(state.mapped_micros(system_time)),
    ensures
        ({
            let there = types::timestamp_at(state.mapped_micros(system_time));
            let back = state.mapped_ticks(there);
            if system_time@ >= state.reference_system_time@ {
                system_time@ - 2 <= back <= system_time@
            } else {
                system_time@ <= back <= system_time@ + 2
            }
        }),
{
    let micros = state.mapped_micros(system_time);
    types::law_micros_round_trip(micros as i64);
    let delta = system_time@ - state.reference_system_time@;
    let scale = state.scale();
    let product = state.scaled_delta(system_time);
    let there = arith::trunc_div(product, TICK_HZ * types::NANOS_PER_SECOND);
    assert(TICK_HZ * types::NANOS_PER_SECOND == 1_000_000_000_000_000);
    let back = arith::trunc_div(there * 1_000_000_000_000_000, 1_000_000 * scale);
    assert(there * TICK_HZ * types::NANOS_PER_SECOND == there * 1_000_000_000_000_000);
    arith::lemma_trunc_div_bounded(product, 1_000_000_000_000_000);
    arith::lemma_trunc_div_bounded(there * 1_000_000_000_000_000, 1_000_000 * scale);
    let d = arith::abs(delta);
    let q = arith::abs(there);
    let b = arith::abs(back);
    assert(arith::abs(product) == d * 1_000_000 * scale && (delta >= 0 ==> product >= 0) && (delta
        <= 0 ==> product <= 0)) by (nonlinear_arith)
        requires
            product == delta * 1_000_000 * scale,
            scale > 0,
            d == arith::abs(delta),
    ;
    assert(b <= d && d - b <= 2) by (nonlinear_arith)
        requires
            q * 1_000_000_000_000_000 <= d * 1_000_000 * scale,
            d * 1_000_000 * scale < (q + 1) * 1_000_000_000_000_000,
            b * (1_000_000 * scale) <= q * 1_000_000_000_000_000,
            q * 1_000_000_000_000_000 < (b + 1) * (1_000_000 * scale),
            scale >= 500_000_000,
            b >= 0,
            d >= 0,
    ;
}

} // verus!
