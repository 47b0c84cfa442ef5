//! The clock: anchors, calibration, holdover.
use raylar_services::clock::{Duration, Instant, TICK_HZ};
use raylar_services::time::estimator::TimeEstimator;
use raylar_services::time::types::{
    Anchor, AnchorQuality, TimeConfig, TimeError, TimeSource, TimeState, UtcStatus, UtcTimestamp,
};

fn anchor(system_seconds: u64, utc_seconds: i64, uncertainty_us: u64) -> Anchor {
    Anchor {
        system_time: Instant::from_ticks(system_seconds * TICK_HZ),
        utc: UtcTimestamp::new(utc_seconds, 0).unwrap(),
        quality: AnchorQuality::new(uncertainty_us),
        source: TimeSource::GpsPps,
        capture_ticks: None,
        pps_sequence: None,
        pps_interval: None,
    }
}

#[test]
fn invalid_before_first_anchor() {
    let estimator = TimeEstimator::new(TimeConfig::default());
    assert_eq!(
        estimator.state().system_to_utc(Instant::from_ticks(0)),
        Err(TimeError::NotValid)
    );
}

#[test]
fn mapping_is_bidirectional() {
    let mut estimator = TimeEstimator::new(TimeConfig::default());
    assert!(estimator.ingest(anchor(10, 1_700_000_000, 10)));
    let system = Instant::from_ticks(15 * TICK_HZ);
    let utc = estimator.state().system_to_utc(system).unwrap();
    assert_eq!(utc, UtcTimestamp::new(1_700_000_005, 0).unwrap());
    assert_eq!(estimator.state().utc_to_system(utc).unwrap(), system);
}

#[test]
fn estimates_frequency_error_with_long_baseline_regression() {
    let mut config = TimeConfig::default();
    config.minimum_frequency_baseline = Duration::from_secs(1);
    config.pps_loss_timeout = Duration::from_secs(1_000);
    let mut estimator = TimeEstimator::new(config);
    estimator.ingest(anchor(0, 1_700_000_000, 10));
    let mut second = anchor(100, 1_700_000_100, 10);
    second.utc.microseconds = 1_000;
    assert!(estimator.ingest(second));
    assert_eq!(estimator.state().calibrated_frequency_error_ppb, 10_000);
}

#[test]
fn frequency_baseline_spans_frequent_anchors() {
    let mut config = TimeConfig::default();
    config.minimum_frequency_baseline = Duration::from_secs(10);
    let mut estimator = TimeEstimator::new(config);
    estimator.ingest(anchor(0, 1_700_000_000, 10));
    for second in 1..10 {
        assert!(estimator.ingest(anchor(second, 1_700_000_000 + second as i64, 10)));
    }
    let mut tenth = anchor(10, 1_700_000_010, 10);
    tenth.utc.microseconds = 100;
    assert!(estimator.ingest(tenth));
    assert_eq!(estimator.state().calibrated_frequency_error_ppb, 10_000);
}

#[test]
fn frequency_regression_rejects_one_in_window_outlier() {
    let mut config = TimeConfig::default();
    config.pps_loss_timeout = Duration::from_secs(1_000);
    let mut estimator = TimeEstimator::new(config);
    estimator.ingest(anchor(0, 1_700_000_000, 10));
    for minute in 1..=10u64 {
        let mut sample = anchor(minute * 60, 1_700_000_000 + (minute * 60) as i64, 10);
        sample.utc.microseconds = minute as u32 * 600;
        if minute == 5 {
            sample.utc.microseconds += 50_000;
        }
        assert!(estimator.ingest(sample));
    }
    assert_eq!(estimator.state().calibrated_frequency_error_ppb, 10_000);
    assert!(estimator.state().frequency_calibration_locked);
}

#[test]
fn corrects_adjacent_utc_second_without_poisoning_phase() {
    let mut estimator = TimeEstimator::new(TimeConfig::default());
    estimator.ingest(anchor(0, 1_700_000_000, 10));
    assert!(estimator.ingest(anchor(1, 1_700_000_000, 10)));
    let state = estimator.state();
    assert_eq!(state.utc_second_corrections, 1);
    assert_eq!(state.last_anchor_residual_us, Some(0));
    assert_eq!(state.rejected_anchors, 0);
}

#[test]
fn hardware_scale_sample_handles_small_capture_quantization() {
    let mut config = TimeConfig::default();
    config.minimum_frequency_baseline = Duration::from_secs(10);
    config.pps_loss_timeout = Duration::from_secs(1_000);
    let mut estimator = TimeEstimator::new(config);
    estimator.ingest(anchor(0, 1_700_000_000, 10));
    let noisy = Anchor {
        system_time: Instant::from_ticks(10 * TICK_HZ + 66),
        ..anchor(10, 1_700_000_010, 10)
    };
    assert!(estimator.ingest(noisy));
    assert!(estimator.state().calibrated_frequency_error_ppb < 0);
}

#[test]
fn phase_slew_rebases_without_a_clock_step_and_covers_residual() {
    let mut estimator = TimeEstimator::new(TimeConfig::default());
    estimator.ingest(anchor(0, 1_700_000_000, 10));
    let system = Instant::from_ticks(TICK_HZ);
    let before = estimator.state().system_to_utc(system).unwrap();
    let mut next = anchor(1, 1_700_000_001, 10);
    next.utc.microseconds = 1_000;
    assert!(estimator.ingest(next));
    let state = estimator.state();
    let after = state.system_to_utc(system).unwrap();
    assert_eq!(after, before);
    assert_eq!(state.last_anchor_residual_us, Some(1_000));
    assert_eq!(state.uncertainty_us, 1_010);
    assert!(state.phase_slew_ppb > 0);
}

#[test]
fn rejects_large_discontinuity() {
    let mut estimator = TimeEstimator::new(TimeConfig::default());
    estimator.ingest(anchor(0, 1_700_000_000, 10));
    assert!(!estimator.ingest(anchor(1, 1_700_000_100, 10)));
    assert_eq!(estimator.state().rejected_anchors, 1);
}

#[test]
fn uncertainty_degrades_during_holdover_but_mapping_remains_available() {
    let mut config = TimeConfig::default();
    config.degraded_uncertainty_us = 100;
    config.holdover_stability_ppb = 10_000;
    let mut estimator = TimeEstimator::new(config);
    estimator.ingest(anchor(0, 1_700_000_000, 10));
    let state = estimator.update_holdover(Instant::from_ticks(10 * TICK_HZ));
    assert_eq!(state.uncertainty_us, 110);
    assert_eq!(state.utc_status, UtcStatus::Degraded);
    assert!(state.system_to_utc(Instant::from_ticks(10 * TICK_HZ)).is_ok());
}

#[test]
fn holdover_removes_phase_slew_without_stepping_utc() {
    let mut estimator = TimeEstimator::new(TimeConfig::default());
    estimator.ingest(anchor(0, 1_700_000_000, 10));
    let mut next = anchor(1, 1_700_000_001, 10);
    next.utc.microseconds = 1_000;
    assert!(estimator.ingest(next));
    assert_ne!(estimator.state().phase_slew_ppb, 0);

    let holdover_time = Instant::from_ticks(3 * TICK_HZ);
    let before = estimator.state().system_to_utc(holdover_time).unwrap();
    let state = estimator.update_holdover(holdover_time);
    let after = state.system_to_utc(holdover_time).unwrap();
    assert_eq!(after, before);
    assert_eq!(state.phase_slew_ppb, 0);
    assert_eq!(state.estimated_frequency_error_ppb, state.calibrated_frequency_error_ppb);
}

#[test]
fn reacquisition_requires_three_clean_pps_intervals() {
    let mut estimator = TimeEstimator::new(TimeConfig::default());
    assert!(estimator.ingest(anchor(0, 1_700_000_000, 10)));

    assert!(!estimator.ingest(anchor(30, 1_700_000_030, 10)));
    assert!(!estimator.ingest(anchor(31, 1_700_000_031, 10)));
    assert!(!estimator.ingest(anchor(32, 1_700_000_032, 10)));
    assert!(estimator.ingest(anchor(33, 1_700_000_033, 10)));

    let state = estimator.state();
    assert!(!state.pps_reacquisition_active);
    assert_eq!(state.pps_reacquisition_clean_intervals, 3);
    assert_eq!(state.pps_reacquisition_rejections, 3);
    assert_eq!(state.accepted_anchors, 2);
    assert_eq!(state.rejected_anchors, 3);
}

#[test]
fn reacquisition_uses_raw_pps_intervals_when_correlations_are_skipped() {
    let mut estimator = TimeEstimator::new(TimeConfig::default());
    assert!(estimator.ingest(anchor(0, 1_700_000_000, 10)));

    let mut gap = anchor(30, 1_700_000_030, 10);
    gap.pps_interval = Some(Duration::from_secs(30));
    assert!(!estimator.ingest(gap));

    // The anchors are two seconds apart, but each reports that the raw interval
    // right before it was a clean second.
    for second in [32u64, 34] {
        let mut clean = anchor(second, 1_700_000_000 + second as i64, 10);
        clean.pps_interval = Some(Duration::from_secs(1));
        assert!(!estimator.ingest(clean));
    }
    let mut qualified = anchor(36, 1_700_000_036, 10);
    qualified.pps_interval = Some(Duration::from_secs(1));
    assert!(estimator.ingest(qualified));

    let state = estimator.state();
    assert!(!state.pps_reacquisition_active);
    assert_eq!(state.pps_reacquisition_clean_intervals, 3);
    assert_eq!(state.accepted_anchors, 2);
}

#[test]
fn pps_sequence_rearms_gate_across_a_power_cycle() {
    let mut estimator = TimeEstimator::new(TimeConfig::default());
    let mut first = anchor(0, 1_700_000_000, 10);
    first.pps_sequence = Some(1);
    assert!(estimator.ingest(first));

    // Four edges came in thirty seconds: the pulse had stopped in between,
    // though the latest interval is already clean.
    let mut resumed = anchor(30, 1_700_000_030, 10);
    resumed.pps_sequence = Some(5);
    resumed.pps_interval = Some(Duration::from_secs(1));
    assert!(!estimator.ingest(resumed));
    assert!(estimator.state().pps_reacquisition_active);
    assert_eq!(estimator.state().pps_reacquisition_clean_intervals, 0);
}

#[test]
fn holdover_warning_is_one_way_until_an_anchor_is_accepted() {
    let mut config = TimeConfig::default();
    config.holdover_warning_threshold = Duration::from_secs(90);
    config.pps_loss_timeout = Duration::from_secs(1_000);
    let mut estimator = TimeEstimator::new(config);
    assert!(estimator.ingest(anchor(0, 1_700_000_000, 10)));

    assert!(!estimator.update_holdover(Instant::from_ticks(89 * TICK_HZ)).holdover_warning);
    assert!(estimator.update_holdover(Instant::from_ticks(90 * TICK_HZ)).holdover_warning);
    assert!(estimator.ingest(anchor(90, 1_700_000_090, 10)));
    assert!(!estimator.state().holdover_warning);
}

#[test]
fn locked_frequency_calibration_ignores_later_samples() {
    let mut config = TimeConfig::default();
    config.minimum_frequency_baseline = Duration::from_secs(1);
    config.pps_loss_timeout = Duration::from_secs(1_000);
    let mut estimator = TimeEstimator::new(config);
    assert!(estimator.ingest(anchor(0, 1_700_000_000, 10)));
    for second in 1..=10u64 {
        let mut sample = anchor(second, 1_700_000_000 + second as i64, 10);
        sample.utc.microseconds = second as u32 * 10;
        assert!(estimator.ingest(sample));
    }
    let locked_ppb = estimator.state().calibrated_frequency_error_ppb;
    assert!(estimator.state().frequency_calibration_locked);

    let mut later = anchor(11, 1_700_000_011, 10);
    later.utc.microseconds = 1_000;
    assert!(estimator.ingest(later));
    assert_eq!(estimator.state().calibrated_frequency_error_ppb, locked_ppb);
    assert_eq!(estimator.state().frequency_calibration_samples, 11);
}

#[test]
fn timestamps_hold_microseconds_below_a_second() {
    assert_eq!(UtcTimestamp::new(7, 1_000_000), None);
    let early = UtcTimestamp::from_micros(-1);
    assert_eq!((early.seconds, early.microseconds), (-1, 999_999));
    assert_eq!(early.as_micros(), -1);
    assert_eq!(UtcTimestamp::new(i64::MAX, 5).unwrap().as_micros(), i64::MAX);
}

#[test]
fn conversions_out_of_range_are_refused() {
    let mut estimator = TimeEstimator::new(TimeConfig::default());
    assert!(estimator.ingest(anchor(10, 1_700_000_000, 10)));
    let state: TimeState = estimator.state();
    let before_start = UtcTimestamp::new(1_699_999_980, 0).unwrap();
    assert_eq!(state.utc_to_system(before_start), Err(TimeError::OutOfRange));
    assert_eq!(
        state.system_to_utc(Instant::from_ticks(u64::MAX)),
        Err(TimeError::OutOfRange)
    );
    assert_eq!(TimeState::invalid().utc_to_system(before_start), Err(TimeError::NotValid));
}

#[test]
fn an_unclean_interval_restarts_the_count() {
    let mut estimator = TimeEstimator::new(TimeConfig::default());
    assert!(estimator.ingest(anchor(0, 1_700_000_000, 10)));
    assert!(!estimator.ingest(anchor(30, 1_700_000_030, 10)));
    assert!(!estimator.ingest(anchor(31, 1_700_000_031, 10)));
    let mut late = anchor(32, 1_700_000_032, 10);
    late.system_time = Instant::from_ticks(32 * TICK_HZ + 5_000);
    assert!(!estimator.ingest(late));
    assert_eq!(estimator.state().pps_reacquisition_clean_intervals, 0);
}

#[test]
fn rejected_anchors_leave_the_mapping_alone() {
    let mut estimator = TimeEstimator::new(TimeConfig::default());
    estimator.ingest(anchor(0, 1_700_000_000, 10));
    let at = Instant::from_ticks(TICK_HZ);
    let before = estimator.state().system_to_utc(at);
    assert!(!estimator.ingest(anchor(1, 1_700_000_100, 10)));
    assert_eq!(estimator.state().system_to_utc(at), before);
    assert_eq!(estimator.state().accepted_anchors, 1);
}

#[test]
fn holdover_uncertainty_grows_with_time_alone() {
    let mut stepped = TimeEstimator::new(TimeConfig::default());
    stepped.ingest(anchor(0, 1_700_000_000, 10));
    for second in 1..=100 {
        stepped.update_holdover(Instant::from_ticks(second * TICK_HZ));
    }
    let mut direct = TimeEstimator::new(TimeConfig::default());
    direct.ingest(anchor(0, 1_700_000_000, 10));
    direct.update_holdover(Instant::from_ticks(100 * TICK_HZ));
    assert_eq!(stepped.state().uncertainty_us, direct.state().uncertainty_us);
    assert_eq!(direct.state().uncertainty_us, 1_010);
}

#[test]
fn asking_again_at_the_same_instant_changes_nothing() {
    let mut estimator = TimeEstimator::new(TimeConfig::default());
    estimator.ingest(anchor(0, 1_700_000_000, 10));
    let mut next = anchor(1, 1_700_000_001, 10);
    next.utc.microseconds = 1_000;
    assert!(estimator.ingest(next));
    let now = Instant::from_ticks(700 * TICK_HZ);
    let state = estimator.update_holdover(now);
    assert!(state.holdover_warning);
    assert_eq!(estimator.update_holdover(now), state);
}
