//! Positions from several fixes.
use raylar_services::clock::Instant;
use raylar_services::location::filter::LocationFilter;
use raylar_services::location::types::{Coordinate, GpsFix, LocationConfig, LocationSource};
use raylar_services::time::gps::{UtcDateTime, UtcTime};

fn fix(latitude: i32, longitude: i32, satellites: u8, hdop_centi: Option<u16>) -> GpsFix {
    GpsFix {
        latitude: Coordinate { degrees_e7: latitude },
        longitude: Coordinate { degrees_e7: longitude },
        utc_time: UtcDateTime { date: None, time: UtcTime { hour: 12, minute: 0, second: 0 } },
        satellites,
        hdop_centi,
        system_timestamp: Instant::from_ticks(1),
    }
}

#[test]
fn rejects_poor_fixes_before_history() {
    let mut filter = LocationFilter::<5>::new(LocationConfig::default());

    filter.ingest(fix(100, 200, 3, Some(100)));
    filter.ingest(fix(100, 200, 6, Some(900)));
    filter.ingest(fix(1_000_000_000, 200, 6, Some(100)));

    let state = filter.state();
    assert!(!state.valid);
    assert_eq!(state.fix_count_used, 0);
    assert_eq!(state.total_fix_count_seen, 3);
}

#[test]
fn publishes_median_after_minimum_accepted_fixes() {
    let mut filter = LocationFilter::<5>::new(LocationConfig::default());

    filter.ingest(fix(520_000_010, -10_000_010, 8, Some(120)));
    filter.ingest(fix(520_000_020, -10_000_020, 7, Some(130)));
    let state = filter.ingest(fix(520_000_000, -10_000_000, 9, Some(110)));

    assert!(state.valid);
    assert_eq!(state.latitude.degrees_e7, 520_000_010);
    assert_eq!(state.longitude.degrees_e7, -10_000_010);
    assert_eq!(state.fix_count_used, 3);
    assert_eq!(state.source, LocationSource::Gps);
}

#[test]
fn median_suppresses_single_outlier() {
    let mut filter = LocationFilter::<5>::new(LocationConfig::default());

    filter.ingest(fix(520_000_000, -10_000_000, 8, Some(100)));
    filter.ingest(fix(520_000_010, -10_000_010, 8, Some(100)));
    filter.ingest(fix(800_000_000, 900_000_000, 8, Some(100)));
    let state = filter.ingest(fix(520_000_020, -10_000_020, 8, Some(100)));

    assert!(state.valid);
    assert_eq!(state.latitude.degrees_e7, 520_000_020);
    assert_eq!(state.longitude.degrees_e7, -10_000_000);
}

#[test]
fn history_forgets_the_oldest_fix() {
    let mut filter = LocationFilter::<3>::new(LocationConfig::default());
    filter.ingest(fix(1_000, 0, 8, Some(100)));
    for step in 0..3 {
        filter.ingest(fix(2_000 + step, 0, 8, Some(100)));
    }
    let state = filter.state();
    assert_eq!(state.fix_count_used, 3);
    assert_eq!(state.latitude.degrees_e7, 2_001);
    assert_eq!(state.total_fix_count_seen, 4);
}

#[test]
fn unusable_fixes_leave_the_position_alone() {
    let mut filter = LocationFilter::<5>::new(LocationConfig::default());
    for _ in 0..3 {
        filter.ingest(fix(520_000_000, -10_000_000, 8, Some(100)));
    }
    let before = filter.state();
    let after = filter.ingest(fix(0, 0, 1, Some(100)));
    assert_eq!(after.latitude, before.latitude);
    assert_eq!(after.fix_count_used, before.fix_count_used);
    assert_eq!(after.total_fix_count_seen, before.total_fix_count_seen + 1);
}
