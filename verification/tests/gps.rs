//! Anchors and labels of the receiver.
use raylar_services::clock::Instant;
use raylar_services::time::gps::{
    correlation_to_anchor, days_from_civil, gps_utc_to_timestamp, PpsTimingSource, TimeCorrelation, UtcDate,
    UtcDateTime, UtcTime,
};
use raylar_services::time::types::{TimeSource, UtcTimestamp};

fn correlation(pps_timestamp: Option<Instant>) -> TimeCorrelation {
    TimeCorrelation {
        utc_time: UtcDateTime {
            date: Some(UtcDate { year: 2024, month: 1, day: 1 }),
            time: UtcTime { hour: 0, minute: 0, second: 0 },
        },
        local_timestamp: Instant::from_ticks(1_100),
        pps_timestamp,
        pps_capture_ticks: None,
        pps_capture_delta_ticks: None,
        pps_capture_frequency_hz: None,
        pps_timing_source: Some(PpsTimingSource::EmbassyInstant),
    }
}

fn label(year: u16, month: u8, day: u8, hour: u8, minute: u8, second: u8) -> UtcDateTime {
    UtcDateTime {
        date: Some(UtcDate { year, month, day }),
        time: UtcTime { hour, minute, second },
    }
}

#[test]
fn ignores_nmea_without_a_matched_pps_edge() {
    assert_eq!(correlation_to_anchor(correlation(None)), None);
}

#[test]
fn uses_only_the_matched_pps_timestamp_as_an_anchor() {
    let pps = Instant::from_ticks(1_000);
    let anchor = correlation_to_anchor(correlation(Some(pps))).unwrap();
    assert_eq!(anchor.system_time, pps);
    assert_eq!(anchor.source, TimeSource::GpsPps);
    assert_eq!(anchor.quality.uncertainty_us, 100);
}

#[test]
fn hardware_capture_retains_cross_clock_phase_bound() {
    let pps = Instant::from_ticks(1_000);
    let mut value = correlation(Some(pps));
    value.pps_timing_source = Some(PpsTimingSource::Tim4Capture);
    let anchor = correlation_to_anchor(value).unwrap();
    assert_eq!(anchor.quality.uncertainty_us, 100);
}

#[test]
fn converts_unix_epoch() {
    let value = UtcDateTime {
        date: Some(UtcDate { year: 1970, month: 1, day: 1 }),
        time: UtcTime { hour: 0, minute: 0, second: 0 },
    };
    assert_eq!(gps_utc_to_timestamp(value), UtcTimestamp::new(0, 0));
}

#[test]
fn converts_known_date() {
    let value = UtcDateTime {
        date: Some(UtcDate { year: 2024, month: 1, day: 1 }),
        time: UtcTime { hour: 0, minute: 0, second: 0 },
    };
    assert_eq!(gps_utc_to_timestamp(value), UtcTimestamp::new(1_704_067_200, 0));
}

#[test]
fn leap_days_exist_only_in_leap_years() {
    assert_eq!(
        gps_utc_to_timestamp(label(2000, 2, 29, 12, 34, 56)),
        UtcTimestamp::new(951_827_696, 0)
    );
    assert_eq!(gps_utc_to_timestamp(label(2100, 2, 29, 0, 0, 0)), None);
    assert_eq!(gps_utc_to_timestamp(label(2023, 2, 29, 0, 0, 0)), None);
}

#[test]
fn labels_that_do_not_exist_are_refused() {
    assert_eq!(gps_utc_to_timestamp(label(2024, 13, 1, 0, 0, 0)), None);
    assert_eq!(gps_utc_to_timestamp(label(2024, 4, 31, 0, 0, 0)), None);
    assert_eq!(gps_utc_to_timestamp(label(1969, 12, 31, 0, 0, 0)), None);
    assert_eq!(gps_utc_to_timestamp(label(2024, 1, 1, 24, 0, 0)), None);
    assert_eq!(gps_utc_to_timestamp(label(2024, 1, 1, 0, 60, 0)), None);
    let mut dateless = label(2024, 1, 1, 0, 0, 0);
    dateless.date = None;
    assert_eq!(gps_utc_to_timestamp(dateless), None);
}

#[test]
fn later_labels_are_later_times() {
    let earlier = gps_utc_to_timestamp(label(2024, 2, 29, 23, 59, 59)).unwrap();
    let later = gps_utc_to_timestamp(label(2024, 3, 1, 0, 0, 0)).unwrap();
    assert_eq!(later.seconds - earlier.seconds, 1);
}

#[test]
fn the_next_day_has_the_next_number() {
    assert_eq!(days_from_civil(1970, 1, 1), 0);
    assert_eq!(days_from_civil(1970, 1, 2), 1);
    for (date, next) in [
        ((2024, 2, 28), (2024, 2, 29)),
        ((2024, 2, 29), (2024, 3, 1)),
        ((2100, 2, 28), (2100, 3, 1)),
        ((1999, 12, 31), (2000, 1, 1)),
        ((65_534, 12, 31), (65_535, 1, 1)),
    ] {
        let number = days_from_civil(date.0, date.1, date.2);
        assert_eq!(days_from_civil(next.0, next.1, next.2), number + 1);
    }
}
