//! What the logs of the field programs say.
use raylar_services::clock::{Duration, Instant};
use raylar_services::firmware::card_power::{
    heartbeat_lines, resumed_line, short_time_line, shutdown_line, started_line,
};
use raylar_services::firmware::report::{
    edge_news_line, location_line, reading_line, status_report, EdgeNews, LabelLogger, LabelNews,
    ReadingLogger, StatusInputs, StatusLog,
};
use raylar_services::firmware::status::{
    edge_line, edge_loss_line, power_line, signed_instant_delta_us, time_line, GpsStatus,
    PulseEdge,
};
use raylar_services::firmware::versions::{device_line, fact_line, identity_lines};
use raylar_services::location::types::{Coordinate, GpsFix, LocationSource, LocationState};
use raylar_services::power::types::{
    BatteryHealth, ChargeState, ChargerState, PowerSource, PowerState,
};
use raylar_services::sensors::types::{
    ReadingError, ReadingStatus, SensorDescriptor, SensorId, SensorKind, SensorOrigin,
    SensorReading, SensorSnapshot, SensorValue,
};
use raylar_services::time::gps::{
    PpsTimingSource, TimeCorrelation, UtcDate, UtcDateTime, UtcTime,
};
use raylar_services::time::types::{TimeSource, TimeState, UtcStatus, UtcTimestamp};
use raylar_services::versioning::types::{
    DeviceIdentity, DeviceUid, IdentityField, IdentityState, SdCardIdentity, Stm32DeviceCode,
};

fn power() -> PowerState {
    PowerState {
        source: PowerSource::Solar,
        battery_mv: 3_900,
        solar_mv: 5_100,
        ext_dc_mv: 0,
        charging: true,
        battery_percent: Some(71),
        health: BatteryHealth::Normal,
        charger: ChargerState { charging: true, state: ChargeState::FastCharge, fault: None },
    }
}

fn synchronized() -> TimeState {
    TimeState {
        utc_status: UtcStatus::Synchronized,
        reference_system_time: Instant::from_ticks(1_000_000),
        reference_utc: UtcTimestamp::new(1_700_000_000, 0).unwrap(),
        uncertainty_us: 110,
        last_anchor_residual_us: Some(-3),
        active_time_source: TimeSource::GpsPps,
        first_anchor_source: TimeSource::Other(7),
        accepted_anchors: 4,
        rejected_anchors: 1,
        calibrated_frequency_error_ppb: -250,
        ..TimeState::invalid()
    }
}

fn label() -> UtcDateTime {
    UtcDateTime {
        date: Some(UtcDate { year: 2024, month: 1, day: 2 }),
        time: UtcTime { hour: 3, minute: 4, second: 5 },
    }
}

fn fix() -> GpsFix {
    GpsFix {
        latitude: Coordinate { degrees_e7: -337_000_000 },
        longitude: Coordinate { degrees_e7: 183_000_000 },
        utc_time: label(),
        satellites: 9,
        hdop_centi: Some(110),
        system_timestamp: Instant::from_ticks(1_200_000),
    }
}

fn edge() -> PulseEdge {
    PulseEdge {
        pps_count: 12,
        timestamp: Instant::from_ticks(1_000_000),
        timing_source: PpsTimingSource::Tim4Capture,
        capture_ticks: Some(77),
        capture_delta_ticks: None,
        capture_frequency_hz: Some(16_000_000),
        delta_time: Some(Duration::from_ticks(999_998)),
    }
}

fn correlation() -> TimeCorrelation {
    TimeCorrelation {
        utc_time: label(),
        local_timestamp: Instant::from_ticks(1_300_000),
        pps_timestamp: Some(Instant::from_ticks(1_000_000)),
        pps_capture_ticks: Some(77),
        pps_capture_delta_ticks: None,
        pps_capture_frequency_hz: None,
        pps_timing_source: Some(PpsTimingSource::EmbassyInstant),
    }
}

fn gps() -> GpsStatus {
    GpsStatus {
        operating_state: "Tracking",
        powered: true,
        initial_calibration_complete: false,
        num_fixes: 5,
        num_checksum_errors: 1,
        num_uart_errors: 2,
        num_buffer_overflows: 3,
        num_reacquisition_attempts: 4,
        num_reacquisition_successes: 5,
        num_search_attempts: 6,
        num_search_failures: 7,
        num_pps_events: 8,
        last_pps_timing_source: None,
        num_pps_timeouts: 9,
        num_search_timeouts: 10,
    }
}

const POWER_TEXT: &str = "source=Solar batt=3900mV solar=5100mV ext_dc=0mV charging=true percent=Some(71) health=Normal charger_state=FastCharge charger_fault=None";

#[test]
fn power_lines_show_every_rail() {
    assert_eq!(power_line(&power(), "FastCharge", "None"), POWER_TEXT);
}

#[test]
fn clock_lines_show_utc_where_it_is_known() {
    assert_eq!(
        time_line(&synchronized(), Instant::from_ticks(3_500_000)),
        "UTC 1700000002 src=GpsPps first=Other(7) status=Synchronized map_ppb=0 cal_ppb=-250 cal_n=0 cal_lock=false slew_ppb=0 residual_us=Some(-3) uncertainty_us=110 holdover_us=0 holdover_warn=false anchors=4/1 utc_fix=0"
    );
    assert_eq!(
        time_line(&TimeState::invalid(), Instant::from_ticks(0)),
        "UTC unavailable src=None first=None status=Invalid map_ppb=0 cal_ppb=0 cal_n=0 cal_lock=false slew_ppb=0 residual_us=None uncertainty_us=18446744073709551615 holdover_us=0 holdover_warn=false anchors=0/0 utc_fix=0"
    );
}

#[test]
fn reports_compare_a_fix_and_a_pulse_only_where_both_are_there() {
    let mut inputs = StatusInputs {
        power: power(),
        charge: "FastCharge",
        fault: "None",
        time: synchronized(),
        utc_at: Instant::from_ticks(1_000_000),
        gps: gps(),
        pulse: Some(edge()),
        fix: Some(fix()),
        correlation: Some(correlation()),
        now: Instant::from_ticks(2_000_000),
    };
    let lines = status_report(&inputs);
    let logs: Vec<StatusLog> = lines.iter().map(|line| line.log).collect();
    assert_eq!(
        logs,
        [
            StatusLog::Power,
            StatusLog::Time,
            StatusLog::Time,
            StatusLog::Gps,
            StatusLog::Gps,
            StatusLog::Gps,
            StatusLog::Gps,
            StatusLog::Gps,
        ]
    );
    assert_eq!(lines[0].message, POWER_TEXT);
    assert_eq!(lines[2].message, "PPS_GATE active=false clean_intervals=0 gate_rejections=0");
    assert_eq!(
        lines[3].message,
        "state=Tracking powered=true calibrated=false fixes=5 checksum_err=1 uart_err=2 overflow=3 reacq=4/5 search=6/7 pps_events=8 pps_source=None pps_timeouts=9 search_timeouts=10"
    );
    assert_eq!(
        lines[4].message,
        "PPS count=12 age_us=1000000 source=Tim4Capture systime_us=1000000 capture_ticks=Some(77) delta_ticks=None capture_hz=Some(16000000) system_delta_us=Some(999998)"
    );
    assert_eq!(
        lines[5].message,
        "FIX count=5 age_us=800000 systime_us=1200000 utc=3:4:5 date=Some(UtcDate { year: 2024, month: 1, day: 2 }) sats=9 hdop_centi=Some(110)"
    );
    assert_eq!(
        lines[6].message,
        "PAIR latest_fix_minus_pps_us=200000 within_window=true fix_count=5 pps_count=12"
    );
    assert_eq!(
        lines[7].message,
        "CORR age_us=700000 nmea_systime_us=1300000 pps_systime_us=Some(1000000) offset_us=Some(300000) source=Some(EmbassyInstant) capture_ticks=Some(77) delta_ticks=None capture_hz=None"
    );

    inputs.pulse = None;
    inputs.correlation = None;
    let lines = status_report(&inputs);
    assert_eq!(lines.len(), 7);
    assert_eq!(lines[4].message, "PPS none received");
    assert_eq!(lines[6].message, "CORR none emitted");
    inputs.fix = None;
    assert_eq!(status_report(&inputs)[5].message, "FIX none received");
}

#[test]
fn a_late_fix_is_outside_the_window() {
    let mut late = fix();
    late.system_timestamp = Instant::from_ticks(1_750_001);
    let line = raylar_services::firmware::status::pair_line(&late, &edge(), 5);
    assert!(line.contains("pps_us=750001 within_window=false"));
    late.system_timestamp = Instant::from_ticks(999_999);
    let line = raylar_services::firmware::status::pair_line(&late, &edge(), 5);
    assert!(line.contains("pps_us=-1 within_window=false"));
}

#[test]
fn offsets_are_opposite() {
    let a = Instant::from_ticks(10);
    let b = Instant::from_ticks(25);
    assert_eq!(signed_instant_delta_us(b, a), 15);
    assert_eq!(signed_instant_delta_us(a, b), -15);
    let end = Instant::from_ticks(u64::MAX);
    assert_eq!(signed_instant_delta_us(end, Instant::from_ticks(0)), i64::MAX);
}

#[test]
fn pulses_and_labels_are_logged_one_by_one() {
    assert_eq!(
        edge_line(&edge()),
        "EDGE count=12 systime_us=1000000 source=Tim4Capture capture_ticks=Some(77) delta_ticks=None capture_hz=Some(16000000) system_delta_us=Some(999998)"
    );
    assert_eq!(edge_loss_line(3), "LOSS missed_edges=3");
    assert_eq!(edge_news_line(&EdgeNews::Edge(edge())), edge_line(&edge()));
    assert_eq!(edge_news_line(&EdgeNews::Missed(2)), "LOSS missed_edges=2");
    let mut logger = LabelLogger::new();
    assert_eq!(logger.line(&LabelNews::Missed(2)), "LOSS missed_correlations=2");
    assert_eq!(
        logger.line(&LabelNews::Label { pulse: Some(12), correlation: correlation() }),
        "PAIR seq=1 pps_count=Some(12) utc_date=Some(UtcDate { year: 2024, month: 1, day: 2 }) utc=3:4:5 nmea_us=1300000 pps_us=Some(1000000) offset_us=Some(300000) source=Some(EmbassyInstant) capture_ticks=Some(77) delta_ticks=None capture_hz=None"
    );
    assert_eq!(logger.heard, 1);
}

#[test]
fn positions_are_logged_with_their_age() {
    let state = LocationState {
        valid: true,
        latitude: Coordinate { degrees_e7: -5 },
        longitude: Coordinate { degrees_e7: 6 },
        source: LocationSource::Gps,
        fix_count_used: 3,
        total_fix_count_seen: 4,
        last_fix_system_time: Instant::from_ticks(10),
        last_fix_utc_time: Some(label()),
        hdop_centi: None,
        satellites: Some(8),
        uncertainty_meters: Some(12),
    };
    assert_eq!(
        location_line("acquired", &state, Instant::from_ticks(35)),
        "event=acquired valid=true source=Gps lat_e7=-5 lon_e7=6 fix_age_us=25 fixes_used=3 fixes_seen=4 sats=Some(8) hdop_centi=None uncertainty_m=Some(12) fix_utc=Some(UtcDateTime { date: Some(UtcDate { year: 2024, month: 1, day: 2 }), time: UtcTime { hour: 3, minute: 4, second: 5 } })"
    );
}

fn reading(id: u16, kind: SensorKind, value: Option<SensorValue>) -> SensorReading {
    SensorReading {
        descriptor: SensorDescriptor {
            id: SensorId(id),
            kind,
            origin: SensorOrigin::ExtensionBus(2),
        },
        value,
        status: if value.is_some() { ReadingStatus::Current } else { ReadingStatus::Fault },
        sequence: 4,
        last_attempt: Instant::from_ticks(99),
        last_success: None,
        consecutive_errors: 3,
        total_errors: 5,
        last_error: Some(ReadingError::Source(257)),
    }
}

#[test]
fn readings_are_logged_by_their_kind() {
    let acceleration = SensorValue::AccelerationMg { x: 1, y: -2, z: 3 };
    assert_eq!(
        reading_line(&reading(1, SensorKind::Acceleration, Some(acceleration))),
        "raw acceleration x_mg=1 y_mg=-2 z_mg=3 sample_ticks=99"
    );
    let field = SensorValue::MagneticFieldNt { x: 4, y: 5, z: -6 };
    assert_eq!(
        reading_line(&reading(2, SensorKind::MagneticField, Some(field))),
        "raw magnetic_field x_nt=4 y_nt=5 z_nt=-6 sample_ticks=99"
    );
    let warm = SensorValue::TemperatureMilliCelsius(-250);
    assert_eq!(
        reading_line(&reading(3, SensorKind::Temperature, Some(warm))),
        "die_temperature origin=ExtensionBus(2) milli_celsius=-250 sample_ticks=99"
    );
    assert_eq!(
        reading_line(&reading(3, SensorKind::Temperature, None)),
        "sample_failed id=3 origin=ExtensionBus(2) kind=Temperature status=Fault consecutive_errors=3 total_errors=5 last_error=Some(Source(257)) sample_ticks=99"
    );
}

#[test]
fn attempts_are_reported_once() {
    let warm = SensorValue::TemperatureMilliCelsius(1);
    let mut snapshot: SensorSnapshot<4> = SensorSnapshot::empty();
    snapshot.readings.push(reading(3, SensorKind::Temperature, Some(warm)));
    snapshot.readings.push(SensorReading::unavailable(SensorDescriptor {
        id: SensorId(4),
        kind: SensorKind::Temperature,
        origin: SensorOrigin::Lis2mdl,
    }));
    let mut logger = ReadingLogger::new(vec![SensorId(9), SensorId(4), SensorId(3)]);
    assert_eq!(logger.lines(&snapshot).len(), 1);
    assert!(logger.lines(&snapshot).is_empty());
    snapshot.readings[0].sequence += 1;
    snapshot.readings[1].total_errors += 1;
    let lines = logger.lines(&snapshot);
    assert!(lines[0].starts_with("sample_failed id=4 origin=Lis2mdl"));
    assert!(lines[1].starts_with("die_temperature"));
}

#[test]
fn devices_show_all_their_digits() {
    let device = DeviceIdentity {
        stm32_uid_96: IdentityField::Known(DeviceUid { word0: 0xAB, word1: 1, word2: u32::MAX }),
        serial_64: IdentityField::Known(0x0123_4567_89AB_CDEF),
        serial_48: IdentityField::Known(0x4567_89AB_CDEF),
        serial_32: IdentityField::Known(0xBEEF),
        serial_16: IdentityField::Known(0xF),
        stm32_device_code: IdentityField::Known(Stm32DeviceCode {
            family: "STM32U5",
            device: "quote\"d",
            package: None,
        }),
    };
    assert_eq!(
        device_line(&device),
        format!(
            "versioning device uuid={:08X}-{:08X}-{:08X} serial64={:016X} serial48={:012X} serial32={:08X} serial16={:04X} stm32={:?}",
            0xAB,
            1,
            u32::MAX,
            0x0123_4567_89AB_CDEFu64,
            0x4567_89AB_CDEFu64,
            0xBEEF,
            0xF,
            device.stm32_device_code
        )
    );
}

#[test]
fn unknown_devices_say_so() {
    let mut state = IdentityState::unknown();
    state.device.serial_64 = IdentityField::Known(7);
    state.hardware.board_revision = IdentityField::Known("v1.0");
    let mut card = SdCardIdentity::unknown();
    card.oem_id = IdentityField::Known([83, 68]);
    card.capacity_bytes = IdentityField::Known(1 << 40);
    state.hardware.sd_card = IdentityField::Known(card);
    state.hardware.gps_module = IdentityField::Unavailable;
    let lines = identity_lines(&state);
    assert_eq!(
        lines[0],
        "versioning device uid=Unknown serial64=Known(7) serial48=Unknown serial32=Unknown serial16=Unknown stm32=Unknown"
    );
    assert_eq!(
        lines[1],
        "versioning firmware version=Unknown git_hash=Unknown build_timestamp=Unknown profile=Unknown runtime_crc32=Unknown build_crc32=Unknown"
    );
    assert_eq!(lines[2], "versioning board_revision=Known(\"v1.0\")");
    assert_eq!(lines[3], format!("versioning sd_card={:?}", state.hardware.sd_card));
    assert_eq!(lines[4], "versioning gps_module=Unavailable");
    assert_eq!(lines[5], "versioning radio_module=Unknown");
    assert_eq!(fact_line(IdentityField::Known("x".to_string())), "Known(x)");
}

#[test]
fn the_power_monitor_says_when_the_card_goes() {
    assert_eq!(
        started_line(),
        "integration001 powermonitorlog started; SD SOC threshold=40"
    );
    assert_eq!(
        resumed_line(&power()),
        "battery recovered: batt=3900mV percent=Some(71); SD logging resumed"
    );
    assert_eq!(
        shutdown_line(&PowerState::unknown()),
        "battery below SD threshold: batt=0mV percent=None threshold=40; shutting down SD card"
    );
    assert_eq!(
        short_time_line(&synchronized(), Instant::from_ticks(1_000_000)),
        "UTC 1700000000 GPS ON valid=true source=GpsPps uncertainty_us=110"
    );
    assert_eq!(
        short_time_line(&TimeState::invalid(), Instant::from_ticks(0)),
        "UTC unavailable GPS ON valid=false source=None uncertainty_us=18446744073709551615"
    );
    let at = Instant::from_ticks(0);
    assert!(heartbeat_lines(false, &power(), "", "", &synchronized(), at).is_none());
    let lines =
        heartbeat_lines(true, &power(), "FastCharge", "None", &synchronized(), at).unwrap();
    assert_eq!(lines.0, POWER_TEXT);
}
