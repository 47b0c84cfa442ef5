//! Laws on the lines of the logs: each value stands behind its own word.
use crate::clock::Instant;
use crate::firmware::card_power;
use crate::firmware::forwarder;
use crate::firmware::forwarder::Forwarder;
use crate::firmware::labels;
use crate::firmware::report;
use crate::firmware::status;
use crate::firmware::status::{GpsStatus, PulseEdge};
use crate::firmware::words;
use crate::firmware::words::{wide_u16, wide_u32, wide_u8};
use crate::location::types::{GpsFix, LocationSource, LocationState};
use crate::power::types::{BatteryHealth, PowerSource, PowerState};
use crate::sensors::types::{
    ReadingError, ReadingStatus, SensorKind, SensorOrigin, SensorReading, SensorValue,
};
use crate::text;
use crate::time::gps::{PpsTimingSource, TimeCorrelation, UtcDate, UtcTime};
use crate::time::types::{TimeSource, TimeState, UtcStatus};
use vstd::prelude::*;

verus! {

/// Whether a value stands behind a word in a line.
pub open spec fn tells(line: Seq<char>, word: Seq<char>, value: Seq<char>) -> bool {
    exists|before: Seq<char>, after: Seq<char>| line == #[trigger] (before + (word + value) + after)
}

/// A line that starts with a word and its value.
pub proof fn beginning_with(word: Seq<char>, value: Seq<char>) -> (line: Seq<char>)
    ensures
        line == word + value,
        tells(line, word, value),
{
    let none = Seq::<char>::empty();
    assert(word + value =~= none + (word + value) + none);
    word + value
}

/// A line with one more word and its value behind it, which still tells what it told.
pub proof fn followed_by(front: Seq<char>, word: Seq<char>, value: Seq<char>) -> (line: Seq<char>)
    ensures
        line == front + word + value,
        tells(line, word, value),
        forall|w: Seq<char>, v: Seq<char>| tells(front, w, v) ==> #[trigger] tells(line, w, v),
{
    let none = Seq::<char>::empty();
    let line = front + word + value;
    assert(line =~= front + (word + value) + none);
    let longer = ended_by(front, word + value);
    assert(line =~= longer);
    line
}

/// A line with some text behind it, which still tells what it told.
pub proof fn ended_by(front: Seq<char>, part: Seq<char>) -> (line: Seq<char>)
    ensures
        line == front + part,
        forall|w: Seq<char>, v: Seq<char>| tells(front, w, v) ==> #[trigger] tells(line, w, v),
{
    let line = front + part;
    assert forall|w: Seq<char>, v: Seq<char>| tells(front, w, v) implies #[trigger] tells(
        line,
        w,
        v,
    ) by {
        let (before, after) = choose|before: Seq<char>, after: Seq<char>|
            front == #[trigger] (before + (w + v) + after);
        assert(line =~= before + (w + v) + (after + part));
    }
    line
}

/// Texts can be put together in any order.
pub proof fn lemma_regrouped(front: Seq<char>, a: Seq<char>, b: Seq<char>, c: Seq<char>)
    ensures
        front + a + b + c == front + (a + b + c),
{
    assert(front + a + b + c =~= front + (a + b + c));
}

// ---- words -----------------------------------------------------------------

/// A number that is there is told in brackets, and one that is missing as such.
pub proof fn law_missing_values_say_so(value: u64, signed: i64)
    ensures
        words::maybe(Some(value)) == "Some("@ + text::decimal(value as nat) + ")"@,
        words::maybe(None) == "None"@,
        words::maybe_signed(Some(signed)) == "Some("@ + text::signed_decimal(signed as int) + ")"@,
        words::maybe_signed(None) == "None"@,
        words::number(signed as int) == text::signed_decimal(signed as int),
        words::flag(true) == "true"@,
        words::flag(false) == "false"@,
{
}

/// Sources, conditions and origins are told by their own names.
pub proof fn law_names_are_told(value: u8, code: u16)
    ensures
        labels::power_source(PowerSource::Battery) == "Battery"@,
        labels::power_source(PowerSource::Solar) == "Solar"@,
        labels::power_source(PowerSource::ExternalDc) == "ExternalDc"@,
        labels::power_source(PowerSource::Usb) == "Usb"@,
        labels::power_source(PowerSource::Unknown) == "Unknown"@,
        labels::battery_health(BatteryHealth::Normal) == "Normal"@,
        labels::battery_health(BatteryHealth::Low) == "Low"@,
        labels::battery_health(BatteryHealth::Critical) == "Critical"@,
        labels::time_source(TimeSource::NoSource) == "None"@,
        labels::time_source(TimeSource::GpsNmea) == "GpsNmea"@,
        labels::time_source(TimeSource::GpsPps) == "GpsPps"@,
        labels::time_source(TimeSource::Radio) == "Radio"@,
        labels::time_source(TimeSource::Usb) == "Usb"@,
        labels::time_source(TimeSource::Network) == "Network"@,
        labels::time_source(TimeSource::Laboratory) == "Laboratory"@,
        labels::time_source(TimeSource::Other(value)) == "Other"@ + "("@ + text::signed_decimal(
            value as int,
        ) + ")"@,
        labels::utc_status(UtcStatus::Invalid) == "Invalid"@,
        labels::utc_status(UtcStatus::Degraded) == "Degraded"@,
        labels::utc_status(UtcStatus::Synchronized) == "Synchronized"@,
        labels::pulse_source(PpsTimingSource::EmbassyInstant) == "EmbassyInstant"@,
        labels::pulse_source(PpsTimingSource::Tim4Capture) == "Tim4Capture"@,
        labels::location_source(LocationSource::NoSource) == "None"@,
        labels::location_source(LocationSource::Gps) == "Gps"@,
        labels::location_source(LocationSource::Manual) == "Manual"@,
        labels::location_source(LocationSource::FutureExternal) == "FutureExternal"@,
        labels::reading_status(ReadingStatus::Unavailable) == "Unavailable"@,
        labels::reading_status(ReadingStatus::Current) == "Current"@,
        labels::reading_status(ReadingStatus::Stale) == "Stale"@,
        labels::reading_status(ReadingStatus::Fault) == "Fault"@,
        labels::reading_error(ReadingError::Source(code)) == "Source"@ + "("@
            + text::signed_decimal(code as int) + ")"@,
        labels::reading_error(ReadingError::IncompatibleValue) == "IncompatibleValue"@,
        labels::reading_error(ReadingError::CompositeInputUnavailable)
            == "CompositeInputUnavailable"@,
{
}

/// Sensors are told by their own names.
pub proof fn law_sensor_names_are_told(bus: u8, value: u16)
    ensures
        labels::sensor_kind(SensorKind::Acceleration) == "Acceleration"@,
        labels::sensor_kind(SensorKind::MagneticField) == "MagneticField"@,
        labels::sensor_kind(SensorKind::Temperature) == "Temperature"@,
        labels::sensor_kind(SensorKind::Tilt) == "Tilt"@,
        labels::sensor_kind(SensorKind::Heading) == "Heading"@,
        labels::sensor_kind(SensorKind::TiltCompensatedHeading) == "TiltCompensatedHeading"@,
        labels::sensor_kind(SensorKind::Vedba) == "Vedba"@,
        labels::sensor_kind(SensorKind::Odba) == "Odba"@,
        labels::sensor_origin(SensorOrigin::Lis2hh12) == "Lis2hh12"@,
        labels::sensor_origin(SensorOrigin::Lis2mdl) == "Lis2mdl"@,
        labels::sensor_origin(SensorOrigin::Stm32Core) == "Stm32Core"@,
        labels::sensor_origin(SensorOrigin::Radio) == "Radio"@,
        labels::sensor_origin(SensorOrigin::ExtensionBus(bus)) == "ExtensionBus"@ + "("@
            + text::signed_decimal(bus as int) + ")"@,
        labels::sensor_origin(SensorOrigin::Composite) == "Composite"@,
        labels::sensor_origin(SensorOrigin::Other(value)) == "Other"@ + "("@
            + text::signed_decimal(value as int) + ")"@,
{
}

/// A date tells its year, its month and its day.
pub proof fn law_dates_tell_year_month_and_day(value: UtcDate)
    ensures
        ({
            let line = labels::date(value);
            &&& tells(line, "UtcDate { year: "@, words::number(value.year as int))
            &&& tells(line, ", month: "@, words::number(value.month as int))
            &&& tells(line, ", day: "@, words::number(value.day as int))
        }),
{
    let line = beginning_with("UtcDate { year: "@, words::number(value.year as int));
    let line = followed_by(line, ", month: "@, words::number(value.month as int));
    let line = followed_by(line, ", day: "@, words::number(value.day as int));
    let line = ended_by(line, " }"@);
    assert(line == labels::date(value));
}

/// A time of day tells its hour, its minute and its second.
pub proof fn law_times_tell_hour_minute_and_second(value: UtcTime)
    ensures
        ({
            let line = labels::time_of_day(value);
            &&& tells(line, "UtcTime { hour: "@, words::number(value.hour as int))
            &&& tells(line, ", minute: "@, words::number(value.minute as int))
            &&& tells(line, ", second: "@, words::number(value.second as int))
        }),
{
    let line = beginning_with("UtcTime { hour: "@, words::number(value.hour as int));
    let line = followed_by(line, ", minute: "@, words::number(value.minute as int));
    let line = followed_by(line, ", second: "@, words::number(value.second as int));
    let line = ended_by(line, " }"@);
    assert(line == labels::time_of_day(value));
}

// ---- lines -----------------------------------------------------------------

/// The power line tells every rail, the charge and the condition of the battery, and
/// the charger, each behind its own word.
pub proof fn law_power_line_tells_the_power(power: PowerState, charge: Seq<char>, fault: Seq<char>)
    ensures
        ({
            let line = status::power_text(power, charge, fault);
            &&& tells(line, "source="@, labels::power_source(power.source))
            &&& tells(line, " batt="@, words::number(power.battery_mv as int))
            &&& tells(line, "mV solar="@, words::number(power.solar_mv as int))
            &&& tells(line, "mV ext_dc="@, words::number(power.ext_dc_mv as int))
            &&& tells(line, "mV charging="@, words::flag(power.charging))
            &&& tells(line, " percent="@, words::maybe(wide_u8(power.battery_percent)))
            &&& tells(line, " health="@, labels::battery_health(power.health))
            &&& tells(line, " charger_state="@, charge)
            &&& tells(line, " charger_fault="@, fault)
        }),
{
    let line = beginning_with("source="@, labels::power_source(power.source));
    let line = followed_by(line, " batt="@, words::number(power.battery_mv as int));
    let line = followed_by(line, "mV solar="@, words::number(power.solar_mv as int));
    let line = followed_by(line, "mV ext_dc="@, words::number(power.ext_dc_mv as int));
    let line = followed_by(line, "mV charging="@, words::flag(power.charging));
    let line = followed_by(line, " percent="@, words::maybe(wide_u8(power.battery_percent)));
    let line = followed_by(line, " health="@, labels::battery_health(power.health));
    let line = followed_by(line, " charger_state="@, charge);
    let line = followed_by(line, " charger_fault="@, fault);
    assert(line == status::power_text(power, charge, fault));
}

/// The clock line tells the sources, the trust, the rates, the samples, the residual,
/// the uncertainty, the free run and the counts of anchors, each behind its own word.
pub proof fn law_time_line_tells_the_clock(time: TimeState, at: Instant)
    ensures
        ({
            let line = status::time_text(time, at);
            let source = labels::time_source(time.active_time_source);
            &&& match status::utc_seconds(time, at) {
                Some(seconds) => tells(line, "UTC "@, words::number(seconds as int)) && tells(
                    line,
                    " src="@,
                    source,
                ),
                None => tells(line, "UTC unavailable src="@, source),
            }
            &&& tells(line, " first="@, labels::time_source(time.first_anchor_source))
            &&& tells(line, " status="@, labels::utc_status(time.utc_status))
            &&& tells(line, " map_ppb="@, words::number(time.estimated_frequency_error_ppb as int))
            &&& tells(line, " cal_ppb="@, words::number(time.calibrated_frequency_error_ppb as int))
            &&& tells(line, " cal_n="@, words::number(time.frequency_calibration_samples as int))
            &&& tells(line, " cal_lock="@, words::flag(time.frequency_calibration_locked))
            &&& tells(line, " slew_ppb="@, words::number(time.phase_slew_ppb as int))
            &&& tells(line, " residual_us="@, words::maybe_signed(time.last_anchor_residual_us))
            &&& tells(line, " uncertainty_us="@, words::number(time.uncertainty_us as int))
            &&& tells(line, " holdover_us="@, words::number(time.holdover_duration.ticks as int))
            &&& tells(line, " holdover_warn="@, words::flag(time.holdover_warning))
            &&& tells(
                line,
                " anchors="@,
                words::number(time.accepted_anchors as int)
                    + "/"@ + words::number(time.rejected_anchors as int),
            )
            &&& tells(line, " utc_fix="@, words::number(time.utc_second_corrections as int))
        }),
{
    let source = labels::time_source(time.active_time_source);
    let line = match status::utc_seconds(time, at) {
        Some(seconds) => {
            let start = beginning_with("UTC "@, words::number(seconds as int));
            followed_by(start, " src="@, source)
        },
        None => beginning_with("UTC unavailable src="@, source),
    };
    let line = followed_by(line, " first="@, labels::time_source(time.first_anchor_source));
    let line = followed_by(line, " status="@, labels::utc_status(time.utc_status));
    let line = followed_by(
        line,
        " map_ppb="@,
        words::number(time.estimated_frequency_error_ppb as int),
    );
    let line = followed_by(
        line,
        " cal_ppb="@,
        words::number(time.calibrated_frequency_error_ppb as int),
    );
    let line = followed_by(
        line,
        " cal_n="@,
        words::number(time.frequency_calibration_samples as int),
    );
    let line = followed_by(line, " cal_lock="@, words::flag(time.frequency_calibration_locked));
    let line = followed_by(line, " slew_ppb="@, words::number(time.phase_slew_ppb as int));
    let line = followed_by(
        line,
        " residual_us="@,
        words::maybe_signed(time.last_anchor_residual_us),
    );
    let line = followed_by(line, " uncertainty_us="@, words::number(time.uncertainty_us as int));
    let line = followed_by(
        line,
        " holdover_us="@,
        words::number(status::micros_of(time.holdover_duration@)),
    );
    let line = followed_by(line, " holdover_warn="@, words::flag(time.holdover_warning));
    lemma_regrouped(
        line + " anchors="@,
        words::number(time.accepted_anchors as int),
        "/"@,
        words::number(time.rejected_anchors as int),
    );
    let line = followed_by(
        line,
        " anchors="@,
        words::number(time.accepted_anchors as int)
            + "/"@ + words::number(time.rejected_anchors as int),
    );
    let line = followed_by(line, " utc_fix="@, words::number(time.utc_second_corrections as int));
    assert(line == status::time_text(time, at));
}

/// The line on lost pulses tells whether they are being recovered from, how many clean
/// intervals have come, and how many were refused.
pub proof fn law_barrier_line_tells_the_reacquisition(time: TimeState)
    ensures
        ({
            let line = status::gate_text(time);
            &&& tells(line, "PPS_GATE active="@, words::flag(time.pps_reacquisition_active))
            &&& tells(
                line,
                " clean_intervals="@,
                words::number(time.pps_reacquisition_clean_intervals as int),
            )
            &&& tells(
                line,
                " gate_rejections="@,
                words::number(time.pps_reacquisition_rejections as int),
            )
        }),
{
    let line = beginning_with("PPS_GATE active="@, words::flag(time.pps_reacquisition_active));
    let line = followed_by(
        line,
        " clean_intervals="@,
        words::number(time.pps_reacquisition_clean_intervals as int),
    );
    let line = followed_by(
        line,
        " gate_rejections="@,
        words::number(time.pps_reacquisition_rejections as int),
    );
    assert(line == status::gate_text(time));
}

/// The receiver line tells every counter behind its own word.
pub proof fn law_receiver_line_tells_its_counters(gps: GpsStatus)
    ensures
        ({
            let line = status::gps_text(gps);
            &&& tells(line, "state="@, gps.operating_state@)
            &&& tells(line, " powered="@, words::flag(gps.powered))
            &&& tells(line, " calibrated="@, words::flag(gps.initial_calibration_complete))
            &&& tells(line, " fixes="@, words::number(gps.num_fixes as int))
            &&& tells(line, " checksum_err="@, words::number(gps.num_checksum_errors as int))
            &&& tells(line, " uart_err="@, words::number(gps.num_uart_errors as int))
            &&& tells(line, " overflow="@, words::number(gps.num_buffer_overflows as int))
            &&& tells(
                line,
                " reacq="@,
                words::number(gps.num_reacquisition_attempts as int)
                    + "/"@ + words::number(gps.num_reacquisition_successes as int),
            )
            &&& tells(
                line,
                " search="@,
                words::number(gps.num_search_attempts as int)
                    + "/"@ + words::number(gps.num_search_failures as int),
            )
            &&& tells(line, " pps_events="@, words::number(gps.num_pps_events as int))
            &&& tells(line, " pps_source="@, labels::maybe_pulse_source(gps.last_pps_timing_source))
            &&& tells(line, " pps_timeouts="@, words::number(gps.num_pps_timeouts as int))
            &&& tells(line, " search_timeouts="@, words::number(gps.num_search_timeouts as int))
        }),
{
    let line = beginning_with("state="@, gps.operating_state@);
    let line = followed_by(line, " powered="@, words::flag(gps.powered));
    let line = followed_by(line, " calibrated="@, words::flag(gps.initial_calibration_complete));
    let line = followed_by(line, " fixes="@, words::number(gps.num_fixes as int));
    let line = followed_by(line, " checksum_err="@, words::number(gps.num_checksum_errors as int));
    let line = followed_by(line, " uart_err="@, words::number(gps.num_uart_errors as int));
    let line = followed_by(line, " overflow="@, words::number(gps.num_buffer_overflows as int));
    lemma_regrouped(
        line + " reacq="@,
        words::number(gps.num_reacquisition_attempts as int),
        "/"@,
        words::number(gps.num_reacquisition_successes as int),
    );
    let line = followed_by(
        line,
        " reacq="@,
        words::number(gps.num_reacquisition_attempts as int)
            + "/"@ + words::number(gps.num_reacquisition_successes as int),
    );
    lemma_regrouped(
        line + " search="@,
        words::number(gps.num_search_attempts as int),
        "/"@,
        words::number(gps.num_search_failures as int),
    );
    let line = followed_by(
        line,
        " search="@,
        words::number(gps.num_search_attempts as int)
            + "/"@ + words::number(gps.num_search_failures as int),
    );
    let line = followed_by(line, " pps_events="@, words::number(gps.num_pps_events as int));
    let line = followed_by(
        line,
        " pps_source="@,
        labels::maybe_pulse_source(gps.last_pps_timing_source),
    );
    let line = followed_by(line, " pps_timeouts="@, words::number(gps.num_pps_timeouts as int));
    let line = followed_by(
        line,
        " search_timeouts="@,
        words::number(gps.num_search_timeouts as int),
    );
    assert(line == status::gps_text(gps));
}

/// The end of a pulse line tells what the capture unit counted.
pub proof fn law_edge_end_tells_the_capture(edge: PulseEdge)
    ensures
        ({
            let line = status::edge_tail(edge);
            &&& tells(line, " capture_ticks="@, words::maybe(edge.capture_ticks))
            &&& tells(line, " delta_ticks="@, words::maybe(edge.capture_delta_ticks))
            &&& tells(line, " capture_hz="@, words::maybe(wide_u32(edge.capture_frequency_hz)))
            &&& tells(
                line,
                " system_delta_us="@,
                words::maybe(status::duration_us(edge.delta_time)),
            )
        }),
{
    let line = beginning_with(" capture_ticks="@, words::maybe(edge.capture_ticks));
    let line = followed_by(line, " delta_ticks="@, words::maybe(edge.capture_delta_ticks));
    let line = followed_by(
        line,
        " capture_hz="@,
        words::maybe(wide_u32(edge.capture_frequency_hz)),
    );
    let line = followed_by(
        line,
        " system_delta_us="@,
        words::maybe(status::duration_us(edge.delta_time)),
    );
    assert(line == status::edge_tail(edge));
}

/// The line on the latest pulse tells its number, its age, its origin and its instant.
pub proof fn law_pulse_line_tells_the_latest_pulse(edge: PulseEdge, now: Instant)
    ensures
        ({
            let line = status::pulse_text(Some(edge), now);
            &&& tells(line, "PPS count="@, words::number(edge.pps_count as int))
            &&& tells(line, " age_us="@, words::number(status::age_us(edge.timestamp, now)))
            &&& tells(line, " source="@, labels::pulse_source(edge.timing_source))
            &&& tells(line, " systime_us="@, words::number(edge.timestamp.ticks as int))
        }),
{
    let line = beginning_with("PPS count="@, words::number(edge.pps_count as int));
    let line = followed_by(line, " age_us="@, words::number(status::age_us(edge.timestamp, now)));
    let line = followed_by(line, " source="@, labels::pulse_source(edge.timing_source));
    let line = followed_by(
        line,
        " systime_us="@,
        words::number(status::micros_of(edge.timestamp@)),
    );
    let line = ended_by(line, status::edge_tail(edge));
    assert(line == status::pulse_text(Some(edge), now));
}

/// The line on an edge tells its number, its instant and its origin.
pub proof fn law_edge_line_tells_the_edge(edge: PulseEdge)
    ensures
        ({
            let line = status::edge_text(edge);
            &&& tells(line, "EDGE count="@, words::number(edge.pps_count as int))
            &&& tells(line, " systime_us="@, words::number(edge.timestamp.ticks as int))
            &&& tells(line, " source="@, labels::pulse_source(edge.timing_source))
        }),
{
    let line = beginning_with("EDGE count="@, words::number(edge.pps_count as int));
    let line = followed_by(
        line,
        " systime_us="@,
        words::number(status::micros_of(edge.timestamp@)),
    );
    let line = followed_by(line, " source="@, labels::pulse_source(edge.timing_source));
    let line = ended_by(line, status::edge_tail(edge));
    assert(line == status::edge_text(edge));
}

/// The line on the latest fix tells their number, its age, its instant, its label, its
/// satellites and its dilution.
pub proof fn law_fix_line_tells_the_fix(fix: GpsFix, fixes: u64, now: Instant)
    ensures
        ({
            let line = status::fix_text(Some(fix), fixes, now);
            &&& tells(line, "FIX count="@, words::number(fixes as int))
            &&& tells(line, " age_us="@, words::number(status::age_us(fix.system_timestamp, now)))
            &&& tells(line, " systime_us="@, words::number(fix.system_timestamp.ticks as int))
            &&& tells(
                line,
                " utc="@,
                words::number(fix.utc_time.time.hour as int)
                    + ":"@ + words::number(fix.utc_time.time.minute as int)
                    + ":"@ + words::number(fix.utc_time.time.second as int),
            )
            &&& tells(line, " date="@, labels::maybe_date(fix.utc_time.date))
            &&& tells(line, " sats="@, words::number(fix.satellites as int))
            &&& tells(line, " hdop_centi="@, words::maybe(wide_u16(fix.hdop_centi)))
        }),
{
    let line = beginning_with("FIX count="@, words::number(fixes as int));
    let line = followed_by(
        line,
        " age_us="@,
        words::number(status::age_us(fix.system_timestamp, now)),
    );
    let line = followed_by(
        line,
        " systime_us="@,
        words::number(status::micros_of(fix.system_timestamp@)),
    );
    lemma_regrouped(
        line + " utc="@,
        words::number(fix.utc_time.time.hour as int),
        ":"@,
        words::number(fix.utc_time.time.minute as int),
    );
    lemma_regrouped(
        line + " utc="@,
        words::number(fix.utc_time.time.hour as int)
            + ":"@ + words::number(fix.utc_time.time.minute as int),
        ":"@,
        words::number(fix.utc_time.time.second as int),
    );
    let line = followed_by(
        line,
        " utc="@,
        words::number(fix.utc_time.time.hour as int)
            + ":"@ + words::number(fix.utc_time.time.minute as int)
            + ":"@ + words::number(fix.utc_time.time.second as int),
    );
    let line = followed_by(line, " date="@, labels::maybe_date(fix.utc_time.date));
    let line = followed_by(line, " sats="@, words::number(fix.satellites as int));
    let line = followed_by(line, " hdop_centi="@, words::maybe(wide_u16(fix.hdop_centi)));
    assert(line == status::fix_text(Some(fix), fixes, now));
}

/// The line on a fix and a pulse tells how far the fix follows the pulse, and whether
/// that is no more than three quarters of a second.
pub proof fn law_pair_line_tells_the_offset(fix: GpsFix, edge: PulseEdge, fixes: u64, offset: int)
    requires
        offset == status::signed_delta(fix.system_timestamp, edge.timestamp),
    ensures
        ({
            let line = status::pair_text(fix, edge, fixes);
            &&& tells(line, "PAIR latest_fix_minus_pps_us="@, words::number(offset))
            &&& tells(line, " within_window="@, words::flag(0 <= offset <= 750_000))
            &&& tells(line, " fix_count="@, words::number(fixes as int))
            &&& tells(line, " pps_count="@, words::number(edge.pps_count as int))
        }),
{
    let line = beginning_with("PAIR latest_fix_minus_pps_us="@, words::number(offset));
    let line = followed_by(
        line,
        " within_window="@,
        words::flag(0 <= offset <= status::PAIR_WINDOW_US),
    );
    let line = followed_by(line, " fix_count="@, words::number(fixes as int));
    let line = followed_by(line, " pps_count="@, words::number(edge.pps_count as int));
    assert(line == status::pair_text(fix, edge, fixes));
}

/// The end of a label line tells how far the label follows its pulse, and what the
/// capture unit counted.
pub proof fn law_label_end_tells_the_pulse(correlation: TimeCorrelation)
    ensures
        ({
            let line = status::label_tail(correlation);
            &&& tells(line, " offset_us="@, words::maybe_signed(status::label_offset(correlation)))
            &&& tells(line, " source="@, labels::maybe_pulse_source(correlation.pps_timing_source))
            &&& tells(line, " capture_ticks="@, words::maybe(correlation.pps_capture_ticks))
            &&& tells(line, " delta_ticks="@, words::maybe(correlation.pps_capture_delta_ticks))
            &&& tells(
                line,
                " capture_hz="@,
                words::maybe(wide_u32(correlation.pps_capture_frequency_hz)),
            )
        }),
{
    let line = words::maybe(status::instant_us(correlation.pps_timestamp));
    let line = followed_by(
        line,
        " offset_us="@,
        words::maybe_signed(status::label_offset(correlation)),
    );
    let line = followed_by(
        line,
        " source="@,
        labels::maybe_pulse_source(correlation.pps_timing_source),
    );
    let line = followed_by(line, " capture_ticks="@, words::maybe(correlation.pps_capture_ticks));
    let line = followed_by(
        line,
        " delta_ticks="@,
        words::maybe(correlation.pps_capture_delta_ticks),
    );
    let line = followed_by(
        line,
        " capture_hz="@,
        words::maybe(wide_u32(correlation.pps_capture_frequency_hz)),
    );
    assert(line == status::label_tail(correlation));
}

/// The line on the latest label tells its age, its instant, and then its pulse.
pub proof fn law_latest_label_line_tells_the_label(correlation: TimeCorrelation, now: Instant)
    ensures
        ({
            let line = status::latest_label_text(Some(correlation), now);
            &&& tells(
                line,
                "CORR age_us="@,
                words::number(status::age_us(correlation.local_timestamp, now)),
            )
            &&& tells(
                line,
                " nmea_systime_us="@,
                words::number(correlation.local_timestamp.ticks as int),
            )
            &&& tells(line, " pps_systime_us="@, status::label_tail(correlation))
        }),
{
    let line = beginning_with(
        "CORR age_us="@,
        words::number(status::age_us(correlation.local_timestamp, now)),
    );
    let line = followed_by(
        line,
        " nmea_systime_us="@,
        words::number(status::micros_of(correlation.local_timestamp@)),
    );
    let line = followed_by(line, " pps_systime_us="@, status::label_tail(correlation));
    assert(line == status::latest_label_text(Some(correlation), now));
}

/// The line on a label tells its number, the number of its pulse, its date and time,
/// and its instant.
pub proof fn law_label_line_tells_the_label(
    sequence: u64,
    pulse: Option<u64>,
    correlation: TimeCorrelation,
)
    ensures
        ({
            let line = status::label_text(sequence, pulse, correlation);
            &&& tells(line, "PAIR seq="@, words::number(sequence as int))
            &&& tells(line, " pps_count="@, words::maybe(pulse))
            &&& tells(line, " utc_date="@, labels::maybe_date(correlation.utc_time.date))
            &&& tells(
                line,
                " utc="@,
                words::number(correlation.utc_time.time.hour as int)
                    + ":"@ + words::number(correlation.utc_time.time.minute as int)
                    + ":"@ + words::number(correlation.utc_time.time.second as int),
            )
            &&& tells(line, " nmea_us="@, words::number(correlation.local_timestamp.ticks as int))
            &&& tells(line, " pps_us="@, status::label_tail(correlation))
        }),
{
    let line = beginning_with("PAIR seq="@, words::number(sequence as int));
    let line = followed_by(line, " pps_count="@, words::maybe(pulse));
    let line = followed_by(line, " utc_date="@, labels::maybe_date(correlation.utc_time.date));
    lemma_regrouped(
        line + " utc="@,
        words::number(correlation.utc_time.time.hour as int),
        ":"@,
        words::number(correlation.utc_time.time.minute as int),
    );
    lemma_regrouped(
        line + " utc="@,
        words::number(correlation.utc_time.time.hour as int)
            + ":"@ + words::number(correlation.utc_time.time.minute as int),
        ":"@,
        words::number(correlation.utc_time.time.second as int),
    );
    let line = followed_by(
        line,
        " utc="@,
        words::number(correlation.utc_time.time.hour as int)
            + ":"@ + words::number(correlation.utc_time.time.minute as int)
            + ":"@ + words::number(correlation.utc_time.time.second as int),
    );
    let line = followed_by(
        line,
        " nmea_us="@,
        words::number(status::micros_of(correlation.local_timestamp@)),
    );
    let line = followed_by(line, " pps_us="@, status::label_tail(correlation));
    assert(line == status::label_text(sequence, pulse, correlation));
}

/// The line on a position tells where it is, how it was found, and how good it is,
/// each behind its own word.
pub proof fn law_position_line_tells_the_position(
    event: Seq<char>,
    state: LocationState,
    now: Instant,
)
    ensures
        ({
            let line = report::location_text(event, state, now);
            &&& tells(line, "event="@, event)
            &&& tells(line, " valid="@, words::flag(state.valid))
            &&& tells(line, " source="@, labels::location_source(state.source))
            &&& tells(line, " lat_e7="@, words::number(state.latitude.degrees_e7 as int))
            &&& tells(line, " lon_e7="@, words::number(state.longitude.degrees_e7 as int))
            &&& tells(
                line,
                " fix_age_us="@,
                words::number(status::age_us(state.last_fix_system_time, now)),
            )
            &&& tells(line, " fixes_used="@, words::number(state.fix_count_used as int))
            &&& tells(line, " fixes_seen="@, words::number(state.total_fix_count_seen as int))
            &&& tells(line, " sats="@, words::maybe(wide_u8(state.satellites)))
            &&& tells(line, " hdop_centi="@, words::maybe(wide_u16(state.hdop_centi)))
            &&& tells(line, " uncertainty_m="@, words::maybe(wide_u32(state.uncertainty_meters)))
            &&& tells(line, " fix_utc="@, labels::maybe_date_time(state.last_fix_utc_time))
        }),
{
    let line = beginning_with("event="@, event);
    let line = followed_by(line, " valid="@, words::flag(state.valid));
    let line = followed_by(line, " source="@, labels::location_source(state.source));
    let line = followed_by(line, " lat_e7="@, words::number(state.latitude.degrees_e7 as int));
    let line = followed_by(line, " lon_e7="@, words::number(state.longitude.degrees_e7 as int));
    let line = followed_by(
        line,
        " fix_age_us="@,
        words::number(status::age_us(state.last_fix_system_time, now)),
    );
    let line = followed_by(line, " fixes_used="@, words::number(state.fix_count_used as int));
    let line = followed_by(line, " fixes_seen="@, words::number(state.total_fix_count_seen as int));
    let line = followed_by(line, " sats="@, words::maybe(wide_u8(state.satellites)));
    let line = followed_by(line, " hdop_centi="@, words::maybe(wide_u16(state.hdop_centi)));
    let line = followed_by(
        line,
        " uncertainty_m="@,
        words::maybe(wide_u32(state.uncertainty_meters)),
    );
    let line = followed_by(line, " fix_utc="@, labels::maybe_date_time(state.last_fix_utc_time));
    assert(line == report::location_text(event, state, now));
}

/// The line on a failure tells the sensor, its condition and its errors.
pub proof fn law_failure_line_tells_the_sensor(reading: SensorReading)
    ensures
        ({
            let line = report::failure_text(reading);
            &&& tells(line, "sample_failed id="@, words::number(reading.descriptor.id.0 as int))
            &&& tells(line, " origin="@, labels::sensor_origin(reading.descriptor.origin))
            &&& tells(line, " kind="@, labels::sensor_kind(reading.descriptor.kind))
            &&& tells(line, " status="@, labels::reading_status(reading.status))
            &&& tells(
                line,
                " consecutive_errors="@,
                words::number(reading.consecutive_errors as int),
            )
            &&& tells(line, " total_errors="@, words::number(reading.total_errors as int))
            &&& tells(line, " last_error="@, labels::maybe_reading_error(reading.last_error))
            &&& tells(line, " sample_ticks="@, words::number(reading.last_attempt.ticks as int))
        }),
{
    let line = beginning_with("sample_failed id="@, words::number(reading.descriptor.id.0 as int));
    let line = followed_by(line, " origin="@, labels::sensor_origin(reading.descriptor.origin));
    let line = followed_by(line, " kind="@, labels::sensor_kind(reading.descriptor.kind));
    let line = followed_by(line, " status="@, labels::reading_status(reading.status));
    let line = followed_by(
        line,
        " consecutive_errors="@,
        words::number(reading.consecutive_errors as int),
    );
    let line = followed_by(line, " total_errors="@, words::number(reading.total_errors as int));
    let line = followed_by(line, " last_error="@, labels::maybe_reading_error(reading.last_error));
    let line = followed_by(line, " sample_ticks="@, words::number(reading.last_attempt@ as int));
    assert(line == report::failure_text(reading));
}

/// The line on a temperature tells where it was measured, when, and how warm it is.
pub proof fn law_temperature_line_tells_the_temperature(reading: SensorReading, value: i32)
    ensures
        ({
            let line = report::temperature_text(reading, value);
            &&& tells(
                line,
                "die_temperature origin="@,
                labels::sensor_origin(reading.descriptor.origin),
            )
            &&& tells(line, " milli_celsius="@, words::number(value as int))
            &&& tells(line, " sample_ticks="@, words::number(reading.last_attempt.ticks as int))
        }),
{
    let line = beginning_with(
        "die_temperature origin="@,
        labels::sensor_origin(reading.descriptor.origin),
    );
    let line = followed_by(line, " milli_celsius="@, words::number(value as int));
    let line = followed_by(line, " sample_ticks="@, words::number(reading.last_attempt@ as int));
    assert(line == report::temperature_text(reading, value));
}

/// The line on a vector tells each axis behind its own letter and the unit.
pub proof fn law_vector_line_tells_each_axis(
    head: Seq<char>,
    unit: Seq<char>,
    x: i32,
    y: i32,
    z: i32,
    at: Instant,
)
    ensures
        ({
            let line = report::vector_text(head, unit, x, y, z, at);
            &&& tells(line, " x_"@ + unit + "="@, words::number(x as int))
            &&& tells(line, " y_"@ + unit + "="@, words::number(y as int))
            &&& tells(line, " z_"@ + unit + "="@, words::number(z as int))
            &&& tells(line, " sample_ticks="@, words::number(at@ as int))
        }),
{
    let line = head;
    lemma_regrouped(line, " x_"@, unit, "="@);
    let line = followed_by(line, " x_"@ + unit + "="@, words::number(x as int));
    lemma_regrouped(line, " y_"@, unit, "="@);
    let line = followed_by(line, " y_"@ + unit + "="@, words::number(y as int));
    lemma_regrouped(line, " z_"@, unit, "="@);
    let line = followed_by(line, " z_"@ + unit + "="@, words::number(z as int));
    let line = followed_by(line, " sample_ticks="@, words::number(at@ as int));
    assert(line == report::vector_text(head, unit, x, y, z, at));
}

/// The note on frames tells when the first and the last of them were complete, and how
/// many frames and samples there were.
pub proof fn law_note_tells_what_went_on(f: Forwarder, completed_at_ticks: u64)
    ensures
        ({
            let line = forwarder::packets_text(f, completed_at_ticks);
            &&& tells(
                line,
                "audio packets first_timestamp_ticks="@,
                words::number(f.first_ticks as int),
            )
            &&& tells(line, " last_timestamp_ticks="@, words::number(completed_at_ticks as int))
            &&& tells(line, " packets="@, words::number(f.packets as int))
            &&& tells(line, " samples="@, words::number(f.samples as int))
        }),
{
    let line = beginning_with(
        "audio packets first_timestamp_ticks="@,
        words::number(f.first_ticks as int),
    );
    let line = followed_by(
        line,
        " last_timestamp_ticks="@,
        words::number(completed_at_ticks as int),
    );
    let line = followed_by(line, " packets="@, words::number(f.packets as int));
    let line = followed_by(line, " samples="@, words::number(f.samples as int));
    assert(line == forwarder::packets_text(f, completed_at_ticks));
}

/// The message of a log that goes on tells the voltage and the charge.
pub proof fn law_resumed_line_tells_the_battery(power: PowerState)
    ensures
        ({
            let line = card_power::resumed_text(power);
            &&& tells(line, "battery recovered: batt="@, words::number(power.battery_mv as int))
            &&& tells(line, "mV percent="@, words::maybe(wide_u8(power.battery_percent)))
        }),
{
    let line = beginning_with("battery recovered: batt="@, words::number(power.battery_mv as int));
    let line = followed_by(line, "mV percent="@, words::maybe(wide_u8(power.battery_percent)));
    let line = ended_by(line, "; SD logging resumed"@);
    assert(line == card_power::resumed_text(power));
}

/// The message before the card is switched off tells the voltage, the charge and the
/// threshold.
pub proof fn law_shutdown_line_tells_the_battery(power: PowerState)
    ensures
        ({
            let line = card_power::shutdown_text(power);
            &&& tells(
                line,
                "battery below SD threshold: batt="@,
                words::number(power.battery_mv as int),
            )
            &&& tells(line, "mV percent="@, words::maybe(wide_u8(power.battery_percent)))
            &&& tells(line, " threshold="@, words::number(40))
        }),
{
    let line = beginning_with(
        "battery below SD threshold: batt="@,
        words::number(power.battery_mv as int),
    );
    let line = followed_by(line, "mV percent="@, words::maybe(wide_u8(power.battery_percent)));
    let line = followed_by(
        line,
        " threshold="@,
        words::number(card_power::SD_SOC_THRESHOLD_PERCENT as int),
    );
    let line = ended_by(line, "; shutting down SD card"@);
    assert(line == card_power::shutdown_text(power));
}

/// The clock line of the power monitor tells the time where it is known, the trust,
/// the source and the uncertainty.
pub proof fn law_short_time_line_tells_the_clock(time: TimeState, at: Instant)
    ensures
        ({
            let line = card_power::short_time_text(time, at);
            let source = labels::time_source(time.active_time_source);
            &&& match status::utc_seconds(time, at) {
                Some(seconds) => {
                    &&& tells(line, "UTC "@, words::number(seconds as int))
                    &&& tells(line, " GPS ON valid="@, "true"@)
                    &&& tells(line, " source="@, source)
                },
                None => tells(line, "UTC unavailable GPS ON valid=false source="@, source),
            }
            &&& tells(line, " uncertainty_us="@, words::number(time.uncertainty_us as int))
        }),
{
    let source = labels::time_source(time.active_time_source);
    let line = match status::utc_seconds(time, at) {
        Some(seconds) => {
            let start = beginning_with("UTC "@, words::number(seconds as int));
            let valid = words::flag(time.utc_status != UtcStatus::Invalid);
            let middle = followed_by(start, " GPS ON valid="@, valid);
            followed_by(middle, " source="@, source)
        },
        None => beginning_with("UTC unavailable GPS ON valid=false source="@, source),
    };
    let line = followed_by(line, " uncertainty_us="@, words::number(time.uncertainty_us as int));
    assert(line == card_power::short_time_text(time, at));
}

/// A current reading is told by its kind, each vector with its own axes; anything else
/// is told as a failure.
pub proof fn law_readings_are_told_by_their_kind(reading: SensorReading)
    ensures
        ({
            let line = report::reading_text(reading);
            let current = reading.status == ReadingStatus::Current;
            &&& !current || reading.value is None ==> line == report::failure_text(reading)
            &&& current && reading.value is Some ==> match reading.value->0 {
                SensorValue::AccelerationMg { x, y, z } => line == report::vector_text(
                    "raw acceleration"@,
                    "mg"@,
                    x,
                    y,
                    z,
                    reading.last_attempt,
                ),
                SensorValue::MagneticFieldNt { x, y, z } => line == report::vector_text(
                    "raw magnetic_field"@,
                    "nt"@,
                    x,
                    y,
                    z,
                    reading.last_attempt,
                ),
                SensorValue::TemperatureMilliCelsius(value) => line == report::temperature_text(
                    reading,
                    value,
                ),
                _ => line == report::failure_text(reading),
            }
        }),
{
}

} // verus!
