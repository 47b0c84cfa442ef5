//! The status report: power, clock and receiver, as the logs show them.
use crate::clock;
use crate::clock::{Duration, Instant, TICK_HZ};
use crate::firmware::labels;
use crate::firmware::labels::{
    push_battery_health, push_maybe_date, push_maybe_pulse_source, push_power_source,
    push_pulse_source, push_time_source, push_utc_status,
};
use crate::firmware::words;
use crate::firmware::words::{
    begin, push_flag, push_maybe, push_maybe_signed, push_number, push_signed, wide_u16, wide_u32,
    wide_u8,
};
use crate::location::types::GpsFix;
use crate::power::types::PowerState;
use crate::time::gps::{PpsTimingSource, TimeCorrelation};
use crate::time::types;
use crate::time::types::TimeState;
use vstd::prelude::*;
use vstd::string::StringExecFns;

verus! {

/// Longest time, in microseconds, by which a fix follows the pulse it belongs
/// to.
pub const PAIR_WINDOW_US: i64 = 750_000;

/// The receiver's counters.
#[derive(Clone, Copy, Debug)]
pub struct GpsStatus {
    /// The receiver's word for what it is doing.
    pub operating_state: &'static str,
    pub powered: bool,
    pub initial_calibration_complete: bool,
    pub num_fixes: u64,
    pub num_checksum_errors: u64,
    pub num_uart_errors: u64,
    pub num_buffer_overflows: u64,
    pub num_reacquisition_attempts: u64,
    pub num_reacquisition_successes: u64,
    pub num_search_attempts: u64,
    pub num_search_failures: u64,
    pub num_pps_events: u64,
    pub last_pps_timing_source: Option<PpsTimingSource>,
    pub num_pps_timeouts: u64,
    pub num_search_timeouts: u64,
}

/// One pulse edge of the receiver.
#[derive(Clone, Copy, Debug, PartialEq, Eq, Structural)]
pub struct PulseEdge {
    pub pps_count: u64,
    pub timestamp: Instant,
    pub timing_source: PpsTimingSource,
    pub capture_ticks: Option<u64>,
    pub capture_delta_ticks: Option<u64>,
    pub capture_frequency_hz: Option<u32>,
    pub delta_time: Option<Duration>,
}

// ---- times -----------------------------------------------------------------

/// Whole microseconds in ticks.
pub open spec fn micros_of(ticks: u64) -> int {
    ticks * 1_000_000 / TICK_HZ as int
}

/// Microseconds from one instant to a later one.
pub open spec fn age_us(earlier: Instant, now: Instant) -> int {
    micros_of(clock::elapsed_ticks(earlier, now))
}

/// Microseconds by which an instant follows another, negative where it comes
/// first, held inside `i64`.
pub open spec fn signed_delta(value: Instant, reference: Instant) -> int {
    if value@ >= reference@ {
        crate::arith::min(age_us(reference, value), i64::MAX as int)
    } else {
        -crate::arith::min(age_us(value, reference), i64::MAX as int)
    }
}

/// Microseconds by which an instant follows another.
pub fn signed_instant_delta_us(value: Instant, reference: Instant) -> (delta: i64)
    ensures
        delta == signed_delta(value, reference),
{
    if value.as_ticks() >= reference.as_ticks() {
        let micros: u64 = value.saturating_duration_since(reference).as_micros();
        micros.min(i64::MAX as u64) as i64
    } else {
        let micros: u64 = reference.saturating_duration_since(value).as_micros();
        -(micros.min(i64::MAX as u64) as i64)
    }
}

/// The offset changes its sign when the two instants change places.
pub proof fn law_offsets_are_opposite(a: Instant, b: Instant)
    ensures
        signed_delta(a, b) == -signed_delta(b, a),
{
}

/// Microseconds of an instant that may be missing.
pub open spec fn instant_us(value: Option<Instant>) -> Option<u64> {
    match value {
        Some(value) => Some(micros_of(value@) as u64),
        None => None,
    }
}

/// Microseconds of a duration that may be missing.
pub open spec fn duration_us(value: Option<Duration>) -> Option<u64> {
    match value {
        Some(value) => Some(micros_of(value@) as u64),
        None => None,
    }
}

/// Microseconds of an instant that may be missing.
pub fn instant_micros(value: Option<Instant>) -> (micros: Option<u64>)
    ensures
        micros == instant_us(value),
{
    match value {
        Some(value) => Some(value.as_micros()),
        None => None,
    }
}

/// Microseconds of a duration that may be missing.
pub fn duration_micros(value: Option<Duration>) -> (micros: Option<u64>)
    ensures
        micros == duration_us(value),
{
    match value {
        Some(value) => Some(value.as_micros()),
        None => None,
    }
}

/// By how many microseconds a label followed the pulse it belongs to.
pub open spec fn label_offset(correlation: TimeCorrelation) -> Option<i64> {
    match correlation.pps_timestamp {
        Some(pulse) => Some(signed_delta(correlation.local_timestamp, pulse) as i64),
        None => None,
    }
}

/// By how many microseconds a label followed the pulse it belongs to.
pub fn label_offset_us(correlation: &TimeCorrelation) -> (offset: Option<i64>)
    ensures
        offset == label_offset(*correlation),
{
    match correlation.pps_timestamp {
        Some(pulse) => Some(signed_instant_delta_us(correlation.local_timestamp, pulse)),
        None => None,
    }
}

/// Seconds of UTC at an instant, where the clock knows them.
pub open spec fn utc_seconds(time: TimeState, at: Instant) -> Option<i64> {
    if time.knows(at) {
        Some(types::timestamp_at(time.mapped_micros(at)).seconds)
    } else {
        None
    }
}

// ---- the lines -------------------------------------------------------------

/// The power line. The charger's own words stand at its end.
pub open spec fn power_text(power: PowerState, charge: Seq<char>, fault: Seq<char>) -> Seq<char> {
    "source="@ + labels::power_source(power.source) + " batt="@ + words::number(
        power.battery_mv as int,
    ) + "mV solar="@ + words::number(power.solar_mv as int) + "mV ext_dc="@ + words::number(
        power.ext_dc_mv as int,
    ) + "mV charging="@ + words::flag(power.charging) + " percent="@ + words::maybe(
        wide_u8(power.battery_percent),
    ) + " health="@ + labels::battery_health(power.health) + " charger_state="@ + charge
        + " charger_fault="@ + fault
}

/// The power line.
pub fn power_line(power: &PowerState, charge: &str, fault: &str) -> (line: String)
    ensures
        line@ == power_text(*power, charge@, fault@),
{
    let mut line: String = begin("source=");
    push_power_source(&mut line, power.source);
    line.append(" batt=");
    push_number(&mut line, power.battery_mv as u64);
    line.append("mV solar=");
    push_number(&mut line, power.solar_mv as u64);
    line.append("mV ext_dc=");
    push_number(&mut line, power.ext_dc_mv as u64);
    line.append("mV charging=");
    push_flag(&mut line, power.charging);
    line.append(" percent=");
    push_maybe(&mut line, wide_u8(power.battery_percent));
    line.append(" health=");
    push_battery_health(&mut line, power.health);
    line.append(" charger_state=");
    line.append(charge);
    line.append(" charger_fault=");
    line.append(fault);
    line
}

/// The clock line.
pub open spec fn time_text(time: TimeState, at: Instant) -> Seq<char> {
    time_head(time, at) + labels::time_source(time.active_time_source) + " first="@
        + labels::time_source(time.first_anchor_source) + " status="@ + labels::utc_status(
        time.utc_status,
    ) + " map_ppb="@ + words::number(time.estimated_frequency_error_ppb as int) + " cal_ppb="@
        + words::number(time.calibrated_frequency_error_ppb as int) + " cal_n="@ + words::number(
        time.frequency_calibration_samples as int,
    ) + " cal_lock="@ + words::flag(time.frequency_calibration_locked) + " slew_ppb="@
        + words::number(time.phase_slew_ppb as int) + " residual_us="@ + words::maybe_signed(
        time.last_anchor_residual_us,
    ) + " uncertainty_us="@ + words::number(time.uncertainty_us as int) + " holdover_us="@
        + words::number(micros_of(time.holdover_duration@)) + " holdover_warn="@ + words::flag(
        time.holdover_warning,
    ) + " anchors="@ + words::number(time.accepted_anchors as int) + "/"@ + words::number(
        time.rejected_anchors as int,
    ) + " utc_fix="@ + words::number(time.utc_second_corrections as int)
}

/// How the clock line begins.
pub open spec fn time_head(time: TimeState, at: Instant) -> Seq<char> {
    match utc_seconds(time, at) {
        Some(seconds) => "UTC "@ + words::number(seconds as int) + " src="@,
        None => "UTC unavailable src="@,
    }
}

/// The clock line.
pub fn time_line(time: &TimeState, at: Instant) -> (line: String)
    ensures
        line@ == time_text(*time, at),
{
    let mut line: String = match time.system_to_utc(at) {
        Ok(utc) => {
            let mut line: String = begin("UTC ");
            push_signed(&mut line, utc.seconds);
            line.append(" src=");
            line
        },
        Err(_) => begin("UTC unavailable src="),
    };
    push_time_source(&mut line, time.active_time_source);
    line.append(" first=");
    push_time_source(&mut line, time.first_anchor_source);
    line.append(" status=");
    push_utc_status(&mut line, time.utc_status);
    line.append(" map_ppb=");
    push_signed(&mut line, time.estimated_frequency_error_ppb);
    line.append(" cal_ppb=");
    push_signed(&mut line, time.calibrated_frequency_error_ppb);
    line.append(" cal_n=");
    push_number(&mut line, time.frequency_calibration_samples as u64);
    line.append(" cal_lock=");
    push_flag(&mut line, time.frequency_calibration_locked);
    line.append(" slew_ppb=");
    push_signed(&mut line, time.phase_slew_ppb);
    line.append(" residual_us=");
    push_maybe_signed(&mut line, time.last_anchor_residual_us);
    line.append(" uncertainty_us=");
    push_number(&mut line, time.uncertainty_us);
    line.append(" holdover_us=");
    push_number(&mut line, time.holdover_duration.as_micros());
    line.append(" holdover_warn=");
    push_flag(&mut line, time.holdover_warning);
    line.append(" anchors=");
    push_number(&mut line, time.accepted_anchors as u64);
    line.append("/");
    push_number(&mut line, time.rejected_anchors as u64);
    line.append(" utc_fix=");
    push_number(&mut line, time.utc_second_corrections as u64);
    line
}

/// The line on the pulse barrier.
pub open spec fn gate_text(time: TimeState) -> Seq<char> {
    "PPS_GATE active="@ + words::flag(time.pps_reacquisition_active) + " clean_intervals="@
        + words::number(time.pps_reacquisition_clean_intervals as int) + " gate_rejections="@
        + words::number(time.pps_reacquisition_rejections as int)
}

/// The line on the pulse barrier.
pub fn gate_line(time: &TimeState) -> (line: String)
    ensures
        line@ == gate_text(*time),
{
    let mut line: String = begin("PPS_GATE active=");
    push_flag(&mut line, time.pps_reacquisition_active);
    line.append(" clean_intervals=");
    push_number(&mut line, time.pps_reacquisition_clean_intervals as u64);
    line.append(" gate_rejections=");
    push_number(&mut line, time.pps_reacquisition_rejections as u64);
    line
}

/// The receiver line.
pub open spec fn gps_text(gps: GpsStatus) -> Seq<char> {
    "state="@ + gps.operating_state@ + " powered="@ + words::flag(gps.powered) + " calibrated="@
        + words::flag(gps.initial_calibration_complete) + " fixes="@ + words::number(
        gps.num_fixes as int,
    ) + " checksum_err="@ + words::number(gps.num_checksum_errors as int) + " uart_err="@
        + words::number(gps.num_uart_errors as int) + " overflow="@ + words::number(
        gps.num_buffer_overflows as int,
    ) + " reacq="@ + words::number(gps.num_reacquisition_attempts as int) + "/"@ + words::number(
        gps.num_reacquisition_successes as int,
    ) + " search="@ + words::number(gps.num_search_attempts as int) + "/"@ + words::number(
        gps.num_search_failures as int,
    ) + " pps_events="@ + words::number(gps.num_pps_events as int) + " pps_source="@
        + labels::maybe_pulse_source(gps.last_pps_timing_source) + " pps_timeouts="@
        + words::number(gps.num_pps_timeouts as int) + " search_timeouts="@ + words::number(
        gps.num_search_timeouts as int,
    )
}

/// The receiver line.
pub fn gps_line(gps: &GpsStatus) -> (line: String)
    ensures
        line@ == gps_text(*gps),
{
    let mut line: String = begin("state=");
    line.append(gps.operating_state);
    line.append(" powered=");
    push_flag(&mut line, gps.powered);
    line.append(" calibrated=");
    push_flag(&mut line, gps.initial_calibration_complete);
    line.append(" fixes=");
    push_number(&mut line, gps.num_fixes);
    line.append(" checksum_err=");
    push_number(&mut line, gps.num_checksum_errors);
    line.append(" uart_err=");
    push_number(&mut line, gps.num_uart_errors);
    line.append(" overflow=");
    push_number(&mut line, gps.num_buffer_overflows);
    line.append(" reacq=");
    push_number(&mut line, gps.num_reacquisition_attempts);
    line.append("/");
    push_number(&mut line, gps.num_reacquisition_successes);
    line.append(" search=");
    push_number(&mut line, gps.num_search_attempts);
    line.append("/");
    push_number(&mut line, gps.num_search_failures);
    line.append(" pps_events=");
    push_number(&mut line, gps.num_pps_events);
    line.append(" pps_source=");
    push_maybe_pulse_source(&mut line, gps.last_pps_timing_source);
    line.append(" pps_timeouts=");
    push_number(&mut line, gps.num_pps_timeouts);
    line.append(" search_timeouts=");
    push_number(&mut line, gps.num_search_timeouts);
    line
}

/// The end of a pulse line: how the edge was timestamped.
pub open spec fn edge_tail(edge: PulseEdge) -> Seq<char> {
    " capture_ticks="@ + words::maybe(edge.capture_ticks) + " delta_ticks="@ + words::maybe(
        edge.capture_delta_ticks,
    ) + " capture_hz="@ + words::maybe(wide_u32(edge.capture_frequency_hz))
        + " system_delta_us="@ + words::maybe(duration_us(edge.delta_time))
}

/// The end of a pulse line.
fn edge_end(edge: &PulseEdge) -> (line: String)
    ensures
        line@ == edge_tail(*edge),
{
    let mut line: String = begin(" capture_ticks=");
    push_maybe(&mut line, edge.capture_ticks);
    line.append(" delta_ticks=");
    push_maybe(&mut line, edge.capture_delta_ticks);
    line.append(" capture_hz=");
    push_maybe(&mut line, wide_u32(edge.capture_frequency_hz));
    line.append(" system_delta_us=");
    push_maybe(&mut line, duration_micros(edge.delta_time));
    line
}

/// The line on the latest pulse.
pub open spec fn pulse_text(pulse: Option<PulseEdge>, now: Instant) -> Seq<char> {
    match pulse {
        Some(edge) => "PPS count="@ + words::number(edge.pps_count as int) + " age_us="@
            + words::number(age_us(edge.timestamp, now)) + " source="@ + labels::pulse_source(
            edge.timing_source,
        ) + " systime_us="@ + words::number(micros_of(edge.timestamp@)) + edge_tail(edge),
        None => "PPS none received"@,
    }
}

/// The line on the latest pulse.
pub fn pulse_line(pulse: &Option<PulseEdge>, now: Instant) -> (line: String)
    ensures
        line@ == pulse_text(*pulse, now),
{
    match pulse {
        Some(edge) => {
            let mut line: String = begin("PPS count=");
            push_number(&mut line, edge.pps_count);
            line.append(" age_us=");
            push_number(&mut line, now.saturating_duration_since(edge.timestamp).as_micros());
            line.append(" source=");
            push_pulse_source(&mut line, edge.timing_source);
            line.append(" systime_us=");
            push_number(&mut line, edge.timestamp.as_micros());
            line.append(edge_end(edge).as_str());
            line
        },
        None => begin("PPS none received"),
    }
}

/// The line on one pulse edge.
pub open spec fn edge_text(edge: PulseEdge) -> Seq<char> {
    "EDGE count="@ + words::number(edge.pps_count as int) + " systime_us="@ + words::number(
        micros_of(edge.timestamp@),
    ) + " source="@ + labels::pulse_source(edge.timing_source) + edge_tail(edge)
}

/// The line on one pulse edge.
pub fn edge_line(edge: &PulseEdge) -> (line: String)
    ensures
        line@ == edge_text(*edge),
{
    let mut line: String = begin("EDGE count=");
    push_number(&mut line, edge.pps_count);
    line.append(" systime_us=");
    push_number(&mut line, edge.timestamp.as_micros());
    line.append(" source=");
    push_pulse_source(&mut line, edge.timing_source);
    line.append(edge_end(edge).as_str());
    line
}

/// The line on pulse edges that nobody took in time.
pub fn edge_loss_line(missed: u64) -> (line: String)
    ensures
        line@ == "LOSS missed_edges="@ + words::number(missed as int),
{
    let mut line: String = begin("LOSS missed_edges=");
    push_number(&mut line, missed);
    line
}

/// The line on the latest fix.
pub open spec fn fix_text(fix: Option<GpsFix>, fixes: u64, now: Instant) -> Seq<char> {
    match fix {
        Some(fix) => "FIX count="@ + words::number(fixes as int) + " age_us="@ + words::number(
            age_us(fix.system_timestamp, now),
        ) + " systime_us="@ + words::number(micros_of(fix.system_timestamp@)) + " utc="@
            + words::number(fix.utc_time.time.hour as int) + ":"@ + words::number(
            fix.utc_time.time.minute as int,
        ) + ":"@ + words::number(fix.utc_time.time.second as int) + " date="@ + labels::maybe_date(
            fix.utc_time.date,
        ) + " sats="@ + words::number(fix.satellites as int) + " hdop_centi="@ + words::maybe(
            wide_u16(fix.hdop_centi),
        ),
        None => "FIX none received"@,
    }
}

/// The line on the latest fix.
pub fn fix_line(fix: &Option<GpsFix>, fixes: u64, now: Instant) -> (line: String)
    ensures
        line@ == fix_text(*fix, fixes, now),
{
    match fix {
        Some(fix) => {
            let mut line: String = begin("FIX count=");
            push_number(&mut line, fixes);
            line.append(" age_us=");
            push_number(&mut line, now.saturating_duration_since(fix.system_timestamp).as_micros());
            line.append(" systime_us=");
            push_number(&mut line, fix.system_timestamp.as_micros());
            line.append(" utc=");
            push_number(&mut line, fix.utc_time.time.hour as u64);
            line.append(":");
            push_number(&mut line, fix.utc_time.time.minute as u64);
            line.append(":");
            push_number(&mut line, fix.utc_time.time.second as u64);
            line.append(" date=");
            push_maybe_date(&mut line, fix.utc_time.date);
            line.append(" sats=");
            push_number(&mut line, fix.satellites as u64);
            line.append(" hdop_centi=");
            push_maybe(&mut line, wide_u16(fix.hdop_centi));
            line
        },
        None => begin("FIX none received"),
    }
}

/// The line on the latest fix and pulse together.
pub open spec fn pair_text(fix: GpsFix, edge: PulseEdge, fixes: u64) -> Seq<char> {
    let offset = signed_delta(fix.system_timestamp, edge.timestamp);
    "PAIR latest_fix_minus_pps_us="@ + words::number(offset) + " within_window="@ + words::flag(
        0 <= offset <= PAIR_WINDOW_US,
    ) + " fix_count="@ + words::number(fixes as int) + " pps_count="@ + words::number(
        edge.pps_count as int,
    )
}

/// The line on the latest fix and pulse together.
pub fn pair_line(fix: &GpsFix, edge: &PulseEdge, fixes: u64) -> (line: String)
    ensures
        line@ == pair_text(*fix, *edge, fixes),
{
    let offset: i64 = signed_instant_delta_us(fix.system_timestamp, edge.timestamp);
    let mut line: String = begin("PAIR latest_fix_minus_pps_us=");
    push_signed(&mut line, offset);
    line.append(" within_window=");
    push_flag(&mut line, 0 <= offset && offset <= PAIR_WINDOW_US);
    line.append(" fix_count=");
    push_number(&mut line, fixes);
    line.append(" pps_count=");
    push_number(&mut line, edge.pps_count);
    line
}

/// The end of a label line: the pulse that the label belongs to.
pub open spec fn label_tail(correlation: TimeCorrelation) -> Seq<char> {
    words::maybe(instant_us(correlation.pps_timestamp)) + " offset_us="@ + words::maybe_signed(
        label_offset(correlation),
    ) + " source="@ + labels::maybe_pulse_source(correlation.pps_timing_source)
        + " capture_ticks="@ + words::maybe(correlation.pps_capture_ticks) + " delta_ticks="@
        + words::maybe(correlation.pps_capture_delta_ticks) + " capture_hz="@ + words::maybe(
        wide_u32(correlation.pps_capture_frequency_hz),
    )
}

/// The end of a label line.
fn label_end(correlation: &TimeCorrelation) -> (line: String)
    ensures
        line@ == label_tail(*correlation),
{
    let mut line: String = begin("");
    push_maybe(&mut line, instant_micros(correlation.pps_timestamp));
    proof {
        reveal_strlit("");
        assert(line@ =~= words::maybe(instant_us(correlation.pps_timestamp)));
    }
    line.append(" offset_us=");
    push_maybe_signed(&mut line, label_offset_us(correlation));
    line.append(" source=");
    push_maybe_pulse_source(&mut line, correlation.pps_timing_source);
    line.append(" capture_ticks=");
    push_maybe(&mut line, correlation.pps_capture_ticks);
    line.append(" delta_ticks=");
    push_maybe(&mut line, correlation.pps_capture_delta_ticks);
    line.append(" capture_hz=");
    push_maybe(&mut line, wide_u32(correlation.pps_capture_frequency_hz));
    line
}

/// The line on the latest label.
pub open spec fn latest_label_text(correlation: Option<TimeCorrelation>, now: Instant) -> Seq<char> {
    match correlation {
        Some(correlation) => "CORR age_us="@ + words::number(
            age_us(correlation.local_timestamp, now),
        ) + " nmea_systime_us="@ + words::number(micros_of(correlation.local_timestamp@))
            + " pps_systime_us="@ + label_tail(correlation),
        None => "CORR none emitted"@,
    }
}

/// The line on the latest label.
pub fn latest_label_line(correlation: &Option<TimeCorrelation>, now: Instant) -> (line: String)
    ensures
        line@ == latest_label_text(*correlation, now),
{
    match correlation {
        Some(correlation) => {
            let mut line: String = begin("CORR age_us=");
            push_number(
                &mut line,
                now.saturating_duration_since(correlation.local_timestamp).as_micros(),
            );
            line.append(" nmea_systime_us=");
            push_number(&mut line, correlation.local_timestamp.as_micros());
            line.append(" pps_systime_us=");
            line.append(label_end(correlation).as_str());
            line
        },
        None => begin("CORR none emitted"),
    }
}

/// The line on one label, with its running number and the number of its pulse.
pub open spec fn label_text(
    sequence: u64,
    pulse: Option<u64>,
    correlation: TimeCorrelation,
) -> Seq<char> {
    "PAIR seq="@ + words::number(sequence as int) + " pps_count="@ + words::maybe(pulse)
        + " utc_date="@ + labels::maybe_date(correlation.utc_time.date) + " utc="@ + words::number(
        correlation.utc_time.time.hour as int,
    ) + ":"@ + words::number(correlation.utc_time.time.minute as int) + ":"@ + words::number(
        correlation.utc_time.time.second as int,
    ) + " nmea_us="@ + words::number(micros_of(correlation.local_timestamp@)) + " pps_us="@
        + label_tail(correlation)
}

/// The line on one label.
pub fn label_line(sequence: u64, pulse: Option<u64>, correlation: &TimeCorrelation) -> (line: String)
    ensures
        line@ == label_text(sequence, pulse, *correlation),
{
    let mut line: String = begin("PAIR seq=");
    push_number(&mut line, sequence);
    line.append(" pps_count=");
    push_maybe(&mut line, pulse);
    line.append(" utc_date=");
    push_maybe_date(&mut line, correlation.utc_time.date);
    line.append(" utc=");
    push_number(&mut line, correlation.utc_time.time.hour as u64);
    line.append(":");
    push_number(&mut line, correlation.utc_time.time.minute as u64);
    line.append(":");
    push_number(&mut line, correlation.utc_time.time.second as u64);
    line.append(" nmea_us=");
    push_number(&mut line, correlation.local_timestamp.as_micros());
    line.append(" pps_us=");
    line.append(label_end(correlation).as_str());
    line
}

/// The line on labels that nobody took in time.
pub fn label_loss_line(missed: u64) -> (line: String)
    ensures
        line@ == "LOSS missed_correlations="@ + words::number(missed as int),
{
    let mut line: String = begin("LOSS missed_correlations=");
    push_number(&mut line, missed);
    line
}

// ---- laws ------------------------------------------------------------------

/// An offset is how far one instant follows the other, in microseconds, at a million
/// ticks a second; an age is that too, and nothing for an instant to come.
pub proof fn law_offsets_are_measured_in_microseconds(value: Instant, reference: Instant)
    ensures
        -i64::MAX <= value.ticks - reference.ticks <= i64::MAX ==> signed_delta(value, reference)
            == value.ticks - reference.ticks,
        value.ticks >= reference.ticks ==> age_us(reference, value) == value.ticks
            - reference.ticks,
        value.ticks <= reference.ticks ==> age_us(reference, value) == 0,
        instant_us(Some(value)) == Some(value.ticks),
        instant_us(None) is None,
{
}

/// The offset of a label is how far its arrival follows its pulse, and there is none
/// without a pulse.
pub proof fn law_label_offset_follows_the_pulse(correlation: TimeCorrelation)
    ensures
        correlation.pps_timestamp is None <==> label_offset(correlation) is None,
        correlation.pps_timestamp matches Some(pulse) && -i64::MAX
            <= correlation.local_timestamp.ticks - pulse.ticks <= i64::MAX ==> label_offset(
            correlation,
        )->0 == correlation.local_timestamp.ticks - correlation.pps_timestamp->0.ticks,
{
}

/// A line tells whole seconds of UTC: those of the mapping, rounded down, wherever
/// the clock knows them.
pub proof fn law_lines_tell_whole_seconds(time: TimeState, at: Instant)
    ensures
        utc_seconds(time, at) is Some <==> time.knows(at),
        utc_seconds(time, at) matches Some(seconds) ==> seconds * 1_000_000 <= time.mapped_micros(
            at,
        ) < (seconds + 1) * 1_000_000,
{
}

} // verus!
