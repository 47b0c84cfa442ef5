//! Anchors from a GPS receiver with a pulse output.
use crate::arith;
use crate::clock::Instant;
use crate::time::types::{Anchor, AnchorQuality, TimeSource, UtcTimestamp};
use vstd::prelude::*;

verus! {

/// Error bound, in microseconds, of a pulse timestamped in software.
pub const GPS_PPS_UNCERTAINTY: u64 = 100;

/// Error bound, in microseconds, of a pulse captured in hardware. Capture removes the
/// edge-to-edge jitter, but its first edge is still aligned to the local clock
/// in software.
pub const GPS_CAPTURE_PPS_UNCERTAINTY: u64 = 100;

/// A calendar date.
#[derive(Clone, Copy, Debug, PartialEq, Eq, Structural)]
pub struct UtcDate {
    pub year: u16,
    pub month: u8,
    pub day: u8,
}

/// A time of day.
#[derive(Clone, Copy, Debug, PartialEq, Eq, Structural)]
pub struct UtcTime {
    pub hour: u8,
    pub minute: u8,
    pub second: u8,
}

/// A time of day with its date, where the receiver knows it.
#[derive(Clone, Copy, Debug, PartialEq, Eq, Structural)]
pub struct UtcDateTime {
    pub date: Option<UtcDate>,
    pub time: UtcTime,
}

/// How a pulse edge was timestamped.
#[derive(Clone, Copy, Debug, PartialEq, Eq, Structural)]
pub enum PpsTimingSource {
    /// By an interrupt reading the local clock.
    EmbassyInstant,
    /// By a timer's capture unit.
    Tim4Capture,
}

/// A receiver's UTC label together with the pulse edge it belongs to.
#[derive(Clone, Copy, Debug, PartialEq, Eq, Structural)]
pub struct TimeCorrelation {
    pub utc_time: UtcDateTime,
    pub local_timestamp: Instant,
    pub pps_timestamp: Option<Instant>,
    pub pps_capture_ticks: Option<u64>,
    pub pps_capture_delta_ticks: Option<u64>,
    pub pps_capture_frequency_hz: Option<u32>,
    pub pps_timing_source: Option<PpsTimingSource>,
}

// ---- the calendar ----------------------------------------------------------

/// Whether a Gregorian year has a leap day.
pub open spec fn leap_year(year: int) -> bool {
    year % 4 == 0 && (year % 100 != 0 || year % 400 == 0)
}

/// Days of a year.
pub open spec fn year_days(year: int) -> int {
    if leap_year(year) {
        366
    } else {
        365
    }
}

/// Days of a month.
pub open spec fn month_days(year: int, month: int) -> int {
    if month == 2 {
        if leap_year(year) {
            29
        } else {
            28
        }
    } else if month == 4 || month == 6 || month == 9 || month == 11 {
        30
    } else {
        31
    }
}

/// Whether a date exists, from 1970 on.
pub open spec fn date_exists(date: UtcDate) -> bool {
    &&& 1970 <= date.year
    &&& 1 <= date.month <= 12
    &&& 1 <= date.day <= month_days(date.year as int, date.month as int)
}

/// Days of the years from 1970 up to, and without, `year`.
pub open spec fn days_before_year(year: int) -> int
    decreases year - 1970,
{
    if year <= 1970 {
        0
    } else {
        days_before_year(year - 1) + year_days(year - 1)
    }
}

/// Days of the months of a year before `month`.
pub open spec fn days_before_month(year: int, month: int) -> int
    decreases month,
{
    if month <= 1 {
        0
    } else {
        days_before_month(year, month - 1) + month_days(year, month - 1)
    }
}

/// Days between 1970-01-01 and a date.
pub open spec fn days_since_epoch(year: int, month: int, day: int) -> int {
    days_before_year(year) + days_before_month(year, month) + day - 1
}

/// Whether a time of day exists; a leap second does.
pub open spec fn time_exists(time: UtcTime) -> bool {
    time.hour <= 23 && time.minute <= 59 && time.second <= 60
}

/// Seconds between the epoch and a date and time; a leap second counts as the
/// second before it.
pub open spec fn seconds_since_epoch(date: UtcDate, time: UtcTime) -> int {
    days_since_epoch(date.year as int, date.month as int, date.day as int) * 86_400 + time.hour
        * 3_600 + time.minute * 60 + arith::min(time.second as int, 59)
}

/// The timestamp of a receiver's label, where it names a time that exists.
pub open spec fn label_timestamp(value: UtcDateTime) -> Option<UtcTimestamp> {
    match value.date {
        Some(date) => if date_exists(date) && time_exists(value.time) {
            Some(
                UtcTimestamp {
                    seconds: seconds_since_epoch(date, value.time) as i64,
                    microseconds: 0,
                },
            )
        } else {
            None
        },
        None => None,
    }
}

/// Leap days of the years up to and with `year`.
spec fn leap_days(year: int) -> int {
    year / 4 - year / 100 + year / 400
}

/// The days before a year in closed form.
proof fn lemma_days_before_year(year: int)
    requires
        year >= 1970,
    ensures
        days_before_year(year) == (year - 1970) * 365 + leap_days(year - 1) - leap_days(1969),
    decreases year - 1970,
{
    if year > 1970 {
        lemma_days_before_year(year - 1);
        lemma_leap_day_of_year(year - 1);
    }
}

/// The days before a month in closed form, counted from March.
proof fn lemma_days_before_month(year: int, month: int)
    requires
        1 <= month <= 12,
    ensures
        month > 2 ==> days_before_month(year, month) == (153 * (month - 3) + 2) / 5 + year_days(
            year,
        ) - 306,
        month <= 2 ==> days_before_month(year, month) == (153 * (month + 9) + 2) / 5 - 306,
{
    reveal_with_fuel(days_before_month, 13);
}

/// The leap days of whole cycles of 400 years, and of the rest.
proof fn lemma_leap_days_of_cycles(year: int)
    requires
        year >= 0,
    ensures
        leap_days(year) == year / 400 * 97 + (year - year / 400 * 400) / 4 - (year - year / 400
            * 400) / 100,
{
}

/// A year has one leap day more than the one before exactly where it is a leap year.
proof fn lemma_leap_day_of_year(year: int)
    ensures
        leap_days(year) - leap_days(year - 1) == year_days(year) - 365,
{
}

/// Whether a date exists.
fn valid_date(date: UtcDate) -> (valid: bool)
    ensures
        valid == date_exists(date),
{
    if date.year < 1970 || date.month < 1 || date.month > 12 || date.day == 0 {
        return false;
    }
    let leap: bool = date.year % 4 == 0 && (date.year % 100 != 0 || date.year % 400 == 0);
    let max_day: u8 = match date.month {
        2 => if leap {
            29
        } else {
            28
        },
        4 | 6 | 9 | 11 => 30,
        _ => 31,
    };
    date.day <= max_day
}

/// Days between 1970-01-01 and a date, computed on years that start in March.
pub fn days_from_civil(year: i64, month: i64, day: i64) -> (days: i64)
    requires
        1970 <= year <= 65_535,
        1 <= month <= 12,
        1 <= day <= 31,
    ensures
        days == days_since_epoch(year as int, month as int, day as int),
        0 <= days <= 24_000_000,
{
    let march_year: i64 = if month <= 2 {
        year - 1
    } else {
        year
    };
    let era: i64 = march_year / 400;
    let year_of_era: i64 = march_year - era * 400;
    let adjusted_month: i64 = if month > 2 {
        month - 3
    } else {
        month + 9
    };
    let day_of_year: i64 = (153 * adjusted_month + 2) / 5 + day - 1;
    let day_of_era: i64 = year_of_era * 365 + year_of_era / 4 - year_of_era / 100 + day_of_year;
    proof {
        lemma_days_before_year(year as int);
        lemma_days_before_month(year as int, month as int);
        lemma_leap_day_of_year(year as int);
        assert(leap_days(1969) == 477);
        lemma_leap_days_of_cycles(march_year as int);
    }
    era * 146_097 + day_of_era - 719_468
}

/// The timestamp of a receiver's label, where it names a time that exists.
pub fn gps_utc_to_timestamp(value: UtcDateTime) -> (timestamp: Option<UtcTimestamp>)
    ensures
        timestamp == label_timestamp(value),
{
    let date: UtcDate = match value.date {
        Some(date) => date,
        None => {
            return None;
        },
    };
    if !valid_date(date) || value.time.hour > 23 || value.time.minute > 59 || value.time.second
        > 60 {
        return None;
    }
    let days: i64 = days_from_civil(date.year as i64, date.month as i64, date.day as i64);
    let second: u8 = if value.time.second > 59 {
        59
    } else {
        value.time.second
    };
    let seconds: i64 = days * 86_400 + value.time.hour as i64 * 3_600 + value.time.minute as i64
        * 60 + second as i64;
    UtcTimestamp::new(seconds, 0)
}

/// The anchor of a correlation, where its label names a time that exists and a pulse
/// edge was matched.
pub open spec fn anchor_of(correlation: TimeCorrelation) -> Option<Anchor> {
    match (label_timestamp(correlation.utc_time), correlation.pps_timestamp) {
        (Some(utc), Some(edge)) => Some(
            Anchor {
                system_time: edge,
                utc,
                quality: AnchorQuality {
                    uncertainty_us: if correlation.pps_timing_source == Some(
                        PpsTimingSource::Tim4Capture,
                    ) {
                        GPS_CAPTURE_PPS_UNCERTAINTY
                    } else {
                        GPS_PPS_UNCERTAINTY
                    },
                },
                source: TimeSource::GpsPps,
                capture_ticks: correlation.pps_capture_ticks,
                pps_sequence: None,
                pps_interval: None,
            },
        ),
        _ => None,
    }
}

/// The anchor of a correlation. A label without a matched pulse edge is
/// ignored: the arrival of the message is no precise clock anchor.
pub fn correlation_to_anchor(correlation: TimeCorrelation) -> (anchor: Option<Anchor>)
    ensures
        anchor == anchor_of(correlation),
{
    let utc: UtcTimestamp = match gps_utc_to_timestamp(correlation.utc_time) {
        Some(utc) => utc,
        None => {
            return None;
        },
    };
    let edge: Instant = match correlation.pps_timestamp {
        Some(edge) => edge,
        None => {
            return None;
        },
    };
    let captured: bool = match correlation.pps_timing_source {
        Some(source) => source == PpsTimingSource::Tim4Capture,
        None => false,
    };
    let uncertainty_us: u64 = if captured {
        GPS_CAPTURE_PPS_UNCERTAINTY
    } else {
        GPS_PPS_UNCERTAINTY
    };
    Some(
        Anchor {
            system_time: edge,
            utc,
            quality: AnchorQuality::new(uncertainty_us),
            source: TimeSource::GpsPps,
            capture_ticks: correlation.pps_capture_ticks,
            pps_sequence: None,
            pps_interval: None,
        },
    )
}

/// A later date and time has a later timestamp, apart from a leap second,
/// which shares the timestamp of the second before it.
pub proof fn law_labels_keep_their_order(
    first_date: UtcDate,
    first: UtcTime,
    second_date: UtcDate,
    second: UtcTime,
)
    requires
        date_exists(first_date),
        date_exists(second_date),
        time_exists(first),
        time_exists(second),
        first.second < 60,
        second.second < 60,
        ({
            ||| first_date.year < second_date.year
            ||| first_date.year == second_date.year && first_date.month < second_date.month
            ||| first_date.year == second_date.year && first_date.month == second_date.month
                && first_date.day < second_date.day
            ||| first_date == second_date && first.hour < second.hour
            ||| first_date == second_date && first.hour == second.hour && first.minute
                < second.minute
            ||| first_date == second_date && first.hour == second.hour && first.minute
                == second.minute && first.second < second.second
        }),
    ensures
        seconds_since_epoch(first_date, first) < seconds_since_epoch(second_date, second),
{
    let (y1, m1, d1) = (first_date.year as int, first_date.month as int, first_date.day as int);
    let (y2, m2, d2) = (second_date.year as int, second_date.month as int, second_date.day as int);
    lemma_month_order(y1, m1, 13);
    lemma_month_nonnegative(y2, m2);
    if y1 < y2 {
        lemma_year_order(y1, y2);
        assert(days_before_month(y1, 13) == year_days(y1)) by {
            reveal_with_fuel(days_before_month, 14);
        }
    } else if m1 < m2 {
        lemma_month_order(y1, m1, m2);
    }
}

/// The date of the day after, as year, month and day.
pub open spec fn day_after(year: int, month: int, day: int) -> (int, int, int) {
    if day < month_days(year, month) {
        (year, month, day + 1)
    } else if month < 12 {
        (year, month + 1, 1)
    } else {
        (year + 1, 1, 1)
    }
}

/// The epoch has the number zero, and the day after a date has the next number.
pub proof fn law_next_day_has_the_next_number(year: int, month: int, day: int)
    requires
        1970 <= year,
        1 <= month <= 12,
        1 <= day <= month_days(year, month),
    ensures
        days_since_epoch(1970, 1, 1) == 0,
        ({
            let (next_year, next_month, next_day) = day_after(year, month, day);
            &&& 1 <= next_month <= 12
            &&& 1 <= next_day <= month_days(next_year, next_month)
            &&& days_since_epoch(next_year, next_month, next_day) == days_since_epoch(
                year,
                month,
                day,
            ) + 1
        }),
{
    assert(days_before_month(year, 13) == year_days(year)) by {
        reveal_with_fuel(days_before_month, 14);
    }
}

/// The days before a later year take in the whole of an earlier one.
proof fn lemma_year_order(first: int, second: int)
    requires
        1970 <= first < second,
    ensures
        days_before_year(first) + year_days(first) <= days_before_year(second),
    decreases second - first,
{
    if first + 1 < second {
        lemma_year_order(first, second - 1);
    }
}

/// The days before a later month take in the whole of an earlier one.
proof fn lemma_month_order(year: int, first: int, second: int)
    requires
        1 <= first < second,
    ensures
        days_before_month(year, first) + month_days(year, first) <= days_before_month(year, second),
    decreases second - first,
{
    if first + 1 < second {
        lemma_month_order(year, first, second - 1);
    }
}

/// No month starts before its year.
proof fn lemma_month_nonnegative(year: int, month: int)
    ensures
        days_before_month(year, month) >= 0,
    decreases month,
{
    if month > 1 {
        lemma_month_nonnegative(year, month - 1);
    }
}

/// Every fourth year has a leap day, but of the years that end a century only every
/// fourth one.
pub proof fn law_leap_years(year: int)
    ensures
        year % 4 != 0 ==> !leap_year(year),
        year % 4 == 0 && year % 100 != 0 ==> leap_year(year),
        year % 100 == 0 && year % 400 != 0 ==> !leap_year(year),
        year % 400 == 0 ==> leap_year(year),
{
}

/// A date exists from 1970 on, where its month does, and has as many days as it.
pub proof fn law_dates_that_exist(date: UtcDate)
    ensures
        date_exists(date) <==> {
            let leap = date.year % 4 == 0 && date.year % 100 != 0 || date.year % 400 == 0;
            &&& 1970 <= date.year
            &&& 1 <= date.month <= 12
            &&& 1 <= date.day <= 31
            &&& date.month == 4 || date.month == 6 || date.month == 9 || date.month == 11
                ==> date.day <= 30
            &&& date.month == 2 && leap ==> date.day <= 29
            &&& date.month == 2 && !leap ==> date.day <= 28
        },
{
}

/// A label has a timestamp exactly where it has a date that exists and a time of
/// day that does, the leap second included, and that timestamp is a whole second.
pub proof fn law_labels_that_count(value: UtcDateTime)
    ensures
        label_timestamp(value) is Some <==> {
            &&& value.date is Some
            &&& date_exists(value.date->0)
            &&& value.time.hour < 24
            &&& value.time.minute < 60
            &&& value.time.second <= 60
        },
        label_timestamp(value) matches Some(timestamp) ==> timestamp.microseconds == 0
            && timestamp.seconds >= 0,
{
    if let Some(date) = value.date {
        if date_exists(date) && time_exists(value.time) {
            lemma_seconds_fit(date, value.time);
        }
    }
}

/// The seconds of a date fit the field of a timestamp.
proof fn lemma_seconds_fit(date: UtcDate, time: UtcTime)
    requires
        date_exists(date),
        time_exists(time),
    ensures
        0 <= seconds_since_epoch(date, time) <= i64::MAX,
{
    lemma_year_bounded(date.year as int);
    lemma_month_order(date.year as int, date.month as int, 13);
    lemma_month_nonnegative(date.year as int, date.month as int);
    assert(days_before_month(date.year as int, 13) == year_days(date.year as int)) by {
        reveal_with_fuel(days_before_month, 14);
    }
}

/// A year has at most 366 days.
proof fn lemma_year_bounded(year: int)
    requires
        1970 <= year,
    ensures
        0 <= days_before_year(year) <= 366 * (year - 1970),
    decreases year,
{
    if year > 1970 {
        lemma_year_bounded(year - 1);
    }
}

/// Timestamps count seconds: the first moment of 1970 has the number zero; within a
/// day two labels are apart by their hours, minutes and seconds; and the same time
/// on the next day comes 86400 seconds later. A leap second shares the number of
/// the second before it.
pub proof fn law_labels_count_seconds(date: UtcDate, first: UtcTime, second: UtcTime)
    requires
        date_exists(date),
        time_exists(first),
        time_exists(second),
    ensures
        ({
            let at = |time: UtcTime| label_timestamp(UtcDateTime { date: Some(date), time })->0.seconds;
            let (year, month, day) = day_after(
                date.year as int,
                date.month as int,
                date.day as int,
            );
            let next = UtcDate { year: year as u16, month: month as u8, day: day as u8 };
            &&& first.second < 60 && second.second < 60 ==> at(second) - at(first) == 3_600 * (
            second.hour - first.hour) + 60 * (second.minute - first.minute) + (second.second
                - first.second)
            &&& first.second == 60 ==> at(first) == at(UtcTime { second: 59, ..first })
            &&& year <= u16::MAX ==> label_timestamp(
                UtcDateTime { date: Some(next), time: first },
            )->0.seconds == at(first) + 86_400
        }),
        ({
            let start = UtcDateTime {
                date: Some(UtcDate { year: 1970, month: 1, day: 1 }),
                time: UtcTime { hour: 0, minute: 0, second: 0 },
            };
            label_timestamp(start) == Some(UtcTimestamp { seconds: 0, microseconds: 0 })
        }),
{
    let start = UtcDate { year: 1970, month: 1, day: 1 };
    lemma_seconds_fit(start, UtcTime { hour: 0, minute: 0, second: 0 });
    lemma_seconds_fit(date, first);
    lemma_seconds_fit(date, second);
    lemma_seconds_fit(date, UtcTime { second: 59, ..first });
    law_next_day_has_the_next_number(date.year as int, date.month as int, date.day as int);
    let (year, month, day) = day_after(date.year as int, date.month as int, date.day as int);
    if year <= u16::MAX {
        let next = UtcDate { year: year as u16, month: month as u8, day: day as u8 };
        lemma_seconds_fit(next, first);
    }
}

/// An anchor says that the label's time was at the pulse edge, within a tenth of a
/// millisecond. There is one exactly where the label has a timestamp and an edge
/// was matched.
pub proof fn law_anchor_is_the_label_at_the_pulse(correlation: TimeCorrelation)
    ensures
        ({
            let label = label_timestamp(correlation.utc_time);
            let anchor = anchor_of(correlation);
            &&& anchor is Some <==> label is Some && correlation.pps_timestamp is Some
            &&& anchor matches Some(anchor) ==> {
                &&& Some(anchor.system_time) == correlation.pps_timestamp
                &&& Some(anchor.utc) == label
                &&& anchor.quality.uncertainty_us == 100
                &&& anchor.source == TimeSource::GpsPps
                &&& anchor.capture_ticks == correlation.pps_capture_ticks
                &&& anchor.pps_sequence is None
                &&& anchor.pps_interval is None
            }
        }),
{
}

} // verus!
