//! The names under which states appear in log messages.
use crate::firmware::words;
use crate::firmware::words::push_number;
use crate::location::types::LocationSource;
use crate::power::types::{BatteryHealth, PowerSource};
use crate::sensors::types::{ReadingError, ReadingStatus, SensorKind, SensorOrigin};
use crate::time::gps::{PpsTimingSource, UtcDate, UtcDateTime, UtcTime};
use crate::time::types::{TimeSource, UtcStatus};
use vstd::prelude::*;
use vstd::string::StringExecFns;

verus! {

/// A name with one number behind it.
pub open spec fn numbered(name: Seq<char>, value: int) -> Seq<char> {
    name + "("@ + words::number(value) + ")"@
}

/// Name of a power source.
pub open spec fn power_source(source: PowerSource) -> Seq<char> {
    match source {
        PowerSource::Battery => "Battery"@,
        PowerSource::Solar => "Solar"@,
        PowerSource::ExternalDc => "ExternalDc"@,
        PowerSource::Usb => "Usb"@,
        PowerSource::Unknown => "Unknown"@,
    }
}

/// Name of a battery's condition.
pub open spec fn battery_health(health: BatteryHealth) -> Seq<char> {
    match health {
        BatteryHealth::Normal => "Normal"@,
        BatteryHealth::Low => "Low"@,
        BatteryHealth::Critical => "Critical"@,
    }
}

/// Name of a time source.
pub open spec fn time_source(source: TimeSource) -> Seq<char> {
    match source {
        TimeSource::NoSource => "None"@,
        TimeSource::GpsNmea => "GpsNmea"@,
        TimeSource::GpsPps => "GpsPps"@,
        TimeSource::Radio => "Radio"@,
        TimeSource::Usb => "Usb"@,
        TimeSource::Network => "Network"@,
        TimeSource::Laboratory => "Laboratory"@,
        TimeSource::Other(value) => numbered("Other"@, value as int),
    }
}

/// Name of the trust in UTC.
pub open spec fn utc_status(status: UtcStatus) -> Seq<char> {
    match status {
        UtcStatus::Invalid => "Invalid"@,
        UtcStatus::Degraded => "Degraded"@,
        UtcStatus::Synchronized => "Synchronized"@,
    }
}

/// Name of a pulse's timestamping.
pub open spec fn pulse_source(source: PpsTimingSource) -> Seq<char> {
    match source {
        PpsTimingSource::EmbassyInstant => "EmbassyInstant"@,
        PpsTimingSource::Tim4Capture => "Tim4Capture"@,
    }
}

/// Name of a pulse's timestamping, where it is known.
pub open spec fn maybe_pulse_source(source: Option<PpsTimingSource>) -> Seq<char> {
    match source {
        Some(source) => words::present(pulse_source(source)),
        None => "None"@,
    }
}

/// A date.
pub open spec fn date(value: UtcDate) -> Seq<char> {
    "UtcDate { year: "@ + words::number(value.year as int) + ", month: "@ + words::number(
        value.month as int,
    ) + ", day: "@ + words::number(value.day as int) + " }"@
}

/// A date that may be missing.
pub open spec fn maybe_date(value: Option<UtcDate>) -> Seq<char> {
    match value {
        Some(value) => words::present(date(value)),
        None => "None"@,
    }
}

/// A time of day.
pub open spec fn time_of_day(value: UtcTime) -> Seq<char> {
    "UtcTime { hour: "@ + words::number(value.hour as int) + ", minute: "@ + words::number(
        value.minute as int,
    ) + ", second: "@ + words::number(value.second as int) + " }"@
}

/// A time of day with its date.
pub open spec fn date_time(value: UtcDateTime) -> Seq<char> {
    "UtcDateTime { date: "@ + maybe_date(value.date) + ", time: "@ + time_of_day(value.time)
        + " }"@
}

/// A time of day with its date, where it is known.
pub open spec fn maybe_date_time(value: Option<UtcDateTime>) -> Seq<char> {
    match value {
        Some(value) => words::present(date_time(value)),
        None => "None"@,
    }
}

/// Name of a position's origin.
pub open spec fn location_source(source: LocationSource) -> Seq<char> {
    match source {
        LocationSource::NoSource => "None"@,
        LocationSource::Gps => "Gps"@,
        LocationSource::Manual => "Manual"@,
        LocationSource::FutureExternal => "FutureExternal"@,
    }
}

/// Name of a sensor's quantity.
pub open spec fn sensor_kind(kind: SensorKind) -> Seq<char> {
    match kind {
        SensorKind::Acceleration => "Acceleration"@,
        SensorKind::MagneticField => "MagneticField"@,
        SensorKind::Temperature => "Temperature"@,
        SensorKind::Tilt => "Tilt"@,
        SensorKind::Heading => "Heading"@,
        SensorKind::TiltCompensatedHeading => "TiltCompensatedHeading"@,
        SensorKind::Vedba => "Vedba"@,
        SensorKind::Odba => "Odba"@,
    }
}

/// Name of a sensor's part.
pub open spec fn sensor_origin(origin: SensorOrigin) -> Seq<char> {
    match origin {
        SensorOrigin::Lis2hh12 => "Lis2hh12"@,
        SensorOrigin::Lis2mdl => "Lis2mdl"@,
        SensorOrigin::Stm32Core => "Stm32Core"@,
        SensorOrigin::Radio => "Radio"@,
        SensorOrigin::ExtensionBus(value) => numbered("ExtensionBus"@, value as int),
        SensorOrigin::Composite => "Composite"@,
        SensorOrigin::Other(value) => numbered("Other"@, value as int),
    }
}

/// Name of a reading's condition.
pub open spec fn reading_status(status: ReadingStatus) -> Seq<char> {
    match status {
        ReadingStatus::Unavailable => "Unavailable"@,
        ReadingStatus::Current => "Current"@,
        ReadingStatus::Stale => "Stale"@,
        ReadingStatus::Fault => "Fault"@,
    }
}

/// Name of a reading's error.
pub open spec fn reading_error(error: ReadingError) -> Seq<char> {
    match error {
        ReadingError::Source(code) => numbered("Source"@, code as int),
        ReadingError::IncompatibleValue => "IncompatibleValue"@,
        ReadingError::CompositeInputUnavailable => "CompositeInputUnavailable"@,
    }
}

/// Name of a reading's error, where there is one.
pub open spec fn maybe_reading_error(error: Option<ReadingError>) -> Seq<char> {
    match error {
        Some(error) => words::present(reading_error(error)),
        None => "None"@,
    }
}

/// Appends a name with one number behind it.
pub fn push_numbered(line: &mut String, name: &str, value: u64)
    ensures
        final(line)@ == old(line)@ + numbered(name@, value as int),
{
    line.append(name);
    line.append("(");
    push_number(line, value);
    line.append(")");
    assert(line@ =~= old(line)@ + numbered(name@, value as int));
}

/// Appends the name of a power source.
pub fn push_power_source(line: &mut String, source: PowerSource)
    ensures
        final(line)@ == old(line)@ + power_source(source),
{
    line.append(
        match source {
            PowerSource::Battery => "Battery",
            PowerSource::Solar => "Solar",
            PowerSource::ExternalDc => "ExternalDc",
            PowerSource::Usb => "Usb",
            PowerSource::Unknown => "Unknown",
        },
    );
}

/// Appends the name of a battery's condition.
pub fn push_battery_health(line: &mut String, health: BatteryHealth)
    ensures
        final(line)@ == old(line)@ + battery_health(health),
{
    line.append(
        match health {
            BatteryHealth::Normal => "Normal",
            BatteryHealth::Low => "Low",
            BatteryHealth::Critical => "Critical",
        },
    );
}

/// Appends the name of a time source.
pub fn push_time_source(line: &mut String, source: TimeSource)
    ensures
        final(line)@ == old(line)@ + time_source(source),
{
    match source {
        TimeSource::NoSource => line.append("None"),
        TimeSource::GpsNmea => line.append("GpsNmea"),
        TimeSource::GpsPps => line.append("GpsPps"),
        TimeSource::Radio => line.append("Radio"),
        TimeSource::Usb => line.append("Usb"),
        TimeSource::Network => line.append("Network"),
        TimeSource::Laboratory => line.append("Laboratory"),
        TimeSource::Other(value) => push_numbered(line, "Other", value as u64),
    }
}

/// Appends the name of the trust in UTC.
pub fn push_utc_status(line: &mut String, status: UtcStatus)
    ensures
        final(line)@ == old(line)@ + utc_status(status),
{
    line.append(
        match status {
            UtcStatus::Invalid => "Invalid",
            UtcStatus::Degraded => "Degraded",
            UtcStatus::Synchronized => "Synchronized",
        },
    );
}

/// Appends the name of a pulse's timestamping.
pub fn push_pulse_source(line: &mut String, source: PpsTimingSource)
    ensures
        final(line)@ == old(line)@ + pulse_source(source),
{
    line.append(
        match source {
            PpsTimingSource::EmbassyInstant => "EmbassyInstant",
            PpsTimingSource::Tim4Capture => "Tim4Capture",
        },
    );
}

/// Appends the name of a pulse's timestamping, where it is known.
pub fn push_maybe_pulse_source(line: &mut String, source: Option<PpsTimingSource>)
    ensures
        final(line)@ == old(line)@ + maybe_pulse_source(source),
{
    match source {
        Some(source) => {
            line.append("Some(");
            push_pulse_source(line, source);
            line.append(")");
            assert(line@ =~= old(line)@ + words::present(pulse_source(source)));
        },
        None => line.append("None"),
    }
}

/// Appends a date.
pub fn push_date(line: &mut String, value: UtcDate)
    ensures
        final(line)@ == old(line)@ + date(value),
{
    line.append("UtcDate { year: ");
    push_number(line, value.year as u64);
    line.append(", month: ");
    push_number(line, value.month as u64);
    line.append(", day: ");
    push_number(line, value.day as u64);
    line.append(" }");
    assert(line@ =~= old(line)@ + date(value));
}

/// Appends a date that may be missing.
pub fn push_maybe_date(line: &mut String, value: Option<UtcDate>)
    ensures
        final(line)@ == old(line)@ + maybe_date(value),
{
    match value {
        Some(value) => {
            line.append("Some(");
            push_date(line, value);
            line.append(")");
            assert(line@ =~= old(line)@ + words::present(date(value)));
        },
        None => line.append("None"),
    }
}

/// Appends a time of day.
pub fn push_time_of_day(line: &mut String, value: UtcTime)
    ensures
        final(line)@ == old(line)@ + time_of_day(value),
{
    line.append("UtcTime { hour: ");
    push_number(line, value.hour as u64);
    line.append(", minute: ");
    push_number(line, value.minute as u64);
    line.append(", second: ");
    push_number(line, value.second as u64);
    line.append(" }");
    assert(line@ =~= old(line)@ + time_of_day(value));
}

/// Appends a time of day with its date, where it is known.
pub fn push_maybe_date_time(line: &mut String, value: Option<UtcDateTime>)
    ensures
        final(line)@ == old(line)@ + maybe_date_time(value),
{
    match value {
        Some(value) => {
            line.append("Some(");
            line.append("UtcDateTime { date: ");
            push_maybe_date(line, value.date);
            line.append(", time: ");
            push_time_of_day(line, value.time);
            line.append(" }");
            line.append(")");
            assert(line@ =~= old(line)@ + words::present(date_time(value)));
        },
        None => line.append("None"),
    }
}

/// Appends the name of a position's origin.
pub fn push_location_source(line: &mut String, source: LocationSource)
    ensures
        final(line)@ == old(line)@ + location_source(source),
{
    line.append(
        match source {
            LocationSource::NoSource => "None",
            LocationSource::Gps => "Gps",
            LocationSource::Manual => "Manual",
            LocationSource::FutureExternal => "FutureExternal",
        },
    );
}

/// Appends the name of a sensor's quantity.
pub fn push_sensor_kind(line: &mut String, kind: SensorKind)
    ensures
        final(line)@ == old(line)@ + sensor_kind(kind),
{
    line.append(
        match kind {
            SensorKind::Acceleration => "Acceleration",
            SensorKind::MagneticField => "MagneticField",
            SensorKind::Temperature => "Temperature",
            SensorKind::Tilt => "Tilt",
            SensorKind::Heading => "Heading",
            SensorKind::TiltCompensatedHeading => "TiltCompensatedHeading",
            SensorKind::Vedba => "Vedba",
            SensorKind::Odba => "Odba",
        },
    );
}

/// Appends the name of a sensor's part.
pub fn push_sensor_origin(line: &mut String, origin: SensorOrigin)
    ensures
        final(line)@ == old(line)@ + sensor_origin(origin),
{
    match origin {
        SensorOrigin::Lis2hh12 => line.append("Lis2hh12"),
        SensorOrigin::Lis2mdl => line.append("Lis2mdl"),
        SensorOrigin::Stm32Core => line.append("Stm32Core"),
        SensorOrigin::Radio => line.append("Radio"),
        SensorOrigin::ExtensionBus(value) => push_numbered(line, "ExtensionBus", value as u64),
        SensorOrigin::Composite => line.append("Composite"),
        SensorOrigin::Other(value) => push_numbered(line, "Other", value as u64),
    }
}

/// Appends the name of a reading's condition.
pub fn push_reading_status(line: &mut String, status: ReadingStatus)
    ensures
        final(line)@ == old(line)@ + reading_status(status),
{
    line.append(
        match status {
            ReadingStatus::Unavailable => "Unavailable",
            ReadingStatus::Current => "Current",
            ReadingStatus::Stale => "Stale",
            ReadingStatus::Fault => "Fault",
        },
    );
}

/// Appends the name of a reading's error, where there is one.
pub fn push_maybe_reading_error(line: &mut String, error: Option<ReadingError>)
    ensures
        final(line)@ == old(line)@ + maybe_reading_error(error),
{
    match error {
        Some(error) => {
            line.append("Some(");
            match error {
                ReadingError::Source(code) => push_numbered(line, "Source", code as u64),
                ReadingError::IncompatibleValue => line.append("IncompatibleValue"),
                ReadingError::CompositeInputUnavailable => line.append(
                    "CompositeInputUnavailable",
                ),
            }
            line.append(")");
            assert(line@ =~= old(line)@ + words::present(reading_error(error)));
        },
        None => line.append("None"),
    }
}

} // verus!
