//! What the loggers write, and in which order.
use crate::clock::Instant;
use crate::firmware::labels;
use crate::firmware::labels::{
    push_location_source, push_maybe_date_time, push_maybe_reading_error, push_reading_status,
    push_sensor_kind, push_sensor_origin,
};
use crate::firmware::status;
use crate::firmware::status::{
    edge_line, edge_loss_line, fix_line, gate_line, gps_line, label_line, label_loss_line,
    latest_label_line, pair_line, power_line, pulse_line, time_line, GpsStatus, PulseEdge,
};
use crate::firmware::words;
use crate::firmware::words::{
    begin, push_flag, push_maybe, push_number, push_signed, wide_u16, wide_u32, wide_u8,
};
use crate::location::types::{GpsFix, LocationState};
use crate::power::types::PowerState;
use crate::sensors::types;
use crate::sensors::types::{
    ReadingStatus, SensorId, SensorReading, SensorSnapshot, SensorValue,
};
use crate::time::gps::TimeCorrelation;
use crate::time::types::TimeState;
use vstd::prelude::*;
use vstd::string::StringExecFns;

verus! {

/// The log that a line belongs to.
#[derive(Clone, Copy, Debug, PartialEq, Eq, Structural)]
pub enum StatusLog {
    Power,
    Time,
    Gps,
}

/// One line of the status report.
#[derive(Debug)]
pub struct StatusLine {
    pub log: StatusLog,
    pub message: String,
}

/// What a status report is made from.
#[derive(Clone, Copy, Debug)]
pub struct StatusInputs<'a> {
    pub power: PowerState,
    /// The charger's word for its phase.
    pub charge: &'a str,
    /// The charger's word for its fault.
    pub fault: &'a str,
    pub time: TimeState,
    /// When the clock was asked for UTC.
    pub utc_at: Instant,
    pub gps: GpsStatus,
    pub pulse: Option<PulseEdge>,
    pub fix: Option<GpsFix>,
    pub correlation: Option<TimeCorrelation>,
    /// When the receiver was asked for its latest news.
    pub now: Instant,
}

/// The lines as contracts speak of them.
pub open spec fn shown(lines: Seq<StatusLine>) -> Seq<(StatusLog, Seq<char>)> {
    Seq::new(lines.len(), |i: int| (lines[i].log, lines[i].message@))
}

/// The lines of a status report before the one on the fix and pulse together.
pub open spec fn report_head(inputs: StatusInputs) -> Seq<(StatusLog, Seq<char>)> {
    seq![
        (StatusLog::Power, status::power_text(inputs.power, inputs.charge@, inputs.fault@)),
        (StatusLog::Time, status::time_text(inputs.time, inputs.utc_at)),
        (StatusLog::Time, status::gate_text(inputs.time)),
        (StatusLog::Gps, status::gps_text(inputs.gps)),
        (StatusLog::Gps, status::pulse_text(inputs.pulse, inputs.now)),
        (StatusLog::Gps, status::fix_text(inputs.fix, inputs.gps.num_fixes, inputs.now)),
    ]
}

/// The lines of a status report. The fix and the pulse are compared only where
/// both are there.
pub open spec fn report(inputs: StatusInputs) -> Seq<(StatusLog, Seq<char>)> {
    let last = (StatusLog::Gps, status::latest_label_text(inputs.correlation, inputs.now));
    match (inputs.fix, inputs.pulse) {
        (Some(fix), Some(pulse)) => report_head(inputs).push(
            (StatusLog::Gps, status::pair_text(fix, pulse, inputs.gps.num_fixes)),
        ).push(last),
        _ => report_head(inputs).push(last),
    }
}

/// The lines of a status report.
pub fn status_report(inputs: &StatusInputs) -> (lines: Vec<StatusLine>)
    ensures
        shown(lines@) == report(*inputs),
{
    let mut lines: Vec<StatusLine> = Vec::new();
    lines.push(
        StatusLine {
            log: StatusLog::Power,
            message: power_line(&inputs.power, inputs.charge, inputs.fault),
        },
    );
    lines.push(
        StatusLine { log: StatusLog::Time, message: time_line(&inputs.time, inputs.utc_at) },
    );
    lines.push(StatusLine { log: StatusLog::Time, message: gate_line(&inputs.time) });
    lines.push(StatusLine { log: StatusLog::Gps, message: gps_line(&inputs.gps) });
    lines.push(
        StatusLine { log: StatusLog::Gps, message: pulse_line(&inputs.pulse, inputs.now) },
    );
    lines.push(
        StatusLine {
            log: StatusLog::Gps,
            message: fix_line(&inputs.fix, inputs.gps.num_fixes, inputs.now),
        },
    );
    assert(shown(lines@) =~= report_head(*inputs));
    if let Some(fix) = &inputs.fix {
        if let Some(pulse) = &inputs.pulse {
            lines.push(
                StatusLine {
                    log: StatusLog::Gps,
                    message: pair_line(fix, pulse, inputs.gps.num_fixes),
                },
            );
        }
    }
    lines.push(
        StatusLine {
            log: StatusLog::Gps,
            message: latest_label_line(&inputs.correlation, inputs.now),
        },
    );
    assert(shown(lines@) =~= report(*inputs));
    lines
}

// ---- pulse edges as they arrive --------------------------------------------

/// What a subscriber hears about pulse edges.
#[derive(Clone, Copy, Debug, PartialEq, Eq, Structural)]
pub enum EdgeNews {
    /// One edge.
    Edge(PulseEdge),
    /// That some were missed.
    Missed(u64),
}

/// The line on a piece of news about pulse edges. Every edge has its line,
/// whether or not a label was matched with it.
pub fn edge_news_line(news: &EdgeNews) -> (line: String)
    ensures
        line@ == (match *news {
            EdgeNews::Edge(edge) => status::edge_text(edge),
            EdgeNews::Missed(missed) => "LOSS missed_edges="@ + words::number(missed as int),
        }),
{
    match news {
        EdgeNews::Edge(edge) => edge_line(edge),
        EdgeNews::Missed(missed) => edge_loss_line(*missed),
    }
}

// ---- labels as they arrive -------------------------------------------------

/// What a subscriber hears about labels.
#[derive(Clone, Copy, Debug, PartialEq, Eq, Structural)]
pub enum LabelNews {
    /// One label, and the number of its pulse.
    Label { pulse: Option<u64>, correlation: TimeCorrelation },
    /// That some were missed.
    Missed(u64),
}

/// The logger of labels: it numbers those that it hears.
#[derive(Clone, Copy, Debug, PartialEq, Eq, Structural)]
pub struct LabelLogger {
    /// Labels heard so far.
    pub heard: u64,
}

/// Labels heard after another piece of news.
pub open spec fn heard_after(heard: u64, news: LabelNews) -> u64 {
    match news {
        LabelNews::Label { .. } => if heard == u64::MAX {
            heard
        } else {
            (heard + 1) as u64
        },
        LabelNews::Missed(_) => heard,
    }
}

impl LabelLogger {
    /// A logger that has heard nothing.
    pub fn new() -> (logger: Self)
        ensures
            logger.heard == 0,
    {
        LabelLogger { heard: 0 }
    }

    /// The line on a piece of news. Missed labels take no number.
    pub fn line(&mut self, news: &LabelNews) -> (line: String)
        ensures
            final(self).heard == heard_after(old(self).heard, *news),
            line@ == (match *news {
                LabelNews::Label { pulse, correlation } => status::label_text(
                    final(self).heard,
                    pulse,
                    correlation,
                ),
                LabelNews::Missed(missed) => "LOSS missed_correlations="@ + words::number(
                    missed as int,
                ),
            }),
    {
        match news {
            LabelNews::Label { pulse, correlation } => {
                self.heard = self.heard.saturating_add(1);
                label_line(self.heard, *pulse, correlation)
            },
            LabelNews::Missed(missed) => label_loss_line(*missed),
        }
    }
}

// ---- positions -------------------------------------------------------------

/// The line on a position.
pub open spec fn location_text(event: Seq<char>, state: LocationState, now: Instant) -> Seq<char> {
    "event="@ + event + " valid="@ + words::flag(state.valid) + " source="@
        + labels::location_source(state.source) + " lat_e7="@ + words::number(
        state.latitude.degrees_e7 as int,
    ) + " lon_e7="@ + words::number(state.longitude.degrees_e7 as int) + " fix_age_us="@
        + words::number(status::age_us(state.last_fix_system_time, now)) + " fixes_used="@
        + words::number(state.fix_count_used as int) + " fixes_seen="@ + words::number(
        state.total_fix_count_seen as int,
    ) + " sats="@ + words::maybe(wide_u8(state.satellites)) + " hdop_centi="@ + words::maybe(
        wide_u16(state.hdop_centi),
    ) + " uncertainty_m="@ + words::maybe(wide_u32(state.uncertainty_meters)) + " fix_utc="@
        + labels::maybe_date_time(state.last_fix_utc_time)
}

/// The line on a position.
pub fn location_line(event: &str, state: &LocationState, now: Instant) -> (line: String)
    ensures
        line@ == location_text(event@, *state, now),
{
    let mut line: String = begin("event=");
    line.append(event);
    line.append(" valid=");
    push_flag(&mut line, state.valid);
    line.append(" source=");
    push_location_source(&mut line, state.source);
    line.append(" lat_e7=");
    push_signed(&mut line, state.latitude.degrees_e7 as i64);
    line.append(" lon_e7=");
    push_signed(&mut line, state.longitude.degrees_e7 as i64);
    line.append(" fix_age_us=");
    push_number(&mut line, now.saturating_duration_since(state.last_fix_system_time).as_micros());
    line.append(" fixes_used=");
    push_number(&mut line, state.fix_count_used as u64);
    line.append(" fixes_seen=");
    push_number(&mut line, state.total_fix_count_seen);
    line.append(" sats=");
    push_maybe(&mut line, wide_u8(state.satellites));
    line.append(" hdop_centi=");
    push_maybe(&mut line, wide_u16(state.hdop_centi));
    line.append(" uncertainty_m=");
    push_maybe(&mut line, wide_u32(state.uncertainty_meters));
    line.append(" fix_utc=");
    push_maybe_date_time(&mut line, state.last_fix_utc_time);
    line
}

// ---- readings --------------------------------------------------------------

/// The line on three components of a quantity.
pub open spec fn vector_text(
    head: Seq<char>,
    unit: Seq<char>,
    x: i32,
    y: i32,
    z: i32,
    at: Instant,
) -> Seq<char> {
    head + " x_"@ + unit + "="@ + words::number(x as int) + " y_"@ + unit + "="@ + words::number(
        y as int,
    ) + " z_"@ + unit + "="@ + words::number(z as int) + " sample_ticks="@ + words::number(
        at@ as int,
    )
}

/// The line on three components of a quantity.
fn vector_line(head: &str, unit: &str, x: i32, y: i32, z: i32, at: Instant) -> (line: String)
    ensures
        line@ == vector_text(head@, unit@, x, y, z, at),
{
    let mut line: String = begin(head);
    line.append(" x_");
    line.append(unit);
    line.append("=");
    push_signed(&mut line, x as i64);
    line.append(" y_");
    line.append(unit);
    line.append("=");
    push_signed(&mut line, y as i64);
    line.append(" z_");
    line.append(unit);
    line.append("=");
    push_signed(&mut line, z as i64);
    line.append(" sample_ticks=");
    push_number(&mut line, at.as_ticks());
    line
}

/// The line on a reading that is not a current measurement.
pub open spec fn failure_text(reading: SensorReading) -> Seq<char> {
    "sample_failed id="@ + words::number(reading.descriptor.id.0 as int) + " origin="@
        + labels::sensor_origin(reading.descriptor.origin) + " kind="@ + labels::sensor_kind(
        reading.descriptor.kind,
    ) + " status="@ + labels::reading_status(reading.status) + " consecutive_errors="@
        + words::number(reading.consecutive_errors as int) + " total_errors="@ + words::number(
        reading.total_errors as int,
    ) + " last_error="@ + labels::maybe_reading_error(reading.last_error) + " sample_ticks="@
        + words::number(reading.last_attempt@ as int)
}

/// The line on a temperature.
pub open spec fn temperature_text(reading: SensorReading, value: i32) -> Seq<char> {
    "die_temperature origin="@ + labels::sensor_origin(reading.descriptor.origin)
        + " milli_celsius="@ + words::number(value as int) + " sample_ticks="@ + words::number(
        reading.last_attempt@ as int,
    )
}

/// The line on a reading.
pub open spec fn reading_text(reading: SensorReading) -> Seq<char> {
    if reading.status == ReadingStatus::Current {
        match reading.value {
            Some(SensorValue::AccelerationMg { x, y, z }) => vector_text(
                "raw acceleration"@,
                "mg"@,
                x,
                y,
                z,
                reading.last_attempt,
            ),
            Some(SensorValue::MagneticFieldNt { x, y, z }) => vector_text(
                "raw magnetic_field"@,
                "nt"@,
                x,
                y,
                z,
                reading.last_attempt,
            ),
            Some(SensorValue::TemperatureMilliCelsius(value)) => temperature_text(reading, value),
            _ => failure_text(reading),
        }
    } else {
        failure_text(reading)
    }
}

/// The line on a reading that is not a current measurement.
fn failure_line(reading: &SensorReading) -> (line: String)
    ensures
        line@ == failure_text(*reading),
{
    let mut line: String = begin("sample_failed id=");
    push_number(&mut line, reading.descriptor.id.0 as u64);
    line.append(" origin=");
    push_sensor_origin(&mut line, reading.descriptor.origin);
    line.append(" kind=");
    push_sensor_kind(&mut line, reading.descriptor.kind);
    line.append(" status=");
    push_reading_status(&mut line, reading.status);
    line.append(" consecutive_errors=");
    push_number(&mut line, reading.consecutive_errors as u64);
    line.append(" total_errors=");
    push_number(&mut line, reading.total_errors);
    line.append(" last_error=");
    push_maybe_reading_error(&mut line, reading.last_error);
    line.append(" sample_ticks=");
    push_number(&mut line, reading.last_attempt.as_ticks());
    line
}

/// The line on a temperature.
fn temperature_line(reading: &SensorReading, value: i32) -> (line: String)
    ensures
        line@ == temperature_text(*reading, value),
{
    let mut line: String = begin("die_temperature origin=");
    push_sensor_origin(&mut line, reading.descriptor.origin);
    line.append(" milli_celsius=");
    push_signed(&mut line, value as i64);
    line.append(" sample_ticks=");
    push_number(&mut line, reading.last_attempt.as_ticks());
    line
}

/// The line on a reading.
pub fn reading_line(reading: &SensorReading) -> (line: String)
    ensures
        line@ == reading_text(*reading),
{
    if reading.status == ReadingStatus::Current {
        match reading.value {
            Some(SensorValue::AccelerationMg { x, y, z }) => vector_line(
                "raw acceleration",
                "mg",
                x,
                y,
                z,
                reading.last_attempt,
            ),
            Some(SensorValue::MagneticFieldNt { x, y, z }) => vector_line(
                "raw magnetic_field",
                "nt",
                x,
                y,
                z,
                reading.last_attempt,
            ),
            Some(SensorValue::TemperatureMilliCelsius(value)) => temperature_line(reading, value),
            _ => failure_line(reading),
        }
    } else {
        failure_line(reading)
    }
}

/// How often a sensor was tried.
pub open spec fn attempts(reading: SensorReading) -> u64 {
    if reading.sequence + reading.total_errors > u64::MAX {
        u64::MAX
    } else {
        (reading.sequence + reading.total_errors) as u64
    }
}

/// The logger of readings: it reports every attempt once.
#[derive(Debug)]
pub struct ReadingLogger {
    ids: Vec<SensorId>,
    observed: Vec<u64>,
}

/// Whether a sensor's reading shows an attempt that was not reported.
pub open spec fn is_news(readings: Seq<SensorReading>, id: SensorId, observed: u64) -> bool {
    types::is_known(readings, id) && attempts(readings[types::position(readings, id)]) != observed
}

/// What is on record of a sensor after a snapshot.
pub open spec fn observed_after(readings: Seq<SensorReading>, id: SensorId, observed: u64) -> u64 {
    if is_news(readings, id, observed) {
        attempts(readings[types::position(readings, id)])
    } else {
        observed
    }
}

/// The lines on the first `count` sensors of a logger.
pub open spec fn reading_lines(
    readings: Seq<SensorReading>,
    ids: Seq<SensorId>,
    observed: Seq<u64>,
    count: int,
) -> Seq<Seq<char>>
    decreases count,
{
    if count <= 0 {
        Seq::empty()
    } else {
        let before = reading_lines(readings, ids, observed, count - 1);
        let id = ids[count - 1];
        if is_news(readings, id, observed[count - 1]) {
            before.push(reading_text(readings[types::position(readings, id)]))
        } else {
            before
        }
    }
}

/// Messages as contracts speak of them.
pub open spec fn views(lines: Seq<String>) -> Seq<Seq<char>> {
    Seq::new(lines.len(), |i: int| lines[i]@)
}

impl ReadingLogger {
    /// The sensors that are reported, in order.
    pub closed spec fn ids(self) -> Seq<SensorId> {
        self.ids@
    }

    /// Attempts that were reported, for each of the sensors.
    pub closed spec fn observed(self) -> Seq<u64> {
        self.observed@
    }

    /// Whether there is a record for each of the sensors.
    pub open spec fn well_formed(self) -> bool {
        self.observed().len() == self.ids().len()
    }

    /// A logger that has reported nothing.
    pub fn new(ids: Vec<SensorId>) -> (logger: Self)
        ensures
            logger.well_formed(),
            logger.ids() == ids@,
            logger.observed() == Seq::new(ids@.len(), |i: int| 0u64),
    {
        let mut observed: Vec<u64> = Vec::new();
        let count: usize = ids.len();
        let mut i: usize = 0;
        while i < count
            invariant
                i <= count,
                observed@ == Seq::new(i as nat, |j: int| 0u64),
            decreases count - i,
        {
            observed.push(0);
            i = i + 1;
            assert(observed@ =~= Seq::new(i as nat, |j: int| 0u64));
        }
        ReadingLogger { ids, observed }
    }

    /// The lines on a snapshot: one for every sensor that was tried since it
    /// was last reported.
    pub fn lines<const SENSORS: usize>(&mut self, snapshot: &SensorSnapshot<SENSORS>) -> (lines: Vec<
        String,
    >)
        requires
            old(self).well_formed(),
        ensures
            final(self).well_formed(),
            final(self).ids() == old(self).ids(),
            final(self).observed() == Seq::new(
                old(self).ids().len(),
                |i: int|
                    observed_after(
                        snapshot.readings@,
                        old(self).ids()[i],
                        old(self).observed()[i],
                    ),
            ),
            views(lines@) == reading_lines(
                snapshot.readings@,
                old(self).ids(),
                old(self).observed(),
                old(self).ids().len() as int,
            ),
    {
        let mut lines: Vec<String> = Vec::new();
        let count: usize = self.ids.len();
        let mut i: usize = 0;
        assert(views(lines@) =~= Seq::<Seq<char>>::empty());
        while i < count
            invariant
                i <= count,
                count == self.ids@.len(),
                self.ids@ == old(self).ids@,
                self.observed@.len() == count,
                old(self).observed@.len() == count,
                forall|j: int|
                    0 <= j < i ==> #[trigger] self.observed@[j] == observed_after(
                        snapshot.readings@,
                        old(self).ids@[j],
                        old(self).observed@[j],
                    ),
                forall|j: int|
                    i <= j < count ==> #[trigger] self.observed@[j] == old(self).observed@[j],
                views(lines@) == reading_lines(
                    snapshot.readings@,
                    old(self).ids@,
                    old(self).observed@,
                    i as int,
                ),
            decreases count - i,
        {
            let ghost before = lines@;
            match snapshot.reading(self.ids[i]) {
                Some(reading) => {
                    let tried: u64 = reading.sequence.saturating_add(reading.total_errors);
                    if tried != self.observed[i] {
                        self.observed.set(i, tried);
                        lines.push(reading_line(reading));
                        assert(views(lines@) =~= views(before).push(reading_text(*reading)));
                    }
                },
                None => {},
            }
            i = i + 1;
        }
        assert(self.observed@ =~= Seq::new(
            old(self).ids().len(),
            |j: int|
                observed_after(snapshot.readings@, old(self).ids()[j], old(self).observed()[j]),
        ));
        lines
    }
}

/// A snapshot that was reported is not reported again.
pub proof fn law_attempts_are_reported_once(
    readings: Seq<SensorReading>,
    ids: Seq<SensorId>,
    observed: Seq<u64>,
    count: int,
)
    requires
        observed.len() == ids.len(),
        0 <= count <= ids.len(),
    ensures
        reading_lines(
            readings,
            ids,
            Seq::new(ids.len(), |i: int| observed_after(readings, ids[i], observed[i])),
            count,
        ) == Seq::<Seq<char>>::empty(),
    decreases count,
{
    if count > 0 {
        law_attempts_are_reported_once(readings, ids, observed, count - 1);
    }
}

/// Every read and every failure of a sensor counts as an attempt; each label takes
/// the next number, and missed ones take none.
pub proof fn law_attempts_and_labels_are_counted(reading: SensorReading, heard: u64, news: LabelNews)
    ensures
        reading.sequence + reading.total_errors <= u64::MAX ==> attempts(reading)
            == reading.sequence + reading.total_errors,
        news is Label && heard < u64::MAX ==> heard_after(heard, news) == heard + 1,
        news is Missed ==> heard_after(heard, news) == heard,
{
}

/// A report has the lines of the power, the clock, its pulse barrier, the receiver,
/// its pulse and its fix, then that of the fix and the pulse together where both are
/// there, and the latest label last.
pub proof fn law_reports_keep_their_order(inputs: StatusInputs)
    ensures
        ({
            let lines = report(inputs);
            let both = inputs.fix is Some && inputs.pulse is Some;
            &&& lines.len() == if both {
                8int
            } else {
                7
            }
            &&& lines[0] == (
                StatusLog::Power,
                status::power_text(inputs.power, inputs.charge@, inputs.fault@),
            )
            &&& lines[1] == (StatusLog::Time, status::time_text(inputs.time, inputs.utc_at))
            &&& lines[2] == (StatusLog::Time, status::gate_text(inputs.time))
            &&& lines[3] == (StatusLog::Gps, status::gps_text(inputs.gps))
            &&& lines[4] == (StatusLog::Gps, status::pulse_text(inputs.pulse, inputs.now))
            &&& lines[5] == (
                StatusLog::Gps,
                status::fix_text(inputs.fix, inputs.gps.num_fixes, inputs.now),
            )
            &&& both ==> lines[6] == (
                StatusLog::Gps,
                status::pair_text(inputs.fix->0, inputs.pulse->0, inputs.gps.num_fixes),
            )
            &&& lines.last() == (
                StatusLog::Gps,
                status::latest_label_text(inputs.correlation, inputs.now),
            )
        }),
{
}

} // verus!
