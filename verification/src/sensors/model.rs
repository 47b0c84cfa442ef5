//! What the sensor service does, stated on plain values.
use crate::arith;
use crate::clock::{Duration, Instant};
use crate::sensors::composites::inputs;
use crate::sensors::composites::inputs::{
    Angles, CompositeStep, CompositeValidationError, SensorEntry,
};
use crate::sensors::composites::sensor;
use crate::sensors::composites::sensor::CompositeSensor;
use crate::sensors::source::SensorSourceError;
use crate::sensors::thresholds;
use crate::sensors::thresholds::EngineModel;
use crate::sensors::types;
use crate::sensors::types::{
    ReadingError, ReadingStatus, SensorDescriptor, SensorEvent, SensorId, SensorReading,
    SensorServiceStats, SensorValue, SnapshotModel,
};
use vstd::prelude::*;

verus! {

/// A physical sensor with its schedule.
#[derive(Clone, Copy, Debug, PartialEq, Eq, Structural)]
pub struct SourceModel {
    pub descriptor: SensorDescriptor,
    pub poll_interval: Duration,
    pub next_due: Instant,
}

/// Everything the service keeps.
#[verifier::ext_equal]
pub struct SensorModel {
    pub sources: Seq<SourceModel>,
    pub composites: Seq<CompositeSensor>,
    pub engine: EngineModel,
    pub snapshot: SnapshotModel,
    pub failures_before_fault: u32,
}

/// Most entries of each kind that a service takes.
pub struct Capacities {
    pub sources: int,
    pub sensors: int,
    pub composites: int,
    pub rules: int,
    pub events: int,
}

/// Why a sensor was refused.
#[derive(Clone, Copy, Debug, PartialEq, Eq, Structural)]
pub enum RegistrationError {
    SourceCapacity,
    SensorCapacity,
    CompositeCapacity,
    DuplicateId(SensorId),
    ZeroPollInterval,
    Composite(CompositeValidationError),
}

/// What holds of every service: within its capacities, every sensor has its
/// own name, and every source and derived sensor has its reading.
pub open spec fn consistent(m: SensorModel, c: Capacities) -> bool {
    &&& m.sources.len() <= c.sources
    &&& m.snapshot.readings.len() <= c.sensors
    &&& m.composites.len() <= c.composites
    &&& m.engine.rules.len() <= c.rules
    &&& m.failures_before_fault >= 1
    &&& distinct_ids(m.snapshot.readings)
    &&& forall|i: int|
        0 <= i < m.sources.len() ==> types::is_known(
            m.snapshot.readings,
            (#[trigger] m.sources[i]).descriptor.id,
        )
    &&& forall|i: int|
        0 <= i < m.composites.len() ==> types::is_known(
            m.snapshot.readings,
            sensor::descriptor_of(#[trigger] m.composites[i]).id,
        ) && sensor::filter_valid(m.composites[i])
    &&& distinct_sensors(m)
}

/// Whether no two sensors of a service have the same name.
pub open spec fn distinct_sensors(m: SensorModel) -> bool {
    &&& forall|i: int, j: int|
        0 <= i < j < m.sources.len() ==> (#[trigger] m.sources[i]).descriptor.id != (
        #[trigger] m.sources[j]).descriptor.id
    &&& forall|i: int, j: int|
        0 <= i < j < m.composites.len() ==> sensor::descriptor_of(#[trigger] m.composites[i]).id
            != sensor::descriptor_of(#[trigger] m.composites[j]).id
    &&& forall|i: int, j: int|
        0 <= i < m.sources.len() && 0 <= j < m.composites.len() ==> (
        #[trigger] m.sources[i]).descriptor.id != sensor::descriptor_of(
            #[trigger] m.composites[j],
        ).id
}

/// Whether no two readings have the same name.
pub open spec fn distinct_ids(readings: Seq<SensorReading>) -> bool {
    forall|i: int, j: int|
        0 <= i < j < readings.len() ==> (#[trigger] readings[i]).descriptor.id != (
        #[trigger] readings[j]).descriptor.id
}

// ---- registration ----------------------------------------------------------

/// Whether the first source of a sensor stands at a position.
pub open spec fn source_at(sources: Seq<SourceModel>, id: SensorId, index: int) -> bool {
    &&& 0 <= index < sources.len()
    &&& sources[index].descriptor.id == id
    &&& forall|i: int| 0 <= i < index ==> (#[trigger] sources[i]).descriptor.id != id
}

/// Interval of a sensor, where it is a physical one.
pub open spec fn interval_of(sources: Seq<SourceModel>, id: SensorId) -> Option<Duration> {
    if exists|i: int| source_at(sources, id, i) {
        Some(sources[choose|i: int| source_at(sources, id, i)].poll_interval)
    } else {
        None
    }
}

/// The known sensors, as derived sensors choose their inputs from.
pub open spec fn entries(m: SensorModel) -> Seq<SensorEntry> {
    Seq::new(
        m.snapshot.readings.len(),
        |i: int|
            SensorEntry {
                id: m.snapshot.readings[i].descriptor.id,
                kind: m.snapshot.readings[i].descriptor.kind,
                interval: interval_of(m.sources, m.snapshot.readings[i].descriptor.id),
            },
    )
}

/// Why a physical sensor is refused, where it is.
pub open spec fn source_refusal(
    m: SensorModel,
    c: Capacities,
    descriptor: SensorDescriptor,
    poll_interval: Duration,
) -> Option<RegistrationError> {
    if poll_interval@ == 0 {
        Some(RegistrationError::ZeroPollInterval)
    } else if types::is_known(m.snapshot.readings, descriptor.id) {
        Some(RegistrationError::DuplicateId(descriptor.id))
    } else if m.sources.len() >= c.sources {
        Some(RegistrationError::SourceCapacity)
    } else if m.snapshot.readings.len() >= c.sensors {
        Some(RegistrationError::SensorCapacity)
    } else {
        None
    }
}

/// Why a derived sensor is refused, where it is.
pub open spec fn composite_refusal(m: SensorModel, c: Capacities, composite: CompositeSensor) -> Option<
    RegistrationError,
> {
    let id = sensor::descriptor_of(composite).id;
    if types::is_known(m.snapshot.readings, id) {
        Some(RegistrationError::DuplicateId(id))
    } else if m.composites.len() >= c.composites {
        Some(RegistrationError::CompositeCapacity)
    } else {
        match sensor::setup_error(composite, entries(m)) {
            Some(error) => Some(RegistrationError::Composite(error)),
            None => if m.snapshot.readings.len() >= c.sensors {
                Some(RegistrationError::SensorCapacity)
            } else {
                None
            },
        }
    }
}

/// `m` with a reading that was never taken.
pub open spec fn with_sensor(m: SensorModel, descriptor: SensorDescriptor) -> SensorModel {
    SensorModel {
        snapshot: SnapshotModel {
            readings: m.snapshot.readings.push(types::unread(descriptor)),
            ..m.snapshot
        },
        ..m
    }
}

/// A service with one more physical sensor, due at once.
pub open spec fn with_source(
    m: SensorModel,
    descriptor: SensorDescriptor,
    poll_interval: Duration,
) -> SensorModel {
    SensorModel {
        sources: m.sources.push(
            SourceModel { descriptor, poll_interval, next_due: Instant { ticks: 0 } },
        ),
        ..with_sensor(m, descriptor)
    }
}

/// A service with one more derived sensor.
pub open spec fn with_composite(m: SensorModel, composite: CompositeSensor) -> SensorModel {
    SensorModel {
        composites: m.composites.push(composite),
        ..with_sensor(m, sensor::descriptor_of(composite))
    }
}

// ---- readings --------------------------------------------------------------

/// One more than a counter, held at the top of its range.
pub open spec fn counted(value: u64) -> u64 {
    if value == u64::MAX {
        value
    } else {
        (value + 1) as u64
    }
}

/// The next running number.
pub open spec fn following(value: u64) -> u64 {
    if value == u64::MAX {
        0
    } else {
        (value + 1) as u64
    }
}

/// A reading with a new value.
pub open spec fn renewed(reading: SensorReading, value: SensorValue, now: Instant, at: Instant) -> SensorReading {
    SensorReading {
        value: Some(value),
        status: ReadingStatus::Current,
        sequence: following(reading.sequence),
        last_attempt: now,
        last_success: Some(at),
        consecutive_errors: 0,
        last_error: None,
        ..reading
    }
}

/// A reading with one more error; its last good value stays.
pub open spec fn failed(
    reading: SensorReading,
    now: Instant,
    error: ReadingError,
    status: ReadingStatus,
) -> SensorReading {
    SensorReading {
        last_attempt: now,
        consecutive_errors: arith::next_count(reading.consecutive_errors),
        total_errors: counted(reading.total_errors),
        last_error: Some(error),
        status,
        ..reading
    }
}

/// Status of a reading without a new value: its last good value is stale.
pub open spec fn without_value(reading: SensorReading) -> ReadingStatus {
    if reading.value is Some {
        ReadingStatus::Stale
    } else {
        ReadingStatus::Unavailable
    }
}

/// Status of a physical sensor after one more error.
pub open spec fn failing_status(reading: SensorReading, failures_before_fault: u32) -> ReadingStatus {
    if arith::next_count(reading.consecutive_errors) >= failures_before_fault {
        ReadingStatus::Fault
    } else {
        without_value(reading)
    }
}

/// `m` with other counters.
pub open spec fn with_stats(m: SensorModel, stats: SensorServiceStats) -> SensorModel {
    SensorModel { snapshot: SnapshotModel { stats, ..m.snapshot }, ..m }
}

/// `m` with one reading replaced.
pub open spec fn with_reading(m: SensorModel, index: int, reading: SensorReading) -> SensorModel {
    SensorModel {
        snapshot: SnapshotModel {
            readings: m.snapshot.readings.update(index, reading),
            ..m.snapshot
        },
        ..m
    }
}

/// `m` and the events after a reading got a new value and the rules looked at
/// it.
pub open spec fn with_renewed(
    m: SensorModel,
    events: Seq<SensorEvent>,
    c: Capacities,
    id: SensorId,
    value: SensorValue,
    now: Instant,
    at: Instant,
) -> (SensorModel, Seq<SensorEvent>) {
    let index = types::position(m.snapshot.readings, id);
    let reading = renewed(m.snapshot.readings[index], value, now, at);
    let (engine, raised) = thresholds::evaluated(m.engine, events, c.rules, reading);
    (SensorModel { engine, ..with_reading(m, index, reading) }, raised)
}

// ---- one poll --------------------------------------------------------------

/// Whether a source is the first that is due.
pub open spec fn due_at(sources: Seq<SourceModel>, now: Instant, index: int) -> bool {
    &&& 0 <= index < sources.len()
    &&& sources[index].next_due@ <= now@
    &&& forall|i: int| 0 <= i < index ==> (#[trigger] sources[i]).next_due@ > now@
}

/// `m` with a source read: it is due again after its interval.
pub open spec fn rescheduled(m: SensorModel, index: int, now: Instant) -> SensorModel {
    let source = m.sources[index];
    SensorModel {
        sources: m.sources.update(
            index,
            SourceModel {
                next_due: Instant { ticks: (now@ + source.poll_interval@) as u64 },
                ..source
            },
        ),
        ..m
    }
}

/// The service and the events after a source was read.
pub open spec fn sampled(
    m: SensorModel,
    c: Capacities,
    index: int,
    now: Instant,
    result: Result<SensorValue, SensorSourceError>,
) -> (SensorModel, Seq<SensorEvent>) {
    let descriptor = m.sources[index].descriptor;
    let attempted = with_stats(
        rescheduled(m, index, now),
        SensorServiceStats {
            polls_attempted: counted(m.snapshot.stats.polls_attempted),
            ..m.snapshot.stats
        },
    );
    let stats = attempted.snapshot.stats;
    let position = types::position(m.snapshot.readings, descriptor.id);
    let reading = m.snapshot.readings[position];
    let failure = |error: ReadingError|
        with_reading(
            with_stats(
                attempted,
                SensorServiceStats { polls_failed: counted(stats.polls_failed), ..stats },
            ),
            position,
            failed(reading, now, error, failing_status(reading, m.failures_before_fault)),
        );
    match result {
        Ok(value) => if value.fits(descriptor.kind) {
            with_renewed(
                with_stats(
                    attempted,
                    SensorServiceStats {
                        polls_succeeded: counted(stats.polls_succeeded),
                        ..stats
                    },
                ),
                Seq::empty(),
                c,
                descriptor.id,
                value,
                now,
                now,
            )
        } else {
            (failure(ReadingError::IncompatibleValue), Seq::empty())
        },
        Err(error) => (failure(ReadingError::Source(error.code)), Seq::empty()),
    }
}

/// The service and the events after a derived sensor was brought up to date
/// with what it made of the readings.
pub open spec fn applied(
    m: SensorModel,
    events: Seq<SensorEvent>,
    c: Capacities,
    id: SensorId,
    now: Instant,
    outcome: CompositeStep,
    angles: Angles,
) -> (SensorModel, Seq<SensorEvent>) {
    let index = types::position(m.snapshot.readings, id);
    let reading = m.snapshot.readings[index];
    match outcome {
        CompositeStep::NoChange => (m, events),
        CompositeStep::Unavailable => (
            with_reading(
                m,
                index,
                failed(
                    reading,
                    now,
                    ReadingError::CompositeInputUnavailable,
                    without_value(reading),
                ),
            ),
            events,
        ),
        CompositeStep::Updated(sample) => with_renewed(
            m,
            events,
            c,
            id,
            sample.value,
            now,
            sample.observed_at,
        ),
        CompositeStep::NeedsAngles(request) => with_renewed(
            m,
            events,
            c,
            id,
            inputs::answered(request, angles).value,
            now,
            request.observed_at,
        ),
    }
}

/// `m` with a derived sensor that looked at the readings.
pub open spec fn looked(m: SensorModel, index: int, now: Instant) -> SensorModel {
    let (after, step) = sensor::composite_step(m.composites[index], m.snapshot.readings, now);
    SensorModel {
        composites: m.composites.update(index, after),
        ..with_stats(
            m,
            SensorServiceStats {
                composites_evaluated: counted(m.snapshot.stats.composites_evaluated),
                ..m.snapshot.stats
            },
        )
    }
}

/// The service and the events after one derived sensor; `angles` answer its
/// question, where it has one.
pub open spec fn derived(
    m: SensorModel,
    events: Seq<SensorEvent>,
    c: Capacities,
    index: int,
    now: Instant,
    angles: Angles,
) -> (SensorModel, Seq<SensorEvent>) {
    applied(
        looked(m, index, now),
        events,
        c,
        sensor::descriptor_of(m.composites[index]).id,
        now,
        sensor::composite_step(m.composites[index], m.snapshot.readings, now).1,
        angles,
    )
}

/// The service and the events after the first `count` derived sensors, one
/// after the other.
pub open spec fn all_derived(
    m: SensorModel,
    events: Seq<SensorEvent>,
    c: Capacities,
    now: Instant,
    answers: Seq<Angles>,
    count: int,
) -> (SensorModel, Seq<SensorEvent>)
    decreases count,
{
    if count <= 0 {
        (m, events)
    } else {
        let (before, raised) = all_derived(m, events, c, now, answers, count - 1);
        derived(before, raised, c, count - 1, now, answers[count - 1])
    }
}

/// The service once a poll is published.
pub open spec fn published(m: SensorModel, c: Capacities, now: Instant, raised: int, queued: int) -> SensorModel {
    let stats = m.snapshot.stats;
    SensorModel {
        snapshot: SnapshotModel {
            generation: following(m.snapshot.generation),
            published_at: now,
            stats: SensorServiceStats {
                threshold_events_emitted: arith::min(
                    stats.threshold_events_emitted + raised,
                    u64::MAX as int,
                ) as u64,
                event_queue_high_water: arith::max(
                    stats.event_queue_high_water as int,
                    arith::min(arith::min(queued + raised, c.events), u16::MAX as int),
                ) as u16,
                ..stats
            },
            ..m.snapshot
        },
        ..m
    }
}

/// A whole poll: the due source, then every derived sensor, then publishing.
pub open spec fn polled(
    m: SensorModel,
    c: Capacities,
    index: int,
    now: Instant,
    queued: int,
    result: Result<SensorValue, SensorSourceError>,
    answers: Seq<Angles>,
) -> (SensorModel, Seq<SensorEvent>) {
    let (read, first) = sampled(m, c, index, now, result);
    let (after, events) = all_derived(
        read,
        first,
        c,
        now,
        answers,
        read.composites.len() as int,
    );
    (published(after, c, now, events.len() as int, queued), events)
}

// ---- what a poll keeps -----------------------------------------------------

/// Whether two services have the same sensors, rules and parameters.
pub open spec fn same_setup(a: SensorModel, b: SensorModel) -> bool {
    &&& a.sources.len() == b.sources.len()
    &&& forall|i: int|
        0 <= i < a.sources.len() ==> (#[trigger] a.sources[i]).descriptor
            == b.sources[i].descriptor && a.sources[i].poll_interval == b.sources[i].poll_interval
    &&& a.composites.len() == b.composites.len()
    &&& forall|i: int|
        0 <= i < a.composites.len() ==> sensor::descriptor_of(#[trigger] a.composites[i])
            == sensor::descriptor_of(b.composites[i]) && sensor::filter_valid(a.composites[i])
            == sensor::filter_valid(b.composites[i])
    &&& a.engine.rules.len() == b.engine.rules.len()
    &&& a.snapshot.readings.len() == b.snapshot.readings.len()
    &&& forall|i: int|
        0 <= i < a.snapshot.readings.len() ==> (#[trigger] a.snapshot.readings[i]).descriptor
            == b.snapshot.readings[i].descriptor
    &&& a.failures_before_fault == b.failures_before_fault
}

/// A service with the setup of a consistent one is consistent.
pub proof fn lemma_setup_consistent(a: SensorModel, b: SensorModel, c: Capacities)
    requires
        consistent(a, c),
        same_setup(a, b),
    ensures
        consistent(b, c),
{
    assert(distinct_ids(b.snapshot.readings)) by {
        assert forall|i: int, j: int| 0 <= i < j < b.snapshot.readings.len() implies (
        #[trigger] b.snapshot.readings[i]).descriptor.id != (
        #[trigger] b.snapshot.readings[j]).descriptor.id by {
            assert(a.snapshot.readings[i].descriptor.id != a.snapshot.readings[j].descriptor.id);
        }
    }
    assert forall|i: int| 0 <= i < b.sources.len() implies types::is_known(
        b.snapshot.readings,
        (#[trigger] b.sources[i]).descriptor.id,
    ) by {
        lemma_known_in_both(a, b, a.sources[i].descriptor.id);
    }
    assert forall|i: int| 0 <= i < b.composites.len() implies types::is_known(
        b.snapshot.readings,
        sensor::descriptor_of(#[trigger] b.composites[i]).id,
    ) && sensor::filter_valid(b.composites[i]) by {
        lemma_known_in_both(a, b, sensor::descriptor_of(a.composites[i]).id);
    }
    assert(distinct_sensors(b)) by {
        assert forall|i: int, j: int| 0 <= i < j < b.sources.len() implies (
        #[trigger] b.sources[i]).descriptor.id != (#[trigger] b.sources[j]).descriptor.id by {
            assert(a.sources[i].descriptor.id != a.sources[j].descriptor.id);
        }
        assert forall|i: int, j: int| 0 <= i < j < b.composites.len() implies
            sensor::descriptor_of(#[trigger] b.composites[i]).id != sensor::descriptor_of(
            #[trigger] b.composites[j],
        ).id by {
            assert(sensor::descriptor_of(a.composites[i]).id != sensor::descriptor_of(
                a.composites[j],
            ).id);
        }
        assert forall|i: int, j: int|
            0 <= i < b.sources.len() && 0 <= j < b.composites.len() implies (
        #[trigger] b.sources[i]).descriptor.id != sensor::descriptor_of(
            #[trigger] b.composites[j],
        ).id by {
            assert(a.sources[i].descriptor.id != sensor::descriptor_of(a.composites[j]).id);
        }
    }
}

/// A sensor known to a service is known to one with the same setup.
pub proof fn lemma_known_in_both(a: SensorModel, b: SensorModel, id: SensorId)
    requires
        same_setup(a, b),
        types::is_known(a.snapshot.readings, id),
    ensures
        types::is_known(b.snapshot.readings, id),
{
    let i = choose|i: int|
        0 <= i < a.snapshot.readings.len() && (
        #[trigger] a.snapshot.readings[i]).descriptor.id == id;
    assert(b.snapshot.readings[i].descriptor.id == id);
}

/// A known sensor has its position.
pub proof fn lemma_known_position(readings: Seq<SensorReading>, id: SensorId)
    requires
        types::is_known(readings, id),
        distinct_ids(readings),
    ensures
        types::found_at(readings, id, types::position(readings, id)),
        0 <= types::position(readings, id) < readings.len(),
        readings[types::position(readings, id)].descriptor.id == id,
{
    let i = choose|i: int|
        0 <= i < readings.len() && (#[trigger] readings[i]).descriptor.id == id;
    assert(types::found_at(readings, id, i)) by {
        assert forall|j: int| 0 <= j < i implies (#[trigger] readings[j]).descriptor.id != id by {
            assert(readings[j].descriptor.id != readings[i].descriptor.id);
        }
    }
    types::lemma_position(readings, id, i);
}

/// Reading a source keeps the setup.
pub proof fn lemma_sampled_setup(
    m: SensorModel,
    c: Capacities,
    index: int,
    now: Instant,
    result: Result<SensorValue, SensorSourceError>,
)
    requires
        consistent(m, c),
        0 <= index < m.sources.len(),
    ensures
        same_setup(m, sampled(m, c, index, now, result).0),
        sampled(m, c, index, now, result).1.len() <= c.rules,
{
    lemma_known_position(m.snapshot.readings, m.sources[index].descriptor.id);
    if let Ok(value) = result {
        if value.fits(m.sources[index].descriptor.kind) {
            let position = types::position(
                m.snapshot.readings,
                m.sources[index].descriptor.id,
            );
            let reading = renewed(m.snapshot.readings[position], value, now, now);
            lemma_evaluated_keeps_rules(m.engine, Seq::empty(), c.rules, reading);
        }
    }
}

/// Looking at a reading keeps the number of rules, and the events within their
/// capacity.
proof fn lemma_evaluated_keeps_rules(
    engine: EngineModel,
    events: Seq<SensorEvent>,
    capacity: int,
    reading: SensorReading,
)
    ensures
        thresholds::evaluated(engine, events, capacity, reading).0.rules.len()
            == engine.rules.len(),
        events.len() <= capacity ==> thresholds::evaluated(
            engine,
            events,
            capacity,
            reading,
        ).1.len() <= capacity,
{
    thresholds::lemma_rules_kept(engine, events, capacity, reading, engine.rules.len() as int);
    if events.len() <= capacity {
        lemma_events_bounded(engine, events, capacity, reading, engine.rules.len() as int);
    }
}

/// Events stay within their capacity.
proof fn lemma_events_bounded(
    engine: EngineModel,
    events: Seq<SensorEvent>,
    capacity: int,
    reading: SensorReading,
    count: int,
)
    requires
        events.len() <= capacity,
    ensures
        thresholds::evaluated_rules(engine, events, capacity, reading, count).1.len() <= capacity,
    decreases count,
{
    if count > 0 {
        lemma_events_bounded(engine, events, capacity, reading, count - 1);
    }
}

/// Bringing the reading of a derived sensor up to date keeps the setup.
pub proof fn lemma_applied_setup(
    m: SensorModel,
    events: Seq<SensorEvent>,
    c: Capacities,
    id: SensorId,
    now: Instant,
    outcome: CompositeStep,
    angles: Angles,
)
    requires
        consistent(m, c),
        types::is_known(m.snapshot.readings, id),
    ensures
        ({
            let (after, raised) = applied(m, events, c, id, now, outcome, angles);
            &&& same_setup(m, after)
            &&& after.sources == m.sources
            &&& after.composites == m.composites
            &&& events.len() <= c.rules ==> raised.len() <= c.rules
        }),
{
    lemma_known_position(m.snapshot.readings, id);
    let reading = m.snapshot.readings[types::position(m.snapshot.readings, id)];
    match outcome {
        CompositeStep::Updated(sample) => {
            lemma_evaluated_keeps_rules(
                m.engine,
                events,
                c.rules,
                renewed(reading, sample.value, now, sample.observed_at),
            );
        },
        CompositeStep::NeedsAngles(request) => {
            lemma_evaluated_keeps_rules(
                m.engine,
                events,
                c.rules,
                renewed(
                    reading,
                    inputs::answered(request, angles).value,
                    now,
                    request.observed_at,
                ),
            );
        },
        _ => {},
    }
}

/// Bringing a derived sensor up to date keeps the setup.
pub proof fn lemma_derived_setup(
    m: SensorModel,
    events: Seq<SensorEvent>,
    c: Capacities,
    index: int,
    now: Instant,
    angles: Angles,
)
    requires
        consistent(m, c),
        0 <= index < m.composites.len(),
        events.len() <= c.rules,
    ensures
        same_setup(m, derived(m, events, c, index, now, angles).0),
        same_setup(m, looked(m, index, now)),
        derived(m, events, c, index, now, angles).1.len() <= c.rules,
        derived(m, events, c, index, now, angles).0.sources == m.sources,
{
    let composite = m.composites[index];
    sensor::lemma_step_keeps_identity(composite, m.snapshot.readings, now);
    let after = looked(m, index, now);
    lemma_setup_consistent(m, after, c);
    lemma_applied_setup(
        after,
        events,
        c,
        sensor::descriptor_of(composite).id,
        now,
        sensor::composite_step(composite, m.snapshot.readings, now).1,
        angles,
    );
    lemma_setup_transitive(m, after, derived(m, events, c, index, now, angles).0);
}

/// A shared setup is passed on.
pub proof fn lemma_setup_transitive(a: SensorModel, b: SensorModel, d: SensorModel)
    requires
        same_setup(a, b),
        same_setup(b, d),
    ensures
        same_setup(a, d),
{
    assert forall|i: int| 0 <= i < a.sources.len() implies (#[trigger] a.sources[i]).descriptor
        == d.sources[i].descriptor && a.sources[i].poll_interval == d.sources[i].poll_interval by {
        assert(a.sources[i].descriptor == b.sources[i].descriptor);
        assert(b.sources[i].descriptor == d.sources[i].descriptor);
    }
    assert forall|i: int| 0 <= i < a.composites.len() implies sensor::descriptor_of(
        #[trigger] a.composites[i],
    ) == sensor::descriptor_of(d.composites[i]) && sensor::filter_valid(a.composites[i])
        == sensor::filter_valid(d.composites[i]) by {
        assert(sensor::descriptor_of(a.composites[i]) == sensor::descriptor_of(b.composites[i]));
        assert(sensor::descriptor_of(b.composites[i]) == sensor::descriptor_of(d.composites[i]));
    }
    assert forall|i: int| 0 <= i < a.snapshot.readings.len() implies (
    #[trigger] a.snapshot.readings[i]).descriptor == d.snapshot.readings[i].descriptor by {
        assert(a.snapshot.readings[i].descriptor == b.snapshot.readings[i].descriptor);
        assert(b.snapshot.readings[i].descriptor == d.snapshot.readings[i].descriptor);
    }
}

} // verus!
