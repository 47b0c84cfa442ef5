//! Laws on polls: what a sample, a failure and a derived value do to a reading, and
//! what is counted.
use crate::clock::{Duration, Instant};
use crate::sensors::composites::inputs;
use crate::sensors::composites::inputs::{Angles, CompositeStep};
use crate::sensors::composites::laws;
use crate::sensors::composites::sensor;
use crate::sensors::composites::sensor::CompositeSensor;
use crate::sensors::model;
use crate::sensors::model::{Capacities, RegistrationError, SensorModel};
use crate::sensors::source::SensorSourceError;
use crate::sensors::types;
use crate::sensors::types::{
    ReadingError, ReadingStatus, SensorDescriptor, SensorEvent, SensorId, SensorKind,
    SensorReading, SensorValue,
};
use vstd::prelude::*;

verus! {

// ---- values ----------------------------------------------------------------

/// Each kind of sensor delivers its own kind of value, and a heading is less than a
/// full turn.
pub proof fn law_kinds_deliver_their_values(value: SensorValue, kind: SensorKind)
    ensures
        value is AccelerationMg ==> (value.fits(kind) <==> kind == SensorKind::Acceleration),
        value is MagneticFieldNt ==> (value.fits(kind) <==> kind == SensorKind::MagneticField),
        value is TemperatureMilliCelsius ==> (value.fits(kind) <==> kind
            == SensorKind::Temperature),
        value is TiltCentiDegrees ==> (value.fits(kind) <==> kind == SensorKind::Tilt),
        value matches SensorValue::HeadingCentiDegrees(heading) ==> (value.fits(kind) <==> heading
            < 36_000 && (kind == SensorKind::Heading || kind
            == SensorKind::TiltCompensatedHeading)),
        value is DynamicAccelerationMg ==> (value.fits(kind) <==> kind == SensorKind::Vedba || kind
            == SensorKind::Odba),
{
}

/// The readings of a kind are all readings of that kind and no others, in their
/// order.
pub proof fn law_readings_of_a_kind(readings: Seq<SensorReading>, kind: SensorKind)
    ensures
        ({
            let chosen = types::of_kind(readings, kind);
            &&& forall|i: int|
                0 <= i < chosen.len() ==> (#[trigger] chosen[i]).descriptor.kind == kind
                    && readings.contains(chosen[i])
            &&& forall|i: int|
                0 <= i < readings.len() && (#[trigger] readings[i]).descriptor.kind == kind
                    ==> chosen.contains(readings[i])
            &&& chosen.len() <= readings.len()
        }),
    decreases readings.len(),
{
    if readings.len() > 0 {
        let front = readings.drop_last();
        law_readings_of_a_kind(front, kind);
        let before = types::of_kind(front, kind);
        let chosen = types::of_kind(readings, kind);
        assert forall|i: int| 0 <= i < chosen.len() implies (
        #[trigger] chosen[i]).descriptor.kind == kind && readings.contains(chosen[i]) by {
            if i < before.len() {
                assert(chosen[i] == before[i]);
                let j = choose|j: int| 0 <= j < front.len() && front[j] == before[i];
                assert(readings[j] == before[i]);
            } else {
                assert(readings[readings.len() - 1] == chosen[i]);
            }
        }
        assert forall|i: int|
            0 <= i < readings.len() && (#[trigger] readings[i]).descriptor.kind
                == kind implies chosen.contains(readings[i]) by {
            if i < front.len() {
                assert(front[i] == readings[i]);
                let j = choose|j: int| 0 <= j < before.len() && before[j] == front[i];
                assert(chosen[j] == readings[i]);
            } else {
                assert(chosen[chosen.len() - 1] == readings[i]);
            }
        }
    }
}

// ---- one reading -----------------------------------------------------------

/// Whether a reading was renewed: it has the value, of its time, and the next
/// number, and no error stands.
pub open spec fn is_renewed(
    before: SensorReading,
    after: SensorReading,
    value: SensorValue,
    now: Instant,
    at: Instant,
) -> bool {
    &&& after.descriptor == before.descriptor
    &&& after.value == Some(value)
    &&& after.status == ReadingStatus::Current
    &&& before.sequence < u64::MAX ==> after.sequence == before.sequence + 1
    &&& before.sequence == u64::MAX ==> after.sequence == 0
    &&& after.last_attempt == now
    &&& after.last_success == Some(at)
    &&& after.consecutive_errors == 0
    &&& after.total_errors == before.total_errors
    &&& after.last_error is None
}

/// Whether an attempt on a reading failed: the value and its time stay, and the
/// error is told and counted.
pub open spec fn is_failed(
    before: SensorReading,
    after: SensorReading,
    now: Instant,
    error: ReadingError,
) -> bool {
    &&& after.descriptor == before.descriptor
    &&& after.value == before.value
    &&& after.sequence == before.sequence
    &&& after.last_success == before.last_success
    &&& after.last_attempt == now
    &&& after.last_error == Some(error)
    &&& before.consecutive_errors < u32::MAX ==> after.consecutive_errors
        == before.consecutive_errors + 1
    &&& before.total_errors < u64::MAX ==> after.total_errors == before.total_errors + 1
}

/// Whether a counter went up by one, or stands at its end.
pub open spec fn went_up(before: u64, after: u64) -> bool {
    after == before + 1 || before == u64::MAX && after == before
}

/// A sample that fits its sensor becomes the sensor's current reading, at the time
/// of the poll; no other reading changes, the poll counts as a success, and the
/// sensor is due again after its interval.
pub proof fn law_good_sample_becomes_the_reading(
    m: SensorModel,
    c: Capacities,
    index: int,
    now: Instant,
    value: SensorValue,
    k: int,
)
    requires
        0 <= index < m.sources.len(),
        laws::first_at(m.snapshot.readings, m.sources[index].descriptor.id, k),
        value.fits(m.sources[index].descriptor.kind),
        now.ticks + m.sources[index].poll_interval.ticks <= u64::MAX,
    ensures
        ({
            let after = model::sampled(m, c, index, now, Ok(value)).0;
            let (old_stats, stats) = (m.snapshot.stats, after.snapshot.stats);
            &&& is_renewed(m.snapshot.readings[k], after.snapshot.readings[k], value, now, now)
            &&& forall|i: int|
                0 <= i < m.snapshot.readings.len() && i != k ==> after.snapshot.readings[i]
                    == m.snapshot.readings[i]
            &&& after.snapshot.readings.len() == m.snapshot.readings.len()
            &&& went_up(old_stats.polls_attempted, stats.polls_attempted)
            &&& went_up(old_stats.polls_succeeded, stats.polls_succeeded)
            &&& stats.polls_failed == old_stats.polls_failed
            &&& after.sources[index].next_due.ticks == now.ticks
                + m.sources[index].poll_interval.ticks
        }),
{
    let id = m.sources[index].descriptor.id;
    assert(types::found_at(m.snapshot.readings, id, k));
    types::lemma_position(m.snapshot.readings, id, k);
}

/// A sample that failed, or does not fit its sensor, is a failure of the sensor's
/// reading: a fault from the configured number of failures in a row on, and until
/// then a stale value, or none. No rule is shown anything.
pub proof fn law_bad_sample_is_a_failure(
    m: SensorModel,
    c: Capacities,
    index: int,
    now: Instant,
    result: Result<SensorValue, SensorSourceError>,
    k: int,
)
    requires
        0 <= index < m.sources.len(),
        laws::first_at(m.snapshot.readings, m.sources[index].descriptor.id, k),
        result is Ok ==> !result->Ok_0.fits(m.sources[index].descriptor.kind),
        now.ticks + m.sources[index].poll_interval.ticks <= u64::MAX,
    ensures
        ({
            let (after, events) = model::sampled(m, c, index, now, result);
            let (old_stats, stats) = (m.snapshot.stats, after.snapshot.stats);
            let before = m.snapshot.readings[k];
            let reading = after.snapshot.readings[k];
            let error = match result {
                Ok(_) => ReadingError::IncompatibleValue,
                Err(error) => ReadingError::Source(error.code),
            };
            &&& is_failed(before, reading, now, error)
            &&& reading.consecutive_errors >= m.failures_before_fault ==> reading.status
                == ReadingStatus::Fault
            &&& reading.consecutive_errors < m.failures_before_fault && before.value is Some
                ==> reading.status == ReadingStatus::Stale
            &&& reading.consecutive_errors < m.failures_before_fault && before.value is None
                ==> reading.status == ReadingStatus::Unavailable
            &&& forall|i: int|
                0 <= i < m.snapshot.readings.len() && i != k ==> after.snapshot.readings[i]
                    == m.snapshot.readings[i]
            &&& events.len() == 0
            &&& after.engine == m.engine
            &&& went_up(old_stats.polls_attempted, stats.polls_attempted)
            &&& went_up(old_stats.polls_failed, stats.polls_failed)
            &&& stats.polls_succeeded == old_stats.polls_succeeded
            &&& after.sources[index].next_due.ticks == now.ticks
                + m.sources[index].poll_interval.ticks
        }),
{
    let id = m.sources[index].descriptor.id;
    assert(types::found_at(m.snapshot.readings, id, k));
    types::lemma_position(m.snapshot.readings, id, k);
}

/// What a derived sensor makes of the readings becomes its own reading: a value
/// with the time it belongs to, or a failure for want of input, which is never a
/// fault; and nothing where nothing changed.
pub proof fn law_derived_value_becomes_the_reading(
    m: SensorModel,
    events: Seq<SensorEvent>,
    c: Capacities,
    id: SensorId,
    now: Instant,
    outcome: CompositeStep,
    angles: Angles,
    k: int,
)
    requires
        laws::first_at(m.snapshot.readings, id, k),
    ensures
        ({
            let (after, raised) = model::applied(m, events, c, id, now, outcome, angles);
            let before = m.snapshot.readings[k];
            let reading = after.snapshot.readings[k];
            &&& forall|i: int|
                0 <= i < m.snapshot.readings.len() && i != k ==> after.snapshot.readings[i]
                    == m.snapshot.readings[i]
            &&& after.snapshot.stats == m.snapshot.stats
            &&& match outcome {
                CompositeStep::NoChange => after == m && raised == events,
                CompositeStep::Unavailable => {
                    &&& is_failed(before, reading, now, ReadingError::CompositeInputUnavailable)
                    &&& before.value is Some ==> reading.status == ReadingStatus::Stale
                    &&& before.value is None ==> reading.status == ReadingStatus::Unavailable
                    &&& raised == events
                },
                CompositeStep::Updated(sample) => is_renewed(
                    before,
                    reading,
                    sample.value,
                    now,
                    sample.observed_at,
                ),
                CompositeStep::NeedsAngles(request) => is_renewed(
                    before,
                    reading,
                    inputs::answered(request, angles).value,
                    now,
                    request.observed_at,
                ),
            }
        }),
{
    assert(types::found_at(m.snapshot.readings, id, k));
    types::lemma_position(m.snapshot.readings, id, k);
}

/// Looking at the readings counts as one evaluation, whatever comes of it.
pub proof fn law_each_look_is_counted(m: SensorModel, index: int, now: Instant)
    requires
        0 <= index < m.composites.len(),
    ensures
        ({
            let after = model::looked(m, index, now);
            &&& went_up(
                m.snapshot.stats.composites_evaluated,
                after.snapshot.stats.composites_evaluated,
            )
            &&& after.snapshot.readings == m.snapshot.readings
            &&& after.snapshot.stats.polls_attempted == m.snapshot.stats.polls_attempted
            &&& after.composites.len() == m.composites.len()
            &&& after.composites[index] == sensor::composite_step(
                m.composites[index],
                m.snapshot.readings,
                now,
            ).0
        }),
{
}

/// Publishing gives the readings the next generation and the time, adds the raised
/// events to those emitted, and keeps the highest that the queue ever stood, with
/// the new events in it as far as it holds them.
pub proof fn law_publishing_counts_events(
    m: SensorModel,
    c: Capacities,
    now: Instant,
    raised: int,
    queued: int,
)
    requires
        0 <= raised,
        0 <= queued,
        0 <= c.events,
    ensures
        ({
            let after = model::published(m, c, now, raised, queued).snapshot;
            let (before, stats) = (m.snapshot.stats, after.stats);
            &&& after.readings == m.snapshot.readings
            &&& after.published_at == now
            &&& m.snapshot.generation < u64::MAX ==> after.generation == m.snapshot.generation + 1
            &&& m.snapshot.generation == u64::MAX ==> after.generation == 0
            &&& before.threshold_events_emitted + raised <= u64::MAX
                ==> stats.threshold_events_emitted == before.threshold_events_emitted + raised
            &&& stats.event_queue_high_water >= before.event_queue_high_water
            &&& queued + raised <= c.events && queued + raised <= u16::MAX
                ==> stats.event_queue_high_water >= queued + raised
            &&& queued + raised >= c.events && c.events <= u16::MAX
                ==> stats.event_queue_high_water >= c.events
            &&& stats.event_queue_high_water == before.event_queue_high_water
                || stats.event_queue_high_water == queued + raised || stats.event_queue_high_water
                == c.events || stats.event_queue_high_water == u16::MAX
            &&& stats.event_queue_high_water <= before.event_queue_high_water
                || stats.event_queue_high_water <= queued + raised && stats.event_queue_high_water
                <= c.events
        }),
{
}

// ---- registration ----------------------------------------------------------

/// A physical sensor is refused for an interval of nothing, for a name that is
/// taken, and for want of room, and for nothing else.
pub proof fn law_sources_are_refused_for_a_reason(
    m: SensorModel,
    c: Capacities,
    descriptor: SensorDescriptor,
    poll_interval: Duration,
)
    ensures
        ({
            let taken = exists|i: int|
                0 <= i < m.snapshot.readings.len() && (
                #[trigger] m.snapshot.readings[i]).descriptor.id == descriptor.id;
            match model::source_refusal(m, c, descriptor, poll_interval) {
                None => poll_interval.ticks > 0 && !taken && m.sources.len() < c.sources
                    && m.snapshot.readings.len() < c.sensors,
                Some(RegistrationError::ZeroPollInterval) => poll_interval.ticks == 0,
                Some(RegistrationError::DuplicateId(id)) => id == descriptor.id && taken,
                Some(RegistrationError::SourceCapacity) => m.sources.len() >= c.sources,
                Some(RegistrationError::SensorCapacity) => m.snapshot.readings.len() >= c.sensors,
                Some(_) => false,
            }
        }),
{
}

/// A derived sensor is refused for a name that is taken, for want of room, and for
/// what keeps it from being set up, and for nothing else.
pub proof fn law_composites_are_refused_for_a_reason(
    m: SensorModel,
    c: Capacities,
    composite: CompositeSensor,
)
    ensures
        ({
            let id = sensor::descriptor_of(composite).id;
            let taken = exists|i: int|
                0 <= i < m.snapshot.readings.len() && (
                #[trigger] m.snapshot.readings[i]).descriptor.id == id;
            let error = sensor::setup_error(composite, model::entries(m));
            match model::composite_refusal(m, c, composite) {
                None => !taken && m.composites.len() < c.composites && error is None
                    && m.snapshot.readings.len() < c.sensors,
                Some(RegistrationError::DuplicateId(other)) => other == id && taken,
                Some(RegistrationError::CompositeCapacity) => m.composites.len() >= c.composites,
                Some(RegistrationError::Composite(reason)) => Some(reason) == error,
                Some(RegistrationError::SensorCapacity) => m.snapshot.readings.len() >= c.sensors,
                Some(_) => false,
            }
        }),
{
}

/// A new physical sensor stands behind the others, without a value, and is due at
/// once.
pub proof fn law_new_source_is_due_at_once(
    m: SensorModel,
    descriptor: SensorDescriptor,
    poll_interval: Duration,
)
    ensures
        ({
            let after = model::with_source(m, descriptor, poll_interval);
            let reading = after.snapshot.readings.last();
            &&& after.sources.drop_last() == m.sources
            &&& after.sources.last().descriptor == descriptor
            &&& after.sources.last().poll_interval == poll_interval
            &&& after.sources.last().next_due.ticks == 0
            &&& after.composites == m.composites
            &&& after.snapshot.readings.drop_last() == m.snapshot.readings
            &&& is_unread(reading, descriptor)
        }),
{
    let after = model::with_source(m, descriptor, poll_interval);
    assert(after.sources.drop_last() =~= m.sources);
    assert(after.snapshot.readings.drop_last() =~= m.snapshot.readings);
}

/// Whether a reading is that of a sensor that was never read.
pub open spec fn is_unread(reading: SensorReading, descriptor: SensorDescriptor) -> bool {
    &&& reading.descriptor == descriptor
    &&& reading.value is None
    &&& reading.status == ReadingStatus::Unavailable
    &&& reading.sequence == 0
    &&& reading.last_success is None
    &&& reading.consecutive_errors == 0
    &&& reading.total_errors == 0
    &&& reading.last_error is None
}

/// A new derived sensor stands behind the others, without a value.
pub proof fn law_new_composite_has_no_value(m: SensorModel, composite: CompositeSensor)
    ensures
        ({
            let after = model::with_composite(m, composite);
            let reading = after.snapshot.readings.last();
            &&& after.sources == m.sources
            &&& after.composites.drop_last() == m.composites
            &&& after.composites.last() == composite
            &&& after.snapshot.readings.drop_last() == m.snapshot.readings
            &&& is_unread(reading, sensor::descriptor_of(composite))
        }),
{
    let after = model::with_composite(m, composite);
    assert(after.composites.drop_last() =~= m.composites);
    assert(after.snapshot.readings.drop_last() =~= m.snapshot.readings);
}

/// What derived sensors are told of the known ones: name, kind, and the interval of
/// a physical one.
pub proof fn law_known_sensors_are_listed(m: SensorModel, i: int, k: int)
    requires
        0 <= i < m.snapshot.readings.len(),
        ({
            let id = m.snapshot.readings[i].descriptor.id;
            ||| forall|j: int|
                0 <= j < m.sources.len() ==> (#[trigger] m.sources[j]).descriptor.id != id
            ||| 0 <= k < m.sources.len() && m.sources[k].descriptor.id == id && forall|j: int|
                0 <= j < k ==> (#[trigger] m.sources[j]).descriptor.id != id
        }),
    ensures
        ({
            let entry = model::entries(m)[i];
            let descriptor = m.snapshot.readings[i].descriptor;
            let physical = 0 <= k < m.sources.len() && m.sources[k].descriptor.id == descriptor.id;
            &&& model::entries(m).len() == m.snapshot.readings.len()
            &&& entry.id == descriptor.id
            &&& entry.kind == descriptor.kind
            &&& physical ==> entry.interval == Some(m.sources[k].poll_interval)
            &&& !physical ==> entry.interval is None
        }),
{
    let id = m.snapshot.readings[i].descriptor.id;
    if 0 <= k < m.sources.len() && m.sources[k].descriptor.id == id {
        assert(model::source_at(m.sources, id, k));
        let other = choose|j: int| model::source_at(m.sources, id, j);
        if other < k {
            assert(m.sources[other].descriptor.id != id);
        } else if k < other {
            assert(m.sources[k].descriptor.id != id);
        }
    }
}

} // verus!
