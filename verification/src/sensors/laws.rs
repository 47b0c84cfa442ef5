//! What the sensor service promises over several calls.
use crate::clock::Instant;
use crate::sensors::composites::inputs;
use crate::sensors::composites::inputs::{Angles, CompositeStep};
use crate::sensors::composites::sensor;
use crate::sensors::model;
use crate::sensors::model::{Capacities, SensorModel};
use crate::sensors::source::SensorSourceError;
use crate::sensors::thresholds;
use crate::sensors::types;
use crate::sensors::types::{
    ReadingError, ReadingStatus, SensorEvent, SensorId, SensorReading, SensorServiceStats,
    SensorValue,
};
use vstd::prelude::*;

verus! {

/// A physical sensor's reading after several errors in a row.
pub open spec fn after_failures(
    reading: SensorReading,
    errors: Seq<(Instant, ReadingError)>,
    failures_before_fault: u32,
) -> SensorReading
    decreases errors.len(),
{
    if errors.len() == 0 {
        reading
    } else {
        let before = after_failures(reading, errors.drop_last(), failures_before_fault);
        let (now, error) = errors.last();
        model::failed(before, now, error, model::failing_status(before, failures_before_fault))
    }
}

/// Errors in a row keep the last good value, which is stale until there are
/// enough of them for a fault.
pub proof fn law_failures_keep_the_value_and_end_in_fault(
    reading: SensorReading,
    errors: Seq<(Instant, ReadingError)>,
    failures_before_fault: u32,
)
    requires
        errors.len() > 0,
        reading.consecutive_errors == 0,
        errors.len() < u32::MAX,
    ensures
        ({
            let after = after_failures(reading, errors, failures_before_fault);
            &&& after.value == reading.value
            &&& after.last_success == reading.last_success
            &&& after.sequence == reading.sequence
            &&& after.consecutive_errors == errors.len()
            &&& after.last_error == Some(errors.last().1)
            &&& after.status == (if errors.len() >= failures_before_fault {
                ReadingStatus::Fault
            } else if reading.value is Some {
                ReadingStatus::Stale
            } else {
                ReadingStatus::Unavailable
            })
        }),
    decreases errors.len(),
{
    reveal_with_fuel(after_failures, 2);
    if errors.len() > 1 {
        law_failures_keep_the_value_and_end_in_fault(
            reading,
            errors.drop_last(),
            failures_before_fault,
        );
    } else {
        assert(errors.drop_last() =~= Seq::empty());
    }
}

/// A new value ends every row of errors.
pub proof fn law_new_value_ends_the_errors(
    reading: SensorReading,
    value: SensorValue,
    now: Instant,
    at: Instant,
)
    ensures
        ({
            let after = model::renewed(reading, value, now, at);
            &&& after.status == ReadingStatus::Current
            &&& after.consecutive_errors == 0
            &&& after.last_error is None
            &&& after.total_errors == reading.total_errors
            &&& after.sequence != reading.sequence
        }),
{
}

/// Deriving readings leaves the schedules alone, and every reading that is not
/// derived.
proof fn lemma_deriving_keeps_the_rest(
    m: SensorModel,
    events: Seq<SensorEvent>,
    c: Capacities,
    now: Instant,
    answers: Seq<Angles>,
    count: int,
)
    requires
        model::consistent(m, c),
        events.len() <= c.rules,
        0 <= count <= m.composites.len(),
    ensures
        ({
            let (after, raised) = model::all_derived(m, events, c, now, answers, count);
            &&& model::consistent(after, c)
            &&& model::same_setup(m, after)
            &&& raised.len() <= c.rules
            &&& after.sources == m.sources
            &&& forall|i: int|
                0 <= i < m.snapshot.readings.len() && !is_derived(m, i)
                    ==> #[trigger] after.snapshot.readings[i] == m.snapshot.readings[i]
        }),
    decreases count,
{
    if count > 0 {
        lemma_deriving_keeps_the_rest(m, events, c, now, answers, count - 1);
        let (before, raised) = model::all_derived(m, events, c, now, answers, count - 1);
        let (after, last) = model::all_derived(m, events, c, now, answers, count);
        model::lemma_derived_setup(before, raised, c, count - 1, now, answers[count - 1]);
        model::lemma_setup_transitive(m, before, after);
        model::lemma_setup_consistent(m, after, c);
        let id = sensor::descriptor_of(before.composites[count - 1]).id;
        model::lemma_known_position(before.snapshot.readings, id);
        let position = types::position(before.snapshot.readings, id);
        assert forall|i: int| 0 <= i < m.snapshot.readings.len() && !is_derived(m, i)
            implies #[trigger] after.snapshot.readings[i] == m.snapshot.readings[i] by {
            assert(before.snapshot.readings[i] == m.snapshot.readings[i]);
            assert(sensor::descriptor_of(m.composites[count - 1]).id == id);
            assert(m.snapshot.readings[i].descriptor == before.snapshot.readings[i].descriptor);
            assert(i != position);
        }
    }
}

/// Whether a reading belongs to a derived sensor.
pub open spec fn is_derived(m: SensorModel, index: int) -> bool {
    exists|i: int|
        0 <= i < m.composites.len() && sensor::descriptor_of(#[trigger] m.composites[i]).id
            == m.snapshot.readings[index].descriptor.id
}

/// A poll touches the due source's reading and derived readings, nothing else,
/// and moves only the due source's schedule, by its interval.
pub proof fn law_poll_touches_only_its_sensors(
    m: SensorModel,
    c: Capacities,
    index: int,
    now: Instant,
    queued: int,
    result: Result<SensorValue, SensorSourceError>,
    answers: Seq<Angles>,
)
    requires
        model::consistent(m, c),
        model::due_at(m.sources, now, index),
        now@ + m.sources[index].poll_interval@ <= u64::MAX,
        c.rules >= 0,
    ensures
        ({
            let after = model::polled(m, c, index, now, queued, result, answers).0;
            &&& model::consistent(after, c)
            &&& after.sources[index].next_due@ == now@ + m.sources[index].poll_interval@
            &&& forall|i: int|
                0 <= i < m.sources.len() && i != index ==> #[trigger] after.sources[i]
                    == m.sources[i]
            &&& forall|i: int|
                0 <= i < m.snapshot.readings.len() && !is_derived(m, i)
                    && m.snapshot.readings[i].descriptor.id != m.sources[index].descriptor.id
                    ==> #[trigger] after.snapshot.readings[i] == m.snapshot.readings[i]
        }),
{
    let (read, first) = model::sampled(m, c, index, now, result);
    model::lemma_sampled_setup(m, c, index, now, result);
    model::lemma_setup_consistent(m, read, c);
    lemma_deriving_keeps_the_rest(read, first, c, now, answers, read.composites.len() as int);
    let (derived, events) = model::all_derived(
        read,
        first,
        c,
        now,
        answers,
        read.composites.len() as int,
    );
    let after = model::polled(m, c, index, now, queued, result, answers).0;
    model::lemma_setup_consistent(derived, after, c);
    let id = m.sources[index].descriptor.id;
    model::lemma_known_position(m.snapshot.readings, id);
    let position = types::position(m.snapshot.readings, id);
    assert forall|i: int|
        0 <= i < m.snapshot.readings.len() && !is_derived(m, i)
            && m.snapshot.readings[i].descriptor.id
            != id implies #[trigger] after.snapshot.readings[i] == m.snapshot.readings[i] by {
        assert(i != position);
        assert(read.snapshot.readings[i] == m.snapshot.readings[i]);
        assert(read.composites == m.composites);
        assert(!is_derived(read, i));
        assert(derived.snapshot.readings[i] == read.snapshot.readings[i]);
    }
}

/// A source that was just read is not due again before its interval is over.
pub proof fn law_source_rests_for_its_interval(
    m: SensorModel,
    index: int,
    now: Instant,
    later: Instant,
)
    requires
        0 <= index < m.sources.len(),
        now@ + m.sources[index].poll_interval@ <= u64::MAX,
        later@ < now@ + m.sources[index].poll_interval@,
    ensures
        !model::due_at(model::rescheduled(m, index, now).sources, later, index),
{
}

/// Names of a poll's source and of the first `count` derived sensors.
pub open spec fn polled_ids(m: SensorModel, index: int, count: int) -> Set<SensorId>
    decreases count,
{
    if count <= 0 {
        set![m.sources[index].descriptor.id]
    } else {
        polled_ids(m, index, count - 1).insert(
            sensor::descriptor_of(m.composites[count - 1]).id,
        )
    }
}

/// A derived sensor is none of those before it, nor the source.
proof fn lemma_polled_once(m: SensorModel, c: Capacities, index: int, count: int, later: int)
    requires
        model::consistent(m, c),
        0 <= index < m.sources.len(),
        0 <= count <= later < m.composites.len(),
    ensures
        !polled_ids(m, index, count).contains(sensor::descriptor_of(m.composites[later]).id),
    decreases count,
{
    if count > 0 {
        lemma_polled_once(m, c, index, count - 1, later);
    }
}

/// A new value of a sensor that was not polled yet leaves no gap in the numbers
/// of the events.
proof fn lemma_renewing_loses_nothing(
    m: SensorModel,
    events: Seq<SensorEvent>,
    c: Capacities,
    id: SensorId,
    value: SensorValue,
    now: Instant,
    at: Instant,
    sensors: Set<SensorId>,
    base: u64,
)
    requires
        model::consistent(m, c),
        types::is_known(m.snapshot.readings, id),
        !sensors.contains(id),
        events.len() <= thresholds::watching(
            m.engine.rules,
            sensors,
            m.engine.rules.len() as int,
        ),
        thresholds::numbered(events, base, m.engine.next_event_sequence),
    ensures
        ({
            let (after, raised) = model::with_renewed(m, events, c, id, value, now, at);
            &&& raised.len() <= thresholds::watching(
                m.engine.rules,
                sensors.insert(id),
                m.engine.rules.len() as int,
            )
            &&& thresholds::numbered(raised, base, after.engine.next_event_sequence)
            &&& after.engine.rules.len() == m.engine.rules.len()
            &&& forall|i: int|
                0 <= i < m.engine.rules.len() ==> after.engine.rules[i].rule
                    == m.engine.rules[i].rule
        }),
{
    let count = m.engine.rules.len() as int;
    model::lemma_known_position(m.snapshot.readings, id);
    let position = types::position(m.snapshot.readings, id);
    let reading = model::renewed(m.snapshot.readings[position], value, now, at);
    thresholds::lemma_rules_kept(m.engine, events, c.rules, reading, count);
    thresholds::lemma_no_event_lost(
        m.engine,
        events,
        c.rules,
        reading,
        sensors,
        base,
        count,
    );
    thresholds::lemma_watching_one_more(m.engine.rules, sensors, id, count);
}

/// Deriving readings leaves no gap in the numbers of the events.
proof fn lemma_deriving_loses_nothing(
    m: SensorModel,
    events: Seq<SensorEvent>,
    c: Capacities,
    index: int,
    now: Instant,
    answers: Seq<Angles>,
    base: u64,
    count: int,
)
    requires
        model::consistent(m, c),
        0 <= index < m.sources.len(),
        0 <= count <= m.composites.len(),
        events.len() <= c.rules,
        events.len() <= thresholds::watching(
            m.engine.rules,
            polled_ids(m, index, 0),
            m.engine.rules.len() as int,
        ),
        thresholds::numbered(events, base, m.engine.next_event_sequence),
    ensures
        ({
            let (after, raised) = model::all_derived(m, events, c, now, answers, count);
            &&& raised.len() <= thresholds::watching(
                m.engine.rules,
                polled_ids(m, index, count),
                m.engine.rules.len() as int,
            )
            &&& thresholds::numbered(raised, base, after.engine.next_event_sequence)
            &&& after.engine.rules.len() == m.engine.rules.len()
            &&& forall|i: int|
                0 <= i < m.engine.rules.len() ==> after.engine.rules[i].rule
                    == m.engine.rules[i].rule
        }),
    decreases count,
{
    if count > 0 {
        lemma_deriving_loses_nothing(m, events, c, index, now, answers, base, count - 1);
        lemma_deriving_keeps_the_rest(m, events, c, now, answers, count - 1);
        let (before, raised) = model::all_derived(m, events, c, now, answers, count - 1);
        let sensors = polled_ids(m, index, count - 1);
        let rules = m.engine.rules.len() as int;
        let id = sensor::descriptor_of(before.composites[count - 1]).id;
        assert(id == sensor::descriptor_of(m.composites[count - 1]).id);
        lemma_polled_once(m, c, index, count - 1, count - 1);
        thresholds::lemma_watching_kept(m.engine.rules, before.engine.rules, sensors, rules);
        thresholds::lemma_watching_kept(
            m.engine.rules,
            before.engine.rules,
            sensors.insert(id),
            rules,
        );
        thresholds::lemma_watching_one_more(m.engine.rules, sensors, id, rules);
        thresholds::lemma_watching_holds(m.engine.rules, set![id], rules);
        let looked = model::looked(before, count - 1, now);
        model::lemma_derived_setup(before, raised, c, count - 1, now, answers[count - 1]);
        model::lemma_setup_consistent(before, looked, c);
        match sensor::composite_step(before.composites[count - 1], before.snapshot.readings, now).1 {
            CompositeStep::Updated(sample) => {
                lemma_renewing_loses_nothing(
                    looked,
                    raised,
                    c,
                    id,
                    sample.value,
                    now,
                    sample.observed_at,
                    sensors,
                    base,
                );
            },
            CompositeStep::NeedsAngles(request) => {
                lemma_renewing_loses_nothing(
                    looked,
                    raised,
                    c,
                    id,
                    inputs::answered(request, answers[count - 1]).value,
                    now,
                    request.observed_at,
                    sensors,
                    base,
                );
            },
            _ => {},
        }
    }
}

/// A poll loses no event: each rule raises one at most, so there is room for
/// all of them, and they bear the next numbers without a gap.
pub proof fn law_poll_loses_no_event(
    m: SensorModel,
    c: Capacities,
    index: int,
    now: Instant,
    queued: int,
    result: Result<SensorValue, SensorSourceError>,
    answers: Seq<Angles>,
)
    requires
        model::consistent(m, c),
        model::due_at(m.sources, now, index),
    ensures
        ({
            let (after, events) = model::polled(m, c, index, now, queued, result, answers);
            &&& events.len() <= m.engine.rules.len()
            &&& thresholds::numbered(
                events,
                m.engine.next_event_sequence,
                after.engine.next_event_sequence,
            )
        }),
{
    let base = m.engine.next_event_sequence;
    let rules = m.engine.rules.len() as int;
    let id = m.sources[index].descriptor.id;
    let none = Set::<SensorId>::empty();
    let (read, first) = model::sampled(m, c, index, now, result);
    model::lemma_sampled_setup(m, c, index, now, result);
    model::lemma_setup_consistent(m, read, c);
    thresholds::lemma_watching_holds(m.engine.rules, none, rules);
    thresholds::lemma_watching_holds(m.engine.rules, set![id], rules);
    assert(none.insert(id) =~= set![id]);
    if let Ok(value) = result {
        if value.fits(m.sources[index].descriptor.kind) {
            let stats = SensorServiceStats {
                polls_attempted: model::counted(m.snapshot.stats.polls_attempted),
                polls_succeeded: model::counted(m.snapshot.stats.polls_succeeded),
                ..m.snapshot.stats
            };
            let attempted = model::with_stats(model::rescheduled(m, index, now), stats);
            model::lemma_setup_consistent(m, attempted, c);
            lemma_renewing_loses_nothing(
                attempted,
                Seq::empty(),
                c,
                id,
                value,
                now,
                now,
                none,
                base,
            );
        }
    }
    thresholds::lemma_watching_kept(m.engine.rules, read.engine.rules, set![id], rules);
    lemma_deriving_loses_nothing(
        read,
        first,
        c,
        index,
        now,
        answers,
        base,
        read.composites.len() as int,
    );
    thresholds::lemma_watching_holds(
        read.engine.rules,
        polled_ids(read, index, read.composites.len() as int),
        rules,
    );
}

/// The source that is polled is the first one whose instant has come.
pub proof fn law_first_due_source_is_polled(m: SensorModel, now: Instant, index: int)
    requires
        0 <= index < m.sources.len(),
    ensures
        model::due_at(m.sources, now, index) <==> {
            &&& m.sources[index].next_due.ticks <= now.ticks
            &&& forall|i: int|
                0 <= i < index ==> (#[trigger] m.sources[i]).next_due.ticks > now.ticks
        },
{
}

/// Every derived sensor looks at the readings once.
proof fn lemma_looks_are_counted(
    m: SensorModel,
    events: Seq<SensorEvent>,
    c: Capacities,
    now: Instant,
    answers: Seq<Angles>,
    count: int,
)
    requires
        0 <= count,
        m.snapshot.stats.composites_evaluated + count <= u64::MAX,
    ensures
        ({
            let (before, after) = (
                m.snapshot,
                model::all_derived(m, events, c, now, answers, count).0.snapshot,
            );
            &&& after.stats == (SensorServiceStats {
                composites_evaluated: (before.stats.composites_evaluated + count) as u64,
                ..before.stats
            })
            &&& after.generation == before.generation
        }),
    decreases count,
{
    if count > 0 {
        lemma_looks_are_counted(m, events, c, now, answers, count - 1);
    }
}

/// A poll publishes what it sampled as the next generation. Every derived sensor has
/// looked at the readings once, and the events that were raised are counted.
pub proof fn law_poll_publishes_what_it_sampled(
    m: SensorModel,
    c: Capacities,
    index: int,
    now: Instant,
    queued: int,
    result: Result<SensorValue, SensorSourceError>,
    answers: Seq<Angles>,
)
    requires
        model::consistent(m, c),
        0 <= index < m.sources.len(),
        c.rules >= 0,
        m.snapshot.generation < u64::MAX,
        m.snapshot.stats.composites_evaluated + m.composites.len() <= u64::MAX,
        m.snapshot.stats.threshold_events_emitted + c.rules <= u64::MAX,
        m.snapshot.stats.polls_attempted < u64::MAX,
    ensures
        ({
            let read = model::sampled(m, c, index, now, result).0;
            let (after, events) = model::polled(m, c, index, now, queued, result, answers);
            let (before, stats) = (m.snapshot.stats, after.snapshot.stats);
            &&& forall|i: int|
                0 <= i < m.snapshot.readings.len() && !is_derived(m, i)
                    ==> #[trigger] after.snapshot.readings[i] == read.snapshot.readings[i]
            &&& after.snapshot.generation == m.snapshot.generation + 1
            &&& after.snapshot.published_at == now
            &&& stats.composites_evaluated == before.composites_evaluated + m.composites.len()
            &&& stats.threshold_events_emitted == before.threshold_events_emitted + events.len()
            &&& stats.polls_attempted == before.polls_attempted + 1
        }),
{
    let (read, first) = model::sampled(m, c, index, now, result);
    let count = read.composites.len() as int;
    model::lemma_sampled_setup(m, c, index, now, result);
    model::lemma_setup_consistent(m, read, c);
    lemma_deriving_keeps_the_rest(read, first, c, now, answers, count);
    lemma_looks_are_counted(read, first, c, now, answers, count);
    let after = model::polled(m, c, index, now, queued, result, answers).0;
    assert(read.composites == m.composites);
    assert forall|i: int| 0 <= i < m.snapshot.readings.len() && !is_derived(
        m,
        i,
    ) implies #[trigger] after.snapshot.readings[i] == read.snapshot.readings[i] by {
        assert(read.snapshot.readings[i].descriptor == m.snapshot.readings[i].descriptor);
        assert(!is_derived(read, i));
    }
}

/// Each derived sensor takes its turn behind those before it, on the readings as they
/// left them, and its own answer becomes its value.
pub proof fn law_derived_sensors_take_turns(
    m: SensorModel,
    events: Seq<SensorEvent>,
    c: Capacities,
    now: Instant,
    answers: Seq<Angles>,
    count: int,
)
    requires
        0 <= count < m.composites.len(),
    ensures
        ({
            let (before, raised) = model::all_derived(m, events, c, now, answers, count);
            let (looking, step) = sensor::composite_step(
                before.composites[count],
                before.snapshot.readings,
                now,
            );
            let looked = model::looked(before, count, now);
            &&& model::all_derived(m, events, c, now, answers, 0) == (m, events)
            &&& looked.composites == before.composites.update(count, looking)
            &&& looked.snapshot.readings == before.snapshot.readings
            &&& model::all_derived(m, events, c, now, answers, count + 1) == model::applied(
                looked,
                raised,
                c,
                sensor::descriptor_of(before.composites[count]).id,
                now,
                step,
                answers[count],
            )
        }),
{
}

} // verus!
