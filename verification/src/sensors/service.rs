//! The sensor service: schedules, readings, derived readings and events.
use crate::clock::{Duration, Instant};
use crate::sensors::composites::inputs::{
    answer, AngleSource, Angles, CompositeSample, CompositeStep, SensorEntry,
};
use crate::sensors::composites::sensor;
use crate::sensors::composites::sensor::CompositeSensor;
use crate::sensors::model;
use crate::sensors::model::{Capacities, RegistrationError, SensorModel, SourceModel};
use crate::sensors::source::{
    RegisteredSource, SensorRegistration, SensorSource, SensorSourceError,
};
use crate::sensors::thresholds;
use crate::sensors::thresholds::{ThresholdEngine, ThresholdError, ThresholdRule};
use crate::sensors::types;
use crate::sensors::types::{
    ReadingError, ReadingStatus, SensorDescriptor, SensorEvent, SensorId, SensorKind,
    SensorReading, SensorSnapshot, SensorValue,
};
use vstd::prelude::*;

verus! {

/// Physical sensors that a service takes by default.
pub const DEFAULT_SENSOR_SOURCES: usize = 8;

/// Readings that a service takes by default.
pub const DEFAULT_SENSOR_CAPACITY: usize = 16;

/// Derived sensors that a service takes by default.
pub const DEFAULT_COMPOSITES: usize = 8;

/// Receivers that readings are published to by default.
pub const DEFAULT_SENSOR_WATCHERS: usize = 4;

/// Rules that a service takes by default.
pub const DEFAULT_SENSOR_THRESHOLDS: usize = 8;

/// Events that may wait by default.
pub const DEFAULT_EVENT_DEPTH: usize = 8;

/// Failed readings in a row that make a fault by default.
pub const DEFAULT_FAILURES_BEFORE_FAULT: u32 = 3;

/// The sensor service.
pub struct SensorService<
    S,
    const SOURCES: usize,
    const SENSORS: usize,
    const COMPOSITES: usize,
    const RULES: usize,
    const EVENTS: usize,
> {
    sources: Vec<RegisteredSource<S>>,
    composites: Vec<CompositeSensor>,
    thresholds: ThresholdEngine<RULES>,
    snapshot: SensorSnapshot<SENSORS>,
    failures_before_fault: u32,
}

/// The schedule of a physical sensor.
spec fn source_model<S>(source: RegisteredSource<S>) -> SourceModel {
    SourceModel {
        descriptor: source.descriptor,
        poll_interval: source.poll_interval,
        next_due: source.next_due,
    }
}

/// The schedules of physical sensors.
spec fn source_models<S>(sources: Seq<RegisteredSource<S>>) -> Seq<SourceModel> {
    Seq::new(sources.len(), |i: int| source_model(sources[i]))
}

impl<
    S,
    const SOURCES: usize,
    const SENSORS: usize,
    const COMPOSITES: usize,
    const RULES: usize,
    const EVENTS: usize,
> View for SensorService<S, SOURCES, SENSORS, COMPOSITES, RULES, EVENTS> {
    type V = SensorModel;

    closed spec fn view(&self) -> SensorModel {
        SensorModel {
            sources: source_models(self.sources@),
            composites: self.composites@,
            engine: self.thresholds@,
            snapshot: self.snapshot@,
            failures_before_fault: self.failures_before_fault,
        }
    }
}

impl<
    S,
    const SOURCES: usize,
    const SENSORS: usize,
    const COMPOSITES: usize,
    const RULES: usize,
    const EVENTS: usize,
> SensorService<S, SOURCES, SENSORS, COMPOSITES, RULES, EVENTS> {
    /// What the service takes.
    pub open spec fn capacities() -> Capacities {
        Capacities {
            sources: SOURCES as int,
            sensors: SENSORS as int,
            composites: COMPOSITES as int,
            rules: RULES as int,
            events: EVENTS as int,
        }
    }

    /// The physical sensors, in the order in which they were added.
    pub closed spec fn devices(self) -> Seq<S> {
        Seq::new(self.sources@.len(), |i: int| self.sources@[i].source)
    }

    /// What holds of every service.
    pub open spec fn well_formed(self) -> bool {
        model::consistent(self@, Self::capacities())
    }

    /// A service without sensors.
    pub fn new() -> (service: Self)
        ensures
            service.devices() == Seq::<S>::empty(),
            service.well_formed(),
            service@ == (SensorModel {
                sources: Seq::empty(),
                composites: Seq::empty(),
                engine: thresholds::EngineModel { rules: Seq::empty(), next_event_sequence: 0 },
                snapshot: types::SnapshotModel {
                    readings: Seq::empty(),
                    generation: 0,
                    published_at: Instant { ticks: 0 },
                    stats: types::no_stats(),
                },
                failures_before_fault: 3,
            }),
    {
        let service = SensorService {
            sources: Vec::new(),
            composites: Vec::new(),
            thresholds: ThresholdEngine::new(),
            snapshot: SensorSnapshot::empty(),
            failures_before_fault: DEFAULT_FAILURES_BEFORE_FAULT,
        };
        assert(service@.sources =~= Seq::empty());
        assert(service.devices() =~= Seq::<S>::empty());
        service
    }

    /// Sets how many failed readings in a row make a fault, one at least.
    pub fn set_failures_before_fault(&mut self, failures: u32)
        requires
            old(self).well_formed(),
        ensures
            final(self).devices() == old(self).devices(),
            final(self).well_formed(),
            final(self)@ == (SensorModel {
                failures_before_fault: if failures >= 1 {
                    failures
                } else {
                    1
                },
                ..old(self)@
            }),
    {
        self.failures_before_fault = if failures >= 1 {
            failures
        } else {
            1
        };
        proof {
            model::lemma_setup_consistent(
                SensorModel { failures_before_fault: self.failures_before_fault, ..old(self)@ },
                self@,
                Self::capacities(),
            );
        }
    }

    /// Adds a physical sensor. It is due at once.
    pub fn register_source(&mut self, registration: SensorRegistration<S>) -> (result: Result<
        (),
        RegistrationError,
    >)
        requires
            old(self).well_formed(),
        ensures
            final(self).devices() == (if result is Ok {
                old(self).devices().push(registration.source)
            } else {
                old(self).devices()
            }),
            final(self).well_formed(),
            match model::source_refusal(
                old(self)@,
                Self::capacities(),
                registration.descriptor,
                registration.poll_interval,
            ) {
                Some(error) => result == Err::<(), RegistrationError>(error) && final(self)@
                    == old(self)@,
                None => result == Ok::<(), RegistrationError>(()) && final(self)@
                    == model::with_source(
                    old(self)@,
                    registration.descriptor,
                    registration.poll_interval,
                ),
            },
    {
        if registration.poll_interval.as_ticks() == 0 {
            return Err(RegistrationError::ZeroPollInterval);
        }
        if self.snapshot.find(registration.descriptor.id).is_some() {
            return Err(RegistrationError::DuplicateId(registration.descriptor.id));
        }
        if self.sources.len() >= SOURCES {
            return Err(RegistrationError::SourceCapacity);
        }
        if self.snapshot.readings.len() >= SENSORS {
            return Err(RegistrationError::SensorCapacity);
        }
        let descriptor: SensorDescriptor = registration.descriptor;
        self.snapshot.readings.push(SensorReading::unavailable(descriptor));
        self.sources.push(
            RegisteredSource {
                descriptor,
                poll_interval: registration.poll_interval,
                next_due: Instant::from_ticks(0),
                source: registration.source,
            },
        );
        proof {
            assert(self@.sources =~= old(self)@.sources.push(
                SourceModel {
                    descriptor,
                    poll_interval: registration.poll_interval,
                    next_due: Instant { ticks: 0 },
                },
            ));
            lemma_grown(old(self)@.snapshot.readings, types::unread(descriptor));
            assert forall|i: int| 0 <= i < self@.sources.len() implies types::is_known(
                self@.snapshot.readings,
                (#[trigger] self@.sources[i]).descriptor.id,
            ) by {
                if i < old(self)@.sources.len() {
                    assert(self@.sources[i] == old(self)@.sources[i]);
                }
            }
        }
        Ok(())
    }

    /// Adds a derived sensor whose inputs are known.
    pub fn register_composite(&mut self, composite: CompositeSensor) -> (result: Result<
        (),
        RegistrationError,
    >)
        requires
            old(self).well_formed(),
        ensures
            final(self).devices() == old(self).devices(),
            final(self).well_formed(),
            match model::composite_refusal(old(self)@, Self::capacities(), composite) {
                Some(error) => result == Err::<(), RegistrationError>(error) && final(self)@
                    == old(self)@,
                None => result == Ok::<(), RegistrationError>(()) && final(self)@
                    == model::with_composite(old(self)@, composite),
            },
    {
        let descriptor: SensorDescriptor = composite.descriptor();
        if self.snapshot.find(descriptor.id).is_some() {
            return Err(RegistrationError::DuplicateId(descriptor.id));
        }
        if self.composites.len() >= COMPOSITES {
            return Err(RegistrationError::CompositeCapacity);
        }
        let entries: Vec<SensorEntry> = self.sensor_entries();
        if let Err(error) = composite.validate(&entries) {
            return Err(RegistrationError::Composite(error));
        }
        if self.snapshot.readings.len() >= SENSORS {
            return Err(RegistrationError::SensorCapacity);
        }
        self.snapshot.readings.push(SensorReading::unavailable(descriptor));
        self.composites.push(composite);
        proof {
            lemma_grown(old(self)@.snapshot.readings, types::unread(descriptor));
            assert forall|i: int| 0 <= i < self@.composites.len() implies types::is_known(
                self@.snapshot.readings,
                sensor::descriptor_of(#[trigger] self@.composites[i]).id,
            ) && sensor::filter_valid(self@.composites[i]) by {
                if i < old(self)@.composites.len() {
                    assert(self@.composites[i] == old(self)@.composites[i]);
                }
            }
        }
        Ok(())
    }

    /// Adds a rule on a known sensor.
    pub fn set_threshold(&mut self, rule: ThresholdRule) -> (result: Result<(), ThresholdError>)
        requires
            old(self).well_formed(),
        ensures
            final(self).devices() == old(self).devices(),
            final(self).well_formed(),
            ({
                let readings = old(self)@.snapshot.readings;
                let id = thresholds::rule_sensor(rule);
                let kind = readings[types::position(readings, id)].descriptor.kind;
                if !types::is_known(readings, id) {
                    result == Err::<(), ThresholdError>(ThresholdError::UnknownSensor(id))
                        && final(self)@ == old(self)@
                } else {
                    match thresholds::refusal(old(self)@.engine.rules, RULES as int, rule, kind) {
                        Some(error) => result == Err::<(), ThresholdError>(error) && final(self)@
                            == old(self)@,
                        None => result == Ok::<(), ThresholdError>(()) && final(self)@
                            == (SensorModel {
                            engine: thresholds::EngineModel {
                                rules: old(self)@.engine.rules.push(thresholds::fresh_rule(rule)),
                                ..old(self)@.engine
                            },
                            ..old(self)@
                        }),
                    }
                }
            }),
    {
        let kind: SensorKind = match self.snapshot.reading(rule.sensor()) {
            Some(reading) => reading.descriptor.kind,
            None => {
                return Err(ThresholdError::UnknownSensor(rule.sensor()));
            },
        };
        self.thresholds.add(rule, kind)
    }

    /// The present readings.
    pub fn state(&self) -> (snapshot: &SensorSnapshot<SENSORS>)
        ensures
            snapshot@ == self@.snapshot,
    {
        &self.snapshot
    }

    /// Number of derived sensors.
    pub fn composite_count(&self) -> (count: usize)
        ensures
            count == self@.composites.len(),
    {
        self.composites.len()
    }

    /// The earliest instant at which a source is due.
    pub fn next_deadline(&self) -> (deadline: Option<Instant>)
        ensures
            match deadline {
                Some(deadline) => {
                    &&& exists|i: int|
                        0 <= i < self@.sources.len() && (#[trigger] self@.sources[i]).next_due
                            == deadline
                    &&& forall|i: int|
                        0 <= i < self@.sources.len() ==> deadline@ <= (
                        #[trigger] self@.sources[i]).next_due@
                },
                None => self@.sources.len() == 0,
            },
    {
        if self.sources.len() == 0 {
            return None;
        }
        let mut earliest: Instant = self.sources[0].next_due;
        let mut index: usize = 1;
        assert(self@.sources[0].next_due == earliest);
        while index < self.sources.len()
            invariant
                1 <= index <= self.sources@.len(),
                self@.sources.len() == self.sources@.len(),
                exists|i: int|
                    0 <= i < self@.sources.len() && (#[trigger] self@.sources[i]).next_due
                        == earliest,
                forall|i: int|
                    0 <= i < index ==> earliest@ <= (#[trigger] self@.sources[i]).next_due@,
            decreases self.sources.len() - index,
        {
            let candidate: Instant = self.sources[index].next_due;
            assert(self@.sources[index as int].next_due == candidate);
            if candidate.as_ticks() < earliest.as_ticks() {
                earliest = candidate;
            }
            index = index + 1;
        }
        Some(earliest)
    }

    /// The first source that is due.
    pub fn due_source(&self, now: Instant) -> (index: Option<usize>)
        ensures
            match index {
                Some(index) => model::due_at(self@.sources, now, index as int),
                None => forall|i: int|
                    0 <= i < self@.sources.len() ==> (#[trigger] self@.sources[i]).next_due@
                        > now@,
            },
    {
        let mut index: usize = 0;
        while index < self.sources.len()
            invariant
                index <= self.sources@.len(),
                self@.sources.len() == self.sources@.len(),
                forall|i: int| 0 <= i < index ==> (#[trigger] self@.sources[i]).next_due@ > now@,
            decreases self.sources.len() - index,
        {
            assert(self@.sources[index as int].next_due == self.sources@[index as int].next_due);
            if self.sources[index].next_due.as_ticks() <= now.as_ticks() {
                return Some(index);
            }
            index = index + 1;
        }
        None
    }

    /// Interval of a sensor, where it is a physical one.
    fn source_interval(&self, id: SensorId) -> (interval: Option<Duration>)
        ensures
            interval == model::interval_of(self@.sources, id),
    {
        let mut index: usize = 0;
        while index < self.sources.len()
            invariant
                index <= self.sources@.len(),
                self@.sources.len() == self.sources@.len(),
                forall|i: int|
                    0 <= i < index ==> (#[trigger] self@.sources[i]).descriptor.id != id,
            decreases self.sources.len() - index,
        {
            assert(self@.sources[index as int] == source_model(self.sources@[index as int]));
            if self.sources[index].descriptor.id == id {
                proof {
                    assert(model::source_at(self@.sources, id, index as int));
                    let other = choose|i: int| model::source_at(self@.sources, id, i);
                    if other < index {
                        assert(self@.sources[other].descriptor.id != id);
                    } else if index < other {
                        assert(self@.sources[index as int].descriptor.id != id);
                    }
                }
                return Some(self.sources[index].poll_interval);
            }
            index = index + 1;
        }
        None
    }

    /// The known sensors, as derived sensors choose their inputs from.
    fn sensor_entries(&self) -> (entries: Vec<SensorEntry>)
        ensures
            entries@ == model::entries(self@),
    {
        let mut entries: Vec<SensorEntry> = Vec::new();
        let mut index: usize = 0;
        while index < self.snapshot.readings.len()
            invariant
                index <= self.snapshot.readings@.len(),
                entries@ == model::entries(self@).take(index as int),
            decreases self.snapshot.readings.len() - index,
        {
            let descriptor: SensorDescriptor = self.snapshot.readings[index].descriptor;
            entries.push(
                SensorEntry {
                    id: descriptor.id,
                    kind: descriptor.kind,
                    interval: self.source_interval(descriptor.id),
                },
            );
            index = index + 1;
            assert(entries@ =~= model::entries(self@).take(index as int));
        }
        assert(entries@ =~= model::entries(self@));
        entries
    }

    /// Gives a reading a new value and lets the rules look at it.
    fn renew(
        &mut self,
        id: SensorId,
        value: SensorValue,
        now: Instant,
        at: Instant,
        events: &mut Vec<SensorEvent>,
    )
        requires
            types::is_known(old(self)@.snapshot.readings, id),
        ensures
            final(self).devices() == old(self).devices(),
            (final(self)@, final(events)@) == model::with_renewed(
                old(self)@,
                old(events)@,
                Self::capacities(),
                id,
                value,
                now,
                at,
            ),
    {
        if let Some(index) = self.snapshot.find(id) {
            let mut reading: SensorReading = self.snapshot.readings[index];
            reading.value = Some(value);
            reading.status = ReadingStatus::Current;
            reading.sequence = reading.sequence.wrapping_add(1);
            reading.last_attempt = now;
            reading.last_success = Some(at);
            reading.consecutive_errors = 0;
            reading.last_error = None;
            self.snapshot.readings.set(index, reading);
            self.thresholds.evaluate(reading, events);
        }
    }

    /// Counts an error of a reading.
    fn fail(&mut self, id: SensorId, now: Instant, error: ReadingError, physical: bool)
        requires
            types::is_known(old(self)@.snapshot.readings, id),
        ensures
            final(self).devices() == old(self).devices(),
            ({
                let index = types::position(old(self)@.snapshot.readings, id);
                let reading = old(self)@.snapshot.readings[index];
                final(self)@ == model::with_reading(
                    old(self)@,
                    index,
                    model::failed(
                        reading,
                        now,
                        error,
                        if physical {
                            model::failing_status(reading, old(self)@.failures_before_fault)
                        } else {
                            model::without_value(reading)
                        },
                    ),
                )
            }),
    {
        if let Some(index) = self.snapshot.find(id) {
            let mut reading: SensorReading = self.snapshot.readings[index];
            reading.last_attempt = now;
            reading.consecutive_errors = reading.consecutive_errors.saturating_add(1);
            reading.total_errors = reading.total_errors.saturating_add(1);
            reading.last_error = Some(error);
            reading.status = if physical && reading.consecutive_errors
                >= self.failures_before_fault {
                ReadingStatus::Fault
            } else if reading.value.is_some() {
                ReadingStatus::Stale
            } else {
                ReadingStatus::Unavailable
            };
            self.snapshot.readings.set(index, reading);
        }
    }

    /// Takes in what a source delivered; gives the events it raised. The
    /// source is due again after its interval.
    pub fn record_sample(
        &mut self,
        index: usize,
        now: Instant,
        result: Result<SensorValue, SensorSourceError>,
    ) -> (events: Vec<SensorEvent>)
        requires
            old(self).well_formed(),
            index < old(self)@.sources.len(),
            now@ + old(self)@.sources[index as int].poll_interval@ <= u64::MAX,
        ensures
            final(self).devices() == old(self).devices(),
            final(self).well_formed(),
            (final(self)@, events@) == model::sampled(
                old(self)@,
                Self::capacities(),
                index as int,
                now,
                result,
            ),
            events@.len() <= RULES,
    {
        proof {
            model::lemma_sampled_setup(
                self@,
                Self::capacities(),
                index as int,
                now,
                result,
            );
            model::lemma_setup_consistent(
                self@,
                model::sampled(self@, Self::capacities(), index as int, now, result).0,
                Self::capacities(),
            );
            assert(self@.sources[index as int] == source_model(self.sources@[index as int]));
        }
        let descriptor: SensorDescriptor = self.sources[index].descriptor;
        let due: Instant = Instant::from_ticks(
            now.as_ticks() + self.sources[index].poll_interval.as_ticks(),
        );
        self.reschedule(index, due);
        self.snapshot.stats.polls_attempted = self.snapshot.stats.polls_attempted.saturating_add(
            1,
        );
        let mut events: Vec<SensorEvent> = Vec::new();
        match result {
            Ok(value) => if value.compatible_with(descriptor.kind) {
                self.snapshot.stats.polls_succeeded =
                self.snapshot.stats.polls_succeeded.saturating_add(1);
                self.renew(descriptor.id, value, now, now, &mut events);
            } else {
                self.snapshot.stats.polls_failed = self.snapshot.stats.polls_failed.saturating_add(
                    1,
                );
                self.fail(descriptor.id, now, ReadingError::IncompatibleValue, true);
            },
            Err(error) => {
                self.snapshot.stats.polls_failed = self.snapshot.stats.polls_failed.saturating_add(
                    1,
                );
                self.fail(descriptor.id, now, ReadingError::Source(error.code), true);
            },
        }
        events
    }

    /// Sets when a source is due again.
    fn reschedule(&mut self, index: usize, due: Instant)
        requires
            index < old(self)@.sources.len(),
        ensures
            final(self).devices() == old(self).devices(),
            final(self)@ == (SensorModel {
                sources: old(self)@.sources.update(
                    index as int,
                    SourceModel { next_due: due, ..old(self)@.sources[index as int] },
                ),
                ..old(self)@
            }),
            final(self).sources@.len() == old(self).sources@.len(),
    {
        let source: &mut RegisteredSource<S> = &mut self.sources[index];
        source.next_due = due;
        assert(self@.sources =~= old(self)@.sources.update(
            index as int,
            SourceModel { next_due: due, ..old(self)@.sources[index as int] },
        ));
    }

    /// Lets a derived sensor look at the readings; tells what it makes of them.
    pub fn look(&mut self, index: usize, now: Instant) -> (step: CompositeStep)
        requires
            old(self).well_formed(),
            index < old(self)@.composites.len(),
        ensures
            final(self).devices() == old(self).devices(),
            final(self).well_formed(),
            final(self)@ == model::looked(old(self)@, index as int, now),
            step == sensor::composite_step(
                old(self)@.composites[index as int],
                old(self)@.snapshot.readings,
                now,
            ).1,
    {
        proof {
            model::lemma_derived_setup(
                self@,
                Seq::empty(),
                Self::capacities(),
                index as int,
                now,
                Angles { first: 0, second: 0 },
            );
            model::lemma_setup_consistent(
                self@,
                model::looked(self@, index as int, now),
                Self::capacities(),
            );
        }
        self.snapshot.stats.composites_evaluated =
        self.snapshot.stats.composites_evaluated.saturating_add(1);
        let mut composite: CompositeSensor = self.composites[index];
        let step: CompositeStep = composite.evaluate(&self.snapshot, now);
        self.composites.set(index, composite);
        step
    }

    /// Brings the reading of a derived sensor up to date with what it made of
    /// the readings; `angles` answer its question, where it has one.
    pub fn apply(
        &mut self,
        index: usize,
        now: Instant,
        step: CompositeStep,
        angles: Angles,
        events: &mut Vec<SensorEvent>,
    )
        requires
            old(self).well_formed(),
            index < old(self)@.composites.len(),
        ensures
            final(self).devices() == old(self).devices(),
            final(self).well_formed(),
            (final(self)@, final(events)@) == model::applied(
                old(self)@,
                old(events)@,
                Self::capacities(),
                sensor::descriptor_of(old(self)@.composites[index as int]).id,
                now,
                step,
                angles,
            ),
    {
        let id: SensorId = self.composites[index].descriptor().id;
        assert(types::is_known(
            self@.snapshot.readings,
            sensor::descriptor_of(self@.composites[index as int]).id,
        ));
        proof {
            model::lemma_applied_setup(
                self@,
                events@,
                Self::capacities(),
                sensor::descriptor_of(self@.composites[index as int]).id,
                now,
                step,
                angles,
            );
            model::lemma_setup_consistent(
                self@,
                model::applied(
                    self@,
                    events@,
                    Self::capacities(),
                    sensor::descriptor_of(self@.composites[index as int]).id,
                    now,
                    step,
                    angles,
                ).0,
                Self::capacities(),
            );
        }
        match step {
            CompositeStep::NoChange => {},
            CompositeStep::Unavailable => {
                self.fail(id, now, ReadingError::CompositeInputUnavailable, false);
            },
            CompositeStep::Updated(sample) => {
                self.renew(id, sample.value, now, sample.observed_at, events);
            },
            CompositeStep::NeedsAngles(request) => {
                let sample: CompositeSample = answer(request, angles);
                self.renew(id, sample.value, now, sample.observed_at, events);
            },
        }
    }

    /// Publishes a poll that raised some events, while others are queued.
    pub fn publish(&mut self, now: Instant, raised: usize, queued: usize)
        requires
            old(self).well_formed(),
        ensures
            final(self).devices() == old(self).devices(),
            final(self).well_formed(),
            final(self)@ == model::published(
                old(self)@,
                Self::capacities(),
                now,
                raised as int,
                queued as int,
            ),
    {
        self.snapshot.generation = self.snapshot.generation.wrapping_add(1);
        self.snapshot.published_at = now;
        self.snapshot.stats.threshold_events_emitted =
        self.snapshot.stats.threshold_events_emitted.saturating_add(raised as u64);
        let anticipated: u128 = queued as u128 + raised as u128;
        let held: u128 = if anticipated < EVENTS as u128 {
            anticipated
        } else {
            EVENTS as u128
        };
        let depth: u16 = if held < 65_535 {
            held as u16
        } else {
            65_535
        };
        if depth > self.snapshot.stats.event_queue_high_water {
            self.snapshot.stats.event_queue_high_water = depth;
        }
        proof {
            model::lemma_setup_consistent(old(self)@, self@, Self::capacities());
        }
    }
}

impl<
    S: SensorSource,
    const SOURCES: usize,
    const SENSORS: usize,
    const COMPOSITES: usize,
    const RULES: usize,
    const EVENTS: usize,
> SensorService<S, SOURCES, SENSORS, COMPOSITES, RULES, EVENTS> {
    /// Reads the first source that is due, brings every derived sensor up to
    /// date and publishes; gives the events, in order. What is read is what the
    /// source's own `sample` delivered, and angles are those that `angles` gave
    /// to the questions of the derived sensors.
    pub fn poll_one_due<A: AngleSource>(&mut self, angles: &A, now: Instant, queued: usize) -> (events:
        Option<Vec<SensorEvent>>)
        requires
            old(self).well_formed(),
            forall|i: int| #[trigger]
                model::due_at(old(self)@.sources, now, i) ==> now@
                    + old(self)@.sources[i].poll_interval@ <= u64::MAX,
        ensures
            final(self).well_formed(),
            match events {
                None => final(self)@ == old(self)@ && final(self).devices() == old(self).devices()
                    && forall|i: int|
                    0 <= i < old(self)@.sources.len() ==> (
                    #[trigger] old(self)@.sources[i]).next_due@ > now@,
                Some(events) => exists|
                    index: int,
                    source: &mut S,
                    result: Result<SensorValue, SensorSourceError>,
                    answers: Seq<Angles>,
                |
                    {
                        &&& model::due_at(old(self)@.sources, now, index)
                        &&& *source == old(self).devices()[index]
                        &&& *final(source) == final(self).devices()[index]
                        &&& #[trigger] call_ensures(S::sample, (source,), result)
                        &&& final(self).devices().len() == old(self).devices().len()
                        &&& forall|i: int|
                            0 <= i < old(self).devices().len() && i != index ==> #[trigger]
                            final(self).devices()[i] == old(self).devices()[i]
                        &&& answers.len() == old(self)@.composites.len()
                        &&& answers_given(
                            angles,
                            model::sampled(old(self)@, Self::capacities(), index, now, result),
                            Self::capacities(),
                            now,
                            answers,
                        )
                        &&& (final(self)@, events@) == #[trigger] model::polled(
                            old(self)@,
                            Self::capacities(),
                            index,
                            now,
                            queued as int,
                            result,
                            answers,
                        )
                    },
            },
    {
        let index: usize = match self.due_source(now) {
            Some(index) => index,
            None => {
                return None;
            },
        };
        let ghost initial = self@;
        let result: Result<SensorValue, SensorSourceError> = self.read(index);
        let mut events: Vec<SensorEvent> = self.record_sample(index, now, result);
        let ghost read = self@;
        let ghost kept = self.devices();
        let ghost first = events@;
        let ghost mut answers: Seq<Angles> = Seq::empty();
        let count: usize = self.composites.len();
        proof {
            model::lemma_sampled_setup(initial, Self::capacities(), index as int, now, result);
        }
        let mut done: usize = 0;
        while done < count
            invariant
                done <= count,
                count == read.composites.len(),
                self@.composites.len() == count,
                self.well_formed(),
                self.devices() == kept,
                answers.len() == done,
                answers_given(angles, (read, first), Self::capacities(), now, answers),
                events@.len() <= RULES,
                (self@, events@) == model::all_derived(
                    read,
                    first,
                    Self::capacities(),
                    now,
                    answers,
                    done as int,
                ),
            decreases count - done,
        {
            let ghost before = self@;
            let ghost raised = events@;
            let step: CompositeStep = self.look(done, now);
            let answer: Angles = match step {
                CompositeStep::NeedsAngles(request) => angles.angles(request.question),
                _ => Angles { first: 0, second: 0 },
            };
            proof {
                sensor::lemma_step_keeps_identity(
                    before.composites[done as int],
                    before.snapshot.readings,
                    now,
                );
                model::lemma_derived_setup(
                    before,
                    raised,
                    Self::capacities(),
                    done as int,
                    now,
                    answer,
                );
            }
            self.apply(done, now, step, answer, &mut events);
            proof {
                let longer = answers.push(answer);
                lemma_answers_extend(
                    read,
                    first,
                    Self::capacities(),
                    now,
                    answers,
                    longer,
                    done as int,
                );
                assert forall|i: int| 0 <= i < longer.len() implies #[trigger] answer_given(
                    angles,
                    (read, first),
                    Self::capacities(),
                    now,
                    longer,
                    i,
                ) by {
                    lemma_answers_extend(
                        read,
                        first,
                        Self::capacities(),
                        now,
                        answers,
                        longer,
                        i,
                    );
                    if i < done {
                        assert(answer_given(
                            angles,
                            (read, first),
                            Self::capacities(),
                            now,
                            answers,
                            i,
                        ));
                    }
                }
                answers = longer;
            }
            done = done + 1;
        }
        self.publish(now, events.len(), queued);
        proof {
            assert((self@, events@) == model::polled(
                initial,
                Self::capacities(),
                index as int,
                now,
                queued as int,
                result,
                answers,
            ));
        }
        Some(events)
    }

    /// Reads a source: the result is what its own `sample` delivered, and only
    /// that source may be another afterwards.
    fn read(&mut self, index: usize) -> (result: Result<SensorValue, SensorSourceError>)
        requires
            index < old(self)@.sources.len(),
        ensures
            final(self).devices().len() == old(self).devices().len(),
            forall|i: int|
                0 <= i < old(self).devices().len() && i != index ==> #[trigger]
                final(self).devices()[i] == old(self).devices()[i],
            exists|source: &mut S|
                {
                    &&& *source == old(self).devices()[index as int]
                    &&& *final(source) == final(self).devices()[index as int]
                    &&& #[trigger] call_ensures(S::sample, (source,), result)
                },
            final(self)@ == old(self)@,
    {
        let source: &mut RegisteredSource<S> = &mut self.sources[index];
        let result: Result<SensorValue, SensorSourceError> = source.source.sample();
        assert(self@.sources =~= old(self)@.sources);
        result
    }
}

/// Whether the answer for a derived sensor, where it asks for angles once those
/// before it are up to date, is one that the source of angles gave to its
/// question.
pub open spec fn answer_given<A: AngleSource>(
    angles: &A,
    read: (SensorModel, Seq<SensorEvent>),
    c: Capacities,
    now: Instant,
    answers: Seq<Angles>,
    index: int,
) -> bool {
    let before = model::all_derived(read.0, read.1, c, now, answers, index).0;
    match sensor::composite_step(before.composites[index], before.snapshot.readings, now).1 {
        CompositeStep::NeedsAngles(request) => call_ensures(
            A::angles,
            (angles, request.question),
            answers[index],
        ),
        _ => true,
    }
}

/// Whether the source of angles gave every answer that a poll used, after its
/// source was read.
pub open spec fn answers_given<A: AngleSource>(
    angles: &A,
    read: (SensorModel, Seq<SensorEvent>),
    c: Capacities,
    now: Instant,
    answers: Seq<Angles>,
) -> bool {
    forall|i: int|
        0 <= i < answers.len() ==> #[trigger] answer_given(angles, read, c, now, answers, i)
}

/// Answers for later sensors do not matter to earlier ones.
proof fn lemma_answers_extend(
    m: SensorModel,
    events: Seq<SensorEvent>,
    c: Capacities,
    now: Instant,
    answers: Seq<Angles>,
    longer: Seq<Angles>,
    count: int,
)
    requires
        count <= answers.len() <= longer.len(),
        forall|i: int| 0 <= i < answers.len() ==> answers[i] == longer[i],
    ensures
        model::all_derived(m, events, c, now, answers, count) == model::all_derived(
            m,
            events,
            c,
            now,
            longer,
            count,
        ),
    decreases count,
{
    if count > 0 {
        lemma_answers_extend(m, events, c, now, answers, longer, count - 1);
    }
}

/// A reading with a new name keeps the names distinct and the others known.
proof fn lemma_grown(readings: Seq<SensorReading>, added: SensorReading)
    requires
        model::distinct_ids(readings),
        !types::is_known(readings, added.descriptor.id),
    ensures
        model::distinct_ids(readings.push(added)),
        types::is_known(readings.push(added), added.descriptor.id),
        forall|id: SensorId|
            types::is_known(readings, id) ==> #[trigger] types::is_known(readings.push(added), id),
{
    let grown = readings.push(added);
    assert(grown[readings.len() as int] == added);
    assert forall|i: int, j: int| 0 <= i < j < grown.len() implies (
    #[trigger] grown[i]).descriptor.id != (#[trigger] grown[j]).descriptor.id by {
        assert(grown[i] == readings[i]);
        if j < readings.len() {
            assert(grown[j] == readings[j]);
        }
    }
    assert forall|id: SensorId| types::is_known(readings, id) implies #[trigger] types::is_known(
        grown,
        id,
    ) by {
        let i = choose|i: int|
            0 <= i < readings.len() && (#[trigger] readings[i]).descriptor.id == id;
        assert(grown[i].descriptor.id == id);
    }
}

} // verus!
