//! Rules on readings and the events they raise.
use crate::arith;
use crate::clock;
use crate::clock::{Duration, Instant};
use crate::sensors::math;
use crate::sensors::math::vector_magnitude;
use crate::sensors::types::{
    ReadingStatus, SensorEvent, SensorEventKind, SensorId, SensorKind, SensorReading, SensorValue,
    ThresholdId,
};
use vstd::prelude::*;

verus! {

/// The part of a value that a rule looks at.
#[derive(Clone, Copy, Debug, PartialEq, Eq, Structural)]
pub enum ValueSelector {
    Scalar,
    X,
    Y,
    Z,
    Magnitude,
    Roll,
    Pitch,
}

/// The side of a threshold that a rule reports.
#[derive(Clone, Copy, Debug, PartialEq, Eq, Structural)]
pub enum AbsoluteComparison {
    Above,
    Below,
}

/// A rule on the readings of one sensor.
#[derive(Clone, Copy, Debug, PartialEq, Eq, Structural)]
pub enum ThresholdRule {
    /// Reports when the value crosses a threshold, and when it has left it by
    /// the hysteresis.
    Absolute {
        id: ThresholdId,
        sensor: SensorId,
        selector: ValueSelector,
        comparison: AbsoluteComparison,
        threshold: i32,
        hysteresis: u32,
        trigger_on_initial: bool,
    },
    /// Reports when the value changed enough since the last reading.
    Delta {
        id: ThresholdId,
        sensor: SensorId,
        selector: ValueSelector,
        minimum_absolute_change: u32,
        maximum_interval: Option<Duration>,
    },
}

/// Name of a rule.
pub open spec fn rule_id(rule: ThresholdRule) -> ThresholdId {
    match rule {
        ThresholdRule::Absolute { id, .. } => id,
        ThresholdRule::Delta { id, .. } => id,
    }
}

/// Sensor of a rule.
pub open spec fn rule_sensor(rule: ThresholdRule) -> SensorId {
    match rule {
        ThresholdRule::Absolute { sensor, .. } => sensor,
        ThresholdRule::Delta { sensor, .. } => sensor,
    }
}

/// Part of the value that a rule looks at.
pub open spec fn rule_selector(rule: ThresholdRule) -> ValueSelector {
    match rule {
        ThresholdRule::Absolute { selector, .. } => selector,
        ThresholdRule::Delta { selector, .. } => selector,
    }
}

impl ThresholdRule {
    /// Name of the rule.
    pub fn id(self) -> (id: ThresholdId)
        ensures
            id == rule_id(self),
    {
        match self {
            ThresholdRule::Absolute { id, .. } => id,
            ThresholdRule::Delta { id, .. } => id,
        }
    }

    /// Sensor of the rule.
    pub fn sensor(self) -> (sensor: SensorId)
        ensures
            sensor == rule_sensor(self),
    {
        match self {
            ThresholdRule::Absolute { sensor, .. } => sensor,
            ThresholdRule::Delta { sensor, .. } => sensor,
        }
    }

    /// Part of the value that the rule looks at.
    pub fn selector(self) -> (selector: ValueSelector)
        ensures
            selector == rule_selector(self),
    {
        match self {
            ThresholdRule::Absolute { selector, .. } => selector,
            ThresholdRule::Delta { selector, .. } => selector,
        }
    }
}

/// Why a rule was refused.
#[derive(Clone, Copy, Debug, PartialEq, Eq, Structural)]
pub enum ThresholdError {
    Capacity,
    DuplicateId(ThresholdId),
    UnknownSensor(SensorId),
    IncompatibleSelector { sensor: SensorId, kind: SensorKind, selector: ValueSelector },
    InvalidConfiguration,
}

/// A rule and what it remembers.
#[derive(Clone, Copy)]
pub struct ThresholdState {
    pub rule: ThresholdRule,
    pub latched: bool,
    pub has_sample: bool,
    pub previous: Option<(i32, Instant)>,
}

/// A rule that has seen no reading.
pub open spec fn fresh_rule(rule: ThresholdRule) -> ThresholdState {
    ThresholdState { rule, latched: false, has_sample: false, previous: None }
}

// ---- parts of values -------------------------------------------------------

/// Whether readings of a kind have the part that a rule looks at.
pub open spec fn selects(kind: SensorKind, selector: ValueSelector) -> bool {
    match selector {
        ValueSelector::Scalar => kind == SensorKind::Temperature || kind == SensorKind::Heading
            || kind == SensorKind::TiltCompensatedHeading || kind == SensorKind::Vedba || kind
            == SensorKind::Odba,
        ValueSelector::X | ValueSelector::Y | ValueSelector::Z | ValueSelector::Magnitude => kind
            == SensorKind::Acceleration || kind == SensorKind::MagneticField,
        ValueSelector::Roll | ValueSelector::Pitch => kind == SensorKind::Tilt,
    }
}

/// Part of a vector.
pub open spec fn vector_part(x: i32, y: i32, z: i32, selector: ValueSelector) -> Option<i32> {
    match selector {
        ValueSelector::X => Some(x),
        ValueSelector::Y => Some(y),
        ValueSelector::Z => Some(z),
        ValueSelector::Magnitude => Some(
            arith::min(
                math::root_of(math::squared_length(x as int, y as int, z as int)),
                i32::MAX as int,
            ) as i32,
        ),
        _ => None,
    }
}

/// The part of a value that a rule looks at, where the value has it.
pub open spec fn selected(value: SensorValue, selector: ValueSelector) -> Option<i32> {
    match value {
        SensorValue::TemperatureMilliCelsius(scalar) => if selector == ValueSelector::Scalar {
            Some(scalar)
        } else {
            None
        },
        SensorValue::HeadingCentiDegrees(scalar) => if selector == ValueSelector::Scalar {
            Some(scalar as i32)
        } else {
            None
        },
        SensorValue::DynamicAccelerationMg(scalar) => if selector == ValueSelector::Scalar {
            Some(arith::min(scalar as int, i32::MAX as int) as i32)
        } else {
            None
        },
        SensorValue::AccelerationMg { x, y, z } => vector_part(x, y, z, selector),
        SensorValue::MagneticFieldNt { x, y, z } => vector_part(x, y, z, selector),
        SensorValue::TiltCentiDegrees { roll, pitch } => match selector {
            ValueSelector::Roll => Some(roll),
            ValueSelector::Pitch => Some(pitch),
            _ => None,
        },
    }
}

/// A value of a kind has the parts that rules on that kind look at.
pub proof fn law_accepted_rules_find_their_part(
    kind: SensorKind,
    selector: ValueSelector,
    value: SensorValue,
)
    requires
        value.fits(kind),
    ensures
        selects(kind, selector) <==> selected(value, selector) is Some,
{
}

/// Whether readings of a kind have the part that a rule looks at: every value of
/// the kind does, or none.
pub fn selector_compatible(kind: SensorKind, selector: ValueSelector) -> (compatible: bool)
    ensures
        compatible == selects(kind, selector),
        forall|value: SensorValue|
            value.fits(kind) ==> (compatible <==> #[trigger] selected(value, selector) is Some),
{
    match selector {
        ValueSelector::Scalar => kind == SensorKind::Temperature || kind == SensorKind::Heading
            || kind == SensorKind::TiltCompensatedHeading || kind == SensorKind::Vedba || kind
            == SensorKind::Odba,
        ValueSelector::X | ValueSelector::Y | ValueSelector::Z | ValueSelector::Magnitude => kind
            == SensorKind::Acceleration || kind == SensorKind::MagneticField,
        ValueSelector::Roll | ValueSelector::Pitch => kind == SensorKind::Tilt,
    }
}

/// Part of a vector.
fn select_vector_part(x: i32, y: i32, z: i32, selector: ValueSelector) -> (part: Option<i32>)
    ensures
        part == vector_part(x, y, z, selector),
{
    match selector {
        ValueSelector::X => Some(x),
        ValueSelector::Y => Some(y),
        ValueSelector::Z => Some(z),
        ValueSelector::Magnitude => Some(held_i32(vector_magnitude(x, y, z))),
        _ => None,
    }
}

/// A number moved into the range of `i32`.
fn held_i32(value: u32) -> (result: i32)
    ensures
        result == arith::min(value as int, i32::MAX as int),
{
    if value > 0x7fff_ffff {
        i32::MAX
    } else {
        value as i32
    }
}

/// The part of a value that a rule looks at.
pub fn select_value(value: SensorValue, selector: ValueSelector) -> (part: Option<i32>)
    ensures
        part == selected(value, selector),
{
    match value {
        SensorValue::TemperatureMilliCelsius(scalar) => if selector == ValueSelector::Scalar {
            Some(scalar)
        } else {
            None
        },
        SensorValue::HeadingCentiDegrees(scalar) => if selector == ValueSelector::Scalar {
            Some(scalar as i32)
        } else {
            None
        },
        SensorValue::DynamicAccelerationMg(scalar) => if selector == ValueSelector::Scalar {
            Some(held_i32(scalar))
        } else {
            None
        },
        SensorValue::AccelerationMg { x, y, z } => select_vector_part(x, y, z, selector),
        SensorValue::MagneticFieldNt { x, y, z } => select_vector_part(x, y, z, selector),
        SensorValue::TiltCentiDegrees { roll, pitch } => match selector {
            ValueSelector::Roll => Some(roll),
            ValueSelector::Pitch => Some(pitch),
            _ => None,
        },
    }
}

// ---- one rule --------------------------------------------------------------

/// Whether a value is on the reported side of a threshold.
pub open spec fn violated(comparison: AbsoluteComparison, threshold: i32, current: i32) -> bool {
    match comparison {
        AbsoluteComparison::Above => current >= threshold,
        AbsoluteComparison::Below => current <= threshold,
    }
}

/// Whether a value has left a threshold by the hysteresis.
pub open spec fn cleared(
    comparison: AbsoluteComparison,
    threshold: i32,
    hysteresis: u32,
    current: i32,
) -> bool {
    match comparison {
        AbsoluteComparison::Above => current <= threshold - hysteresis,
        AbsoluteComparison::Below => current >= threshold + hysteresis,
    }
}

/// What an absolute rule does with a value: the rule after it, and whether it
/// reports that the threshold was crossed or left.
pub open spec fn absolute_step(
    state: ThresholdState,
    comparison: AbsoluteComparison,
    threshold: i32,
    hysteresis: u32,
    trigger_on_initial: bool,
    current: i32,
) -> (ThresholdState, Option<SensorEventKind>) {
    let crossed = violated(comparison, threshold, current);
    if !state.has_sample {
        (
            ThresholdState { has_sample: true, latched: crossed, ..state },
            if crossed && trigger_on_initial {
                Some(SensorEventKind::AbsoluteEntered)
            } else {
                None
            },
        )
    } else if !state.latched && crossed {
        (ThresholdState { latched: true, ..state }, Some(SensorEventKind::AbsoluteEntered))
    } else if state.latched && cleared(comparison, threshold, hysteresis, current) {
        (ThresholdState { latched: false, ..state }, Some(SensorEventKind::AbsoluteCleared))
    } else {
        (state, None)
    }
}

/// Whether a reading is an angle.
pub open spec fn is_angular(kind: SensorKind) -> bool {
    kind == SensorKind::Heading || kind == SensorKind::TiltCompensatedHeading
}

/// How far two values are apart; angles the short way round.
pub open spec fn difference(angular: bool, current: i32, previous: i32) -> int {
    if angular {
        math::angular_distance(current as int, previous as int)
    } else {
        arith::abs(current - previous)
    }
}

/// The earlier value that a delta rule reports a change from: the last one,
/// unless it is too old or too close.
pub open spec fn changed_from(
    state: ThresholdState,
    minimum_absolute_change: u32,
    maximum_interval: Option<Duration>,
    angular: bool,
    current: i32,
    observed_at: Instant,
) -> Option<i32> {
    match state.previous {
        None => None,
        Some((value, at)) => {
            let stale = maximum_interval is Some && clock::elapsed_ticks(at, observed_at)
                > maximum_interval->0@;
            if stale || difference(angular, current, value) < minimum_absolute_change {
                None
            } else {
                Some(value)
            }
        },
    }
}

/// What a rule does with a usable reading of its sensor: the rule after it and
/// the event it raises, not numbered yet.
pub open spec fn rule_step(
    state: ThresholdState,
    kind: SensorKind,
    value: SensorValue,
    observed_at: Instant,
) -> (ThresholdState, Option<SensorEvent>) {
    match selected(value, rule_selector(state.rule)) {
        None => (state, None),
        Some(current) => match state.rule {
            ThresholdRule::Absolute {
                id,
                sensor,
                selector,
                comparison,
                threshold,
                hysteresis,
                trigger_on_initial,
            } => {
                let (after, report) = absolute_step(
                    state,
                    comparison,
                    threshold,
                    hysteresis,
                    trigger_on_initial,
                    current,
                );
                (
                    after,
                    match report {
                        Some(report) => Some(
                            SensorEvent {
                                sequence: 0,
                                threshold_id: id,
                                sensor_id: sensor,
                                kind: report,
                                current,
                                previous: None,
                                threshold,
                                observed_at,
                            },
                        ),
                        None => None,
                    },
                )
            },
            ThresholdRule::Delta {
                id,
                sensor,
                selector,
                minimum_absolute_change,
                maximum_interval,
            } => (
                ThresholdState { previous: Some((current, observed_at)), ..state },
                match changed_from(
                    state,
                    minimum_absolute_change,
                    maximum_interval,
                    is_angular(kind),
                    current,
                    observed_at,
                ) {
                    Some(previous) => Some(
                        SensorEvent {
                            sequence: 0,
                            threshold_id: id,
                            sensor_id: sensor,
                            kind: SensorEventKind::DeltaExceeded,
                            current,
                            previous: Some(previous),
                            threshold: arith::min(
                                minimum_absolute_change as int,
                                i32::MAX as int,
                            ) as i32,
                            observed_at,
                        },
                    ),
                    None => None,
                },
            ),
        },
    }
}

/// Lets an absolute rule look at a value.
fn evaluate_absolute(
    state: ThresholdState,
    comparison: AbsoluteComparison,
    threshold: i32,
    hysteresis: u32,
    trigger_on_initial: bool,
    current: i32,
) -> (result: (ThresholdState, Option<SensorEventKind>))
    ensures
        result == absolute_step(
            state,
            comparison,
            threshold,
            hysteresis,
            trigger_on_initial,
            current,
        ),
{
    let crossed: bool = match comparison {
        AbsoluteComparison::Above => current >= threshold,
        AbsoluteComparison::Below => current <= threshold,
    };
    let left: bool = match comparison {
        AbsoluteComparison::Above => current as i64 <= threshold as i64 - hysteresis as i64,
        AbsoluteComparison::Below => current as i64 >= threshold as i64 + hysteresis as i64,
    };
    let mut after: ThresholdState = state;
    if !state.has_sample {
        after.has_sample = true;
        after.latched = crossed;
        if crossed && trigger_on_initial {
            (after, Some(SensorEventKind::AbsoluteEntered))
        } else {
            (after, None)
        }
    } else if !state.latched && crossed {
        after.latched = true;
        (after, Some(SensorEventKind::AbsoluteEntered))
    } else if state.latched && left {
        after.latched = false;
        (after, Some(SensorEventKind::AbsoluteCleared))
    } else {
        (after, None)
    }
}

/// How far two values are apart.
fn value_difference(angular: bool, current: i32, previous: i32) -> (distance: u32)
    ensures
        distance == difference(angular, current, previous),
{
    let signed: i64 = current as i64 - previous as i64;
    let magnitude: i64 = if signed < 0 {
        -signed
    } else {
        signed
    };
    if angular {
        let direct: u32 = (magnitude % 36_000) as u32;
        if direct <= 36_000 - direct {
            direct
        } else {
            36_000 - direct
        }
    } else {
        magnitude as u32
    }
}

/// The earlier value that a delta rule reports a change from.
fn evaluate_delta(
    state: &ThresholdState,
    minimum_absolute_change: u32,
    maximum_interval: Option<Duration>,
    angular: bool,
    current: i32,
    observed_at: Instant,
) -> (previous: Option<i32>)
    ensures
        previous == changed_from(
            *state,
            minimum_absolute_change,
            maximum_interval,
            angular,
            current,
            observed_at,
        ),
{
    match state.previous {
        None => None,
        Some((value, at)) => {
            let stale: bool = match maximum_interval {
                Some(limit) => observed_at.saturating_duration_since(at).as_ticks()
                    > limit.as_ticks(),
                None => false,
            };
            if stale || value_difference(angular, current, value) < minimum_absolute_change {
                None
            } else {
                Some(value)
            }
        },
    }
}

/// Lets a rule look at a usable reading of its sensor.
fn evaluate_rule(
    state: ThresholdState,
    kind: SensorKind,
    value: SensorValue,
    observed_at: Instant,
) -> (result: (ThresholdState, Option<SensorEvent>))
    ensures
        result == rule_step(state, kind, value, observed_at),
{
    let current: i32 = match select_value(value, state.rule.selector()) {
        Some(current) => current,
        None => {
            return (state, None);
        },
    };
    match state.rule {
        ThresholdRule::Absolute {
            id,
            sensor,
            comparison,
            threshold,
            hysteresis,
            trigger_on_initial,
            ..
        } => {
            let (after, report) = evaluate_absolute(
                state,
                comparison,
                threshold,
                hysteresis,
                trigger_on_initial,
                current,
            );
            match report {
                Some(kind) => (
                    after,
                    Some(
                        SensorEvent {
                            sequence: 0,
                            threshold_id: id,
                            sensor_id: sensor,
                            kind,
                            current,
                            previous: None,
                            threshold,
                            observed_at,
                        },
                    ),
                ),
                None => (after, None),
            }
        },
        ThresholdRule::Delta { id, sensor, minimum_absolute_change, maximum_interval, .. } => {
            let angular: bool = kind == SensorKind::Heading || kind
                == SensorKind::TiltCompensatedHeading;
            let previous: Option<i32> = evaluate_delta(
                &state,
                minimum_absolute_change,
                maximum_interval,
                angular,
                current,
                observed_at,
            );
            let mut after: ThresholdState = state;
            after.previous = Some((current, observed_at));
            match previous {
                Some(previous) => (
                    after,
                    Some(
                        SensorEvent {
                            sequence: 0,
                            threshold_id: id,
                            sensor_id: sensor,
                            kind: SensorEventKind::DeltaExceeded,
                            current,
                            previous: Some(previous),
                            threshold: held_i32(minimum_absolute_change),
                            observed_at,
                        },
                    ),
                ),
                None => (after, None),
            }
        },
    }
}

// ---- all rules -------------------------------------------------------------

/// The rules, as contracts speak of them.
#[verifier::ext_equal]
pub struct EngineModel {
    pub rules: Seq<ThresholdState>,
    pub next_event_sequence: u64,
}

/// Whether a reading can be looked at.
pub open spec fn is_usable(reading: SensorReading) -> bool {
    &&& reading.status == ReadingStatus::Current
    &&& reading.value is Some
    &&& reading.last_success is Some
}

/// The next running number.
pub open spec fn next_number(number: u64) -> u64 {
    if number == u64::MAX {
        0
    } else {
        (number + 1) as u64
    }
}

/// The rules and the raised events after the first `count` rules looked at a
/// usable reading, one after the other.
pub open spec fn evaluated_rules(
    m: EngineModel,
    events: Seq<SensorEvent>,
    capacity: int,
    reading: SensorReading,
    count: int,
) -> (EngineModel, Seq<SensorEvent>)
    decreases count,
{
    if count <= 0 {
        (m, events)
    } else {
        let (before, raised) = evaluated_rules(m, events, capacity, reading, count - 1);
        let state = before.rules[count - 1];
        if rule_sensor(state.rule) != reading.descriptor.id {
            (before, raised)
        } else {
            let (after, event) = rule_step(
                state,
                reading.descriptor.kind,
                reading.value->0,
                reading.last_success->0,
            );
            let rules = before.rules.update(count - 1, after);
            match event {
                None => (EngineModel { rules, ..before }, raised),
                Some(event) => (
                    EngineModel {
                        rules,
                        next_event_sequence: next_number(before.next_event_sequence),
                    },
                    if raised.len() < capacity {
                        raised.push(SensorEvent { sequence: before.next_event_sequence, ..event })
                    } else {
                        raised
                    },
                ),
            }
        }
    }
}

/// The rules and the raised events after a reading.
pub open spec fn evaluated(
    m: EngineModel,
    events: Seq<SensorEvent>,
    capacity: int,
    reading: SensorReading,
) -> (EngineModel, Seq<SensorEvent>) {
    if is_usable(reading) {
        evaluated_rules(m, events, capacity, reading, m.rules.len() as int)
    } else {
        (m, events)
    }
}

/// Looking at a reading keeps the number of rules and the rules themselves.
pub proof fn lemma_rules_kept(
    m: EngineModel,
    events: Seq<SensorEvent>,
    capacity: int,
    reading: SensorReading,
    count: int,
)
    requires
        count <= m.rules.len(),
    ensures
        ({
            let after = evaluated_rules(m, events, capacity, reading, count).0;
            &&& after.rules.len() == m.rules.len()
            &&& forall|i: int| 0 <= i < m.rules.len() ==> after.rules[i].rule == m.rules[i].rule
        }),
    decreases count,
{
    if count > 0 {
        lemma_rules_kept(m, events, capacity, reading, count - 1);
    }
}

/// Whether a rule cannot be set up.
pub open spec fn is_pointless(rule: ThresholdRule) -> bool {
    match rule {
        ThresholdRule::Delta { minimum_absolute_change, .. } => minimum_absolute_change == 0,
        _ => false,
    }
}

/// Whether a rule of this name exists.
pub open spec fn has_rule(rules: Seq<ThresholdState>, id: ThresholdId) -> bool {
    exists|i: int| 0 <= i < rules.len() && rule_id((#[trigger] rules[i]).rule) == id
}

/// Why a rule on a sensor of a kind is refused, where it is.
pub open spec fn refusal(
    rules: Seq<ThresholdState>,
    capacity: int,
    rule: ThresholdRule,
    kind: SensorKind,
) -> Option<ThresholdError> {
    if has_rule(rules, rule_id(rule)) {
        Some(ThresholdError::DuplicateId(rule_id(rule)))
    } else if !selects(kind, rule_selector(rule)) {
        Some(
            ThresholdError::IncompatibleSelector {
                sensor: rule_sensor(rule),
                kind,
                selector: rule_selector(rule),
            },
        )
    } else if is_pointless(rule) {
        Some(ThresholdError::InvalidConfiguration)
    } else if rules.len() >= capacity {
        Some(ThresholdError::Capacity)
    } else {
        None
    }
}

/// Up to `RULES` rules.
pub struct ThresholdEngine<const RULES: usize> {
    rules: Vec<ThresholdState>,
    next_event_sequence: u64,
}

impl<const RULES: usize> View for ThresholdEngine<RULES> {
    type V = EngineModel;

    closed spec fn view(&self) -> EngineModel {
        EngineModel { rules: self.rules@, next_event_sequence: self.next_event_sequence }
    }
}

impl<const RULES: usize> ThresholdEngine<RULES> {
    /// No rules.
    pub fn new() -> (engine: Self)
        ensures
            engine@ == (EngineModel { rules: Seq::empty(), next_event_sequence: 0 }),
    {
        ThresholdEngine { rules: Vec::new(), next_event_sequence: 0 }
    }

    /// Whether a rule of this name exists.
    fn has(&self, id: ThresholdId) -> (found: bool)
        ensures
            found == has_rule(self@.rules, id),
    {
        let mut index: usize = 0;
        while index < self.rules.len()
            invariant
                index <= self.rules@.len(),
                forall|i: int| 0 <= i < index ==> rule_id((#[trigger] self.rules@[i]).rule) != id,
            decreases self.rules.len() - index,
        {
            if self.rules[index].rule.id() == id {
                return true;
            }
            index = index + 1;
        }
        false
    }

    /// Adds a rule on a sensor of a kind.
    pub fn add(&mut self, rule: ThresholdRule, kind: SensorKind) -> (result: Result<
        (),
        ThresholdError,
    >)
        ensures
            match refusal(old(self)@.rules, RULES as int, rule, kind) {
                Some(error) => result == Err::<(), ThresholdError>(error) && final(self)@
                    == old(self)@,
                None => result == Ok::<(), ThresholdError>(()) && final(self)@ == (EngineModel {
                    rules: old(self)@.rules.push(fresh_rule(rule)),
                    ..old(self)@
                }),
            },
    {
        if self.has(rule.id()) {
            return Err(ThresholdError::DuplicateId(rule.id()));
        }
        if !selector_compatible(kind, rule.selector()) {
            return Err(
                ThresholdError::IncompatibleSelector {
                    sensor: rule.sensor(),
                    kind,
                    selector: rule.selector(),
                },
            );
        }
        if let ThresholdRule::Delta { minimum_absolute_change, .. } = rule {
            if minimum_absolute_change == 0 {
                return Err(ThresholdError::InvalidConfiguration);
            }
        }
        if self.rules.len() >= RULES {
            return Err(ThresholdError::Capacity);
        }
        self.rules.push(
            ThresholdState { rule, latched: false, has_sample: false, previous: None },
        );
        Ok(())
    }

    /// Lets all rules look at a reading; appends the events they raise, as far
    /// as there is room.
    pub fn evaluate(&mut self, reading: SensorReading, events: &mut Vec<SensorEvent>)
        ensures
            (final(self)@, final(events)@) == evaluated(
                old(self)@,
                old(events)@,
                RULES as int,
                reading,
            ),
    {
        if !(reading.status == ReadingStatus::Current) {
            return;
        }
        let value: SensorValue = match reading.value {
            Some(value) => value,
            None => {
                return;
            },
        };
        let observed_at: Instant = match reading.last_success {
            Some(observed_at) => observed_at,
            None => {
                return;
            },
        };
        let mut index: usize = 0;
        while index < self.rules.len()
            invariant
                index <= self.rules@.len(),
                self.rules@.len() == old(self).rules@.len(),
                is_usable(reading),
                value == reading.value->0,
                observed_at == reading.last_success->0,
                (self@, events@) == evaluated_rules(
                    old(self)@,
                    old(events)@,
                    RULES as int,
                    reading,
                    index as int,
                ),
            decreases self.rules.len() - index,
        {
            let state: ThresholdState = self.rules[index];
            if state.rule.sensor() == reading.descriptor.id {
                let (after, raised) = evaluate_rule(
                    state,
                    reading.descriptor.kind,
                    value,
                    observed_at,
                );
                self.rules.set(index, after);
                if let Some(raised) = raised {
                    let mut event: SensorEvent = raised;
                    event.sequence = self.next_event_sequence;
                    self.next_event_sequence = self.next_event_sequence.wrapping_add(1);
                    if events.len() < RULES {
                        events.push(event);
                    }
                }
            }
            index = index + 1;
        }
    }
}

// ---- laws ------------------------------------------------------------------

/// Once it has reported a crossing, an absolute rule is silent until the value
/// has left the threshold by the hysteresis.
pub proof fn law_hysteresis_holds_the_report(
    state: ThresholdState,
    comparison: AbsoluteComparison,
    threshold: i32,
    hysteresis: u32,
    trigger_on_initial: bool,
    current: i32,
)
    requires
        state.has_sample,
        state.latched,
        !cleared(comparison, threshold, hysteresis, current),
    ensures
        absolute_step(state, comparison, threshold, hysteresis, trigger_on_initial, current) == (
            state,
            None::<SensorEventKind>,
        ),
{
}

/// Reports alternate: a rule that reported a crossing reports leaving next,
/// and one that reported leaving reports a crossing next.
pub proof fn law_reports_alternate(
    state: ThresholdState,
    comparison: AbsoluteComparison,
    threshold: i32,
    hysteresis: u32,
    trigger_on_initial: bool,
    current: i32,
)
    requires
        state.has_sample,
    ensures
        ({
            let (after, report) = absolute_step(
                state,
                comparison,
                threshold,
                hysteresis,
                trigger_on_initial,
                current,
            );
            &&& report == Some(SensorEventKind::AbsoluteEntered) ==> !state.latched
                && after.latched
            &&& report == Some(SensorEventKind::AbsoluteCleared) ==> state.latched
                && !after.latched
            &&& report is None ==> after == state
        }),
{
}

/// A rule and the events that it raised, not numbered yet, after the values of
/// its sensor, each with its time; the rule was fresh before them.
pub open spec fn rule_run(
    rule: ThresholdRule,
    kind: SensorKind,
    values: Seq<(SensorValue, Instant)>,
) -> (ThresholdState, Seq<SensorEvent>)
    decreases values.len(),
{
    if values.len() == 0 {
        (fresh_rule(rule), Seq::empty())
    } else {
        let (before, events) = rule_run(rule, kind, values.drop_last());
        let (value, at) = values.last();
        let (after, event) = rule_step(before, kind, value, at);
        match event {
            Some(event) => (after, events.push(event)),
            None => (after, events),
        }
    }
}

/// Whether an event is an absolute rule's report on one of some values.
pub open spec fn reports_value(
    event: SensorEvent,
    rule: ThresholdRule,
    values: Seq<(SensorValue, Instant)>,
) -> bool {
    &&& rule matches ThresholdRule::Absolute { id, sensor, threshold, .. } && event.threshold_id
        == id && event.sensor_id == sensor && event.threshold == threshold
    &&& event.kind == SensorEventKind::AbsoluteEntered || event.kind
        == SensorEventKind::AbsoluteCleared
    &&& event.previous is None
    &&& exists|i: int|
        0 <= i < values.len() && event.observed_at == (#[trigger] values[i]).1 && selected(
            values[i].0,
            rule_selector(rule),
        ) == Some(event.current)
}

/// Whether no two events in a row are of the same kind.
pub open spec fn alternate(events: Seq<SensorEvent>) -> bool {
    forall|i: int, j: int|
        0 <= i && j == i + 1 && j < events.len() ==> (#[trigger] events[i]).kind != (
        #[trigger] events[j]).kind
}

/// Over any values from the first on, the reports of an absolute rule
/// alternate, and each of them tells one of the values. The first value is
/// passed over in silence where the rule is not to report at once, and where it
/// is, the first report is of a crossing.
pub proof fn law_reports_alternate_from_the_start(
    rule: ThresholdRule,
    kind: SensorKind,
    values: Seq<(SensorValue, Instant)>,
)
    requires
        rule is Absolute,
    ensures
        ({
            let (state, events) = rule_run(rule, kind, values);
            &&& alternate(events)
            &&& forall|i: int|
                0 <= i < events.len() ==> reports_value(#[trigger] events[i], rule, values)
            &&& values.len() == 1 && !rule->trigger_on_initial ==> events.len() == 0
            &&& rule->trigger_on_initial && events.len() > 0 ==> events[0].kind
                == SensorEventKind::AbsoluteEntered
            &&& events.len() > 0 ==> (state.latched <==> events.last().kind
                == SensorEventKind::AbsoluteEntered)
        }),
    decreases values.len(),
{
    lemma_rule_run(rule, kind, values);
    if values.len() > 0 {
        let front = values.drop_last();
        law_reports_alternate_from_the_start(rule, kind, front);
        lemma_rule_run(rule, kind, front);
        let (before, first) = rule_run(rule, kind, front);
        let (value, at) = values.last();
        let (after, event) = rule_step(before, kind, value, at);
        lemma_absolute_rule_step(before, kind, value, at);
        let events = rule_run(rule, kind, values).1;
        assert forall|i: int| 0 <= i < events.len() implies reports_value(
            #[trigger] events[i],
            rule,
            values,
        ) by {
            if i < first.len() {
                assert(events[i] == first[i]);
                lemma_reports_earlier_value(first[i], rule, values);
            } else {
                assert(values[values.len() - 1] == values.last());
            }
        }
        assert(alternate(events)) by {
            if event is Some && first.len() > 0 {
                assert(first.last() == first[first.len() - 1]);
            }
        }
    }
}

/// A report on an earlier value is a report on one of all values.
proof fn lemma_reports_earlier_value(
    event: SensorEvent,
    rule: ThresholdRule,
    values: Seq<(SensorValue, Instant)>,
)
    requires
        values.len() > 0,
        reports_value(event, rule, values.drop_last()),
    ensures
        reports_value(event, rule, values),
{
    let front = values.drop_last();
    let i = choose|i: int|
        0 <= i < front.len() && event.observed_at == (#[trigger] front[i]).1 && selected(
            front[i].0,
            rule_selector(rule),
        ) == Some(event.current);
    assert(values[i] == front[i]);
}

/// What an absolute rule does with one value.
proof fn lemma_absolute_rule_step(
    state: ThresholdState,
    kind: SensorKind,
    value: SensorValue,
    at: Instant,
)
    requires
        state.rule is Absolute,
        !state.has_sample ==> !state.latched,
    ensures
        ({
            let (after, event) = rule_step(state, kind, value, at);
            &&& after.rule == state.rule
            &&& !after.has_sample ==> !after.latched && event is None
            &&& match event {
                Some(event) => {
                    &&& event.threshold_id == state.rule->Absolute_id
                    &&& event.sensor_id == state.rule->Absolute_sensor
                    &&& event.threshold == state.rule->threshold
                    &&& event.previous is None
                    &&& event.observed_at == at
                    &&& selected(value, rule_selector(state.rule)) == Some(event.current)
                    &&& state.has_sample || state.rule->trigger_on_initial
                    &&& after.latched != state.latched
                    &&& event.kind == (if after.latched {
                        SensorEventKind::AbsoluteEntered
                    } else {
                        SensorEventKind::AbsoluteCleared
                    })
                },
                None => {
                    &&& state.has_sample || state.rule->trigger_on_initial ==> after.latched
                        == state.latched
                    &&& state.has_sample ==> after.has_sample
                },
            }
        }),
{
}

/// What an absolute rule remembers of its events.
proof fn lemma_rule_run(
    rule: ThresholdRule,
    kind: SensorKind,
    values: Seq<(SensorValue, Instant)>,
)
    requires
        rule is Absolute,
    ensures
        ({
            let (state, events) = rule_run(rule, kind, values);
            &&& state.rule == rule
            &&& !state.has_sample ==> !state.latched && events.len() == 0
            &&& events.len() > 0 ==> (state.latched <==> events.last().kind
                == SensorEventKind::AbsoluteEntered)
            &&& rule->trigger_on_initial && events.len() == 0 ==> !state.latched
            &&& rule->trigger_on_initial && events.len() > 0 ==> events[0].kind
                == SensorEventKind::AbsoluteEntered
        }),
    decreases values.len(),
{
    if values.len() > 0 {
        let front = values.drop_last();
        lemma_rule_run(rule, kind, front);
        let (before, first) = rule_run(rule, kind, front);
        let (value, at) = values.last();
        lemma_absolute_rule_step(before, kind, value, at);
    }
}

/// Events are numbered one after the other, in the order of their rules.
pub proof fn law_events_are_numbered_in_order(
    m: EngineModel,
    events: Seq<SensorEvent>,
    capacity: int,
    reading: SensorReading,
    count: int,
)
    requires
        0 <= count <= m.rules.len(),
        events.len() + count <= capacity,
        m.next_event_sequence + count <= u64::MAX,
    ensures
        ({
            let (after, raised) = evaluated_rules(m, events, capacity, reading, count);
            &&& events.len() <= raised.len() <= events.len() + count
            &&& raised.take(events.len() as int) == events
            &&& after.next_event_sequence == m.next_event_sequence + (raised.len() - events.len())
            &&& forall|i: int|
                events.len() <= i < raised.len() ==> (#[trigger] raised[i]).sequence
                    == m.next_event_sequence + (i - events.len())
        }),
    decreases count,
{
    if count > 0 {
        law_events_are_numbered_in_order(m, events, capacity, reading, count - 1);
        let (before, first) = evaluated_rules(m, events, capacity, reading, count - 1);
        let (after, raised) = evaluated_rules(m, events, capacity, reading, count);
        assert(raised.take(events.len() as int) =~= first.take(events.len() as int));
    } else {
        assert(events.take(events.len() as int) =~= events);
    }
}

/// The number that stands some steps behind another; numbers start over at
/// their end.
pub open spec fn number_after(base: u64, steps: int) -> u64 {
    ((base + steps) % 0x1_0000_0000_0000_0000) as u64
}

/// Whether events bear the numbers from `base` on without a gap, and `next` is
/// the number of the event that comes next.
pub open spec fn numbered(events: Seq<SensorEvent>, base: u64, next: u64) -> bool {
    &&& next == number_after(base, events.len() as int)
    &&& forall|i: int|
        0 <= i < events.len() ==> (#[trigger] events[i]).sequence == number_after(base, i)
}

/// How many of the first `count` rules look at one of some sensors.
pub open spec fn watching(rules: Seq<ThresholdState>, sensors: Set<SensorId>, count: int) -> int
    decreases count,
{
    if count <= 0 {
        0
    } else {
        watching(rules, sensors, count - 1) + if sensors.contains(
            rule_sensor(rules[count - 1].rule),
        ) {
            1int
        } else {
            0
        }
    }
}

/// The rules that look at one more sensor come to those that were counted, and
/// never more than all are counted.
pub proof fn lemma_watching_one_more(
    rules: Seq<ThresholdState>,
    sensors: Set<SensorId>,
    id: SensorId,
    count: int,
)
    requires
        0 <= count,
        !sensors.contains(id),
    ensures
        watching(rules, sensors.insert(id), count) == watching(rules, sensors, count) + watching(
            rules,
            set![id],
            count,
        ),
        watching(rules, sensors.insert(id), count) <= count,
    decreases count,
{
    if count > 0 {
        lemma_watching_one_more(rules, sensors, id, count - 1);
    }
}

/// Rules that were not exchanged look at what they looked at.
pub proof fn lemma_watching_kept(
    before: Seq<ThresholdState>,
    after: Seq<ThresholdState>,
    sensors: Set<SensorId>,
    count: int,
)
    requires
        count <= before.len() == after.len(),
        forall|i: int| 0 <= i < before.len() ==> after[i].rule == before[i].rule,
    ensures
        watching(before, sensors, count) == watching(after, sensors, count),
    decreases count,
{
    if count > 0 {
        lemma_watching_kept(before, after, sensors, count - 1);
    }
}

/// No more rules are counted than there are.
pub proof fn lemma_watching_holds(
    rules: Seq<ThresholdState>,
    sensors: Set<SensorId>,
    count: int,
)
    requires
        0 <= count,
    ensures
        0 <= watching(rules, sensors, count) <= count,
    decreases count,
{
    if count > 0 {
        lemma_watching_holds(rules, sensors, count - 1);
    }
}

/// Fewer rules are counted among fewer.
proof fn lemma_watching_grows(
    rules: Seq<ThresholdState>,
    sensors: Set<SensorId>,
    fewer: int,
    count: int,
)
    requires
        0 <= fewer <= count,
    ensures
        watching(rules, sensors, fewer) <= watching(rules, sensors, count),
    decreases count,
{
    if fewer < count {
        lemma_watching_grows(rules, sensors, fewer, count - 1);
    }
}

/// While every event so far came from a rule on other sensors, there is room
/// for what the rules on one more sensor raise.
pub proof fn lemma_no_event_lost(
    m: EngineModel,
    events: Seq<SensorEvent>,
    capacity: int,
    reading: SensorReading,
    sensors: Set<SensorId>,
    base: u64,
    count: int,
)
    requires
        0 <= count <= m.rules.len() <= capacity,
        !sensors.contains(reading.descriptor.id),
        events.len() <= watching(m.rules, sensors, m.rules.len() as int),
        numbered(events, base, m.next_event_sequence),
    ensures
        ({
            let (after, raised) = evaluated_rules(m, events, capacity, reading, count);
            &&& raised.len() <= watching(m.rules, sensors, m.rules.len() as int) + watching(
                m.rules,
                set![reading.descriptor.id],
                count,
            )
            &&& numbered(raised, base, after.next_event_sequence)
        }),
    decreases count,
{
    if count > 0 {
        lemma_no_event_lost(m, events, capacity, reading, sensors, base, count - 1);
        lemma_rules_kept(m, events, capacity, reading, count - 1);
        let id = reading.descriptor.id;
        let (before, first) = evaluated_rules(m, events, capacity, reading, count - 1);
        let (after, raised) = evaluated_rules(m, events, capacity, reading, count);
        assert(before.rules[count - 1].rule == m.rules[count - 1].rule);
        if rule_sensor(m.rules[count - 1].rule) == id {
            lemma_watching_grows(m.rules, set![id], count, m.rules.len() as int);
            lemma_watching_one_more(m.rules, sensors, id, m.rules.len() as int);
        }
    }
}

} // verus!
