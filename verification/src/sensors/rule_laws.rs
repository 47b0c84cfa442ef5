//! Laws on the rules: what they look at, when they report, and what they tell.
use crate::clock::Instant;
use crate::sensors::math;
use crate::sensors::thresholds;
use crate::sensors::thresholds::{
    AbsoluteComparison, EngineModel, ThresholdError, ThresholdRule, ThresholdState, ValueSelector,
};
use crate::sensors::types::{
    ReadingStatus, SensorEvent, SensorEventKind, SensorKind, SensorReading, SensorValue,
    ThresholdId,
};
use vstd::prelude::*;

verus! {

// ---- parts of values -------------------------------------------------------

/// The selectors of an acceleration or a magnetic field give its components
/// themselves, and its length rounded down.
pub proof fn law_vector_selectors_give_the_components(x: i32, y: i32, z: i32)
    ensures
        ({
            let acceleration = SensorValue::AccelerationMg { x, y, z };
            let field = SensorValue::MagneticFieldNt { x, y, z };
            let squares = x * x + y * y + z * z;
            &&& thresholds::selected(acceleration, ValueSelector::X) == Some(x)
            &&& thresholds::selected(acceleration, ValueSelector::Y) == Some(y)
            &&& thresholds::selected(acceleration, ValueSelector::Z) == Some(z)
            &&& thresholds::selected(field, ValueSelector::X) == Some(x)
            &&& thresholds::selected(field, ValueSelector::Y) == Some(y)
            &&& thresholds::selected(field, ValueSelector::Z) == Some(z)
            &&& is_length(thresholds::selected(acceleration, ValueSelector::Magnitude), squares)
            &&& is_length(thresholds::selected(field, ValueSelector::Magnitude), squares)
            &&& thresholds::selected(acceleration, ValueSelector::Scalar) is None
            &&& thresholds::selected(acceleration, ValueSelector::Roll) is None
            &&& thresholds::selected(acceleration, ValueSelector::Pitch) is None
            &&& thresholds::selected(field, ValueSelector::Scalar) is None
            &&& thresholds::selected(field, ValueSelector::Roll) is None
            &&& thresholds::selected(field, ValueSelector::Pitch) is None
        }),
{
    let squares = x * x + y * y + z * z;
    assert(squares >= 0) by (nonlinear_arith)
        requires
            squares == x * x + y * y + z * z,
    ;
    math::law_root_is_between_squares(squares);
    let root = math::root_of(squares);
    if root > i32::MAX {
        assert(0x7fff_ffff * 0x7fff_ffff <= root * root) by (nonlinear_arith)
            requires
                root > 0x7fff_ffff,
        ;
    }
}

/// Whether a number is the root of a sum of squares, rounded down and held inside
/// its range.
pub open spec fn is_length(length: Option<i32>, squares: int) -> bool {
    &&& length is Some
    &&& 0 <= length->0
    &&& length->0 * length->0 <= squares
    &&& length->0 < i32::MAX ==> squares < (length->0 + 1) * (length->0 + 1)
}

/// The selectors of the other values give them themselves, a very large dynamic
/// acceleration at the end of the range.
pub proof fn law_scalar_selectors_give_the_value(
    temperature: i32,
    heading: u16,
    dynamic: u32,
    roll: i32,
    pitch: i32,
)
    ensures
        ({
            let tilt = SensorValue::TiltCentiDegrees { roll, pitch };
            let scalar = thresholds::selected(
                SensorValue::DynamicAccelerationMg(dynamic),
                ValueSelector::Scalar,
            );
            &&& thresholds::selected(
                SensorValue::TemperatureMilliCelsius(temperature),
                ValueSelector::Scalar,
            ) == Some(temperature)
            &&& thresholds::selected(
                SensorValue::HeadingCentiDegrees(heading),
                ValueSelector::Scalar,
            ) matches Some(value) && value == heading
            &&& scalar is Some
            &&& dynamic <= i32::MAX ==> scalar->0 == dynamic
            &&& dynamic > i32::MAX ==> scalar->0 == i32::MAX
            &&& thresholds::selected(tilt, ValueSelector::Roll) == Some(roll)
            &&& thresholds::selected(tilt, ValueSelector::Pitch) == Some(pitch)
            &&& thresholds::selected(tilt, ValueSelector::Scalar) is None
            &&& thresholds::selected(tilt, ValueSelector::Magnitude) is None
        }),
{
}

/// Whether a number is the part of a value that a selector names, said of the
/// value's own numbers.
pub open spec fn is_part(value: SensorValue, selector: ValueSelector, part: i32) -> bool {
    match value {
        SensorValue::AccelerationMg { x, y, z } => is_component(x, y, z, selector, part),
        SensorValue::MagneticFieldNt { x, y, z } => is_component(x, y, z, selector, part),
        SensorValue::TemperatureMilliCelsius(scalar) => selector == ValueSelector::Scalar && part
            == scalar,
        SensorValue::TiltCentiDegrees { roll, pitch } => {
            ||| selector == ValueSelector::Roll && part == roll
            ||| selector == ValueSelector::Pitch && part == pitch
        },
        SensorValue::HeadingCentiDegrees(scalar) => selector == ValueSelector::Scalar && part
            == scalar,
        SensorValue::DynamicAccelerationMg(scalar) => selector == ValueSelector::Scalar && (part
            == scalar || scalar > i32::MAX && part == i32::MAX),
    }
}

/// Whether a number is the part of a vector that a selector names.
pub open spec fn is_component(
    x: i32,
    y: i32,
    z: i32,
    selector: ValueSelector,
    part: i32,
) -> bool {
    ||| selector == ValueSelector::X && part == x
    ||| selector == ValueSelector::Y && part == y
    ||| selector == ValueSelector::Z && part == z
    ||| selector == ValueSelector::Magnitude && is_length(Some(part), x * x + y * y + z * z)
}

/// What is selected of a value is the part that the selector names.
pub proof fn law_selected_is_the_named_part(value: SensorValue, selector: ValueSelector)
    ensures
        thresholds::selected(value, selector) matches Some(part) ==> is_part(value, selector, part),
{
    match value {
        SensorValue::AccelerationMg { x, y, z } => {
            law_vector_selectors_give_the_components(x, y, z);
        },
        SensorValue::MagneticFieldNt { x, y, z } => {
            law_vector_selectors_give_the_components(x, y, z);
        },
        _ => {},
    }
}

/// Rules look at the parts that a value of their sensor has: components and the
/// length of vectors, the angles of a tilt, the number of everything else.
pub proof fn law_kinds_have_their_parts(kind: SensorKind)
    ensures
        ({
            let vector = kind == SensorKind::Acceleration || kind == SensorKind::MagneticField;
            let tilt = kind == SensorKind::Tilt;
            &&& thresholds::selects(kind, ValueSelector::X) <==> vector
            &&& thresholds::selects(kind, ValueSelector::Y) <==> vector
            &&& thresholds::selects(kind, ValueSelector::Z) <==> vector
            &&& thresholds::selects(kind, ValueSelector::Magnitude) <==> vector
            &&& thresholds::selects(kind, ValueSelector::Roll) <==> tilt
            &&& thresholds::selects(kind, ValueSelector::Pitch) <==> tilt
            &&& thresholds::selects(kind, ValueSelector::Scalar) <==> !vector && !tilt
        }),
{
}

// ---- one rule --------------------------------------------------------------

/// Whether an event names a rule and its sensor, and tells a reading: the part
/// that the rule looks at, and when it was measured.
pub open spec fn tells(
    event: SensorEvent,
    rule: ThresholdRule,
    value: SensorValue,
    observed_at: Instant,
) -> bool {
    &&& event.observed_at == observed_at
    &&& match rule {
        ThresholdRule::Absolute { id, sensor, selector, threshold, .. } => {
            &&& event.threshold_id == id
            &&& event.sensor_id == sensor
            &&& event.threshold == threshold
            &&& event.previous is None
            &&& event.kind != SensorEventKind::DeltaExceeded
            &&& is_part(value, selector, event.current)
        },
        ThresholdRule::Delta { id, sensor, selector, minimum_absolute_change, .. } => {
            &&& event.threshold_id == id
            &&& event.sensor_id == sensor
            &&& minimum_absolute_change <= i32::MAX ==> event.threshold == minimum_absolute_change
            &&& minimum_absolute_change > i32::MAX ==> event.threshold == i32::MAX
            &&& event.previous is Some
            &&& event.kind == SensorEventKind::DeltaExceeded
            &&& is_part(value, selector, event.current)
        },
    }
}

/// An event that a rule raises tells the reading that raised it.
pub proof fn law_event_tells_its_reading(
    state: ThresholdState,
    kind: SensorKind,
    value: SensorValue,
    observed_at: Instant,
)
    ensures
        thresholds::rule_step(state, kind, value, observed_at).1 matches Some(event) ==> tells(
            event,
            state.rule,
            value,
            observed_at,
        ),
        thresholds::rule_step(state, kind, value, observed_at).0.rule == state.rule,
{
    match state.rule {
        ThresholdRule::Absolute { selector, .. } => {
            law_selected_is_the_named_part(value, selector);
        },
        ThresholdRule::Delta { selector, .. } => {
            law_selected_is_the_named_part(value, selector);
        },
    }
}

/// A rule for values above a threshold reports the first one that reaches it, and
/// after that the first one that is lower by the hysteresis. The first value of
/// all is reported only where the rule says so.
pub proof fn law_rule_for_high_values(
    state: ThresholdState,
    kind: SensorKind,
    value: SensorValue,
    observed_at: Instant,
    current: i32,
)
    requires
        state.rule matches ThresholdRule::Absolute { selector, comparison, .. } && comparison
            == AbsoluteComparison::Above && thresholds::selected(value, selector) == Some(current),
    ensures
        ({
            let (after, event) = thresholds::rule_step(state, kind, value, observed_at);
            let threshold = state.rule->threshold as int;
            let low = threshold - state.rule->hysteresis;
            &&& after.has_sample
            &&& after.previous == state.previous
            &&& !state.has_sample ==> (after.latched <==> current >= threshold)
            &&& !state.has_sample ==> (event is Some <==> current >= threshold
                && state.rule->trigger_on_initial)
            &&& state.has_sample && !state.latched ==> (after.latched <==> current >= threshold)
            &&& state.has_sample && !state.latched ==> (event is Some <==> current >= threshold)
            &&& state.has_sample && state.latched ==> (after.latched <==> current > low)
            &&& state.has_sample && state.latched ==> (event is Some <==> current <= low)
            &&& event is Some ==> event->0.current == current && event->0.kind == (
            if state.has_sample && state.latched {
                SensorEventKind::AbsoluteCleared
            } else {
                SensorEventKind::AbsoluteEntered
            })
        }),
{
}

/// A rule for values below a threshold reports the first one that comes down to
/// it, and after that the first one that is higher by the hysteresis. The first
/// value of all is reported only where the rule says so.
pub proof fn law_rule_for_low_values(
    state: ThresholdState,
    kind: SensorKind,
    value: SensorValue,
    observed_at: Instant,
    current: i32,
)
    requires
        state.rule matches ThresholdRule::Absolute { selector, comparison, .. } && comparison
            == AbsoluteComparison::Below && thresholds::selected(value, selector) == Some(current),
    ensures
        ({
            let (after, event) = thresholds::rule_step(state, kind, value, observed_at);
            let threshold = state.rule->threshold as int;
            let high = threshold + state.rule->hysteresis;
            &&& after.has_sample
            &&& after.previous == state.previous
            &&& !state.has_sample ==> (after.latched <==> current <= threshold)
            &&& !state.has_sample ==> (event is Some <==> current <= threshold
                && state.rule->trigger_on_initial)
            &&& state.has_sample && !state.latched ==> (after.latched <==> current <= threshold)
            &&& state.has_sample && !state.latched ==> (event is Some <==> current <= threshold)
            &&& state.has_sample && state.latched ==> (after.latched <==> current < high)
            &&& state.has_sample && state.latched ==> (event is Some <==> current >= high)
            &&& event is Some ==> event->0.current == current && event->0.kind == (
            if state.has_sample && state.latched {
                SensorEventKind::AbsoluteCleared
            } else {
                SensorEventKind::AbsoluteEntered
            })
        }),
{
}

/// A rule on changes reports a value that lies at least the minimum above or below
/// the one before it, unless that one is older than the interval. Headings lie
/// apart the short way round. Each value is remembered for the next.
pub proof fn law_rule_for_changes(
    state: ThresholdState,
    kind: SensorKind,
    value: SensorValue,
    observed_at: Instant,
    current: i32,
)
    requires
        state.rule matches ThresholdRule::Delta { selector, .. } && thresholds::selected(
            value,
            selector,
        ) == Some(current),
    ensures
        ({
            let (after, event) = thresholds::rule_step(state, kind, value, observed_at);
            let minimum = state.rule->minimum_absolute_change as int;
            let heading = kind == SensorKind::Heading || kind
                == SensorKind::TiltCompensatedHeading;
            &&& after.previous == Some((current, observed_at))
            &&& after.latched == state.latched
            &&& after.has_sample == state.has_sample
            &&& state.previous is None ==> event is None
            &&& state.previous matches Some((before, at)) ==> {
                let old = state.rule->maximum_interval is Some && observed_at.ticks - at.ticks
                    > state.rule->maximum_interval->0.ticks;
                &&& old ==> event is None
                &&& !old && !heading ==> (event is Some <==> current - before >= minimum || before
                    - current >= minimum)
                &&& !old && heading && 0 <= current < 36_000 && 0 <= before < 36_000 ==> (event
                    is Some <==> {
                    ||| current >= before && current - before >= minimum && 36_000 - (current
                        - before) >= minimum
                    ||| before >= current && before - current >= minimum && 36_000 - (before
                        - current) >= minimum
                })
                &&& event is Some ==> event->0.current == current && event->0.previous == Some(
                    before,
                )
            }
        }),
{
}

/// A value without the part that a rule looks at leaves the rule alone.
pub proof fn law_other_values_leave_a_rule_alone(
    state: ThresholdState,
    kind: SensorKind,
    value: SensorValue,
    observed_at: Instant,
)
    requires
        ({
            let selector = match state.rule {
                ThresholdRule::Absolute { selector, .. } => selector,
                ThresholdRule::Delta { selector, .. } => selector,
            };
            thresholds::selected(value, selector) is None
        }),
    ensures
        thresholds::rule_step(state, kind, value, observed_at) == (state, None::<SensorEvent>),
{
}

// ---- all rules -------------------------------------------------------------

/// A reading that is not current, or without a value or the time of one, leaves
/// all rules alone.
pub proof fn law_unusable_readings_leave_the_rules_alone(
    m: EngineModel,
    events: Seq<SensorEvent>,
    capacity: int,
    reading: SensorReading,
)
    requires
        reading.status != ReadingStatus::Current || reading.value is None || reading.last_success
            is None,
    ensures
        thresholds::evaluated(m, events, capacity, reading) == (m, events),
{
}

/// Whether an event tells a reading for one of some rules.
pub open spec fn tells_for_a_rule(
    event: SensorEvent,
    rules: Seq<ThresholdState>,
    reading: SensorReading,
) -> bool {
    exists|k: int|
        0 <= k < rules.len() && tells(
            event,
            (#[trigger] rules[k]).rule,
            reading.value->0,
            reading.last_success->0,
        ) && event.sensor_id == reading.descriptor.id
}

/// The events that a current reading raises stand behind those that were there,
/// and each tells the reading for one of the rules on its sensor.
pub proof fn law_events_tell_the_reading(
    m: EngineModel,
    events: Seq<SensorEvent>,
    capacity: int,
    reading: SensorReading,
)
    requires
        reading.status == ReadingStatus::Current,
        reading.value is Some,
        reading.last_success is Some,
    ensures
        ({
            let raised = thresholds::evaluated(m, events, capacity, reading).1;
            &&& raised.len() >= events.len()
            &&& forall|i: int| 0 <= i < events.len() ==> raised[i] == events[i]
            &&& forall|i: int|
                events.len() <= i < raised.len() ==> tells_for_a_rule(
                    #[trigger] raised[i],
                    m.rules,
                    reading,
                )
        }),
{
    lemma_events_tell(m, events, capacity, reading, m.rules.len() as int);
}

/// The events of the first rules tell the reading.
proof fn lemma_events_tell(
    m: EngineModel,
    events: Seq<SensorEvent>,
    capacity: int,
    reading: SensorReading,
    count: int,
)
    requires
        0 <= count <= m.rules.len(),
    ensures
        ({
            let raised = thresholds::evaluated_rules(m, events, capacity, reading, count).1;
            &&& raised.len() >= events.len()
            &&& forall|i: int| 0 <= i < events.len() ==> raised[i] == events[i]
            &&& forall|i: int|
                events.len() <= i < raised.len() ==> tells_for_a_rule(
                    #[trigger] raised[i],
                    m.rules,
                    reading,
                )
        }),
    decreases count,
{
    if count > 0 {
        lemma_events_tell(m, events, capacity, reading, count - 1);
        thresholds::lemma_rules_kept(m, events, capacity, reading, count - 1);
        let (before, first) = thresholds::evaluated_rules(m, events, capacity, reading, count - 1);
        let raised = thresholds::evaluated_rules(m, events, capacity, reading, count).1;
        let state = before.rules[count - 1];
        assert(state.rule == m.rules[count - 1].rule);
        law_event_tells_its_reading(
            state,
            reading.descriptor.kind,
            reading.value->0,
            reading.last_success->0,
        );
        assert forall|i: int| events.len() <= i < raised.len() implies tells_for_a_rule(
            #[trigger] raised[i],
            m.rules,
            reading,
        ) by {
            if i < first.len() {
                assert(raised[i] == first[i]);
            } else {
                assert(tells(
                    raised[i],
                    m.rules[count - 1].rule,
                    reading.value->0,
                    reading.last_success->0,
                ));
            }
        }
    }
}

/// A current reading is shown to every rule on its sensor and to no other, and an
/// event that finds no room still takes its number.
pub proof fn law_reading_is_shown_to_the_rules_on_its_sensor(
    m: EngineModel,
    events: Seq<SensorEvent>,
    capacity: int,
    reading: SensorReading,
    k: int,
)
    requires
        reading.status == ReadingStatus::Current,
        reading.value is Some,
        reading.last_success is Some,
        0 <= k < m.rules.len(),
    ensures
        ({
            let after = thresholds::evaluated(m, events, capacity, reading).0;
            let sensor = match m.rules[k].rule {
                ThresholdRule::Absolute { sensor, .. } => sensor,
                ThresholdRule::Delta { sensor, .. } => sensor,
            };
            &&& after.rules.len() == m.rules.len()
            &&& sensor != reading.descriptor.id ==> after.rules[k] == m.rules[k]
            &&& sensor == reading.descriptor.id ==> after.rules[k] == thresholds::rule_step(
                m.rules[k],
                reading.descriptor.kind,
                reading.value->0,
                reading.last_success->0,
            ).0
        }),
{
    lemma_shown(m, events, capacity, reading, m.rules.len() as int, k);
}

/// What the first rules saw.
proof fn lemma_shown(
    m: EngineModel,
    events: Seq<SensorEvent>,
    capacity: int,
    reading: SensorReading,
    count: int,
    k: int,
)
    requires
        0 <= count <= m.rules.len(),
        0 <= k < m.rules.len(),
    ensures
        ({
            let after = thresholds::evaluated_rules(m, events, capacity, reading, count).0;
            let sensor = match m.rules[k].rule {
                ThresholdRule::Absolute { sensor, .. } => sensor,
                ThresholdRule::Delta { sensor, .. } => sensor,
            };
            &&& after.rules.len() == m.rules.len()
            &&& k >= count || sensor != reading.descriptor.id ==> after.rules[k] == m.rules[k]
            &&& k < count && sensor == reading.descriptor.id ==> after.rules[k]
                == thresholds::rule_step(
                m.rules[k],
                reading.descriptor.kind,
                reading.value->0,
                reading.last_success->0,
            ).0
        }),
    decreases count,
{
    if count > 0 {
        lemma_shown(m, events, capacity, reading, count - 1, k);
        if k == count - 1 {
        } else {
            thresholds::lemma_rules_kept(m, events, capacity, reading, count - 1);
        }
    }
}

/// A rule is refused for its name where another rule has it, for its part where
/// readings of the kind lack it, for a change of nothing, and for want of room,
/// and for nothing else.
pub proof fn law_rules_are_refused_for_a_reason(
    rules: Seq<ThresholdState>,
    capacity: int,
    rule: ThresholdRule,
    kind: SensorKind,
    value: SensorValue,
)
    requires
        value.fits(kind),
    ensures
        ({
            let (id, selector) = match rule {
                ThresholdRule::Absolute { id, selector, .. } => (id, selector),
                ThresholdRule::Delta { id, selector, .. } => (id, selector),
            };
            let taken = exists|k: int| 0 <= k < rules.len() && named(#[trigger] rules[k], id);
            let lacking = thresholds::selected(value, selector) is None;
            let nothing = rule matches ThresholdRule::Delta { minimum_absolute_change, .. }
                && minimum_absolute_change == 0;
            match thresholds::refusal(rules, capacity, rule, kind) {
                Some(ThresholdError::DuplicateId(other)) => other == id && taken,
                Some(ThresholdError::IncompatibleSelector { selector: other, .. }) => other
                    == selector && !taken && lacking,
                Some(ThresholdError::InvalidConfiguration) => !taken && !lacking && nothing,
                Some(ThresholdError::Capacity) => !taken && !lacking && !nothing && rules.len()
                    >= capacity,
                Some(ThresholdError::UnknownSensor(_)) => false,
                None => !taken && !lacking && !nothing && rules.len() < capacity,
            }
        }),
{
    thresholds::law_accepted_rules_find_their_part(
        kind,
        match rule {
            ThresholdRule::Absolute { selector, .. } => selector,
            ThresholdRule::Delta { selector, .. } => selector,
        },
        value,
    );
    let id = thresholds::rule_id(rule);
    if thresholds::has_rule(rules, id) {
        let k = choose|k: int|
            0 <= k < rules.len() && thresholds::rule_id((#[trigger] rules[k]).rule) == id;
        assert(named(rules[k], id));
    }
}

/// Whether a rule has a name.
pub open spec fn named(state: ThresholdState, id: ThresholdId) -> bool {
    match state.rule {
        ThresholdRule::Absolute { id: own, .. } => own == id,
        ThresholdRule::Delta { id: own, .. } => own == id,
    }
}

} // verus!
