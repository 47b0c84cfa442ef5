//! Rules that watch readings.
use raylar_services::clock::{Duration, Instant};
use raylar_services::sensors::thresholds::{
    select_value, selector_compatible, AbsoluteComparison, ThresholdEngine, ThresholdError,
    ThresholdRule, ValueSelector,
};
use raylar_services::sensors::types::{
    ReadingStatus, SensorDescriptor, SensorEventKind, SensorId, SensorKind, SensorOrigin,
    SensorReading, SensorValue, ThresholdId,
};

fn reading(kind: SensorKind, value: SensorValue, ticks: u64) -> SensorReading {
    SensorReading {
        descriptor: SensorDescriptor { id: SensorId(1), kind, origin: SensorOrigin::Other(1) },
        value: Some(value),
        status: ReadingStatus::Current,
        sequence: ticks,
        last_attempt: Instant::from_ticks(ticks),
        last_success: Some(Instant::from_ticks(ticks)),
        consecutive_errors: 0,
        total_errors: 0,
        last_error: None,
    }
}

fn temperature(milli_celsius: i32, ticks: u64) -> SensorReading {
    reading(
        SensorKind::Temperature,
        SensorValue::TemperatureMilliCelsius(milli_celsius),
        ticks,
    )
}

fn above(id: u16, threshold: i32, hysteresis: u32) -> ThresholdRule {
    ThresholdRule::Absolute {
        id: ThresholdId(id),
        sensor: SensorId(1),
        selector: ValueSelector::Scalar,
        comparison: AbsoluteComparison::Above,
        threshold,
        hysteresis,
        trigger_on_initial: true,
    }
}

#[test]
fn absolute_threshold_hysteresis_rearms() {
    let mut engine = ThresholdEngine::<3>::new();
    engine
        .add(
            ThresholdRule::Absolute {
                id: ThresholdId(1),
                sensor: SensorId(1),
                selector: ValueSelector::Scalar,
                comparison: AbsoluteComparison::Above,
                threshold: 40_000,
                hysteresis: 1_000,
                trigger_on_initial: true,
            },
            SensorKind::Temperature,
        )
        .unwrap();
    let mut events = Vec::new();
    engine.evaluate(
        reading(SensorKind::Temperature, SensorValue::TemperatureMilliCelsius(41_000), 1),
        &mut events,
    );
    engine.evaluate(
        reading(SensorKind::Temperature, SensorValue::TemperatureMilliCelsius(40_500), 2),
        &mut events,
    );
    engine.evaluate(
        reading(SensorKind::Temperature, SensorValue::TemperatureMilliCelsius(39_000), 3),
        &mut events,
    );
    engine.evaluate(
        reading(SensorKind::Temperature, SensorValue::TemperatureMilliCelsius(41_000), 4),
        &mut events,
    );
    assert_eq!(events.len(), 3);
    assert_eq!(events[0].kind, SensorEventKind::AbsoluteEntered);
    assert_eq!(events[1].kind, SensorEventKind::AbsoluteCleared);
    assert_eq!(events[2].kind, SensorEventKind::AbsoluteEntered);
}

#[test]
fn angular_delta_uses_shortest_distance() {
    let mut engine = ThresholdEngine::<1>::new();
    engine
        .add(
            ThresholdRule::Delta {
                id: ThresholdId(2),
                sensor: SensorId(1),
                selector: ValueSelector::Scalar,
                minimum_absolute_change: 300,
                maximum_interval: None,
            },
            SensorKind::Heading,
        )
        .unwrap();
    let mut events = Vec::new();
    engine.evaluate(
        reading(SensorKind::Heading, SensorValue::HeadingCentiDegrees(35_900), 1),
        &mut events,
    );
    engine.evaluate(
        reading(SensorKind::Heading, SensorValue::HeadingCentiDegrees(100), 2),
        &mut events,
    );
    assert!(events.is_empty());
}

#[test]
fn delta_discards_a_stale_baseline() {
    let mut engine = ThresholdEngine::<1>::new();
    engine
        .add(
            ThresholdRule::Delta {
                id: ThresholdId(3),
                sensor: SensorId(1),
                selector: ValueSelector::Scalar,
                minimum_absolute_change: 500,
                maximum_interval: Some(Duration::from_ticks(10)),
            },
            SensorKind::Temperature,
        )
        .unwrap();
    let mut events = Vec::new();
    engine.evaluate(
        reading(SensorKind::Temperature, SensorValue::TemperatureMilliCelsius(0), 1),
        &mut events,
    );
    engine.evaluate(
        reading(SensorKind::Temperature, SensorValue::TemperatureMilliCelsius(1_000), 100),
        &mut events,
    );
    assert!(events.is_empty());
    engine.evaluate(
        reading(SensorKind::Temperature, SensorValue::TemperatureMilliCelsius(1_600), 105),
        &mut events,
    );
    assert_eq!(events.len(), 1);
    assert_eq!(events[0].previous, Some(1_000));
}

#[test]
fn rules_that_cannot_work_are_refused() {
    let mut engine = ThresholdEngine::<1>::new();
    assert_eq!(
        engine.add(above(1, 10, 0), SensorKind::Acceleration),
        Err(ThresholdError::IncompatibleSelector {
            sensor: SensorId(1),
            kind: SensorKind::Acceleration,
            selector: ValueSelector::Scalar,
        })
    );
    assert_eq!(
        engine.add(
            ThresholdRule::Delta {
                id: ThresholdId(9),
                sensor: SensorId(1),
                selector: ValueSelector::Scalar,
                minimum_absolute_change: 0,
                maximum_interval: None,
            },
            SensorKind::Temperature,
        ),
        Err(ThresholdError::InvalidConfiguration)
    );
    engine.add(above(1, 10, 0), SensorKind::Temperature).unwrap();
    assert_eq!(
        engine.add(above(1, 20, 0), SensorKind::Temperature),
        Err(ThresholdError::DuplicateId(ThresholdId(1)))
    );
    assert_eq!(
        engine.add(above(2, 20, 0), SensorKind::Temperature),
        Err(ThresholdError::Capacity)
    );
}

#[test]
fn events_are_numbered_and_stale_readings_are_ignored() {
    let mut engine = ThresholdEngine::<2>::new();
    engine.add(above(1, 10, 5), SensorKind::Temperature).unwrap();
    engine.add(above(2, 20, 5), SensorKind::Temperature).unwrap();
    let mut events = Vec::new();
    let mut stale = temperature(30, 1);
    stale.status = ReadingStatus::Stale;
    engine.evaluate(stale, &mut events);
    assert!(events.is_empty());
    engine.evaluate(temperature(30, 2), &mut events);
    let seen: Vec<(u64, u16)> =
        events.iter().map(|event| (event.sequence, event.threshold_id.0)).collect();
    assert_eq!(seen, [(0, 1), (1, 2)]);
    assert_eq!(events[0].current, 30);
    assert_eq!(events[0].threshold, 10);
}

#[test]
fn parts_of_a_vector_can_be_watched() {
    let mut engine = ThresholdEngine::<1>::new();
    engine
        .add(
            ThresholdRule::Absolute {
                id: ThresholdId(1),
                sensor: SensorId(1),
                selector: ValueSelector::Magnitude,
                comparison: AbsoluteComparison::Below,
                threshold: 600,
                hysteresis: 0,
                trigger_on_initial: true,
            },
            SensorKind::Acceleration,
        )
        .unwrap();
    let mut events = Vec::new();
    engine.evaluate(
        reading(
            SensorKind::Acceleration,
            SensorValue::AccelerationMg { x: 300, y: -400, z: 0 },
            1,
        ),
        &mut events,
    );
    assert_eq!(events.len(), 1);
    assert_eq!(events[0].current, 500);
}

#[test]
fn reports_alternate_from_the_first_reading_on() {
    let run = |trigger_on_initial: bool| {
        let mut engine = ThresholdEngine::<1>::new();
        let rule = ThresholdRule::Absolute {
            id: ThresholdId(1),
            sensor: SensorId(1),
            selector: ValueSelector::Scalar,
            comparison: AbsoluteComparison::Above,
            threshold: 100,
            hysteresis: 10,
            trigger_on_initial,
        };
        engine.add(rule, SensorKind::Temperature).unwrap();
        let mut reports = Vec::new();
        for (ticks, value) in [150, 95, 90, 95, 100, 120, 0, 200].into_iter().enumerate() {
            let mut events = Vec::new();
            engine.evaluate(temperature(value, ticks as u64), &mut events);
            reports.extend(events.into_iter().map(|event| (event.kind, event.current)));
        }
        reports
    };
    let later = [
        (SensorEventKind::AbsoluteCleared, 90),
        (SensorEventKind::AbsoluteEntered, 100),
        (SensorEventKind::AbsoluteCleared, 0),
        (SensorEventKind::AbsoluteEntered, 200),
    ];
    assert_eq!(run(false), later);
    let at_once = run(true);
    assert_eq!(at_once[0], (SensorEventKind::AbsoluteEntered, 150));
    assert_eq!(at_once[1..], later);
}

#[test]
fn rules_are_admitted_where_values_have_their_part() {
    let tilt = SensorValue::TiltCentiDegrees { roll: 1, pitch: 2 };
    assert!(selector_compatible(SensorKind::Tilt, ValueSelector::Pitch));
    assert_eq!(select_value(tilt, ValueSelector::Pitch), Some(2));
    assert!(!selector_compatible(SensorKind::Tilt, ValueSelector::Scalar));
    assert_eq!(select_value(tilt, ValueSelector::Scalar), None);
}
