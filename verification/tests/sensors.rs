//! The sensor service and its derived sensors.
use raylar_services::clock::{Duration, Instant};
use raylar_services::sensors::axis::{AxisMap, MagneticCalibration, SignedAxis, Vector3};
use raylar_services::sensors::composites::ecompass::{ECompassConfig, ECompassSensor};
use raylar_services::sensors::composites::heading::{HeadingConfig, HeadingSensor};
use raylar_services::sensors::composites::inputs::{
    answer, AngleQuestion, AngleRequest, AngleSource, Angles, CompositeValidationError,
};
use raylar_services::sensors::composites::odba::{DynamicVector, OdbaConfig, OdbaSensor};
use raylar_services::sensors::composites::tilt::{TiltConfig, TiltSensor};
use raylar_services::sensors::composites::vedba::{VedbaConfig, VedbaSensor};
use raylar_services::sensors::math::{abs_i32, isqrt, vector_magnitude, wrap_heading};
use raylar_services::sensors::model::RegistrationError;
use raylar_services::sensors::service::SensorService;
use raylar_services::sensors::source::{SensorRegistration, SensorSource, SensorSourceError};
use raylar_services::sensors::thresholds::{
    AbsoluteComparison, ThresholdError, ThresholdRule, ValueSelector,
};
use raylar_services::sensors::types::{
    ReadingError, ReadingStatus, SensorDescriptor, SensorEventKind, SensorId, SensorKind,
    SensorOrigin, SensorValue, ThresholdId,
};

// ---- directions ------------------------------------------------------------

fn atan2_cdeg(y: f32, x: f32) -> i32 {
    let value = libm::atan2f(y, x) * (18_000.0 / core::f32::consts::PI);
    if value >= 0.0 {
        (value + 0.5) as i32
    } else {
        (value - 0.5) as i32
    }
}

fn heading_cdeg(y: f32, x: f32, correction_cdeg: i32) -> u16 {
    wrap_heading(atan2_cdeg(y, x), correction_cdeg)
}

fn tilt_cdeg(x: i32, y: i32, z: i32) -> (i32, i32) {
    let (x, y, z) = (x as f32, y as f32, z as f32);
    (atan2_cdeg(y, z), atan2_cdeg(-x, libm::sqrtf(y * y + z * z)))
}

fn compensated_cdeg(acceleration: Vector3, field: Vector3) -> i32 {
    let (ax, ay, az) = (acceleration.x as f32, acceleration.y as f32, acceleration.z as f32);
    let roll = libm::atan2f(ay, az);
    let pitch = libm::atan2f(-ax, libm::sqrtf(ay * ay + az * az));
    let (mx, my, mz) = (field.x as f32, field.y as f32, field.z as f32);
    let x = mx * libm::cosf(pitch) + mz * libm::sinf(pitch);
    let y = mx * libm::sinf(roll) * libm::sinf(pitch) + my * libm::cosf(roll)
        - mz * libm::sinf(roll) * libm::cosf(pitch);
    atan2_cdeg(y, x)
}

struct FloatAngles;

impl AngleSource for FloatAngles {
    fn angles(&self, question: AngleQuestion) -> Angles {
        match question {
            AngleQuestion::Tilt(v) => {
                let (first, second) = tilt_cdeg(v.x, v.y, v.z);
                Angles { first, second }
            }
            AngleQuestion::Heading(v) => {
                Angles { first: atan2_cdeg(v.y as f32, v.x as f32), second: 0 }
            }
            AngleQuestion::CompensatedHeading { acceleration, field } => {
                Angles { first: compensated_cdeg(acceleration, field), second: 0 }
            }
        }
    }
}

fn calculate_tilt(x: i32, y: i32, z: i32) -> (i32, i32) {
    let question = AngleQuestion::Tilt(Vector3 { x, y, z });
    let request =
        AngleRequest { question, correction_cdeg: 0, observed_at: Instant::from_ticks(0) };
    match answer(request, FloatAngles.angles(question)).value {
        SensorValue::TiltCentiDegrees { roll, pitch } => (roll, pitch),
        _ => unreachable!(),
    }
}

fn compensated_heading(acceleration: Vector3, field: Vector3, correction_cdeg: i32) -> u16 {
    let question = AngleQuestion::CompensatedHeading { acceleration, field };
    let request =
        AngleRequest { question, correction_cdeg, observed_at: Instant::from_ticks(0) };
    match answer(request, FloatAngles.angles(question)).value {
        SensorValue::HeadingCentiDegrees(value) => value,
        _ => unreachable!(),
    }
}

// ---- sources ---------------------------------------------------------------

struct SequenceSource {
    samples: Vec<Result<SensorValue, SensorSourceError>>,
    index: usize,
}

impl SequenceSource {
    fn new<const N: usize>(samples: [Result<SensorValue, SensorSourceError>; N]) -> Self {
        Self { samples: samples.to_vec(), index: 0 }
    }
}

impl SensorSource for SequenceSource {
    fn sample(&mut self) -> Result<SensorValue, SensorSourceError> {
        let index = self.index.min(self.samples.len() - 1);
        self.index = self.index.saturating_add(1);
        self.samples[index]
    }
}

type Service<const SOURCES: usize, const SENSORS: usize, const EVENTS: usize> =
    SensorService<SequenceSource, SOURCES, SENSORS, 8, 8, EVENTS>;

fn descriptor(id: u16, kind: SensorKind) -> SensorDescriptor {
    SensorDescriptor { id: SensorId(id), kind, origin: SensorOrigin::Other(id) }
}

fn after(start: Instant, seconds: u64) -> Instant {
    start.checked_add(Duration::from_secs(seconds)).unwrap()
}

// ---- the service -----------------------------------------------------------

#[test]
fn sources_keep_independent_schedules_and_publish_generations() {
    let first = SequenceSource::new([Ok(SensorValue::TemperatureMilliCelsius(20_000))]);
    let second = SequenceSource::new([Ok(SensorValue::TemperatureMilliCelsius(21_000))]);
    let mut service: Service<8, 4, 2> = SensorService::new();
    service
        .register_source(SensorRegistration::new(
            descriptor(1, SensorKind::Temperature),
            first,
        ))
        .unwrap();
    service
        .register_source(
            SensorRegistration::new(descriptor(2, SensorKind::Temperature), second)
                .with_interval(Duration::from_secs(20)),
        )
        .unwrap();

    let start = Instant::from_ticks(1);
    assert!(service.poll_one_due(&FloatAngles, start, 0).is_some());
    assert!(service.poll_one_due(&FloatAngles, start, 0).is_some());
    assert!(service.poll_one_due(&FloatAngles, after(start, 9), 0).is_none());
    assert!(service.poll_one_due(&FloatAngles, after(start, 10), 0).is_some());
    assert_eq!(service.state().generation, 3);
    assert_eq!(service.state().stats.polls_succeeded, 3);
}

#[test]
fn multiple_temperature_sources_are_retained_by_id() {
    let first = SequenceSource::new([Ok(SensorValue::TemperatureMilliCelsius(10_000))]);
    let second = SequenceSource::new([Ok(SensorValue::TemperatureMilliCelsius(20_000))]);
    let mut service: Service<8, 3, 1> = SensorService::new();
    service
        .register_source(SensorRegistration::new(
            descriptor(10, SensorKind::Temperature),
            first,
        ))
        .unwrap();
    service
        .register_source(SensorRegistration::new(
            descriptor(11, SensorKind::Temperature),
            second,
        ))
        .unwrap();
    let now = Instant::from_ticks(1);
    service.poll_one_due(&FloatAngles, now, 0);
    service.poll_one_due(&FloatAngles, now, 0);

    assert_eq!(service.state().readings_of_kind(SensorKind::Temperature).len(), 2);
    assert_eq!(
        service.state().reading(SensorId(10)).unwrap().value,
        Some(SensorValue::TemperatureMilliCelsius(10_000))
    );
    assert_eq!(
        service.state().reading(SensorId(11)).unwrap().value,
        Some(SensorValue::TemperatureMilliCelsius(20_000))
    );
}

#[test]
fn duplicate_and_capacity_errors_are_explicit() {
    let first = SequenceSource::new([Ok(SensorValue::TemperatureMilliCelsius(1))]);
    let duplicate = SequenceSource::new([Ok(SensorValue::TemperatureMilliCelsius(2))]);
    let excess = SequenceSource::new([Ok(SensorValue::TemperatureMilliCelsius(3))]);
    let mut service: SensorService<SequenceSource, 1, 2, 1, 1, 1> = SensorService::new();
    service
        .register_source(SensorRegistration::new(
            descriptor(1, SensorKind::Temperature),
            first,
        ))
        .unwrap();
    assert_eq!(
        service.register_source(SensorRegistration::new(
            descriptor(1, SensorKind::Temperature),
            duplicate,
        )),
        Err(RegistrationError::DuplicateId(SensorId(1)))
    );
    assert_eq!(
        service.register_source(SensorRegistration::new(
            descriptor(2, SensorKind::Temperature),
            excess,
        )),
        Err(RegistrationError::SourceCapacity)
    );
}

#[test]
fn failures_keep_last_good_value_and_progress_to_fault() {
    let error = Err(SensorSourceError::new(7));
    let source = SequenceSource::new([
        Ok(SensorValue::TemperatureMilliCelsius(25_000)),
        error,
        error,
    ]);
    let mut service: Service<8, 1, 1> = SensorService::new();
    service.set_failures_before_fault(2);
    service
        .register_source(
            SensorRegistration::new(descriptor(1, SensorKind::Temperature), source)
                .with_interval(Duration::from_secs(1)),
        )
        .unwrap();
    let start = Instant::from_ticks(1);
    service.poll_one_due(&FloatAngles, start, 0);
    service.poll_one_due(&FloatAngles, after(start, 1), 0);
    assert_eq!(service.state().reading(SensorId(1)).unwrap().status, ReadingStatus::Stale);
    service.poll_one_due(&FloatAngles, after(start, 2), 0);
    let reading = service.state().reading(SensorId(1)).unwrap();
    assert_eq!(reading.status, ReadingStatus::Fault);
    assert_eq!(reading.total_errors, 2);
    assert_eq!(reading.last_error, Some(ReadingError::Source(7)));
    assert_eq!(reading.value, Some(SensorValue::TemperatureMilliCelsius(25_000)));
}

#[test]
fn raw_update_and_tilt_are_published_together() {
    let source = SequenceSource::new([Ok(SensorValue::AccelerationMg { x: 0, y: 0, z: 1_000 })]);
    let mut service: Service<8, 2, 1> = SensorService::new();
    service
        .register_source(SensorRegistration::new(
            descriptor(1, SensorKind::Acceleration),
            source,
        ))
        .unwrap();
    service
        .register_composite(
            TiltSensor::new(TiltConfig::new(SensorId(2), SensorId(1))).into(),
        )
        .unwrap();
    service.poll_one_due(&FloatAngles, Instant::from_ticks(1), 0);

    let snapshot = service.state();
    assert_eq!(snapshot.generation, 1);
    assert_eq!(
        snapshot.reading(SensorId(2)).unwrap().value,
        Some(SensorValue::TiltCentiDegrees { roll: 0, pitch: 0 })
    );
}

#[test]
fn dynamic_acceleration_rejects_a_slow_source() {
    let source = SequenceSource::new([Ok(SensorValue::AccelerationMg { x: 0, y: 0, z: 1_000 })]);
    let mut service: Service<8, 2, 1> = SensorService::new();
    service
        .register_source(SensorRegistration::new(
            descriptor(1, SensorKind::Acceleration),
            source,
        ))
        .unwrap();
    assert_eq!(
        service.register_composite(
            VedbaSensor::new(VedbaConfig::new(SensorId(2), SensorId(1))).into()
        ),
        Err(RegistrationError::Composite(CompositeValidationError::InputRateTooLow {
            id: SensorId(1),
            maximum_interval: Duration::from_millis(100),
        }))
    );
}

#[test]
fn threshold_events_are_returned_for_ordered_delivery() {
    let source = SequenceSource::new([Ok(SensorValue::TemperatureMilliCelsius(41_000))]);
    let mut service: Service<8, 1, 2> = SensorService::new();
    service
        .register_source(SensorRegistration::new(
            descriptor(1, SensorKind::Temperature),
            source,
        ))
        .unwrap();
    service
        .set_threshold(ThresholdRule::Absolute {
            id: ThresholdId(1),
            sensor: SensorId(1),
            selector: ValueSelector::Scalar,
            comparison: AbsoluteComparison::Above,
            threshold: 40_000,
            hysteresis: 1_000,
            trigger_on_initial: true,
        })
        .unwrap();
    service
        .set_threshold(ThresholdRule::Absolute {
            id: ThresholdId(2),
            sensor: SensorId(1),
            selector: ValueSelector::Scalar,
            comparison: AbsoluteComparison::Above,
            threshold: 30_000,
            hysteresis: 1_000,
            trigger_on_initial: true,
        })
        .unwrap();

    let events = service.poll_one_due(&FloatAngles, Instant::from_ticks(1), 0).unwrap();
    assert_eq!(events.len(), 2);
    assert_eq!(events[0].kind, SensorEventKind::AbsoluteEntered);
    assert_eq!(events[0].threshold_id, ThresholdId(1));
    assert_eq!(events[0].sequence, 0);
    assert_eq!(events[1].threshold_id, ThresholdId(2));
    assert_eq!(events[1].sequence, 1);
    assert_eq!(service.state().stats.threshold_events_emitted, 2);
}

#[test]
fn registrations_that_cannot_work_are_refused() {
    let source = || SequenceSource::new([Ok(SensorValue::TemperatureMilliCelsius(1))]);
    let mut service: SensorService<SequenceSource, 4, 1, 1, 1, 1> = SensorService::new();
    assert_eq!(
        service.register_source(
            SensorRegistration::new(descriptor(1, SensorKind::Temperature), source())
                .with_interval(Duration::from_ticks(0))
        ),
        Err(RegistrationError::ZeroPollInterval)
    );
    service
        .register_source(SensorRegistration::new(
            descriptor(1, SensorKind::Temperature),
            source(),
        ))
        .unwrap();
    assert_eq!(
        service.register_source(SensorRegistration::new(
            descriptor(2, SensorKind::Temperature),
            source(),
        )),
        Err(RegistrationError::SensorCapacity)
    );
    assert_eq!(
        service.set_threshold(ThresholdRule::Delta {
            id: ThresholdId(1),
            sensor: SensorId(7),
            selector: ValueSelector::Scalar,
            minimum_absolute_change: 1,
            maximum_interval: None,
        }),
        Err(ThresholdError::UnknownSensor(SensorId(7)))
    );
}

#[test]
fn derived_sensors_need_inputs_of_their_kind() {
    let source = SequenceSource::new([Ok(SensorValue::TemperatureMilliCelsius(1))]);
    let mut service: Service<8, 4, 1> = SensorService::new();
    service
        .register_source(SensorRegistration::new(
            descriptor(1, SensorKind::Temperature),
            source,
        ))
        .unwrap();
    assert_eq!(
        service.register_composite(
            HeadingSensor::new(HeadingConfig::new(SensorId(3), SensorId(9))).into()
        ),
        Err(RegistrationError::Composite(CompositeValidationError::MissingDependency(
            SensorId(9)
        )))
    );
    assert_eq!(
        service.register_composite(
            TiltSensor::new(TiltConfig::new(SensorId(3), SensorId(1))).into()
        ),
        Err(RegistrationError::Composite(CompositeValidationError::WrongDependencyKind {
            id: SensorId(1),
            expected: SensorKind::Acceleration,
            observed: SensorKind::Temperature,
        }))
    );
    assert_eq!(service.composite_count(), 0);
}

#[test]
fn a_value_of_another_kind_is_an_error() {
    let source = SequenceSource::new([Ok(SensorValue::HeadingCentiDegrees(5))]);
    let mut service: Service<8, 1, 1> = SensorService::new();
    service
        .register_source(SensorRegistration::new(
            descriptor(1, SensorKind::Temperature),
            source,
        ))
        .unwrap();
    assert_eq!(service.next_deadline(), Some(Instant::from_ticks(0)));
    service.poll_one_due(&FloatAngles, Instant::from_ticks(1), 0);
    let reading = service.state().reading(SensorId(1)).unwrap();
    assert_eq!(reading.status, ReadingStatus::Unavailable);
    assert_eq!(reading.last_error, Some(ReadingError::IncompatibleValue));
    assert_eq!(service.state().stats.polls_failed, 1);
    assert_eq!(service.next_deadline(), Some(Instant::from_ticks(10_000_001)));
}

#[test]
fn compass_follows_the_field_of_a_tilted_board() {
    let gravity =
        SequenceSource::new([Ok(SensorValue::AccelerationMg { x: 0, y: 0, z: 1_000 })]);
    let field = SequenceSource::new([Ok(SensorValue::MagneticFieldNt {
        x: 0,
        y: 30_000,
        z: 20_000,
    })]);
    let mut service: Service<8, 4, 1> = SensorService::new();
    service
        .register_source(SensorRegistration::new(
            descriptor(1, SensorKind::Acceleration),
            gravity,
        ))
        .unwrap();
    service
        .register_source(SensorRegistration::new(
            descriptor(2, SensorKind::MagneticField),
            field,
        ))
        .unwrap();
    service
        .register_composite(
            ECompassSensor::new(ECompassConfig::new(SensorId(3), SensorId(1), SensorId(2)))
                .into(),
        )
        .unwrap();
    let now = Instant::from_ticks(1);
    service.poll_one_due(&FloatAngles, now, 0);
    assert_eq!(
        service.state().reading(SensorId(3)).unwrap().last_error,
        Some(ReadingError::CompositeInputUnavailable)
    );
    service.poll_one_due(&FloatAngles, now, 0);
    assert_eq!(
        service.state().reading(SensorId(3)).unwrap().value,
        Some(SensorValue::HeadingCentiDegrees(9_000))
    );
}

// ---- directions and vectors ------------------------------------------------

#[test]
fn level_compass_preserves_cardinal_heading() {
    let gravity = Vector3 { x: 0, y: 0, z: 1_000 };
    assert_eq!(compensated_heading(gravity, Vector3 { x: 1_000, y: 0, z: 0 }, 0), 0);
    assert_eq!(compensated_heading(gravity, Vector3 { x: 0, y: 1_000, z: 0 }, 0), 9_000);
}

#[test]
fn roll_is_removed_from_magnetic_vector() {
    let gravity = Vector3 { x: 0, y: 707, z: 707 };
    let rotated_north = Vector3 { x: 1_000, y: 0, z: 0 };
    assert_eq!(compensated_heading(gravity, rotated_north, 0), 0);
}

#[test]
fn cardinal_headings_and_declination_wrap() {
    assert_eq!(heading_cdeg(0.0, 1.0, 0), 0);
    assert_eq!(heading_cdeg(1.0, 0.0, 0), 9_000);
    assert_eq!(heading_cdeg(0.0, -1.0, 0), 18_000);
    assert_eq!(heading_cdeg(-1.0, 0.0, 0), 27_000);
    assert_eq!(heading_cdeg(-1.0, 100.0, 200), 143);
}

#[test]
fn odba_sums_absolute_dynamic_axes() {
    let mut sensor = OdbaSensor::new(OdbaConfig {
        static_filter_alpha_permille: 100,
        ..OdbaConfig::new(SensorId(2), SensorId(1))
    });
    assert_eq!(
        sensor.dynamic_components(Vector3 { x: 0, y: 0, z: 1_000 }),
        DynamicVector { x: 0, y: 0, z: 0 }
    );
    let dynamic = sensor.dynamic_components(Vector3 { x: 300, y: -400, z: 1_100 });
    assert_eq!(dynamic, DynamicVector { x: 270, y: -360, z: 90 });
    assert_eq!(
        [dynamic.x, dynamic.y, dynamic.z]
            .iter()
            .map(|value| abs_i32(*value as i32))
            .sum::<u32>(),
        720
    );
}

#[test]
fn known_gravity_vectors_produce_expected_tilt() {
    assert_eq!(calculate_tilt(0, 0, 1_000), (0, 0));
    assert_eq!(calculate_tilt(0, 1_000, 0), (9_000, 0));
    assert_eq!(calculate_tilt(-1_000, 0, 0), (0, 9_000));
}

#[test]
fn integer_square_root_and_heading_are_stable() {
    assert_eq!(isqrt(0), 0);
    assert_eq!(isqrt(24), 4);
    assert_eq!(isqrt(25), 5);
    assert_eq!(vector_magnitude(300, 400, 0), 500);
    assert_eq!(heading_cdeg(0.0, 1.0, 0), 0);
    assert_eq!(heading_cdeg(1.0, 0.0, 0), 9_000);
    assert_eq!(heading_cdeg(-1.0, 0.0, 0), 27_000);
}

#[test]
fn roots_are_exact_over_their_range() {
    assert_eq!(isqrt(u64::MAX), u32::MAX);
    assert_eq!(isqrt(u32::MAX as u64 * u32::MAX as u64), u32::MAX);
    assert_eq!(isqrt(u32::MAX as u64 * u32::MAX as u64 - 1), u32::MAX - 1);
    assert_eq!(vector_magnitude(i32::MIN, i32::MIN, i32::MIN), 3_719_550_786);
    assert_eq!(abs_i32(i32::MIN), 2_147_483_648);
    assert_eq!(wrap_heading(-1, 0), 35_999);
    assert_eq!(wrap_heading(i32::MAX, i32::MAX), 23_294);
}

#[test]
fn mountings_and_calibrations_turn_vectors() {
    let map = AxisMap { x: SignedAxis::NegY, y: SignedAxis::X, z: SignedAxis::Z };
    let turned = map.apply(Vector3 { x: 1, y: 2, z: 3 });
    assert_eq!(turned, Vector3 { x: -2, y: 1, z: 3 });
    let neutral = MagneticCalibration::identity();
    let field = Vector3 { x: -7, y: 0, z: i32::MAX };
    assert_eq!(neutral.apply(field), field);
}

#[test]
fn polls_hand_out_the_events_of_all_rules() {
    let source =
        SequenceSource::new([Ok(SensorValue::AccelerationMg { x: 0, y: 1_000, z: 0 })]);
    let mut service: SensorService<SequenceSource, 1, 2, 1, 2, 1> = SensorService::new();
    service
        .register_source(SensorRegistration::new(
            descriptor(1, SensorKind::Acceleration),
            source,
        ))
        .unwrap();
    service
        .register_composite(TiltSensor::new(TiltConfig::new(SensorId(2), SensorId(1))).into())
        .unwrap();
    let above = |id: u16, sensor: u16, selector: ValueSelector| ThresholdRule::Absolute {
        id: ThresholdId(id),
        sensor: SensorId(sensor),
        selector,
        comparison: AbsoluteComparison::Above,
        threshold: 500,
        hysteresis: 0,
        trigger_on_initial: true,
    };
    service.set_threshold(above(1, 2, ValueSelector::Roll)).unwrap();
    service.set_threshold(above(2, 1, ValueSelector::Y)).unwrap();
    let events = service.poll_one_due(&FloatAngles, Instant::from_ticks(1), 3).unwrap();
    let raised: Vec<(u64, u16)> =
        events.iter().map(|event| (event.sequence, event.threshold_id.0)).collect();
    assert_eq!(raised, [(0, 2), (1, 1)]);
    assert_eq!(service.state().stats.event_queue_high_water, 1);
}
