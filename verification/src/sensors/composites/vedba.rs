//! Vectorial dynamic body acceleration: the length of the moving part.
use crate::clock::{Duration, Instant};
use crate::sensors::axis;
use crate::sensors::axis::{AxisMap, Vector3};
use crate::sensors::composites::inputs;
use crate::sensors::composites::inputs::{
    acceleration, dependency, CompositeSample, CompositeStep, CompositeValidationError,
    SensorEntry,
};
use crate::sensors::composites::odba;
use crate::sensors::composites::odba::{separate, validate_dynamic, DynamicVector};
use crate::sensors::composites::tilt::seen;
use crate::sensors::math;
use crate::sensors::math::vector_magnitude;
use crate::sensors::types::{
    SensorDescriptor, SensorId, SensorKind, SensorOrigin, SensorReading, SensorSnapshot,
    SensorValue,
};
use vstd::prelude::*;

verus! {

/// Parameters of a vectorial-acceleration sensor.
#[derive(Clone, Copy, Debug, PartialEq, Eq, Structural)]
pub struct VedbaConfig {
    pub output_id: SensorId,
    pub acceleration_id: SensorId,
    pub axis_map: AxisMap,
    /// Share of a new acceleration that the estimate of gravity takes over.
    pub static_filter_alpha_permille: u16,
    pub maximum_input_interval: Duration,
    pub maximum_age: Duration,
}

impl VedbaConfig {
    /// A straight mounting and a filter for ten readings a second.
    pub fn new(output_id: SensorId, acceleration_id: SensorId) -> (config: Self)
        ensures
            config == (VedbaConfig {
                output_id,
                acceleration_id,
                axis_map: axis::straight(),
                static_filter_alpha_permille: 50,
                maximum_input_interval: Duration { ticks: 100_000 },
                maximum_age: Duration { ticks: 1_000_000 },
            }),
    {
        VedbaConfig {
            output_id,
            acceleration_id,
            axis_map: AxisMap::identity(),
            static_filter_alpha_permille: 50,
            maximum_input_interval: Duration::from_millis(100),
            maximum_age: Duration::from_secs(1),
        }
    }
}

/// Derives the vectorial dynamic body acceleration.
#[derive(Clone, Copy, Debug, PartialEq, Eq, Structural)]
pub struct VedbaSensor {
    pub config: VedbaConfig,
    pub gravity: Option<Vector3>,
    /// Running number of the input that was used last.
    pub last_sequence: Option<u64>,
}

/// What the sensor is.
pub open spec fn vedba_descriptor(sensor: VedbaSensor) -> SensorDescriptor {
    SensorDescriptor {
        id: sensor.config.output_id,
        kind: SensorKind::Vedba,
        origin: SensorOrigin::Composite,
    }
}

/// The length of the moving part, its axes held inside 32 bits.
pub open spec fn length(dynamic: DynamicVector) -> u32 {
    math::root_of(
        math::squared_length(
            axis::clamped_i32(dynamic.x as int) as int,
            axis::clamped_i32(dynamic.y as int) as int,
            axis::clamped_i32(dynamic.z as int) as int,
        ),
    ) as u32
}

/// A number moved into the range of `i32`.
fn clamp_i32(value: i64) -> (result: i32)
    ensures
        result == axis::clamped_i32(value as int),
{
    if value < -0x8000_0000 {
        i32::MIN
    } else if value > 0x7fff_ffff {
        i32::MAX
    } else {
        value as i32
    }
}

/// What the sensor makes of the present readings.
pub open spec fn vedba_step(sensor: VedbaSensor, readings: Seq<SensorReading>, now: Instant) -> (
    VedbaSensor,
    CompositeStep,
) {
    match inputs::input(
        readings,
        sensor.config.acceleration_id,
        now,
        sensor.config.maximum_age,
    ) {
        None => (sensor, CompositeStep::Unavailable),
        Some((value, observed_at, sequence)) => if sensor.last_sequence == Some(sequence) {
            (sensor, CompositeStep::NoChange)
        } else {
            let used = VedbaSensor { last_sequence: Some(sequence), ..sensor };
            match inputs::as_acceleration(value) {
                None => (used, CompositeStep::Unavailable),
                Some(vector) => {
                    let board = sensor.config.axis_map.mapped(vector);
                    let alpha = sensor.config.static_filter_alpha_permille as int;
                    (
                        VedbaSensor {
                            gravity: Some(odba::gravity_after(sensor.gravity, board, alpha)),
                            ..used
                        },
                        CompositeStep::Updated(
                            CompositeSample {
                                value: SensorValue::DynamicAccelerationMg(
                                    length(odba::dynamic_part(sensor.gravity, board, alpha)),
                                ),
                                observed_at,
                            },
                        ),
                    )
                },
            }
        },
    }
}

impl VedbaSensor {
    /// A sensor that has used no input yet.
    pub fn new(config: VedbaConfig) -> (sensor: Self)
        ensures
            sensor == (VedbaSensor { config, gravity: None, last_sequence: None }),
    {
        VedbaSensor { config, gravity: None, last_sequence: None }
    }

    /// What the sensor is.
    pub fn descriptor(&self) -> (descriptor: SensorDescriptor)
        ensures
            descriptor == vedba_descriptor(*self),
    {
        SensorDescriptor {
            id: self.config.output_id,
            kind: SensorKind::Vedba,
            origin: SensorOrigin::Composite,
        }
    }

    /// Whether the sensor can be set up.
    pub fn validate(&self, entries: &Vec<SensorEntry>) -> (result: Result<
        (),
        CompositeValidationError,
    >)
        ensures
            match odba::dynamic_error(
                entries@,
                self.config.acceleration_id,
                self.config.static_filter_alpha_permille,
                self.config.maximum_input_interval,
            ) {
                Some(error) => result == Err::<(), CompositeValidationError>(error),
                None => result == Ok::<(), CompositeValidationError>(()),
            },
    {
        validate_dynamic(
            entries,
            self.config.acceleration_id,
            self.config.static_filter_alpha_permille,
            self.config.maximum_input_interval,
        )
    }

    /// Looks at the present readings.
    pub fn evaluate<const SENSORS: usize>(
        &mut self,
        snapshot: &SensorSnapshot<SENSORS>,
        now: Instant,
    ) -> (step: CompositeStep)
        requires
            old(self).config.static_filter_alpha_permille <= 1_000,
        ensures
            (*final(self), step) == vedba_step(*old(self), snapshot@.readings, now),
    {
        match dependency(snapshot, self.config.acceleration_id, now, self.config.maximum_age) {
            None => CompositeStep::Unavailable,
            Some((value, observed_at, sequence)) => {
                if seen(self.last_sequence, sequence) {
                    return CompositeStep::NoChange;
                }
                self.last_sequence = Some(sequence);
                match acceleration(value) {
                    None => CompositeStep::Unavailable,
                    Some(vector) => {
                        let board: Vector3 = self.config.axis_map.apply(vector);
                        let (gravity, dynamic) = separate(
                            self.gravity,
                            board,
                            self.config.static_filter_alpha_permille,
                        );
                        self.gravity = Some(gravity);
                        let value: u32 = vector_magnitude(
                            clamp_i32(dynamic.x),
                            clamp_i32(dynamic.y),
                            clamp_i32(dynamic.z),
                        );
                        CompositeStep::Updated(
                            CompositeSample {
                                value: SensorValue::DynamicAccelerationMg(value),
                                observed_at,
                            },
                        )
                    },
                }
            },
        }
    }
}

} // verus!
