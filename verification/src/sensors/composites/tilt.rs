//! Roll and pitch from the acceleration of a board at rest.
use crate::clock::{Duration, Instant};
use crate::sensors::axis;
use crate::sensors::axis::{AxisMap, Vector3};
use crate::sensors::composites::inputs;
use crate::sensors::composites::inputs::{
    acceleration, dependency, validate_dependency, AngleQuestion, AngleRequest, CompositeStep,
    CompositeValidationError, SensorEntry,
};
use crate::sensors::math;
use crate::sensors::math::vector_magnitude;
use crate::sensors::types::{
    SensorDescriptor, SensorId, SensorKind, SensorOrigin, SensorReading, SensorSnapshot,
};
use vstd::prelude::*;

verus! {

/// Parameters of a tilt sensor.
#[derive(Clone, Copy, Debug, PartialEq, Eq, Structural)]
pub struct TiltConfig {
    pub output_id: SensorId,
    pub acceleration_id: SensorId,
    pub axis_map: AxisMap,
    pub minimum_gravity_mg: u32,
    pub maximum_gravity_mg: u32,
    pub maximum_age: Duration,
}

impl TiltConfig {
    /// A straight mounting, and gravity within thirty percent.
    pub fn new(output_id: SensorId, acceleration_id: SensorId) -> (config: Self)
        ensures
            config == (TiltConfig {
                output_id,
                acceleration_id,
                axis_map: axis::straight(),
                minimum_gravity_mg: 700,
                maximum_gravity_mg: 1_300,
                maximum_age: Duration { ticks: 30_000_000 },
            }),
    {
        TiltConfig {
            output_id,
            acceleration_id,
            axis_map: AxisMap::identity(),
            minimum_gravity_mg: 700,
            maximum_gravity_mg: 1_300,
            maximum_age: Duration::from_secs(30),
        }
    }
}

/// Derives the tilt of the board.
#[derive(Clone, Copy, Debug, PartialEq, Eq, Structural)]
pub struct TiltSensor {
    pub config: TiltConfig,
    /// Running number of the input that was used last.
    pub last_sequence: Option<u64>,
}

/// Whether an acceleration is gravity alone, as far as its length tells.
pub open spec fn is_gravity(vector: Vector3, minimum_mg: u32, maximum_mg: u32) -> bool {
    minimum_mg <= math::root_of(
        math::squared_length(vector.x as int, vector.y as int, vector.z as int),
    ) <= maximum_mg
}

/// Whether an acceleration is gravity alone, as far as its length tells.
pub(crate) fn within_gravity(vector: Vector3, minimum_mg: u32, maximum_mg: u32) -> (within: bool)
    ensures
        within == is_gravity(vector, minimum_mg, maximum_mg),
{
    let magnitude: u32 = vector_magnitude(vector.x, vector.y, vector.z);
    magnitude >= minimum_mg && magnitude <= maximum_mg
}

/// What the sensor is.
pub open spec fn tilt_descriptor(sensor: TiltSensor) -> SensorDescriptor {
    SensorDescriptor {
        id: sensor.config.output_id,
        kind: SensorKind::Tilt,
        origin: SensorOrigin::Composite,
    }
}

/// Why the sensor cannot be set up, where it cannot.
pub open spec fn tilt_error(sensor: TiltSensor, entries: Seq<SensorEntry>) -> Option<
    CompositeValidationError,
> {
    match inputs::input_error(entries, sensor.config.acceleration_id, SensorKind::Acceleration) {
        Some(error) => Some(error),
        None => if sensor.config.minimum_gravity_mg >= sensor.config.maximum_gravity_mg {
            Some(CompositeValidationError::InvalidConfiguration)
        } else {
            None
        },
    }
}

/// What the sensor makes of the present readings: a new acceleration that is
/// gravity alone becomes a question for its angles.
pub open spec fn tilt_step(sensor: TiltSensor, readings: Seq<SensorReading>, now: Instant) -> (
    TiltSensor,
    CompositeStep,
) {
    match inputs::input(
        readings,
        sensor.config.acceleration_id,
        now,
        sensor.config.maximum_age,
    ) {
        None => (sensor, CompositeStep::Unavailable),
        Some((value, observed_at, sequence)) => if sensor.last_sequence == Some(sequence) {
            (sensor, CompositeStep::NoChange)
        } else {
            let after = TiltSensor { last_sequence: Some(sequence), ..sensor };
            match inputs::as_acceleration(value) {
                None => (after, CompositeStep::Unavailable),
                Some(vector) => {
                    let board = sensor.config.axis_map.mapped(vector);
                    if is_gravity(
                        board,
                        sensor.config.minimum_gravity_mg,
                        sensor.config.maximum_gravity_mg,
                    ) {
                        (
                            after,
                            CompositeStep::NeedsAngles(
                                AngleRequest {
                                    question: AngleQuestion::Tilt(board),
                                    correction_cdeg: 0,
                                    observed_at,
                                },
                            ),
                        )
                    } else {
                        (after, CompositeStep::Unavailable)
                    }
                },
            }
        },
    }
}

/// Whether a running number is the one used last.
pub(crate) fn seen(last: Option<u64>, sequence: u64) -> (same: bool)
    ensures
        same == (last == Some(sequence)),
{
    match last {
        Some(last) => last == sequence,
        None => false,
    }
}

impl TiltSensor {
    /// A sensor that has used no input yet.
    pub fn new(config: TiltConfig) -> (sensor: Self)
        ensures
            sensor == (TiltSensor { config, last_sequence: None }),
    {
        TiltSensor { config, last_sequence: None }
    }

    /// What the sensor is.
    pub fn descriptor(&self) -> (descriptor: SensorDescriptor)
        ensures
            descriptor == tilt_descriptor(*self),
    {
        SensorDescriptor {
            id: self.config.output_id,
            kind: SensorKind::Tilt,
            origin: SensorOrigin::Composite,
        }
    }

    /// Whether the sensor can be set up.
    pub fn validate(&self, entries: &Vec<SensorEntry>) -> (result: Result<
        (),
        CompositeValidationError,
    >)
        ensures
            match tilt_error(*self, entries@) {
                Some(error) => result == Err::<(), CompositeValidationError>(error),
                None => result == Ok::<(), CompositeValidationError>(()),
            },
    {
        match validate_dependency(
            entries,
            self.config.acceleration_id,
            SensorKind::Acceleration,
        ) {
            Err(error) => Err(error),
            Ok(_) => if self.config.minimum_gravity_mg >= self.config.maximum_gravity_mg {
                Err(CompositeValidationError::InvalidConfiguration)
            } else {
                Ok(())
            },
        }
    }

    /// Looks at the present readings.
    pub fn evaluate<const SENSORS: usize>(
        &mut self,
        snapshot: &SensorSnapshot<SENSORS>,
        now: Instant,
    ) -> (step: CompositeStep)
        ensures
            (*final(self), step) == tilt_step(*old(self), snapshot@.readings, now),
    {
        match dependency(snapshot, self.config.acceleration_id, now, self.config.maximum_age) {
            None => CompositeStep::Unavailable,
            Some((value, observed_at, sequence)) => {
                if seen(self.last_sequence, sequence) {
                    return CompositeStep::NoChange;
                }
                self.last_sequence = Some(sequence);
                match acceleration(value) {
                    None => CompositeStep::Unavailable,
                    Some(vector) => {
                        let board: Vector3 = self.config.axis_map.apply(vector);
                        if within_gravity(
                            board,
                            self.config.minimum_gravity_mg,
                            self.config.maximum_gravity_mg,
                        ) {
                            CompositeStep::NeedsAngles(
                                AngleRequest {
                                    question: AngleQuestion::Tilt(board),
                                    correction_cdeg: 0,
                                    observed_at,
                                },
                            )
                        } else {
                            CompositeStep::Unavailable
                        }
                    },
                }
            },
        }
    }
}

} // verus!
