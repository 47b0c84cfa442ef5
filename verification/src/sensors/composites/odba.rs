//! Overall dynamic body acceleration: the sum of the moving parts of the axes.
use crate::arith;
use crate::clock::{Duration, Instant};
use crate::sensors::axis;
use crate::sensors::axis::{AxisMap, Vector3};
use crate::sensors::composites::inputs;
use crate::sensors::composites::inputs::{
    acceleration, dependency, validate_dependency, CompositeSample, CompositeStep,
    CompositeValidationError, SensorEntry,
};
use crate::sensors::composites::tilt::seen;
use crate::sensors::types::{
    SensorDescriptor, SensorId, SensorKind, SensorOrigin, SensorReading, SensorSnapshot,
    SensorValue,
};
use vstd::prelude::*;

verus! {

/// Parameters of an overall-acceleration sensor.
#[derive(Clone, Copy, Debug, PartialEq, Eq, Structural)]
pub struct OdbaConfig {
    pub output_id: SensorId,
    pub acceleration_id: SensorId,
    pub axis_map: AxisMap,
    /// Share of a new acceleration that the estimate of gravity takes over.
    pub static_filter_alpha_permille: u16,
    pub maximum_input_interval: Duration,
    pub maximum_age: Duration,
}

impl OdbaConfig {
    /// A straight mounting and a filter for ten readings a second.
    pub fn new(output_id: SensorId, acceleration_id: SensorId) -> (config: Self)
        ensures
            config == (OdbaConfig {
                output_id,
                acceleration_id,
                axis_map: axis::straight(),
                static_filter_alpha_permille: 50,
                maximum_input_interval: Duration { ticks: 100_000 },
                maximum_age: Duration { ticks: 1_000_000 },
            }),
    {
        OdbaConfig {
            output_id,
            acceleration_id,
            axis_map: AxisMap::identity(),
            static_filter_alpha_permille: 50,
            maximum_input_interval: Duration::from_millis(100),
            maximum_age: Duration::from_secs(1),
        }
    }
}

/// The moving part of an acceleration.
#[derive(Clone, Copy, Debug, PartialEq, Eq, Structural)]
pub struct DynamicVector {
    pub x: i64,
    pub y: i64,
    pub z: i64,
}

/// The estimate of gravity along one axis after a new acceleration.
pub open spec fn filtered(gravity: int, measured: int, alpha_permille: int) -> int {
    gravity + arith::trunc_div((measured - gravity) * alpha_permille, 1_000)
}

/// The estimate of gravity after a new acceleration; the first one is taken
/// whole.
pub open spec fn gravity_after(gravity: Option<Vector3>, measured: Vector3, alpha: int) -> Vector3 {
    match gravity {
        None => measured,
        Some(before) => Vector3 {
            x: filtered(before.x as int, measured.x as int, alpha) as i32,
            y: filtered(before.y as int, measured.y as int, alpha) as i32,
            z: filtered(before.z as int, measured.z as int, alpha) as i32,
        },
    }
}

/// The moving part of a new acceleration: what the new estimate of gravity
/// does not explain.
pub open spec fn dynamic_part(gravity: Option<Vector3>, measured: Vector3, alpha: int) -> DynamicVector {
    let after = gravity_after(gravity, measured, alpha);
    DynamicVector {
        x: (measured.x - after.x) as i64,
        y: (measured.y - after.y) as i64,
        z: (measured.z - after.z) as i64,
    }
}

/// The estimate of gravity lies between the one before and the acceleration.
pub proof fn law_gravity_lies_between(gravity: int, measured: int, alpha_permille: int)
    requires
        0 <= alpha_permille <= 1_000,
    ensures
        arith::min(gravity, measured) <= filtered(gravity, measured, alpha_permille)
            <= arith::max(gravity, measured),
{
    let distance = measured - gravity;
    let product = distance * alpha_permille;
    assert(distance >= 0 ==> 0 <= product <= distance * 1_000) by (nonlinear_arith)
        requires
            product == distance * alpha_permille,
            0 <= alpha_permille <= 1_000,
    ;
    assert(distance <= 0 ==> distance * 1_000 <= product <= 0) by (nonlinear_arith)
        requires
            product == distance * alpha_permille,
            0 <= alpha_permille <= 1_000,
    ;
}

/// The estimate of gravity along one axis after a new acceleration.
fn filter_axis(gravity: i32, measured: i32, alpha_permille: u16) -> (after: i32)
    requires
        alpha_permille <= 1_000,
    ensures
        after == filtered(gravity as int, measured as int, alpha_permille as int),
{
    let distance: i64 = measured as i64 - gravity as i64;
    proof {
        law_gravity_lies_between(gravity as int, measured as int, alpha_permille as int);
        assert(-0xffff_ffff * 1_000 <= distance * alpha_permille <= 0xffff_ffff * 1_000)
            by (nonlinear_arith)
            requires
                -0xffff_ffff <= distance <= 0xffff_ffff,
                0 <= alpha_permille <= 1_000,
        ;
    }
    (gravity as i64 + distance * alpha_permille as i64 / 1_000) as i32
}

/// The estimate of gravity after a new acceleration, and what it does not
/// explain.
pub(crate) fn separate(gravity: Option<Vector3>, measured: Vector3, alpha_permille: u16) -> (result: (
    Vector3,
    DynamicVector,
))
    requires
        alpha_permille <= 1_000,
    ensures
        result.0 == gravity_after(gravity, measured, alpha_permille as int),
        result.1 == dynamic_part(gravity, measured, alpha_permille as int),
{
    let after: Vector3 = match gravity {
        None => measured,
        Some(before) => Vector3 {
            x: filter_axis(before.x, measured.x, alpha_permille),
            y: filter_axis(before.y, measured.y, alpha_permille),
            z: filter_axis(before.z, measured.z, alpha_permille),
        },
    };
    let dynamic: DynamicVector = DynamicVector {
        x: measured.x as i64 - after.x as i64,
        y: measured.y as i64 - after.y as i64,
        z: measured.z as i64 - after.z as i64,
    };
    (after, dynamic)
}

/// Derives the overall dynamic body acceleration.
#[derive(Clone, Copy, Debug, PartialEq, Eq, Structural)]
pub struct OdbaSensor {
    pub config: OdbaConfig,
    pub gravity: Option<Vector3>,
    /// Running number of the input that was used last.
    pub last_sequence: Option<u64>,
}

/// What the sensor is.
pub open spec fn odba_descriptor(sensor: OdbaSensor) -> SensorDescriptor {
    SensorDescriptor {
        id: sensor.config.output_id,
        kind: SensorKind::Odba,
        origin: SensorOrigin::Composite,
    }
}

/// Why a sensor of dynamic acceleration cannot be set up, where it cannot: its
/// input must be a physical acceleration that is read often enough.
pub open spec fn dynamic_error(
    entries: Seq<SensorEntry>,
    id: SensorId,
    alpha_permille: u16,
    maximum_interval: Duration,
) -> Option<CompositeValidationError> {
    match inputs::input_error(entries, id, SensorKind::Acceleration) {
        Some(error) => Some(error),
        None => if alpha_permille == 0 || alpha_permille > 1_000 || maximum_interval@ == 0 {
            Some(CompositeValidationError::InvalidConfiguration)
        } else {
            match inputs::entry(entries, id).interval {
                Some(interval) if interval@ <= maximum_interval@ => None,
                _ => Some(CompositeValidationError::InputRateTooLow { id, maximum_interval }),
            }
        },
    }
}

/// Whether a sensor of dynamic acceleration can be set up.
pub(crate) fn validate_dynamic(
    entries: &Vec<SensorEntry>,
    id: SensorId,
    alpha_permille: u16,
    maximum_interval: Duration,
) -> (result: Result<(), CompositeValidationError>)
    ensures
        match dynamic_error(entries@, id, alpha_permille, maximum_interval) {
            Some(error) => result == Err::<(), CompositeValidationError>(error),
            None => result == Ok::<(), CompositeValidationError>(()),
        },
{
    match validate_dependency(entries, id, SensorKind::Acceleration) {
        Err(error) => Err(error),
        Ok(interval) => {
            if alpha_permille == 0 || alpha_permille > 1_000 || maximum_interval.as_ticks() == 0 {
                return Err(CompositeValidationError::InvalidConfiguration);
            }
            match interval {
                Some(interval) => if interval.as_ticks() <= maximum_interval.as_ticks() {
                    Ok(())
                } else {
                    Err(CompositeValidationError::InputRateTooLow { id, maximum_interval })
                },
                None => Err(CompositeValidationError::InputRateTooLow { id, maximum_interval }),
            }
        },
    }
}

/// The sum of the moving parts, held inside its range.
pub open spec fn overall(dynamic: DynamicVector) -> u32 {
    arith::min(
        arith::abs(dynamic.x as int) + arith::abs(dynamic.y as int) + arith::abs(dynamic.z as int),
        u32::MAX as int,
    ) as u32
}

/// The sum of the moving parts.
fn overall_of(dynamic: DynamicVector) -> (value: u32)
    requires
        -0xffff_ffff <= dynamic.x <= 0xffff_ffff,
        -0xffff_ffff <= dynamic.y <= 0xffff_ffff,
        -0xffff_ffff <= dynamic.z <= 0xffff_ffff,
    ensures
        value == overall(dynamic),
{
    let sum: i64 = magnitude(dynamic.x) + magnitude(dynamic.y) + magnitude(dynamic.z);
    if sum > 0xffff_ffff {
        u32::MAX
    } else {
        sum as u32
    }
}

/// Magnitude of a number.
fn magnitude(value: i64) -> (result: i64)
    requires
        value > i64::MIN,
    ensures
        result == arith::abs(value as int),
{
    if value < 0 {
        -value
    } else {
        value
    }
}

/// What the sensor makes of the present readings.
pub open spec fn odba_step(sensor: OdbaSensor, readings: Seq<SensorReading>, now: Instant) -> (
    OdbaSensor,
    CompositeStep,
) {
    match inputs::input(
        readings,
        sensor.config.acceleration_id,
        now,
        sensor.config.maximum_age,
    ) {
        None => (sensor, CompositeStep::Unavailable),
        Some((value, observed_at, sequence)) => if sensor.last_sequence == Some(sequence) {
            (sensor, CompositeStep::NoChange)
        } else {
            let used = OdbaSensor { last_sequence: Some(sequence), ..sensor };
            match inputs::as_acceleration(value) {
                None => (used, CompositeStep::Unavailable),
                Some(vector) => {
                    let board = sensor.config.axis_map.mapped(vector);
                    let alpha = sensor.config.static_filter_alpha_permille as int;
                    (
                        OdbaSensor {
                            gravity: Some(gravity_after(sensor.gravity, board, alpha)),
                            ..used
                        },
                        CompositeStep::Updated(
                            CompositeSample {
                                value: SensorValue::DynamicAccelerationMg(
                                    overall(dynamic_part(sensor.gravity, board, alpha)),
                                ),
                                observed_at,
                            },
                        ),
                    )
                },
            }
        },
    }
}

impl OdbaSensor {
    /// A sensor that has used no input yet.
    pub fn new(config: OdbaConfig) -> (sensor: Self)
        ensures
            sensor == (OdbaSensor { config, gravity: None, last_sequence: None }),
    {
        OdbaSensor { config, gravity: None, last_sequence: None }
    }

    /// What the sensor is.
    pub fn descriptor(&self) -> (descriptor: SensorDescriptor)
        ensures
            descriptor == odba_descriptor(*self),
    {
        SensorDescriptor {
            id: self.config.output_id,
            kind: SensorKind::Odba,
            origin: SensorOrigin::Composite,
        }
    }

    /// Whether the sensor can be set up.
    pub fn validate(&self, entries: &Vec<SensorEntry>) -> (result: Result<
        (),
        CompositeValidationError,
    >)
        ensures
            match dynamic_error(
                entries@,
                self.config.acceleration_id,
                self.config.static_filter_alpha_permille,
                self.config.maximum_input_interval,
            ) {
                Some(error) => result == Err::<(), CompositeValidationError>(error),
                None => result == Ok::<(), CompositeValidationError>(()),
            },
    {
        validate_dynamic(
            entries,
            self.config.acceleration_id,
            self.config.static_filter_alpha_permille,
            self.config.maximum_input_interval,
        )
    }

    /// Looks at the present readings.
    pub fn evaluate<const SENSORS: usize>(
        &mut self,
        snapshot: &SensorSnapshot<SENSORS>,
        now: Instant,
    ) -> (step: CompositeStep)
        requires
            old(self).config.static_filter_alpha_permille <= 1_000,
        ensures
            (*final(self), step) == odba_step(*old(self), snapshot@.readings, now),
    {
        match dependency(snapshot, self.config.acceleration_id, now, self.config.maximum_age) {
            None => CompositeStep::Unavailable,
            Some((value, observed_at, sequence)) => {
                if seen(self.last_sequence, sequence) {
                    return CompositeStep::NoChange;
                }
                self.last_sequence = Some(sequence);
                match acceleration(value) {
                    None => CompositeStep::Unavailable,
                    Some(vector) => {
                        let board: Vector3 = self.config.axis_map.apply(vector);
                        let dynamic: DynamicVector = self.dynamic_components(board);
                        CompositeStep::Updated(
                            CompositeSample {
                                value: SensorValue::DynamicAccelerationMg(overall_of(dynamic)),
                                observed_at,
                            },
                        )
                    },
                }
            },
        }
    }

    /// Takes a new acceleration into the estimate of gravity; gives what it
    /// does not explain.
    pub fn dynamic_components(&mut self, measured: Vector3) -> (dynamic: DynamicVector)
        requires
            old(self).config.static_filter_alpha_permille <= 1_000,
        ensures
            *final(self) == (OdbaSensor {
                gravity: Some(
                    gravity_after(
                        old(self).gravity,
                        measured,
                        old(self).config.static_filter_alpha_permille as int,
                    ),
                ),
                ..*old(self)
            }),
            dynamic == dynamic_part(
                old(self).gravity,
                measured,
                old(self).config.static_filter_alpha_permille as int,
            ),
            -0xffff_ffff <= dynamic.x <= 0xffff_ffff,
            -0xffff_ffff <= dynamic.y <= 0xffff_ffff,
            -0xffff_ffff <= dynamic.z <= 0xffff_ffff,
    {
        let (gravity, dynamic) = separate(
            self.gravity,
            measured,
            self.config.static_filter_alpha_permille,
        );
        self.gravity = Some(gravity);
        dynamic
    }
}

} // verus!
