//! Heading of a tilted board from its acceleration and the magnetic field.
use crate::clock::{Duration, Instant};
use crate::sensors::axis;
use crate::sensors::axis::{AxisMap, MagneticCalibration, Vector3};
use crate::sensors::composites::inputs;
use crate::sensors::composites::inputs::{
    acceleration, dependency, instant_skew, magnetic_field, validate_dependency, AngleQuestion,
    AngleRequest, CompositeStep, CompositeValidationError, SensorEntry,
};
use crate::sensors::composites::tilt;
use crate::sensors::composites::tilt::within_gravity;
use crate::sensors::types::{
    SensorDescriptor, SensorId, SensorKind, SensorOrigin, SensorReading, SensorSnapshot,
};
use vstd::prelude::*;

verus! {

/// Parameters of a tilt-compensated compass.
#[derive(Clone, Copy, Debug, PartialEq, Eq)]
pub struct ECompassConfig {
    pub output_id: SensorId,
    pub acceleration_id: SensorId,
    pub magnetic_field_id: SensorId,
    pub acceleration_axis_map: AxisMap,
    pub magnetic_axis_map: AxisMap,
    pub magnetic_calibration: MagneticCalibration,
    pub declination_cdeg: i32,
    pub minimum_gravity_mg: u32,
    pub maximum_gravity_mg: u32,
    pub maximum_age: Duration,
    pub maximum_skew: Duration,
}

impl ECompassConfig {
    /// Straight mountings, a neutral calibration and no declination.
    pub fn new(
        output_id: SensorId,
        acceleration_id: SensorId,
        magnetic_field_id: SensorId,
    ) -> (config: Self)
        ensures
            config.output_id == output_id,
            config.acceleration_id == acceleration_id,
            config.magnetic_field_id == magnetic_field_id,
            config.acceleration_axis_map == axis::straight(),
            config.magnetic_axis_map == axis::straight(),
            config.magnetic_calibration.is_neutral(),
            config.declination_cdeg == 0,
            config.minimum_gravity_mg == 700,
            config.maximum_gravity_mg == 1_300,
            config.maximum_age == (Duration { ticks: 30_000_000 }),
            config.maximum_skew == (Duration { ticks: 2_000_000 }),
    {
        ECompassConfig {
            output_id,
            acceleration_id,
            magnetic_field_id,
            acceleration_axis_map: AxisMap::identity(),
            magnetic_axis_map: AxisMap::identity(),
            magnetic_calibration: MagneticCalibration::identity(),
            declination_cdeg: 0,
            minimum_gravity_mg: 700,
            maximum_gravity_mg: 1_300,
            maximum_age: Duration::from_secs(30),
            maximum_skew: Duration::from_secs(2),
        }
    }
}

/// Derives the heading of a tilted board: +X is north, +Y is east, +Z is up,
/// and the heading grows clockwise seen from above.
#[derive(Clone, Copy, Debug, PartialEq, Eq)]
pub struct ECompassSensor {
    pub config: ECompassConfig,
    /// Running numbers of the inputs that were used last.
    pub last_sequences: Option<(u64, u64)>,
}

/// What the sensor is.
pub open spec fn ecompass_descriptor(sensor: ECompassSensor) -> SensorDescriptor {
    SensorDescriptor {
        id: sensor.config.output_id,
        kind: SensorKind::TiltCompensatedHeading,
        origin: SensorOrigin::Composite,
    }
}

/// Why the sensor cannot be set up, where it cannot.
pub open spec fn ecompass_error(sensor: ECompassSensor, entries: Seq<SensorEntry>) -> Option<
    CompositeValidationError,
> {
    match inputs::input_error(entries, sensor.config.acceleration_id, SensorKind::Acceleration) {
        Some(error) => Some(error),
        None => match inputs::input_error(
            entries,
            sensor.config.magnetic_field_id,
            SensorKind::MagneticField,
        ) {
            Some(error) => Some(error),
            None => if sensor.config.minimum_gravity_mg >= sensor.config.maximum_gravity_mg {
                Some(CompositeValidationError::InvalidConfiguration)
            } else {
                None
            },
        },
    }
}

/// The question that an acceleration and a field become, where the
/// acceleration is gravity alone.
pub open spec fn ecompass_question(
    config: ECompassConfig,
    felt: Option<Vector3>,
    seen: Option<Vector3>,
) -> Option<AngleQuestion> {
    match (felt, seen) {
        (Some(felt), Some(seen)) => {
            let board = config.acceleration_axis_map.mapped(felt);
            if tilt::is_gravity(board, config.minimum_gravity_mg, config.maximum_gravity_mg) {
                Some(
                    AngleQuestion::CompensatedHeading {
                        acceleration: board,
                        field: config.magnetic_calibration.corrected(
                            config.magnetic_axis_map.mapped(seen),
                        ),
                    },
                )
            } else {
                None
            }
        },
        _ => None,
    }
}

/// What the sensor makes of the present readings: an acceleration and a field
/// of about the same time, one of them new, become a question for their
/// direction, at the later of their times.
pub open spec fn ecompass_step(
    sensor: ECompassSensor,
    readings: Seq<SensorReading>,
    now: Instant,
) -> (ECompassSensor, CompositeStep) {
    let config = sensor.config;
    match (
        inputs::input(readings, config.acceleration_id, now, config.maximum_age),
        inputs::input(readings, config.magnetic_field_id, now, config.maximum_age),
    ) {
        (Some((felt, felt_at, felt_sequence)), Some((seen, seen_at, seen_sequence))) => {
            if inputs::skew(felt_at, seen_at) > config.maximum_skew@ {
                (sensor, CompositeStep::Unavailable)
            } else if sensor.last_sequences == Some((felt_sequence, seen_sequence)) {
                (sensor, CompositeStep::NoChange)
            } else {
                let after = ECompassSensor {
                    last_sequences: Some((felt_sequence, seen_sequence)),
                    ..sensor
                };
                match ecompass_question(
                    config,
                    inputs::as_acceleration(felt),
                    inputs::as_field(seen),
                ) {
                    None => (after, CompositeStep::Unavailable),
                    Some(question) => (
                        after,
                        CompositeStep::NeedsAngles(
                            AngleRequest {
                                question,
                                correction_cdeg: config.declination_cdeg,
                                observed_at: if felt_at@ >= seen_at@ {
                                    felt_at
                                } else {
                                    seen_at
                                },
                            },
                        ),
                    ),
                }
            }
        },
        _ => (sensor, CompositeStep::Unavailable),
    }
}

/// Whether two running numbers are the ones used last.
fn seen_both(last: Option<(u64, u64)>, felt: u64, seen: u64) -> (same: bool)
    ensures
        same == (last == Some((felt, seen))),
{
    match last {
        Some((last_felt, last_seen)) => last_felt == felt && last_seen == seen,
        None => false,
    }
}

impl ECompassSensor {
    /// A sensor that has used no input yet.
    pub fn new(config: ECompassConfig) -> (sensor: Self)
        ensures
            sensor == (ECompassSensor { config, last_sequences: None }),
    {
        ECompassSensor { config, last_sequences: None }
    }

    /// What the sensor is.
    pub fn descriptor(&self) -> (descriptor: SensorDescriptor)
        ensures
            descriptor == ecompass_descriptor(*self),
    {
        SensorDescriptor {
            id: self.config.output_id,
            kind: SensorKind::TiltCompensatedHeading,
            origin: SensorOrigin::Composite,
        }
    }

    /// Whether the sensor can be set up.
    pub fn validate(&self, entries: &Vec<SensorEntry>) -> (result: Result<
        (),
        CompositeValidationError,
    >)
        ensures
            match ecompass_error(*self, entries@) {
                Some(error) => result == Err::<(), CompositeValidationError>(error),
                None => result == Ok::<(), CompositeValidationError>(()),
            },
    {
        if let Err(error) = validate_dependency(
            entries,
            self.config.acceleration_id,
            SensorKind::Acceleration,
        ) {
            return Err(error);
        }
        if let Err(error) = validate_dependency(
            entries,
            self.config.magnetic_field_id,
            SensorKind::MagneticField,
        ) {
            return Err(error);
        }
        if self.config.minimum_gravity_mg >= self.config.maximum_gravity_mg {
            return Err(CompositeValidationError::InvalidConfiguration);
        }
        Ok(())
    }

    /// Looks at the present readings.
    pub fn evaluate<const SENSORS: usize>(
        &mut self,
        snapshot: &SensorSnapshot<SENSORS>,
        now: Instant,
    ) -> (step: CompositeStep)
        ensures
            (*final(self), step) == ecompass_step(*old(self), snapshot@.readings, now),
    {
        let felt = dependency(snapshot, self.config.acceleration_id, now, self.config.maximum_age);
        let (felt_value, felt_at, felt_sequence) = match felt {
            Some(input) => input,
            None => {
                return CompositeStep::Unavailable;
            },
        };
        let seen = dependency(
            snapshot,
            self.config.magnetic_field_id,
            now,
            self.config.maximum_age,
        );
        let (seen_value, seen_at, seen_sequence) = match seen {
            Some(input) => input,
            None => {
                return CompositeStep::Unavailable;
            },
        };
        if instant_skew(felt_at, seen_at).as_ticks() > self.config.maximum_skew.as_ticks() {
            return CompositeStep::Unavailable;
        }
        if seen_both(self.last_sequences, felt_sequence, seen_sequence) {
            return CompositeStep::NoChange;
        }
        self.last_sequences = Some((felt_sequence, seen_sequence));
        let board: Vector3 = match acceleration(felt_value) {
            Some(vector) => self.config.acceleration_axis_map.apply(vector),
            None => {
                return CompositeStep::Unavailable;
            },
        };
        if !within_gravity(
            board,
            self.config.minimum_gravity_mg,
            self.config.maximum_gravity_mg,
        ) {
            return CompositeStep::Unavailable;
        }
        let field: Vector3 = match magnetic_field(seen_value) {
            Some(vector) => self.config.magnetic_calibration.apply(
                self.config.magnetic_axis_map.apply(vector),
            ),
            None => {
                return CompositeStep::Unavailable;
            },
        };
        CompositeStep::NeedsAngles(
            AngleRequest {
                question: AngleQuestion::CompensatedHeading { acceleration: board, field },
                correction_cdeg: self.config.declination_cdeg,
                observed_at: if felt_at.as_ticks() >= seen_at.as_ticks() {
                    felt_at
                } else {
                    seen_at
                },
            },
        )
    }
}

} // verus!
