//! Heading of a level board from the magnetic field.
use crate::clock::{Duration, Instant};
use crate::sensors::axis;
use crate::sensors::axis::{AxisMap, MagneticCalibration, Vector3};
use crate::sensors::composites::inputs;
use crate::sensors::composites::inputs::{
    dependency, magnetic_field, validate_dependency, AngleQuestion, AngleRequest, CompositeStep,
    CompositeValidationError, SensorEntry,
};
use crate::sensors::composites::tilt::seen;
use crate::sensors::types::{
    SensorDescriptor, SensorId, SensorKind, SensorOrigin, SensorReading, SensorSnapshot,
};
use vstd::prelude::*;

verus! {

/// Parameters of a heading sensor.
#[derive(Clone, Copy, Debug, PartialEq, Eq)]
pub struct HeadingConfig {
    pub output_id: SensorId,
    pub magnetic_field_id: SensorId,
    pub axis_map: AxisMap,
    pub calibration: MagneticCalibration,
    pub declination_cdeg: i32,
    pub maximum_age: Duration,
}

impl HeadingConfig {
    /// A straight mounting, a neutral calibration and no declination.
    pub fn new(output_id: SensorId, magnetic_field_id: SensorId) -> (config: Self)
        ensures
            config.output_id == output_id,
            config.magnetic_field_id == magnetic_field_id,
            config.axis_map == axis::straight(),
            config.calibration.is_neutral(),
            config.declination_cdeg == 0,
            config.maximum_age == (Duration { ticks: 30_000_000 }),
    {
        HeadingConfig {
            output_id,
            magnetic_field_id,
            axis_map: AxisMap::identity(),
            calibration: MagneticCalibration::identity(),
            declination_cdeg: 0,
            maximum_age: Duration::from_secs(30),
        }
    }
}

/// Derives the heading of a level board: +X is north, +Y is east, and the
/// heading grows clockwise seen from above.
#[derive(Clone, Copy, Debug, PartialEq, Eq)]
pub struct HeadingSensor {
    pub config: HeadingConfig,
    /// Running number of the input that was used last.
    pub last_sequence: Option<u64>,
}

/// What the sensor is.
pub open spec fn heading_descriptor(sensor: HeadingSensor) -> SensorDescriptor {
    SensorDescriptor {
        id: sensor.config.output_id,
        kind: SensorKind::Heading,
        origin: SensorOrigin::Composite,
    }
}

/// What the sensor makes of the present readings: a new field, seen along the
/// board and calibrated, becomes a question for its direction.
pub open spec fn heading_step(
    sensor: HeadingSensor,
    readings: Seq<SensorReading>,
    now: Instant,
) -> (HeadingSensor, CompositeStep) {
    match inputs::input(
        readings,
        sensor.config.magnetic_field_id,
        now,
        sensor.config.maximum_age,
    ) {
        None => (sensor, CompositeStep::Unavailable),
        Some((value, observed_at, sequence)) => if sensor.last_sequence == Some(sequence) {
            (sensor, CompositeStep::NoChange)
        } else {
            let after = HeadingSensor { last_sequence: Some(sequence), ..sensor };
            match inputs::as_field(value) {
                None => (after, CompositeStep::Unavailable),
                Some(vector) => (
                    after,
                    CompositeStep::NeedsAngles(
                        AngleRequest {
                            question: AngleQuestion::Heading(
                                sensor.config.calibration.corrected(
                                    sensor.config.axis_map.mapped(vector),
                                ),
                            ),
                            correction_cdeg: sensor.config.declination_cdeg,
                            observed_at,
                        },
                    ),
                ),
            }
        },
    }
}

impl HeadingSensor {
    /// A sensor that has used no input yet.
    pub fn new(config: HeadingConfig) -> (sensor: Self)
        ensures
            sensor == (HeadingSensor { config, last_sequence: None }),
    {
        HeadingSensor { config, last_sequence: None }
    }

    /// What the sensor is.
    pub fn descriptor(&self) -> (descriptor: SensorDescriptor)
        ensures
            descriptor == heading_descriptor(*self),
    {
        SensorDescriptor {
            id: self.config.output_id,
            kind: SensorKind::Heading,
            origin: SensorOrigin::Composite,
        }
    }

    /// Whether the sensor can be set up.
    pub fn validate(&self, entries: &Vec<SensorEntry>) -> (result: Result<
        (),
        CompositeValidationError,
    >)
        ensures
            match inputs::input_error(
                entries@,
                self.config.magnetic_field_id,
                SensorKind::MagneticField,
            ) {
                Some(error) => result == Err::<(), CompositeValidationError>(error),
                None => result == Ok::<(), CompositeValidationError>(()),
            },
    {
        match validate_dependency(
            entries,
            self.config.magnetic_field_id,
            SensorKind::MagneticField,
        ) {
            Err(error) => Err(error),
            Ok(_) => Ok(()),
        }
    }

    /// Looks at the present readings.
    pub fn evaluate<const SENSORS: usize>(
        &mut self,
        snapshot: &SensorSnapshot<SENSORS>,
        now: Instant,
    ) -> (step: CompositeStep)
        ensures
            (*final(self), step) == heading_step(*old(self), snapshot@.readings, now),
    {
        match dependency(snapshot, self.config.magnetic_field_id, now, self.config.maximum_age) {
            None => CompositeStep::Unavailable,
            Some((value, observed_at, sequence)) => {
                if seen(self.last_sequence, sequence) {
                    return CompositeStep::NoChange;
                }
                self.last_sequence = Some(sequence);
                match magnetic_field(value) {
                    None => CompositeStep::Unavailable,
                    Some(vector) => {
                        let field: Vector3 = self.config.calibration.apply(
                            self.config.axis_map.apply(vector),
                        );
                        CompositeStep::NeedsAngles(
                            AngleRequest {
                                question: AngleQuestion::Heading(field),
                                correction_cdeg: self.config.declination_cdeg,
                                observed_at,
                            },
                        )
                    },
                }
            },
        }
    }
}

} // verus!
