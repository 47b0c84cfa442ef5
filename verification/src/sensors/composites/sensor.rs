//! Any derived reading.
use crate::clock::Instant;
use crate::sensors::composites::ecompass;
use crate::sensors::composites::ecompass::ECompassSensor;
use crate::sensors::composites::heading;
use crate::sensors::composites::heading::HeadingSensor;
use crate::sensors::composites::inputs;
use crate::sensors::composites::inputs::{CompositeStep, CompositeValidationError, SensorEntry};
use crate::sensors::composites::odba;
use crate::sensors::composites::odba::OdbaSensor;
use crate::sensors::composites::tilt;
use crate::sensors::composites::tilt::TiltSensor;
use crate::sensors::composites::vedba;
use crate::sensors::composites::vedba::VedbaSensor;
use crate::sensors::types::{SensorDescriptor, SensorKind, SensorReading, SensorSnapshot};
use vstd::prelude::*;
use vstd::std_specs::convert::FromSpecImpl;

verus! {

/// A derived reading.
#[derive(Clone, Copy, Debug, PartialEq, Eq)]
pub enum CompositeSensor {
    Tilt(TiltSensor),
    Heading(HeadingSensor),
    ECompass(ECompassSensor),
    Vedba(VedbaSensor),
    Odba(OdbaSensor),
}

/// What a sensor is.
pub open spec fn descriptor_of(sensor: CompositeSensor) -> SensorDescriptor {
    match sensor {
        CompositeSensor::Tilt(sensor) => tilt::tilt_descriptor(sensor),
        CompositeSensor::Heading(sensor) => heading::heading_descriptor(sensor),
        CompositeSensor::ECompass(sensor) => ecompass::ecompass_descriptor(sensor),
        CompositeSensor::Vedba(sensor) => vedba::vedba_descriptor(sensor),
        CompositeSensor::Odba(sensor) => odba::odba_descriptor(sensor),
    }
}

/// Why a sensor cannot be set up, where it cannot.
pub open spec fn setup_error(sensor: CompositeSensor, entries: Seq<SensorEntry>) -> Option<
    CompositeValidationError,
> {
    match sensor {
        CompositeSensor::Tilt(sensor) => tilt::tilt_error(sensor, entries),
        CompositeSensor::Heading(sensor) => inputs::input_error(
            entries,
            sensor.config.magnetic_field_id,
            SensorKind::MagneticField,
        ),
        CompositeSensor::ECompass(sensor) => ecompass::ecompass_error(sensor, entries),
        CompositeSensor::Vedba(sensor) => odba::dynamic_error(
            entries,
            sensor.config.acceleration_id,
            sensor.config.static_filter_alpha_permille,
            sensor.config.maximum_input_interval,
        ),
        CompositeSensor::Odba(sensor) => odba::dynamic_error(
            entries,
            sensor.config.acceleration_id,
            sensor.config.static_filter_alpha_permille,
            sensor.config.maximum_input_interval,
        ),
    }
}

/// Whether a sensor's filter can work.
pub open spec fn filter_valid(sensor: CompositeSensor) -> bool {
    match sensor {
        CompositeSensor::Vedba(sensor) => sensor.config.static_filter_alpha_permille <= 1_000,
        CompositeSensor::Odba(sensor) => sensor.config.static_filter_alpha_permille <= 1_000,
        _ => true,
    }
}

/// What a sensor makes of the present readings.
pub open spec fn composite_step(
    sensor: CompositeSensor,
    readings: Seq<SensorReading>,
    now: Instant,
) -> (CompositeSensor, CompositeStep) {
    match sensor {
        CompositeSensor::Tilt(sensor) => {
            let (after, step) = tilt::tilt_step(sensor, readings, now);
            (CompositeSensor::Tilt(after), step)
        },
        CompositeSensor::Heading(sensor) => {
            let (after, step) = heading::heading_step(sensor, readings, now);
            (CompositeSensor::Heading(after), step)
        },
        CompositeSensor::ECompass(sensor) => {
            let (after, step) = ecompass::ecompass_step(sensor, readings, now);
            (CompositeSensor::ECompass(after), step)
        },
        CompositeSensor::Vedba(sensor) => {
            let (after, step) = vedba::vedba_step(sensor, readings, now);
            (CompositeSensor::Vedba(after), step)
        },
        CompositeSensor::Odba(sensor) => {
            let (after, step) = odba::odba_step(sensor, readings, now);
            (CompositeSensor::Odba(after), step)
        },
    }
}

/// Looking at readings changes neither what a sensor is nor its parameters.
pub proof fn lemma_step_keeps_identity(
    sensor: CompositeSensor,
    readings: Seq<SensorReading>,
    now: Instant,
)
    ensures
        descriptor_of(composite_step(sensor, readings, now).0) == descriptor_of(sensor),
        filter_valid(composite_step(sensor, readings, now).0) == filter_valid(sensor),
{
}

impl CompositeSensor {
    /// What the sensor is.
    pub fn descriptor(&self) -> (descriptor: SensorDescriptor)
        ensures
            descriptor == descriptor_of(*self),
    {
        match self {
            CompositeSensor::Tilt(sensor) => sensor.descriptor(),
            CompositeSensor::Heading(sensor) => sensor.descriptor(),
            CompositeSensor::ECompass(sensor) => sensor.descriptor(),
            CompositeSensor::Vedba(sensor) => sensor.descriptor(),
            CompositeSensor::Odba(sensor) => sensor.descriptor(),
        }
    }

    /// Whether the sensor can be set up.
    pub fn validate(&self, entries: &Vec<SensorEntry>) -> (result: Result<
        (),
        CompositeValidationError,
    >)
        ensures
            match setup_error(*self, entries@) {
                Some(error) => result == Err::<(), CompositeValidationError>(error),
                None => result == Ok::<(), CompositeValidationError>(()),
            },
            result is Ok ==> filter_valid(*self),
    {
        match self {
            CompositeSensor::Tilt(sensor) => sensor.validate(entries),
            CompositeSensor::Heading(sensor) => sensor.validate(entries),
            CompositeSensor::ECompass(sensor) => sensor.validate(entries),
            CompositeSensor::Vedba(sensor) => sensor.validate(entries),
            CompositeSensor::Odba(sensor) => sensor.validate(entries),
        }
    }

    /// Looks at the present readings.
    pub fn evaluate<const SENSORS: usize>(
        &mut self,
        snapshot: &SensorSnapshot<SENSORS>,
        now: Instant,
    ) -> (step: CompositeStep)
        requires
            filter_valid(*old(self)),
        ensures
            (*final(self), step) == composite_step(*old(self), snapshot@.readings, now),
    {
        match self {
            CompositeSensor::Tilt(sensor) => sensor.evaluate(snapshot, now),
            CompositeSensor::Heading(sensor) => sensor.evaluate(snapshot, now),
            CompositeSensor::ECompass(sensor) => sensor.evaluate(snapshot, now),
            CompositeSensor::Vedba(sensor) => sensor.evaluate(snapshot, now),
            CompositeSensor::Odba(sensor) => sensor.evaluate(snapshot, now),
        }
    }
}

impl From<TiltSensor> for CompositeSensor {
    fn from(value: TiltSensor) -> (sensor: Self) {
        CompositeSensor::Tilt(value)
    }
}

impl FromSpecImpl<TiltSensor> for CompositeSensor {
    open spec fn obeys_from_spec() -> bool {
        true
    }

    open spec fn from_spec(value: TiltSensor) -> Self {
        CompositeSensor::Tilt(value)
    }
}

impl From<HeadingSensor> for CompositeSensor {
    fn from(value: HeadingSensor) -> (sensor: Self) {
        CompositeSensor::Heading(value)
    }
}

impl FromSpecImpl<HeadingSensor> for CompositeSensor {
    open spec fn obeys_from_spec() -> bool {
        true
    }

    open spec fn from_spec(value: HeadingSensor) -> Self {
        CompositeSensor::Heading(value)
    }
}

impl From<ECompassSensor> for CompositeSensor {
    fn from(value: ECompassSensor) -> (sensor: Self) {
        CompositeSensor::ECompass(value)
    }
}

impl FromSpecImpl<ECompassSensor> for CompositeSensor {
    open spec fn obeys_from_spec() -> bool {
        true
    }

    open spec fn from_spec(value: ECompassSensor) -> Self {
        CompositeSensor::ECompass(value)
    }
}

impl From<VedbaSensor> for CompositeSensor {
    fn from(value: VedbaSensor) -> (sensor: Self) {
        CompositeSensor::Vedba(value)
    }
}

impl FromSpecImpl<VedbaSensor> for CompositeSensor {
    open spec fn obeys_from_spec() -> bool {
        true
    }

    open spec fn from_spec(value: VedbaSensor) -> Self {
        CompositeSensor::Vedba(value)
    }
}

impl From<OdbaSensor> for CompositeSensor {
    fn from(value: OdbaSensor) -> (sensor: Self) {
        CompositeSensor::Odba(value)
    }
}

impl FromSpecImpl<OdbaSensor> for CompositeSensor {
    open spec fn obeys_from_spec() -> bool {
        true
    }

    open spec fn from_spec(value: OdbaSensor) -> Self {
        CompositeSensor::Odba(value)
    }
}

} // verus!
