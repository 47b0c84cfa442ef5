//! The physical sensors of the board.
use crate::clock::{Duration, Instant};
use crate::sensors::model::{SensorModel, SourceModel};
use crate::sensors::service::{
    SensorService, DEFAULT_COMPOSITES, DEFAULT_EVENT_DEPTH, DEFAULT_SENSOR_CAPACITY,
    DEFAULT_SENSOR_SOURCES, DEFAULT_SENSOR_THRESHOLDS,
};
use crate::sensors::source::{SensorRegistration, SensorSourceError};
use crate::sensors::thresholds;
use crate::sensors::thresholds::{EngineModel, ValueSelector};
use crate::sensors::types;
use crate::sensors::types::{
    SensorDescriptor, SensorId, SensorKind, SensorOrigin, SensorValue, SnapshotModel,
};
use vstd::prelude::*;

verus! {

/// A sensor service of the default size.
pub type BoardSensorService<S> = SensorService<
    S,
    DEFAULT_SENSOR_SOURCES,
    DEFAULT_SENSOR_CAPACITY,
    DEFAULT_COMPOSITES,
    DEFAULT_SENSOR_THRESHOLDS,
    DEFAULT_EVENT_DEPTH,
>;

/// Name of the accelerometer.
pub const ACCELERATION_SENSOR: u16 = 1;

/// Name of the magnetometer.
pub const MAGNETIC_FIELD_SENSOR: u16 = 2;

/// Name of the accelerometer's thermometer.
pub const ACCELEROMETER_TEMPERATURE_SENSOR: u16 = 3;

/// Name of the magnetometer's thermometer.
pub const MAGNETOMETER_TEMPERATURE_SENSOR: u16 = 4;

/// Time between two readings of acceleration and field, in seconds.
pub const MOTION_INTERVAL_SECS: u64 = 10;

/// Time between two readings of a temperature, in seconds.
pub const TEMPERATURE_INTERVAL_SECS: u64 = 30;

/// One sensor of the board with its schedule; it is due at once.
pub open spec fn board_source(
    id: u16,
    kind: SensorKind,
    origin: SensorOrigin,
    interval_ticks: u64,
) -> SourceModel {
    SourceModel {
        descriptor: SensorDescriptor { id: SensorId(id), kind, origin },
        poll_interval: Duration { ticks: interval_ticks },
        next_due: crate::clock::Instant { ticks: 0 },
    }
}

/// The sensors of the board, in the order in which they are reported.
pub open spec fn board_sources() -> Seq<SourceModel> {
    seq![
        board_source(1, SensorKind::Acceleration, SensorOrigin::Lis2hh12, 10_000_000),
        board_source(2, SensorKind::MagneticField, SensorOrigin::Lis2mdl, 10_000_000),
        board_source(3, SensorKind::Temperature, SensorOrigin::Lis2hh12, 30_000_000),
        board_source(4, SensorKind::Temperature, SensorOrigin::Lis2mdl, 30_000_000),
    ]
}

/// Names of the sensors of the board, in the order in which they are reported.
pub fn board_sensor_ids() -> (ids: Vec<SensorId>)
    ensures
        ids@ == seq![SensorId(1), SensorId(2), SensorId(3), SensorId(4)],
{
    vec![
        SensorId(ACCELERATION_SENSOR),
        SensorId(MAGNETIC_FIELD_SENSOR),
        SensorId(ACCELEROMETER_TEMPERATURE_SENSOR),
        SensorId(MAGNETOMETER_TEMPERATURE_SENSOR),
    ]
}

/// The sample of an acceleration, or the accelerometer's error.
pub open spec fn acceleration_of(axes: Option<(i32, i32, i32)>) -> Result<
    SensorValue,
    SensorSourceError,
> {
    match axes {
        Some(axes) => Ok(SensorValue::AccelerationMg { x: axes.0, y: axes.1, z: axes.2 }),
        None => Err(SensorSourceError { code: 0x0101 }),
    }
}

/// The sample of a magnetic field, or the magnetometer's error.
pub open spec fn field_of(axes: Option<(i32, i32, i32)>) -> Result<
    SensorValue,
    SensorSourceError,
> {
    match axes {
        Some(axes) => Ok(SensorValue::MagneticFieldNt { x: axes.0, y: axes.1, z: axes.2 }),
        None => Err(SensorSourceError { code: 0x0201 }),
    }
}

/// The sample of a temperature, or the thermometer's error.
pub open spec fn temperature_of(of_accelerometer: bool, milli_celsius: Option<i32>) -> Result<
    SensorValue,
    SensorSourceError,
> {
    match milli_celsius {
        Some(value) => Ok(SensorValue::TemperatureMilliCelsius(value)),
        None => Err(
            SensorSourceError {
                code: if of_accelerometer {
                    0x0102
                } else {
                    0x0202
                },
            },
        ),
    }
}

/// What the accelerometer delivers, in thousandths of the standard gravity.
pub fn acceleration_sample(axes: Option<(i32, i32, i32)>) -> (sample: Result<
    SensorValue,
    SensorSourceError,
>)
    ensures
        sample == acceleration_of(axes),
{
    match axes {
        Some((x, y, z)) => Ok(SensorValue::AccelerationMg { x, y, z }),
        None => Err(SensorSourceError::new(0x0101)),
    }
}

/// What the magnetometer delivers, in nanotesla.
pub fn magnetic_field_sample(axes: Option<(i32, i32, i32)>) -> (sample: Result<
    SensorValue,
    SensorSourceError,
>)
    ensures
        sample == field_of(axes),
{
    match axes {
        Some((x, y, z)) => Ok(SensorValue::MagneticFieldNt { x, y, z }),
        None => Err(SensorSourceError::new(0x0201)),
    }
}

/// What a thermometer delivers: that of the accelerometer, or that of the
/// magnetometer.
pub fn temperature_sample(of_accelerometer: bool, milli_celsius: Option<i32>) -> (sample: Result<
    SensorValue,
    SensorSourceError,
>)
    ensures
        sample == temperature_of(of_accelerometer, milli_celsius),
{
    match milli_celsius {
        Some(value) => Ok(SensorValue::TemperatureMilliCelsius(value)),
        None => Err(
            SensorSourceError::new(
                if of_accelerometer {
                    0x0102
                } else {
                    0x0202
                },
            ),
        ),
    }
}

/// One sensor of the board.
fn registration<S>(id: u16, kind: SensorKind, origin: SensorOrigin, seconds: u64, source: S) -> (result:
    SensorRegistration<S>)
    requires
        seconds <= 1_000,
    ensures
        result.descriptor == (SensorDescriptor { id: SensorId(id), kind, origin }),
        result.poll_interval@ == seconds * 1_000_000,
        result.source == source,
{
    SensorRegistration::new(
        SensorDescriptor { id: SensorId(id), kind, origin },
        source,
    ).with_interval(Duration::from_secs(seconds))
}

/// A service with the sensors of the board. No registration is refused.
pub fn build_sensor_service<S>(
    acceleration: S,
    magnetic_field: S,
    accelerometer_temperature: S,
    magnetometer_temperature: S,
) -> (service: BoardSensorService<S>)
    ensures
        service.well_formed(),
        service@ == (SensorModel {
            sources: board_sources(),
            composites: Seq::empty(),
            engine: EngineModel { rules: Seq::empty(), next_event_sequence: 0 },
            snapshot: SnapshotModel {
                readings: Seq::new(4, |i: int| types::unread(board_sources()[i].descriptor)),
                generation: 0,
                published_at: Instant { ticks: 0 },
                stats: types::no_stats(),
            },
            failures_before_fault: 3,
        }),
        service.devices() == seq![
            acceleration,
            magnetic_field,
            accelerometer_temperature,
            magnetometer_temperature,
        ],
{
    let mut service: BoardSensorService<S> = SensorService::new();
    let first = service.register_source(
        registration(
            ACCELERATION_SENSOR,
            SensorKind::Acceleration,
            SensorOrigin::Lis2hh12,
            MOTION_INTERVAL_SECS,
            acceleration,
        ),
    );
    assert(first is Ok);
    let second = service.register_source(
        registration(
            MAGNETIC_FIELD_SENSOR,
            SensorKind::MagneticField,
            SensorOrigin::Lis2mdl,
            MOTION_INTERVAL_SECS,
            magnetic_field,
        ),
    );
    assert(second is Ok);
    let third = service.register_source(
        registration(
            ACCELEROMETER_TEMPERATURE_SENSOR,
            SensorKind::Temperature,
            SensorOrigin::Lis2hh12,
            TEMPERATURE_INTERVAL_SECS,
            accelerometer_temperature,
        ),
    );
    assert(third is Ok);
    let fourth = service.register_source(
        registration(
            MAGNETOMETER_TEMPERATURE_SENSOR,
            SensorKind::Temperature,
            SensorOrigin::Lis2mdl,
            TEMPERATURE_INTERVAL_SECS,
            magnetometer_temperature,
        ),
    );
    assert(fourth is Ok);
    assert(service@.sources =~= board_sources());
    assert(service@.snapshot.readings =~= Seq::new(
        4,
        |i: int| types::unread(board_sources()[i].descriptor),
    ));
    service
}

/// A rule sees the axes that were measured, each under its own name, and samples fit
/// the sensors of the board that deliver them.
pub proof fn law_samples_keep_their_axes(axes: (i32, i32, i32), milli_celsius: i32)
    ensures
        ({
            let acceleration = acceleration_of(Some(axes));
            let field = field_of(Some(axes));
            &&& acceleration is Ok && field is Ok
            &&& thresholds::selected(acceleration->Ok_0, ValueSelector::X) == Some(axes.0)
            &&& thresholds::selected(acceleration->Ok_0, ValueSelector::Y) == Some(axes.1)
            &&& thresholds::selected(acceleration->Ok_0, ValueSelector::Z) == Some(axes.2)
            &&& thresholds::selected(field->Ok_0, ValueSelector::X) == Some(axes.0)
            &&& thresholds::selected(field->Ok_0, ValueSelector::Y) == Some(axes.1)
            &&& thresholds::selected(field->Ok_0, ValueSelector::Z) == Some(axes.2)
            &&& acceleration->Ok_0.fits(board_sources()[0].descriptor.kind)
            &&& field->Ok_0.fits(board_sources()[1].descriptor.kind)
        }),
        forall|of_accelerometer: bool| #[trigger]
            temperature_of(of_accelerometer, Some(milli_celsius)) matches Ok(value) && value.fits(
                board_sources()[2].descriptor.kind,
            ) && value.fits(board_sources()[3].descriptor.kind) && thresholds::selected(
                value,
                ValueSelector::Scalar,
            ) == Some(milli_celsius),
{
}

/// Every failure tells its device apart: the accelerometer's errors lie from 257 on
/// and the magnetometer's from 513 on, the vector's error first and the
/// thermometer's behind it.
pub proof fn law_failures_tell_their_device()
    ensures
        acceleration_of(None) == Err::<SensorValue, _>(SensorSourceError { code: 257 }),
        temperature_of(true, None) == Err::<SensorValue, _>(SensorSourceError { code: 258 }),
        field_of(None) == Err::<SensorValue, _>(SensorSourceError { code: 513 }),
        temperature_of(false, None) == Err::<SensorValue, _>(SensorSourceError { code: 514 }),
{
}

/// The sensors of the board are numbered from one on, and all of them are due at
/// once; motion is read every ten seconds, and temperature every thirty.
pub proof fn law_board_sensors_have_their_schedule(index: int)
    requires
        0 <= index < board_sources().len(),
    ensures
        ({
            let source = board_sources()[index];
            let origin = source.descriptor.origin;
            &&& board_sources().len() == 4
            &&& source.descriptor.id.0 == index + 1
            &&& source.next_due.ticks == 0
            &&& index < 2 ==> source.poll_interval.ticks == 10_000_000
            &&& index >= 2 ==> source.poll_interval.ticks == 30_000_000
                && source.descriptor.kind == SensorKind::Temperature
            &&& index % 2 == 0 ==> origin == SensorOrigin::Lis2hh12
            &&& index % 2 == 1 ==> origin == SensorOrigin::Lis2mdl
        }),
{
}

} // verus!
