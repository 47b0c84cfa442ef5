//! What derived readings take in, and how they ask for angles.
use crate::clock;
use crate::clock::{Duration, Instant};
use crate::sensors::axis::Vector3;
use crate::sensors::math;
use crate::sensors::math::wrap_heading;
use crate::sensors::types;
use crate::sensors::types::{
    ReadingStatus, SensorId, SensorKind, SensorReading, SensorSnapshot, SensorValue,
};
use vstd::prelude::*;

verus! {

/// Why a derived reading cannot be set up.
#[derive(Clone, Copy, Debug, PartialEq, Eq, Structural)]
pub enum CompositeValidationError {
    MissingDependency(SensorId),
    WrongDependencyKind { id: SensorId, expected: SensorKind, observed: SensorKind },
    InputRateTooLow { id: SensorId, maximum_interval: Duration },
    InvalidConfiguration,
}

/// A derived value and the time it belongs to.
#[derive(Clone, Copy, Debug, PartialEq, Eq, Structural)]
pub struct CompositeSample {
    pub value: SensorValue,
    pub observed_at: Instant,
}

/// Vectors whose direction is asked for.
#[derive(Clone, Copy, Debug, PartialEq, Eq, Structural)]
pub enum AngleQuestion {
    /// Roll and pitch of a board that feels this acceleration: roll from +Y to
    /// +Z, pitch from -X to the length of Y and Z.
    Tilt(Vector3),
    /// Direction of this field on a level board, from +X toward +Y.
    Heading(Vector3),
    /// Direction of a field on a board that feels an acceleration, with the
    /// board's tilt taken out.
    CompensatedHeading { acceleration: Vector3, field: Vector3 },
}

/// Angles in hundredths of a degree: roll and pitch, or a direction and
/// nothing.
#[derive(Clone, Copy, Debug, PartialEq, Eq, Structural)]
pub struct Angles {
    pub first: i32,
    pub second: i32,
}

/// Computes directions.
pub trait AngleSource {
    /// The angles of a question.
    fn angles(&self, question: AngleQuestion) -> Angles;
}

/// A question and what is done with its answer.
#[derive(Clone, Copy, Debug, PartialEq, Eq, Structural)]
pub struct AngleRequest {
    pub question: AngleQuestion,
    /// Added to a direction.
    pub correction_cdeg: i32,
    pub observed_at: Instant,
}

/// What a derived reading makes of the present readings.
#[derive(Clone, Copy, Debug, PartialEq, Eq, Structural)]
pub enum CompositeStep {
    /// Its inputs did not change.
    NoChange,
    /// An input is missing or unusable.
    Unavailable,
    /// A new value.
    Updated(CompositeSample),
    /// A new value, once its angles are known.
    NeedsAngles(AngleRequest),
}

/// The value that an answered question gives.
pub open spec fn answered(request: AngleRequest, angles: Angles) -> CompositeSample {
    CompositeSample {
        value: match request.question {
            AngleQuestion::Tilt(_) => SensorValue::TiltCentiDegrees {
                roll: angles.first,
                pitch: angles.second,
            },
            _ => SensorValue::HeadingCentiDegrees(
                math::turned(angles.first as int, request.correction_cdeg as int) as u16,
            ),
        },
        observed_at: request.observed_at,
    }
}

/// The value that an answered question gives.
pub fn answer(request: AngleRequest, angles: Angles) -> (sample: CompositeSample)
    ensures
        sample == answered(request, angles),
{
    CompositeSample {
        value: match request.question {
            AngleQuestion::Tilt(_) => SensorValue::TiltCentiDegrees {
                roll: angles.first,
                pitch: angles.second,
            },
            _ => SensorValue::HeadingCentiDegrees(
                wrap_heading(angles.first, request.correction_cdeg),
            ),
        },
        observed_at: request.observed_at,
    }
}

// ---- inputs ----------------------------------------------------------------

/// A usable input: its value, its time and its running number.
pub open spec fn input(
    readings: Seq<SensorReading>,
    id: SensorId,
    now: Instant,
    maximum_age: Duration,
) -> Option<(SensorValue, Instant, u64)> {
    let reading = readings[types::position(readings, id)];
    if types::is_known(readings, id) && reading.status == ReadingStatus::Current
        && reading.last_success is Some && clock::elapsed_ticks(reading.last_success->0, now)
        <= maximum_age@ && reading.value is Some {
        Some((reading.value->0, reading.last_success->0, reading.sequence))
    } else {
        None
    }
}

/// A usable input: its value, its time and its running number.
pub(crate) fn dependency<const SENSORS: usize>(
    snapshot: &SensorSnapshot<SENSORS>,
    id: SensorId,
    now: Instant,
    maximum_age: Duration,
) -> (result: Option<(SensorValue, Instant, u64)>)
    ensures
        result == input(snapshot@.readings, id, now, maximum_age),
{
    match snapshot.reading(id) {
        Some(reading) => {
            if !(reading.status == ReadingStatus::Current) {
                return None;
            }
            match (reading.last_success, reading.value) {
                (Some(observed_at), Some(value)) => if now.saturating_duration_since(
                    observed_at,
                ).as_ticks() > maximum_age.as_ticks() {
                    None
                } else {
                    Some((value, observed_at, reading.sequence))
                },
                _ => None,
            }
        },
        None => None,
    }
}

/// An acceleration.
pub open spec fn as_acceleration(value: SensorValue) -> Option<Vector3> {
    match value {
        SensorValue::AccelerationMg { x, y, z } => Some(Vector3 { x, y, z }),
        _ => None,
    }
}

/// A magnetic field.
pub open spec fn as_field(value: SensorValue) -> Option<Vector3> {
    match value {
        SensorValue::MagneticFieldNt { x, y, z } => Some(Vector3 { x, y, z }),
        _ => None,
    }
}

/// An acceleration.
pub(crate) fn acceleration(value: SensorValue) -> (vector: Option<Vector3>)
    ensures
        vector == as_acceleration(value),
{
    match value {
        SensorValue::AccelerationMg { x, y, z } => Some(Vector3 { x, y, z }),
        _ => None,
    }
}

/// A magnetic field.
pub(crate) fn magnetic_field(value: SensorValue) -> (vector: Option<Vector3>)
    ensures
        vector == as_field(value),
{
    match value {
        SensorValue::MagneticFieldNt { x, y, z } => Some(Vector3 { x, y, z }),
        _ => None,
    }
}

/// Ticks between two instants, in either order.
pub open spec fn skew(a: Instant, b: Instant) -> int {
    if a@ >= b@ {
        a@ - b@
    } else {
        b@ - a@
    }
}

/// Time between two instants, in either order.
pub(crate) fn instant_skew(a: Instant, b: Instant) -> (duration: Duration)
    ensures
        duration@ == skew(a, b),
{
    if a.as_ticks() >= b.as_ticks() {
        a.saturating_duration_since(b)
    } else {
        b.saturating_duration_since(a)
    }
}

// ---- registration ----------------------------------------------------------

/// A known sensor, with its interval where it is a physical one.
#[derive(Clone, Copy, Debug, PartialEq, Eq, Structural)]
pub struct SensorEntry {
    pub id: SensorId,
    pub kind: SensorKind,
    pub interval: Option<Duration>,
}

/// Whether the first entry of a sensor stands at a position.
pub open spec fn entry_at(entries: Seq<SensorEntry>, id: SensorId, index: int) -> bool {
    &&& 0 <= index < entries.len()
    &&& entries[index].id == id
    &&& forall|i: int| 0 <= i < index ==> (#[trigger] entries[i]).id != id
}

/// Whether a sensor has an entry.
pub open spec fn has_entry(entries: Seq<SensorEntry>, id: SensorId) -> bool {
    exists|i: int| 0 <= i < entries.len() && (#[trigger] entries[i]).id == id
}

/// The entry of a sensor.
pub open spec fn entry(entries: Seq<SensorEntry>, id: SensorId) -> SensorEntry {
    entries[choose|index: int| entry_at(entries, id, index)]
}

/// Why a sensor cannot serve as an input of a kind, where it cannot.
pub open spec fn input_error(
    entries: Seq<SensorEntry>,
    id: SensorId,
    expected: SensorKind,
) -> Option<CompositeValidationError> {
    if !has_entry(entries, id) {
        Some(CompositeValidationError::MissingDependency(id))
    } else if entry(entries, id).kind != expected {
        Some(
            CompositeValidationError::WrongDependencyKind {
                id,
                expected,
                observed: entry(entries, id).kind,
            },
        )
    } else {
        None
    }
}

/// The entry of a sensor.
fn find_entry(entries: &Vec<SensorEntry>, id: SensorId) -> (found: Option<SensorEntry>)
    ensures
        match found {
            Some(found) => has_entry(entries@, id) && found == entry(entries@, id) && found.id
                == id,
            None => !has_entry(entries@, id),
        },
{
    let mut index: usize = 0;
    while index < entries.len()
        invariant
            index <= entries@.len(),
            forall|i: int| 0 <= i < index ==> (#[trigger] entries@[i]).id != id,
        decreases entries.len() - index,
    {
        if entries[index].id == id {
            proof {
                assert(entry_at(entries@, id, index as int));
                let other = choose|i: int| entry_at(entries@, id, i);
                if other < index {
                    assert(entries@[other].id != id);
                } else if index < other {
                    assert(entries@[index as int].id != id);
                }
            }
            return Some(entries[index]);
        }
        index = index + 1;
    }
    None
}

/// The interval of a sensor that can serve as an input of a kind.
pub(crate) fn validate_dependency(
    entries: &Vec<SensorEntry>,
    id: SensorId,
    expected: SensorKind,
) -> (result: Result<Option<Duration>, CompositeValidationError>)
    ensures
        match input_error(entries@, id, expected) {
            Some(error) => result == Err::<Option<Duration>, CompositeValidationError>(error),
            None => result == Ok::<Option<Duration>, CompositeValidationError>(
                entry(entries@, id).interval,
            ),
        },
{
    match find_entry(entries, id) {
        Some(found) => if found.kind == expected {
            Ok(found.interval)
        } else {
            Err(
                CompositeValidationError::WrongDependencyKind {
                    id,
                    expected,
                    observed: found.kind,
                },
            )
        },
        None => Err(CompositeValidationError::MissingDependency(id)),
    }
}

} // verus!
