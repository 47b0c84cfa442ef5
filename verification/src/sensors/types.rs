//! Values exchanged with the sensor service.
use crate::clock::Instant;
use vstd::prelude::*;

verus! {

/// Names a sensor.
#[derive(Clone, Copy, Debug, PartialEq, Eq, PartialOrd, Ord, Structural)]
pub struct SensorId(pub u16);

impl Default for SensorId {
    fn default() -> (id: Self)
        ensures
            id == SensorId(0),
    {
        SensorId(0)
    }
}

/// What a sensor measures.
#[derive(Clone, Copy, Debug, PartialEq, Eq, Structural)]
pub enum SensorKind {
    Acceleration,
    MagneticField,
    Temperature,
    Tilt,
    Heading,
    TiltCompensatedHeading,
    Vedba,
    Odba,
}

/// Where a reading comes from.
#[derive(Clone, Copy, Debug, PartialEq, Eq, Structural)]
pub enum SensorOrigin {
    Lis2hh12,
    Lis2mdl,
    Stm32Core,
    Radio,
    ExtensionBus(u8),
    Composite,
    Other(u16),
}

/// A sensor.
#[derive(Clone, Copy, Debug, PartialEq, Eq, Structural)]
pub struct SensorDescriptor {
    pub id: SensorId,
    pub kind: SensorKind,
    pub origin: SensorOrigin,
}

/// A measured value.
#[derive(Clone, Copy, Debug, PartialEq, Eq, Structural)]
pub enum SensorValue {
    AccelerationMg { x: i32, y: i32, z: i32 },
    MagneticFieldNt { x: i32, y: i32, z: i32 },
    TemperatureMilliCelsius(i32),
    TiltCentiDegrees { roll: i32, pitch: i32 },
    HeadingCentiDegrees(u16),
    DynamicAccelerationMg(u32),
}

impl SensorValue {
    /// Whether a sensor of a kind can deliver this value. A heading is below a
    /// full turn.
    pub open spec fn fits(self, kind: SensorKind) -> bool {
        match self {
            SensorValue::AccelerationMg { .. } => kind == SensorKind::Acceleration,
            SensorValue::MagneticFieldNt { .. } => kind == SensorKind::MagneticField,
            SensorValue::TemperatureMilliCelsius(_) => kind == SensorKind::Temperature,
            SensorValue::TiltCentiDegrees { .. } => kind == SensorKind::Tilt,
            SensorValue::HeadingCentiDegrees(value) => value < 36_000 && (kind
                == SensorKind::Heading || kind == SensorKind::TiltCompensatedHeading),
            SensorValue::DynamicAccelerationMg(_) => kind == SensorKind::Vedba || kind
                == SensorKind::Odba,
        }
    }

    /// Whether a sensor of a kind can deliver this value.
    pub fn compatible_with(self, kind: SensorKind) -> (compatible: bool)
        ensures
            compatible == self.fits(kind),
    {
        match self {
            SensorValue::AccelerationMg { .. } => kind == SensorKind::Acceleration,
            SensorValue::MagneticFieldNt { .. } => kind == SensorKind::MagneticField,
            SensorValue::TemperatureMilliCelsius(_) => kind == SensorKind::Temperature,
            SensorValue::TiltCentiDegrees { .. } => kind == SensorKind::Tilt,
            SensorValue::HeadingCentiDegrees(value) => value < 36_000 && (kind
                == SensorKind::Heading || kind == SensorKind::TiltCompensatedHeading),
            SensorValue::DynamicAccelerationMg(_) => kind == SensorKind::Vedba || kind
                == SensorKind::Odba,
        }
    }
}

/// Whether a reading can be used.
#[derive(Clone, Copy, Debug, PartialEq, Eq, Structural)]
pub enum ReadingStatus {
    Unavailable,
    Current,
    Stale,
    Fault,
}

impl Default for ReadingStatus {
    fn default() -> (status: Self)
        ensures
            status == ReadingStatus::Unavailable,
    {
        ReadingStatus::Unavailable
    }
}

/// Why a reading is missing.
#[derive(Clone, Copy, Debug, PartialEq, Eq, Structural)]
pub enum ReadingError {
    /// The source reported this code.
    Source(u16),
    /// The source delivered a value of another kind.
    IncompatibleValue,
    /// A derived reading lacks its input.
    CompositeInputUnavailable,
}

/// The latest state of one sensor.
#[derive(Clone, Copy, Debug, PartialEq, Eq, Structural)]
pub struct SensorReading {
    pub descriptor: SensorDescriptor,
    pub value: Option<SensorValue>,
    pub status: ReadingStatus,
    pub sequence: u64,
    pub last_attempt: Instant,
    pub last_success: Option<Instant>,
    pub consecutive_errors: u32,
    pub total_errors: u64,
    pub last_error: Option<ReadingError>,
}

/// A sensor that was never read.
pub open spec fn unread(descriptor: SensorDescriptor) -> SensorReading {
    SensorReading {
        descriptor,
        value: None,
        status: ReadingStatus::Unavailable,
        sequence: 0,
        last_attempt: Instant { ticks: 0 },
        last_success: None,
        consecutive_errors: 0,
        total_errors: 0,
        last_error: None,
    }
}

impl SensorReading {
    /// A sensor that was never read.
    pub fn unavailable(descriptor: SensorDescriptor) -> (reading: Self)
        ensures
            reading == unread(descriptor),
    {
        SensorReading {
            descriptor,
            value: None,
            status: ReadingStatus::Unavailable,
            sequence: 0,
            last_attempt: Instant::from_ticks(0),
            last_success: None,
            consecutive_errors: 0,
            total_errors: 0,
            last_error: None,
        }
    }
}

/// Counters of the sensor service.
#[derive(Clone, Copy, Debug, PartialEq, Eq, Structural)]
pub struct SensorServiceStats {
    pub polls_attempted: u64,
    pub polls_succeeded: u64,
    pub polls_failed: u64,
    pub composites_evaluated: u64,
    pub threshold_events_emitted: u64,
    pub event_queue_high_water: u16,
}

/// Counters of a service that was never used.
pub open spec fn no_stats() -> SensorServiceStats {
    SensorServiceStats {
        polls_attempted: 0,
        polls_succeeded: 0,
        polls_failed: 0,
        composites_evaluated: 0,
        threshold_events_emitted: 0,
        event_queue_high_water: 0,
    }
}

impl Default for SensorServiceStats {
    fn default() -> (stats: Self)
        ensures
            stats == no_stats(),
    {
        SensorServiceStats {
            polls_attempted: 0,
            polls_succeeded: 0,
            polls_failed: 0,
            composites_evaluated: 0,
            threshold_events_emitted: 0,
            event_queue_high_water: 0,
        }
    }
}

/// All readings at one moment, of at most `SENSORS` sensors.
#[derive(Debug, PartialEq, Eq)]
pub struct SensorSnapshot<const SENSORS: usize> {
    pub readings: Vec<SensorReading>,
    pub generation: u64,
    pub published_at: Instant,
    pub stats: SensorServiceStats,
}

/// All readings at one moment, as contracts speak of them.
#[verifier::ext_equal]
pub struct SnapshotModel {
    pub readings: Seq<SensorReading>,
    pub generation: u64,
    pub published_at: Instant,
    pub stats: SensorServiceStats,
}

/// Whether the first reading of a sensor stands at a position.
pub open spec fn found_at(readings: Seq<SensorReading>, id: SensorId, index: int) -> bool {
    &&& 0 <= index < readings.len()
    &&& readings[index].descriptor.id == id
    &&& forall|i: int| 0 <= i < index ==> (#[trigger] readings[i]).descriptor.id != id
}

/// Whether a sensor is known.
pub open spec fn is_known(readings: Seq<SensorReading>, id: SensorId) -> bool {
    exists|i: int| 0 <= i < readings.len() && (#[trigger] readings[i]).descriptor.id == id
}

/// Position of a sensor's reading.
pub open spec fn position(readings: Seq<SensorReading>, id: SensorId) -> int {
    choose|index: int| found_at(readings, id, index)
}

/// A known sensor has one position.
pub proof fn lemma_position(readings: Seq<SensorReading>, id: SensorId, index: int)
    requires
        found_at(readings, id, index),
    ensures
        position(readings, id) == index,
        is_known(readings, id),
{
    let other = position(readings, id);
    assert(found_at(readings, id, other));
    if other < index {
        assert(readings[other].descriptor.id != id);
    } else if index < other {
        assert(readings[index].descriptor.id != id);
    }
}

/// Readings of one kind, in their order.
pub open spec fn of_kind(readings: Seq<SensorReading>, kind: SensorKind) -> Seq<SensorReading>
    decreases readings.len(),
{
    if readings.len() == 0 {
        Seq::empty()
    } else {
        let before = of_kind(readings.drop_last(), kind);
        if readings.last().descriptor.kind == kind {
            before.push(readings.last())
        } else {
            before
        }
    }
}

impl<const SENSORS: usize> View for SensorSnapshot<SENSORS> {
    type V = SnapshotModel;

    open spec fn view(&self) -> SnapshotModel {
        SnapshotModel {
            readings: self.readings@,
            generation: self.generation,
            published_at: self.published_at,
            stats: self.stats,
        }
    }
}

impl<const SENSORS: usize> SensorSnapshot<SENSORS> {
    /// No sensors at all.
    pub fn empty() -> (snapshot: Self)
        ensures
            snapshot@ == (SnapshotModel {
                readings: Seq::empty(),
                generation: 0,
                published_at: Instant { ticks: 0 },
                stats: no_stats(),
            }),
    {
        SensorSnapshot {
            readings: Vec::new(),
            generation: 0,
            published_at: Instant::from_ticks(0),
            stats: SensorServiceStats::default(),
        }
    }

    /// Position of a sensor's reading.
    pub(crate) fn find(&self, id: SensorId) -> (index: Option<usize>)
        ensures
            match index {
                Some(index) => found_at(self@.readings, id, index as int) && position(
                    self@.readings,
                    id,
                ) == index && is_known(self@.readings, id),
                None => !is_known(self@.readings, id),
            },
    {
        let mut index: usize = 0;
        while index < self.readings.len()
            invariant
                index <= self.readings@.len(),
                forall|i: int|
                    0 <= i < index ==> (#[trigger] self.readings@[i]).descriptor.id != id,
            decreases self.readings.len() - index,
        {
            if self.readings[index].descriptor.id == id {
                proof {
                    lemma_position(self@.readings, id, index as int);
                }
                return Some(index);
            }
            index = index + 1;
        }
        None
    }

    /// The reading of a sensor.
    pub fn reading(&self, id: SensorId) -> (reading: Option<&SensorReading>)
        ensures
            match reading {
                Some(reading) => is_known(self@.readings, id) && *reading
                    == self@.readings[position(self@.readings, id)] && reading.descriptor.id == id,
                None => !is_known(self@.readings, id),
            },
    {
        match self.find(id) {
            Some(index) => Some(&self.readings[index]),
            None => None,
        }
    }

    /// The readings of one kind, in their order.
    pub fn readings_of_kind(&self, kind: SensorKind) -> (readings: Vec<SensorReading>)
        ensures
            readings@ == of_kind(self@.readings, kind),
    {
        let mut readings: Vec<SensorReading> = Vec::new();
        let mut index: usize = 0;
        while index < self.readings.len()
            invariant
                index <= self.readings@.len(),
                readings@ == of_kind(self.readings@.take(index as int), kind),
            decreases self.readings.len() - index,
        {
            assert(self.readings@.take(index + 1).drop_last() =~= self.readings@.take(
                index as int,
            ));
            if self.readings[index].descriptor.kind == kind {
                readings.push(self.readings[index]);
            }
            index = index + 1;
        }
        assert(self.readings@.take(index as int) =~= self.readings@);
        readings
    }
}

impl<const SENSORS: usize> Clone for SensorSnapshot<SENSORS> {
    fn clone(&self) -> (snapshot: Self)
        ensures
            snapshot@ == self@,
    {
        let mut readings: Vec<SensorReading> = Vec::new();
        let mut index: usize = 0;
        while index < self.readings.len()
            invariant
                index <= self.readings@.len(),
                readings@ == self.readings@.take(index as int),
            decreases self.readings.len() - index,
        {
            readings.push(self.readings[index]);
            index = index + 1;
            assert(readings@ =~= self.readings@.take(index as int));
        }
        assert(readings@ =~= self.readings@);
        SensorSnapshot {
            readings,
            generation: self.generation,
            published_at: self.published_at,
            stats: self.stats,
        }
    }
}

impl<const SENSORS: usize> Default for SensorSnapshot<SENSORS> {
    fn default() -> (snapshot: Self)
        ensures
            snapshot@ == (SnapshotModel {
                readings: Seq::empty(),
                generation: 0,
                published_at: Instant { ticks: 0 },
                stats: no_stats(),
            }),
    {
        SensorSnapshot::empty()
    }
}

/// What a threshold reports.
#[derive(Clone, Copy, Debug, PartialEq, Eq, Structural)]
pub enum SensorEventKind {
    AbsoluteEntered,
    AbsoluteCleared,
    DeltaExceeded,
}

/// Names a threshold.
#[derive(Clone, Copy, Debug, PartialEq, Eq, Structural)]
pub struct ThresholdId(pub u16);

impl Default for ThresholdId {
    fn default() -> (id: Self)
        ensures
            id == ThresholdId(0),
    {
        ThresholdId(0)
    }
}

/// A crossed threshold.
#[derive(Clone, Copy, Debug, PartialEq, Eq, Structural)]
pub struct SensorEvent {
    pub sequence: u64,
    pub threshold_id: ThresholdId,
    pub sensor_id: SensorId,
    pub kind: SensorEventKind,
    pub current: i32,
    pub previous: Option<i32>,
    pub threshold: i32,
    pub observed_at: Instant,
}

} // verus!
