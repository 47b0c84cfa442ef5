//! Physical sensors and how often they are read.
use crate::clock::{Duration, Instant};
use crate::sensors::types::{SensorDescriptor, SensorValue};
use vstd::prelude::*;

verus! {

/// Time between two readings of a sensor by default, in seconds.
pub const DEFAULT_SENSOR_POLL_INTERVAL: u64 = 10;

/// Why a source has no value.
#[derive(Clone, Copy, Debug, PartialEq, Eq, Structural)]
pub struct SensorSourceError {
    pub code: u16,
}

impl SensorSourceError {
    /// An error with the source's own code.
    pub fn new(code: u16) -> (error: Self)
        ensures
            error.code == code,
    {
        SensorSourceError { code }
    }
}

/// A physical sensor.
pub trait SensorSource {
    /// Reads the sensor.
    fn sample(&mut self) -> Result<SensorValue, SensorSourceError>;
}

/// A physical sensor and its polling policy.
pub struct SensorRegistration<S> {
    pub descriptor: SensorDescriptor,
    pub poll_interval: Duration,
    pub source: S,
}

impl<S> SensorRegistration<S> {
    /// A sensor that is read at the default interval.
    pub fn new(descriptor: SensorDescriptor, source: S) -> (registration: Self)
        ensures
            registration.descriptor == descriptor,
            registration.source == source,
            registration.poll_interval == (Duration { ticks: 10_000_000 }),
    {
        SensorRegistration {
            descriptor,
            poll_interval: Duration::from_secs(DEFAULT_SENSOR_POLL_INTERVAL),
            source,
        }
    }

    /// The same sensor, read at another interval.
    pub fn with_interval(self, poll_interval: Duration) -> (registration: Self)
        ensures
            registration.descriptor == self.descriptor,
            registration.source == self.source,
            registration.poll_interval == poll_interval,
    {
        SensorRegistration { descriptor: self.descriptor, poll_interval, source: self.source }
    }
}

/// A registered sensor with its schedule.
pub struct RegisteredSource<S> {
    pub descriptor: SensorDescriptor,
    pub poll_interval: Duration,
    pub next_due: Instant,
    pub source: S,
}

} // verus!
