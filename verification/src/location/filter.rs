//! The position as the median of the latest usable fixes.
use crate::arith;
use crate::location::types;
use crate::location::types::{Coordinate, GpsFix, LocationConfig, LocationSource, LocationState};
use crate::order;
use crate::order::insertion_sort;
use vstd::prelude::*;

verus! {

/// Largest latitude, in ten-millionths of a degree.
pub const LATITUDE_LIMIT_E7: i32 = 900_000_000;

/// Largest longitude, in ten-millionths of a degree.
pub const LONGITUDE_LIMIT_E7: i32 = 1_800_000_000;

/// Length of a degree of latitude.
pub const LATITUDE_METERS_PER_DEGREE: u32 = 111_320;

/// What is kept of a fix.
#[derive(Clone, Copy, Debug, PartialEq, Eq, Structural)]
pub struct LocationSample {
    latitude: Coordinate,
    longitude: Coordinate,
    satellites: u8,
    hdop_centi: Option<u16>,
}

/// A value of a sample that a median is taken of.
#[derive(Clone, Copy, PartialEq, Eq, Structural)]
pub enum Field {
    Latitude,
    Longitude,
    Satellites,
}

/// What is kept of a fix.
pub closed spec fn sample_of(fix: GpsFix) -> LocationSample {
    LocationSample {
        latitude: fix.latitude,
        longitude: fix.longitude,
        satellites: fix.satellites,
        hdop_centi: fix.hdop_centi,
    }
}

impl LocationSample {
    /// One of the sample's values.
    pub closed spec fn value(self, field: Field) -> i64 {
        match field {
            Field::Latitude => self.latitude.degrees_e7 as i64,
            Field::Longitude => self.longitude.degrees_e7 as i64,
            Field::Satellites => self.satellites as i64,
        }
    }

    /// The sample's dilution, where the receiver gave one.
    pub closed spec fn dilution(self) -> Option<u16> {
        self.hdop_centi
    }

    /// What is kept of a fix.
    fn from_fix(fix: GpsFix) -> (sample: Self)
        ensures
            sample == sample_of(fix),
    {
        LocationSample {
            latitude: fix.latitude,
            longitude: fix.longitude,
            satellites: fix.satellites,
            hdop_centi: fix.hdop_centi,
        }
    }
}

/// A sample keeps the values of its fix.
pub proof fn law_samples_keep_the_fix(fix: GpsFix)
    ensures
        sample_of(fix).value(Field::Latitude) == fix.latitude.degrees_e7,
        sample_of(fix).value(Field::Longitude) == fix.longitude.degrees_e7,
        sample_of(fix).value(Field::Satellites) == fix.satellites,
        sample_of(fix).dilution() == fix.hdop_centi,
{
}

/// Coordinates are within the range of `i32`, and satellites within that of `u8`.
pub proof fn lemma_values_fit(sample: LocationSample)
    ensures
        i32::MIN <= sample.value(Field::Latitude) <= i32::MAX,
        i32::MIN <= sample.value(Field::Longitude) <= i32::MAX,
        0 <= sample.value(Field::Satellites) <= u8::MAX,
{
}

/// One value of every sample.
pub open spec fn column(samples: Seq<LocationSample>, field: Field) -> Seq<i64> {
    Seq::new(samples.len(), |i: int| samples[i].value(field))
}

/// The dilutions of the samples that have one.
pub open spec fn dilutions(samples: Seq<LocationSample>) -> Seq<i64>
    decreases samples.len(),
{
    if samples.len() == 0 {
        Seq::empty()
    } else {
        let before = dilutions(samples.drop_last());
        match samples.last().dilution() {
            Some(value) => before.push(value as i64),
            None => before,
        }
    }
}

/// The middle of the sorted values, the upper one where there are two.
pub open spec fn middle(values: Seq<i64>) -> int {
    order::sorted(values)[(values.len() / 2) as int] as int
}

/// The middle dilution, where any sample has one.
pub open spec fn median_dilution(samples: Seq<LocationSample>) -> Option<u16> {
    if dilutions(samples).len() == 0 {
        None
    } else {
        Some(middle(dilutions(samples)) as u16)
    }
}

/// Distance between the smallest and the largest value, held inside `i32`.
pub open spec fn spread(values: Seq<i64>) -> int {
    let ordered = order::sorted(values);
    arith::min(ordered[values.len() - 1] - ordered[0], i32::MAX as int)
}

/// Error estimate in meters: the spread of the fixes or what their dilution
/// suggests, and one meter at least.
pub open spec fn uncertainty(samples: Seq<LocationSample>) -> Option<u32> {
    if samples.len() == 0 {
        None
    } else {
        let spread_e7 = arith::max(
            spread(column(samples, Field::Latitude)),
            spread(column(samples, Field::Longitude)),
        );
        let spread_m = arith::min(spread_e7 * LATITUDE_METERS_PER_DEGREE, u32::MAX as int)
            / 10_000_000;
        let hdop_m = match median_dilution(samples) {
            Some(hdop) => hdop * 5 / 100,
            None => 0,
        };
        Some(arith::max(arith::max(spread_m, hdop_m), 1) as u32)
    }
}

/// Whether a fix is usable.
pub open spec fn usable(config: LocationConfig, fix: GpsFix) -> bool {
    &&& -LATITUDE_LIMIT_E7 <= fix.latitude.degrees_e7 <= LATITUDE_LIMIT_E7
    &&& -LONGITUDE_LIMIT_E7 <= fix.longitude.degrees_e7 <= LONGITUDE_LIMIT_E7
    &&& fix.satellites >= config.minimum_satellites
    &&& match (config.maximum_hdop_centi, fix.hdop_centi) {
        (Some(limit), Some(hdop)) => hdop <= limit,
        _ => true,
    }
}

/// A filter as contracts speak of it.
#[verifier::ext_equal]
pub struct LocationModel {
    /// The latest usable fixes, oldest first.
    pub history: Seq<LocationSample>,
    pub config: LocationConfig,
    pub state: LocationState,
}

/// The latest samples with one more.
pub open spec fn extended(history: Seq<LocationSample>, sample: LocationSample, capacity: int) -> Seq<
    LocationSample,
> {
    if history.len() == capacity {
        history.drop_first().push(sample)
    } else {
        history.push(sample)
    }
}

/// The position that samples give, at their latest fix.
pub open spec fn position(
    history: Seq<LocationSample>,
    config: LocationConfig,
    capacity: int,
    fix: GpsFix,
    seen: u64,
) -> LocationState {
    let valid = history.len() >= arith::min(config.minimum_accepted_fixes as int, capacity);
    LocationState {
        valid,
        latitude: Coordinate { degrees_e7: middle(column(history, Field::Latitude)) as i32 },
        longitude: Coordinate { degrees_e7: middle(column(history, Field::Longitude)) as i32 },
        source: if valid {
            LocationSource::Gps
        } else {
            LocationSource::NoSource
        },
        fix_count_used: arith::min(history.len() as int, u8::MAX as int) as u8,
        total_fix_count_seen: seen,
        last_fix_system_time: fix.system_timestamp,
        last_fix_utc_time: Some(fix.utc_time),
        hdop_centi: median_dilution(history),
        satellites: Some(middle(column(history, Field::Satellites)) as u8),
        uncertainty_meters: uncertainty(history),
    }
}

/// One more fix seen.
pub open spec fn seen_after(m: LocationModel) -> u64 {
    if m.state.total_fix_count_seen == u64::MAX {
        u64::MAX
    } else {
        (m.state.total_fix_count_seen + 1) as u64
    }
}

/// A filter after a fix.
pub open spec fn ingested(m: LocationModel, fix: GpsFix, capacity: int) -> LocationModel {
    if !usable(m.config, fix) || capacity == 0 {
        LocationModel {
            state: LocationState { total_fix_count_seen: seen_after(m), ..m.state },
            ..m
        }
    } else {
        let history = extended(m.history, sample_of(fix), capacity);
        LocationModel {
            history,
            state: position(history, m.config, capacity, fix, seen_after(m)),
            ..m
        }
    }
}

/// The position filter.
pub struct LocationFilter<const HISTORY: usize> {
    history: Vec<LocationSample>,
    config: LocationConfig,
    state: LocationState,
}

impl<const HISTORY: usize> View for LocationFilter<HISTORY> {
    type V = LocationModel;

    closed spec fn view(&self) -> LocationModel {
        LocationModel { history: self.history@, config: self.config, state: self.state }
    }
}

impl<const HISTORY: usize> LocationFilter<HISTORY> {
    /// What holds of every filter: no more samples than its history takes, and
    /// the position says how many it rests on, as far as its field can count.
    pub open spec fn well_formed(self) -> bool {
        &&& self@.history.len() <= HISTORY
        &&& self@.state.fix_count_used == arith::min(self@.history.len() as int, 255)
    }

    /// A filter that has seen no fix.
    pub fn new(config: LocationConfig) -> (filter: Self)
        ensures
            filter.well_formed(),
            filter@ == (LocationModel {
                history: Seq::empty(),
                config,
                state: types::no_location(),
            }),
    {
        LocationFilter { history: Vec::new(), config, state: LocationState::invalid() }
    }

    /// The present position.
    pub fn state(&self) -> (state: LocationState)
        ensures
            state == self@.state,
    {
        self.state
    }

    /// Takes a fix in; gives the position after it.
    pub fn ingest(&mut self, fix: GpsFix) -> (state: LocationState)
        requires
            old(self).well_formed(),
        ensures
            final(self).well_formed(),
            final(self)@ == ingested(old(self)@, fix, HISTORY as int),
            state == final(self)@.state,
    {
        let seen: u64 = self.state.total_fix_count_seen.saturating_add(1);
        if !self.accepts(fix) || HISTORY == 0 {
            self.state.total_fix_count_seen = seen;
            return self.state;
        }
        if self.history.len() == HISTORY {
            let ghost before = self.history@;
            self.history.remove(0);
            assert(self.history@ =~= before.drop_first());
        }
        self.history.push(LocationSample::from_fix(fix));
        let latitude: i64 = median_field(&self.history, Field::Latitude);
        let longitude: i64 = median_field(&self.history, Field::Longitude);
        let satellites: i64 = median_field(&self.history, Field::Satellites);
        let accepted: usize = self.history.len();
        let needed: usize = if self.config.minimum_accepted_fixes < HISTORY {
            self.config.minimum_accepted_fixes
        } else {
            HISTORY
        };
        let valid: bool = accepted >= needed;
        self.state = LocationState {
            valid,
            latitude: Coordinate { degrees_e7: latitude as i32 },
            longitude: Coordinate { degrees_e7: longitude as i32 },
            source: if valid {
                LocationSource::Gps
            } else {
                LocationSource::NoSource
            },
            fix_count_used: if accepted < 255 {
                accepted as u8
            } else {
                255
            },
            total_fix_count_seen: seen,
            last_fix_system_time: fix.system_timestamp,
            last_fix_utc_time: Some(fix.utc_time),
            hdop_centi: median_optional_u16(&self.history),
            satellites: Some(satellites as u8),
            uncertainty_meters: estimate_uncertainty_meters(&self.history),
        };
        self.state
    }

    /// Whether a fix is usable.
    fn accepts(&self, fix: GpsFix) -> (accepted: bool)
        ensures
            accepted == usable(self@.config, fix),
    {
        let sharp: bool = match (self.config.maximum_hdop_centi, fix.hdop_centi) {
            (Some(limit), Some(hdop)) => hdop <= limit,
            _ => true,
        };
        valid_coordinate(fix.latitude, LATITUDE_LIMIT_E7) && valid_coordinate(
            fix.longitude,
            LONGITUDE_LIMIT_E7,
        ) && fix.satellites >= self.config.minimum_satellites && sharp
    }
}

/// Whether a coordinate lies within a limit.
fn valid_coordinate(coordinate: Coordinate, limit: i32) -> (valid: bool)
    requires
        limit >= 0,
    ensures
        valid == (-limit <= coordinate.degrees_e7 <= limit),
{
    -limit <= coordinate.degrees_e7 && coordinate.degrees_e7 <= limit
}

/// One value of every sample, sorted.
fn sorted_column(samples: &Vec<LocationSample>, field: Field) -> (values: Vec<i64>)
    ensures
        values@ == order::sorted(column(samples@, field)),
        values@.len() == samples@.len(),
        forall|i: int| 0 <= i < values@.len() ==> i32::MIN <= #[trigger] values@[i] <= i32::MAX,
        field == Field::Satellites ==> forall|i: int|
            0 <= i < values@.len() ==> 0 <= #[trigger] values@[i] <= u8::MAX,
{
    let mut values: Vec<i64> = Vec::new();
    let mut index: usize = 0;
    while index < samples.len()
        invariant
            index <= samples@.len(),
            values@ == column(samples@, field).take(index as int),
        decreases samples.len() - index,
    {
        let sample: LocationSample = samples[index];
        let value: i64 = match field {
            Field::Latitude => sample.latitude.degrees_e7 as i64,
            Field::Longitude => sample.longitude.degrees_e7 as i64,
            Field::Satellites => sample.satellites as i64,
        };
        values.push(value);
        index = index + 1;
        assert(values@ =~= column(samples@, field).take(index as int));
    }
    let ghost all = column(samples@, field);
    assert(values@ =~= all);
    insertion_sort(&mut values);
    proof {
        order::lemma_sorted(all);
        assert forall|i: int| 0 <= i < values@.len() implies i32::MIN <= #[trigger] values@[i]
            <= i32::MAX && (field == Field::Satellites ==> 0 <= values@[i] <= u8::MAX) by {
            assert(all.contains(values@[i]));
        }
    }
    values
}

/// The middle of one value of the samples.
fn median_field(samples: &Vec<LocationSample>, field: Field) -> (value: i64)
    requires
        samples@.len() > 0,
    ensures
        value == middle(column(samples@, field)),
        i32::MIN <= value <= i32::MAX,
        field == Field::Satellites ==> 0 <= value <= u8::MAX,
{
    let values: Vec<i64> = sorted_column(samples, field);
    values[samples.len() / 2]
}

/// The middle dilution of the samples that have one.
fn median_optional_u16(samples: &Vec<LocationSample>) -> (value: Option<u16>)
    ensures
        value == median_dilution(samples@),
{
    let mut values: Vec<i64> = Vec::new();
    let mut index: usize = 0;
    while index < samples.len()
        invariant
            index <= samples@.len(),
            values@ == dilutions(samples@.take(index as int)),
            forall|i: int| 0 <= i < values@.len() ==> 0 <= #[trigger] values@[i] <= u16::MAX,
        decreases samples.len() - index,
    {
        assert(samples@.take(index + 1).drop_last() =~= samples@.take(index as int));
        if let Some(value) = samples[index].hdop_centi {
            values.push(value as i64);
        }
        index = index + 1;
    }
    assert(samples@.take(index as int) =~= samples@);
    let ghost all = values@;
    let count: usize = values.len();
    if count == 0 {
        return None;
    }
    insertion_sort(&mut values);
    proof {
        order::lemma_sorted(all);
        assert(all.contains(values@[(count / 2) as int]));
    }
    Some(values[count / 2] as u16)
}

/// Distance between the smallest and the largest of one value.
fn spread_of(samples: &Vec<LocationSample>, field: Field) -> (distance: u32)
    requires
        samples@.len() > 0,
    ensures
        distance == spread(column(samples@, field)),
        distance <= i32::MAX,
{
    let values: Vec<i64> = sorted_column(samples, field);
    proof {
        order::lemma_sorted(column(samples@, field));
    }
    let distance: i64 = values[samples.len() - 1] - values[0];
    if distance > i32::MAX as i64 {
        i32::MAX as u32
    } else {
        distance as u32
    }
}

/// Error estimate in meters.
fn estimate_uncertainty_meters(samples: &Vec<LocationSample>) -> (meters: Option<u32>)
    ensures
        meters == uncertainty(samples@),
{
    if samples.len() == 0 {
        return None;
    }
    let latitude: u32 = spread_of(samples, Field::Latitude);
    let longitude: u32 = spread_of(samples, Field::Longitude);
    let spread_e7: u32 = if latitude > longitude {
        latitude
    } else {
        longitude
    };
    let scaled: u64 = spread_e7 as u64 * 111_320;
    let capped: u64 = if scaled > u32::MAX as u64 {
        u32::MAX as u64
    } else {
        scaled
    };
    let spread_m: u32 = (capped / 10_000_000) as u32;
    let hdop_m: u32 = match median_optional_u16(samples) {
        Some(hdop) => hdop as u32 * 5 / 100,
        None => 0,
    };
    let larger: u32 = if spread_m > hdop_m {
        spread_m
    } else {
        hdop_m
    };
    if larger > 1 {
        Some(larger)
    } else {
        Some(1)
    }
}

// ---- laws ------------------------------------------------------------------

/// A fix that is not usable changes nothing but the number of fixes seen.
pub proof fn law_unusable_fix_is_only_counted(m: LocationModel, fix: GpsFix, capacity: int)
    requires
        !usable(m.config, fix),
    ensures
        ingested(m, fix, capacity).history == m.history,
        ingested(m, fix, capacity).state == (LocationState {
            total_fix_count_seen: seen_after(m),
            ..m.state
        }),
{
}

/// A filter after several fixes.
pub open spec fn after_all(m: LocationModel, fixes: Seq<GpsFix>, capacity: int) -> LocationModel
    decreases fixes.len(),
{
    if fixes.len() == 0 {
        m
    } else {
        ingested(after_all(m, fixes.drop_last(), capacity), fixes.last(), capacity)
    }
}

/// The samples of the usable fixes.
pub open spec fn usable_samples(config: LocationConfig, fixes: Seq<GpsFix>) -> Seq<LocationSample>
    decreases fixes.len(),
{
    if fixes.len() == 0 {
        Seq::empty()
    } else {
        let before = usable_samples(config, fixes.drop_last());
        if usable(config, fixes.last()) {
            before.push(sample_of(fixes.last()))
        } else {
            before
        }
    }
}

/// The history holds the latest usable fixes, as many as it takes, in the order
/// in which they came.
pub proof fn law_history_holds_the_latest_fixes(
    config: LocationConfig,
    fixes: Seq<GpsFix>,
    capacity: int,
)
    requires
        capacity > 0,
    ensures
        ({
            let fresh = LocationModel {
                history: Seq::empty(),
                config,
                state: types::no_location(),
            };
            let all = usable_samples(config, fixes);
            let after = after_all(fresh, fixes, capacity);
            &&& after.config == config
            &&& after.history == all.skip(arith::max(all.len() - capacity, 0))
        }),
    decreases fixes.len(),
{
    let fresh = LocationModel { history: Seq::empty(), config, state: types::no_location() };
    let all = usable_samples(config, fixes);
    let after = after_all(fresh, fixes, capacity);
    if fixes.len() == 0 {
        assert(after.history =~= all.skip(0));
    } else {
        law_history_holds_the_latest_fixes(config, fixes.drop_last(), capacity);
        assert(after.history =~= all.skip(arith::max(all.len() - capacity, 0)));
    }
}

/// Outliers in the minority do not move the position: where more than half of
/// the fixes lie between two bounds, so does the reported coordinate.
pub proof fn law_position_follows_the_majority(
    history: Seq<LocationSample>,
    field: Field,
    low: int,
    high: int,
)
    requires
        2 * order::count_between(column(history, field), low, high) > history.len(),
    ensures
        low <= middle(column(history, field)) <= high,
{
    order::law_majority_bounds_the_middle(column(history, field), low, high);
}

} // verus!
