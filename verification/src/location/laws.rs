//! Laws on the position filter: which fixes count, and what they amount to.
use crate::location::filter;
use crate::location::filter::{Field, LocationModel, LocationSample};
use crate::location::types::{GpsFix, LocationConfig, LocationSource, LocationState};
use crate::order;
use vstd::prelude::*;

verus! {

/// Whether a fix lies on the globe, has the satellites asked for, and is not known
/// to be too imprecise.
pub open spec fn is_good(config: LocationConfig, fix: GpsFix) -> bool {
    &&& -900_000_000 <= fix.latitude.degrees_e7 <= 900_000_000
    &&& -1_800_000_000 <= fix.longitude.degrees_e7 <= 1_800_000_000
    &&& fix.satellites >= config.minimum_satellites
    &&& config.maximum_hdop_centi is None || fix.hdop_centi is None || fix.hdop_centi->0
        <= config.maximum_hdop_centi->0
}

/// A good fix enters the history as its latest sample, with its own numbers, and
/// is counted in the position; where the history is full, the oldest sample makes
/// room for it.
pub proof fn law_good_fix_enters_the_history(m: LocationModel, fix: GpsFix, capacity: int)
    requires
        0 < capacity,
        m.history.len() <= capacity,
        is_good(m.config, fix),
    ensures
        ({
            let after = filter::ingested(m, fix, capacity);
            let count = after.history.len();
            &&& m.history.len() < capacity ==> count == m.history.len() + 1
                && after.history.drop_last() == m.history
            &&& m.history.len() == capacity ==> count == capacity && after.history.drop_last()
                == m.history.skip(1)
            &&& after.history.last().value(Field::Latitude) == fix.latitude.degrees_e7
            &&& after.history.last().value(Field::Longitude) == fix.longitude.degrees_e7
            &&& after.history.last().value(Field::Satellites) == fix.satellites
            &&& after.history.last().dilution() == fix.hdop_centi
            &&& after.config == m.config
            &&& count <= 255 ==> after.state.fix_count_used == count
            &&& count > 255 ==> after.state.fix_count_used == 255
            &&& after.state.last_fix_system_time == fix.system_timestamp
            &&& after.state.last_fix_utc_time == Some(fix.utc_time)
            &&& m.state.total_fix_count_seen < u64::MAX ==> after.state.total_fix_count_seen
                == m.state.total_fix_count_seen + 1
        }),
{
    filter::law_samples_keep_the_fix(fix);
    let after = filter::ingested(m, fix, capacity);
    if m.history.len() == capacity {
        assert(after.history.drop_last() =~= m.history.skip(1));
    } else {
        assert(after.history.drop_last() =~= m.history);
    }
}

/// Any other fix leaves the history and the position alone, and is only counted as
/// seen.
pub proof fn law_other_fixes_are_refused(m: LocationModel, fix: GpsFix, capacity: int)
    requires
        !is_good(m.config, fix),
        m.state.total_fix_count_seen < u64::MAX,
    ensures
        ({
            let after = filter::ingested(m, fix, capacity);
            &&& after.history == m.history
            &&& after.config == m.config
            &&& after.state == (LocationState {
                total_fix_count_seen: (m.state.total_fix_count_seen + 1) as u64,
                ..m.state
            })
        }),
{
}

/// North and south, and east and west, are treated alike.
pub proof fn law_hemispheres_are_alike(config: LocationConfig, first: GpsFix, second: GpsFix)
    requires
        first.latitude.degrees_e7 == second.latitude.degrees_e7 || first.latitude.degrees_e7
            == -second.latitude.degrees_e7,
        first.longitude.degrees_e7 == second.longitude.degrees_e7 || first.longitude.degrees_e7
            == -second.longitude.degrees_e7,
        first.satellites == second.satellites,
        first.hdop_centi == second.hdop_centi,
    ensures
        filter::usable(config, first) <==> filter::usable(config, second),
{
}

/// One value of every sample.
pub open spec fn values(history: Seq<LocationSample>, field: Field) -> Seq<i64> {
    Seq::new(history.len(), |i: int| history[i].value(field))
}

/// Whether a number is the middle of some values: one of them, with more than half
/// of them not above it and at least half not below it.
pub open spec fn is_middle(values: Seq<i64>, number: int) -> bool {
    &&& exists|i: int| 0 <= i < values.len() && #[trigger] values[i] == number
    &&& 2 * order::count_between(values, i64::MIN as int, number) > values.len()
    &&& 2 * order::count_between(values, number, i64::MAX as int) >= values.len()
}

/// The position is the middle of the latitudes, of the longitudes and of the
/// satellites in the history. It is valid, and from GPS, as soon as there are as
/// many fixes as are asked for, or as the history takes.
pub proof fn law_position_is_the_middle_of_the_history(
    m: LocationModel,
    fix: GpsFix,
    capacity: int,
)
    requires
        0 < capacity,
        m.history.len() <= capacity,
        is_good(m.config, fix),
    ensures
        ({
            let after = filter::ingested(m, fix, capacity);
            &&& is_middle(
                values(after.history, Field::Latitude),
                after.state.latitude.degrees_e7 as int,
            )
            &&& is_middle(
                values(after.history, Field::Longitude),
                after.state.longitude.degrees_e7 as int,
            )
            &&& after.state.satellites is Some
            &&& is_middle(
                values(after.history, Field::Satellites),
                after.state.satellites->0 as int,
            )
            &&& after.state.valid <==> after.history.len() >= m.config.minimum_accepted_fixes
                || after.history.len() == capacity
            &&& after.state.valid ==> after.state.source == LocationSource::Gps
            &&& !after.state.valid ==> after.state.source == LocationSource::NoSource
        }),
{
    let after = filter::ingested(m, fix, capacity);
    lemma_middle(after.history, Field::Latitude);
    lemma_middle(after.history, Field::Longitude);
    lemma_middle(after.history, Field::Satellites);
}

/// The middle of a column is a middle, and no larger or smaller than a value can be.
proof fn lemma_middle(history: Seq<LocationSample>, field: Field)
    requires
        history.len() > 0,
    ensures
        ({
            let number = filter::middle(filter::column(history, field));
            &&& is_middle(values(history, field), number)
            &&& field == Field::Satellites ==> 0 <= number <= u8::MAX
            &&& i32::MIN <= number <= i32::MAX
        }),
{
    let column = filter::column(history, field);
    let number = filter::middle(column);
    assert(column =~= values(history, field));
    order::law_middle_has_half_on_each_side(column);
    let i = choose|i: int| 0 <= i < column.len() && column[i] == number;
    assert(column[i] == number);
    filter::lemma_values_fit(history[i]);
}

/// The reported dilution is the middle one of the samples that have one, and there
/// is none where no sample has one.
pub proof fn law_dilution_is_the_middle_of_the_history(m: LocationModel, fix: GpsFix, capacity: int)
    requires
        0 < capacity,
        m.history.len() <= capacity,
        is_good(m.config, fix),
    ensures
        ({
            let after = filter::ingested(m, fix, capacity);
            match after.state.hdop_centi {
                Some(hdop) => {
                    &&& exists|i: int|
                        0 <= i < after.history.len() && (#[trigger] after.history[i]).dilution()
                            == Some(hdop)
                    &&& is_middle(filter::dilutions(after.history), hdop as int)
                },
                None => forall|i: int|
                    0 <= i < after.history.len() ==> (#[trigger] after.history[i]).dilution()
                        is None,
            }
        }),
{
    let history = filter::ingested(m, fix, capacity).history;
    lemma_dilutions(history);
    let all = filter::dilutions(history);
    if all.len() > 0 {
        order::law_middle_has_half_on_each_side(all);
        let hdop = order::sorted(all)[(all.len() / 2) as int];
        assert(all.contains(hdop));
        let i = choose|i: int|
            0 <= i < history.len() && (#[trigger] history[i]).dilution() is Some
                && history[i].dilution()->0 == hdop;
        assert(history[i].dilution() is Some);
        let k = choose|k: int| 0 <= k < all.len() && all[k] == hdop;
        assert(all[k] == hdop);
    }
}

/// A sample adds its dilution to the others where it has one.
pub proof fn law_samples_add_their_dilution(history: Seq<LocationSample>, sample: LocationSample)
    ensures
        sample.dilution() is None ==> filter::dilutions(history.push(sample))
            == filter::dilutions(history),
        sample.dilution() matches Some(hdop) ==> filter::dilutions(history.push(sample))
            == filter::dilutions(history).push(hdop as i64),
        filter::dilutions(Seq::empty()).len() == 0,
{
    assert(history.push(sample).drop_last() =~= history);
}

/// The dilutions are those of the samples.
proof fn lemma_dilutions(history: Seq<LocationSample>)
    ensures
        ({
            let all = filter::dilutions(history);
            &&& all.len() == 0 ==> forall|i: int|
                0 <= i < history.len() ==> (#[trigger] history[i]).dilution() is None
            &&& forall|hdop: i64| #[trigger]
                all.contains(hdop) ==> exists|i: int|
                    0 <= i < history.len() && (#[trigger] history[i]).dilution() is Some
                        && history[i].dilution()->0 == hdop
        }),
    decreases history.len(),
{
    if history.len() > 0 {
        let front = history.drop_last();
        lemma_dilutions(front);
        let before = filter::dilutions(front);
        let all = filter::dilutions(history);
        assert forall|i: int| 0 <= i < history.len() && all.len() == 0 implies (
        #[trigger] history[i]).dilution() is None by {
            if i < front.len() {
                assert(history[i] == front[i]);
            }
        }
        assert forall|hdop: i64| #[trigger] all.contains(hdop) implies exists|i: int|
            0 <= i < history.len() && (#[trigger] history[i]).dilution() is Some
                && history[i].dilution()->0 == hdop by {
            let k = choose|k: int| 0 <= k < all.len() && all[k] == hdop;
            if k < before.len() {
                assert(before[k] == hdop);
                assert(before.contains(hdop));
                let i = choose|i: int|
                    0 <= i < front.len() && (#[trigger] front[i]).dilution() is Some
                        && front[i].dilution()->0 == hdop;
                assert(history[i] == front[i]);
            } else {
                assert(history[history.len() - 1] == history.last());
            }
        }
    }
}

/// The error estimate is a meter at least, five meters at least for each unit of
/// the dilution, and covers how far any two fixes in the history lie apart along
/// either axis, at 111320 meters to the degree, as far as 429 meters.
pub proof fn law_error_estimate_covers_the_fixes(
    m: LocationModel,
    fix: GpsFix,
    capacity: int,
    i: int,
    j: int,
    field: Field,
)
    requires
        0 < capacity,
        m.history.len() <= capacity,
        is_good(m.config, fix),
        0 <= i < filter::ingested(m, fix, capacity).history.len(),
        0 <= j < filter::ingested(m, fix, capacity).history.len(),
        field == Field::Latitude || field == Field::Longitude,
    ensures
        ({
            let after = filter::ingested(m, fix, capacity);
            let meters = after.state.uncertainty_meters->0;
            let apart = after.history[i].value(field) - after.history[j].value(field);
            &&& after.state.uncertainty_meters is Some
            &&& meters >= 1
            &&& after.state.hdop_centi matches Some(hdop) ==> hdop * 5 < (meters + 1) * 100
            &&& apart * 111_320 < (meters + 1) * 10_000_000 || meters >= 429
        }),
{
    let history = filter::ingested(m, fix, capacity).history;
    let column = filter::column(history, field);
    order::law_ends_enclose_the_values(column, i);
    order::law_ends_enclose_the_values(column, j);
    assert(column[i] == history[i].value(field));
    assert(column[j] == history[j].value(field));
    lemma_spread_fits(filter::column(history, Field::Latitude));
    lemma_spread_fits(filter::column(history, Field::Longitude));
}

/// The spread is not negative.
proof fn lemma_spread_fits(column: Seq<i64>)
    requires
        column.len() > 0,
    ensures
        0 <= filter::spread(column) <= i32::MAX,
{
    order::law_ends_enclose_the_values(column, 0);
}

/// The error estimate is no larger than the fixes and their dilution make it: what
/// bounds the distances and the dilution bounds it.
pub proof fn law_error_estimate_is_not_exaggerated(
    m: LocationModel,
    fix: GpsFix,
    capacity: int,
    apart: int,
    hdop: int,
)
    requires
        0 < capacity,
        m.history.len() <= capacity,
        is_good(m.config, fix),
        forall|i: int, j: int, field: Field|
            0 <= i < filter::ingested(m, fix, capacity).history.len() && 0 <= j
                < filter::ingested(m, fix, capacity).history.len() && (field == Field::Latitude
                || field == Field::Longitude) ==> (#[trigger] filter::ingested(
                m,
                fix,
                capacity,
            ).history[i].value(field)) - (#[trigger] filter::ingested(
                m,
                fix,
                capacity,
            ).history[j].value(field)) <= apart,
        filter::ingested(m, fix, capacity).state.hdop_centi matches Some(own) ==> own <= hdop,
    ensures
        ({
            let meters = filter::ingested(m, fix, capacity).state.uncertainty_meters->0;
            ||| meters == 1
            ||| meters * 10_000_000 <= apart * 111_320
            ||| meters * 100 <= hdop * 5
        }),
{
    let history = filter::ingested(m, fix, capacity).history;
    lemma_spread_within(history, Field::Latitude, apart);
    lemma_spread_within(history, Field::Longitude, apart);
}

/// The spread is the distance of two of the values.
proof fn lemma_spread_within(history: Seq<LocationSample>, field: Field, apart: int)
    requires
        history.len() > 0,
        forall|i: int, j: int|
            0 <= i < history.len() && 0 <= j < history.len() ==> (#[trigger] history[i].value(
                field,
            )) - (#[trigger] history[j].value(field)) <= apart,
    ensures
        0 <= filter::spread(filter::column(history, field)) <= apart,
{
    let column = filter::column(history, field);
    let ordered = order::sorted(column);
    order::law_ends_enclose_the_values(column, 0);
    let i = choose|i: int| 0 <= i < column.len() && column[i] == ordered[column.len() - 1];
    let j = choose|j: int| 0 <= j < column.len() && column[j] == ordered[0];
    assert(history[i].value(field) - history[j].value(field) <= apart);
}

} // verus!
