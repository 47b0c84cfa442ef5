//! Laws on derived readings: which inputs count, and what is made of them.
use crate::arith;
use crate::clock::{Duration, Instant};
use crate::sensors::axis::Vector3;
use crate::sensors::composites::ecompass;
use crate::sensors::composites::ecompass::ECompassSensor;
use crate::sensors::composites::heading;
use crate::sensors::composites::heading::HeadingSensor;
use crate::sensors::composites::inputs;
use crate::sensors::composites::inputs::{
    AngleQuestion, AngleRequest, Angles, CompositeStep, CompositeValidationError, SensorEntry,
};
use crate::sensors::composites::odba;
use crate::sensors::composites::odba::{DynamicVector, OdbaSensor};
use crate::sensors::composites::sensor;
use crate::sensors::composites::sensor::CompositeSensor;
use crate::sensors::composites::tilt;
use crate::sensors::composites::tilt::TiltSensor;
use crate::sensors::composites::vedba;
use crate::sensors::composites::vedba::VedbaSensor;
use crate::sensors::math;
use crate::sensors::types;
use crate::sensors::types::{
    ReadingStatus, SensorId, SensorKind, SensorOrigin, SensorReading, SensorValue,
};
use vstd::prelude::*;

verus! {

// ---- inputs ----------------------------------------------------------------

/// Whether the first reading of a sensor stands at a position and can be used: it
/// is current, has a value, and is not older than the maximum.
pub open spec fn usable_at(
    readings: Seq<SensorReading>,
    id: SensorId,
    k: int,
    now: Instant,
    maximum_age: Duration,
) -> bool {
    &&& first_at(readings, id, k)
    &&& readings[k].status == ReadingStatus::Current
    &&& readings[k].value is Some
    &&& readings[k].last_success is Some
    &&& now.ticks - readings[k].last_success->0.ticks <= maximum_age.ticks
}

/// Whether the first reading of a sensor stands at a position.
pub open spec fn first_at(readings: Seq<SensorReading>, id: SensorId, k: int) -> bool {
    &&& 0 <= k < readings.len()
    &&& readings[k].descriptor.id == id
    &&& forall|i: int| 0 <= i < k ==> (#[trigger] readings[i]).descriptor.id != id
}

/// A reading serves as an input exactly where it can be used, with its own value,
/// time and number.
pub proof fn law_usable_readings_are_inputs(
    readings: Seq<SensorReading>,
    id: SensorId,
    k: int,
    now: Instant,
    maximum_age: Duration,
)
    requires
        first_at(readings, id, k),
    ensures
        ({
            let input = inputs::input(readings, id, now, maximum_age);
            &&& input is Some <==> usable_at(readings, id, k, now, maximum_age)
            &&& input matches Some((value, observed_at, sequence)) ==> {
                &&& Some(value) == readings[k].value
                &&& Some(observed_at) == readings[k].last_success
                &&& sequence == readings[k].sequence
            }
        }),
{
    assert(types::found_at(readings, id, k));
    types::lemma_position(readings, id, k);
}

/// A sensor without a reading is no input.
pub proof fn law_unknown_sensors_are_no_inputs(
    readings: Seq<SensorReading>,
    id: SensorId,
    now: Instant,
    maximum_age: Duration,
)
    requires
        forall|i: int| 0 <= i < readings.len() ==> (#[trigger] readings[i]).descriptor.id != id,
    ensures
        inputs::input(readings, id, now, maximum_age) is None,
{
}

// ---- angles ----------------------------------------------------------------

/// Whether the length of a vector, rounded down, lies between two bounds, said of
/// the squares.
pub open spec fn length_between(vector: Vector3, minimum: u32, maximum: u32) -> bool {
    let squares = vector.x * vector.x + vector.y * vector.y + vector.z * vector.z;
    minimum * minimum <= squares < (maximum + 1) * (maximum + 1)
}

/// An acceleration is taken for gravity where its length lies between the bounds.
pub proof fn law_gravity_is_told_by_its_length(vector: Vector3, minimum: u32, maximum: u32)
    ensures
        tilt::is_gravity(vector, minimum, maximum) <==> length_between(vector, minimum, maximum),
{
    let squares = vector.x * vector.x + vector.y * vector.y + vector.z * vector.z;
    assert(squares >= 0) by (nonlinear_arith)
        requires
            squares == vector.x * vector.x + vector.y * vector.y + vector.z * vector.z,
    ;
    math::law_root_is_between_squares(squares);
    let root = math::root_of(squares);
    if minimum <= root {
        assert(minimum * minimum <= root * root) by (nonlinear_arith)
            requires
                0 <= minimum <= root,
        ;
    } else {
        assert((root + 1) * (root + 1) <= minimum * minimum) by (nonlinear_arith)
            requires
                0 <= root < minimum,
        ;
    }
    if root <= maximum {
        assert((root + 1) * (root + 1) <= (maximum + 1) * (maximum + 1)) by (nonlinear_arith)
            requires
                0 <= root <= maximum,
        ;
    } else {
        assert((maximum + 1) * (maximum + 1) <= root * root) by (nonlinear_arith)
            requires
                0 <= maximum < root,
        ;
    }
}

/// A usable acceleration that was not used yet, and is gravity alone, asks for the
/// angles of its vector on the board, at its own time. One that is not gravity
/// alone gives no tilt.
pub proof fn law_tilt_asks_for_gravity(
    sensor: TiltSensor,
    readings: Seq<SensorReading>,
    now: Instant,
    k: int,
    x: i32,
    y: i32,
    z: i32,
)
    requires
        usable_at(readings, sensor.config.acceleration_id, k, now, sensor.config.maximum_age),
        readings[k].value == Some(SensorValue::AccelerationMg { x, y, z }),
        sensor.last_sequence != Some(readings[k].sequence),
    ensures
        ({
            let (after, step) = tilt::tilt_step(sensor, readings, now);
            let board = sensor.config.axis_map.mapped(Vector3 { x, y, z });
            &&& after.config == sensor.config
            &&& after.last_sequence == Some(readings[k].sequence)
            &&& step == (if length_between(
                board,
                sensor.config.minimum_gravity_mg,
                sensor.config.maximum_gravity_mg,
            ) {
                CompositeStep::NeedsAngles(
                    AngleRequest {
                        question: AngleQuestion::Tilt(board),
                        correction_cdeg: 0,
                        observed_at: readings[k].last_success->0,
                    },
                )
            } else {
                CompositeStep::Unavailable
            })
        }),
{
    law_usable_readings_are_inputs(
        readings,
        sensor.config.acceleration_id,
        k,
        now,
        sensor.config.maximum_age,
    );
    law_gravity_is_told_by_its_length(
        sensor.config.axis_map.mapped(Vector3 { x, y, z }),
        sensor.config.minimum_gravity_mg,
        sensor.config.maximum_gravity_mg,
    );
}

/// A usable field that was not used yet asks for the direction of its vector on the
/// board with the iron taken out, at its own time; the declination is added to it.
pub proof fn law_heading_asks_for_the_calibrated_field(
    sensor: HeadingSensor,
    readings: Seq<SensorReading>,
    now: Instant,
    k: int,
    x: i32,
    y: i32,
    z: i32,
)
    requires
        usable_at(readings, sensor.config.magnetic_field_id, k, now, sensor.config.maximum_age),
        readings[k].value == Some(SensorValue::MagneticFieldNt { x, y, z }),
        sensor.last_sequence != Some(readings[k].sequence),
    ensures
        ({
            let (after, step) = heading::heading_step(sensor, readings, now);
            let board = sensor.config.axis_map.mapped(Vector3 { x, y, z });
            &&& after.config == sensor.config
            &&& after.last_sequence == Some(readings[k].sequence)
            &&& step == CompositeStep::NeedsAngles(
                AngleRequest {
                    question: AngleQuestion::Heading(sensor.config.calibration.corrected(board)),
                    correction_cdeg: sensor.config.declination_cdeg,
                    observed_at: readings[k].last_success->0,
                },
            )
        }),
{
    law_usable_readings_are_inputs(
        readings,
        sensor.config.magnetic_field_id,
        k,
        now,
        sensor.config.maximum_age,
    );
}

/// A usable acceleration and a usable field of about the same time, not used
/// together yet, ask for the direction of the field on the board, each mounted in
/// its own way and the iron taken out of the field, at the later of their times;
/// the declination is added to it. Too far apart in time, or where the acceleration
/// is not gravity alone, they give no direction.
pub proof fn law_compass_asks_for_both_vectors(
    sensor: ECompassSensor,
    readings: Seq<SensorReading>,
    now: Instant,
    i: int,
    k: int,
    felt: Vector3,
    field: Vector3,
)
    requires
        usable_at(readings, sensor.config.acceleration_id, i, now, sensor.config.maximum_age),
        usable_at(readings, sensor.config.magnetic_field_id, k, now, sensor.config.maximum_age),
        readings[i].value == Some(
            SensorValue::AccelerationMg { x: felt.x, y: felt.y, z: felt.z },
        ),
        readings[k].value == Some(
            SensorValue::MagneticFieldNt { x: field.x, y: field.y, z: field.z },
        ),
        sensor.last_sequences != Some((readings[i].sequence, readings[k].sequence)),
    ensures
        ({
            let (after, step) = ecompass::ecompass_step(sensor, readings, now);
            let config = sensor.config;
            let felt_at = readings[i].last_success->0;
            let field_at = readings[k].last_success->0;
            let near = felt_at.ticks - field_at.ticks <= config.maximum_skew.ticks
                && field_at.ticks - felt_at.ticks <= config.maximum_skew.ticks;
            let board = config.acceleration_axis_map.mapped(felt);
            &&& after.config == config
            &&& !near ==> after == sensor && step == CompositeStep::Unavailable
            &&& near ==> after.last_sequences == Some(
                (readings[i].sequence, readings[k].sequence),
            )
            &&& near ==> step == (if length_between(
                board,
                config.minimum_gravity_mg,
                config.maximum_gravity_mg,
            ) {
                CompositeStep::NeedsAngles(
                    AngleRequest {
                        question: AngleQuestion::CompensatedHeading {
                            acceleration: board,
                            field: config.magnetic_calibration.corrected(
                                config.magnetic_axis_map.mapped(field),
                            ),
                        },
                        correction_cdeg: config.declination_cdeg,
                        observed_at: if felt_at.ticks >= field_at.ticks {
                            felt_at
                        } else {
                            field_at
                        },
                    },
                )
            } else {
                CompositeStep::Unavailable
            })
        }),
{
    let config = sensor.config;
    law_usable_readings_are_inputs(readings, config.acceleration_id, i, now, config.maximum_age);
    law_usable_readings_are_inputs(readings, config.magnetic_field_id, k, now, config.maximum_age);
    law_gravity_is_told_by_its_length(
        config.acceleration_axis_map.mapped(felt),
        config.minimum_gravity_mg,
        config.maximum_gravity_mg,
    );
}

/// The angles of a tilt are its roll and its pitch; any other answer is a direction
/// that is turned by the correction and brought into a full turn. Either has the
/// time of the question.
pub proof fn law_answers_become_values(request: AngleRequest, angles: Angles)
    ensures
        ({
            let sample = inputs::answered(request, angles);
            &&& sample.observed_at == request.observed_at
            &&& request.question is Tilt ==> sample.value == (SensorValue::TiltCentiDegrees {
                roll: angles.first,
                pitch: angles.second,
            })
            &&& !(request.question is Tilt) ==> {
                &&& sample.value matches SensorValue::HeadingCentiDegrees(heading)
                &&& heading < 36_000
                &&& (angles.first + request.correction_cdeg - heading) % 36_000 == 0
            }
        }),
{
    math::law_correction_turns_the_angle(angles.first as int, request.correction_cdeg as int);
}

// ---- moving parts ----------------------------------------------------------

/// The estimate of gravity moves from where it was toward a new acceleration by the
/// filter's share of the distance, in thousandths and rounded toward zero.
pub proof fn law_gravity_moves_by_its_share(gravity: int, measured: int, alpha_permille: int)
    requires
        0 <= alpha_permille <= 1_000,
    ensures
        ({
            let moved = odba::filtered(gravity, measured, alpha_permille) - gravity;
            let share = (measured - gravity) * alpha_permille;
            &&& measured >= gravity ==> 0 <= moved && 1_000 * moved <= share < 1_000 * (moved + 1)
            &&& measured <= gravity ==> moved <= 0 && 1_000 * (moved - 1) < share <= 1_000 * moved
        }),
{
    let share = (measured - gravity) * alpha_permille;
    assert(measured >= gravity ==> share >= 0) by (nonlinear_arith)
        requires
            share == (measured - gravity) * alpha_permille,
            alpha_permille >= 0,
    ;
    assert(measured <= gravity ==> share <= 0) by (nonlinear_arith)
        requires
            share == (measured - gravity) * alpha_permille,
            alpha_permille >= 0,
    ;
    arith::lemma_trunc_div_bounded(share, 1_000);
}

/// The first acceleration is taken for gravity whole; after that each axis of the
/// estimate follows the same axis of the acceleration. What the new estimate does
/// not explain is the moving part.
pub proof fn law_moving_part_is_what_gravity_leaves(
    gravity: Option<Vector3>,
    measured: Vector3,
    alpha_permille: int,
)
    requires
        0 <= alpha_permille <= 1_000,
    ensures
        ({
            let after = odba::gravity_after(gravity, measured, alpha_permille);
            let dynamic = odba::dynamic_part(gravity, measured, alpha_permille);
            &&& gravity is None ==> after == measured
            &&& gravity matches Some(before) ==> {
                &&& after.x == odba::filtered(before.x as int, measured.x as int, alpha_permille)
                &&& after.y == odba::filtered(before.y as int, measured.y as int, alpha_permille)
                &&& after.z == odba::filtered(before.z as int, measured.z as int, alpha_permille)
            }
            &&& dynamic.x == measured.x - after.x
            &&& dynamic.y == measured.y - after.y
            &&& dynamic.z == measured.z - after.z
        }),
{
    if let Some(before) = gravity {
        odba::law_gravity_lies_between(before.x as int, measured.x as int, alpha_permille);
        odba::law_gravity_lies_between(before.y as int, measured.y as int, alpha_permille);
        odba::law_gravity_lies_between(before.z as int, measured.z as int, alpha_permille);
    }
}

/// The overall acceleration is the sum of the magnitudes of the moving parts, as
/// far as it can be told. It is the same for a moving part and its opposite along
/// any axis, and nothing only where nothing moves.
pub proof fn law_overall_sums_the_axes(dynamic: DynamicVector, x: int, y: int, z: int)
    requires
        x >= 0,
        y >= 0,
        z >= 0,
        dynamic.x == x || dynamic.x == -x,
        dynamic.y == y || dynamic.y == -y,
        dynamic.z == z || dynamic.z == -z,
    ensures
        x + y + z <= u32::MAX ==> odba::overall(dynamic) == x + y + z,
        x + y + z > u32::MAX ==> odba::overall(dynamic) == u32::MAX,
{
}

/// The vectorial acceleration is the length of the moving part, rounded down.
pub proof fn law_vectorial_is_the_length(dynamic: DynamicVector)
    requires
        i32::MIN <= dynamic.x <= i32::MAX,
        i32::MIN <= dynamic.y <= i32::MAX,
        i32::MIN <= dynamic.z <= i32::MAX,
    ensures
        ({
            let length = vedba::length(dynamic) as int;
            let squares = dynamic.x * dynamic.x + dynamic.y * dynamic.y + dynamic.z * dynamic.z;
            length * length <= squares < (length + 1) * (length + 1)
        }),
{
    let squares = dynamic.x * dynamic.x + dynamic.y * dynamic.y + dynamic.z * dynamic.z;
    lemma_square_bounded(dynamic.x as int);
    lemma_square_bounded(dynamic.y as int);
    lemma_square_bounded(dynamic.z as int);
    math::law_root_is_between_squares(squares);
    let root = math::root_of(squares);
    assert(root <= u32::MAX) by (nonlinear_arith)
        requires
            root * root <= squares,
            squares <= 3 * 0x4000_0000_0000_0000,
            root >= 0,
    ;
}

/// The square of a 32-bit number.
proof fn lemma_square_bounded(value: int)
    requires
        i32::MIN <= value <= i32::MAX,
    ensures
        0 <= value * value <= 0x4000_0000_0000_0000,
{
    assert(0 <= value * value <= 0x4000_0000_0000_0000) by (nonlinear_arith)
        requires
            -0x8000_0000 <= value <= 0x8000_0000,
    ;
}

/// A usable acceleration that was not used yet gives the overall acceleration of
/// its vector on the board, at its own time, and moves the estimate of gravity.
pub proof fn law_overall_acceleration_is_derived(
    sensor: OdbaSensor,
    readings: Seq<SensorReading>,
    now: Instant,
    k: int,
    x: i32,
    y: i32,
    z: i32,
)
    requires
        usable_at(readings, sensor.config.acceleration_id, k, now, sensor.config.maximum_age),
        readings[k].value == Some(SensorValue::AccelerationMg { x, y, z }),
        sensor.last_sequence != Some(readings[k].sequence),
    ensures
        ({
            let (after, step) = odba::odba_step(sensor, readings, now);
            let board = sensor.config.axis_map.mapped(Vector3 { x, y, z });
            let alpha = sensor.config.static_filter_alpha_permille as int;
            &&& after.config == sensor.config
            &&& after.last_sequence == Some(readings[k].sequence)
            &&& after.gravity == Some(odba::gravity_after(sensor.gravity, board, alpha))
            &&& step matches CompositeStep::Updated(sample)
            &&& sample.observed_at == readings[k].last_success->0
            &&& sample.value == SensorValue::DynamicAccelerationMg(
                odba::overall(odba::dynamic_part(sensor.gravity, board, alpha)),
            )
        }),
{
    law_usable_readings_are_inputs(
        readings,
        sensor.config.acceleration_id,
        k,
        now,
        sensor.config.maximum_age,
    );
}

/// A usable acceleration that was not used yet gives the vectorial acceleration of
/// its vector on the board, at its own time, and moves the estimate of gravity.
pub proof fn law_vectorial_acceleration_is_derived(
    sensor: VedbaSensor,
    readings: Seq<SensorReading>,
    now: Instant,
    k: int,
    x: i32,
    y: i32,
    z: i32,
)
    requires
        usable_at(readings, sensor.config.acceleration_id, k, now, sensor.config.maximum_age),
        readings[k].value == Some(SensorValue::AccelerationMg { x, y, z }),
        sensor.last_sequence != Some(readings[k].sequence),
    ensures
        ({
            let (after, step) = vedba::vedba_step(sensor, readings, now);
            let board = sensor.config.axis_map.mapped(Vector3 { x, y, z });
            let alpha = sensor.config.static_filter_alpha_permille as int;
            &&& after.config == sensor.config
            &&& after.last_sequence == Some(readings[k].sequence)
            &&& after.gravity == Some(odba::gravity_after(sensor.gravity, board, alpha))
            &&& step matches CompositeStep::Updated(sample)
            &&& sample.observed_at == readings[k].last_success->0
            &&& sample.value == SensorValue::DynamicAccelerationMg(
                vedba::length(odba::dynamic_part(sensor.gravity, board, alpha)),
            )
        }),
{
    law_usable_readings_are_inputs(
        readings,
        sensor.config.acceleration_id,
        k,
        now,
        sensor.config.maximum_age,
    );
}

// ---- any derived reading ---------------------------------------------------

/// Whether a sensor has used its input, or both its inputs, as they are now.
pub open spec fn has_used(sensor: CompositeSensor, first: u64, second: u64) -> bool {
    match sensor {
        CompositeSensor::Tilt(sensor) => sensor.last_sequence == Some(first),
        CompositeSensor::Heading(sensor) => sensor.last_sequence == Some(first),
        CompositeSensor::ECompass(sensor) => sensor.last_sequences == Some((first, second)),
        CompositeSensor::Vedba(sensor) => sensor.last_sequence == Some(first),
        CompositeSensor::Odba(sensor) => sensor.last_sequence == Some(first),
    }
}

/// The inputs of a sensor, and how old they may be. One with a single input has it
/// in both places.
pub open spec fn inputs_of(sensor: CompositeSensor) -> (SensorId, SensorId, Duration) {
    match sensor {
        CompositeSensor::Tilt(sensor) => (
            sensor.config.acceleration_id,
            sensor.config.acceleration_id,
            sensor.config.maximum_age,
        ),
        CompositeSensor::Heading(sensor) => (
            sensor.config.magnetic_field_id,
            sensor.config.magnetic_field_id,
            sensor.config.maximum_age,
        ),
        CompositeSensor::ECompass(sensor) => (
            sensor.config.acceleration_id,
            sensor.config.magnetic_field_id,
            sensor.config.maximum_age,
        ),
        CompositeSensor::Vedba(sensor) => (
            sensor.config.acceleration_id,
            sensor.config.acceleration_id,
            sensor.config.maximum_age,
        ),
        CompositeSensor::Odba(sensor) => (
            sensor.config.acceleration_id,
            sensor.config.acceleration_id,
            sensor.config.maximum_age,
        ),
    }
}

/// Without a usable input a sensor gives nothing and remembers what it did, and
/// inputs that it has used already change nothing.
pub proof fn law_missing_and_used_inputs_change_nothing(
    composite: CompositeSensor,
    readings: Seq<SensorReading>,
    now: Instant,
    i: int,
    k: int,
)
    requires
        first_at(readings, inputs_of(composite).0, i),
        first_at(readings, inputs_of(composite).1, k),
    ensures
        ({
            let (first, second, maximum_age) = inputs_of(composite);
            let (after, step) = sensor::composite_step(composite, readings, now);
            let usable = usable_at(readings, first, i, now, maximum_age) && usable_at(
                readings,
                second,
                k,
                now,
                maximum_age,
            );
            &&& !usable ==> after == composite && step == CompositeStep::Unavailable
            &&& step == CompositeStep::NoChange ==> after == composite && has_used(
                composite,
                readings[i].sequence,
                readings[k].sequence,
            )
            &&& usable && !(composite is ECompass) && has_used(
                composite,
                readings[i].sequence,
                readings[k].sequence,
            ) ==> step == CompositeStep::NoChange
        }),
{
    let (first, second, maximum_age) = inputs_of(composite);
    law_usable_readings_are_inputs(readings, first, i, now, maximum_age);
    law_usable_readings_are_inputs(readings, second, k, now, maximum_age);
    match composite {
        CompositeSensor::ECompass(_) => {},
        _ => {
            assert(i == k) by {
                if i < k {
                    assert(readings[i].descriptor.id != second);
                } else if k < i {
                    assert(readings[k].descriptor.id != first);
                }
            }
        },
    }
}

/// A derived reading has the name that its parameters give it, and says what it
/// tells and that it is derived.
pub proof fn law_derived_readings_are_named(composite: CompositeSensor)
    ensures
        ({
            let descriptor = sensor::descriptor_of(composite);
            &&& descriptor.origin == SensorOrigin::Composite
            &&& match composite {
                CompositeSensor::Tilt(sensor) => descriptor.kind == SensorKind::Tilt
                    && descriptor.id == sensor.config.output_id,
                CompositeSensor::Heading(sensor) => descriptor.kind == SensorKind::Heading
                    && descriptor.id == sensor.config.output_id,
                CompositeSensor::ECompass(sensor) => descriptor.kind
                    == SensorKind::TiltCompensatedHeading && descriptor.id
                    == sensor.config.output_id,
                CompositeSensor::Vedba(sensor) => descriptor.kind == SensorKind::Vedba
                    && descriptor.id == sensor.config.output_id,
                CompositeSensor::Odba(sensor) => descriptor.kind == SensorKind::Odba
                    && descriptor.id == sensor.config.output_id,
            }
        }),
{
}

/// Whether the first entry of a sensor stands at a position.
pub open spec fn listed_at(entries: Seq<SensorEntry>, id: SensorId, k: int) -> bool {
    &&& 0 <= k < entries.len()
    &&& entries[k].id == id
    &&& forall|i: int| 0 <= i < k ==> (#[trigger] entries[i]).id != id
}

/// A listed sensor has one entry.
proof fn lemma_listed(entries: Seq<SensorEntry>, id: SensorId, k: int)
    requires
        listed_at(entries, id, k),
    ensures
        inputs::has_entry(entries, id),
        inputs::entry(entries, id) == entries[k],
{
    assert(inputs::entry_at(entries, id, k));
    let other = choose|i: int| inputs::entry_at(entries, id, i);
    if other < k {
        assert(entries[other].id != id);
    } else if k < other {
        assert(entries[k].id != id);
    }
}

/// A sensor serves as an input of a kind where it is listed as one of that kind; the
/// refusal says what is wrong otherwise.
pub proof fn law_inputs_are_listed_with_their_kind(
    entries: Seq<SensorEntry>,
    id: SensorId,
    expected: SensorKind,
    k: int,
)
    requires
        listed_at(entries, id, k) || forall|i: int|
            0 <= i < entries.len() ==> (#[trigger] entries[i]).id != id,
    ensures
        match inputs::input_error(entries, id, expected) {
            None => listed_at(entries, id, k) && entries[k].kind == expected,
            Some(CompositeValidationError::MissingDependency(missing)) => missing == id
                && !listed_at(entries, id, k),
            Some(
                CompositeValidationError::WrongDependencyKind { id: wrong, expected: asked, observed },
            ) => wrong == id && asked == expected && listed_at(entries, id, k) && observed
                == entries[k].kind && observed != expected,
            Some(_) => false,
        },
{
    if listed_at(entries, id, k) {
        lemma_listed(entries, id, k);
    }
}

/// A sensor of dynamic acceleration can be set up where its filter takes over more
/// than nothing and no more than all, and its input is a physical acceleration read
/// at least as often as asked.
pub proof fn law_dynamic_sensors_need_a_fast_input(
    entries: Seq<SensorEntry>,
    id: SensorId,
    alpha_permille: u16,
    maximum_interval: Duration,
    k: int,
)
    requires
        listed_at(entries, id, k),
    ensures
        odba::dynamic_error(entries, id, alpha_permille, maximum_interval) is None <==> {
            &&& entries[k].kind == SensorKind::Acceleration
            &&& 1 <= alpha_permille <= 1_000
            &&& maximum_interval.ticks > 0
            &&& entries[k].interval is Some
            &&& entries[k].interval->0.ticks <= maximum_interval.ticks
        },
{
    lemma_listed(entries, id, k);
}

/// A sensor of angles can be set up where each input is listed with its kind and
/// the bounds of gravity leave room between them.
pub proof fn law_angle_sensors_need_their_inputs(
    composite: CompositeSensor,
    entries: Seq<SensorEntry>,
    i: int,
    k: int,
)
    requires
        listed_at(entries, inputs_of(composite).0, i),
        listed_at(entries, inputs_of(composite).1, k),
    ensures
        sensor::setup_error(composite, entries) is None <==> match composite {
            CompositeSensor::Tilt(sensor) => entries[i].kind == SensorKind::Acceleration
                && sensor.config.minimum_gravity_mg < sensor.config.maximum_gravity_mg,
            CompositeSensor::Heading(sensor) => entries[i].kind == SensorKind::MagneticField,
            CompositeSensor::ECompass(sensor) => entries[i].kind == SensorKind::Acceleration
                && entries[k].kind == SensorKind::MagneticField && sensor.config.minimum_gravity_mg
                < sensor.config.maximum_gravity_mg,
            CompositeSensor::Vedba(sensor) => odba::dynamic_error(
                entries,
                sensor.config.acceleration_id,
                sensor.config.static_filter_alpha_permille,
                sensor.config.maximum_input_interval,
            ) is None,
            CompositeSensor::Odba(sensor) => odba::dynamic_error(
                entries,
                sensor.config.acceleration_id,
                sensor.config.static_filter_alpha_permille,
                sensor.config.maximum_input_interval,
            ) is None,
        },
{
    lemma_listed(entries, inputs_of(composite).0, i);
    lemma_listed(entries, inputs_of(composite).1, k);
}

} // verus!
