//! Mounting of a sensor and calibration of a magnetometer.
use crate::arith;
use vstd::prelude::*;

verus! {

/// A direction along one of the axes.
#[derive(Clone, Copy, Debug, PartialEq, Eq, Structural)]
pub enum SignedAxis {
    X,
    NegX,
    Y,
    NegY,
    Z,
    NegZ,
}

/// A vector.
#[derive(Clone, Copy, Debug, PartialEq, Eq, Structural)]
pub struct Vector3 {
    pub x: i32,
    pub y: i32,
    pub z: i32,
}

impl Default for Vector3 {
    fn default() -> (vector: Self)
        ensures
            vector == (Vector3 { x: 0, y: 0, z: 0 }),
    {
        Vector3 { x: 0, y: 0, z: 0 }
    }
}

/// The opposite of a number, held inside its range.
pub open spec fn opposite(value: i32) -> i32 {
    if value == i32::MIN {
        i32::MAX
    } else {
        (-value) as i32
    }
}

/// The opposite of a number, held inside its range.
fn saturating_neg(value: i32) -> (result: i32)
    ensures
        result == opposite(value),
{
    if value == i32::MIN {
        i32::MAX
    } else {
        -value
    }
}

impl SignedAxis {
    /// The part of a vector along the direction.
    pub open spec fn of(self, value: Vector3) -> i32 {
        match self {
            SignedAxis::X => value.x,
            SignedAxis::NegX => opposite(value.x),
            SignedAxis::Y => value.y,
            SignedAxis::NegY => opposite(value.y),
            SignedAxis::Z => value.z,
            SignedAxis::NegZ => opposite(value.z),
        }
    }

    /// The part of a vector along the direction.
    fn select(self, value: Vector3) -> (part: i32)
        ensures
            part == self.of(value),
    {
        match self {
            SignedAxis::X => value.x,
            SignedAxis::NegX => saturating_neg(value.x),
            SignedAxis::Y => value.y,
            SignedAxis::NegY => saturating_neg(value.y),
            SignedAxis::Z => value.z,
            SignedAxis::NegZ => saturating_neg(value.z),
        }
    }
}

/// How a sensor is mounted: which of its directions are the board's.
#[derive(Clone, Copy, Debug, PartialEq, Eq, Structural)]
pub struct AxisMap {
    pub x: SignedAxis,
    pub y: SignedAxis,
    pub z: SignedAxis,
}

/// A sensor mounted along the board.
pub open spec fn straight() -> AxisMap {
    AxisMap { x: SignedAxis::X, y: SignedAxis::Y, z: SignedAxis::Z }
}

impl AxisMap {
    /// A vector of the sensor in the board's directions.
    pub open spec fn mapped(self, value: Vector3) -> Vector3 {
        Vector3 { x: self.x.of(value), y: self.y.of(value), z: self.z.of(value) }
    }

    /// A sensor mounted along the board.
    pub fn identity() -> (map: Self)
        ensures
            map == straight(),
    {
        AxisMap { x: SignedAxis::X, y: SignedAxis::Y, z: SignedAxis::Z }
    }

    /// A vector of the sensor in the board's directions.
    pub fn apply(self, value: Vector3) -> (result: Vector3)
        ensures
            result == self.mapped(value),
    {
        Vector3 {
            x: self.x.select(value),
            y: self.y.select(value),
            z: self.z.select(value),
        }
    }
}

impl Default for AxisMap {
    fn default() -> (map: Self)
        ensures
            map == straight(),
    {
        AxisMap::identity()
    }
}

/// Correction of a magnetometer for the iron around it.
#[derive(Clone, Copy, Debug, PartialEq, Eq)]
pub struct MagneticCalibration {
    pub hard_iron_offset_nt: Vector3,
    /// Soft-iron correction matrix by rows, in 32768ths.
    pub soft_iron_q15: [[i32; 3]; 3],
}

/// A number moved into the range of `i32`.
pub open spec fn clamped_i32(value: int) -> i32 {
    arith::clamp(value, i32::MIN as int, i32::MAX as int) as i32
}

impl MagneticCalibration {
    /// One row of the correction applied to a vector.
    pub open spec fn row(self, index: int, value: Vector3) -> i32 {
        let offset = self.hard_iron_offset_nt;
        let factors = self.soft_iron_q15@[index]@;
        clamped_i32(
            arith::trunc_div(
                factors[0] * (value.x - offset.x) + factors[1] * (value.y - offset.y) + factors[2]
                    * (value.z - offset.z),
                32_768,
            ),
        )
    }

    /// A vector without the offset and the distortion of the iron.
    pub open spec fn corrected(self, value: Vector3) -> Vector3 {
        Vector3 { x: self.row(0, value), y: self.row(1, value), z: self.row(2, value) }
    }

    /// Whether the correction changes nothing.
    pub open spec fn is_neutral(self) -> bool {
        &&& self.hard_iron_offset_nt == (Vector3 { x: 0, y: 0, z: 0 })
        &&& forall|i: int, j: int|
            0 <= i < 3 && 0 <= j < 3 ==> #[trigger] self.soft_iron_q15@[i]@[j] == (if i == j {
                32_768i32
            } else {
                0i32
            })
    }

    /// A correction that changes nothing.
    pub fn identity() -> (calibration: Self)
        ensures
            calibration.is_neutral(),
    {
        MagneticCalibration {
            hard_iron_offset_nt: Vector3 { x: 0, y: 0, z: 0 },
            soft_iron_q15: [[32_768, 0, 0], [0, 32_768, 0], [0, 0, 32_768]],
        }
    }

    /// One row of the correction applied to a vector, without overflow.
    fn apply_row(&self, index: usize, value: Vector3) -> (result: i32)
        requires
            index < 3,
        ensures
            result == self.row(index as int, value),
    {
        let offset: Vector3 = self.hard_iron_offset_nt;
        let factors: [i32; 3] = self.soft_iron_q15[index];
        let x: i128 = scaled(factors[0], value.x, offset.x);
        let y: i128 = scaled(factors[1], value.y, offset.y);
        let z: i128 = scaled(factors[2], value.z, offset.z);
        let sum: i128 = x + y + z;
        let result: i128 = sum / 32_768;
        if result < i32::MIN as i128 {
            i32::MIN
        } else if result > i32::MAX as i128 {
            i32::MAX
        } else {
            result as i32
        }
    }

    /// A vector without the offset and the distortion of the iron.
    pub fn apply(self, value: Vector3) -> (result: Vector3)
        ensures
            result == self.corrected(value),
    {
        Vector3 {
            x: self.apply_row(0, value),
            y: self.apply_row(1, value),
            z: self.apply_row(2, value),
        }
    }
}

/// A factor times the distance of two values.
fn scaled(factor: i32, value: i32, offset: i32) -> (product: i128)
    ensures
        product == factor * (value - offset),
        -0x8000_0000_0000_0000 <= product <= 0x8000_0000_0000_0000,
{
    let distance: i128 = value as i128 - offset as i128;
    proof {
        assert(-0x8000_0000_0000_0000 <= factor * distance <= 0x8000_0000_0000_0000)
            by (nonlinear_arith)
            requires
                -0x8000_0000 <= factor <= 0x7fff_ffff,
                -0xffff_ffff <= distance <= 0xffff_ffff,
        ;
    }
    factor as i128 * distance
}

impl Default for MagneticCalibration {
    fn default() -> (calibration: Self)
        ensures
            calibration.is_neutral(),
    {
        MagneticCalibration::identity()
    }
}

/// A straight mounting and a neutral correction change nothing.
pub proof fn law_identity_changes_nothing(calibration: MagneticCalibration, value: Vector3)
    requires
        calibration.is_neutral(),
    ensures
        straight().mapped(value) == value,
        calibration.corrected(value) == value,
{
    let m = calibration.soft_iron_q15@;
    assert(m[0]@[0] == 32_768 && m[0]@[1] == 0 && m[0]@[2] == 0);
    assert(m[1]@[0] == 0 && m[1]@[1] == 32_768 && m[1]@[2] == 0);
    assert(m[2]@[0] == 0 && m[2]@[1] == 0 && m[2]@[2] == 32_768);
}

/// Each direction picks its own part of a vector, and opposite directions pick
/// opposite numbers, but for the one number without an opposite.
pub proof fn law_directions_pick_their_part(value: Vector3)
    ensures
        SignedAxis::X.of(value) == value.x,
        SignedAxis::Y.of(value) == value.y,
        SignedAxis::Z.of(value) == value.z,
        value.x > i32::MIN ==> SignedAxis::NegX.of(value) + value.x == 0,
        value.y > i32::MIN ==> SignedAxis::NegY.of(value) + value.y == 0,
        value.z > i32::MIN ==> SignedAxis::NegZ.of(value) + value.z == 0,
        value.x == i32::MIN ==> SignedAxis::NegX.of(value) == i32::MAX,
        value.y == i32::MIN ==> SignedAxis::NegY.of(value) == i32::MAX,
        value.z == i32::MIN ==> SignedAxis::NegZ.of(value) == i32::MAX,
{
}

/// A mounting takes each of the board's axes from its own direction.
pub proof fn law_mounting_takes_each_axis(map: AxisMap, value: Vector3)
    ensures
        map.mapped(value).x == map.x.of(value),
        map.mapped(value).y == map.y.of(value),
        map.mapped(value).z == map.z.of(value),
{
}

/// A mounting turned half round about the vertical is undone by itself, and one
/// turned a quarter round is undone by the quarter the other way.
pub proof fn law_turned_mounting_is_undone(value: Vector3)
    requires
        i32::MIN < value.x,
        i32::MIN < value.y,
    ensures
        ({
            let half = AxisMap { x: SignedAxis::NegX, y: SignedAxis::NegY, z: SignedAxis::Z };
            let left = AxisMap { x: SignedAxis::Y, y: SignedAxis::NegX, z: SignedAxis::Z };
            let right = AxisMap { x: SignedAxis::NegY, y: SignedAxis::X, z: SignedAxis::Z };
            &&& half.mapped(half.mapped(value)) == value
            &&& right.mapped(left.mapped(value)) == value
            &&& left.mapped(right.mapped(value)) == value
            &&& left.mapped(left.mapped(value)) == half.mapped(value)
        }),
{
}

/// A reading equal to the hard-iron offset is corrected to the zero vector,
/// whatever the soft iron does.
pub proof fn law_offset_is_taken_off(calibration: MagneticCalibration)
    ensures
        calibration.corrected(calibration.hard_iron_offset_nt) == (Vector3 { x: 0, y: 0, z: 0 }),
{
    assert forall|index: int| 0 <= index < 3 implies #[trigger] calibration.row(
        index,
        calibration.hard_iron_offset_nt,
    ) == 0 by {
        let factors = calibration.soft_iron_q15@[index]@;
        assert(factors[0] * 0 + factors[1] * 0 + factors[2] * 0 == 0);
    }
}

/// Without soft iron the corrected vector is the reading less the offset, axis by
/// axis, held inside the range of the numbers.
pub proof fn law_without_soft_iron_only_the_offset_counts(
    calibration: MagneticCalibration,
    value: Vector3,
)
    requires
        calibration.soft_iron_q15@[0]@ == seq![32_768i32, 0i32, 0i32],
        calibration.soft_iron_q15@[1]@ == seq![0i32, 32_768i32, 0i32],
        calibration.soft_iron_q15@[2]@ == seq![0i32, 0i32, 32_768i32],
    ensures
        ({
            let result = calibration.corrected(value);
            let offset = calibration.hard_iron_offset_nt;
            &&& i32::MIN <= value.x - offset.x <= i32::MAX ==> result.x == value.x - offset.x
            &&& i32::MIN <= value.y - offset.y <= i32::MAX ==> result.y == value.y - offset.y
            &&& i32::MIN <= value.z - offset.z <= i32::MAX ==> result.z == value.z - offset.z
            &&& value.x - offset.x > i32::MAX ==> result.x == i32::MAX
            &&& value.y - offset.y > i32::MAX ==> result.y == i32::MAX
            &&& value.z - offset.z > i32::MAX ==> result.z == i32::MAX
            &&& value.x - offset.x < i32::MIN ==> result.x == i32::MIN
            &&& value.y - offset.y < i32::MIN ==> result.y == i32::MIN
            &&& value.z - offset.z < i32::MIN ==> result.z == i32::MIN
        }),
{
    let offset = calibration.hard_iron_offset_nt;
    let (a, b, c) = (
        calibration.soft_iron_q15@[0]@,
        calibration.soft_iron_q15@[1]@,
        calibration.soft_iron_q15@[2]@,
    );
    assert(a[0] == 32_768 && a[1] == 0 && a[2] == 0);
    assert(b[0] == 0 && b[1] == 32_768 && b[2] == 0);
    assert(c[0] == 0 && c[1] == 0 && c[2] == 32_768);
}

/// Only the distance of a reading from the offset counts: a reading and an offset
/// that are moved together are corrected to the same vector.
pub proof fn law_offset_moves_with_the_reading(
    first: MagneticCalibration,
    second: MagneticCalibration,
    value: Vector3,
    moved: Vector3,
)
    requires
        first.soft_iron_q15 == second.soft_iron_q15,
        value.x - first.hard_iron_offset_nt.x == moved.x - second.hard_iron_offset_nt.x,
        value.y - first.hard_iron_offset_nt.y == moved.y - second.hard_iron_offset_nt.y,
        value.z - first.hard_iron_offset_nt.z == moved.z - second.hard_iron_offset_nt.z,
    ensures
        first.corrected(value) == second.corrected(moved),
{
}

/// Each axis of a corrected vector, times 32768, is its row of the matrix times
/// the distance from the offset, within the rounding toward zero; beyond the range
/// of the numbers it is the end of the range on that side.
pub proof fn law_rows_weigh_the_distances(
    calibration: MagneticCalibration,
    value: Vector3,
    index: int,
)
    requires
        0 <= index < 3,
    ensures
        ({
            let result = calibration.corrected(value);
            let axis: int = if index == 0 {
                result.x as int
            } else if index == 1 {
                result.y as int
            } else {
                result.z as int
            };
            let offset = calibration.hard_iron_offset_nt;
            let factors = calibration.soft_iron_q15@[index]@;
            let sum = factors[0] * (value.x - offset.x) + factors[1] * (value.y - offset.y)
                + factors[2] * (value.z - offset.z);
            &&& sum >= 0 && axis < i32::MAX ==> axis * 32_768 <= sum < (axis + 1) * 32_768
            &&& sum <= 0 && axis > i32::MIN ==> (axis - 1) * 32_768 < sum <= axis * 32_768
            &&& axis == i32::MAX ==> sum >= 0x7fff_ffff * 32_768
            &&& axis == i32::MIN ==> sum <= -0x8000_0000 * 32_768
        }),
{
    let offset = calibration.hard_iron_offset_nt;
    let factors = calibration.soft_iron_q15@[index]@;
    let sum = factors[0] * (value.x - offset.x) + factors[1] * (value.y - offset.y) + factors[2]
        * (value.z - offset.z);
    arith::lemma_trunc_div_bounded(sum, 32_768);
}

} // verus!
