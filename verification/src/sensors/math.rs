//! Integer roots, magnitudes and angles.
use crate::arith;
use vstd::prelude::*;

verus! {

/// Hundredths of a degree in a full turn.
pub const FULL_TURN_CDEG: i64 = 36_000;

/// Whether a number is the root of another, rounded down.
pub open spec fn is_root(root: int, value: int) -> bool {
    0 <= root && root * root <= value < (root + 1) * (root + 1)
}

/// A number has one root.
pub proof fn lemma_root_unique(a: int, b: int, value: int)
    requires
        is_root(a, value),
        is_root(b, value),
    ensures
        a == b,
{
    if a < b {
        assert((a + 1) * (a + 1) <= b * b) by (nonlinear_arith)
            requires
                0 <= a < b,
        ;
    } else if b < a {
        assert((b + 1) * (b + 1) <= a * a) by (nonlinear_arith)
            requires
                0 <= b < a,
        ;
    }
}

/// The root of a number, rounded down.
pub open spec fn root_of(value: int) -> int {
    choose|root: int| is_root(root, value)
}

/// A step of the root search does not fall below the root.
proof fn lemma_newton_step(x: int, value: int)
    requires
        x > 0,
        value >= 0,
    ensures
        value < ((x + value / x) / 2 + 1) * ((x + value / x) / 2 + 1),
        (x + value / x) / 2 >= x ==> x * x <= value,
        value / x >= 0,
        value / x <= value,
        value > 0 ==> x <= value ==> (x + value / x) / 2 >= 1,
{
    let q = value / x;
    vstd::arithmetic::div_mod::lemma_fundamental_div_mod(value, x);
    vstd::arithmetic::div_mod::lemma_mod_bound(value, x);
    vstd::arithmetic::div_mod::lemma_div_pos_is_pos(value, x);
    vstd::arithmetic::div_mod::lemma_div_is_ordered_by_denominator(value, 1, x);
    vstd::arithmetic::div_mod::lemma_div_basics(value);
    let s = (x + q) / 2;
    assert(value < (s + 1) * (s + 1)) by (nonlinear_arith)
        requires
            value == x * q + value % x,
            0 <= value % x < x,
            2 * s >= x + q - 1,
            x > 0,
            q >= 0,
    ;
    if s >= x {
        assert(x * x <= value) by (nonlinear_arith)
            requires
                value == x * q + value % x,
                0 <= value % x,
                q >= x,
                x > 0,
        ;
    }
    if value > 0 && x <= value {
        assert(q >= 1) by (nonlinear_arith)
            requires
                value == x * q + value % x,
                value % x < x,
                x <= value,
                x > 0,
        ;
    }
}

/// The root of a number, rounded down.
pub fn isqrt(value: u64) -> (root: u32)
    ensures
        is_root(root as int, value as int),
        root == root_of(value as int),
{
    if value < 2 {
        proof {
            assert(is_root(value as int, value as int)) by {
                assert(0 * 0 == 0 && 1 * 1 == 1 && 2 * 2 == 4);
            }
            lemma_root_unique(value as int, root_of(value as int), value as int);
        }
        return value as u32;
    }
    let mut x: u64 = value / 2 + 1;
    proof {
        lemma_newton_step(value as int, value as int);
        assert(value as int / value as int == 1) by {
            vstd::arithmetic::div_mod::lemma_div_by_self(value as int);
        }
        lemma_half_bounds_root(value as int);
        lemma_newton_step(x as int, value as int);
    }
    let mut next: u64 = half_sum(x, value / x);
    while next < x
        invariant
            value >= 2,
            1 <= x <= value,
            next == (x + value / x) as int / 2,
            value < (x + 1) * (x + 1),
        decreases x,
    {
        proof {
            lemma_newton_step(x as int, value as int);
        }
        x = next;
        proof {
            lemma_newton_step(x as int, value as int);
        }
        next = half_sum(x, value / x);
    }
    proof {
        lemma_newton_step(x as int, value as int);
        assert(x <= 0xffff_ffff) by (nonlinear_arith)
            requires
                x * x <= value,
                value <= 0xffff_ffff_ffff_ffff,
                x >= 0,
        ;
        assert(is_root(x as int, value as int));
        lemma_root_unique(x as int, root_of(value as int), value as int);
    }
    x as u32
}

/// Half of a number, and one, is not below its root.
proof fn lemma_half_bounds_root(value: int)
    requires
        value >= 0,
    ensures
        value < (value / 2 + 1 + 1) * (value / 2 + 1 + 1),
{
    let h = value / 2;
    assert(value < (h + 2) * (h + 2)) by (nonlinear_arith)
        requires
            value <= 2 * h + 1,
            h >= 0,
    ;
}

/// Half of a sum, rounded down, without overflow.
fn half_sum(a: u64, b: u64) -> (half: u64)
    ensures
        half == (a + b) as int / 2,
{
    ((a as u128 + b as u128) / 2) as u64
}

/// Square of a vector's length.
pub open spec fn squared_length(x: int, y: int, z: int) -> int {
    x * x + y * y + z * z
}

/// Length of a vector, rounded down.
pub fn vector_magnitude(x: i32, y: i32, z: i32) -> (length: u32)
    ensures
        is_root(length as int, squared_length(x as int, y as int, z as int)),
        length == root_of(squared_length(x as int, y as int, z as int)),
{
    let a: u64 = abs_i32(x) as u64;
    let b: u64 = abs_i32(y) as u64;
    let c: u64 = abs_i32(z) as u64;
    proof {
        lemma_square(x as int, a as int);
        lemma_square(y as int, b as int);
        lemma_square(z as int, c as int);
    }
    isqrt(a * a + b * b + c * c)
}

/// The square of a 32-bit number is that of its magnitude.
proof fn lemma_square(value: int, magnitude: int)
    requires
        magnitude == arith::abs(value),
        magnitude <= 0x8000_0000,
    ensures
        magnitude * magnitude == value * value,
        0 <= magnitude * magnitude <= 0x4000_0000_0000_0000,
{
    assert(magnitude * magnitude == value * value) by (nonlinear_arith)
        requires
            magnitude == value || magnitude == -value,
    ;
    assert(0 <= magnitude * magnitude <= 0x4000_0000_0000_0000) by (nonlinear_arith)
        requires
            0 <= magnitude <= 0x8000_0000,
    ;
}

/// Magnitude of a number.
pub fn abs_i32(value: i32) -> (magnitude: u32)
    ensures
        magnitude == arith::abs(value as int),
{
    if value >= 0 {
        value as u32
    } else {
        (-(value as i64)) as u32
    }
}

/// An angle with a correction, within a full turn.
pub open spec fn turned(angle_cdeg: int, correction_cdeg: int) -> int {
    (angle_cdeg + correction_cdeg) % 36_000
}

/// An angle with a correction, within a full turn.
pub fn wrap_heading(angle_cdeg: i32, correction_cdeg: i32) -> (heading: u16)
    ensures
        heading == turned(angle_cdeg as int, correction_cdeg as int),
        heading < 36_000,
{
    let sum: i64 = angle_cdeg as i64 + correction_cdeg as i64;
    let remainder: i64 = sum % FULL_TURN_CDEG;
    if remainder < 0 {
        (remainder + FULL_TURN_CDEG) as u16
    } else {
        remainder as u16
    }
}

/// Distance of two angles the short way round.
pub open spec fn angular_distance(a: int, b: int) -> int {
    let direct = arith::abs(a - b) % 36_000;
    arith::min(direct, 36_000 - direct)
}

/// The short way round is the same in both directions and at most half a turn,
/// and it does not change when an angle makes a full turn.
pub proof fn law_angular_distance(a: int, b: int)
    ensures
        angular_distance(a, b) == angular_distance(b, a),
        0 <= angular_distance(a, b) <= 18_000,
        angular_distance(a, a) == 0,
        angular_distance(a + 36_000, b) == angular_distance(a, b),
{
}

/// Every number that is not negative has a root.
pub proof fn lemma_root_exists(value: int)
    requires
        value >= 0,
    ensures
        is_root(root_of(value), value),
    decreases value,
{
    if value == 0 {
        assert(is_root(0, 0)) by {
            assert(0 * 0 == 0 && 1 * 1 == 1);
        }
    } else {
        lemma_root_exists(value - 1);
        let root = root_of(value - 1);
        if value < (root + 1) * (root + 1) {
            assert(is_root(root, value));
        } else {
            assert((root + 1) * (root + 1) < (root + 2) * (root + 2)) by (nonlinear_arith)
                requires
                    root >= 0,
            ;
            assert(is_root(root + 1, value));
        }
    }
}

/// The root's square is not above the number, and the next square is.
pub proof fn law_root_is_between_squares(value: int)
    requires
        value >= 0,
    ensures
        root_of(value) >= 0,
        root_of(value) * root_of(value) <= value,
        value < (root_of(value) + 1) * (root_of(value) + 1),
{
    lemma_root_exists(value);
}

/// A corrected angle lies within a full turn, and differs from the angle and its
/// correction by whole turns only.
pub proof fn law_correction_turns_the_angle(angle_cdeg: int, correction_cdeg: int)
    ensures
        0 <= turned(angle_cdeg, correction_cdeg) < 36_000,
        (angle_cdeg + correction_cdeg - turned(angle_cdeg, correction_cdeg)) % 36_000 == 0,
        0 <= angle_cdeg + correction_cdeg < 36_000 ==> turned(angle_cdeg, correction_cdeg)
            == angle_cdeg + correction_cdeg,
        36_000 <= angle_cdeg + correction_cdeg < 72_000 ==> turned(angle_cdeg, correction_cdeg)
            == angle_cdeg + correction_cdeg - 36_000,
        -36_000 <= angle_cdeg + correction_cdeg < 0 ==> turned(angle_cdeg, correction_cdeg)
            == angle_cdeg + correction_cdeg + 36_000,
{
}

/// The short way round is the distance of the angles where that is at most half a
/// turn, and what is left of the turn where it is more.
pub proof fn law_short_way_round(a: int, b: int)
    requires
        0 <= a < 36_000,
        0 <= b < 36_000,
    ensures
        0 <= a - b <= 18_000 ==> angular_distance(a, b) == a - b,
        0 <= b - a <= 18_000 ==> angular_distance(a, b) == b - a,
        a - b >= 18_000 ==> angular_distance(a, b) == 36_000 - (a - b),
        b - a >= 18_000 ==> angular_distance(a, b) == 36_000 - (b - a),
{
}

} // verus!
