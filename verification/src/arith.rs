//! Integer helpers shared by the services.
use vstd::prelude::*;

verus! {

/// Quotient rounded toward zero, for a positive divisor.
pub open spec fn trunc_div(a: int, b: int) -> int {
    if a >= 0 {
        a / b
    } else {
        -((-a) / b)
    }
}

/// Magnitude of an integer.
pub open spec fn abs(a: int) -> int {
    if a >= 0 {
        a
    } else {
        -a
    }
}

/// The smaller of two integers.
pub open spec fn min(a: int, b: int) -> int {
    if a <= b {
        a
    } else {
        b
    }
}

/// The larger of two integers.
pub open spec fn max(a: int, b: int) -> int {
    if a >= b {
        a
    } else {
        b
    }
}

/// `value` moved into `low..=high`.
pub open spec fn clamp(value: int, low: int, high: int) -> int {
    if value < low {
        low
    } else if value > high {
        high
    } else {
        value
    }
}

/// `value` moved into the range of `i64`.
pub open spec fn saturated_i64(value: int) -> int {
    clamp(value, i64::MIN as int, i64::MAX as int)
}

/// One more than `value`, held at the top of its range.
pub open spec fn next_count(value: u32) -> u32 {
    if value == u32::MAX {
        value
    } else {
        (value + 1) as u32
    }
}

/// Moves a wide value into the range of `i64`.
pub fn saturate_i64(value: i128) -> (result: i64)
    ensures
        result == saturated_i64(value as int),
{
    if value < i64::MIN as i128 {
        i64::MIN
    } else if value > i64::MAX as i128 {
        i64::MAX
    } else {
        value as i64
    }
}

/// Moves a wide unsigned value into the range of `u64`.
pub fn saturate_u64(value: u128) -> (result: u64)
    ensures
        result == min(value as int, u64::MAX as int),
{
    if value > u64::MAX as u128 {
        u64::MAX
    } else {
        value as u64
    }
}

/// A quotient rounded toward zero is no further from zero than its dividend.
pub proof fn lemma_trunc_div_bounded(a: int, b: int)
    requires
        b > 0,
    ensures
        abs(trunc_div(a, b)) <= abs(a),
        abs(trunc_div(a, b)) * b <= abs(a),
        abs(a) < (abs(trunc_div(a, b)) + 1) * b,
        a >= 0 ==> trunc_div(a, b) >= 0,
        a <= 0 ==> trunc_div(a, b) <= 0,
{
    let m = abs(a);
    vstd::arithmetic::div_mod::lemma_fundamental_div_mod(m, b);
    vstd::arithmetic::div_mod::lemma_div_pos_is_pos(m, b);
    vstd::arithmetic::div_mod::lemma_mod_bound(m, b);
    assert(m / b * b <= m && m < (m / b + 1) * b) by (nonlinear_arith)
        requires
            m == b * (m / b) + m % b,
            0 <= m % b < b,
    ;
    assert(m / b <= m / b * b) by (nonlinear_arith)
        requires
            m / b >= 0,
            b >= 1,
    ;
}

} // verus!
