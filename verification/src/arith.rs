//! Integer helpers: saturation into `i32`, rounded division and the bounds they use.
use vstd::prelude::*;

verus! {

/// Smallest and largest `i32`, as mathematical integers.
pub open spec fn i32_min() -> int {
    -2147483648
}

pub open spec fn i32_max() -> int {
    2147483647
}

/// `x` forced into the `i32` range.
pub open spec fn sat_i32(x: int) -> int {
    if x < i32_min() {
        i32_min()
    } else if x > i32_max() {
        i32_max()
    } else {
        x
    }
}

pub open spec fn min_int(a: int, b: int) -> int {
    if a <= b {
        a
    } else {
        b
    }
}

pub open spec fn max_int(a: int, b: int) -> int {
    if a >= b {
        a
    } else {
        b
    }
}

/// `x` clamped into `[lo, hi]` the way `Ord::clamp` does it (`lo <= hi`).
pub open spec fn clamp_int(x: int, lo: int, hi: int) -> int {
    if x < lo {
        lo
    } else if x > hi {
        hi
    } else {
        x
    }
}

pub open spec fn abs_int(x: int) -> int {
    if x < 0 {
        -x
    } else {
        x
    }
}

/// `n / d` rounded to the nearest integer, halves away from zero (`d > 0`).
pub open spec fn round_div(n: int, d: int) -> int {
    if n >= 0 {
        (2 * n + d) / (2 * d)
    } else {
        -((2 * (-n) + d) / (2 * d))
    }
}

/// Saturating conversion of an `i64` into an `i32`.
pub fn to_i32_sat(x: i64) -> (r: i32)
    ensures
        r == sat_i32(x as int),
{
    if x < -2147483648i64 {
        -2147483648i32
    } else if x > 2147483647i64 {
        2147483647i32
    } else {
        x as i32
    }
}

/// Rounded division of `n` by `d`, halves away from zero.
pub fn round_div_i128(n: i128, d: i128) -> (r: i128)
    requires
        0 < d <= 1_000_000_000_000,
        -0x4000_0000_0000_0000_0000_0000_0000 <= n <= 0x4000_0000_0000_0000_0000_0000_0000,
    ensures
        r == round_div(n as int, d as int),
        abs_int(r as int) <= abs_int(n as int) + 1,
{
    proof {
        lemma_round_div_bound(n as int, d as int);
    }
    if n >= 0 {
        (2 * n + d) / (2 * d)
    } else {
        -((2 * (-n) + d) / (2 * d))
    }
}

proof fn lemma_round_div_bound(n: int, d: int)
    requires
        0 < d,
    ensures
        abs_int(round_div(n, d)) <= abs_int(n) + 1,
{
    let m = abs_int(n);
    assert((2 * m + d) / (2 * d) <= m + 1) by (nonlinear_arith)
        requires
            m >= 0,
            d > 0,
    ;
    assert((2 * m + d) / (2 * d) >= 0) by (nonlinear_arith)
        requires
            m >= 0,
            d > 0,
    ;
}

/// Saturating conversion of an `i128` into an `i32`.
pub fn i128_to_i32_sat(x: i128) -> (r: i32)
    ensures
        r == sat_i32(x as int),
{
    if x < -2147483648i128 {
        -2147483648i32
    } else if x > 2147483647i128 {
        2147483647i32
    } else {
        x as i32
    }
}

/// A product of two moderately large numbers, which cannot overflow an `i128`.
pub fn mul_i128(a: i128, b: i128) -> (r: i128)
    requires
        -0x4_0000_0000_0000 <= a <= 0x4_0000_0000_0000,
        -0x4_0000_0000_0000 <= b <= 0x4_0000_0000_0000,
    ensures
        r == a * b,
        -0x10_0000_0000_0000_0000_0000_0000 <= r <= 0x10_0000_0000_0000_0000_0000_0000,
{
    assert(-0x10_0000_0000_0000_0000_0000_0000 <= a * b <= 0x10_0000_0000_0000_0000_0000_0000)
        by (nonlinear_arith)
        requires
            -0x4_0000_0000_0000 <= a <= 0x4_0000_0000_0000,
            -0x4_0000_0000_0000 <= b <= 0x4_0000_0000_0000,
    ;
    a * b
}

} // verus!
