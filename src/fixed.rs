//! 16.16 fixed-point numbers.
//!
//! A value `v: i32` stands for the real number `v / 65536`. All operations
//! saturate at the bounds of `i32` instead of wrapping.
use vstd::prelude::*;

verus! {

/// The fixed-point representation of `1.0`.
pub const ONE: i32 = 65536;

/// Saturates an integer to the range of `i32`.
pub open spec fn clamp(x: int) -> int {
    if x > i32::MAX {
        i32::MAX as int
    } else if x < i32::MIN {
        i32::MIN as int
    } else {
        x
    }
}

pub open spec fn add_spec(a: int, b: int) -> int {
    clamp(a + b)
}

pub open spec fn sub_spec(a: int, b: int) -> int {
    clamp(a - b)
}

/// The product of two fixed-point values, rounded toward negative infinity.
pub open spec fn mul_spec(a: int, b: int) -> int {
    clamp((a * b) / 65536)
}

/// The fixed-point value of an integer.
pub open spec fn from_int_spec(n: int) -> int {
    clamp(n * 65536)
}

/// A value divided by one hundred, rounded toward negative infinity.
pub open spec fn percent_spec(a: int) -> int {
    a / 100
}

pub open spec fn min_spec(a: int, b: int) -> int {
    if a <= b {
        a
    } else {
        b
    }
}

fn clamp_i64(x: i64) -> (r: i32)
    ensures
        r == clamp(x as int),
{
    if x > i32::MAX as i64 {
        i32::MAX
    } else if x < i32::MIN as i64 {
        i32::MIN
    } else {
        x as i32
    }
}

/// Saturating addition.
pub fn fx_add(a: i32, b: i32) -> (r: i32)
    ensures
        r == add_spec(a as int, b as int),
{
    clamp_i64(a as i64 + b as i64)
}

/// Saturating subtraction.
pub fn fx_sub(a: i32, b: i32) -> (r: i32)
    ensures
        r == sub_spec(a as int, b as int),
{
    clamp_i64(a as i64 - b as i64)
}

/// Saturating fixed-point multiplication.
pub fn fx_mul(a: i32, b: i32) -> (r: i32)
    ensures
        r == mul_spec(a as int, b as int),
{
    assert(-0x4000_0000_0000_0000 <= a * b <= 0x4000_0000_0000_0000) by (nonlinear_arith)
        requires
            i32::MIN <= a <= i32::MAX,
            i32::MIN <= b <= i32::MAX,
    ;
    let p: i64 = a as i64 * b as i64;
    let q: i64 = match p.checked_div_euclid(65536) {
        Some(q) => q,
        None => 0,
    };
    clamp_i64(q)
}

/// The fixed-point value of an integer, saturating.
pub fn fx_from_int(n: i32) -> (r: i32)
    ensures
        r == from_int_spec(n as int),
{
    clamp_i64(n as i64 * 65536)
}

/// Divides a value by one hundred (a percentage setting to a fraction).
pub fn fx_percent(a: i32) -> (r: i32)
    ensures
        r == percent_spec(a as int),
{
    match a.checked_div_euclid(100) {
        Some(q) => q,
        None => 0,
    }
}

/// The smaller of two values.
pub fn fx_min(a: i32, b: i32) -> (r: i32)
    ensures
        r == min_spec(a as int, b as int),
{
    if a <= b {
        a
    } else {
        b
    }
}

} // verus!
