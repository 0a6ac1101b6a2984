//! Points, rectangles and affine transforms over fixed-point numbers.
use vstd::prelude::*;

use crate::fixed::{add_spec, fx_add, fx_mul, mul_spec, ONE};

verus! {

/// A point or a vector.
#[derive(Clone, Copy, Debug, PartialEq, Eq, Structural)]
pub struct Point {
    pub x: i32,
    pub y: i32,
}

/// A rectangle given by its origin and its size.
#[derive(Clone, Copy, Debug, PartialEq, Eq, Structural)]
pub struct Rect {
    pub x: i32,
    pub y: i32,
    pub width: i32,
    pub height: i32,
}

/// An affine transform `[a b c d e f]`, which maps `(x, y)` to
/// `(a x + c y + e, b x + d y + f)`.
#[derive(Clone, Copy, Debug, PartialEq, Eq, Structural)]
pub struct Matrix {
    pub a: i32,
    pub b: i32,
    pub c: i32,
    pub d: i32,
    pub e: i32,
    pub f: i32,
}

pub open spec fn identity_spec() -> Matrix {
    Matrix { a: ONE, b: 0, c: 0, d: ONE, e: 0, f: 0 }
}

pub open spec fn translation_spec(v: Point) -> Matrix {
    Matrix { a: ONE, b: 0, c: 0, d: ONE, e: v.x, f: v.y }
}

/// `m * n`: the transform that applies `n` first, then `m`.
pub open spec fn concat_spec(m: Matrix, n: Matrix) -> Matrix {
    Matrix {
        a: add_spec(mul_spec(m.a as int, n.a as int), mul_spec(m.c as int, n.b as int)) as i32,
        b: add_spec(mul_spec(m.b as int, n.a as int), mul_spec(m.d as int, n.b as int)) as i32,
        c: add_spec(mul_spec(m.a as int, n.c as int), mul_spec(m.c as int, n.d as int)) as i32,
        d: add_spec(mul_spec(m.b as int, n.c as int), mul_spec(m.d as int, n.d as int)) as i32,
        e: add_spec(
            add_spec(mul_spec(m.a as int, n.e as int), mul_spec(m.c as int, n.f as int)),
            m.e as int,
        ) as i32,
        f: add_spec(
            add_spec(mul_spec(m.b as int, n.e as int), mul_spec(m.d as int, n.f as int)),
            m.f as int,
        ) as i32,
    }
}

impl Matrix {
    /// The identity transform.
    pub fn identity() -> (r: Matrix)
        ensures
            r == identity_spec(),
    {
        Matrix { a: ONE, b: 0, c: 0, d: ONE, e: 0, f: 0 }
    }

    /// The transform that moves every point by `v`.
    pub fn translation(v: Point) -> (r: Matrix)
        ensures
            r == translation_spec(v),
    {
        Matrix { a: ONE, b: 0, c: 0, d: ONE, e: v.x, f: v.y }
    }

    /// `self * n`: applies `n` first, then `self`.
    pub fn concat(&self, n: &Matrix) -> (r: Matrix)
        ensures
            r == concat_spec(*self, *n),
    {
        let m = self;
        Matrix {
            a: fx_add(fx_mul(m.a, n.a), fx_mul(m.c, n.b)),
            b: fx_add(fx_mul(m.b, n.a), fx_mul(m.d, n.b)),
            c: fx_add(fx_mul(m.a, n.c), fx_mul(m.c, n.d)),
            d: fx_add(fx_mul(m.b, n.c), fx_mul(m.d, n.d)),
            e: fx_add(fx_add(fx_mul(m.a, n.e), fx_mul(m.c, n.f)), m.e),
            f: fx_add(fx_add(fx_mul(m.b, n.e), fx_mul(m.d, n.f)), m.f),
        }
    }
}

} // verus!
