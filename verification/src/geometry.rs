//! Pixel positions and sizes, and the integer division that places things.

use vstd::prelude::*;

verus! {

/// A pixel position.
#[derive(Clone, Copy, Debug, PartialEq, Eq, Structural)]
pub struct Point {
    pub x: i32,
    pub y: i32,
}

/// A width and a height in pixels.
#[derive(Clone, Copy, Debug, PartialEq, Eq, Structural)]
pub struct Size {
    pub width: i32,
    pub height: i32,
}

/// The quotient of `a` by a positive `b`, rounded toward zero, as machine
/// integers divide.
pub open spec fn quotient(a: int, b: int) -> int
    recommends
        b > 0,
{
    if a >= 0 {
        a / b
    } else {
        -((-a) / b)
    }
}

/// `v` limited to the range of `i32`.
pub open spec fn clamped(v: int) -> int {
    if v > i32::MAX {
        i32::MAX as int
    } else if v < i32::MIN {
        i32::MIN as int
    } else {
        v
    }
}

/// Whether `v` can be held in an `i32`.
pub open spec fn fits(v: int) -> bool {
    i32::MIN <= v <= i32::MAX
}

/// The distance from `from` to `to` along one axis, limited to the range of
/// `i32` where the exact difference does not fit.
pub fn span(from: i32, to: i32) -> (d: i32)
    ensures
        d == clamped(to - from),
{
    let wide: i64 = to as i64 - from as i64;
    if wide > i32::MAX as i64 {
        i32::MAX
    } else if wide < i32::MIN as i64 {
        i32::MIN
    } else {
        wide as i32
    }
}

} // verus!
