//! Points, boxes, rectangles and planes with whole-number coordinates.

pub mod box3;
pub mod plane;
pub mod point2;
pub mod point3;
pub mod point4;
pub mod rect;

use vstd::prelude::*;

pub use box3::{Box3, Box3I};
pub use plane::{Plane, PlaneI};
pub use point2::{Point2, Point2I};
pub use point3::{Point3, Point3I};
pub use point4::{Point4, Point4I};
pub use rect::{Rect, RectI};

verus! {

/// Trait for a vector element.
pub trait Elem: Copy {

}

impl Elem for i32 {

}

/// Whether `v` is a value of `i32`.
pub open spec fn fits(v: int) -> bool {
    i32::MIN <= v <= i32::MAX
}

/// The quotient of `a` by `b`, rounded towards zero.
pub open spec fn quotient(a: i32, b: i32) -> i32 {
    if a >= 0 {
        (a / b) as i32
    } else {
        (-((-a) / (b as int))) as i32
    }
}

/// The additive identity of `i32`.
///
/// Calls `num_traits::zero`, which for `i32` returns the literal `0`.
#[verifier::external_body]
pub(crate) fn zero() -> (z: i32)
    ensures
        z == 0,
{
    num_traits::zero()
}

/// The multiplicative identity of `i32`.
///
/// Calls `num_traits::one`, which for `i32` returns the literal `1`.
#[verifier::external_body]
pub(crate) fn one() -> (o: i32)
    ensures
        o == 1,
{
    num_traits::one()
}

/// Whether `x` is the additive identity.
///
/// Calls `num_traits::Zero::is_zero`, which for `i32` compares with the
/// literal `0`.
#[verifier::external_body]
pub(crate) fn is_zero(x: i32) -> (b: bool)
    ensures
        b == (x == 0),
{
    num_traits::Zero::is_zero(&x)
}

} // verus!
