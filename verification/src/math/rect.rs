use super::point2::Point2;
use super::Elem;
use vstd::prelude::*;

verus! {

/// TGE-compatible structure representing a 2D rectangle.
#[derive(Debug, Clone, Copy, PartialEq, Eq)]
pub struct Rect<T: Elem> {
    pub point: Point2<T>,
    pub extent: Point2<T>,
}

pub type RectI = Rect<i32>;

impl<T: Elem> Rect<T> {
    /// Constructs a rectangle from a point and an extent.
    pub fn new(point: Point2<T>, extent: Point2<T>) -> (r: Self)
        ensures
            r == (Rect { point, extent }),
    {
        Self { point, extent }
    }

    /// Returns the length of the X extent.
    pub fn len_x(&self) -> (len: T)
        ensures
            len == self.extent.x,
    {
        self.extent.x
    }

    /// Returns the length of the Y extent.
    pub fn len_y(&self) -> (len: T)
        ensures
            len == self.extent.y,
    {
        self.extent.y
    }
}

impl Rect<i32> {
    /// Constructs a rectangle whose extent is (0, 0).
    pub fn zero() -> (r: Self)
        ensures
            r.point == (Point2 { x: 0i32, y: 0i32 }),
            r.extent == (Point2 { x: 0i32, y: 0i32 }),
    {
        Self::new(Point2::zero(), Point2::zero())
    }

    /// Constructs a rectangle whose extent is (1, 1).
    pub fn one() -> (r: Self)
        ensures
            r.point == (Point2 { x: 0i32, y: 0i32 }),
            r.extent == (Point2 { x: 1i32, y: 1i32 }),
    {
        Self::new(Point2::zero(), Point2::one())
    }
}

} // verus!
