use super::point3::Point3;
use super::{fits, one, quotient, Elem};
use vstd::prelude::*;

verus! {

/// TGE-compatible structure representing an axis-aligned bounding box (AABB).
#[derive(Debug, Clone, Copy, PartialEq, Eq)]
pub struct Box3<T: Elem> {
    pub min: Point3<T>,
    pub max: Point3<T>,
}

pub type Box3I = Box3<i32>;

impl<T: Elem> Box3<T> {
    /// Constructs a new box from a min and max point.
    pub fn new(min: Point3<T>, max: Point3<T>) -> (b: Self)
        ensures
            b == (Box3 { min, max }),
    {
        Self { min, max }
    }
}

impl Box3<i32> {
    /// Constructs a new box whose extents are zero.
    pub fn zero() -> (b: Self)
        ensures
            b.min == (Point3 { x: 0i32, y: 0i32, z: 0i32 }),
            b.max == (Point3 { x: 0i32, y: 0i32, z: 0i32 }),
    {
        Self::new(Point3::zero(), Point3::zero())
    }

    /// Whether the three extents of the box are values of `i32`.
    pub open spec fn extents_fit(self) -> bool {
        fits(self.max.x - self.min.x) && fits(self.max.y - self.min.y) && fits(
            self.max.z - self.min.z,
        )
    }

    /// Returns the length of the box's X extent.
    pub fn len_x(&self) -> (len: i32)
        requires
            fits(self.max.x - self.min.x),
        ensures
            len == self.max.x - self.min.x,
    {
        self.max.x - self.min.x
    }

    /// Returns the length of the box's Y extent.
    pub fn len_y(&self) -> (len: i32)
        requires
            fits(self.max.y - self.min.y),
        ensures
            len == self.max.y - self.min.y,
    {
        self.max.y - self.min.y
    }

    /// Returns the length of the box's Z extent.
    pub fn len_z(&self) -> (len: i32)
        requires
            fits(self.max.z - self.min.z),
        ensures
            len == self.max.z - self.min.z,
    {
        self.max.z - self.min.z
    }

    /// The diagonal of the box: from its least corner to its greatest.
    pub fn diagonal(&self) -> (d: Point3<i32>)
        requires
            self.extents_fit(),
        ensures
            d.x == self.max.x - self.min.x,
            d.y == self.max.y - self.min.y,
            d.z == self.max.z - self.min.z,
    {
        self.max - self.min
    }

    /// The volume of the box.
    pub open spec fn volume_of(self) -> int {
        (self.max.x - self.min.x) * (self.max.y - self.min.y) * (self.max.z - self.min.z)
    }

    /// Returns the box's volume.
    pub fn volume(&self) -> (v: i32)
        requires
            self.extents_fit(),
            fits((self.max.x - self.min.x) * (self.max.y - self.min.y)),
            fits(self.volume_of()),
        ensures
            v == self.volume_of(),
    {
        let d = self.max - self.min;
        d.x * d.y * d.z
    }

    /// Returns the box's center point, each coordinate rounded towards zero.
    pub fn center(&self) -> (c: Point3<i32>)
        requires
            fits(self.min.x + self.max.x),
            fits(self.min.y + self.max.y),
            fits(self.min.z + self.max.z),
        ensures
            c.x == quotient((self.min.x + self.max.x) as i32, 2),
            c.y == quotient((self.min.y + self.max.y) as i32, 2),
            c.z == quotient((self.min.z + self.max.z) as i32, 2),
    {
        (self.min + self.max) / (one() + one())
    }
}

} // verus!
