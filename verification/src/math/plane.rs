use super::point3::Point3;
use super::Elem;
use vstd::prelude::*;

verus! {

/// TGE-compatible structure representing a plane with a normal and a
/// distance along the normal. Note that this internally stores the distance
/// as negative.
#[derive(Debug, Clone, Copy, PartialEq, Eq)]
pub struct Plane<T: Elem> {
    pub x: T,
    pub y: T,
    pub z: T,
    pub d: T,
}

pub type PlaneI = Plane<i32>;

impl<T: Elem> Plane<T> {
    /// Constructs a plane from raw X, Y, Z, and D values.
    pub fn new(x: T, y: T, z: T, d: T) -> (p: Self)
        ensures
            p == (Plane { x, y, z, d }),
    {
        Self { x, y, z, d }
    }

    /// Returns the plane's normal.
    pub fn normal(&self) -> (n: Point3<T>)
        ensures
            n == (Point3 { x: self.x, y: self.y, z: self.z }),
    {
        Point3::new(self.x, self.y, self.z)
    }
}

impl Plane<i32> {
    /// Constructs a plane from a normal and a distance along the normal.
    pub fn from_normal(normal: Point3<i32>, distance: i32) -> (p: Self)
        requires
            distance != i32::MIN,
        ensures
            p == (Plane { x: normal.x, y: normal.y, z: normal.z, d: (-distance) as i32 }),
    {
        Self::new(normal.x, normal.y, normal.z, -distance)
    }

    /// Returns the distance along the plane's normal.
    pub fn distance(&self) -> (distance: i32)
        requires
            self.d != i32::MIN,
        ensures
            distance == -self.d,
    {
        -self.d
    }
}

/// A plane built from a normal and a distance gives both back.
pub proof fn lemma_plane_round_trip(normal: Point3<i32>, distance: i32)
    requires
        distance != i32::MIN,
    ensures
        ({
            let p = Plane { x: normal.x, y: normal.y, z: normal.z, d: (-distance) as i32 };
            p.d != i32::MIN && -p.d == distance
        }),
{
}

} // verus!
