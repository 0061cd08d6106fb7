use super::{fits, is_zero, one, quotient, zero, Elem};
use core::convert::TryFrom;
use core::ops::{
    Add, AddAssign, Div, DivAssign, Index, IndexMut, Mul, MulAssign, Neg, Sub, SubAssign,
};
use vstd::prelude::*;
use vstd::std_specs::convert::{FromSpecImpl, TryFromSpecImpl};
use vstd::std_specs::ops::{AddSpecImpl, DivSpecImpl, MulSpecImpl, NegSpecImpl, SubSpecImpl};

verus! {

/// TGE-compatible structure representing a 4D point.
#[derive(Debug, Copy, Clone, PartialEq, Eq)]
pub struct Point4<T: Elem> {
    pub x: T,
    pub y: T,
    pub z: T,
    pub w: T,
}

pub type Point4I = Point4<i32>;

impl<T: Elem> Point4<T> {
    /// Construct a point from its coordinates.
    pub fn new(x: T, y: T, z: T, w: T) -> (p: Self)
        ensures
            p == (Point4 { x, y, z, w }),
    {
        Self { x, y, z, w }
    }
}

impl Point4<i32> {
    /// The number of coordinates.
    pub const N: usize = 4;

    /// Construct a point where all values are zero.
    pub fn zero() -> (p: Self)
        ensures
            p == (Point4 { x: 0i32, y: 0i32, z: 0i32, w: 0i32 }),
    {
        Self::new(zero(), zero(), zero(), zero())
    }

    /// Construct a point where all values are one.
    pub fn one() -> (p: Self)
        ensures
            p == (Point4 { x: 1i32, y: 1i32, z: 1i32, w: 1i32 }),
    {
        Self::new(one(), one(), one(), one())
    }

    /// Construct a unit vector along the X axis.
    pub fn unit_x() -> (p: Self)
        ensures
            p == (Point4 { x: 1i32, y: 0i32, z: 0i32, w: 0i32 }),
    {
        Self::new(one(), zero(), zero(), zero())
    }

    /// Construct a unit vector along the Y axis.
    pub fn unit_y() -> (p: Self)
        ensures
            p == (Point4 { x: 0i32, y: 1i32, z: 0i32, w: 0i32 }),
    {
        Self::new(zero(), one(), zero(), zero())
    }

    /// Construct a unit vector along the Z axis.
    pub fn unit_z() -> (p: Self)
        ensures
            p == (Point4 { x: 0i32, y: 0i32, z: 1i32, w: 0i32 }),
    {
        Self::new(zero(), zero(), one(), zero())
    }

    /// Construct a unit vector along the W axis.
    pub fn unit_w() -> (p: Self)
        ensures
            p == (Point4 { x: 0i32, y: 0i32, z: 0i32, w: 1i32 }),
    {
        Self::new(zero(), zero(), zero(), one())
    }

    /// Return true if all elements are zero.
    pub fn is_zero(&self) -> (b: bool)
        ensures
            b == (self.x == 0 && self.y == 0 && self.z == 0 && self.w == 0),
    {
        is_zero(self.x) && is_zero(self.y) && is_zero(self.z) && is_zero(self.w)
    }

    /// The squared length of the vector.
    pub open spec fn norm2(self) -> int {
        self.x * self.x + self.y * self.y + self.z * self.z + self.w * self.w
    }

    /// Return the squared length of the vector.
    pub fn len_squared(&self) -> (n: i32)
        requires
            fits(self.norm2()),
        ensures
            n == self.norm2(),
    {
        assert(0 <= self.x * self.x) by (nonlinear_arith);
        assert(0 <= self.y * self.y) by (nonlinear_arith);
        assert(0 <= self.z * self.z) by (nonlinear_arith);
        assert(0 <= self.w * self.w) by (nonlinear_arith);
        self.x * self.x + self.y * self.y + self.z * self.z + self.w * self.w
    }

    /// The dot product of two vectors.
    pub open spec fn dot_of(a: Point4<i32>, b: Point4<i32>) -> int {
        a.x * b.x + a.y * b.y + a.z * b.z + a.w * b.w
    }

    /// Whether the dot product of two vectors can be summed up from the
    /// left, each product and each sum being a value of `i32`.
    pub open spec fn dot_fits(a: Point4<i32>, b: Point4<i32>) -> bool {
        &&& fits(a.x * b.x)
        &&& fits(a.y * b.y)
        &&& fits(a.z * b.z)
        &&& fits(a.w * b.w)
        &&& fits(a.x * b.x + a.y * b.y)
        &&& fits(a.x * b.x + a.y * b.y + a.z * b.z)
        &&& fits(Self::dot_of(a, b))
    }

    /// Compute the dot product of two vectors.
    pub fn dot(a: Point4<i32>, b: Point4<i32>) -> (d: i32)
        requires
            Self::dot_fits(a, b),
        ensures
            d == Self::dot_of(a, b),
    {
        a.x * b.x + a.y * b.y + a.z * b.z + a.w * b.w
    }
}

/// Adds coordinate by coordinate.
impl Add for Point4<i32> {
    type Output = Self;

    fn add(self, other: Self) -> (r: Self) {
        Self {
            x: self.x + other.x,
            y: self.y + other.y,
            z: self.z + other.z,
            w: self.w + other.w,
        }
    }
}

impl AddSpecImpl for Point4<i32> {
    open spec fn obeys_add_spec() -> bool {
        true
    }

    open spec fn add_req(self, other: Self) -> bool {
        &&& fits(self.x + other.x)
        &&& fits(self.y + other.y)
        &&& fits(self.z + other.z)
        &&& fits(self.w + other.w)
    }

    open spec fn add_spec(self, other: Self) -> Self {
        Point4 {
            x: (self.x + other.x) as i32,
            y: (self.y + other.y) as i32,
            z: (self.z + other.z) as i32,
            w: (self.w + other.w) as i32,
        }
    }
}

/// Subtracts coordinate by coordinate.
impl Sub for Point4<i32> {
    type Output = Self;

    fn sub(self, other: Self) -> (r: Self) {
        Self {
            x: self.x - other.x,
            y: self.y - other.y,
            z: self.z - other.z,
            w: self.w - other.w,
        }
    }
}

impl SubSpecImpl for Point4<i32> {
    open spec fn obeys_sub_spec() -> bool {
        true
    }

    open spec fn sub_req(self, other: Self) -> bool {
        &&& fits(self.x - other.x)
        &&& fits(self.y - other.y)
        &&& fits(self.z - other.z)
        &&& fits(self.w - other.w)
    }

    open spec fn sub_spec(self, other: Self) -> Self {
        Point4 {
            x: (self.x - other.x) as i32,
            y: (self.y - other.y) as i32,
            z: (self.z - other.z) as i32,
            w: (self.w - other.w) as i32,
        }
    }
}

/// Multiplies coordinate by coordinate.
impl Mul for Point4<i32> {
    type Output = Self;

    fn mul(self, other: Self) -> (r: Self) {
        Self {
            x: self.x * other.x,
            y: self.y * other.y,
            z: self.z * other.z,
            w: self.w * other.w,
        }
    }
}

impl MulSpecImpl for Point4<i32> {
    open spec fn obeys_mul_spec() -> bool {
        true
    }

    open spec fn mul_req(self, other: Self) -> bool {
        &&& fits(self.x * other.x)
        &&& fits(self.y * other.y)
        &&& fits(self.z * other.z)
        &&& fits(self.w * other.w)
    }

    open spec fn mul_spec(self, other: Self) -> Self {
        Point4 {
            x: (self.x * other.x) as i32,
            y: (self.y * other.y) as i32,
            z: (self.z * other.z) as i32,
            w: (self.w * other.w) as i32,
        }
    }
}

/// Multiplies every coordinate by a number.
impl Mul<i32> for Point4<i32> {
    type Output = Self;

    fn mul(self, other: i32) -> (r: Self) {
        Self {
            x: self.x * other,
            y: self.y * other,
            z: self.z * other,
            w: self.w * other,
        }
    }
}

impl MulSpecImpl<i32> for Point4<i32> {
    open spec fn obeys_mul_spec() -> bool {
        true
    }

    open spec fn mul_req(self, other: i32) -> bool {
        &&& fits(self.x * other)
        &&& fits(self.y * other)
        &&& fits(self.z * other)
        &&& fits(self.w * other)
    }

    open spec fn mul_spec(self, other: i32) -> Self {
        Point4 {
            x: (self.x * other) as i32,
            y: (self.y * other) as i32,
            z: (self.z * other) as i32,
            w: (self.w * other) as i32,
        }
    }
}

/// Divides coordinate by coordinate, rounding towards zero.
impl Div for Point4<i32> {
    type Output = Self;

    fn div(self, other: Self) -> (r: Self) {
        Self {
            x: self.x / other.x,
            y: self.y / other.y,
            z: self.z / other.z,
            w: self.w / other.w,
        }
    }
}

impl DivSpecImpl for Point4<i32> {
    open spec fn obeys_div_spec() -> bool {
        true
    }

    open spec fn div_req(self, other: Self) -> bool {
        &&& other.x != 0 && !(self.x == i32::MIN && other.x == -1)
        &&& other.y != 0 && !(self.y == i32::MIN && other.y == -1)
        &&& other.z != 0 && !(self.z == i32::MIN && other.z == -1)
        &&& other.w != 0 && !(self.w == i32::MIN && other.w == -1)
    }

    open spec fn div_spec(self, other: Self) -> Self {
        Point4 {
            x: quotient(self.x, other.x),
            y: quotient(self.y, other.y),
            z: quotient(self.z, other.z),
            w: quotient(self.w, other.w),
        }
    }
}

/// Divides every coordinate by a number, rounding towards zero.
impl Div<i32> for Point4<i32> {
    type Output = Self;

    fn div(self, other: i32) -> (r: Self) {
        Self {
            x: self.x / other,
            y: self.y / other,
            z: self.z / other,
            w: self.w / other,
        }
    }
}

impl DivSpecImpl<i32> for Point4<i32> {
    open spec fn obeys_div_spec() -> bool {
        true
    }

    open spec fn div_req(self, other: i32) -> bool {
        &&& other != 0 && !(self.x == i32::MIN && other == -1)
        &&& other != 0 && !(self.y == i32::MIN && other == -1)
        &&& other != 0 && !(self.z == i32::MIN && other == -1)
        &&& other != 0 && !(self.w == i32::MIN && other == -1)
    }

    open spec fn div_spec(self, other: i32) -> Self {
        Point4 {
            x: quotient(self.x, other),
            y: quotient(self.y, other),
            z: quotient(self.z, other),
            w: quotient(self.w, other),
        }
    }
}

/// Negates every coordinate.
impl Neg for Point4<i32> {
    type Output = Self;

    fn neg(self) -> (r: Self) {
        Self {
            x: -self.x,
            y: -self.y,
            z: -self.z,
            w: -self.w,
        }
    }
}

impl NegSpecImpl for Point4<i32> {
    open spec fn obeys_neg_spec() -> bool {
        true
    }

    open spec fn neg_req(self) -> bool {
        &&& self.x != i32::MIN
        &&& self.y != i32::MIN
        &&& self.z != i32::MIN
        &&& self.w != i32::MIN
    }

    open spec fn neg_spec(self) -> Self {
        Point4 {
            x: (-self.x) as i32,
            y: (-self.y) as i32,
            z: (-self.z) as i32,
            w: (-self.w) as i32,
        }
    }
}

/// Multiplies every coordinate of a point by a number.
impl Mul<Point4<i32>> for i32 {
    type Output = Point4<i32>;

    fn mul(self, other: Point4<i32>) -> (r: Point4<i32>) {
        other * self
    }
}

impl MulSpecImpl<Point4<i32>> for i32 {
    open spec fn obeys_mul_spec() -> bool {
        true
    }

    open spec fn mul_req(self, other: Point4<i32>) -> bool {
        &&& fits(other.x * self)
        &&& fits(other.y * self)
        &&& fits(other.z * self)
        &&& fits(other.w * self)
    }

    open spec fn mul_spec(self, other: Point4<i32>) -> Point4<i32> {
        Point4 {
            x: (other.x * self) as i32,
            y: (other.y * self) as i32,
            z: (other.z * self) as i32,
            w: (other.w * self) as i32,
        }
    }
}

/// Divides a number by every coordinate of a point, rounding towards zero.
impl Div<Point4<i32>> for i32 {
    type Output = Point4<i32>;

    fn div(self, other: Point4<i32>) -> (r: Point4<i32>) {
        Point4 {
            x: self / other.x,
            y: self / other.y,
            z: self / other.z,
            w: self / other.w,
        }
    }
}

impl DivSpecImpl<Point4<i32>> for i32 {
    open spec fn obeys_div_spec() -> bool {
        true
    }

    open spec fn div_req(self, other: Point4<i32>) -> bool {
        &&& other.x != 0 && !(self == i32::MIN && other.x == -1)
        &&& other.y != 0 && !(self == i32::MIN && other.y == -1)
        &&& other.z != 0 && !(self == i32::MIN && other.z == -1)
        &&& other.w != 0 && !(self == i32::MIN && other.w == -1)
    }

    open spec fn div_spec(self, other: Point4<i32>) -> Point4<i32> {
        Point4 {
            x: quotient(self, other.x),
            y: quotient(self, other.y),
            z: quotient(self, other.z),
            w: quotient(self, other.w),
        }
    }
}

impl AddAssign for Point4<i32> {
    fn add_assign(&mut self, other: Self)
        requires
            fits(old(self).x + other.x),
            fits(old(self).y + other.y),
            fits(old(self).z + other.z),
            fits(old(self).w + other.w),
        ensures
            *final(self) == (Point4 {
                    x: (old(self).x + other.x) as i32,
                    y: (old(self).y + other.y) as i32,
                    z: (old(self).z + other.z) as i32,
                    w: (old(self).w + other.w) as i32,
                }),
    {
        *self = *self + other;
    }
}

impl SubAssign for Point4<i32> {
    fn sub_assign(&mut self, other: Self)
        requires
            fits(old(self).x - other.x),
            fits(old(self).y - other.y),
            fits(old(self).z - other.z),
            fits(old(self).w - other.w),
        ensures
            *final(self) == (Point4 {
                    x: (old(self).x - other.x) as i32,
                    y: (old(self).y - other.y) as i32,
                    z: (old(self).z - other.z) as i32,
                    w: (old(self).w - other.w) as i32,
                }),
    {
        *self = *self - other;
    }
}

impl MulAssign for Point4<i32> {
    fn mul_assign(&mut self, other: Self)
        requires
            fits(old(self).x * other.x),
            fits(old(self).y * other.y),
            fits(old(self).z * other.z),
            fits(old(self).w * other.w),
        ensures
            *final(self) == (Point4 {
                    x: (old(self).x * other.x) as i32,
                    y: (old(self).y * other.y) as i32,
                    z: (old(self).z * other.z) as i32,
                    w: (old(self).w * other.w) as i32,
                }),
    {
        *self = *self * other;
    }
}

impl MulAssign<i32> for Point4<i32> {
    fn mul_assign(&mut self, other: i32)
        requires
            fits(old(self).x * other),
            fits(old(self).y * other),
            fits(old(self).z * other),
            fits(old(self).w * other),
        ensures
            *final(self) == (Point4 {
                    x: (old(self).x * other) as i32,
                    y: (old(self).y * other) as i32,
                    z: (old(self).z * other) as i32,
                    w: (old(self).w * other) as i32,
                }),
    {
        *self = *self * other;
    }
}

impl DivAssign for Point4<i32> {
    fn div_assign(&mut self, other: Self)
        requires
            other.x != 0 && !(old(self).x == i32::MIN && other.x == -1),
            other.y != 0 && !(old(self).y == i32::MIN && other.y == -1),
            other.z != 0 && !(old(self).z == i32::MIN && other.z == -1),
            other.w != 0 && !(old(self).w == i32::MIN && other.w == -1),
        ensures
            *final(self) == (Point4 {
                    x: quotient(old(self).x, other.x),
                    y: quotient(old(self).y, other.y),
                    z: quotient(old(self).z, other.z),
                    w: quotient(old(self).w, other.w),
                }),
    {
        *self = *self / other;
    }
}

impl DivAssign<i32> for Point4<i32> {
    fn div_assign(&mut self, other: i32)
        requires
            other != 0 && !(old(self).x == i32::MIN && other == -1),
            other != 0 && !(old(self).y == i32::MIN && other == -1),
            other != 0 && !(old(self).z == i32::MIN && other == -1),
            other != 0 && !(old(self).w == i32::MIN && other == -1),
        ensures
            *final(self) == (Point4 {
                    x: quotient(old(self).x, other),
                    y: quotient(old(self).y, other),
                    z: quotient(old(self).z, other),
                    w: quotient(old(self).w, other),
                }),
    {
        *self = *self / other;
    }
}

impl From<[i32; 4]> for Point4<i32> {
    fn from(array: [i32; 4]) -> (p: Self) {
        Point4::new(array[0], array[1], array[2], array[3])
    }
}

impl FromSpecImpl<[i32; 4]> for Point4<i32> {
    open spec fn obeys_from_spec() -> bool {
        true
    }

    open spec fn from_spec(array: [i32; 4]) -> Self {
        Point4 { x: array[0], y: array[1], z: array[2], w: array[3] }
    }
}

impl From<Point4<i32>> for [i32; 4] {
    fn from(point: Point4<i32>) -> (array: Self)
        ensures
            array@ == seq![point.x, point.y, point.z, point.w],
    {
        [point.x, point.y, point.z, point.w]
    }
}

impl FromSpecImpl<Point4<i32>> for [i32; 4] {
    open spec fn obeys_from_spec() -> bool {
        false
    }

    open spec fn from_spec(point: Point4<i32>) -> Self {
        arbitrary()
    }
}

/// What is said of a slice that is too short for a point.
pub open spec fn short_slice() -> Seq<char> {
    "Slice must contain at least 4 elements"@
}

impl TryFrom<&[i32]> for Point4<i32> {
    type Error = &'static str;

    fn try_from(slice: &[i32]) -> (r: Result<Self, &'static str>)
        ensures
            match r {
                Ok(p) => slice@.len() >= 4 && p == (Point4 {
                    x: slice@[0],
                    y: slice@[1],
                    z: slice@[2],
                    w: slice@[3],
                }),
                Err(e) => slice@.len() < 4 && e@ == short_slice(),
            },
    {
        if slice.len() >= 4 {
            Ok(Point4::new(slice[0], slice[1], slice[2], slice[3]))
        } else {
            Err("Slice must contain at least 4 elements")
        }
    }
}

impl TryFromSpecImpl<&[i32]> for Point4<i32> {
    open spec fn obeys_try_from_spec() -> bool {
        false
    }

    open spec fn try_from_spec(slice: &[i32]) -> Result<Self, &'static str> {
        arbitrary()
    }
}

/// The coordinate of `p` in place `index`.
pub open spec fn coordinate(p: Point4<i32>, index: usize) -> i32 {
    if index == 0 {
        p.x
    } else if index == 1 {
        p.y
    } else if index == 2 {
        p.z
    } else {
        p.w
    }
}

impl Index<usize> for Point4<i32> {
    type Output = i32;

    fn index(&self, index: usize) -> (r: &i32)
        ensures
            *r == coordinate(*self, index),
    {
        if index == 0 {
            &self.x
        } else if index == 1 {
            &self.y
        } else if index == 2 {
            &self.z
        } else {
            &self.w
        }
    }
}

impl vstd::std_specs::core::IndexSpecImpl<usize> for Point4<i32> {
    open spec fn index_req(&self, index: &usize) -> bool {
        *index < 4
    }
}

impl IndexMut<usize> for Point4<i32> {
    fn index_mut(&mut self, index: usize) -> (r: &mut i32)
        requires
            index < 4,
        ensures
            *r == coordinate(*old(self), index),
    {
        if index == 0 {
            &mut self.x
        } else if index == 1 {
            &mut self.y
        } else if index == 2 {
            &mut self.z
        } else {
            &mut self.w
        }
    }
}

} // verus!
