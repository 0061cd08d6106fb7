use mbx::math::{Point3I, Point4};
use std::convert::TryFrom;

fn len(p: Point3I) -> f64 {
    f64::from(p.len_squared()).sqrt()
}

#[test]
fn point3_test_new() {
    let v2i = Point3I::new(1, 2, 3);
    assert_eq!(
        v2i,
        Point3I {
            x: 1,
            y: 2,
            z: 3,
        }
    );
}

#[test]
fn point3_test_zero() {
    assert_eq!(Point3I::zero(), Point3I::new(0, 0, 0));
}

#[test]
fn point3_test_one() {
    assert_eq!(Point3I::one(), Point3I::new(1, 1, 1));
}

#[test]
fn test_with_w() {
    let a = Point3I::new(1, 2, 3).with_w(4);
    let b = Point4::<i32>::new(1, 2, 3, 4);
    assert_eq!(a, b);
}

#[test]
fn point3_test_unit_x() {
    assert_eq!(Point3I::unit_x(), Point3I::new(1, 0, 0));
}

#[test]
fn point3_test_unit_y() {
    assert_eq!(Point3I::unit_y(), Point3I::new(0, 1, 0));
}

#[test]
fn point3_test_unit_z() {
    assert_eq!(Point3I::unit_z(), Point3I::new(0, 0, 1));
}

#[test]
fn point3_test_from_array() {
    let array = [1, 2, 3];
    assert_eq!(Point3I::from(array), Point3I::new(1, 2, 3));
}

#[test]
fn point3_test_into_array() {
    let point = Point3I::new(1, 2, 3);
    let array: [i32; 3] = point.into();
    assert_eq!(array, [1, 2, 3]);
}

#[test]
fn point3_test_try_from_slice() {
    let array = [1, 2, 3, 4];
    assert_eq!(Point3I::try_from(&array[0..3]), Ok(Point3I::new(1, 2, 3)));
    assert_eq!(Point3I::try_from(&array[..]), Ok(Point3I::new(1, 2, 3)));
    assert!(Point3I::try_from(&array[0..2]).is_err());
}

#[test]
fn point3_test_is_zero() {
    assert!(Point3I::new(0, 0, 0).is_zero());
    assert!(!Point3I::new(1, 0, 0).is_zero());
    assert!(!Point3I::new(0, 1, 0).is_zero());
    assert!(!Point3I::new(0, 0, 1).is_zero());
}

#[test]
fn point3_test_len() {
    assert_eq!(len(Point3I::new(0, 0, 0)), 0.0);
    assert_eq!(len(Point3I::new(1, 0, 0)), 1.0);
    assert_eq!(len(Point3I::new(0, 1, 0)), 1.0);
    assert_eq!(len(Point3I::new(0, 0, 1)), 1.0);
    assert_eq!(len(Point3I::new(1, 1, 1)), f64::sqrt(3.0));
}

#[test]
fn point3_test_len_squared() {
    assert_eq!(Point3I::new(0, 0, 0).len_squared(), 0);
    assert_eq!(Point3I::new(1, 0, 0).len_squared(), 1);
    assert_eq!(Point3I::new(0, 1, 0).len_squared(), 1);
    assert_eq!(Point3I::new(0, 0, 1).len_squared(), 1);
    assert_eq!(Point3I::new(1, 1, 1).len_squared(), 3);
}

#[test]
fn point3_test_dot() {
    let a = Point3I::new(1, 2, 3);
    let b = Point3I::new(4, 5, 6);
    assert_eq!(Point3I::dot(a, b), 32);
}

#[test]
fn test_cross() {
    let a = Point3I::new(1, 2, 3);
    let b = Point3I::new(4, 5, 6);
    assert_eq!(Point3I::cross(a, b), Point3I::new(-3, 6, -3));
    assert_eq!(Point3I::cross(b, a), Point3I::new(3, -6, 3));
}

#[test]
fn point3_test_neg() {
    assert_eq!(-Point3I::new(1, 2, 3), Point3I::new(-1, -2, -3));
    assert_eq!(-Point3I::new(-1, -2, -3), Point3I::new(1, 2, 3));
}

#[test]
fn point3_test_add() {
    let mut a = Point3I::new(1, 2, 3);
    let b = Point3I::new(4, 5, 6);
    assert_eq!(a + b, Point3I::new(5, 7, 9));
    a += b;
    assert_eq!(a, Point3I::new(5, 7, 9));
}

#[test]
fn point3_test_sub() {
    let mut a = Point3I::new(4, 6, 8);
    let b = Point3I::new(1, 2, 3);
    assert_eq!(a - b, Point3I::new(3, 4, 5));
    a -= b;
    assert_eq!(a, Point3I::new(3, 4, 5));
}

#[test]
fn point3_test_mul() {
    let mut a = Point3I::new(1, 2, 3);
    let b = Point3I::new(4, 5, 6);
    assert_eq!(a * b, Point3I::new(4, 10, 18));
    assert_eq!(a * 2, Point3I::new(2, 4, 6));
    assert_eq!(2 * a, Point3I::new(2, 4, 6));
    a *= b;
    assert_eq!(a, Point3I::new(4, 10, 18));
    a *= 2;
    assert_eq!(a, Point3I::new(8, 20, 36));
}

#[test]
fn point3_quotients_round_towards_zero() {
    let mut a = Point3I::new(2, 8, 32);
    let b = Point3I::new(1, 2, 4);
    assert_eq!(a / b, Point3I::new(2, 4, 8));
    assert_eq!(a / 2, Point3I::new(1, 4, 16));
    assert_eq!(64 / a, Point3I::new(32, 8, 2));
    a /= b;
    assert_eq!(a, Point3I::new(2, 4, 8));
    a /= 2;
    assert_eq!(a, Point3I::new(1, 2, 4));
    assert_eq!(Point3I::new(-7, -7, -7) / 2, Point3I::new(-3, -3, -3));
    assert_eq!(Point3I::new(7, 7, 7) / -2, Point3I::new(-3, -3, -3));
    assert_eq!(-7 / Point3I::new(2, 2, 2), Point3I::new(-3, -3, -3));
}

#[test]
fn point3_test_index() {
    let mut a = Point3I::new(1, 2, 3);
    assert_eq!(a[0], 1);
    assert_eq!(a[1], 2);
    assert_eq!(a[2], 3);
    a[0] = 4;
    a[1] = 5;
    a[2] = 6;
    assert_eq!(a.x, 4);
    assert_eq!(a.y, 5);
    assert_eq!(a.z, 6);
}
