use mbx::math::{Point2I, Point3, Point4};
use std::convert::TryFrom;

fn len(p: Point2I) -> f64 {
    f64::from(p.len_squared()).sqrt()
}

#[test]
fn point2_test_new() {
    let v2i = Point2I::new(1, 2);
    assert_eq!(
        v2i,
        Point2I {
            x: 1,
            y: 2,
        }
    );
}

#[test]
fn point2_test_zero() {
    assert_eq!(Point2I::zero(), Point2I::new(0, 0));
}

#[test]
fn point2_test_one() {
    assert_eq!(Point2I::one(), Point2I::new(1, 1));
}

#[test]
fn test_with_z() {
    let a = Point2I::new(1, 2).with_z(3);
    let b = Point3::<i32>::new(1, 2, 3);
    assert_eq!(a, b);
}

#[test]
fn test_with_zw() {
    let a = Point2I::new(1, 2).with_zw(3, 4);
    let b = Point4::<i32>::new(1, 2, 3, 4);
    assert_eq!(a, b);
}

#[test]
fn point2_test_unit_x() {
    assert_eq!(Point2I::unit_x(), Point2I::new(1, 0));
}

#[test]
fn point2_test_unit_y() {
    assert_eq!(Point2I::unit_y(), Point2I::new(0, 1));
}

#[test]
fn point2_test_from_array() {
    let array = [1, 2];
    assert_eq!(Point2I::from(array), Point2I::new(1, 2));
}

#[test]
fn point2_test_into_array() {
    let point = Point2I::new(1, 2);
    let array: [i32; 2] = point.into();
    assert_eq!(array, [1, 2]);
}

#[test]
fn point2_test_try_from_slice() {
    let array = [1, 2, 3];
    assert_eq!(Point2I::try_from(&array[0..2]), Ok(Point2I::new(1, 2)));
    assert_eq!(Point2I::try_from(&array[..]), Ok(Point2I::new(1, 2)));
    assert!(Point2I::try_from(&array[0..1]).is_err());
}

#[test]
fn point2_test_is_zero() {
    assert!(Point2I::new(0, 0).is_zero());
    assert!(!Point2I::new(1, 0).is_zero());
    assert!(!Point2I::new(0, 1).is_zero());
}

#[test]
fn point2_test_len() {
    assert_eq!(len(Point2I::new(0, 0)), 0.0);
    assert_eq!(len(Point2I::new(1, 0)), 1.0);
    assert_eq!(len(Point2I::new(0, 1)), 1.0);
    assert_eq!(len(Point2I::new(1, 1)), f64::sqrt(2.0));
}

#[test]
fn point2_test_len_squared() {
    assert_eq!(Point2I::new(0, 0).len_squared(), 0);
    assert_eq!(Point2I::new(1, 0).len_squared(), 1);
    assert_eq!(Point2I::new(0, 1).len_squared(), 1);
    assert_eq!(Point2I::new(1, 1).len_squared(), 2);
}

#[test]
fn test_perpendicular() {
    assert_eq!(Point2I::new(1, 2).perpendicular(), Point2I::new(2, -1));
}

#[test]
fn point2_test_dot() {
    let a = Point2I::new(1, 2);
    let b = Point2I::new(3, 4);
    assert_eq!(Point2I::dot(a, b), 11);
}

#[test]
fn point2_test_neg() {
    assert_eq!(-Point2I::new(1, 2), Point2I::new(-1, -2));
    assert_eq!(-Point2I::new(-1, -2), Point2I::new(1, 2));
}

#[test]
fn point2_test_add() {
    let mut a = Point2I::new(1, 2);
    let b = Point2I::new(3, 4);
    assert_eq!(a + b, Point2I::new(4, 6));
    a += b;
    assert_eq!(a, Point2I::new(4, 6));
}

#[test]
fn point2_test_sub() {
    let mut a = Point2I::new(3, 5);
    let b = Point2I::new(1, 2);
    assert_eq!(a - b, Point2I::new(2, 3));
    a -= b;
    assert_eq!(a, Point2I::new(2, 3));
}

#[test]
fn point2_test_mul() {
    let mut a = Point2I::new(1, 2);
    let b = Point2I::new(3, 4);
    assert_eq!(a * b, Point2I::new(3, 8));
    assert_eq!(a * 2, Point2I::new(2, 4));
    assert_eq!(2 * a, Point2I::new(2, 4));
    a *= b;
    assert_eq!(a, Point2I::new(3, 8));
    a *= 2;
    assert_eq!(a, Point2I::new(6, 16));
}

#[test]
fn point2_quotients_round_towards_zero() {
    let mut a = Point2I::new(2, 8);
    let b = Point2I::new(1, 2);
    assert_eq!(a / b, Point2I::new(2, 4));
    assert_eq!(a / 2, Point2I::new(1, 4));
    assert_eq!(64 / a, Point2I::new(32, 8));
    a /= b;
    assert_eq!(a, Point2I::new(2, 4));
    a /= 2;
    assert_eq!(a, Point2I::new(1, 2));
    assert_eq!(Point2I::new(-7, -7) / 2, Point2I::new(-3, -3));
    assert_eq!(Point2I::new(7, 7) / -2, Point2I::new(-3, -3));
    assert_eq!(-7 / Point2I::new(2, 2), Point2I::new(-3, -3));
}

#[test]
fn point2_test_index() {
    let mut a = Point2I::new(1, 2);
    assert_eq!(a[0], 1);
    assert_eq!(a[1], 2);
    a[0] = 3;
    a[1] = 4;
    assert_eq!(a.x, 3);
    assert_eq!(a.y, 4);
}
