use mbx::math::Point4I;
use std::convert::TryFrom;

fn len(p: Point4I) -> f64 {
    f64::from(p.len_squared()).sqrt()
}

#[test]
fn point4_test_new() {
    let v2i = Point4I::new(1, 2, 3, 4);
    assert_eq!(
        v2i,
        Point4I {
            x: 1,
            y: 2,
            z: 3,
            w: 4,
        }
    );
}

#[test]
fn point4_test_zero() {
    assert_eq!(Point4I::zero(), Point4I::new(0, 0, 0, 0));
}

#[test]
fn point4_test_one() {
    assert_eq!(Point4I::one(), Point4I::new(1, 1, 1, 1));
}

#[test]
fn point4_test_unit_x() {
    assert_eq!(Point4I::unit_x(), Point4I::new(1, 0, 0, 0));
}

#[test]
fn point4_test_unit_y() {
    assert_eq!(Point4I::unit_y(), Point4I::new(0, 1, 0, 0));
}

#[test]
fn point4_test_unit_z() {
    assert_eq!(Point4I::unit_z(), Point4I::new(0, 0, 1, 0));
}

#[test]
fn test_unit_w() {
    assert_eq!(Point4I::unit_w(), Point4I::new(0, 0, 0, 1));
}

#[test]
fn point4_test_from_array() {
    let array = [1, 2, 3, 4];
    assert_eq!(Point4I::from(array), Point4I::new(1, 2, 3, 4));
}

#[test]
fn point4_test_into_array() {
    let point = Point4I::new(1, 2, 3, 4);
    let array: [i32; 4] = point.into();
    assert_eq!(array, [1, 2, 3, 4]);
}

#[test]
fn point4_test_try_from_slice() {
    let array = [1, 2, 3, 4, 5];
    assert_eq!(Point4I::try_from(&array[0..4]), Ok(Point4I::new(1, 2, 3, 4)));
    assert_eq!(Point4I::try_from(&array[..]), Ok(Point4I::new(1, 2, 3, 4)));
    assert!(Point4I::try_from(&array[0..3]).is_err());
}

#[test]
fn point4_test_is_zero() {
    assert!(Point4I::new(0, 0, 0, 0).is_zero());
    assert!(!Point4I::new(1, 0, 0, 0).is_zero());
    assert!(!Point4I::new(0, 1, 0, 0).is_zero());
    assert!(!Point4I::new(0, 0, 1, 0).is_zero());
    assert!(!Point4I::new(0, 0, 0, 1).is_zero());
}

#[test]
fn point4_test_len() {
    assert_eq!(len(Point4I::new(0, 0, 0, 0)), 0.0);
    assert_eq!(len(Point4I::new(1, 0, 0, 0)), 1.0);
    assert_eq!(len(Point4I::new(0, 1, 0, 0)), 1.0);
    assert_eq!(len(Point4I::new(0, 0, 1, 0)), 1.0);
    assert_eq!(len(Point4I::new(0, 0, 0, 1)), 1.0);
    assert_eq!(len(Point4I::new(1, 1, 1, 1)), f64::sqrt(4.0));
}

#[test]
fn point4_test_len_squared() {
    assert_eq!(Point4I::new(0, 0, 0, 0).len_squared(), 0);
    assert_eq!(Point4I::new(1, 0, 0, 0).len_squared(), 1);
    assert_eq!(Point4I::new(0, 1, 0, 0).len_squared(), 1);
    assert_eq!(Point4I::new(0, 0, 1, 0).len_squared(), 1);
    assert_eq!(Point4I::new(0, 0, 0, 1).len_squared(), 1);
    assert_eq!(Point4I::new(1, 1, 1, 1).len_squared(), 4);
}

#[test]
fn point4_test_dot() {
    let a = Point4I::new(1, 2, 3, 4);
    let b = Point4I::new(5, 6, 7, 8);
    assert_eq!(Point4I::dot(a, b), 70);
}

#[test]
fn point4_test_neg() {
    assert_eq!(-Point4I::new(1, 2, 3, 4), Point4I::new(-1, -2, -3, -4));
    assert_eq!(-Point4I::new(-1, -2, -3, -4), Point4I::new(1, 2, 3, 4));
}

#[test]
fn point4_test_add() {
    let mut a = Point4I::new(1, 2, 3, 4);
    let b = Point4I::new(5, 6, 7, 8);
    assert_eq!(a + b, Point4I::new(6, 8, 10, 12));
    a += b;
    assert_eq!(a, Point4I::new(6, 8, 10, 12));
}

#[test]
fn point4_test_sub() {
    let mut a = Point4I::new(5, 7, 9, 11);
    let b = Point4I::new(1, 2, 3, 4);
    assert_eq!(a - b, Point4I::new(4, 5, 6, 7));
    a -= b;
    assert_eq!(a, Point4I::new(4, 5, 6, 7));
}

#[test]
fn point4_test_mul() {
    let mut a = Point4I::new(1, 2, 3, 4);
    let b = Point4I::new(5, 6, 7, 8);
    assert_eq!(a * b, Point4I::new(5, 12, 21, 32));
    assert_eq!(a * 2, Point4I::new(2, 4, 6, 8));
    assert_eq!(2 * a, Point4I::new(2, 4, 6, 8));
    a *= b;
    assert_eq!(a, Point4I::new(5, 12, 21, 32));
    a *= 2;
    assert_eq!(a, Point4I::new(10, 24, 42, 64));
}

#[test]
fn point4_quotients_round_towards_zero() {
    let mut a = Point4I::new(2, 8, 32, 128);
    let b = Point4I::new(1, 2, 4, 8);
    assert_eq!(a / b, Point4I::new(2, 4, 8, 16));
    assert_eq!(a / 2, Point4I::new(1, 4, 16, 64));
    assert_eq!(64 / a, Point4I::new(32, 8, 2, 0));
    a /= b;
    assert_eq!(a, Point4I::new(2, 4, 8, 16));
    a /= 2;
    assert_eq!(a, Point4I::new(1, 2, 4, 8));
    assert_eq!(Point4I::new(-7, -7, -7, -7) / 2, Point4I::new(-3, -3, -3, -3));
    assert_eq!(Point4I::new(7, 7, 7, 7) / -2, Point4I::new(-3, -3, -3, -3));
    assert_eq!(-7 / Point4I::new(2, 2, 2, 2), Point4I::new(-3, -3, -3, -3));
}

#[test]
fn point4_test_index() {
    let mut a = Point4I::new(1, 2, 3, 4);
    assert_eq!(a[0], 1);
    assert_eq!(a[1], 2);
    assert_eq!(a[2], 3);
    assert_eq!(a[3], 4);
    a[0] = 5;
    a[1] = 6;
    a[2] = 7;
    a[3] = 8;
    assert_eq!(a.x, 5);
    assert_eq!(a.y, 6);
    assert_eq!(a.z, 7);
    assert_eq!(a.w, 8);
}
