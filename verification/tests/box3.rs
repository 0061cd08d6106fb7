use mbx::math::{Box3I, Point3I};

#[test]
fn box3_test_new() {
    let bi = Box3I::new(Point3I::new(1, 2, 3), Point3I::new(4, 5, 6));
    assert_eq!(bi.min, Point3I::new(1, 2, 3));
    assert_eq!(bi.max, Point3I::new(4, 5, 6));
}

#[test]
fn box3_test_zero() {
    let b = Box3I::zero();
    assert_eq!(b.min, Point3I::zero());
    assert_eq!(b.max, Point3I::zero());
}

#[test]
fn box3_test_len() {
    let b = Box3I::new(Point3I::new(1, 2, 3), Point3I::new(105, 155, 675));
    assert_eq!(b.len_x(), 104);
    assert_eq!(b.len_y(), 153);
    assert_eq!(b.len_z(), 672);
    assert_eq!(f64::from(b.diagonal().len_squared()).sqrt(), 697.0);
}

#[test]
fn test_volume() {
    let b = Box3I::new(Point3I::new(1, 2, 3), Point3I::new(4, 8, 12));
    assert_eq!(b.volume(), 162);
}

#[test]
fn box3_center_rounds_towards_zero() {
    let b = Box3I::new(Point3I::new(1, 2, 3), Point3I::new(4, 8, 12));
    assert_eq!(b.center(), Point3I::new(2, 5, 7));
    let c = Box3I::new(Point3I::new(-4, -8, -12), Point3I::new(1, 2, 3));
    assert_eq!(c.center(), Point3I::new(-1, -3, -4));
}
