use mbx::math::{Plane, PlaneI, Point2I, Point3I, RectI};

#[test]
fn rect_test_new() {
    let recti = RectI::new(Point2I::new(1, 2), Point2I::new(3, 4));
    assert_eq!(recti.point, Point2I::new(1, 2));
    assert_eq!(recti.extent, Point2I::new(3, 4));
}

#[test]
fn rect_test_zero() {
    let rect = RectI::zero();
    assert_eq!(rect.point, Point2I::new(0, 0));
    assert_eq!(rect.extent, Point2I::new(0, 0));
}

#[test]
fn rect_test_one() {
    let rect = RectI::one();
    assert_eq!(rect.point, Point2I::new(0, 0));
    assert_eq!(rect.extent, Point2I::new(1, 1));
}

#[test]
fn rect_test_len() {
    let rect = RectI::new(Point2I::new(1, 2), Point2I::new(3, 4));
    assert_eq!(rect.len_x(), 3);
    assert_eq!(rect.len_y(), 4);
}

#[test]
fn plane_keeps_the_distance_negated() {
    let plane = PlaneI::from_normal(Point3I::new(0, 0, 1), 5);
    assert_eq!(plane, Plane::new(0, 0, 1, -5));
    assert_eq!(plane.normal(), Point3I::new(0, 0, 1));
    assert_eq!(plane.distance(), 5);
}
