use rat_trig_rs::geometry::{Line2D, Point2D, Point3D, Triangle2D, Triangle3D, Vector2D, Vector3D};

#[test]
fn test_point2d_from_tuple() {
    let p: Point2D<i32> = (1, 2).into();
    assert_eq!(p.x, 1);
    assert_eq!(p.y, 2);
}

#[test]
fn test_vector2d_add() {
    let v1 = Vector2D::new(1, 2);
    let v2 = Vector2D::new(3, 4);
    let result = v1 + v2;
    assert_eq!(result.x, 4);
    assert_eq!(result.y, 6);
}

#[test]
fn test_vector2d_sub() {
    let v1 = Vector2D::new(3, 4);
    let v2 = Vector2D::new(1, 2);
    let result = v1 - v2;
    assert_eq!(result.x, 2);
    assert_eq!(result.y, 2);
}

#[test]
fn test_triangle2d_quadrances() {
    let p1 = Point2D::new(0, 0);
    let p2 = Point2D::new(1, 0);
    let p3 = Point2D::new(0, 1);
    let triangle = Triangle2D::new(p1, p2, p3);
    let (q1, q2, q3) = triangle.quadrances();
    assert_eq!(q1, 2);
    assert_eq!(q2, 1);
    assert_eq!(q3, 1);
}

#[test]
fn test_triangle2d_area() {
    let p1 = Point2D::new(0, 0);
    let p2 = Point2D::new(1, 0);
    let p3 = Point2D::new(0, 1);
    let triangle = Triangle2D::new(p1, p2, p3);
    let area = triangle.area();
    assert_eq!(area, 4);
}

#[test]
fn test_triangle2d_twist() {
    let p1 = Point2D::new(0, 0);
    let p2 = Point2D::new(1, 0);
    let p3 = Point2D::new(0, 1);
    let triangle = Triangle2D::new(p1, p2, p3);
    assert_eq!(triangle.twist(), 1);
}

#[test]
fn test_triangle2d_is_degenerate() {
    let p1 = Point2D::new(0, 0);
    let p2 = Point2D::new(1, 1);
    let p3 = Point2D::new(2, 2);
    let triangle = Triangle2D::new(p1, p2, p3);
    assert!(triangle.is_degenerate());
}

#[test]
fn test_triangle2d_not_degenerate() {
    let p1 = Point2D::new(0, 0);
    let p2 = Point2D::new(1, 0);
    let p3 = Point2D::new(0, 1);
    let triangle = Triangle2D::new(p1, p2, p3);
    assert!(!triangle.is_degenerate());
}

#[test]
fn test_triangle3d_quadrances() {
    let p1 = Point3D::new(0, 0, 0);
    let p2 = Point3D::new(1, 0, 0);
    let p3 = Point3D::new(0, 1, 0);
    let triangle = Triangle3D::new(p1, p2, p3);
    let (q1, q2, q3) = triangle.quadrances();
    assert_eq!(q1, 2);
    assert_eq!(q2, 1);
    assert_eq!(q3, 1);
}

#[test]
fn vector2d_from_point_keeps_coordinates() {
    let v: Vector2D<i64> = Point2D::new(-3, 8).into();
    assert_eq!(v, Vector2D::new(-3, 8));
    let w: Vector2D<i64> = (5, 6).into();
    assert_eq!(w, Vector2D::new(5, 6));
}

#[test]
fn vector3d_arithmetic_and_conversions() {
    let v1 = Vector3D::new(1, 2, 3);
    let v2 = Vector3D::new(4, 6, 8);
    assert_eq!(v1 + v2, Vector3D::new(5, 8, 11));
    assert_eq!(v2 - v1, Vector3D::new(3, 4, 5));
    let from_point: Vector3D<i32> = Point3D::new(7, 8, 9).into();
    assert_eq!(from_point, Vector3D::new(7, 8, 9));
    let from_tuple: Vector3D<i32> = (1, 0, -1).into();
    assert_eq!(from_tuple, Vector3D::new(1, 0, -1));
    let p: Point3D<u64> = (1, 2, 3).into();
    assert_eq!(p, Point3D::new(1, 2, 3));
}

#[test]
fn line2d_construction() {
    let l = Line2D::new(1, -1, 0);
    assert_eq!((l.a, l.b, l.c), (1, -1, 0));
    let m: Line2D<i32> = (2, 3, 4).into();
    assert_eq!(m, Line2D::new(2, 3, 4));
}

#[test]
fn collinear_triangle_has_zero_twist() {
    let triangle = Triangle2D::new(Point2D::new(0, 0), Point2D::new(1, 1), Point2D::new(2, 2));
    assert!(triangle.is_degenerate());
    assert_eq!(triangle.twist(), 0);
    assert_eq!(triangle.area(), 0);
}

#[test]
fn clockwise_triangle_has_negative_twist() {
    let triangle = Triangle2D::new(Point2D::new(0, 0), Point2D::new(0, 4), Point2D::new(3, 0));
    assert_eq!(triangle.twist(), -12);
    assert!(!triangle.is_degenerate());
}

#[test]
fn unsigned_triangle_twist_is_absolute() {
    let triangle: Triangle2D<u32> =
        Triangle2D::new(Point2D::new(0, 0), Point2D::new(0, 4), Point2D::new(3, 0));
    assert_eq!(triangle.twist(), 12);
    assert_eq!(triangle.quadrances(), (25, 9, 16));
    assert_eq!(triangle.area(), 576);
}

#[test]
fn triangle3d_quadrances_in_space() {
    let triangle = Triangle3D::new(Point3D::new(1, 2, 3), Point3D::new(4, 6, 3), Point3D::new(1, 2, 15));
    assert_eq!(triangle.quadrances(), (169, 144, 25));
}
