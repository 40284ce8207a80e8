use rat_trig_rs::validation::{
    are_collinear, are_lines_parallel, are_lines_perpendicular, is_acute_triangle,
    is_obtuse_triangle, is_right_triangle, is_valid_quadrance, is_valid_spread, is_valid_triangle,
    perimeter_squared, point_in_triangle, point_on_line, satisfies_triangle_inequality,
};

#[test]
fn test_are_collinear() {
    let p1 = (0, 0);
    let p2 = (1, 1);
    let p3 = (2, 2);
    assert!(are_collinear(p1, p2, p3));
}

#[test]
fn test_not_collinear() {
    let p1 = (0, 0);
    let p2 = (1, 0);
    let p3 = (0, 1);
    assert!(!are_collinear(p1, p2, p3));
}

#[test]
fn test_is_valid_triangle() {
    let p1 = (0, 0);
    let p2 = (1, 0);
    let p3 = (0, 1);
    assert!(is_valid_triangle(p1, p2, p3));
}

#[test]
fn test_is_valid_triangle_false() {
    let p1 = (0, 0);
    let p2 = (1, 1);
    let p3 = (2, 2);
    assert!(!is_valid_triangle(p1, p2, p3));
}

#[test]
fn test_is_valid_quadrance() {
    assert!(is_valid_quadrance(4));
    assert!(is_valid_quadrance(0));
    assert!(!is_valid_quadrance(-1));
}

#[test]
fn test_are_lines_parallel() {
    let l1 = (1, 1, 0);
    let l2 = (2, 2, 1);
    assert!(are_lines_parallel(l1, l2));
}

#[test]
fn test_are_lines_perpendicular() {
    let l1 = (1, 0, 0);
    let l2 = (0, 1, 0);
    assert!(are_lines_perpendicular(l1, l2));
}

#[test]
fn test_point_on_line() {
    let point = (1, 1);
    let line = (1, -1, 0);
    assert!(point_on_line(point, line));
}

#[test]
fn test_perimeter_squared() {
    let result = perimeter_squared(9, 16, 25);
    assert_eq!(result, 50);
}

#[test]
fn test_perimeter_squared_zero() {
    let result = perimeter_squared(0, 0, 0);
    assert_eq!(result, 0);
}

#[test]
fn test_perimeter_squared_equal_sides() {
    let result = perimeter_squared(4, 4, 4);
    assert_eq!(result, 12);
}

#[test]
fn test_is_acute_triangle_integer() {
    assert!(is_acute_triangle(0, 0, 0));
}

#[test]
fn test_is_right_triangle_integer() {
    assert!(is_right_triangle(1, 0, 0));
    assert!(is_right_triangle(0, 1, 0));
    assert!(is_right_triangle(0, 0, 1));
}

#[test]
fn test_are_lines_not_parallel() {
    let l1 = (1, 0, 0);
    let l2 = (0, 1, 0);
    assert!(!are_lines_parallel(l1, l2));
}

#[test]
fn test_are_lines_not_perpendicular() {
    let l1 = (1, 1, 0);
    let l2 = (1, 0, 0);
    assert!(!are_lines_perpendicular(l1, l2));
}

#[test]
fn test_point_not_on_line() {
    let point = (1, 2);
    let line = (1, -1, 0);
    assert!(!point_on_line(point, line));
}

#[test]
fn test_point_on_line_edge() {
    let point = (0, 0);
    let line = (1, 1, 0);
    assert!(point_on_line(point, line));
}

#[test]
fn collinear_points_are_no_valid_triangle() {
    assert!(are_collinear((0, 0), (1, 1), (2, 2)));
    assert!(!is_valid_triangle((0, 0), (1, 1), (2, 2)));
    assert!(are_collinear((3u32, 3u32), (4u32, 5u32), (5u32, 7u32)));
    assert!(!are_collinear((3u32, 3u32), (4u32, 5u32), (5u32, 6u32)));
    assert!(are_collinear((1, 1), (1, 1), (5, -2)));
}

#[test]
fn triangle_inequality_needs_nonnegative_quadrances() {
    assert!(satisfies_triangle_inequality(9, 16, 25));
    assert!(satisfies_triangle_inequality(0, 0, 0));
    assert!(!satisfies_triangle_inequality(-1, 1, 1));
    assert!(!satisfies_triangle_inequality(1, -1, 1));
    assert!(!satisfies_triangle_inequality(1, 1, -1));
}

#[test]
fn spread_validity_bounds() {
    assert!(is_valid_spread(0));
    assert!(is_valid_spread(1));
    assert!(!is_valid_spread(-1));
    assert!(!is_valid_spread(2));
}

#[test]
fn classification_by_integer_spreads() {
    assert!(is_acute_triangle(0, 0, 0));
    assert!(!is_acute_triangle(1, 0, 0));
    assert!(is_right_triangle(1, 1, 1));
    assert!(!is_right_triangle(0, 0, 0));
    // the half rounds to zero over the integers
    assert!(is_obtuse_triangle(1, 0, 0));
    assert!(is_obtuse_triangle(0, 0, 1));
    assert!(!is_obtuse_triangle(0, 0, 0));
}

#[test]
fn point_in_triangle_is_boundary_inclusive() {
    let (p1, p2, p3) = ((0, 0), (2, 0), (0, 2));
    assert!(point_in_triangle((0, 0), p1, p2, p3));
    assert!(point_in_triangle((2, 0), p1, p2, p3));
    assert!(point_in_triangle((0, 2), p1, p2, p3));
    assert!(point_in_triangle((1, 0), p1, p2, p3));
    assert!(point_in_triangle((1, 1), p1, p2, p3));
    assert!(point_in_triangle((0, 1), p1, p2, p3));
}

#[test]
fn point_in_triangle_rejects_points_outside() {
    let (p1, p2, p3) = ((0, 0), (2, 0), (0, 2));
    assert!(!point_in_triangle((2, 2), p1, p2, p3));
    assert!(!point_in_triangle((4, 4), p1, p2, p3));
    assert!(!point_in_triangle((-2, -2), p1, p2, p3));
}

#[test]
fn point_in_triangle_of_a_larger_triangle() {
    let (p1, p2, p3) = ((0i64, 0i64), (6i64, 0i64), (0i64, 6i64));
    assert!(point_in_triangle((1, 1), p1, p2, p3));
    assert!(point_in_triangle((3, 3), p1, p2, p3));
    assert!(!point_in_triangle((7, 7), p1, p2, p3));
}

#[test]
fn degenerate_triangle_contains_no_point() {
    assert!(!point_in_triangle((1, 1), (0, 0), (1, 1), (2, 2)));
    assert!(!point_in_triangle((0, 0), (0, 0), (0, 0), (0, 0)));
}

#[test]
fn test_point_in_triangle_vertex() {
    let point = (0, 0);
    let p1 = (0, 0);
    let p2 = (1, 0);
    let p3 = (0, 1);
    assert!(point_in_triangle(point, p1, p2, p3));
}

#[test]
fn test_point_not_in_triangle() {
    let point = (1, 1);
    let p1 = (0, 0);
    let p2 = (1, 0);
    let p3 = (0, 1);
    assert!(!point_in_triangle(point, p1, p2, p3));
}

#[test]
fn point_in_triangle_rejects_points_just_outside() {
    let (p1, p2, p3) = ((0, 0), (2, 0), (0, 2));
    assert!(!point_in_triangle((-1, 1), p1, p2, p3));
    assert!(!point_in_triangle((3, 0), p1, p2, p3));
    assert!(!point_in_triangle((0, 3), p1, p2, p3));
    assert!(!point_in_triangle((2, 1), p1, p2, p3));
}

#[test]
fn point_in_triangle_with_clockwise_vertices() {
    let (p1, p2, p3) = ((0, 0), (0, 2), (2, 0));
    assert!(point_in_triangle((1, 1), p1, p2, p3));
    assert!(point_in_triangle((0, 0), p1, p2, p3));
    assert!(!point_in_triangle((-1, 1), p1, p2, p3));
    assert!(!point_in_triangle((2, 2), p1, p2, p3));
}

#[test]
fn degenerate_triangle_contains_no_far_point() {
    assert!(!point_in_triangle((i32::MAX, i32::MIN), (0, 0), (1, 1), (2, 2)));
}

#[test]
fn unsigned_lines_are_parallel_by_absolute_cross() {
    assert!(!are_lines_parallel((0u32, 1u32, 0u32), (1u32, 0u32, 0u32)));
    assert!(are_lines_parallel((1u32, 2u32, 0u32), (2u32, 4u32, 7u32)));
}
