use rat_trig_rs::error::MathError;
use rat_trig_rs::trigonom::{
    archimedes, cosine_law, cross, cross3d, cross_from_line, cross_from_three_points, dilatation,
    quadrance, quadrance3d, quadrance_from_line, quadrance_from_three_points, safe_cosine_law,
    safe_dilatation, safe_quadrance_from_line, safe_spread, safe_spread_from_line, sine_law_product,
    spread, spread3d, spread_from_line, spread_from_three_points, turn,
};

#[test]
fn test_archimedes2() {
    let q_1: i64 = 1;
    let q_2: i64 = 2;
    let q_3: i64 = 3;
    assert_eq!(archimedes(&q_1, &q_2, &q_3), 8);
}

#[test]
fn test_archimedes_i32() {
    let q_1: i32 = 1;
    let q_2: i32 = 2;
    let q_3: i32 = 3;
    assert_eq!(archimedes(&q_1, &q_2, &q_3), 8);
}

#[test]
fn test_quadrance() {
    let p1 = (1, 1);
    let p2 = (4, 5);
    assert_eq!(quadrance(p1, p2), 25);
}

#[test]
fn test_cross() {
    let v1 = (1, 1);
    let v2 = (1, 0);
    assert_eq!(cross(v1, v2), -1);
}

#[test]
fn test_cross_from_line() {
    let l1 = (1, 1, 1);
    let l2 = (1, 0, 0);
    assert_eq!(cross_from_line(l1, l2), -1);
}

#[test]
fn test_quadrance_from_three_points() {
    let p1 = (0, 0);
    let p2 = (1, 0);
    let p3 = (0, 1);
    assert_eq!(quadrance_from_three_points(p1, p2, p3), (2, 1, 1));
}

#[test]
fn test_cross_from_three_points() {
    let p1 = (0, 0);
    let p2 = (1, 0);
    let p3 = (0, 1);
    assert_eq!(cross_from_three_points(p1, p2, p3), 1);
}

#[test]
fn archimedes_regression_anchor_at_every_width() {
    assert_eq!(archimedes(&1i32, &2i32, &3i32), 8);
    assert_eq!(archimedes(&1i64, &2i64, &3i64), 8);
    assert_eq!(archimedes(&1i128, &2i128, &3i128), 8);
    assert_eq!(archimedes(&1u32, &2u32, &3u32), 8);
    assert_eq!(archimedes(&1u64, &2u64, &3u64), 8);
    assert_eq!(archimedes(&1u128, &2u128, &3u128), 8);
}

#[test]
fn archimedes_of_right_triangle_in_any_order() {
    assert_eq!(archimedes(&25, &16, &9), 576);
    assert_eq!(archimedes(&9, &25, &16), 576);
    assert_eq!(archimedes(&16, &9, &25), 576);
}

#[test]
fn quadrance_of_a_point_with_itself_is_zero() {
    assert_eq!(quadrance((7, -3), (7, -3)), 0);
    assert_eq!(quadrance((9u64, 4u64), (9u64, 4u64)), 0);
}

#[test]
fn quadrance_is_symmetric() {
    assert_eq!(quadrance((2, -5), (-1, 3)), 73);
    assert_eq!(quadrance((-1, 3), (2, -5)), 73);
    assert_eq!(quadrance((5u32, 1u32), (2u32, 5u32)), 25);
    assert_eq!(quadrance((2u32, 5u32), (5u32, 1u32)), 25);
}

#[test]
fn cross_of_a_vector_with_itself_is_zero() {
    assert_eq!(cross((3, -7), (3, -7)), 0);
    assert_eq!(cross((3u32, 7u32), (3u32, 7u32)), 0);
}

#[test]
fn unsigned_cross_is_the_absolute_difference() {
    assert_eq!(cross((1u32, 2u32), (3u32, 4u32)), 2);
    assert_eq!(cross((3u64, 4u64), (1u64, 2u64)), 2);
    assert_eq!(cross((1i32, 2i32), (3i32, 4i32)), -2);
}

#[test]
fn integer_spread_rounds_its_quotient_toward_zero() {
    // 1 - 1 / 2, with the quotient 1 / 2 rounded to 0
    assert_eq!(spread((1i64, 1i64), (1i64, 0i64)), 1);
    assert_eq!(spread((1u32, 1u32), (1u32, 0u32)), 1);
    // parallel vectors: 1 - 16 / 16
    assert_eq!(spread((1, 1), (2, 2)), 0);
    // perpendicular vectors: 1 - 0 / 2
    assert_eq!(spread((1, 0), (0, 3)), 1);
}

#[test]
fn safe_spread_reports_a_zero_vector() {
    assert_eq!(safe_spread((0, 0), (3, 4)), Err(MathError::DivisionByZero));
    assert_eq!(safe_spread((1, 0), (0, 0)), Err(MathError::DivisionByZero));
    assert_eq!(safe_spread((0u32, 0u32), (0u32, 0u32)), Err(MathError::DivisionByZero));
    assert_eq!(safe_spread((1, 0), (0, 3)), Ok(1));
    assert_eq!(safe_spread((2, 2), (1, 1)), Ok(0));
}

#[test]
fn quadrance_from_line_divides_by_the_direction() {
    // (1 + 1 + 0)^2 / (1 + 1)
    assert_eq!(quadrance_from_line((1, 1), (1, 1, 0)), 2);
    // (3 + 0 - 1)^2 / 1
    assert_eq!(quadrance_from_line((3, 5), (1, 0, -1)), 4);
    // (1 + 1 + 1)^2 / 2 = 9 / 2, rounded toward zero
    assert_eq!(quadrance_from_line((1, 1), (1, 1, 1)), 4);
}

#[test]
fn safe_quadrance_from_line_reports_a_degenerate_line() {
    assert_eq!(safe_quadrance_from_line((1, 1), (0, 0, 5)), Err(MathError::DivisionByZero));
    assert_eq!(safe_quadrance_from_line((1, 1), (1, 1, 0)), Ok(2));
}

#[test]
fn spread_between_lines() {
    assert_eq!(spread_from_line((1, 0, 0), (0, 1, 0)), 1);
    assert_eq!(spread_from_line((1, 1, 0), (2, 2, 1)), 0);
    // cross 1, quadrances 2 and 1: 1 / 2 rounded toward zero
    assert_eq!(spread_from_line((1, 1, 1), (1, 0, 0)), 0);
}

#[test]
fn safe_spread_from_line_reports_a_degenerate_line() {
    assert_eq!(safe_spread_from_line((0, 0, 1), (1, 0, 0)), Err(MathError::DivisionByZero));
    assert_eq!(safe_spread_from_line((1, 0, 1), (0, 0, 0)), Err(MathError::DivisionByZero));
    assert_eq!(safe_spread_from_line((1, 0, 0), (0, 1, 0)), Ok(1));
}

#[test]
fn spreads_of_a_right_triangle() {
    assert_eq!(spread_from_three_points((0, 0), (1, 0), (0, 1)), (1, 1, 1));
    let (s1, s2, s3) = spread_from_three_points((0, 0), (3, 0), (0, 4));
    assert!(s1 == 1 || s2 == 1 || s3 == 1);
    assert_eq!(s1, 1);
}

#[test]
fn spreads_of_an_obtuse_triangle() {
    // quadrances (41, 25, 4): 1 - (25 + 4 - 41)^2 / (4 * 25 * 4) = 1 - 144 / 400
    assert_eq!(spread_from_three_points((0, 0), (2, 0), (-3, 4)), (1, 1, 1));
}

#[test]
fn spreads_of_collinear_points_are_zero() {
    // quadrances (2, 8, 2): 1 - (8 + 2 - 2)^2 / (4 * 8 * 2) = 1 - 1
    assert_eq!(spread_from_three_points((0, 0), (1, 1), (2, 2)), (0, 0, 0));
}

#[test]
fn cosine_law_and_its_zero_guard() {
    assert_eq!(cosine_law(2, 1, 1), 1);
    // 1 - (1 + 1 - 4)^2 / (4 * 1 * 1) = 1 - 1
    assert_eq!(cosine_law(4, 1, 1), 0);
    assert_eq!(cosine_law(1, 0, 1), 0);
    assert_eq!(cosine_law(1, 1, 0), 0);
    assert_eq!(safe_cosine_law(1, 0, 1), Err(MathError::DivisionByZero));
    assert_eq!(safe_cosine_law(1, 1, 0), Err(MathError::DivisionByZero));
    assert_eq!(safe_cosine_law(2, 1, 1), Ok(1));
}

#[test]
fn dilatation_and_its_zero_guard() {
    assert_eq!(dilatation((1, 0), (2, 0)), 4);
    assert_eq!(dilatation((1, 1), (2, 2)), 4);
    assert_eq!(dilatation((2, 0), (1, 0)), 0);
    assert_eq!(dilatation((0, 0), (2, 0)), 0);
    assert_eq!(safe_dilatation((0, 0), (2, 0)), Err(MathError::DivisionByZero));
    assert_eq!(safe_dilatation((1, 1), (3, 3)), Ok(9));
}

#[test]
fn turn_reads_the_orientation() {
    let (s, sign) = turn((0, 0), (1, 0), (1, 1));
    assert_eq!(s, 1);
    assert!(sign);
    let (s, sign) = turn((0, 0), (1, 0), (1, -1));
    assert_eq!(s, 1);
    assert!(!sign);
    let (s, sign) = turn((0, 0), (1, 0), (2, 0));
    assert_eq!(s, 0);
    assert!(sign);
}

#[test]
fn unsigned_turn_always_reads_counter_clockwise() {
    let (_, sign) = turn((0u32, 2u32), (1u32, 2u32), (2u32, 3u32));
    assert!(sign);
    let (_, sign) = turn((0u32, 0u32), (1u32, 1u32), (2u32, 1u32));
    assert!(sign);
}

#[test]
fn sine_law_products() {
    assert_eq!(sine_law_product(25, 1), 25);
    assert_eq!(sine_law_product(3, -4), -12);
}

#[test]
fn three_dimensional_formulas() {
    assert_eq!(quadrance3d((1, 2, 3), (4, 6, 3)), 25);
    assert_eq!(quadrance3d((1u64, 2u64, 3u64), (4u64, 6u64, 15u64)), 169);
    assert_eq!(cross3d((1, 0, 0), (0, 1, 0)), (0, 0, 1));
    assert_eq!(cross3d((1, 2, 3), (4, 5, 6)), (-3, 6, -3));
    assert_eq!(cross3d((1u32, 2u32, 3u32), (4u32, 5u32, 6u32)), (3, 6, 3));
    assert_eq!(spread3d((1, 0, 0), (0, 1, 0)), 1);
    assert_eq!(spread3d((1, 1, 1), (2, 2, 2)), 0);
}
