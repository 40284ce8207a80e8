use rat_trig_rs::const_trigonom::{cross_i32, cross_i64, quadrance_i32, quadrance_i64};

#[test]
fn test_quadrance_i64() {
    let p1 = (1, 1);
    let p2 = (4, 5);
    assert_eq!(quadrance_i64(p1, p2), 25);
}

#[test]
fn test_cross_i64() {
    let v1 = (1, 1);
    let v2 = (1, 0);
    assert_eq!(cross_i64(v1, v2), -1);
}

#[test]
fn test_quadrance_i32() {
    let p1 = (1, 1);
    let p2 = (4, 5);
    assert_eq!(quadrance_i32(p1, p2), 25);
}

#[test]
fn test_cross_i32() {
    let v1 = (1, 1);
    let v2 = (1, 0);
    assert_eq!(cross_i32(v1, v2), -1);
}

#[test]
fn quadrance_i64_of_negative_coordinates() {
    assert_eq!(quadrance_i64((-3, -4), (0, 0)), 25);
    assert_eq!(quadrance_i64((7, 7), (7, 7)), 0);
}

#[test]
fn cross_i32_is_antisymmetric() {
    assert_eq!(cross_i32((2, 3), (5, 7)), -1);
    assert_eq!(cross_i32((5, 7), (2, 3)), 1);
}
