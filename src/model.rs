//! The integer model of the formulas: what each one computes, what each one
//! needs so that every intermediate value is representable, and the facts
//! about them that the proofs use.

use vstd::prelude::*;
use crate::scalar::{Scalar, fits, gap, lemma_trunc_div_bounds, trunc_div};

verus! {

/// The quadrance between two points: the square of their distance.
pub open spec fn spec_quadrance(p1: (int, int), p2: (int, int)) -> int {
    (p1.0 - p2.0) * (p1.0 - p2.0) + (p1.1 - p2.1) * (p1.1 - p2.1)
}

/// The cross product `x1 * y2 - y1 * x2` of two vectors; in an unsigned domain its
/// absolute value.
pub open spec fn spec_cross(signed: bool, v1: (int, int), v2: (int, int)) -> int {
    gap(signed, v1.0 * v2.1, v1.1 * v2.0)
}

/// Archimedes' quadrea of three quadrances: `4 q1 q2 - (q1 + q2 - q3)^2`.
pub open spec fn spec_archimedes(q1: int, q2: int, q3: int) -> int {
    4 * q1 * q2 - (q1 + q2 - q3) * (q1 + q2 - q3)
}

/// The dot product of two vectors.
pub open spec fn spec_dot(v1: (int, int), v2: (int, int)) -> int {
    v1.0 * v2.0 + v1.1 * v2.1
}

/// The origin of the plane.
pub open spec fn origin() -> (int, int) {
    (0, 0)
}

/// The spread of two nonzero vectors, `1 - dot^2 / (q1 q2)`, with the quotient
/// rounded toward zero.
pub open spec fn spec_spread(v1: (int, int), v2: (int, int)) -> int {
    let d = spec_dot(v1, v2);
    1 - trunc_div(d * d, spec_quadrance(v1, origin()) * spec_quadrance(v2, origin()))
}

/// The quadrance is never negative, and is zero exactly between equal points.
pub proof fn lemma_quadrance_nonneg(p1: (int, int), p2: (int, int))
    ensures
        spec_quadrance(p1, p2) >= 0,
        spec_quadrance(p1, p2) == 0 <==> p1 == p2,
{
    let dx = p1.0 - p2.0;
    let dy = p1.1 - p2.1;
    assert(dx * dx >= 0 && dy * dy >= 0) by (nonlinear_arith);
    if dx != 0 {
        assert(dx * dx > 0) by (nonlinear_arith)
            requires
                dx != 0,
        ;
    }
    if dy != 0 {
        assert(dy * dy > 0) by (nonlinear_arith)
            requires
                dy != 0,
        ;
    }
}

/// Lagrange's identity: the product of the quadrances of two vectors is the
/// square of their dot product plus the square of their cross product.
pub proof fn lemma_lagrange(v1: (int, int), v2: (int, int))
    ensures
        spec_quadrance(v1, origin()) * spec_quadrance(v2, origin()) == spec_dot(v1, v2)
            * spec_dot(v1, v2) + spec_cross(true, v1, v2) * spec_cross(true, v1, v2),
{
    let (a, b) = v1;
    let (c, d) = v2;
    let (aa, bb, cc, dd) = (a * a, b * b, c * c, d * d);
    let (ac, bd, ad, bc) = (a * c, b * d, a * d, b * c);
    assert((aa + bb) * (cc + dd) == aa * cc + aa * dd + bb * cc + bb * dd) by (nonlinear_arith);
    assert((ac + bd) * (ac + bd) == ac * ac + 2 * (ac * bd) + bd * bd) by (nonlinear_arith);
    assert((ad - bc) * (ad - bc) == ad * ad - 2 * (ad * bc) + bc * bc) by (nonlinear_arith);
    assert(ac * ac == aa * cc && bd * bd == bb * dd && ad * ad == aa * dd && bc * bc == bb * cc)
        by (nonlinear_arith)
        requires
            aa == a * a && bb == b * b && cc == c * c && dd == d * d,
            ac == a * c && bd == b * d && ad == a * d && bc == b * c,
    ;
    assert(ac * bd == ad * bc) by (nonlinear_arith)
        requires
            ac == a * c && bd == b * d && ad == a * d && bc == b * c,
    ;
}

/// Every intermediate value of [`quadrance`](crate::trigonom::quadrance) is representable in `T`.
pub open spec fn quadrance_fits<T: Scalar>(p1: (int, int), p2: (int, int)) -> bool {
    let dx = p1.0 - p2.0;
    let dy = p1.1 - p2.1;
    &&& fits::<T>(gap(T::is_signed(), p1.0, p2.0))
    &&& fits::<T>(gap(T::is_signed(), p1.1, p2.1))
    &&& fits::<T>(dx * dx)
    &&& fits::<T>(dy * dy)
    &&& fits::<T>(dx * dx + dy * dy)
}

/// Every intermediate value of [`cross`](crate::trigonom::cross) is representable in `T`.
pub open spec fn cross_fits<T: Scalar>(v1: (int, int), v2: (int, int)) -> bool {
    &&& fits::<T>(v1.0 * v2.1)
    &&& fits::<T>(v1.1 * v2.0)
    &&& fits::<T>(spec_cross(T::is_signed(), v1, v2))
}

/// Every intermediate value of [`archimedes`](crate::trigonom::archimedes) is representable in `T`.
pub open spec fn archimedes_fits<T: Scalar>(q1: int, q2: int, q3: int) -> bool {
    let t = q1 + q2 - q3;
    &&& fits::<T>(q1 + q2)
    &&& fits::<T>(t)
    &&& fits::<T>(4 * q1)
    &&& fits::<T>(4 * q1 * q2)
    &&& fits::<T>(t * t)
    &&& fits::<T>(spec_archimedes(q1, q2, q3))
}

/// Every intermediate value of [`spread`](crate::trigonom::spread) is representable in `T`.
pub open spec fn spread_fits<T: Scalar>(v1: (int, int), v2: (int, int)) -> bool {
    let d = spec_dot(v1, v2);
    &&& quadrance_fits::<T>(v1, origin())
    &&& quadrance_fits::<T>(v2, origin())
    &&& fits::<T>(v1.0 * v2.0)
    &&& fits::<T>(v1.1 * v2.1)
    &&& fits::<T>(d)
    &&& fits::<T>(d * d)
    &&& fits::<T>(spec_quadrance(v1, origin()) * spec_quadrance(v2, origin()))
}

/// The product of two quadrances from the origin is zero exactly where one of
/// the vectors is zero, and positive elsewhere.
pub proof fn lemma_quadrance_product(v1: (int, int), v2: (int, int))
    ensures
        spec_quadrance(v1, origin()) * spec_quadrance(v2, origin()) >= 0,
        spec_quadrance(v1, origin()) * spec_quadrance(v2, origin()) == 0 <==> (v1 == origin()
            || v2 == origin()),
{
    lemma_quadrance_nonneg(v1, origin());
    lemma_quadrance_nonneg(v2, origin());
    let q1 = spec_quadrance(v1, origin());
    let q2 = spec_quadrance(v2, origin());
    assert(q1 * q2 >= 0 && (q1 * q2 == 0 <==> (q1 == 0 || q2 == 0))) by (nonlinear_arith)
        requires
            q1 >= 0,
            q2 >= 0,
    ;
}

/// Where [`spread_fits`] holds and neither vector is zero, the quotient and the
/// spread are representable too: the squared dot product never exceeds the
/// product of the quadrances.
pub proof fn lemma_spread_fits<T: Scalar>(v1: (int, int), v2: (int, int))
    requires
        spread_fits::<T>(v1, v2),
        v1 != origin(),
        v2 != origin(),
    ensures
        fits::<T>(
            trunc_div(
                spec_dot(v1, v2) * spec_dot(v1, v2),
                spec_quadrance(v1, origin()) * spec_quadrance(v2, origin()),
            ),
        ),
        fits::<T>(spec_spread(v1, v2)),
{
    let d = spec_dot(v1, v2);
    let c = spec_cross(true, v1, v2);
    let den = spec_quadrance(v1, origin()) * spec_quadrance(v2, origin());
    lemma_quadrance_product(v1, v2);
    lemma_lagrange(v1, v2);
    assert(d * d >= 0 && c * c >= 0) by (nonlinear_arith);
    lemma_trunc_div_bounds(d * d, den);
    T::lemma_range();
}

/// The direction part `(a, b)` of a line `a x + b y + c = 0`.
pub open spec fn direction(l: (int, int, int)) -> (int, int) {
    (l.0, l.1)
}

/// The value `a x + b y + c` of a line's equation at a point.
pub open spec fn spec_line_value(p: (int, int), l: (int, int, int)) -> int {
    l.0 * p.0 + l.1 * p.1 + l.2
}

/// The quadrance from a point to a line, `(a x + b y + c)^2 / (a^2 + b^2)`,
/// with the quotient rounded toward zero.
pub open spec fn spec_quadrance_from_line(p: (int, int), l: (int, int, int)) -> int {
    let t = spec_line_value(p, l);
    trunc_div(t * t, spec_quadrance(direction(l), origin()))
}

/// Every intermediate value of [`quadrance_from_line`](crate::trigonom::quadrance_from_line) is representable in `T`.
pub open spec fn quadrance_from_line_fits<T: Scalar>(p: (int, int), l: (int, int, int)) -> bool {
    let t = spec_line_value(p, l);
    &&& fits::<T>(l.0 * p.0)
    &&& fits::<T>(l.1 * p.1)
    &&& fits::<T>(l.0 * p.0 + l.1 * p.1)
    &&& fits::<T>(t)
    &&& fits::<T>(t * t)
    &&& quadrance_fits::<T>(direction(l), origin())
}

/// The spread between two lines, `cross^2 / (q1 q2)` over their directions,
/// with the quotient rounded toward zero.
pub open spec fn spec_spread_from_line(signed: bool, l1: (int, int, int), l2: (int, int, int)) -> int {
    let c = spec_cross(signed, direction(l1), direction(l2));
    trunc_div(
        c * c,
        spec_quadrance(direction(l1), origin()) * spec_quadrance(direction(l2), origin()),
    )
}

/// Every intermediate value of [`spread_from_line`](crate::trigonom::spread_from_line) is representable in `T`.
pub open spec fn spread_from_line_fits<T: Scalar>(l1: (int, int, int), l2: (int, int, int)) -> bool {
    let c = spec_cross(T::is_signed(), direction(l1), direction(l2));
    &&& cross_fits::<T>(direction(l1), direction(l2))
    &&& fits::<T>(c * c)
    &&& quadrance_fits::<T>(direction(l1), origin())
    &&& quadrance_fits::<T>(direction(l2), origin())
    &&& fits::<T>(
        spec_quadrance(direction(l1), origin()) * spec_quadrance(direction(l2), origin()),
    )
}

/// The spread opposite the side of quadrance `q1` in a triangle whose sides
/// have the quadrances `q1`, `q2` and `q3`: `1 - (q2 + q3 - q1)^2 / (4 q2 q3)`,
/// with the quotient rounded toward zero.
pub open spec fn spec_cosine_law(q1: int, q2: int, q3: int) -> int {
    let n = q2 + q3 - q1;
    1 - trunc_div(n * n, 4 * q2 * q3)
}

/// Every intermediate value of [`cosine_law`](crate::trigonom::cosine_law) is representable in `T`.
pub open spec fn cosine_law_fits<T: Scalar>(q1: int, q2: int, q3: int) -> bool {
    let n = q2 + q3 - q1;
    q2 != 0 && q3 != 0 ==> {
        &&& fits::<T>(q2 + q3)
        &&& fits::<T>(n)
        &&& fits::<T>(n * n)
        &&& fits::<T>(4 * q2)
        &&& fits::<T>(4 * q2 * q3)
        &&& fits::<T>(spec_cosine_law(q1, q2, q3))
    }
}

/// The vector from `p1` to `p2`.
pub open spec fn vec_between(p1: (int, int), p2: (int, int)) -> (int, int) {
    (p2.0 - p1.0, p2.1 - p1.1)
}

/// Both differences of `vec_between(p1, p2)` are representable in `T`.
pub open spec fn vec_between_fits<T: Scalar>(p1: (int, int), p2: (int, int)) -> bool {
    fits::<T>(p2.0 - p1.0) && fits::<T>(p2.1 - p1.1)
}

/// The quadrances of the sides of a triangle, each named by the vertex that it
/// faces: `(Q(p2, p3), Q(p1, p3), Q(p1, p2))`.
pub open spec fn spec_quadrances(p1: (int, int), p2: (int, int), p3: (int, int)) -> (int, int, int) {
    (spec_quadrance(p2, p3), spec_quadrance(p1, p3), spec_quadrance(p1, p2))
}

/// Every intermediate value of [`quadrance_from_three_points`](crate::trigonom::quadrance_from_three_points) is representable in `T`.
pub open spec fn quadrances_fit<T: Scalar>(p1: (int, int), p2: (int, int), p3: (int, int)) -> bool {
    quadrance_fits::<T>(p2, p3) && quadrance_fits::<T>(p1, p3) && quadrance_fits::<T>(p1, p2)
}

/// The spreads of a triangle at its three vertices, each from the quadrances
/// by the cosine law.
pub open spec fn spec_spreads(p1: (int, int), p2: (int, int), p3: (int, int)) -> (int, int, int) {
    let (q1, q2, q3) = spec_quadrances(p1, p2, p3);
    (spec_cosine_law(q1, q2, q3), spec_cosine_law(q2, q1, q3), spec_cosine_law(q3, q1, q2))
}

/// Every intermediate value of [`spread_from_three_points`](crate::trigonom::spread_from_three_points) is representable in `T`.
pub open spec fn spreads_fit<T: Scalar>(p1: (int, int), p2: (int, int), p3: (int, int)) -> bool {
    let (q1, q2, q3) = spec_quadrances(p1, p2, p3);
    &&& quadrances_fit::<T>(p1, p2, p3)
    &&& cosine_law_fits::<T>(q1, q2, q3)
    &&& cosine_law_fits::<T>(q2, q1, q3)
    &&& cosine_law_fits::<T>(q3, q1, q2)
}

/// The cross product of the two edges that leave `p1`: twice the signed area
/// of the triangle, or its absolute value in an unsigned domain.
pub open spec fn spec_twist(signed: bool, p1: (int, int), p2: (int, int), p3: (int, int)) -> int {
    spec_cross(signed, vec_between(p1, p2), vec_between(p1, p3))
}

/// Every intermediate value of [`cross_from_three_points`](crate::trigonom::cross_from_three_points) is representable in `T`.
pub open spec fn twist_fits<T: Scalar>(p1: (int, int), p2: (int, int), p3: (int, int)) -> bool {
    &&& vec_between_fits::<T>(p1, p2)
    &&& vec_between_fits::<T>(p1, p3)
    &&& cross_fits::<T>(vec_between(p1, p2), vec_between(p1, p3))
}

/// The squared scale factor from `v1` to `v2`, `q2 / q1`, with the quotient
/// rounded toward zero; zero where `v1` is the zero vector.
pub open spec fn spec_dilatation(v1: (int, int), v2: (int, int)) -> int {
    let q1 = spec_quadrance(v1, origin());
    if q1 == 0 {
        0
    } else {
        trunc_div(spec_quadrance(v2, origin()), q1)
    }
}

/// The twist is zero in a domain exactly where it is zero in the signed one.
pub proof fn lemma_twist_zero(signed: bool, p1: (int, int), p2: (int, int), p3: (int, int))
    ensures
        spec_twist(signed, p1, p2, p3) == 0 <==> spec_twist(true, p1, p2, p3) == 0,
{
}

/// Every intermediate value of [`turn`](crate::trigonom::turn) is representable in `T`.
pub open spec fn turn_fits<T: Scalar>(p1: (int, int), p2: (int, int), p3: (int, int)) -> bool {
    &&& vec_between_fits::<T>(p1, p2)
    &&& vec_between_fits::<T>(p2, p3)
    &&& spread_fits::<T>(vec_between(p1, p2), vec_between(p2, p3))
    &&& cross_fits::<T>(vec_between(p1, p2), vec_between(p2, p3))
}

/// The quadrance between two points of space.
pub open spec fn spec_quadrance3d(p1: (int, int, int), p2: (int, int, int)) -> int {
    (p1.0 - p2.0) * (p1.0 - p2.0) + (p1.1 - p2.1) * (p1.1 - p2.1) + (p1.2 - p2.2) * (p1.2 - p2.2)
}

/// Every intermediate value of [`quadrance3d`](crate::trigonom::quadrance3d) is representable in `T`.
pub open spec fn quadrance3d_fits<T: Scalar>(p1: (int, int, int), p2: (int, int, int)) -> bool {
    let dx = p1.0 - p2.0;
    let dy = p1.1 - p2.1;
    let dz = p1.2 - p2.2;
    &&& fits::<T>(gap(T::is_signed(), p1.0, p2.0))
    &&& fits::<T>(gap(T::is_signed(), p1.1, p2.1))
    &&& fits::<T>(gap(T::is_signed(), p1.2, p2.2))
    &&& fits::<T>(dx * dx)
    &&& fits::<T>(dy * dy)
    &&& fits::<T>(dz * dz)
    &&& fits::<T>(dx * dx + dy * dy)
    &&& fits::<T>(dx * dx + dy * dy + dz * dz)
}

/// The cross product of two vectors of space; in an unsigned domain each
/// component is the absolute difference of its two products.
pub open spec fn spec_cross3d(signed: bool, v1: (int, int, int), v2: (int, int, int)) -> (
    int,
    int,
    int,
) {
    (
        gap(signed, v1.1 * v2.2, v1.2 * v2.1),
        gap(signed, v1.2 * v2.0, v1.0 * v2.2),
        gap(signed, v1.0 * v2.1, v1.1 * v2.0),
    )
}

/// Every intermediate value of [`cross3d`](crate::trigonom::cross3d) is representable in `T`.
pub open spec fn cross3d_fits<T: Scalar>(v1: (int, int, int), v2: (int, int, int)) -> bool {
    let c = spec_cross3d(T::is_signed(), v1, v2);
    &&& fits::<T>(v1.1 * v2.2) && fits::<T>(v1.2 * v2.1) && fits::<T>(c.0)
    &&& fits::<T>(v1.2 * v2.0) && fits::<T>(v1.0 * v2.2) && fits::<T>(c.1)
    &&& fits::<T>(v1.0 * v2.1) && fits::<T>(v1.1 * v2.0) && fits::<T>(c.2)
}

/// The origin of space.
pub open spec fn origin3d() -> (int, int, int) {
    (0, 0, 0)
}

/// The dot product of two vectors of space.
pub open spec fn spec_dot3d(v1: (int, int, int), v2: (int, int, int)) -> int {
    v1.0 * v2.0 + v1.1 * v2.1 + v1.2 * v2.2
}

/// The spread of two nonzero vectors of space, `1 - dot^2 / (q1 q2)`, with the
/// quotient rounded toward zero.
pub open spec fn spec_spread3d(v1: (int, int, int), v2: (int, int, int)) -> int {
    let d = spec_dot3d(v1, v2);
    1 - trunc_div(d * d, spec_quadrance3d(v1, origin3d()) * spec_quadrance3d(v2, origin3d()))
}

/// Every intermediate value of [`spread3d`](crate::trigonom::spread3d) is representable in `T`.
pub open spec fn spread3d_fits<T: Scalar>(v1: (int, int, int), v2: (int, int, int)) -> bool {
    let d = spec_dot3d(v1, v2);
    &&& quadrance3d_fits::<T>(v1, origin3d())
    &&& quadrance3d_fits::<T>(v2, origin3d())
    &&& fits::<T>(v1.0 * v2.0)
    &&& fits::<T>(v1.1 * v2.1)
    &&& fits::<T>(v1.2 * v2.2)
    &&& fits::<T>(v1.0 * v2.0 + v1.1 * v2.1)
    &&& fits::<T>(d)
    &&& fits::<T>(d * d)
    &&& fits::<T>(spec_quadrance3d(v1, origin3d()) * spec_quadrance3d(v2, origin3d()))
    &&& fits::<T>(spec_spread3d(v1, v2))
}

/// The quadrance of space is never negative, and is zero exactly between equal points.
pub proof fn lemma_quadrance3d_nonneg(p1: (int, int, int), p2: (int, int, int))
    ensures
        spec_quadrance3d(p1, p2) >= 0,
        spec_quadrance3d(p1, p2) == 0 <==> p1 == p2,
{
    let dx = p1.0 - p2.0;
    let dy = p1.1 - p2.1;
    let dz = p1.2 - p2.2;
    assert(dx * dx >= 0 && dy * dy >= 0 && dz * dz >= 0) by (nonlinear_arith);
    assert(dx != 0 ==> dx * dx > 0) by (nonlinear_arith);
    assert(dy != 0 ==> dy * dy > 0) by (nonlinear_arith);
    assert(dz != 0 ==> dz * dz > 0) by (nonlinear_arith);
}

} // verus!
