//! Boolean classifications built from the formulas: collinearity, triangle
//! validity, the kind of a triangle's angles, lines that are parallel or
//! perpendicular, and points on a line or in a triangle.

use vstd::prelude::*;
use crate::scalar::{Scalar, fits, lemma_gap_square, pair_val, triple_val, trunc_div};
use crate::model::{
    cross_fits, direction, lemma_twist_zero, spec_cross, spec_dot, spec_line_value, spec_twist, twist_fits,
};
use crate::trigonom::{cross_from_line, cross_from_three_points};

verus! {

/// Whether three points lie on one line: the cross product of `p2 - p1` and
/// `p3 - p1` is zero.
pub open spec fn spec_collinear(p1: (int, int), p2: (int, int), p3: (int, int)) -> bool {
    spec_twist(true, p1, p2, p3) == 0
}

/// Whether the three points are collinear.
pub fn are_collinear<T: Scalar>(p_1: (T, T), p_2: (T, T), p_3: (T, T)) -> (r: bool)
    requires
        twist_fits::<T>(pair_val(p_1), pair_val(p_2), pair_val(p_3)),
    ensures
        r == spec_collinear(pair_val(p_1), pair_val(p_2), pair_val(p_3)),
{
    proof {
        lemma_twist_zero(T::is_signed(), pair_val(p_1), pair_val(p_2), pair_val(p_3));
    }
    cross_from_three_points(p_1, p_2, p_3).equals(T::zero())
}

/// Whether the three points form a non-degenerate triangle: they are not collinear.
pub fn is_valid_triangle<T: Scalar>(p_1: (T, T), p_2: (T, T), p_3: (T, T)) -> (r: bool)
    requires
        twist_fits::<T>(pair_val(p_1), pair_val(p_2), pair_val(p_3)),
    ensures
        r == !spec_collinear(pair_val(p_1), pair_val(p_2), pair_val(p_3)),
{
    !are_collinear(p_1, p_2, p_3)
}

/// Whether none of the three quadrances is negative, which is what three
/// quadrances of a triangle's sides need in every case.
pub fn satisfies_triangle_inequality<T: Scalar>(q_1: T, q_2: T, q_3: T) -> (r: bool)
    ensures
        r == (q_1.val() >= 0 && q_2.val() >= 0 && q_3.val() >= 0),
{
    let zero = T::zero();
    zero.at_most(q_1) && zero.at_most(q_2) && zero.at_most(q_3)
}

/// Whether a quadrance is valid: it is not negative.
pub fn is_valid_quadrance<T: Scalar>(q: T) -> (r: bool)
    ensures
        r == (q.val() >= 0),
{
    T::zero().at_most(q)
}

/// Whether a spread is valid: it lies in `[0, 1]`.
pub fn is_valid_spread<T: Scalar>(s: T) -> (r: bool)
    ensures
        r == (0 <= s.val() <= 1),
{
    T::zero().at_most(s) && s.at_most(T::one())
}

/// The sum `q1 + q2 + q3` of the quadrances of a triangle's sides: the part of
/// the squared perimeter that needs no square root.
pub fn perimeter_squared<T: Scalar>(q_1: T, q_2: T, q_3: T) -> (r: T)
    requires
        fits::<T>(q_1.val() + q_2.val()),
        fits::<T>(q_1.val() + q_2.val() + q_3.val()),
    ensures
        r.val() == q_1.val() + q_2.val() + q_3.val(),
{
    q_1.plus(q_2).plus(q_3)
}

/// Whether a triangle with the spreads `s_1`, `s_2`, `s_3` is acute: every spread is below one.
pub fn is_acute_triangle<T: Scalar>(s_1: T, s_2: T, s_3: T) -> (r: bool)
    ensures
        r == (s_1.val() < 1 && s_2.val() < 1 && s_3.val() < 1),
{
    let one = T::one();
    s_1.below(one) && s_2.below(one) && s_3.below(one)
}

/// Whether a triangle with the spreads `s_1`, `s_2`, `s_3` is right: one spread is one.
pub fn is_right_triangle<T: Scalar>(s_1: T, s_2: T, s_3: T) -> (r: bool)
    ensures
        r == (s_1.val() == 1 || s_2.val() == 1 || s_3.val() == 1),
{
    let one = T::one();
    s_1.equals(one) || s_2.equals(one) || s_3.equals(one)
}

/// Whether a triangle with the spreads `s_1`, `s_2`, `s_3` is obtuse: one
/// spread exceeds one half, computed as `1 / (1 + 1)` in the domain (which an
/// integer domain rounds to zero).
pub fn is_obtuse_triangle<T: Scalar>(s_1: T, s_2: T, s_3: T) -> (r: bool)
    ensures
        r == (s_1.val() > trunc_div(1, 2) || s_2.val() > trunc_div(1, 2) || s_3.val() > trunc_div(
            1,
            2,
        )),
{
    proof {
        T::lemma_range();
    }
    let one = T::one();
    let half = one.divide(one.plus(one));
    half.below(s_1) || half.below(s_2) || half.below(s_3)
}

/// Whether two lines are parallel: the cross product of their directions is zero.
pub fn are_lines_parallel<T: Scalar>(l_1: (T, T, T), l_2: (T, T, T)) -> (r: bool)
    requires
        cross_fits::<T>(direction(triple_val(l_1)), direction(triple_val(l_2))),
    ensures
        r == (spec_cross(true, direction(triple_val(l_1)), direction(triple_val(l_2))) == 0),
{
    proof {
        lemma_gap_square(T::is_signed(), l_1.0.val() * l_2.1.val(), l_1.1.val() * l_2.0.val());
    }
    cross_from_line(l_1, l_2).equals(T::zero())
}

/// Whether two lines are perpendicular: the dot product of their directions is zero.
pub fn are_lines_perpendicular<T: Scalar>(l_1: (T, T, T), l_2: (T, T, T)) -> (r: bool)
    requires
        fits::<T>(l_1.0.val() * l_2.0.val()),
        fits::<T>(l_1.1.val() * l_2.1.val()),
        fits::<T>(spec_dot(direction(triple_val(l_1)), direction(triple_val(l_2)))),
    ensures
        r == (spec_dot(direction(triple_val(l_1)), direction(triple_val(l_2))) == 0),
{
    l_1.0.times(l_2.0).plus(l_1.1.times(l_2.1)).equals(T::zero())
}

/// Whether the point lies on the line: `a x + b y + c` is zero there.
pub fn point_on_line<T: Scalar>(point: (T, T), line: (T, T, T)) -> (r: bool)
    requires
        fits::<T>(line.0.val() * point.0.val()),
        fits::<T>(line.1.val() * point.1.val()),
        fits::<T>(line.0.val() * point.0.val() + line.1.val() * point.1.val()),
        fits::<T>(spec_line_value(pair_val(point), triple_val(line))),
    ensures
        r == (spec_line_value(pair_val(point), triple_val(line)) == 0),
{
    line.0.times(point.0).plus(line.1.times(point.1)).plus(line.2).equals(T::zero())
}

/// The determinant of the triangle `p1 p2 p3` and the numerators of the first
/// two barycentric coordinates of `p` over it: `(den, na, nb)`. The third
/// numerator is `den - na - nb`, and `den * p` is the combination of the
/// vertices with the weights `na`, `nb` and `den - na - nb`.
pub open spec fn barycentric(p: (int, int), p1: (int, int), p2: (int, int), p3: (int, int)) -> (
    int,
    int,
    int,
) {
    let den = (p2.1 - p3.1) * (p1.0 - p3.0) + (p3.0 - p2.0) * (p1.1 - p3.1);
    let na = (p2.1 - p3.1) * (p.0 - p3.0) + (p3.0 - p2.0) * (p.1 - p3.1);
    let nb = (p3.1 - p1.1) * (p.0 - p3.0) + (p1.0 - p3.0) * (p.1 - p3.1);
    (den, na, nb)
}

/// `k p == w1 p1 + w2 p2 + w3 p3` for nonnegative weights with a positive sum
/// `k`: the point `p` is a convex combination of the three vertices.
pub open spec fn is_convex_combination(
    p: (int, int),
    p1: (int, int),
    p2: (int, int),
    p3: (int, int),
    w1: int,
    w2: int,
    w3: int,
) -> bool {
    &&& w1 >= 0 && w2 >= 0 && w3 >= 0
    &&& w1 + w2 + w3 > 0
    &&& (w1 + w2 + w3) * p.0 == w1 * p1.0 + w2 * p2.0 + w3 * p3.0
    &&& (w1 + w2 + w3) * p.1 == w1 * p1.1 + w2 * p2.1 + w3 * p3.1
}

/// Whether `p` lies in the non-degenerate triangle `p1 p2 p3` or on its
/// boundary.
pub open spec fn spec_in_closed_triangle(
    p: (int, int),
    p1: (int, int),
    p2: (int, int),
    p3: (int, int),
) -> bool {
    &&& !spec_collinear(p1, p2, p3)
    &&& exists|w1: int, w2: int, w3: int| #[trigger]
        is_convex_combination(p, p1, p2, p3, w1, w2, w3)
}

/// Every intermediate value of [`point_in_triangle`] is representable in `T`.
/// Past the determinant, nothing is computed for a degenerate triangle.
pub open spec fn point_in_triangle_fits<T: Scalar>(
    p: (int, int),
    p1: (int, int),
    p2: (int, int),
    p3: (int, int),
) -> bool {
    let (den, na, nb) = barycentric(p, p1, p2, p3);
    &&& fits::<T>(p2.1 - p3.1) && fits::<T>(p1.0 - p3.0) && fits::<T>(p3.0 - p2.0)
    &&& fits::<T>(p1.1 - p3.1)
    &&& fits::<T>((p2.1 - p3.1) * (p1.0 - p3.0)) && fits::<T>((p3.0 - p2.0) * (p1.1 - p3.1))
    &&& fits::<T>(den)
    &&& den != 0 ==> {
        &&& fits::<T>(p.0 - p3.0) && fits::<T>(p.1 - p3.1) && fits::<T>(p3.1 - p1.1)
        &&& fits::<T>((p2.1 - p3.1) * (p.0 - p3.0)) && fits::<T>((p3.0 - p2.0) * (p.1 - p3.1))
        &&& fits::<T>(na)
        &&& fits::<T>((p3.1 - p1.1) * (p.0 - p3.0)) && fits::<T>((p1.0 - p3.0) * (p.1 - p3.1))
        &&& fits::<T>(nb)
        &&& fits::<T>(den - na)
        &&& fits::<T>(den - na - nb)
    }
}

/// Scaling a linear combination `a X + b Y` by `k`, where `k X` and `k Y` are
/// themselves combinations of weights `w1` and `w2`.
proof fn lemma_scaled_combination(
    k: int,
    a: int,
    b: int,
    x: int,
    y: int,
    w1: int,
    w2: int,
    c1: int,
    c2: int,
    e1: int,
    e2: int,
)
    requires
        k * x == w1 * c1 + w2 * c2,
        k * y == w1 * e1 + w2 * e2,
    ensures
        k * (a * x + b * y) == w1 * (a * c1 + b * e1) + w2 * (a * c2 + b * e2),
{
    assert(k * (a * x + b * y) == a * (k * x) + b * (k * y)) by (nonlinear_arith);
    assert(a * (w1 * c1 + w2 * c2) == a * (w1 * c1) + a * (w2 * c2)) by (nonlinear_arith);
    assert(b * (w1 * e1 + w2 * e2) == b * (w1 * e1) + b * (w2 * e2)) by (nonlinear_arith);
    assert(a * (w1 * c1) == w1 * (a * c1)) by (nonlinear_arith);
    assert(a * (w2 * c2) == w2 * (a * c2)) by (nonlinear_arith);
    assert(b * (w1 * e1) == w1 * (b * e1)) by (nonlinear_arith);
    assert(b * (w2 * e2) == w2 * (b * e2)) by (nonlinear_arith);
    assert(w1 * (a * c1 + b * e1) == w1 * (a * c1) + w1 * (b * e1)) by (nonlinear_arith);
    assert(w2 * (a * c2 + b * e2) == w2 * (a * c2) + w2 * (b * e2)) by (nonlinear_arith);
}

/// The determinant of the barycentric coordinates is the triangle's twist.
proof fn lemma_determinant_is_twist(p: (int, int), p1: (int, int), p2: (int, int), p3: (int, int))
    ensures
        barycentric(p, p1, p2, p3).0 == spec_twist(true, p1, p2, p3),
{
    let (x1, y1) = p1;
    let (x2, y2) = p2;
    let (x3, y3) = p3;
    assert((y2 - y3) * (x1 - x3) + (x3 - x2) * (y1 - y3) == (x2 - x1) * (y3 - y1) - (y2 - y1) * (
    x3 - x1)) by (nonlinear_arith);
}

/// The point times the determinant is the combination of the vertices with
/// the three barycentric numerators as weights.
proof fn lemma_barycentric_combination(p: (int, int), p1: (int, int), p2: (int, int), p3: (int, int))
    ensures
        ({
            let (den, na, nb) = barycentric(p, p1, p2, p3);
            let nc = den - na - nb;
            &&& den * p.0 == na * p1.0 + nb * p2.0 + nc * p3.0
            &&& den * p.1 == na * p1.1 + nb * p2.1 + nc * p3.1
        }),
{
    let (den, na, nb) = barycentric(p, p1, p2, p3);
    let (x, y) = (p.0 - p3.0, p.1 - p3.1);
    let (c1, c2, e1, e2) = (p1.0 - p3.0, p2.0 - p3.0, p1.1 - p3.1, p2.1 - p3.1);
    assert(na == e2 * x - c2 * y && nb == c1 * y - e1 * x && den == e2 * c1 - c2 * e1)
        by (nonlinear_arith)
        requires
            (den, na, nb) == barycentric(p, p1, p2, p3),
            x == p.0 - p3.0,
            y == p.1 - p3.1,
            c1 == p1.0 - p3.0,
            c2 == p2.0 - p3.0,
            e1 == p1.1 - p3.1,
            e2 == p2.1 - p3.1,
    ;
    assert((e2 * x - c2 * y) * c1 == (e2 * c1) * x - (c1 * c2) * y) by (nonlinear_arith);
    assert((c1 * y - e1 * x) * c2 == (c1 * c2) * y - (c2 * e1) * x) by (nonlinear_arith);
    assert((e2 * c1 - c2 * e1) * x == (e2 * c1) * x - (c2 * e1) * x) by (nonlinear_arith);
    assert((e2 * x - c2 * y) * e1 == (e1 * e2) * x - (c2 * e1) * y) by (nonlinear_arith);
    assert((c1 * y - e1 * x) * e2 == (e2 * c1) * y - (e1 * e2) * x) by (nonlinear_arith);
    assert((e2 * c1 - c2 * e1) * y == (e2 * c1) * y - (c2 * e1) * y) by (nonlinear_arith);
    assert(na * c1 + nb * c2 == den * x && na * e1 + nb * e2 == den * y) by (nonlinear_arith)
        requires
            na == e2 * x - c2 * y,
            nb == c1 * y - e1 * x,
            den == e2 * c1 - c2 * e1,
            (e2 * x - c2 * y) * c1 == (e2 * c1) * x - (c1 * c2) * y,
            (c1 * y - e1 * x) * c2 == (c1 * c2) * y - (c2 * e1) * x,
            (e2 * c1 - c2 * e1) * x == (e2 * c1) * x - (c2 * e1) * x,
            (e2 * x - c2 * y) * e1 == (e1 * e2) * x - (c2 * e1) * y,
            (c1 * y - e1 * x) * e2 == (e2 * c1) * y - (e1 * e2) * x,
            (e2 * c1 - c2 * e1) * y == (e2 * c1) * y - (c2 * e1) * y,
    ;
    let nc = den - na - nb;
    assert(den * p.0 == na * p1.0 + nb * p2.0 + nc * p3.0) by (nonlinear_arith)
        requires
            na * c1 + nb * c2 == den * x,
            nc == den - na - nb,
            x == p.0 - p3.0,
            c1 == p1.0 - p3.0,
            c2 == p2.0 - p3.0,
    ;
    assert(den * p.1 == na * p1.1 + nb * p2.1 + nc * p3.1) by (nonlinear_arith)
        requires
            na * e1 + nb * e2 == den * y,
            nc == den - na - nb,
            y == p.1 - p3.1,
            e1 == p1.1 - p3.1,
            e2 == p2.1 - p3.1,
    ;
}

/// Where `k p` is the combination of the vertices with weights `w1`, `w2`,
/// `w3` summing to `k`, each barycentric numerator times `k` is its weight
/// times the determinant.
proof fn lemma_weights_scale_numerators(
    p: (int, int),
    p1: (int, int),
    p2: (int, int),
    p3: (int, int),
    w1: int,
    w2: int,
    w3: int,
)
    requires
        (w1 + w2 + w3) * p.0 == w1 * p1.0 + w2 * p2.0 + w3 * p3.0,
        (w1 + w2 + w3) * p.1 == w1 * p1.1 + w2 * p2.1 + w3 * p3.1,
    ensures
        ({
            let (den, na, nb) = barycentric(p, p1, p2, p3);
            let k = w1 + w2 + w3;
            &&& k * na == w1 * den
            &&& k * nb == w2 * den
            &&& k * (den - na - nb) == w3 * den
        }),
{
    let k = w1 + w2 + w3;
    let (den, na, nb) = barycentric(p, p1, p2, p3);
    let (x, y) = p;
    let (x1, y1) = p1;
    let (x2, y2) = p2;
    let (x3, y3) = p3;
    let kx = k * (x - x3);
    let ky = k * (y - y3);
    assert(kx == w1 * (x1 - x3) + w2 * (x2 - x3) && ky == w1 * (y1 - y3) + w2 * (y2 - y3))
        by (nonlinear_arith)
        requires
            k == w1 + w2 + w3,
            k * x == w1 * x1 + w2 * x2 + w3 * x3,
            k * y == w1 * y1 + w2 * y2 + w3 * y3,
            kx == k * (x - x3),
            ky == k * (y - y3),
    ;
    let (ex, ey) = (x - x3, y - y3);
    let (c1, c2, e1, e2) = (x1 - x3, x2 - x3, y1 - y3, y2 - y3);
    lemma_scaled_combination(k, y2 - y3, x3 - x2, ex, ey, w1, w2, c1, c2, e1, e2);
    assert((y2 - y3) * (x2 - x3) + (x3 - x2) * (y2 - y3) == 0) by (nonlinear_arith);
    lemma_scaled_combination(k, y3 - y1, x1 - x3, ex, ey, w1, w2, c1, c2, e1, e2);
    assert((y3 - y1) * (x1 - x3) + (x1 - x3) * (y1 - y3) == 0) by (nonlinear_arith);
    assert((y3 - y1) * (x2 - x3) + (x1 - x3) * (y2 - y3) == den) by (nonlinear_arith)
        requires
            den == (y2 - y3) * (x1 - x3) + (x3 - x2) * (y1 - y3),
    ;
    assert(k * (den - na - nb) == k * den - k * na - k * nb) by (nonlinear_arith);
    assert(k * den == w1 * den + w2 * den + w3 * den) by (nonlinear_arith)
        requires
            k == w1 + w2 + w3,
    ;
}

/// A weight that is a numerator scaled by `k > 0` over the determinant has the
/// numerator's sign relative to the determinant.
proof fn lemma_weight_sign(n: int, den: int, w: int, k: int)
    requires
        k > 0,
        w >= 0,
        k * n == w * den,
    ensures
        den > 0 ==> n >= 0,
        den < 0 ==> n <= 0,
{
    assert(den > 0 ==> n >= 0) by (nonlinear_arith)
        requires
            k > 0,
            w >= 0,
            k * n == w * den,
    ;
    assert(den < 0 ==> n <= 0) by (nonlinear_arith)
        requires
            k > 0,
            w >= 0,
            k * n == w * den,
    ;
}

/// A point lies in the closed non-degenerate triangle exactly where its three
/// barycentric numerators have the sign of the determinant or are zero.
pub proof fn lemma_containment_by_signs(p: (int, int), p1: (int, int), p2: (int, int), p3: (int, int))
    ensures
        spec_in_closed_triangle(p, p1, p2, p3) <==> ({
            let (den, na, nb) = barycentric(p, p1, p2, p3);
            let nc = den - na - nb;
            ||| den > 0 && na >= 0 && nb >= 0 && nc >= 0
            ||| den < 0 && na <= 0 && nb <= 0 && nc <= 0
        }),
{
    let (den, na, nb) = barycentric(p, p1, p2, p3);
    let nc = den - na - nb;
    lemma_determinant_is_twist(p, p1, p2, p3);
    lemma_barycentric_combination(p, p1, p2, p3);
    if den > 0 && na >= 0 && nb >= 0 && nc >= 0 {
        assert(is_convex_combination(p, p1, p2, p3, na, nb, nc));
    }
    if den < 0 && na <= 0 && nb <= 0 && nc <= 0 {
        assert(-den * p.0 == (-na) * p1.0 + (-nb) * p2.0 + (-nc) * p3.0 && -den * p.1 == (-na)
            * p1.1 + (-nb) * p2.1 + (-nc) * p3.1) by (nonlinear_arith)
            requires
                den * p.0 == na * p1.0 + nb * p2.0 + nc * p3.0,
                den * p.1 == na * p1.1 + nb * p2.1 + nc * p3.1,
        ;
        assert(is_convex_combination(p, p1, p2, p3, -na, -nb, -nc));
    }
    if spec_in_closed_triangle(p, p1, p2, p3) {
        let (w1, w2, w3) = choose|w1: int, w2: int, w3: int|
            is_convex_combination(p, p1, p2, p3, w1, w2, w3);
        let k = w1 + w2 + w3;
        lemma_weights_scale_numerators(p, p1, p2, p3, w1, w2, w3);
        lemma_weight_sign(na, den, w1, k);
        lemma_weight_sign(nb, den, w2, k);
        lemma_weight_sign(nc, den, w3, k);
    }
}

/// Whether `point` lies in the triangle `p_1 p_2 p_3` or on its boundary. The
/// test is exact: the three barycentric numerators must have the sign of the
/// triangle's determinant or be zero, so nothing is divided. A degenerate
/// triangle (zero determinant) contains no point.
pub fn point_in_triangle<T: Scalar>(point: (T, T), p_1: (T, T), p_2: (T, T), p_3: (T, T)) -> (r: bool)
    requires
        point_in_triangle_fits::<T>(pair_val(point), pair_val(p_1), pair_val(p_2), pair_val(p_3)),
    ensures
        r == spec_in_closed_triangle(pair_val(point), pair_val(p_1), pair_val(p_2), pair_val(p_3)),
{
    proof {
        lemma_containment_by_signs(pair_val(point), pair_val(p_1), pair_val(p_2), pair_val(p_3));
    }
    let (x, y) = point;
    let (x1, y1) = p_1;
    let (x2, y2) = p_2;
    let (x3, y3) = p_3;
    let zero = T::zero();

    let denominator = y2.minus(y3).times(x1.minus(x3)).plus(x3.minus(x2).times(y1.minus(y3)));
    if denominator.equals(zero) {
        return false;
    }

    let na = y2.minus(y3).times(x.minus(x3)).plus(x3.minus(x2).times(y.minus(y3)));
    let nb = y3.minus(y1).times(x.minus(x3)).plus(x1.minus(x3).times(y.minus(y3)));
    let nc = denominator.minus(na).minus(nb);

    if zero.below(denominator) {
        zero.at_most(na) && zero.at_most(nb) && zero.at_most(nc)
    } else {
        na.at_most(zero) && nb.at_most(zero) && nc.at_most(zero)
    }
}

} // verus!
