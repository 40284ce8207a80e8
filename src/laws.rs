//! The laws that relate the formulas to each other, proved over the integer
//! models that the functions' contracts are stated in.

use vstd::prelude::*;
use crate::validation::{is_convex_combination, spec_collinear, spec_in_closed_triangle};
use crate::model::{
    lemma_lagrange, origin, spec_archimedes, spec_cross, spec_dot, spec_quadrance, spec_quadrances,
    spec_twist, vec_between,
};

verus! {

/// A point is at quadrance zero from itself.
pub proof fn lemma_quadrance_self(p: (int, int))
    ensures
        spec_quadrance(p, p) == 0,
{
}

/// The quadrance is symmetric: `Q(a, b) == Q(b, a)`.
pub proof fn lemma_quadrance_symmetric(a: (int, int), b: (int, int))
    ensures
        spec_quadrance(a, b) == spec_quadrance(b, a),
{
    assert((a.0 - b.0) * (a.0 - b.0) == (b.0 - a.0) * (b.0 - a.0)) by (nonlinear_arith);
    assert((a.1 - b.1) * (a.1 - b.1) == (b.1 - a.1) * (b.1 - a.1)) by (nonlinear_arith);
}

/// The cross product of a vector with itself is zero, in a signed domain and
/// in an unsigned one alike.
pub proof fn lemma_cross_self(signed: bool, v: (int, int))
    ensures
        spec_cross(signed, v, v) == 0,
{
    assert(v.0 * v.1 == v.1 * v.0) by (nonlinear_arith);
}

/// The numerator of the exact spread opposite the side of quadrance `qa`:
/// the spread is `spread_numerator(qa, qb, qc) / (4 qb qc)`.
pub open spec fn spread_numerator(qa: int, qb: int, qc: int) -> int {
    4 * qb * qc - (qb + qc - qa) * (qb + qc - qa)
}

/// Archimedes' quadrea does not depend on the order of the three quadrances:
/// it is the common numerator of the three exact spreads of a triangle.
pub proof fn lemma_quadrea_symmetric(q1: int, q2: int, q3: int)
    ensures
        spread_numerator(q1, q2, q3) == spec_archimedes(q1, q2, q3),
        spread_numerator(q2, q1, q3) == spec_archimedes(q1, q2, q3),
        spread_numerator(q3, q1, q2) == spec_archimedes(q1, q2, q3),
{
    assert(4 * q2 * q3 - (q2 + q3 - q1) * (q2 + q3 - q1) == 4 * q1 * q2 - (q1 + q2 - q3) * (q1
        + q2 - q3)) by (nonlinear_arith);
    assert(4 * q1 * q3 - (q1 + q3 - q2) * (q1 + q3 - q2) == 4 * q1 * q2 - (q1 + q2 - q3) * (q1
        + q2 - q3)) by (nonlinear_arith);
}

/// The spread law: over exact fractions, `s1 / q1 == s2 / q2 == s3 / q3` for
/// the spreads `s_i = spread_numerator(..) / (4 q_j q_k)` of a triangle with
/// nonzero quadrances, written with the denominators multiplied out.
pub proof fn lemma_spread_law(q1: int, q2: int, q3: int)
    ensures
        spread_numerator(q1, q2, q3) * (4 * q1 * q3 * q2) == spread_numerator(q2, q1, q3) * (4
            * q2 * q3 * q1),
        spread_numerator(q2, q1, q3) * (4 * q1 * q2 * q3) == spread_numerator(q3, q1, q2) * (4
            * q1 * q3 * q2),
{
    lemma_quadrea_symmetric(q1, q2, q3);
    assert(4 * q1 * q3 * q2 == 4 * q2 * q3 * q1 && 4 * q1 * q2 * q3 == 4 * q1 * q3 * q2)
        by (nonlinear_arith);
}

/// The products `q_i * s_i` of each quadrance with the exact spread opposite
/// it agree, written with the denominators multiplied out. They agree where
/// the three quadrances are equal, and only there for a non-degenerate
/// triangle; the law that holds of every triangle is [`lemma_spread_law`].
pub proof fn lemma_sine_law_products(q1: int, q2: int, q3: int)
    requires
        q1 == q2,
        q2 == q3,
    ensures
        q1 * spread_numerator(q1, q2, q3) * (4 * q1 * q3) == q2 * spread_numerator(q2, q1, q3) * (4
            * q2 * q3),
        q2 * spread_numerator(q2, q1, q3) * (4 * q1 * q2) == q3 * spread_numerator(q3, q1, q2) * (4
            * q1 * q3),
{
}

/// Archimedes' theorem: the quadrea of a triangle's three quadrances is four
/// times the square of its twist, that is sixteen times its squared area.
pub proof fn lemma_archimedes_twist(p1: (int, int), p2: (int, int), p3: (int, int))
    ensures
        spec_archimedes(
            spec_quadrances(p1, p2, p3).0,
            spec_quadrances(p1, p2, p3).1,
            spec_quadrances(p1, p2, p3).2,
        ) == 4 * spec_twist(true, p1, p2, p3) * spec_twist(true, p1, p2, p3),
{
    let (q1, q2, q3) = spec_quadrances(p1, p2, p3);
    let u = vec_between(p1, p2);
    let v = vec_between(p1, p3);
    let d = spec_dot(u, v);
    let c = spec_twist(true, p1, p2, p3);
    assert(q3 == spec_quadrance(u, origin()) && q2 == spec_quadrance(v, origin())) by (nonlinear_arith)
        requires
            q3 == spec_quadrance(p1, p2),
            q2 == spec_quadrance(p1, p3),
            u == vec_between(p1, p2),
            v == vec_between(p1, p3),
    ;
    assert(q2 + q3 - q1 == 2 * d) by (nonlinear_arith)
        requires
            q1 == spec_quadrance(p2, p3),
            q2 == spec_quadrance(p1, p3),
            q3 == spec_quadrance(p1, p2),
            d == spec_dot(vec_between(p1, p2), vec_between(p1, p3)),
    ;
    lemma_lagrange(u, v);
    lemma_quadrea_symmetric(q1, q2, q3);
    assert(4 * q2 * q3 - (2 * d) * (2 * d) == 4 * (q3 * q2 - d * d)) by (nonlinear_arith);
    assert(4 * c * c == 4 * (c * c)) by (nonlinear_arith);
}

/// Each vertex of a non-degenerate triangle lies in it.
pub proof fn lemma_vertices_in_triangle(p1: (int, int), p2: (int, int), p3: (int, int))
    requires
        !spec_collinear(p1, p2, p3),
    ensures
        spec_in_closed_triangle(p1, p1, p2, p3),
        spec_in_closed_triangle(p2, p1, p2, p3),
        spec_in_closed_triangle(p3, p1, p2, p3),
{
    assert(is_convex_combination(p1, p1, p2, p3, 1, 0, 0));
    assert(is_convex_combination(p2, p1, p2, p3, 0, 1, 0));
    assert(is_convex_combination(p3, p1, p2, p3, 0, 0, 1));
}

/// Each point of an edge of a non-degenerate triangle lies in it: the point
/// `p` with `k p = (k - j) a + j b`, `0 <= j <= k`, `k > 0`, for two vertices
/// `a` and `b`.
pub proof fn lemma_edges_in_triangle(
    p: (int, int),
    p1: (int, int),
    p2: (int, int),
    p3: (int, int),
    a: (int, int),
    b: (int, int),
    j: int,
    k: int,
)
    requires
        !spec_collinear(p1, p2, p3),
        (a == p1 && b == p2) || (a == p2 && b == p3) || (a == p1 && b == p3),
        0 <= j <= k,
        k > 0,
        k * p.0 == (k - j) * a.0 + j * b.0,
        k * p.1 == (k - j) * a.1 + j * b.1,
    ensures
        spec_in_closed_triangle(p, p1, p2, p3),
{
    if a == p1 && b == p2 {
        assert(is_convex_combination(p, p1, p2, p3, k - j, j, 0));
    } else if a == p2 && b == p3 {
        assert(is_convex_combination(p, p1, p2, p3, 0, k - j, j));
    } else {
        assert(is_convex_combination(p, p1, p2, p3, k - j, 0, j));
    }
}

} // verus!
