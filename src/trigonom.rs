//! The formulas of rational trigonometry, written once against [`Scalar`].
//!
//! Each function states its result over the integers that its arguments stand
//! for, and demands that every intermediate value be representable. The
//! unchecked forms that divide demand a nonzero denominator; the `safe_` forms
//! test it and report [`MathError::DivisionByZero`] instead.

use vstd::prelude::*;
use crate::error::MathError;
use crate::scalar::{
    Scalar, fits, pair_val, triple_val, lemma_gap_square,
    lemma_trunc_div_bounds,
};
use crate::model::{
    archimedes_fits, cosine_law_fits, cross3d_fits, cross_fits, direction, lemma_quadrance3d_nonneg,
    lemma_quadrance_nonneg, lemma_quadrance_product, lemma_spread_fits, origin, origin3d,
    quadrance3d_fits, quadrance_fits, quadrance_from_line_fits, quadrances_fit, spec_archimedes,
    spec_cosine_law, spec_cross, spec_cross3d, spec_dilatation, spec_quadrance, spec_quadrance3d,
    spec_quadrance_from_line, spec_quadrances, spec_spread, spec_spread3d, spec_spread_from_line,
    spec_spreads, spec_twist, spread3d_fits, spread_fits, spread_from_line_fits, spreads_fit,
    turn_fits, twist_fits, vec_between,
};

verus! {

/// Whether both components of the vector are zero.
fn is_zero_vector<T: Scalar>(v: (T, T)) -> (r: bool)
    ensures
        r == (pair_val(v) == origin()),
{
    let zero = T::zero();
    v.0.equals(zero) && v.1.equals(zero)
}

/// The constant 4, built from the multiplicative identity alone.
fn four<T: Scalar>() -> (r: T)
    ensures
        r.val() == 4,
{
    proof {
        T::lemma_range();
    }
    let one = T::one();
    one.plus(one).plus(one).plus(one)
}

/// Archimedes' formula: the quadrea of a triangle whose sides have the
/// quadrances `q_1`, `q_2` and `q_3`, that is sixteen times its squared area.
pub fn archimedes<T: Scalar>(q_1: &T, q_2: &T, q_3: &T) -> (r: T)
    requires
        archimedes_fits::<T>(q_1.val(), q_2.val(), q_3.val()),
    ensures
        r.val() == spec_archimedes(q_1.val(), q_2.val(), q_3.val()),
{
    let temp = q_1.plus(*q_2).minus(*q_3);
    four::<T>().times(*q_1).times(*q_2).minus(temp.times(temp))
}

/// The quadrance between two points.
pub fn quadrance<T: Scalar>(p_1: (T, T), p_2: (T, T)) -> (r: T)
    requires
        quadrance_fits::<T>(pair_val(p_1), pair_val(p_2)),
    ensures
        r.val() == spec_quadrance(pair_val(p_1), pair_val(p_2)),
{
    proof {
        lemma_gap_square(T::is_signed(), p_1.0.val(), p_2.0.val());
        lemma_gap_square(T::is_signed(), p_1.1.val(), p_2.1.val());
    }
    let dx = p_1.0.delta(p_2.0);
    let dy = p_1.1.delta(p_2.1);
    dx.times(dx).plus(dy.times(dy))
}

/// The cross product of two vectors, twice the signed area of the triangle
/// that they span from a common origin. In an unsigned domain it is the
/// absolute difference of the two products, and the orientation is lost.
pub fn cross<T: Scalar>(v_1: (T, T), v_2: (T, T)) -> (r: T)
    requires
        cross_fits::<T>(pair_val(v_1), pair_val(v_2)),
    ensures
        r.val() == spec_cross(T::is_signed(), pair_val(v_1), pair_val(v_2)),
{
    v_1.0.times(v_2.1).delta(v_1.1.times(v_2.0))
}

/// The spread of two vectors: the square of the sine of the angle between
/// them, `1 - dot^2 / (q1 q2)`. Over an integer type the quotient is rounded
/// toward zero. Neither vector may be zero: [`safe_spread`] reports that case.
pub fn spread<T: Scalar>(v_1: (T, T), v_2: (T, T)) -> (r: T)
    requires
        spread_fits::<T>(pair_val(v_1), pair_val(v_2)),
        pair_val(v_1) != origin(),
        pair_val(v_2) != origin(),
    ensures
        r.val() == spec_spread(pair_val(v_1), pair_val(v_2)),
{
    proof {
        lemma_quadrance_product(pair_val(v_1), pair_val(v_2));
        lemma_spread_fits::<T>(pair_val(v_1), pair_val(v_2));
    }
    let zero = T::zero();
    let q_1 = quadrance(v_1, (zero, zero));
    let q_2 = quadrance(v_2, (zero, zero));
    let dot = v_1.0.times(v_2.0).plus(v_1.1.times(v_2.1));
    T::one().minus(dot.times(dot).divide(q_1.times(q_2)))
}

/// The spread of two vectors, or [`MathError::DivisionByZero`] where one of
/// them is the zero vector.
pub fn safe_spread<T: Scalar>(v_1: (T, T), v_2: (T, T)) -> (r: Result<T, MathError>)
    requires
        pair_val(v_1) != origin() && pair_val(v_2) != origin() ==> spread_fits::<T>(
            pair_val(v_1),
            pair_val(v_2),
        ),
    ensures
        r is Err <==> (pair_val(v_1) == origin() || pair_val(v_2) == origin()),
        r matches Ok(s) ==> s.val() == spec_spread(pair_val(v_1), pair_val(v_2)),
        r matches Err(e) ==> e == MathError::DivisionByZero,
{
    if is_zero_vector(v_1) || is_zero_vector(v_2) {
        return Err(MathError::DivisionByZero);
    }
    Ok(spread(v_1, v_2))
}

/// The quadrance from the point `p` to the line `l`: `(a x + b y + c)^2 / (a^2 + b^2)`.
/// The line's direction `(a, b)` may not be zero: [`safe_quadrance_from_line`]
/// reports that case.
pub fn quadrance_from_line<T: Scalar>(p: (T, T), l: (T, T, T)) -> (r: T)
    requires
        quadrance_from_line_fits::<T>(pair_val(p), triple_val(l)),
        direction(triple_val(l)) != origin(),
    ensures
        r.val() == spec_quadrance_from_line(pair_val(p), triple_val(l)),
{
    let t = l.0.times(p.0).plus(l.1.times(p.1)).plus(l.2);
    let zero = T::zero();
    let q = quadrance((l.0, l.1), (zero, zero));
    proof {
        lemma_quadrance_nonneg(direction(triple_val(l)), origin());
        assert(t.val() * t.val() >= 0) by (nonlinear_arith);
        lemma_trunc_div_bounds(t.val() * t.val(), q.val());
        T::lemma_range();
    }
    t.times(t).divide(q)
}

/// The quadrance from a point to a line, or [`MathError::DivisionByZero`] where
/// the line's direction `(a, b)` is zero.
pub fn safe_quadrance_from_line<T: Scalar>(p: (T, T), l: (T, T, T)) -> (r: Result<T, MathError>)
    requires
        direction(triple_val(l)) != origin() ==> quadrance_from_line_fits::<T>(
            pair_val(p),
            triple_val(l),
        ),
    ensures
        r is Err <==> direction(triple_val(l)) == origin(),
        r matches Ok(q) ==> q.val() == spec_quadrance_from_line(pair_val(p), triple_val(l)),
        r matches Err(e) ==> e == MathError::DivisionByZero,
{
    if is_zero_vector((l.0, l.1)) {
        return Err(MathError::DivisionByZero);
    }
    Ok(quadrance_from_line(p, l))
}

/// The spread between two lines, from the cross product of their directions:
/// `cross^2 / (q1 q2)`. Neither direction may be zero: [`safe_spread_from_line`]
/// reports that case.
pub fn spread_from_line<T: Scalar>(l_1: (T, T, T), l_2: (T, T, T)) -> (r: T)
    requires
        spread_from_line_fits::<T>(triple_val(l_1), triple_val(l_2)),
        direction(triple_val(l_1)) != origin(),
        direction(triple_val(l_2)) != origin(),
    ensures
        r.val() == spec_spread_from_line(T::is_signed(), triple_val(l_1), triple_val(l_2)),
{
    let zero = T::zero();
    let c = cross((l_1.0, l_1.1), (l_2.0, l_2.1));
    let q_1 = quadrance((l_1.0, l_1.1), (zero, zero));
    let q_2 = quadrance((l_2.0, l_2.1), (zero, zero));
    proof {
        lemma_quadrance_product(direction(triple_val(l_1)), direction(triple_val(l_2)));
        assert(c.val() * c.val() >= 0) by (nonlinear_arith);
        lemma_trunc_div_bounds(c.val() * c.val(), q_1.val() * q_2.val());
        T::lemma_range();
    }
    c.times(c).divide(q_1.times(q_2))
}

/// The spread between two lines, or [`MathError::DivisionByZero`] where the
/// direction of one of them is zero.
pub fn safe_spread_from_line<T: Scalar>(l_1: (T, T, T), l_2: (T, T, T)) -> (r: Result<T, MathError>)
    requires
        direction(triple_val(l_1)) != origin() && direction(triple_val(l_2)) != origin()
            ==> spread_from_line_fits::<T>(triple_val(l_1), triple_val(l_2)),
    ensures
        r is Err <==> (direction(triple_val(l_1)) == origin() || direction(triple_val(l_2))
            == origin()),
        r matches Ok(s) ==> s.val() == spec_spread_from_line(
            T::is_signed(),
            triple_val(l_1),
            triple_val(l_2),
        ),
        r matches Err(e) ==> e == MathError::DivisionByZero,
{
    if is_zero_vector((l_1.0, l_1.1)) || is_zero_vector((l_2.0, l_2.1)) {
        return Err(MathError::DivisionByZero);
    }
    Ok(spread_from_line(l_1, l_2))
}

/// The cross product of the directions of two lines.
pub fn cross_from_line<T: Scalar>(l_1: (T, T, T), l_2: (T, T, T)) -> (r: T)
    requires
        cross_fits::<T>(direction(triple_val(l_1)), direction(triple_val(l_2))),
    ensures
        r.val() == spec_cross(
            T::is_signed(),
            direction(triple_val(l_1)),
            direction(triple_val(l_2)),
        ),
{
    cross((l_1.0, l_1.1), (l_2.0, l_2.1))
}

/// The spread opposite the side of quadrance `q_1` in a triangle whose sides
/// have the quadrances `q_1`, `q_2` and `q_3`: `1 - (q2 + q3 - q1)^2 / (4 q2 q3)`.
/// Where `q_2` or `q_3` is zero the result is zero.
pub fn cosine_law<T: Scalar>(q_1: T, q_2: T, q_3: T) -> (r: T)
    requires
        cosine_law_fits::<T>(q_1.val(), q_2.val(), q_3.val()),
    ensures
        r.val() == if q_2.val() == 0 || q_3.val() == 0 {
            0
        } else {
            spec_cosine_law(q_1.val(), q_2.val(), q_3.val())
        },
{
    let zero = T::zero();
    if q_2.equals(zero) || q_3.equals(zero) {
        return zero;
    }
    let n = q_2.plus(q_3).minus(q_1);
    let denominator = four::<T>().times(q_2).times(q_3);
    proof {
        assert(4 * q_2.val() * q_3.val() != 0) by (nonlinear_arith)
            requires
                q_2.val() != 0,
                q_3.val() != 0,
        ;
        assert(n.val() * n.val() >= 0) by (nonlinear_arith);
        lemma_trunc_div_bounds(n.val() * n.val(), denominator.val());
        T::lemma_range();
    }
    T::one().minus(n.times(n).divide(denominator))
}

/// The cosine law, or [`MathError::DivisionByZero`] where `q_2` or `q_3` is zero.
pub fn safe_cosine_law<T: Scalar>(q_1: T, q_2: T, q_3: T) -> (r: Result<T, MathError>)
    requires
        cosine_law_fits::<T>(q_1.val(), q_2.val(), q_3.val()),
    ensures
        r is Err <==> (q_2.val() == 0 || q_3.val() == 0),
        r matches Ok(s) ==> s.val() == spec_cosine_law(q_1.val(), q_2.val(), q_3.val()),
        r matches Err(e) ==> e == MathError::DivisionByZero,
{
    let zero = T::zero();
    if q_2.equals(zero) || q_3.equals(zero) {
        return Err(MathError::DivisionByZero);
    }
    Ok(cosine_law(q_1, q_2, q_3))
}

/// The quadrances of the sides of the triangle `p_1 p_2 p_3`, each named by
/// the vertex that it faces: `(Q(p_2, p_3), Q(p_1, p_3), Q(p_1, p_2))`.
pub fn quadrance_from_three_points<T: Scalar>(p_1: (T, T), p_2: (T, T), p_3: (T, T)) -> (r: (T, T, T))
    requires
        quadrances_fit::<T>(pair_val(p_1), pair_val(p_2), pair_val(p_3)),
    ensures
        triple_val(r) == spec_quadrances(pair_val(p_1), pair_val(p_2), pair_val(p_3)),
{
    (quadrance(p_2, p_3), quadrance(p_1, p_3), quadrance(p_1, p_2))
}

/// The spreads of the triangle `p_1 p_2 p_3` at its three vertices, from its
/// quadrances by the cosine law. The three points must be distinct.
pub fn spread_from_three_points<T: Scalar>(p_1: (T, T), p_2: (T, T), p_3: (T, T)) -> (r: (T, T, T))
    requires
        spreads_fit::<T>(pair_val(p_1), pair_val(p_2), pair_val(p_3)),
        pair_val(p_1) != pair_val(p_2),
        pair_val(p_1) != pair_val(p_3),
        pair_val(p_2) != pair_val(p_3),
    ensures
        triple_val(r) == spec_spreads(pair_val(p_1), pair_val(p_2), pair_val(p_3)),
{
    proof {
        lemma_quadrance_nonneg(pair_val(p_2), pair_val(p_3));
        lemma_quadrance_nonneg(pair_val(p_1), pair_val(p_3));
        lemma_quadrance_nonneg(pair_val(p_1), pair_val(p_2));
    }
    let (q_1, q_2, q_3) = quadrance_from_three_points(p_1, p_2, p_3);
    (cosine_law(q_1, q_2, q_3), cosine_law(q_2, q_1, q_3), cosine_law(q_3, q_1, q_2))
}

/// The cross product of the edges `p_2 - p_1` and `p_3 - p_1`: twice the
/// signed area of the triangle, or its absolute value in an unsigned domain.
pub fn cross_from_three_points<T: Scalar>(p_1: (T, T), p_2: (T, T), p_3: (T, T)) -> (r: T)
    requires
        twist_fits::<T>(pair_val(p_1), pair_val(p_2), pair_val(p_3)),
    ensures
        r.val() == spec_twist(T::is_signed(), pair_val(p_1), pair_val(p_2), pair_val(p_3)),
{
    cross((p_2.0.minus(p_1.0), p_2.1.minus(p_1.1)), (p_3.0.minus(p_1.0), p_3.1.minus(p_1.1)))
}

/// The product `q * s` of a quadrance and the spread opposite it.
pub fn sine_law_product<T: Scalar>(q: T, s: T) -> (r: T)
    requires
        fits::<T>(q.val() * s.val()),
    ensures
        r.val() == q.val() * s.val(),
{
    q.times(s)
}

/// The turn at `p_2` of the path `p_1 p_2 p_3`: the spread between the edges
/// `p_2 - p_1` and `p_3 - p_2`, with `true` where the turn is counter-clockwise
/// (their cross product is not negative). In an unsigned domain the cross
/// product is never negative, and the turn always reads counter-clockwise.
/// Neither edge may be zero.
pub fn turn<T: Scalar>(p_1: (T, T), p_2: (T, T), p_3: (T, T)) -> (r: (T, bool))
    requires
        turn_fits::<T>(pair_val(p_1), pair_val(p_2), pair_val(p_3)),
        pair_val(p_1) != pair_val(p_2),
        pair_val(p_2) != pair_val(p_3),
    ensures
        r.0.val() == spec_spread(
            vec_between(pair_val(p_1), pair_val(p_2)),
            vec_between(pair_val(p_2), pair_val(p_3)),
        ),
        r.1 == (spec_cross(
            T::is_signed(),
            vec_between(pair_val(p_1), pair_val(p_2)),
            vec_between(pair_val(p_2), pair_val(p_3)),
        ) >= 0),
{
    let v_1 = (p_2.0.minus(p_1.0), p_2.1.minus(p_1.1));
    let v_2 = (p_3.0.minus(p_2.0), p_3.1.minus(p_2.1));
    let s = spread(v_1, v_2);
    let c = cross(v_1, v_2);
    (s, T::zero().at_most(c))
}

/// The squared scale factor from `v_1` to `v_2`, `Q(v_2) / Q(v_1)`; zero where
/// `v_1` is the zero vector.
pub fn dilatation<T: Scalar>(v_1: (T, T), v_2: (T, T)) -> (r: T)
    requires
        quadrance_fits::<T>(pair_val(v_1), origin()),
        pair_val(v_1) != origin() ==> quadrance_fits::<T>(pair_val(v_2), origin()),
    ensures
        r.val() == spec_dilatation(pair_val(v_1), pair_val(v_2)),
{
    let zero = T::zero();
    let q_1 = quadrance(v_1, (zero, zero));
    proof {
        lemma_quadrance_nonneg(pair_val(v_1), origin());
    }
    if q_1.equals(zero) {
        return zero;
    }
    let q_2 = quadrance(v_2, (zero, zero));
    proof {
        lemma_quadrance_nonneg(pair_val(v_2), origin());
        lemma_trunc_div_bounds(q_2.val(), q_1.val());
        T::lemma_range();
    }
    q_2.divide(q_1)
}

/// The dilatation from `v_1` to `v_2`, or [`MathError::DivisionByZero`] where
/// `v_1` is the zero vector.
pub fn safe_dilatation<T: Scalar>(v_1: (T, T), v_2: (T, T)) -> (r: Result<T, MathError>)
    requires
        pair_val(v_1) != origin() ==> quadrance_fits::<T>(pair_val(v_1), origin())
            && quadrance_fits::<T>(pair_val(v_2), origin()),
    ensures
        r is Err <==> pair_val(v_1) == origin(),
        r matches Ok(d) ==> d.val() == spec_dilatation(pair_val(v_1), pair_val(v_2)),
        r matches Err(e) ==> e == MathError::DivisionByZero,
{
    if is_zero_vector(v_1) {
        return Err(MathError::DivisionByZero);
    }
    Ok(dilatation(v_1, v_2))
}

/// The quadrance between two points of space.
pub fn quadrance3d<T: Scalar>(p_1: (T, T, T), p_2: (T, T, T)) -> (r: T)
    requires
        quadrance3d_fits::<T>(triple_val(p_1), triple_val(p_2)),
    ensures
        r.val() == spec_quadrance3d(triple_val(p_1), triple_val(p_2)),
{
    proof {
        lemma_gap_square(T::is_signed(), p_1.0.val(), p_2.0.val());
        lemma_gap_square(T::is_signed(), p_1.1.val(), p_2.1.val());
        lemma_gap_square(T::is_signed(), p_1.2.val(), p_2.2.val());
    }
    let dx = p_1.0.delta(p_2.0);
    let dy = p_1.1.delta(p_2.1);
    let dz = p_1.2.delta(p_2.2);
    dx.times(dx).plus(dy.times(dy)).plus(dz.times(dz))
}

/// The cross product of two vectors of space. In an unsigned domain each
/// component is the absolute difference of its two products.
pub fn cross3d<T: Scalar>(v_1: (T, T, T), v_2: (T, T, T)) -> (r: (T, T, T))
    requires
        cross3d_fits::<T>(triple_val(v_1), triple_val(v_2)),
    ensures
        triple_val(r) == spec_cross3d(T::is_signed(), triple_val(v_1), triple_val(v_2)),
{
    (
        v_1.1.times(v_2.2).delta(v_1.2.times(v_2.1)),
        v_1.2.times(v_2.0).delta(v_1.0.times(v_2.2)),
        v_1.0.times(v_2.1).delta(v_1.1.times(v_2.0)),
    )
}

/// The spread of two vectors of space, `1 - dot^2 / (q1 q2)`. Neither vector
/// may be zero.
pub fn spread3d<T: Scalar>(v_1: (T, T, T), v_2: (T, T, T)) -> (r: T)
    requires
        spread3d_fits::<T>(triple_val(v_1), triple_val(v_2)),
        triple_val(v_1) != origin3d(),
        triple_val(v_2) != origin3d(),
    ensures
        r.val() == spec_spread3d(triple_val(v_1), triple_val(v_2)),
{
    let zero = T::zero();
    let q_1 = quadrance3d(v_1, (zero, zero, zero));
    let q_2 = quadrance3d(v_2, (zero, zero, zero));
    let dot = v_1.0.times(v_2.0).plus(v_1.1.times(v_2.1)).plus(v_1.2.times(v_2.2));
    proof {
        lemma_quadrance3d_nonneg(triple_val(v_1), origin3d());
        lemma_quadrance3d_nonneg(triple_val(v_2), origin3d());
        let (a, b) = (q_1.val(), q_2.val());
        assert(a * b > 0) by (nonlinear_arith)
            requires
                a > 0,
                b > 0,
        ;
        assert(dot.val() * dot.val() >= 0) by (nonlinear_arith);
        lemma_trunc_div_bounds(dot.val() * dot.val(), a * b);
        T::lemma_range();
    }
    T::one().minus(dot.times(dot).divide(q_1.times(q_2)))
}

} // verus!
