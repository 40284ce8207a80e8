//! Points, vectors, lines and triangles, which package coordinates and expose
//! the formulas of [`crate::trigonom`] as methods.

use vstd::prelude::*;
use vstd::std_specs::convert::FromSpecImpl;
use vstd::std_specs::ops::{AddSpecImpl, SubSpecImpl};
use crate::scalar::{Scalar, fits, pair_val, triple_val};
use crate::model::{
    archimedes_fits, lemma_twist_zero, quadrance3d_fits, quadrances_fit, spec_archimedes,
    spec_quadrance3d, spec_quadrances, spec_twist, twist_fits,
};
use crate::trigonom::{
    archimedes, cross_from_three_points, quadrance3d, quadrance_from_three_points,
};

verus! {

/// A point of the plane.
#[derive(Debug, Clone, Copy, PartialEq, Eq)]
pub struct Point2D<T> {
    pub x: T,
    pub y: T,
}

impl<T> Point2D<T> {
    /// The point `(x, y)`.
    pub fn new(x: T, y: T) -> (r: Self)
        ensures
            r.x == x,
            r.y == y,
    {
        Self { x, y }
    }
}

impl<T: Scalar> Point2D<T> {
    /// The coordinates as integers.
    pub open spec fn coords(self) -> (int, int) {
        pair_val((self.x, self.y))
    }
}

impl<T> From<(T, T)> for Point2D<T> {
    fn from(tuple: (T, T)) -> (r: Self) {
        Self { x: tuple.0, y: tuple.1 }
    }
}

impl<T> FromSpecImpl<(T, T)> for Point2D<T> {
    open spec fn obeys_from_spec() -> bool {
        true
    }

    open spec fn from_spec(v: (T, T)) -> Self {
        Self { x: v.0, y: v.1 }
    }
}

/// A point of space.
#[derive(Debug, Clone, Copy, PartialEq, Eq)]
pub struct Point3D<T> {
    pub x: T,
    pub y: T,
    pub z: T,
}

impl<T> Point3D<T> {
    /// The point `(x, y, z)`.
    pub fn new(x: T, y: T, z: T) -> (r: Self)
        ensures
            r.x == x,
            r.y == y,
            r.z == z,
    {
        Self { x, y, z }
    }
}

impl<T: Scalar> Point3D<T> {
    /// The coordinates as integers.
    pub open spec fn coords(self) -> (int, int, int) {
        triple_val((self.x, self.y, self.z))
    }
}

impl<T> From<(T, T, T)> for Point3D<T> {
    fn from(tuple: (T, T, T)) -> (r: Self) {
        Self { x: tuple.0, y: tuple.1, z: tuple.2 }
    }
}

impl<T> FromSpecImpl<(T, T, T)> for Point3D<T> {
    open spec fn obeys_from_spec() -> bool {
        true
    }

    open spec fn from_spec(v: (T, T, T)) -> Self {
        Self { x: v.0, y: v.1, z: v.2 }
    }
}

/// A vector of the plane.
#[derive(Debug, Clone, Copy, PartialEq, Eq)]
pub struct Vector2D<T> {
    pub x: T,
    pub y: T,
}

impl<T> Vector2D<T> {
    /// The vector `(x, y)`.
    pub fn new(x: T, y: T) -> (r: Self)
        ensures
            r.x == x,
            r.y == y,
    {
        Self { x, y }
    }
}

impl<T: Scalar> Vector2D<T> {
    /// The components as integers.
    pub open spec fn coords(self) -> (int, int) {
        pair_val((self.x, self.y))
    }
}

impl<T> From<(T, T)> for Vector2D<T> {
    fn from(tuple: (T, T)) -> (r: Self) {
        Self { x: tuple.0, y: tuple.1 }
    }
}

impl<T> FromSpecImpl<(T, T)> for Vector2D<T> {
    open spec fn obeys_from_spec() -> bool {
        true
    }

    open spec fn from_spec(v: (T, T)) -> Self {
        Self { x: v.0, y: v.1 }
    }
}

impl<T> From<Point2D<T>> for Vector2D<T> {
    fn from(point: Point2D<T>) -> (r: Self) {
        Self { x: point.x, y: point.y }
    }
}

impl<T> FromSpecImpl<Point2D<T>> for Vector2D<T> {
    open spec fn obeys_from_spec() -> bool {
        true
    }

    open spec fn from_spec(v: Point2D<T>) -> Self {
        Self { x: v.x, y: v.y }
    }
}

impl<T: Scalar> core::ops::Add for Vector2D<T> {
    type Output = Self;

    fn add(self, other: Self) -> (r: Self)
        ensures
            r.coords() == (self.coords().0 + other.coords().0, self.coords().1 + other.coords().1),
    {
        proof {
            T::lemma_from_val(self.x.val() + other.x.val());
            T::lemma_from_val(self.y.val() + other.y.val());
        }
        let r = Self { x: self.x.plus(other.x), y: self.y.plus(other.y) };
        proof {
            T::lemma_val(r.x);
            T::lemma_val(r.y);
        }
        r
    }
}

impl<T: Scalar> AddSpecImpl for Vector2D<T> {
    open spec fn obeys_add_spec() -> bool {
        true
    }

    open spec fn add_req(self, rhs: Self) -> bool {
        fits::<T>(self.x.val() + rhs.x.val()) && fits::<T>(self.y.val() + rhs.y.val())
    }

    open spec fn add_spec(self, rhs: Self) -> Self {
        Self { x: T::from_val(self.x.val() + rhs.x.val()), y: T::from_val(self.y.val() + rhs.y.val()) }
    }
}

impl<T: Scalar> core::ops::Sub for Vector2D<T> {
    type Output = Self;

    fn sub(self, other: Self) -> (r: Self)
        ensures
            r.coords() == (self.coords().0 - other.coords().0, self.coords().1 - other.coords().1),
    {
        proof {
            T::lemma_from_val(self.x.val() - other.x.val());
            T::lemma_from_val(self.y.val() - other.y.val());
        }
        let r = Self { x: self.x.minus(other.x), y: self.y.minus(other.y) };
        proof {
            T::lemma_val(r.x);
            T::lemma_val(r.y);
        }
        r
    }
}

impl<T: Scalar> SubSpecImpl for Vector2D<T> {
    open spec fn obeys_sub_spec() -> bool {
        true
    }

    open spec fn sub_req(self, rhs: Self) -> bool {
        fits::<T>(self.x.val() - rhs.x.val()) && fits::<T>(self.y.val() - rhs.y.val())
    }

    open spec fn sub_spec(self, rhs: Self) -> Self {
        Self { x: T::from_val(self.x.val() - rhs.x.val()), y: T::from_val(self.y.val() - rhs.y.val()) }
    }
}

/// A vector of space.
#[derive(Debug, Clone, Copy, PartialEq, Eq)]
pub struct Vector3D<T> {
    pub x: T,
    pub y: T,
    pub z: T,
}

impl<T> Vector3D<T> {
    /// The vector `(x, y, z)`.
    pub fn new(x: T, y: T, z: T) -> (r: Self)
        ensures
            r.x == x,
            r.y == y,
            r.z == z,
    {
        Self { x, y, z }
    }
}

impl<T: Scalar> Vector3D<T> {
    /// The components as integers.
    pub open spec fn coords(self) -> (int, int, int) {
        triple_val((self.x, self.y, self.z))
    }
}

impl<T> From<(T, T, T)> for Vector3D<T> {
    fn from(tuple: (T, T, T)) -> (r: Self) {
        Self { x: tuple.0, y: tuple.1, z: tuple.2 }
    }
}

impl<T> FromSpecImpl<(T, T, T)> for Vector3D<T> {
    open spec fn obeys_from_spec() -> bool {
        true
    }

    open spec fn from_spec(v: (T, T, T)) -> Self {
        Self { x: v.0, y: v.1, z: v.2 }
    }
}

impl<T> From<Point3D<T>> for Vector3D<T> {
    fn from(point: Point3D<T>) -> (r: Self) {
        Self { x: point.x, y: point.y, z: point.z }
    }
}

impl<T> FromSpecImpl<Point3D<T>> for Vector3D<T> {
    open spec fn obeys_from_spec() -> bool {
        true
    }

    open spec fn from_spec(v: Point3D<T>) -> Self {
        Self { x: v.x, y: v.y, z: v.z }
    }
}

impl<T: Scalar> core::ops::Add for Vector3D<T> {
    type Output = Self;

    fn add(self, other: Self) -> (r: Self)
        ensures
            r.coords() == (
                self.coords().0 + other.coords().0,
                self.coords().1 + other.coords().1,
                self.coords().2 + other.coords().2,
            ),
    {
        proof {
            T::lemma_from_val(self.x.val() + other.x.val());
            T::lemma_from_val(self.y.val() + other.y.val());
            T::lemma_from_val(self.z.val() + other.z.val());
        }
        let r = Self {
            x: self.x.plus(other.x),
            y: self.y.plus(other.y),
            z: self.z.plus(other.z),
        };
        proof {
            T::lemma_val(r.x);
            T::lemma_val(r.y);
            T::lemma_val(r.z);
        }
        r
    }
}

impl<T: Scalar> AddSpecImpl for Vector3D<T> {
    open spec fn obeys_add_spec() -> bool {
        true
    }

    open spec fn add_req(self, rhs: Self) -> bool {
        fits::<T>(self.x.val() + rhs.x.val()) && fits::<T>(self.y.val() + rhs.y.val()) && fits::<T>(
            self.z.val() + rhs.z.val(),
        )
    }

    open spec fn add_spec(self, rhs: Self) -> Self {
        Self {
            x: T::from_val(self.x.val() + rhs.x.val()),
            y: T::from_val(self.y.val() + rhs.y.val()),
            z: T::from_val(self.z.val() + rhs.z.val()),
        }
    }
}

impl<T: Scalar> core::ops::Sub for Vector3D<T> {
    type Output = Self;

    fn sub(self, other: Self) -> (r: Self)
        ensures
            r.coords() == (
                self.coords().0 - other.coords().0,
                self.coords().1 - other.coords().1,
                self.coords().2 - other.coords().2,
            ),
    {
        proof {
            T::lemma_from_val(self.x.val() - other.x.val());
            T::lemma_from_val(self.y.val() - other.y.val());
            T::lemma_from_val(self.z.val() - other.z.val());
        }
        let r = Self {
            x: self.x.minus(other.x),
            y: self.y.minus(other.y),
            z: self.z.minus(other.z),
        };
        proof {
            T::lemma_val(r.x);
            T::lemma_val(r.y);
            T::lemma_val(r.z);
        }
        r
    }
}

impl<T: Scalar> SubSpecImpl for Vector3D<T> {
    open spec fn obeys_sub_spec() -> bool {
        true
    }

    open spec fn sub_req(self, rhs: Self) -> bool {
        fits::<T>(self.x.val() - rhs.x.val()) && fits::<T>(self.y.val() - rhs.y.val()) && fits::<T>(
            self.z.val() - rhs.z.val(),
        )
    }

    open spec fn sub_spec(self, rhs: Self) -> Self {
        Self {
            x: T::from_val(self.x.val() - rhs.x.val()),
            y: T::from_val(self.y.val() - rhs.y.val()),
            z: T::from_val(self.z.val() - rhs.z.val()),
        }
    }
}

/// A line `a x + b y + c = 0` of the plane. A line whose direction `(a, b)` is
/// zero is degenerate; the formulas leave that case to the caller or to their
/// checked forms.
#[derive(Debug, Clone, Copy, PartialEq, Eq)]
pub struct Line2D<T> {
    pub a: T,
    pub b: T,
    pub c: T,
}

impl<T> Line2D<T> {
    /// The line `a x + b y + c = 0`.
    pub fn new(a: T, b: T, c: T) -> (r: Self)
        ensures
            r.a == a,
            r.b == b,
            r.c == c,
    {
        Self { a, b, c }
    }
}

impl<T: Scalar> Line2D<T> {
    /// The coefficients as integers.
    pub open spec fn coeffs(self) -> (int, int, int) {
        triple_val((self.a, self.b, self.c))
    }
}

impl<T> From<(T, T, T)> for Line2D<T> {
    fn from(tuple: (T, T, T)) -> (r: Self) {
        Self { a: tuple.0, b: tuple.1, c: tuple.2 }
    }
}

impl<T> FromSpecImpl<(T, T, T)> for Line2D<T> {
    open spec fn obeys_from_spec() -> bool {
        true
    }

    open spec fn from_spec(v: (T, T, T)) -> Self {
        Self { a: v.0, b: v.1, c: v.2 }
    }
}

/// A triangle of the plane, given by its three vertices. It is degenerate
/// where the vertices are collinear; nothing corrects that.
#[derive(Debug, Clone, Copy)]
pub struct Triangle2D<T> {
    pub p1: Point2D<T>,
    pub p2: Point2D<T>,
    pub p3: Point2D<T>,
}

impl<T> Triangle2D<T> {
    /// The triangle `p1 p2 p3`.
    pub fn new(p1: Point2D<T>, p2: Point2D<T>, p3: Point2D<T>) -> (r: Self)
        ensures
            r.p1 == p1,
            r.p2 == p2,
            r.p3 == p3,
    {
        Self { p1, p2, p3 }
    }
}

impl<T: Scalar> Triangle2D<T> {
    /// The quadrances of the sides, each named by the vertex that it faces.
    pub open spec fn spec_quadrances(self) -> (int, int, int) {
        spec_quadrances(self.p1.coords(), self.p2.coords(), self.p3.coords())
    }

    /// The twist, twice the signed area; its absolute value in an unsigned domain.
    pub open spec fn spec_twist(self) -> int {
        spec_twist(T::is_signed(), self.p1.coords(), self.p2.coords(), self.p3.coords())
    }

    /// The quadrances of the sides: `(Q(p2, p3), Q(p1, p3), Q(p1, p2))`.
    pub fn quadrances(&self) -> (r: (T, T, T))
        requires
            quadrances_fit::<T>(self.p1.coords(), self.p2.coords(), self.p3.coords()),
        ensures
            triple_val(r) == self.spec_quadrances(),
    {
        quadrance_from_three_points((self.p1.x, self.p1.y), (self.p2.x, self.p2.y), (self.p3.x, self.p3.y))
    }

    /// The quadrea of the triangle by Archimedes' formula, sixteen times the
    /// square of its area.
    pub fn area(&self) -> (r: T)
        requires
            quadrances_fit::<T>(self.p1.coords(), self.p2.coords(), self.p3.coords()),
            archimedes_fits::<T>(
                self.spec_quadrances().0,
                self.spec_quadrances().1,
                self.spec_quadrances().2,
            ),
        ensures
            r.val() == spec_archimedes(
                self.spec_quadrances().0,
                self.spec_quadrances().1,
                self.spec_quadrances().2,
            ),
    {
        let (q1, q2, q3) = self.quadrances();
        archimedes(&q1, &q2, &q3)
    }

    /// The twist of the triangle: the cross product of the edges that leave
    /// `p1`, twice its signed area.
    pub fn twist(&self) -> (r: T)
        requires
            twist_fits::<T>(self.p1.coords(), self.p2.coords(), self.p3.coords()),
        ensures
            r.val() == self.spec_twist(),
    {
        cross_from_three_points((self.p1.x, self.p1.y), (self.p2.x, self.p2.y), (self.p3.x, self.p3.y))
    }

    /// Whether the three vertices are collinear.
    pub fn is_degenerate(&self) -> (r: bool)
        requires
            twist_fits::<T>(self.p1.coords(), self.p2.coords(), self.p3.coords()),
        ensures
            r == (spec_twist(true, self.p1.coords(), self.p2.coords(), self.p3.coords()) == 0),
    {
        proof {
            lemma_twist_zero(T::is_signed(), self.p1.coords(), self.p2.coords(), self.p3.coords());
        }
        self.twist().equals(T::zero())
    }
}

/// A triangle of space, given by its three vertices.
#[derive(Debug, Clone, Copy)]
pub struct Triangle3D<T> {
    pub p1: Point3D<T>,
    pub p2: Point3D<T>,
    pub p3: Point3D<T>,
}

impl<T> Triangle3D<T> {
    /// The triangle `p1 p2 p3`.
    pub fn new(p1: Point3D<T>, p2: Point3D<T>, p3: Point3D<T>) -> (r: Self)
        ensures
            r.p1 == p1,
            r.p2 == p2,
            r.p3 == p3,
    {
        Self { p1, p2, p3 }
    }
}

impl<T: Scalar> Triangle3D<T> {
    /// The quadrances of the sides: `(Q(p2, p3), Q(p1, p3), Q(p1, p2))`.
    pub fn quadrances(&self) -> (r: (T, T, T))
        requires
            quadrance3d_fits::<T>(self.p2.coords(), self.p3.coords()),
            quadrance3d_fits::<T>(self.p1.coords(), self.p3.coords()),
            quadrance3d_fits::<T>(self.p1.coords(), self.p2.coords()),
        ensures
            triple_val(r) == (
                spec_quadrance3d(self.p2.coords(), self.p3.coords()),
                spec_quadrance3d(self.p1.coords(), self.p3.coords()),
                spec_quadrance3d(self.p1.coords(), self.p2.coords()),
            ),
    {
        let p1 = (self.p1.x, self.p1.y, self.p1.z);
        let p2 = (self.p2.x, self.p2.y, self.p2.z);
        let p3 = (self.p3.x, self.p3.y, self.p3.z);
        (quadrance3d(p2, p3), quadrance3d(p1, p3), quadrance3d(p1, p2))
    }
}

} // verus!
