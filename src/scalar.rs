//! The numeric capability that every formula of the library is written against.

use vstd::prelude::*;

verus! {

/// The absolute value of an integer.
pub open spec fn abs_int(a: int) -> int {
    if a < 0 {
        -a
    } else {
        a
    }
}

/// The quotient of `a` by `b` rounded toward zero, as Rust's integer `/` computes it.
pub open spec fn trunc_div(a: int, b: int) -> int {
    let q = abs_int(a) / abs_int(b);
    if (a < 0) == (b < 0) {
        q
    } else {
        -q
    }
}

/// `a - b` where the domain is signed, `|a - b|` where it is not: the one
/// difference that an unsigned domain can hold for every pair of its values.
pub open spec fn gap(signed: bool, a: int, b: int) -> int {
    if signed {
        a - b
    } else {
        abs_int(a - b)
    }
}

/// Whether the integer `v` can be held by the scalar type `T`.
pub open spec fn fits<T: Scalar>(v: int) -> bool {
    T::min_val() <= v <= T::max_val()
}

/// The integers that a pair of scalars stands for.
pub open spec fn pair_val<T: Scalar>(p: (T, T)) -> (int, int) {
    (p.0.val(), p.1.val())
}

/// The integers that a triple of scalars stands for.
pub open spec fn triple_val<T: Scalar>(p: (T, T, T)) -> (int, int, int) {
    (p.0.val(), p.1.val(), p.2.val())
}

/// The square of a gap is the square of the plain difference.
pub proof fn lemma_gap_square(signed: bool, a: int, b: int)
    ensures
        gap(signed, a, b) * gap(signed, a, b) == (a - b) * (a - b),
        gap(signed, a, b) == 0 <==> a == b,
{
    if !signed && a - b < 0 {
        assert((-(a - b)) * (-(a - b)) == (a - b) * (a - b)) by (nonlinear_arith);
    }
}

/// A quotient of a nonnegative integer is no larger in size than the dividend;
/// by a positive divisor it is nonnegative, and at most one where the dividend
/// is at most the divisor.
pub proof fn lemma_trunc_div_bounds(a: int, b: int)
    requires
        a >= 0,
        b != 0,
    ensures
        abs_int(trunc_div(a, b)) <= a,
        b > 0 ==> 0 <= trunc_div(a, b),
        0 < b && a <= b ==> trunc_div(a, b) <= 1,
{
    let m = abs_int(b);
    assert(0 <= a / m <= a) by (nonlinear_arith)
        requires
            a >= 0,
            m > 0,
    ;
    if 0 < b && a <= b {
        assert(a / b <= 1) by (nonlinear_arith)
            requires
                0 <= a <= b,
                b > 0,
        ;
    }
}

/// The numeric capability that the formulas need: the four operations, the
/// additive and multiplicative identities, and comparison.
///
/// Each value stands for the integer `val()`; every operation is exact on that
/// integer and demands that its result be representable.
pub trait Scalar: Copy + Sized {
    /// The integer that this value stands for.
    spec fn val(self) -> int;

    /// The least representable integer.
    spec fn min_val() -> int;

    /// The greatest representable integer.
    spec fn max_val() -> int;

    /// Whether the domain holds negative values.
    spec fn is_signed() -> bool;

    /// The value that stands for the integer `v`, where `v` fits.
    spec fn from_val(v: int) -> Self;

    /// Every value is in range and is recovered from its integer.
    proof fn lemma_val(x: Self)
        ensures
            Self::min_val() <= x.val() <= Self::max_val(),
            Self::from_val(x.val()) == x,
    ;

    /// An integer in range is recovered from the value that stands for it.
    proof fn lemma_from_val(v: int)
        requires
            Self::min_val() <= v <= Self::max_val(),
        ensures
            Self::from_val(v).val() == v,
    ;

    /// The range holds at least what a 32-bit integer of the same signedness holds.
    proof fn lemma_range()
        ensures
            Self::is_signed() ==> Self::min_val() == -Self::max_val() - 1,
            !Self::is_signed() ==> Self::min_val() == 0,
            Self::max_val() >= 0x7fff_ffff,
    ;

    /// The additive identity.
    fn zero() -> (r: Self)
        ensures
            r.val() == 0,
    ;

    /// The multiplicative identity.
    fn one() -> (r: Self)
        ensures
            r.val() == 1,
    ;

    /// The sum.
    fn plus(self, rhs: Self) -> (r: Self)
        requires
            Self::min_val() <= self.val() + rhs.val() <= Self::max_val(),
        ensures
            r.val() == self.val() + rhs.val(),
    ;

    /// The difference.
    fn minus(self, rhs: Self) -> (r: Self)
        requires
            Self::min_val() <= self.val() - rhs.val() <= Self::max_val(),
        ensures
            r.val() == self.val() - rhs.val(),
    ;

    /// The difference in a signed domain, the absolute difference in an unsigned one.
    fn delta(self, rhs: Self) -> (r: Self)
        requires
            Self::min_val() <= gap(Self::is_signed(), self.val(), rhs.val()) <= Self::max_val(),
        ensures
            r.val() == gap(Self::is_signed(), self.val(), rhs.val()),
    ;

    /// The product.
    fn times(self, rhs: Self) -> (r: Self)
        requires
            Self::min_val() <= self.val() * rhs.val() <= Self::max_val(),
        ensures
            r.val() == self.val() * rhs.val(),
    ;

    /// The quotient, rounded toward zero.
    fn divide(self, rhs: Self) -> (r: Self)
        requires
            rhs.val() != 0,
            Self::min_val() <= trunc_div(self.val(), rhs.val()) <= Self::max_val(),
        ensures
            r.val() == trunc_div(self.val(), rhs.val()),
    ;

    /// Whether the two values are equal.
    fn equals(self, rhs: Self) -> (r: bool)
        ensures
            r == (self.val() == rhs.val()),
    ;

    /// Whether `self` is at most `rhs`.
    fn at_most(self, rhs: Self) -> (r: bool)
        ensures
            r == (self.val() <= rhs.val()),
    ;

    /// Whether `self` is below `rhs`.
    fn below(self, rhs: Self) -> (r: bool)
        ensures
            r == (self.val() < rhs.val()),
    ;
}

impl Scalar for i32 {
    open spec fn val(self) -> int {
        self as int
    }

    open spec fn min_val() -> int {
        i32::MIN as int
    }

    open spec fn max_val() -> int {
        i32::MAX as int
    }

    open spec fn is_signed() -> bool {
        true
    }

    open spec fn from_val(v: int) -> Self {
        v as i32
    }

    proof fn lemma_val(x: Self) {
    }

    proof fn lemma_from_val(v: int) {
    }

    proof fn lemma_range() {
    }

    fn zero() -> (r: Self) {
        0
    }

    fn one() -> (r: Self) {
        1
    }

    fn plus(self, rhs: Self) -> (r: Self) {
        self + rhs
    }

    fn minus(self, rhs: Self) -> (r: Self) {
        self - rhs
    }

    fn delta(self, rhs: Self) -> (r: Self) {
        self - rhs
    }

    fn times(self, rhs: Self) -> (r: Self) {
        self * rhs
    }

    fn divide(self, rhs: Self) -> (r: Self) {
        self.checked_div(rhs).unwrap()
    }

    fn equals(self, rhs: Self) -> (r: bool) {
        self == rhs
    }

    fn at_most(self, rhs: Self) -> (r: bool) {
        self <= rhs
    }

    fn below(self, rhs: Self) -> (r: bool) {
        self < rhs
    }
}

impl Scalar for i64 {
    open spec fn val(self) -> int {
        self as int
    }

    open spec fn min_val() -> int {
        i64::MIN as int
    }

    open spec fn max_val() -> int {
        i64::MAX as int
    }

    open spec fn is_signed() -> bool {
        true
    }

    open spec fn from_val(v: int) -> Self {
        v as i64
    }

    proof fn lemma_val(x: Self) {
    }

    proof fn lemma_from_val(v: int) {
    }

    proof fn lemma_range() {
    }

    fn zero() -> (r: Self) {
        0
    }

    fn one() -> (r: Self) {
        1
    }

    fn plus(self, rhs: Self) -> (r: Self) {
        self + rhs
    }

    fn minus(self, rhs: Self) -> (r: Self) {
        self - rhs
    }

    fn delta(self, rhs: Self) -> (r: Self) {
        self - rhs
    }

    fn times(self, rhs: Self) -> (r: Self) {
        self * rhs
    }

    fn divide(self, rhs: Self) -> (r: Self) {
        self.checked_div(rhs).unwrap()
    }

    fn equals(self, rhs: Self) -> (r: bool) {
        self == rhs
    }

    fn at_most(self, rhs: Self) -> (r: bool) {
        self <= rhs
    }

    fn below(self, rhs: Self) -> (r: bool) {
        self < rhs
    }
}

impl Scalar for i128 {
    open spec fn val(self) -> int {
        self as int
    }

    open spec fn min_val() -> int {
        i128::MIN as int
    }

    open spec fn max_val() -> int {
        i128::MAX as int
    }

    open spec fn is_signed() -> bool {
        true
    }

    open spec fn from_val(v: int) -> Self {
        v as i128
    }

    proof fn lemma_val(x: Self) {
    }

    proof fn lemma_from_val(v: int) {
    }

    proof fn lemma_range() {
    }

    fn zero() -> (r: Self) {
        0
    }

    fn one() -> (r: Self) {
        1
    }

    fn plus(self, rhs: Self) -> (r: Self) {
        self + rhs
    }

    fn minus(self, rhs: Self) -> (r: Self) {
        self - rhs
    }

    fn delta(self, rhs: Self) -> (r: Self) {
        self - rhs
    }

    fn times(self, rhs: Self) -> (r: Self) {
        self * rhs
    }

    fn divide(self, rhs: Self) -> (r: Self) {
        self.checked_div(rhs).unwrap()
    }

    fn equals(self, rhs: Self) -> (r: bool) {
        self == rhs
    }

    fn at_most(self, rhs: Self) -> (r: bool) {
        self <= rhs
    }

    fn below(self, rhs: Self) -> (r: bool) {
        self < rhs
    }
}

impl Scalar for u32 {
    open spec fn val(self) -> int {
        self as int
    }

    open spec fn min_val() -> int {
        u32::MIN as int
    }

    open spec fn max_val() -> int {
        u32::MAX as int
    }

    open spec fn is_signed() -> bool {
        false
    }

    open spec fn from_val(v: int) -> Self {
        v as u32
    }

    proof fn lemma_val(x: Self) {
    }

    proof fn lemma_from_val(v: int) {
    }

    proof fn lemma_range() {
    }

    fn zero() -> (r: Self) {
        0
    }

    fn one() -> (r: Self) {
        1
    }

    fn plus(self, rhs: Self) -> (r: Self) {
        self + rhs
    }

    fn minus(self, rhs: Self) -> (r: Self) {
        self - rhs
    }

    fn delta(self, rhs: Self) -> (r: Self) {
        if self >= rhs {
            self - rhs
        } else {
            rhs - self
        }
    }

    fn times(self, rhs: Self) -> (r: Self) {
        self * rhs
    }

    fn divide(self, rhs: Self) -> (r: Self) {
        self / rhs
    }

    fn equals(self, rhs: Self) -> (r: bool) {
        self == rhs
    }

    fn at_most(self, rhs: Self) -> (r: bool) {
        self <= rhs
    }

    fn below(self, rhs: Self) -> (r: bool) {
        self < rhs
    }
}

impl Scalar for u64 {
    open spec fn val(self) -> int {
        self as int
    }

    open spec fn min_val() -> int {
        u64::MIN as int
    }

    open spec fn max_val() -> int {
        u64::MAX as int
    }

    open spec fn is_signed() -> bool {
        false
    }

    open spec fn from_val(v: int) -> Self {
        v as u64
    }

    proof fn lemma_val(x: Self) {
    }

    proof fn lemma_from_val(v: int) {
    }

    proof fn lemma_range() {
    }

    fn zero() -> (r: Self) {
        0
    }

    fn one() -> (r: Self) {
        1
    }

    fn plus(self, rhs: Self) -> (r: Self) {
        self + rhs
    }

    fn minus(self, rhs: Self) -> (r: Self) {
        self - rhs
    }

    fn delta(self, rhs: Self) -> (r: Self) {
        if self >= rhs {
            self - rhs
        } else {
            rhs - self
        }
    }

    fn times(self, rhs: Self) -> (r: Self) {
        self * rhs
    }

    fn divide(self, rhs: Self) -> (r: Self) {
        self / rhs
    }

    fn equals(self, rhs: Self) -> (r: bool) {
        self == rhs
    }

    fn at_most(self, rhs: Self) -> (r: bool) {
        self <= rhs
    }

    fn below(self, rhs: Self) -> (r: bool) {
        self < rhs
    }
}

impl Scalar for u128 {
    open spec fn val(self) -> int {
        self as int
    }

    open spec fn min_val() -> int {
        u128::MIN as int
    }

    open spec fn max_val() -> int {
        u128::MAX as int
    }

    open spec fn is_signed() -> bool {
        false
    }

    open spec fn from_val(v: int) -> Self {
        v as u128
    }

    proof fn lemma_val(x: Self) {
    }

    proof fn lemma_from_val(v: int) {
    }

    proof fn lemma_range() {
    }

    fn zero() -> (r: Self) {
        0
    }

    fn one() -> (r: Self) {
        1
    }

    fn plus(self, rhs: Self) -> (r: Self) {
        self + rhs
    }

    fn minus(self, rhs: Self) -> (r: Self) {
        self - rhs
    }

    fn delta(self, rhs: Self) -> (r: Self) {
        if self >= rhs {
            self - rhs
        } else {
            rhs - self
        }
    }

    fn times(self, rhs: Self) -> (r: Self) {
        self * rhs
    }

    fn divide(self, rhs: Self) -> (r: Self) {
        self / rhs
    }

    fn equals(self, rhs: Self) -> (r: bool) {
        self == rhs
    }

    fn at_most(self, rhs: Self) -> (r: bool) {
        self <= rhs
    }

    fn below(self, rhs: Self) -> (r: bool) {
        self < rhs
    }
}

} // verus!
