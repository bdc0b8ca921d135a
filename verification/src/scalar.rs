//! The element type of a vector: what it has to supply, and which laws make
//! its arithmetic exact.

use vstd::prelude::*;

verus! {

/// The capability set of an element type: the constants zero and one, the
/// four arithmetic operations, negation, square root and inverse cosine.
///
/// Every operation is total. `None` means that the mathematical result has no
/// representation in the element type (an overflow, an inexact quotient, an
/// irrational root). Each executable method returns exactly what its
/// specification function says, so that contracts of vector operations can be
/// stated over the specification functions alone.
pub trait Scalar: Copy + Sized {
    /// The additive identity.
    spec fn zero_spec() -> Self;

    /// The multiplicative identity.
    spec fn one_spec() -> Self;

    /// Whether a value counts as zero when it is about to be used as a divisor.
    spec fn is_zero_spec(self) -> bool;

    /// `self + rhs`.
    spec fn sum(self, rhs: Self) -> Option<Self>;

    /// `self - rhs`.
    spec fn difference(self, rhs: Self) -> Option<Self>;

    /// `self * rhs`.
    spec fn product(self, rhs: Self) -> Option<Self>;

    /// `self / rhs`. Unconstrained for a zero `rhs`: callers test the divisor first.
    spec fn quotient(self, rhs: Self) -> Option<Self>;

    /// `-self`.
    spec fn negation(self) -> Option<Self>;

    /// The non-negative square root of `self`.
    spec fn square_root(self) -> Option<Self>;

    /// The inverse cosine of `self`, in radians.
    spec fn arc_cosine(self) -> Option<Self>;

    /// The additive identity.
    fn zero() -> (r: Self)
        ensures
            r == Self::zero_spec(),
    ;

    /// The multiplicative identity.
    fn one() -> (r: Self)
        ensures
            r == Self::one_spec(),
    ;

    /// Whether the value counts as zero.
    fn is_zero(&self) -> (b: bool)
        ensures
            b == self.is_zero_spec(),
    ;

    /// `self + rhs`, if the element type can hold it.
    fn try_add(self, rhs: Self) -> (r: Option<Self>)
        ensures
            r == self.sum(rhs),
    ;

    /// `self - rhs`, if the element type can hold it.
    fn try_sub(self, rhs: Self) -> (r: Option<Self>)
        ensures
            r == self.difference(rhs),
    ;

    /// `self * rhs`, if the element type can hold it.
    fn try_mul(self, rhs: Self) -> (r: Option<Self>)
        ensures
            r == self.product(rhs),
    ;

    /// `self / rhs`, if the element type can hold it.
    fn try_div(self, rhs: Self) -> (r: Option<Self>)
        ensures
            r == self.quotient(rhs),
    ;

    /// `-self`, if the element type can hold it.
    fn try_neg(self) -> (r: Option<Self>)
        ensures
            r == self.negation(),
    ;

    /// The non-negative square root, if the element type can hold it.
    fn try_sqrt(self) -> (r: Option<Self>)
        ensures
            r == self.square_root(),
    ;

    /// The inverse cosine in radians, if the element type can hold it.
    fn try_acos(self) -> (r: Option<Self>)
        ensures
            r == self.arc_cosine(),
    ;
}

/// `a + b` where both operands exist.
pub open spec fn sum_of<T: Scalar>(a: Option<T>, b: Option<T>) -> Option<T> {
    match (a, b) {
        (Some(x), Some(y)) => x.sum(y),
        _ => None,
    }
}

/// `a - b` where both operands exist.
pub open spec fn difference_of<T: Scalar>(a: Option<T>, b: Option<T>) -> Option<T> {
    match (a, b) {
        (Some(x), Some(y)) => x.difference(y),
        _ => None,
    }
}

/// `a / b` where both operands exist.
pub open spec fn quotient_of<T: Scalar>(a: Option<T>, b: Option<T>) -> Option<T> {
    match (a, b) {
        (Some(x), Some(y)) => x.quotient(y),
        _ => None,
    }
}

/// `-a` where the operand exists.
pub open spec fn negation_of<T: Scalar>(a: Option<T>) -> Option<T> {
    match a {
        Some(x) => x.negation(),
        None => None,
    }
}

/// The square root of `a` where the operand exists.
pub open spec fn square_root_of<T: Scalar>(a: Option<T>) -> Option<T> {
    match a {
        Some(x) => x.square_root(),
        None => None,
    }
}

/// Element types whose arithmetic is exact: whatever an operation yields is
/// the result that the arithmetic of numbers gives, so that the familiar laws
/// hold wherever the values involved exist. Each law is an obligation on the
/// implementation; the laws of vectors are proved from them alone.
pub trait ExactScalar: Scalar {
    /// Zero is the one value that counts as zero.
    proof fn lemma_zero(x: Self)
        ensures
            x.is_zero_spec() <==> x == Self::zero_spec(),
    ;

    /// Addition is commutative, in its failures too.
    proof fn lemma_sum_commutes(a: Self, b: Self)
        ensures
            a.sum(b) == b.sum(a),
    ;

    /// Zero is the identity of addition.
    proof fn lemma_sum_zero(a: Self)
        ensures
            a.sum(Self::zero_spec()) == Some(a),
    ;

    /// Addition is associative where both groupings exist.
    proof fn lemma_sum_associates(a: Self, b: Self, c: Self)
        requires
            sum_of(a.sum(b), Some(c)) is Some,
            sum_of(Some(a), b.sum(c)) is Some,
        ensures
            sum_of(a.sum(b), Some(c)) == sum_of(Some(a), b.sum(c)),
    ;

    /// Multiplication is commutative, in its failures too.
    proof fn lemma_product_commutes(a: Self, b: Self)
        ensures
            a.product(b) == b.product(a),
    ;

    /// Anything times zero is zero.
    proof fn lemma_product_by_zero(a: Self)
        ensures
            a.product(Self::zero_spec()) == Some(Self::zero_spec()),
    ;

    /// A product is zero only if a factor is.
    proof fn lemma_product_zero(a: Self, b: Self)
        requires
            a.product(b) is Some,
            a.product(b).unwrap().is_zero_spec(),
        ensures
            a.is_zero_spec() || b.is_zero_spec(),
    ;

    /// Dividing a product by a non-zero factor gives the other factor back.
    proof fn lemma_product_cancels(a: Self, s: Self)
        requires
            !s.is_zero_spec(),
            a.product(s) is Some,
        ensures
            quotient_of(a.product(s), Some(s)) == Some(a),
    ;

    /// A non-zero value divided by itself is one.
    proof fn lemma_quotient_self(x: Self)
        requires
            !x.is_zero_spec(),
        ensures
            x.quotient(x) == Some(Self::one_spec()),
    ;

    /// `a - b` is the negation of `b - a` where both exist.
    proof fn lemma_difference_reverses(a: Self, b: Self)
        requires
            a.difference(b) is Some,
            negation_of(b.difference(a)) is Some,
        ensures
            a.difference(b) == negation_of(b.difference(a)),
    ;

    /// A square root times itself is the value it is the root of.
    proof fn lemma_square_root_squares(x: Self)
        requires
            x.square_root() is Some,
        ensures
            x.square_root().unwrap().product(x.square_root().unwrap()) == Some(x),
    ;

    /// The square root of zero is zero.
    proof fn lemma_square_root_zero()
        ensures
            Self::zero_spec().square_root() == Some(Self::zero_spec()),
    ;

    /// The inverse cosine of one is zero.
    proof fn lemma_arc_cosine_one()
        ensures
            Self::one_spec().arc_cosine() == Some(Self::zero_spec()),
    ;
}

} // verus!
