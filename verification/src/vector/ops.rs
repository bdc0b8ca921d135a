//! The arithmetic operators of [`Vector`]: `+` and `-` between two vectors,
//! `*` and `/` between a vector and a scalar, and each of them in place.
//!
//! An operator yields a `Result`: the element type may be unable to hold a
//! component of the result, and a zero divisor is a domain error.

use crate::error::VectorError;
use crate::scalar::Scalar;
use crate::vector::{gather, outcome, Vector};
use core::ops::{Add, Div, Mul, Sub};
use vstd::prelude::*;

verus! {

/// The componentwise sums of `a` and `b`.
pub open spec fn sums<T: Scalar>(a: Seq<T>, b: Seq<T>) -> Seq<Option<T>> {
    Seq::new(a.len(), |x: int| a[x].sum(b[x]))
}

/// The componentwise differences of `a` and `b`.
pub open spec fn differences<T: Scalar>(a: Seq<T>, b: Seq<T>) -> Seq<Option<T>> {
    Seq::new(a.len(), |x: int| a[x].difference(b[x]))
}

/// The components of `a`, each multiplied by `s`.
pub open spec fn products<T: Scalar>(a: Seq<T>, s: T) -> Seq<Option<T>> {
    Seq::new(a.len(), |x: int| a[x].product(s))
}

/// The components of `a`, each divided by `s`.
pub open spec fn quotients<T: Scalar>(a: Seq<T>, s: T) -> Seq<Option<T>> {
    Seq::new(a.len(), |x: int| a[x].quotient(s))
}

/// The components of `a` divided by `s`, or the domain error for a zero `s`.
pub open spec fn scaled_down<T: Scalar>(a: Seq<T>, s: T) -> Result<Seq<T>, VectorError> {
    if s.is_zero_spec() {
        Err(VectorError::DomainError)
    } else {
        gather(quotients(a, s))
    }
}

/// The vector with the given components, where an operation yielded them.
pub open spec fn vector_of<T, const N: usize>(r: Result<Seq<T>, VectorError>) -> Result<
    Vector<T, N>,
    VectorError,
> {
    match r {
        Ok(s) => Ok(choose|v: Vector<T, N>| v@ == s),
        Err(e) => Err(e),
    }
}

/// A vector is determined by its components.
pub proof fn lemma_vector_of<T, const N: usize>(r: Result<Vector<T, N>, VectorError>)
    ensures
        vector_of::<T, N>(outcome(r)) == r,
{
    if let Ok(v) = r {
        let w = choose|w: Vector<T, N>| w@ == v@;
        assert(w.components =~= v.components);
    }
}

/// What an in-place operation leaves behind: on success the new components
/// and `Ok`, on failure the old components and the error.
pub open spec fn assigned<T>(
    wanted: Result<Seq<T>, VectorError>,
    before: Seq<T>,
    after: Seq<T>,
    r: Result<(), VectorError>,
) -> bool {
    match wanted {
        Ok(s) => r is Ok && after == s,
        Err(e) => r == Err::<(), VectorError>(e) && after == before,
    }
}

/// A binary operation of the element type.
enum Operation {
    Sum,
    Difference,
    Product,
    Quotient,
}

/// What `op` yields on `x` and `y`.
spec fn applied<T: Scalar>(op: Operation, x: T, y: T) -> Option<T> {
    match op {
        Operation::Sum => x.sum(y),
        Operation::Difference => x.difference(y),
        Operation::Product => x.product(y),
        Operation::Quotient => x.quotient(y),
    }
}

/// What `op` yields on each pair of components.
spec fn pointwise<T: Scalar>(op: Operation, a: Seq<T>, b: Seq<T>) -> Seq<Option<T>> {
    Seq::new(a.len(), |x: int| applied(op, a[x], b[x]))
}

/// Applies `op` to `x` and `y`.
fn apply<T: Scalar>(op: &Operation, x: T, y: T) -> (r: Option<T>)
    ensures
        r == applied(*op, x, y),
{
    match op {
        Operation::Sum => x.try_add(y),
        Operation::Difference => x.try_sub(y),
        Operation::Product => x.try_mul(y),
        Operation::Quotient => x.try_div(y),
    }
}

/// Applies `op` to each pair of components. Stops at the first pair whose
/// result has no representation.
fn combine<T: Scalar, const N: usize>(op: Operation, left: &[T; N], right: &[T; N]) -> (r: Result<
    [T; N],
    VectorError,
>)
    ensures
        match r {
            Ok(out) => gather(pointwise(op, left@, right@)) == Ok::<Seq<T>, VectorError>(out@),
            Err(e) => gather(pointwise(op, left@, right@)) == Err::<Seq<T>, VectorError>(e),
        },
{
    let mut out: [T; N] = *left;
    let mut x: usize = 0;
    while x < N
        invariant
            x <= N,
            forall|y: int| 0 <= y < x ==> applied(op, left@[y], right@[y]) == Some(#[trigger] out@[y]),
        decreases N - x,
    {
        match apply(&op, left[x], right[x]) {
            Some(v) => {
                out[x] = v;
            },
            None => {
                assert(pointwise(op, left@, right@)[x as int] is None);
                return Err(VectorError::ConversionError);
            },
        }
        x = x + 1;
    }
    proof {
        let all = pointwise(op, left@, right@);
        assert forall|y: int| 0 <= y < all.len() implies (#[trigger] all[y]) is Some by {
            assert(applied(op, left@[y], right@[y]) == Some(out@[y]));
        }
        assert(out@ =~= Seq::new(all.len(), |y: int| all[y].unwrap()));
    }
    Ok(out)
}

/// Wraps the components that an operation yielded into a vector.
fn pack<T, const N: usize>(r: Result<[T; N], VectorError>) -> (v: Result<Vector<T, N>, VectorError>)
    ensures
        match (r, v) {
            (Ok(components), Ok(vector)) => vector.components == components,
            (Err(e), Err(f)) => e == f,
            _ => false,
        },
        vector_of::<T, N>(outcome(v)) == v,
{
    let v = match r {
        Ok(components) => Ok(Vector { components }),
        Err(e) => Err(e),
    };
    proof {
        lemma_vector_of(v);
    }
    v
}

/// `a + b`: the componentwise sum.
impl<T: Scalar, const N: usize> Add for Vector<T, N> {
    type Output = Result<Vector<T, N>, VectorError>;

    fn add(self, rhs: Self) -> (r: Result<Vector<T, N>, VectorError>)
        ensures
            outcome(r) == gather(sums(self@, rhs@)),
    {
        assert(pointwise(Operation::Sum, self@, rhs@) =~= sums(self@, rhs@));
        pack(combine(Operation::Sum, &self.components, &rhs.components))
    }
}

impl<T: Scalar, const N: usize> vstd::std_specs::ops::AddSpecImpl for Vector<T, N> {
    open spec fn obeys_add_spec() -> bool {
        true
    }

    open spec fn add_req(self, rhs: Self) -> bool {
        true
    }

    open spec fn add_spec(self, rhs: Self) -> Result<Vector<T, N>, VectorError> {
        vector_of(gather(sums(self@, rhs@)))
    }
}

/// `a - b`: the componentwise difference.
impl<T: Scalar, const N: usize> Sub for Vector<T, N> {
    type Output = Result<Vector<T, N>, VectorError>;

    fn sub(self, rhs: Self) -> (r: Result<Vector<T, N>, VectorError>)
        ensures
            outcome(r) == gather(differences(self@, rhs@)),
    {
        assert(pointwise(Operation::Difference, self@, rhs@) =~= differences(self@, rhs@));
        pack(combine(Operation::Difference, &self.components, &rhs.components))
    }
}

impl<T: Scalar, const N: usize> vstd::std_specs::ops::SubSpecImpl for Vector<T, N> {
    open spec fn obeys_sub_spec() -> bool {
        true
    }

    open spec fn sub_req(self, rhs: Self) -> bool {
        true
    }

    open spec fn sub_spec(self, rhs: Self) -> Result<Vector<T, N>, VectorError> {
        vector_of(gather(differences(self@, rhs@)))
    }
}

/// `a * s`: every component multiplied by the scalar.
impl<T: Scalar, const N: usize> Mul<T> for Vector<T, N> {
    type Output = Result<Vector<T, N>, VectorError>;

    fn mul(self, rhs: T) -> (r: Result<Vector<T, N>, VectorError>)
        ensures
            outcome(r) == gather(products(self@, rhs)),
    {
        let factors: [T; N] = [rhs;N];
        assert(pointwise(Operation::Product, self@, factors@) =~= products(self@, rhs));
        pack(combine(Operation::Product, &self.components, &factors))
    }
}

impl<T: Scalar, const N: usize> vstd::std_specs::ops::MulSpecImpl<T> for Vector<T, N> {
    open spec fn obeys_mul_spec() -> bool {
        true
    }

    open spec fn mul_req(self, rhs: T) -> bool {
        true
    }

    open spec fn mul_spec(self, rhs: T) -> Result<Vector<T, N>, VectorError> {
        vector_of(gather(products(self@, rhs)))
    }
}

/// `a / s`: every component divided by the scalar. A zero scalar is a domain
/// error.
impl<T: Scalar, const N: usize> Div<T> for Vector<T, N> {
    type Output = Result<Vector<T, N>, VectorError>;

    fn div(self, rhs: T) -> (r: Result<Vector<T, N>, VectorError>)
        ensures
            outcome(r) == scaled_down(self@, rhs),
    {
        if rhs.is_zero() {
            return Err(VectorError::DomainError);
        }
        let divisors: [T; N] = [rhs;N];
        assert(pointwise(Operation::Quotient, self@, divisors@) =~= quotients(self@, rhs));
        pack(combine(Operation::Quotient, &self.components, &divisors))
    }
}

impl<T: Scalar, const N: usize> vstd::std_specs::ops::DivSpecImpl<T> for Vector<T, N> {
    open spec fn obeys_div_spec() -> bool {
        true
    }

    open spec fn div_req(self, rhs: T) -> bool {
        true
    }

    open spec fn div_spec(self, rhs: T) -> Result<Vector<T, N>, VectorError> {
        vector_of(scaled_down(self@, rhs))
    }
}

impl<T: Scalar, const N: usize> Vector<T, N> {
    /// `a += b`: replaces the vector by its sum with `rhs`; on failure leaves
    /// it as it was.
    pub fn add_assign(&mut self, rhs: Self) -> (r: Result<(), VectorError>)
        ensures
            assigned(gather(sums(old(self)@, rhs@)), old(self)@, final(self)@, r),
    {
        let sum = (*self + rhs)?;
        *self = sum;
        Ok(())
    }

    /// `a -= b`: replaces the vector by its difference with `rhs`; on failure
    /// leaves it as it was.
    pub fn sub_assign(&mut self, rhs: Self) -> (r: Result<(), VectorError>)
        ensures
            assigned(gather(differences(old(self)@, rhs@)), old(self)@, final(self)@, r),
    {
        let difference = (*self - rhs)?;
        *self = difference;
        Ok(())
    }

    /// `a *= s`: multiplies every component by `rhs`; on failure leaves the
    /// vector as it was.
    pub fn mul_assign(&mut self, rhs: T) -> (r: Result<(), VectorError>)
        ensures
            assigned(gather(products(old(self)@, rhs)), old(self)@, final(self)@, r),
    {
        let product = (*self * rhs)?;
        *self = product;
        Ok(())
    }

    /// `a /= s`: divides every component by `rhs`; on failure leaves the
    /// vector as it was.
    pub fn div_assign(&mut self, rhs: T) -> (r: Result<(), VectorError>)
        ensures
            assigned(scaled_down(old(self)@, rhs), old(self)@, final(self)@, r),
    {
        let quotient = (*self / rhs)?;
        *self = quotient;
        Ok(())
    }
}

} // verus!
