//! The arithmetic operators of [`Vector3d`]: `+` and `-` between two vectors,
//! `*` and `/` between a vector and a scalar, and each of them in place.
//!
//! An operator yields a `Result`: the element type may be unable to hold a
//! component of the result, and a zero divisor is a domain error.

use crate::error::VectorError;
use crate::scalar::Scalar;
use crate::vector_3d::{assemble, Vector3d};
use core::ops::{Add, Div, Mul, Sub};
use vstd::prelude::*;

verus! {

/// What an in-place operation leaves behind: on success the new vector and
/// `Ok`, on failure the old vector and the error.
pub open spec fn assigned<T>(
    wanted: Result<Vector3d<T>, VectorError>,
    before: Vector3d<T>,
    after: Vector3d<T>,
    r: Result<(), VectorError>,
) -> bool {
    match wanted {
        Ok(v) => r is Ok && after == v,
        Err(e) => r == Err::<(), VectorError>(e) && after == before,
    }
}

impl<T: Scalar> Vector3d<T> {
    /// The componentwise sum.
    pub open spec fn sum_with(self, rhs: Self) -> Result<Self, VectorError> {
        assemble(self.i.sum(rhs.i), self.j.sum(rhs.j), self.k.sum(rhs.k))
    }

    /// The componentwise difference.
    pub open spec fn difference_with(self, rhs: Self) -> Result<Self, VectorError> {
        assemble(self.i.difference(rhs.i), self.j.difference(rhs.j), self.k.difference(rhs.k))
    }

    /// Every component multiplied by `scalar`.
    pub open spec fn scaled_by(self, scalar: T) -> Result<Self, VectorError> {
        assemble(self.i.product(scalar), self.j.product(scalar), self.k.product(scalar))
    }

    /// Every component divided by `scalar`, or the domain error for a zero
    /// `scalar`.
    pub open spec fn divided_by(self, scalar: T) -> Result<Self, VectorError> {
        if scalar.is_zero_spec() {
            Err(VectorError::DomainError)
        } else {
            assemble(self.i.quotient(scalar), self.j.quotient(scalar), self.k.quotient(scalar))
        }
    }
}

/// `a + b`: the componentwise sum.
impl<T: Scalar> Add for Vector3d<T> {
    type Output = Result<Vector3d<T>, VectorError>;

    fn add(self, rhs: Self) -> (r: Result<Vector3d<T>, VectorError>)
        ensures
            r == self.sum_with(rhs),
    {
        let i = self.i.try_add(rhs.i).ok_or(VectorError::ConversionError)?;
        let j = self.j.try_add(rhs.j).ok_or(VectorError::ConversionError)?;
        let k = self.k.try_add(rhs.k).ok_or(VectorError::ConversionError)?;
        Ok(Vector3d { i, j, k })
    }
}

impl<T: Scalar> vstd::std_specs::ops::AddSpecImpl for Vector3d<T> {
    open spec fn obeys_add_spec() -> bool {
        true
    }

    open spec fn add_req(self, rhs: Self) -> bool {
        true
    }

    open spec fn add_spec(self, rhs: Self) -> Result<Vector3d<T>, VectorError> {
        self.sum_with(rhs)
    }
}

/// `a - b`: the componentwise difference.
impl<T: Scalar> Sub for Vector3d<T> {
    type Output = Result<Vector3d<T>, VectorError>;

    fn sub(self, rhs: Self) -> (r: Result<Vector3d<T>, VectorError>)
        ensures
            r == self.difference_with(rhs),
    {
        let i = self.i.try_sub(rhs.i).ok_or(VectorError::ConversionError)?;
        let j = self.j.try_sub(rhs.j).ok_or(VectorError::ConversionError)?;
        let k = self.k.try_sub(rhs.k).ok_or(VectorError::ConversionError)?;
        Ok(Vector3d { i, j, k })
    }
}

impl<T: Scalar> vstd::std_specs::ops::SubSpecImpl for Vector3d<T> {
    open spec fn obeys_sub_spec() -> bool {
        true
    }

    open spec fn sub_req(self, rhs: Self) -> bool {
        true
    }

    open spec fn sub_spec(self, rhs: Self) -> Result<Vector3d<T>, VectorError> {
        self.difference_with(rhs)
    }
}

/// `a * s`: every component multiplied by the scalar.
impl<T: Scalar> Mul<T> for Vector3d<T> {
    type Output = Result<Vector3d<T>, VectorError>;

    fn mul(self, scalar: T) -> (r: Result<Vector3d<T>, VectorError>)
        ensures
            r == self.scaled_by(scalar),
    {
        let i = self.i.try_mul(scalar).ok_or(VectorError::ConversionError)?;
        let j = self.j.try_mul(scalar).ok_or(VectorError::ConversionError)?;
        let k = self.k.try_mul(scalar).ok_or(VectorError::ConversionError)?;
        Ok(Vector3d { i, j, k })
    }
}

impl<T: Scalar> vstd::std_specs::ops::MulSpecImpl<T> for Vector3d<T> {
    open spec fn obeys_mul_spec() -> bool {
        true
    }

    open spec fn mul_req(self, scalar: T) -> bool {
        true
    }

    open spec fn mul_spec(self, scalar: T) -> Result<Vector3d<T>, VectorError> {
        self.scaled_by(scalar)
    }
}

/// `a / s`: every component divided by the scalar. A zero scalar is a domain
/// error.
impl<T: Scalar> Div<T> for Vector3d<T> {
    type Output = Result<Vector3d<T>, VectorError>;

    fn div(self, scalar: T) -> (r: Result<Vector3d<T>, VectorError>)
        ensures
            r == self.divided_by(scalar),
    {
        if scalar.is_zero() {
            return Err(VectorError::DomainError);
        }
        let i = self.i.try_div(scalar).ok_or(VectorError::ConversionError)?;
        let j = self.j.try_div(scalar).ok_or(VectorError::ConversionError)?;
        let k = self.k.try_div(scalar).ok_or(VectorError::ConversionError)?;
        Ok(Vector3d { i, j, k })
    }
}

impl<T: Scalar> vstd::std_specs::ops::DivSpecImpl<T> for Vector3d<T> {
    open spec fn obeys_div_spec() -> bool {
        true
    }

    open spec fn div_req(self, scalar: T) -> bool {
        true
    }

    open spec fn div_spec(self, scalar: T) -> Result<Vector3d<T>, VectorError> {
        self.divided_by(scalar)
    }
}

impl<T: Scalar> Vector3d<T> {
    /// `a += b`: replaces the vector by its sum with `rhs`; on failure leaves
    /// it as it was.
    pub fn add_assign(&mut self, rhs: Self) -> (r: Result<(), VectorError>)
        ensures
            assigned(old(self).sum_with(rhs), *old(self), *final(self), r),
    {
        let sum = (*self + rhs)?;
        *self = sum;
        Ok(())
    }

    /// `a -= b`: replaces the vector by its difference with `rhs`; on failure
    /// leaves it as it was.
    pub fn sub_assign(&mut self, rhs: Self) -> (r: Result<(), VectorError>)
        ensures
            assigned(old(self).difference_with(rhs), *old(self), *final(self), r),
    {
        let difference = (*self - rhs)?;
        *self = difference;
        Ok(())
    }

    /// `a *= s`: multiplies every component by `scalar`; on failure leaves the
    /// vector as it was.
    pub fn mul_assign(&mut self, scalar: T) -> (r: Result<(), VectorError>)
        ensures
            assigned(old(self).scaled_by(scalar), *old(self), *final(self), r),
    {
        let product = (*self * scalar)?;
        *self = product;
        Ok(())
    }

    /// `a /= s`: divides every component by `scalar`; on failure leaves the
    /// vector as it was.
    pub fn div_assign(&mut self, scalar: T) -> (r: Result<(), VectorError>)
        ensures
            assigned(old(self).divided_by(scalar), *old(self), *final(self), r),
    {
        let quotient = (*self / scalar)?;
        *self = quotient;
        Ok(())
    }
}

} // verus!
