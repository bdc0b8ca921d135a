//! A vector of three components along the axes i, j and k.

use crate::angle::{angle, angle_spec};
use crate::cursor::Cursor;
use crate::error::VectorError;
use crate::scalar::{difference_of, negation_of, square_root_of, sum_of, Scalar};
use crate::vector_3d::iterator::{IntoIter, Iter, IterMut};
use vstd::prelude::*;

pub mod iterator;
pub mod laws;
pub mod ops;

verus! {

/// A vector in three dimensions, given by its magnitudes along the i, j and k
/// axes.
#[derive(Debug, Clone, Copy, PartialEq, Eq)]
pub struct Vector3d<T> {
    /// Magnitude along the i axis.
    pub i: T,
    /// Magnitude along the j axis.
    pub j: T,
    /// Magnitude along the k axis.
    pub k: T,
}

/// A vector is viewed as the sequence of its components in axis order.
impl<T> View for Vector3d<T> {
    type V = Seq<T>;

    open spec fn view(&self) -> Seq<T> {
        seq![self.i, self.j, self.k]
    }
}

/// The vector whose three components exist, or the report that one of them
/// has no representation.
pub open spec fn assemble<T>(i: Option<T>, j: Option<T>, k: Option<T>) -> Result<
    Vector3d<T>,
    VectorError,
> {
    match (i, j, k) {
        (Some(x), Some(y), Some(z)) => Ok(Vector3d { i: x, j: y, k: z }),
        _ => Err(VectorError::ConversionError),
    }
}

/// The zero vector.
pub fn zero<T: Scalar>() -> (v: Vector3d<T>)
    ensures
        v == Vector3d::<T>::zero_spec(),
{
    Vector3d { i: T::zero(), j: T::zero(), k: T::zero() }
}

/// The unit vector along the i axis.
pub fn i_hat<T: Scalar>() -> (v: Vector3d<T>)
    ensures
        v == (Vector3d { i: T::one_spec(), j: T::zero_spec(), k: T::zero_spec() }),
{
    Vector3d { i: T::one(), j: T::zero(), k: T::zero() }
}

/// The unit vector along the j axis.
pub fn j_hat<T: Scalar>() -> (v: Vector3d<T>)
    ensures
        v == (Vector3d { i: T::zero_spec(), j: T::one_spec(), k: T::zero_spec() }),
{
    Vector3d { i: T::zero(), j: T::one(), k: T::zero() }
}

/// The unit vector along the k axis.
pub fn k_hat<T: Scalar>() -> (v: Vector3d<T>)
    ensures
        v == (Vector3d { i: T::zero_spec(), j: T::zero_spec(), k: T::one_spec() }),
{
    Vector3d { i: T::zero(), j: T::zero(), k: T::one() }
}

impl<T> Vector3d<T> {
    /// Builds the vector with the given components.
    pub fn new(i: T, j: T, k: T) -> (v: Self)
        ensures
            v == (Vector3d { i, j, k }),
    {
        Vector3d { i, j, k }
    }

    /// The vector with the component in `slot` replaced by `value`. Slots are
    /// numbered 0, 1, 2 for i, j, k; any other slot leaves the vector as it is.
    pub open spec fn with_component(self, slot: nat, value: T) -> Self {
        if slot == 0 {
            Vector3d { i: value, ..self }
        } else if slot == 1 {
            Vector3d { j: value, ..self }
        } else if slot == 2 {
            Vector3d { k: value, ..self }
        } else {
            self
        }
    }

    /// A shared reference to the component at `index`: 0, 1, 2 for i, j, k.
    pub fn index(&self, index: u8) -> (r: Result<&T, VectorError>)
        ensures
            index < 3 ==> r == Ok::<&T, VectorError>(&self@[index as int]),
            index >= 3 ==> r == Err::<&T, VectorError>(VectorError::IndexOutOfRange),
    {
        match index {
            0 => Ok(&self.i),
            1 => Ok(&self.j),
            2 => Ok(&self.k),
            _ => Err(VectorError::IndexOutOfRange),
        }
    }

    /// An exclusive reference to the component at `index`: 0, 1, 2 for i, j,
    /// k. What the caller leaves in it is what the vector holds in that slot
    /// afterwards; the other slots keep their values.
    pub fn index_mut(&mut self, index: u8) -> (r: Result<&mut T, VectorError>)
        ensures
            index < 3 ==> r is Ok && *r.unwrap() == old(self)@[index as int]
                && *final(self) == old(self).with_component(index as nat, *final(r.unwrap())),
            index >= 3 ==> r == Err::<&mut T, VectorError>(VectorError::IndexOutOfRange)
                && *final(self) == *old(self),
    {
        match index {
            0 => Ok(&mut self.i),
            1 => Ok(&mut self.j),
            2 => Ok(&mut self.k),
            _ => Err(VectorError::IndexOutOfRange),
        }
    }

    /// Iterates over shared references to the components.
    pub fn iter(&self) -> (it: Iter<'_, T>)
        ensures
            it.source() == *self,
            it.cursor() == Cursor::start(3),
            !it.finished(),
    {
        Iter::new(self)
    }

    /// Iterates over exclusive references to the components. What the vector
    /// holds when the iterator is given up is what the iterator's target
    /// holds then.
    pub fn iter_mut(&mut self) -> (it: IterMut<'_, T>)
        ensures
            it.wf(),
            *it.inner == *old(self),
            *final(it.inner) == *final(self),
            it.cursor() == Cursor::start(3),
            !it.finished(),
    {
        IterMut::new(self)
    }
}

impl<T: Copy> Vector3d<T> {
    /// Iterates over copies of the components, taking the vector over.
    pub fn into_iter(self) -> (it: IntoIter<T>)
        ensures
            it.source() == self,
            it.cursor() == Cursor::start(3),
            !it.finished(),
    {
        IntoIter::new(self)
    }
}

impl<T: Scalar> Vector3d<T> {
    /// The vector whose components are all zero.
    pub open spec fn zero_spec() -> Self {
        Vector3d { i: T::zero_spec(), j: T::zero_spec(), k: T::zero_spec() }
    }

    /// `i*i' + j*j' + k*k'`, summed from the left.
    pub open spec fn dot_spec(self, other: Self) -> Option<T> {
        sum_of(
            sum_of(self.i.product(other.i), self.j.product(other.j)),
            self.k.product(other.k),
        )
    }

    /// The square root of the dot product of the vector with itself.
    pub open spec fn magnitude_spec(self) -> Option<T> {
        square_root_of(self.dot_spec(self))
    }

    /// The determinant formula of the cross product.
    pub open spec fn cross_spec(self, other: Self) -> Result<Self, VectorError> {
        assemble(
            difference_of(self.j.product(other.k), other.j.product(self.k)),
            negation_of(difference_of(self.i.product(other.k), other.i.product(self.k))),
            difference_of(self.i.product(other.j), other.i.product(self.j)),
        )
    }

    /// Whether the magnitude can be computed and is zero.
    pub open spec fn has_zero_magnitude(self) -> bool {
        match self.magnitude_spec() {
            Some(m) => m.is_zero_spec(),
            None => false,
        }
    }

    /// The vector divided by its magnitude. A domain error where the
    /// magnitude is zero; a conversion error where the magnitude or a
    /// quotient has no representation in the element type.
    pub open spec fn unit_vector_spec(self) -> Result<Self, VectorError> {
        match self.magnitude_spec() {
            None => Err(VectorError::ConversionError),
            Some(m) => self.divided_by(m),
        }
    }

    /// The angle between the two vectors: that of their magnitudes and their
    /// dot product.
    pub open spec fn angle_rad_spec(self, other: Self) -> Result<T, VectorError> {
        angle_spec(
            self.magnitude_spec().ok_or(VectorError::ConversionError),
            other.magnitude_spec().ok_or(VectorError::ConversionError),
            self.dot_spec(other).ok_or(VectorError::ConversionError),
        )
    }

    /// `v` scaled by `(u . v) / (v . v)`. A domain error where `v . v` is
    /// zero; a conversion error where a dot product, the quotient or a
    /// component of the result has no representation in the element type.
    pub open spec fn project_spec(u: Self, v: Self) -> Result<Self, VectorError> {
        match v.dot_spec(v) {
            None => Err(VectorError::ConversionError),
            Some(vv) => if vv.is_zero_spec() {
                Err(VectorError::DomainError)
            } else {
                match u.dot_spec(v) {
                    None => Err(VectorError::ConversionError),
                    Some(uv) => match uv.quotient(vv) {
                        None => Err(VectorError::ConversionError),
                        Some(s) => v.scaled_by(s),
                    },
                }
            },
        }
    }

    /// The dot product: the sum of the componentwise products, or a
    /// conversion error where the element type cannot hold a product or a sum.
    pub fn dot(&self, other: &Self) -> (r: Result<T, VectorError>)
        ensures
            r == self.dot_spec(*other).ok_or(VectorError::ConversionError),
    {
        let a = self.i.try_mul(other.i).ok_or(VectorError::ConversionError)?;
        let b = self.j.try_mul(other.j).ok_or(VectorError::ConversionError)?;
        let ab = a.try_add(b).ok_or(VectorError::ConversionError)?;
        let c = self.k.try_mul(other.k).ok_or(VectorError::ConversionError)?;
        ab.try_add(c).ok_or(VectorError::ConversionError)
    }

    /// The Euclidean norm, or a conversion error where the element type
    /// cannot hold the sum of squares or its root.
    pub fn magnitude(&self) -> (r: Result<T, VectorError>)
        ensures
            r == self.magnitude_spec().ok_or(VectorError::ConversionError),
    {
        let d = self.dot(self)?;
        d.try_sqrt().ok_or(VectorError::ConversionError)
    }

    /// The cross product, by the right-hand rule, or a conversion error
    /// where the element type cannot hold a product or a difference.
    pub fn cross(&self, other: &Self) -> (r: Result<Self, VectorError>)
        ensures
            r == self.cross_spec(*other),
    {
        let jk = self.j.try_mul(other.k).ok_or(VectorError::ConversionError)?;
        let kj = other.j.try_mul(self.k).ok_or(VectorError::ConversionError)?;
        let i_cross = jk.try_sub(kj).ok_or(VectorError::ConversionError)?;
        let ik = self.i.try_mul(other.k).ok_or(VectorError::ConversionError)?;
        let ki = other.i.try_mul(self.k).ok_or(VectorError::ConversionError)?;
        let j_cross = ik.try_sub(ki).ok_or(VectorError::ConversionError)?;
        let j_cross = j_cross.try_neg().ok_or(VectorError::ConversionError)?;
        let ij = self.i.try_mul(other.j).ok_or(VectorError::ConversionError)?;
        let ji = other.i.try_mul(self.j).ok_or(VectorError::ConversionError)?;
        let k_cross = ij.try_sub(ji).ok_or(VectorError::ConversionError)?;
        Ok(Vector3d { i: i_cross, j: j_cross, k: k_cross })
    }

    /// The angle between two vectors, in radians. A zero magnitude on
    /// either side is a domain error.
    pub fn angle_rad(&self, other: &Self) -> (r: Result<T, VectorError>)
        ensures
            r == self.angle_rad_spec(*other),
    {
        angle(self.magnitude(), other.magnitude(), self.dot(other))
    }

    /// The vector of magnitude one in the same direction. A zero magnitude
    /// is a domain error.
    pub fn unit_vector(&self) -> (r: Result<Self, VectorError>)
        ensures
            r == self.unit_vector_spec(),
    {
        let m = self.magnitude()?;
        *self / m
    }

    /// The component of `u` along `v`. Projecting onto a vector whose dot
    /// product with itself is zero is a domain error.
    pub fn project(u: &Self, v: &Self) -> (r: Result<Self, VectorError>)
        ensures
            r == Self::project_spec(*u, *v),
    {
        let vv = v.dot(v)?;
        if vv.is_zero() {
            return Err(VectorError::DomainError);
        }
        let uv = u.dot(v)?;
        let s = uv.try_div(vv).ok_or(VectorError::ConversionError)?;
        *v * s
    }
}

} // verus!
