//! A vector of `N` components, held in an array.

use crate::angle::{angle, angle_spec};
use crate::cursor::Cursor;
use crate::error::VectorError;
use crate::scalar::{square_root_of, sum_of, Scalar};
use crate::vector::iterator::{IntoIter, Iter, IterMut};
use crate::vector::ops::scaled_down;
use vstd::prelude::*;

pub mod iterator;
pub mod laws;
pub mod ops;

verus! {

/// A vector of `N` components. Its dimension is the length of the array.
#[derive(Clone, Copy, PartialOrd, PartialEq, Debug)]
pub struct Vector<T, const N: usize> {
    /// The components, in order.
    pub components: [T; N],
}

impl<T, const N: usize> View for Vector<T, N> {
    type V = Seq<T>;

    open spec fn view(&self) -> Seq<T> {
        self.components@
    }
}

/// The dot product of the first `n` components: the products summed from the
/// left, starting from zero.
pub open spec fn dot_upto<T: Scalar>(a: Seq<T>, b: Seq<T>, n: nat) -> Option<T>
    decreases n,
{
    if n == 0 {
        Some(T::zero_spec())
    } else {
        sum_of(dot_upto(a, b, (n - 1) as nat), a[n - 1].product(b[n - 1]))
    }
}

/// The sequence of the values in `s`, or the report that one of them has no
/// representation.
pub open spec fn gather<T>(s: Seq<Option<T>>) -> Result<Seq<T>, VectorError> {
    if forall|x: int| 0 <= x < s.len() ==> (#[trigger] s[x]) is Some {
        Ok(Seq::new(s.len(), |x: int| s[x].unwrap()))
    } else {
        Err(VectorError::ConversionError)
    }
}

/// The components of a vector that an operation returned, or its failure.
pub open spec fn outcome<T, const N: usize>(r: Result<Vector<T, N>, VectorError>) -> Result<
    Seq<T>,
    VectorError,
> {
    match r {
        Ok(v) => Ok(v@),
        Err(e) => Err(e),
    }
}

/// Once a prefix of the dot product has no representation, no longer prefix has one.
proof fn lemma_dot_upto_stays_none<T: Scalar>(a: Seq<T>, b: Seq<T>, n: nat, m: nat)
    requires
        n <= m,
        dot_upto(a, b, n) is None,
    ensures
        dot_upto(a, b, m) is None,
    decreases m,
{
    if n < m {
        lemma_dot_upto_stays_none(a, b, n, (m - 1) as nat);
    }
}

impl<T, const N: usize> Vector<T, N> {
    /// Builds the vector with the given components.
    pub fn new(slice: [T; N]) -> (v: Self)
        ensures
            v.components == slice,
    {
        Vector { components: slice }
    }

    /// Iterates over shared references to the components.
    pub fn iter(&self) -> (it: Iter<'_, T, N>)
        ensures
            it.source() == *self,
            it.cursor() == Cursor::start(N as nat),
            !it.finished(),
    {
        Iter::new(self)
    }

    /// Iterates over exclusive references to the components. What the vector
    /// holds when the iterator is given up is what the iterator's target
    /// holds then.
    pub fn iter_mut(&mut self) -> (it: IterMut<'_, T, N>)
        ensures
            it.wf(),
            *it.inner == *old(self),
            *final(it.inner) == *final(self),
            it.cursor() == Cursor::start(N as nat),
            !it.finished(),
    {
        IterMut::new(self)
    }
}

impl<T: Copy, const N: usize> Vector<T, N> {
    /// Iterates over copies of the components, taking the vector over.
    pub fn into_iter(self) -> (it: IntoIter<T, N>)
        ensures
            it.source() == self,
            it.cursor() == Cursor::start(N as nat),
            !it.finished(),
    {
        IntoIter::new(self)
    }
}

impl<T: Scalar, const N: usize> Vector<T, N> {
    /// The components of the zero vector.
    pub open spec fn zero_spec() -> Seq<T> {
        Seq::new(N as nat, |x: int| T::zero_spec())
    }

    /// The vector whose components are all zero.
    pub fn zero() -> (v: Self)
        ensures
            v@ == Self::zero_spec(),
    {
        let v = Vector { components: [T::zero();N] };
        assert(v@ =~= Self::zero_spec());
        v
    }

    /// The dot product over all `N` components.
    pub open spec fn dot_spec(self, rhs: Self) -> Option<T> {
        dot_upto(self@, rhs@, N as nat)
    }

    /// The square root of the dot product of the vector with itself.
    pub open spec fn magnitude_spec(self) -> Option<T> {
        square_root_of(self.dot_spec(self))
    }

    /// Whether the magnitude can be computed and is zero.
    pub open spec fn has_zero_magnitude(self) -> bool {
        match self.magnitude_spec() {
            Some(m) => m.is_zero_spec(),
            None => false,
        }
    }

    /// The components of the vector divided by its magnitude. A domain error
    /// where the magnitude is zero; a conversion error where the magnitude
    /// or a quotient has no representation in the element type.
    pub open spec fn unit_vector_spec(self) -> Result<Seq<T>, VectorError> {
        match self.magnitude_spec() {
            None => Err(VectorError::ConversionError),
            Some(m) => scaled_down(self@, m),
        }
    }

    /// The angle between the two vectors: that of their magnitudes and their
    /// dot product.
    pub open spec fn angle_rad_spec(self, rhs: Self) -> Result<T, VectorError> {
        angle_spec(
            self.magnitude_spec().ok_or(VectorError::ConversionError),
            rhs.magnitude_spec().ok_or(VectorError::ConversionError),
            self.dot_spec(rhs).ok_or(VectorError::ConversionError),
        )
    }

    /// The dot product: the sum of the componentwise products, or a
    /// conversion error where the element type cannot hold a product or a sum.
    pub fn dot(&self, rhs: &Self) -> (r: Result<T, VectorError>)
        ensures
            r == self.dot_spec(*rhs).ok_or(VectorError::ConversionError),
    {
        let mut result: T = T::zero();
        let mut x: usize = 0;
        while x < N
            invariant
                x <= N,
                dot_upto(self@, rhs@, x as nat) == Some(result),
            decreases N - x,
        {
            let product = self.components[x].try_mul(rhs.components[x]);
            let sum = match product {
                Some(p) => result.try_add(p),
                None => None,
            };
            match sum {
                Some(s) => {
                    result = s;
                },
                None => {
                    proof {
                        lemma_dot_upto_stays_none(self@, rhs@, (x + 1) as nat, N as nat);
                    }
                    return Err(VectorError::ConversionError);
                },
            }
            x = x + 1;
        }
        Ok(result)
    }

    /// The Euclidean norm, or a conversion error where the element type
    /// cannot hold the sum of squares or its root.
    pub fn magnitude(&self) -> (r: Result<T, VectorError>)
        ensures
            r == self.magnitude_spec().ok_or(VectorError::ConversionError),
    {
        let d = self.dot(self)?;
        d.try_sqrt().ok_or(VectorError::ConversionError)
    }

    /// The vector of magnitude one in the same direction. A zero magnitude
    /// is a domain error.
    pub fn unit_vector(&self) -> (r: Result<Self, VectorError>)
        ensures
            outcome(r) == self.unit_vector_spec(),
    {
        let m = self.magnitude()?;
        *self / m
    }

    /// The angle between two vectors, in radians. A zero magnitude on
    /// either side is a domain error.
    pub fn angle_rad(&self, rhs: &Self) -> (r: Result<T, VectorError>)
        ensures
            r == self.angle_rad_spec(*rhs),
    {
        angle(self.magnitude(), rhs.magnitude(), self.dot(rhs))
    }
}

} // verus!
