//! The angle between two vectors, from their magnitudes and their dot product.

use crate::error::VectorError;
use crate::scalar::Scalar;
use vstd::prelude::*;

verus! {

/// Whether a magnitude was computed and is zero.
pub open spec fn is_zero_magnitude<T: Scalar>(magnitude: Result<T, VectorError>) -> bool {
    match magnitude {
        Ok(m) => m.is_zero_spec(),
        Err(_) => false,
    }
}

/// The inverse cosine of the dot product over the product of the magnitudes.
///
/// A domain error where either magnitude is zero, whatever became of the
/// other, or where their product is zero. Otherwise the failure of a
/// magnitude or of the dot product is the failure of the angle, and a
/// product, quotient or inverse cosine without representation in the element
/// type is a conversion error.
pub open spec fn angle_spec<T: Scalar>(
    first: Result<T, VectorError>,
    second: Result<T, VectorError>,
    dot: Result<T, VectorError>,
) -> Result<T, VectorError> {
    if is_zero_magnitude(first) || is_zero_magnitude(second) {
        Err(VectorError::DomainError)
    } else {
        match (first, second, dot) {
            (Err(e), _, _) => Err(e),
            (_, Err(e), _) => Err(e),
            (_, _, Err(e)) => Err(e),
            (Ok(m), Ok(n), Ok(d)) => match m.product(n) {
                None => Err(VectorError::ConversionError),
                Some(mn) => if mn.is_zero_spec() {
                    Err(VectorError::DomainError)
                } else {
                    match d.quotient(mn) {
                        None => Err(VectorError::ConversionError),
                        Some(c) => c.arc_cosine().ok_or(VectorError::ConversionError),
                    }
                },
            },
        }
    }
}

/// The angle in radians between two vectors with the given magnitudes and
/// dot product.
pub fn angle<T: Scalar>(
    first: Result<T, VectorError>,
    second: Result<T, VectorError>,
    dot: Result<T, VectorError>,
) -> (r: Result<T, VectorError>)
    ensures
        r == angle_spec(first, second, dot),
{
    if let Ok(m) = first {
        if m.is_zero() {
            return Err(VectorError::DomainError);
        }
    }
    if let Ok(n) = second {
        if n.is_zero() {
            return Err(VectorError::DomainError);
        }
    }
    let m = first?;
    let n = second?;
    let d = dot?;
    let mn = m.try_mul(n).ok_or(VectorError::ConversionError)?;
    if mn.is_zero() {
        return Err(VectorError::DomainError);
    }
    let c = d.try_div(mn).ok_or(VectorError::ConversionError)?;
    c.try_acos().ok_or(VectorError::ConversionError)
}

} // verus!
