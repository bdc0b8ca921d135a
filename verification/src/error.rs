//! The failures that vector operations report to their caller.

use vstd::prelude::*;

verus! {

/// Why a vector operation produced no value.
#[derive(Clone, Copy, Debug, PartialEq, Eq, Structural)]
pub enum VectorError {
    /// The operation is undefined for the given operands: normalising or
    /// measuring an angle against a vector of zero magnitude, projecting onto
    /// the zero vector, dividing by a zero scalar.
    DomainError,
    /// A component was requested at a position the vector does not have.
    IndexOutOfRange,
    /// A computed value cannot be represented in the element type.
    ConversionError,
}

impl VectorError {
    /// A short description of the failure, for messages.
    pub fn describe(&self) -> (text: &'static str)
        ensures
            text@ == Self::description(*self),
    {
        match self {
            VectorError::DomainError => "operation undefined for the given operands",
            VectorError::IndexOutOfRange => "index out of range",
            VectorError::ConversionError => "value not representable in the element type",
        }
    }

    /// The text that [`VectorError::describe`] returns.
    pub open spec fn description(e: VectorError) -> Seq<char> {
        match e {
            VectorError::DomainError => "operation undefined for the given operands"@,
            VectorError::IndexOutOfRange => "index out of range"@,
            VectorError::ConversionError => "value not representable in the element type"@,
        }
    }
}

} // verus!
