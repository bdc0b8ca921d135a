//! Fixed-dimension numeric vectors with verified arithmetic, geometry and
//! double-ended iteration.
//!
//! Vectors are generic over their element type. Arithmetic on elements goes
//! through [`scalar::Scalar`], whose operations either yield a value of the
//! element type or report that no such value exists; the vector operations
//! turn the latter into [`error::VectorError`] instead of aborting.
//!
//! - [`vector_3d`]: the vector of three named components, its geometry
//!   (dot and cross product, magnitude, angle, projection, normalisation),
//!   its operators, its three iterators and its laws.
//! - [`vector`]: the vector of `N` components in an array, with the same
//!   operators, geometry, iterators and laws.
//! - [`scalar`]: what an element type supplies, and the laws of exact
//!   arithmetic from which the laws of vectors follow.
//! - [`integer`]: `i64` as an exact element type.
//! - [`angle`]: the angle between two vectors of either kind.
//! - [`cursor`]: the state of a double-ended traversal and its model.
//! - [`notation`]: vectors written out as text.
//! - [`error`]: the failures that operations report.

pub mod angle;
pub mod cursor;
pub mod error;
pub mod integer;
pub mod notation;
pub mod scalar;
pub mod vector;
pub mod vector_3d;
