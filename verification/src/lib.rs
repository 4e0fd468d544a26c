//! A small library of Euclidean vector types: fixed-dimension vectors with
//! two, three and four components, and a variable-length vector, all with
//! dot product, magnitude, normalization and elementwise arithmetic.
//!
//! Components are IEEE-754 binary64 values, carried everywhere as their
//! 64-bit patterns (`u64`), which is what the contracts speak about. The
//! arithmetic itself is done by a software implementation of IEEE-754
//! behind a handful of trusted wrappers in [`scalar`]; everything built on
//! top of it — the vector formulas, the comparisons, the conversions and
//! the bounds discipline of the variable-length vector — is verified.

use vstd::prelude::*;

mod dynamic_vector;
pub mod scalar;
mod vector2;
mod vector3;
mod vector4;

pub use dynamic_vector::DynamicVector;
pub use dynamic_vector::all_zero_seq;
pub use dynamic_vector::cmp_seq;
pub use dynamic_vector::cmp_seq_from;
pub use dynamic_vector::dot_fold;
pub use dynamic_vector::dot_spec;
pub use dynamic_vector::min_len;
pub use dynamic_vector::no_nan_seq;
pub use vector2::Vector2;
pub use vector2::lemma_vector2_array_identity;
pub use vector2::lemma_vector2_array_round_trip;
pub use vector2::lemma_vector2_tuple_round_trip;
pub use vector3::Vector3;
pub use vector3::lemma_vector3_array_identity;
pub use vector3::lemma_vector3_array_round_trip;
pub use vector3::lemma_vector3_tuple_round_trip;
pub use vector4::Vector4;
pub use vector4::lemma_vector4_array_identity;
pub use vector4::lemma_vector4_array_round_trip;
pub use vector4::lemma_vector4_tuple_round_trip;

verus! {

/// The operations shared by every vector type of this library.
///
/// Each implementation states the exact formula of each operation in its
/// own `ensures` clauses; the trait itself only fixes the shared shape.
pub trait Vector: Sized {
    /// The dot product of `self` and `other`.
    fn dot(&self, other: &Self) -> u64;

    /// The Euclidean length of `self`: the square root of `self` dot `self`.
    fn magnitude(&self) -> u64;

    /// `self` scaled by the reciprocal of its magnitude. When the magnitude
    /// is zero this divides zero by zero, so every component of the result
    /// is a NaN; the operation itself never fails.
    fn normalize(&self) -> Self;
}

} // verus!
