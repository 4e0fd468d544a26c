//! A two-dimensional vector.

use vstd::prelude::*;

use core::cmp::Ordering;

use crate::scalar::{
    add_bits, cmp_bits, div_bits, eq_bits, is_finite_bits, is_nan_bits, is_zero_bits, mul_bits,
    neg_bits, scalar_add, scalar_cmp, scalar_div, scalar_eq, scalar_mul, scalar_sqrt, scalar_sub,
    sign_bit, sqrt_bits, sub_bits,
};
use crate::Vector;

verus! {

/// A vector with two components, `x` and `y`, each the bit pattern of an
/// IEEE-754 binary64 value.
#[derive(Debug, Clone, Copy)]
pub struct Vector2 {
    pub x: u64,
    pub y: u64,
}

impl Vector2 {
    /// Whether no component is a NaN.
    pub open spec fn no_nan(self) -> bool {
        !is_nan_bits(self.x) && !is_nan_bits(self.y)
    }

    /// Whether every component is a zero, of either sign.
    pub open spec fn all_zero(self) -> bool {
        is_zero_bits(self.x) && is_zero_bits(self.y)
    }

    /// The dot product of the two vectors: `x*x' + y*y'`.
    pub open spec fn dot_spec(self, other: Vector2) -> u64 {
        add_bits(mul_bits(self.x, other.x), mul_bits(self.y, other.y))
    }

    /// The magnitude of the vector: the square root of its dot product
    /// with itself.
    pub open spec fn magnitude_spec(self) -> u64 {
        sqrt_bits(self.dot_spec(self))
    }

    /// The vector with each component divided by the magnitude.
    pub open spec fn normalize_spec(self) -> Vector2 {
        Vector2 {
            x: div_bits(self.x, self.magnitude_spec()),
            y: div_bits(self.y, self.magnitude_spec()),
        }
    }

    /// The 2D cross product, a scalar: `x*y' - y*x'`.
    pub open spec fn cross_spec(self, other: Vector2) -> u64 {
        sub_bits(mul_bits(self.x, other.y), mul_bits(self.y, other.x))
    }

    /// The components in order, as a sequence.
    pub open spec fn to_array_spec(self) -> Seq<u64> {
        seq![self.x, self.y]
    }

    /// The vector built from the first two entries of a sequence.
    pub open spec fn from_array_spec(s: Seq<u64>) -> Vector2 {
        Vector2 { x: s[0], y: s[1] }
    }

    /// The components in order, as a pair.
    pub open spec fn to_tuple_spec(self) -> (u64, u64) {
        (self.x, self.y)
    }

    /// The vector built from a pair of components.
    pub open spec fn from_tuple_spec(t: (u64, u64)) -> Vector2 {
        Vector2 { x: t.0, y: t.1 }
    }

    /// Creates the vector with the given components.
    pub fn new(x: u64, y: u64) -> (r: Vector2)
        ensures
            r == (Vector2 { x, y }),
    {
        Vector2 { x, y }
    }

    /// Computes the 2D cross product (the signed parallelogram area): it
    /// is positive when `other` lies counter-clockwise from `self`. On
    /// NaN-free operands whose componentwise products stay finite, the
    /// operation is anticommutative: swapping the operands negates the
    /// result, up to IEEE-754 equality of the zeros.
    pub fn cross(&self, other: &Vector2) -> (r: u64)
        ensures
            r == self.cross_spec(*other),
            self.no_nan() && other.no_nan() && is_finite_bits(mul_bits(self.x, other.y))
                && is_finite_bits(mul_bits(self.y, other.x)) ==> eq_bits(
                r,
                neg_bits(other.cross_spec(*self)),
            ),
    {
        scalar_sub(scalar_mul(self.x, other.y), scalar_mul(self.y, other.x))
    }

    /// Adds the two vectors componentwise.
    pub fn add(self, other: Vector2) -> (r: Vector2)
        ensures
            r.x == add_bits(self.x, other.x),
            r.y == add_bits(self.y, other.y),
    {
        Vector2 { x: scalar_add(self.x, other.x), y: scalar_add(self.y, other.y) }
    }

    /// Subtracts `other` from `self` componentwise.
    pub fn sub(self, other: Vector2) -> (r: Vector2)
        ensures
            r.x == sub_bits(self.x, other.x),
            r.y == sub_bits(self.y, other.y),
    {
        Vector2 { x: scalar_sub(self.x, other.x), y: scalar_sub(self.y, other.y) }
    }

    /// Multiplies each component by the scalar.
    pub fn mul(self, scalar: u64) -> (r: Vector2)
        ensures
            r.x == mul_bits(self.x, scalar),
            r.y == mul_bits(self.y, scalar),
    {
        Vector2 { x: scalar_mul(self.x, scalar), y: scalar_mul(self.y, scalar) }
    }

    /// Divides each component by the scalar. Division by zero follows
    /// IEEE-754 and produces infinities or NaNs, not an error.
    pub fn div(self, scalar: u64) -> (r: Vector2)
        ensures
            r.x == div_bits(self.x, scalar),
            r.y == div_bits(self.y, scalar),
    {
        Vector2 { x: scalar_div(self.x, scalar), y: scalar_div(self.y, scalar) }
    }

    /// Builds the vector from its components in order.
    pub fn from_array(a: [u64; 2]) -> (r: Vector2)
        ensures
            r == Vector2::from_array_spec(a@),
    {
        Vector2 { x: a[0], y: a[1] }
    }

    /// Returns the components in order.
    pub fn to_array(self) -> (r: [u64; 2])
        ensures
            r@ == self.to_array_spec(),
    {
        let r = [self.x, self.y];
        proof {
            assert(r@ =~= self.to_array_spec());
        }
        r
    }

    /// Builds the vector from a pair of components.
    pub fn from_tuple(t: (u64, u64)) -> (r: Vector2)
        ensures
            r == Vector2::from_tuple_spec(t),
    {
        Vector2 { x: t.0, y: t.1 }
    }

    /// Returns the components as a pair.
    pub fn to_tuple(self) -> (r: (u64, u64))
        ensures
            r == self.to_tuple_spec(),
    {
        (self.x, self.y)
    }
}

/// Rebuilding a vector from its own array form gives the vector back:
/// the two conversions are inverse to one another.
pub proof fn lemma_vector2_array_round_trip(v: Vector2)
    ensures
        Vector2::from_array_spec(v.to_array_spec()) == v,
{
}

/// Rebuilding a vector from its own tuple form gives the vector back.
pub proof fn lemma_vector2_tuple_round_trip(v: Vector2)
    ensures
        Vector2::from_tuple_spec(v.to_tuple_spec()) == v,
{
}

/// Turning an array into a vector and back keeps the array: the
/// conversion pair is a bijection.
pub proof fn lemma_vector2_array_identity(s: Seq<u64>)
    requires
        s.len() == 2,
    ensures
        Vector2::from_array_spec(s).to_array_spec() =~= s,
{
}

impl Vector for Vector2 {
    /// Computes the dot product `x*x' + y*y'`. On NaN-free operands the
    /// dot product is commutative bit for bit.
    fn dot(&self, other: &Self) -> (r: u64)
        ensures
            r == self.dot_spec(*other),
            self.no_nan() && other.no_nan() ==> r == other.dot_spec(*self),
    {
        scalar_add(scalar_mul(self.x, other.x), scalar_mul(self.y, other.y))
    }

    /// Computes the magnitude, the square root of `x*x + y*y`. The
    /// result is never negative: it is a NaN or has a clear sign bit,
    /// and on the all-zero vector it is exactly positive zero.
    fn magnitude(&self) -> (r: u64)
        ensures
            r == self.magnitude_spec(),
            is_nan_bits(r) || !sign_bit(r),
            self.all_zero() ==> r == 0u64,
    {
        let d = scalar_add(scalar_mul(self.x, self.x), scalar_mul(self.y, self.y));
        scalar_sqrt(d)
    }

    /// Divides each component by the magnitude. On the all-zero vector
    /// every component of the result is a NaN.
    fn normalize(&self) -> (r: Self)
        ensures
            r == self.normalize_spec(),
    {
        let m = self.magnitude();
        Vector2 { x: scalar_div(self.x, m), y: scalar_div(self.y, m) }
    }
}

impl PartialEq for Vector2 {
    /// Componentwise IEEE-754 equality: a NaN component makes the vectors
    /// unequal, and zeros of either sign are equal.
    fn eq(&self, other: &Vector2) -> (r: bool) {
        scalar_eq(self.x, other.x) && scalar_eq(self.y, other.y)
    }
}

impl vstd::std_specs::cmp::PartialEqSpecImpl for Vector2 {
    open spec fn obeys_eq_spec() -> bool {
        true
    }

    open spec fn eq_spec(&self, other: &Vector2) -> bool {
        eq_bits(self.x, other.x) && eq_bits(self.y, other.y)
    }
}

impl PartialOrd for Vector2 {
    /// Lexicographic comparison by component, with IEEE-754 comparison on
    /// each: the first component decides unless equal, and a NaN anywhere
    /// along the way makes the vectors incomparable.
    fn partial_cmp(&self, other: &Vector2) -> (r: Option<Ordering>) {
        let c = scalar_cmp(self.x, other.x);
        match c {
            Some(Ordering::Equal) => scalar_cmp(self.y, other.y),
            _ => c,
        }
    }
}

impl vstd::std_specs::cmp::PartialOrdSpecImpl for Vector2 {
    open spec fn obeys_partial_cmp_spec() -> bool {
        true
    }

    open spec fn partial_cmp_spec(&self, other: &Vector2) -> Option<Ordering> {
        if cmp_bits(self.x, other.x) == Some(Ordering::Equal) {
            cmp_bits(self.y, other.y)
        } else {
            cmp_bits(self.x, other.x)
        }
    }
}

} // verus!
