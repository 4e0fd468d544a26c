//! A three-dimensional vector.

use vstd::prelude::*;

use core::cmp::Ordering;

use crate::scalar::{
    add_bits, cmp_bits, div_bits, eq_bits, is_finite_bits, is_nan_bits, is_zero_bits, mul_bits,
    neg_bits, scalar_add, scalar_cmp, scalar_div, scalar_eq, scalar_mul, scalar_sqrt, scalar_sub,
    sign_bit, sqrt_bits, sub_bits,
};
use crate::Vector;

verus! {

/// A vector with three components, `x`, `y` and `z`, each the bit pattern
/// of an IEEE-754 binary64 value.
#[derive(Debug, Clone, Copy)]
pub struct Vector3 {
    pub x: u64,
    pub y: u64,
    pub z: u64,
}

impl Vector3 {
    /// Whether no component is a NaN.
    pub open spec fn no_nan(self) -> bool {
        !is_nan_bits(self.x) && !is_nan_bits(self.y) && !is_nan_bits(self.z)
    }

    /// Whether every component is a zero, of either sign.
    pub open spec fn all_zero(self) -> bool {
        is_zero_bits(self.x) && is_zero_bits(self.y) && is_zero_bits(self.z)
    }

    /// Whether the componentwise products that the cross product of the
    /// two vectors forms all stay finite.
    pub open spec fn cross_products_finite(self, other: Vector3) -> bool {
        &&& is_finite_bits(mul_bits(self.y, other.z))
        &&& is_finite_bits(mul_bits(self.z, other.y))
        &&& is_finite_bits(mul_bits(self.z, other.x))
        &&& is_finite_bits(mul_bits(self.x, other.z))
        &&& is_finite_bits(mul_bits(self.x, other.y))
        &&& is_finite_bits(mul_bits(self.y, other.x))
    }

    /// The dot product of the two vectors: `x*x' + y*y' + z*z'`, summed
    /// left to right.
    pub open spec fn dot_spec(self, other: Vector3) -> u64 {
        add_bits(
            add_bits(mul_bits(self.x, other.x), mul_bits(self.y, other.y)),
            mul_bits(self.z, other.z),
        )
    }

    /// The magnitude of the vector: the square root of its dot product
    /// with itself.
    pub open spec fn magnitude_spec(self) -> u64 {
        sqrt_bits(self.dot_spec(self))
    }

    /// The vector with each component divided by the magnitude.
    pub open spec fn normalize_spec(self) -> Vector3 {
        Vector3 {
            x: div_bits(self.x, self.magnitude_spec()),
            y: div_bits(self.y, self.magnitude_spec()),
            z: div_bits(self.z, self.magnitude_spec()),
        }
    }

    /// The 3D cross product: the vector perpendicular to both operands,
    /// component by component `(y*z' - z*y', z*x' - x*z', x*y' - y*x')`.
    pub open spec fn cross_spec(self, other: Vector3) -> Vector3 {
        Vector3 {
            x: sub_bits(mul_bits(self.y, other.z), mul_bits(self.z, other.y)),
            y: sub_bits(mul_bits(self.z, other.x), mul_bits(self.x, other.z)),
            z: sub_bits(mul_bits(self.x, other.y), mul_bits(self.y, other.x)),
        }
    }

    /// The components in order, as a sequence.
    pub open spec fn to_array_spec(self) -> Seq<u64> {
        seq![self.x, self.y, self.z]
    }

    /// The vector built from the first three entries of a sequence.
    pub open spec fn from_array_spec(s: Seq<u64>) -> Vector3 {
        Vector3 { x: s[0], y: s[1], z: s[2] }
    }

    /// The components in order, as a triple.
    pub open spec fn to_tuple_spec(self) -> (u64, u64, u64) {
        (self.x, self.y, self.z)
    }

    /// The vector built from a triple of components.
    pub open spec fn from_tuple_spec(t: (u64, u64, u64)) -> Vector3 {
        Vector3 { x: t.0, y: t.1, z: t.2 }
    }

    /// Creates the vector with the given components.
    pub fn new(x: u64, y: u64, z: u64) -> (r: Vector3)
        ensures
            r == (Vector3 { x, y, z }),
    {
        Vector3 { x, y, z }
    }

    /// Computes the 3D cross product of the two vectors. On NaN-free
    /// operands whose componentwise products stay finite, the operation
    /// is anticommutative — swapping the operands negates every
    /// component, up to IEEE-754 equality of the zeros — and the cross
    /// product of a vector with itself is the all-zero vector.
    pub fn cross(&self, other: &Vector3) -> (r: Vector3)
        ensures
            r == self.cross_spec(*other),
            self.no_nan() && other.no_nan() && self.cross_products_finite(*other) ==> {
                let back = other.cross_spec(*self);
                eq_bits(r.x, neg_bits(back.x)) && eq_bits(r.y, neg_bits(back.y)) && eq_bits(
                    r.z,
                    neg_bits(back.z),
                )
            },
            *other == *self && self.no_nan() && self.cross_products_finite(*other) ==> r == (
            Vector3 { x: 0u64, y: 0u64, z: 0u64 }),
    {
        Vector3 {
            x: scalar_sub(scalar_mul(self.y, other.z), scalar_mul(self.z, other.y)),
            y: scalar_sub(scalar_mul(self.z, other.x), scalar_mul(self.x, other.z)),
            z: scalar_sub(scalar_mul(self.x, other.y), scalar_mul(self.y, other.x)),
        }
    }

    /// Adds the two vectors componentwise.
    pub fn add(self, other: Vector3) -> (r: Vector3)
        ensures
            r.x == add_bits(self.x, other.x),
            r.y == add_bits(self.y, other.y),
            r.z == add_bits(self.z, other.z),
    {
        Vector3 {
            x: scalar_add(self.x, other.x),
            y: scalar_add(self.y, other.y),
            z: scalar_add(self.z, other.z),
        }
    }

    /// Subtracts `other` from `self` componentwise.
    pub fn sub(self, other: Vector3) -> (r: Vector3)
        ensures
            r.x == sub_bits(self.x, other.x),
            r.y == sub_bits(self.y, other.y),
            r.z == sub_bits(self.z, other.z),
    {
        Vector3 {
            x: scalar_sub(self.x, other.x),
            y: scalar_sub(self.y, other.y),
            z: scalar_sub(self.z, other.z),
        }
    }

    /// Multiplies each component by the scalar.
    pub fn mul(self, scalar: u64) -> (r: Vector3)
        ensures
            r.x == mul_bits(self.x, scalar),
            r.y == mul_bits(self.y, scalar),
            r.z == mul_bits(self.z, scalar),
    {
        Vector3 {
            x: scalar_mul(self.x, scalar),
            y: scalar_mul(self.y, scalar),
            z: scalar_mul(self.z, scalar),
        }
    }

    /// Divides each component by the scalar. Division by zero follows
    /// IEEE-754 and produces infinities or NaNs, not an error.
    pub fn div(self, scalar: u64) -> (r: Vector3)
        ensures
            r.x == div_bits(self.x, scalar),
            r.y == div_bits(self.y, scalar),
            r.z == div_bits(self.z, scalar),
    {
        Vector3 {
            x: scalar_div(self.x, scalar),
            y: scalar_div(self.y, scalar),
            z: scalar_div(self.z, scalar),
        }
    }

    /// Builds the vector from its components in order.
    pub fn from_array(a: [u64; 3]) -> (r: Vector3)
        ensures
            r == Vector3::from_array_spec(a@),
    {
        Vector3 { x: a[0], y: a[1], z: a[2] }
    }

    /// Returns the components in order.
    pub fn to_array(self) -> (r: [u64; 3])
        ensures
            r@ == self.to_array_spec(),
    {
        let r = [self.x, self.y, self.z];
        proof {
            assert(r@ =~= self.to_array_spec());
        }
        r
    }

    /// Builds the vector from a triple of components.
    pub fn from_tuple(t: (u64, u64, u64)) -> (r: Vector3)
        ensures
            r == Vector3::from_tuple_spec(t),
    {
        Vector3 { x: t.0, y: t.1, z: t.2 }
    }

    /// Returns the components as a triple.
    pub fn to_tuple(self) -> (r: (u64, u64, u64))
        ensures
            r == self.to_tuple_spec(),
    {
        (self.x, self.y, self.z)
    }
}

/// Rebuilding a vector from its own array form gives the vector back.
pub proof fn lemma_vector3_array_round_trip(v: Vector3)
    ensures
        Vector3::from_array_spec(v.to_array_spec()) == v,
{
}

/// Rebuilding a vector from its own tuple form gives the vector back.
pub proof fn lemma_vector3_tuple_round_trip(v: Vector3)
    ensures
        Vector3::from_tuple_spec(v.to_tuple_spec()) == v,
{
}

/// Turning an array into a vector and back keeps the array: the
/// conversion pair is a bijection.
pub proof fn lemma_vector3_array_identity(s: Seq<u64>)
    requires
        s.len() == 3,
    ensures
        Vector3::from_array_spec(s).to_array_spec() =~= s,
{
}

impl Vector for Vector3 {
    /// Computes the dot product `x*x' + y*y' + z*z'`. On NaN-free
    /// operands the dot product is commutative bit for bit.
    fn dot(&self, other: &Self) -> (r: u64)
        ensures
            r == self.dot_spec(*other),
            self.no_nan() && other.no_nan() ==> r == other.dot_spec(*self),
    {
        scalar_add(
            scalar_add(scalar_mul(self.x, other.x), scalar_mul(self.y, other.y)),
            scalar_mul(self.z, other.z),
        )
    }

    /// Computes the magnitude, the square root of `x*x + y*y + z*z`.
    /// The result is never negative: it is a NaN or has a clear sign
    /// bit, and on the all-zero vector it is exactly positive zero.
    fn magnitude(&self) -> (r: u64)
        ensures
            r == self.magnitude_spec(),
            is_nan_bits(r) || !sign_bit(r),
            self.all_zero() ==> r == 0u64,
    {
        let d = scalar_add(
            scalar_add(scalar_mul(self.x, self.x), scalar_mul(self.y, self.y)),
            scalar_mul(self.z, self.z),
        );
        scalar_sqrt(d)
    }

    /// Divides each component by the magnitude. On the all-zero vector
    /// every component of the result is a NaN.
    fn normalize(&self) -> (r: Self)
        ensures
            r == self.normalize_spec(),
    {
        let m = self.magnitude();
        Vector3 {
            x: scalar_div(self.x, m),
            y: scalar_div(self.y, m),
            z: scalar_div(self.z, m),
        }
    }
}

impl PartialEq for Vector3 {
    /// Componentwise IEEE-754 equality: a NaN component makes the vectors
    /// unequal, and zeros of either sign are equal.
    fn eq(&self, other: &Vector3) -> (r: bool) {
        scalar_eq(self.x, other.x) && scalar_eq(self.y, other.y) && scalar_eq(self.z, other.z)
    }
}

impl vstd::std_specs::cmp::PartialEqSpecImpl for Vector3 {
    open spec fn obeys_eq_spec() -> bool {
        true
    }

    open spec fn eq_spec(&self, other: &Vector3) -> bool {
        eq_bits(self.x, other.x) && eq_bits(self.y, other.y) && eq_bits(self.z, other.z)
    }
}

impl PartialOrd for Vector3 {
    /// Lexicographic comparison by component, with IEEE-754 comparison on
    /// each: the first unequal component decides, and a NaN anywhere
    /// along the way makes the vectors incomparable.
    fn partial_cmp(&self, other: &Vector3) -> (r: Option<Ordering>) {
        let cx = scalar_cmp(self.x, other.x);
        match cx {
            Some(Ordering::Equal) => {
                let cy = scalar_cmp(self.y, other.y);
                match cy {
                    Some(Ordering::Equal) => scalar_cmp(self.z, other.z),
                    _ => cy,
                }
            },
            _ => cx,
        }
    }
}

impl vstd::std_specs::cmp::PartialOrdSpecImpl for Vector3 {
    open spec fn obeys_partial_cmp_spec() -> bool {
        true
    }

    open spec fn partial_cmp_spec(&self, other: &Vector3) -> Option<Ordering> {
        if cmp_bits(self.x, other.x) == Some(Ordering::Equal) {
            if cmp_bits(self.y, other.y) == Some(Ordering::Equal) {
                cmp_bits(self.z, other.z)
            } else {
                cmp_bits(self.y, other.y)
            }
        } else {
            cmp_bits(self.x, other.x)
        }
    }
}

} // verus!
