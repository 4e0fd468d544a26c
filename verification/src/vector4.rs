//! A four-dimensional vector.

use vstd::prelude::*;

use core::cmp::Ordering;

use crate::scalar::{
    add_bits, cmp_bits, div_bits, eq_bits, is_nan_bits, is_zero_bits, mul_bits, scalar_add,
    scalar_cmp, scalar_div, scalar_eq, scalar_mul, scalar_sqrt, scalar_sub, sign_bit, sqrt_bits,
    sub_bits,
};
use crate::Vector;

verus! {

/// A vector with four components, `a`, `b`, `c` and `d`, each the bit
/// pattern of an IEEE-754 binary64 value. There is no four-dimensional
/// cross product in this library.
#[derive(Debug, Clone, Copy)]
pub struct Vector4 {
    pub a: u64,
    pub b: u64,
    pub c: u64,
    pub d: u64,
}

impl Vector4 {
    /// Whether no component is a NaN.
    pub open spec fn no_nan(self) -> bool {
        !is_nan_bits(self.a) && !is_nan_bits(self.b) && !is_nan_bits(self.c) && !is_nan_bits(
            self.d,
        )
    }

    /// Whether every component is a zero, of either sign.
    pub open spec fn all_zero(self) -> bool {
        is_zero_bits(self.a) && is_zero_bits(self.b) && is_zero_bits(self.c) && is_zero_bits(
            self.d,
        )
    }

    /// The dot product of the two vectors: `a*a' + b*b' + c*c' + d*d'`,
    /// summed left to right.
    pub open spec fn dot_spec(self, other: Vector4) -> u64 {
        add_bits(
            add_bits(
                add_bits(mul_bits(self.a, other.a), mul_bits(self.b, other.b)),
                mul_bits(self.c, other.c),
            ),
            mul_bits(self.d, other.d),
        )
    }

    /// The magnitude of the vector: the square root of its dot product
    /// with itself.
    pub open spec fn magnitude_spec(self) -> u64 {
        sqrt_bits(self.dot_spec(self))
    }

    /// The vector with each component divided by the magnitude.
    pub open spec fn normalize_spec(self) -> Vector4 {
        Vector4 {
            a: div_bits(self.a, self.magnitude_spec()),
            b: div_bits(self.b, self.magnitude_spec()),
            c: div_bits(self.c, self.magnitude_spec()),
            d: div_bits(self.d, self.magnitude_spec()),
        }
    }

    /// The components in order, as a sequence.
    pub open spec fn to_array_spec(self) -> Seq<u64> {
        seq![self.a, self.b, self.c, self.d]
    }

    /// The vector built from the first four entries of a sequence.
    pub open spec fn from_array_spec(s: Seq<u64>) -> Vector4 {
        Vector4 { a: s[0], b: s[1], c: s[2], d: s[3] }
    }

    /// The components in order, as a quadruple.
    pub open spec fn to_tuple_spec(self) -> (u64, u64, u64, u64) {
        (self.a, self.b, self.c, self.d)
    }

    /// The vector built from a quadruple of components.
    pub open spec fn from_tuple_spec(t: (u64, u64, u64, u64)) -> Vector4 {
        Vector4 { a: t.0, b: t.1, c: t.2, d: t.3 }
    }

    /// Creates the vector with the given components.
    pub fn new(a: u64, b: u64, c: u64, d: u64) -> (r: Vector4)
        ensures
            r == (Vector4 { a, b, c, d }),
    {
        Vector4 { a, b, c, d }
    }

    /// Adds the two vectors componentwise.
    pub fn add(self, other: Vector4) -> (r: Vector4)
        ensures
            r.a == add_bits(self.a, other.a),
            r.b == add_bits(self.b, other.b),
            r.c == add_bits(self.c, other.c),
            r.d == add_bits(self.d, other.d),
    {
        Vector4 {
            a: scalar_add(self.a, other.a),
            b: scalar_add(self.b, other.b),
            c: scalar_add(self.c, other.c),
            d: scalar_add(self.d, other.d),
        }
    }

    /// Subtracts `other` from `self` componentwise.
    pub fn sub(self, other: Vector4) -> (r: Vector4)
        ensures
            r.a == sub_bits(self.a, other.a),
            r.b == sub_bits(self.b, other.b),
            r.c == sub_bits(self.c, other.c),
            r.d == sub_bits(self.d, other.d),
    {
        Vector4 {
            a: scalar_sub(self.a, other.a),
            b: scalar_sub(self.b, other.b),
            c: scalar_sub(self.c, other.c),
            d: scalar_sub(self.d, other.d),
        }
    }

    /// Multiplies each component by the scalar.
    pub fn mul(self, scalar: u64) -> (r: Vector4)
        ensures
            r.a == mul_bits(self.a, scalar),
            r.b == mul_bits(self.b, scalar),
            r.c == mul_bits(self.c, scalar),
            r.d == mul_bits(self.d, scalar),
    {
        Vector4 {
            a: scalar_mul(self.a, scalar),
            b: scalar_mul(self.b, scalar),
            c: scalar_mul(self.c, scalar),
            d: scalar_mul(self.d, scalar),
        }
    }

    /// Divides each component by the scalar. Division by zero follows
    /// IEEE-754 and produces infinities or NaNs, not an error.
    pub fn div(self, scalar: u64) -> (r: Vector4)
        ensures
            r.a == div_bits(self.a, scalar),
            r.b == div_bits(self.b, scalar),
            r.c == div_bits(self.c, scalar),
            r.d == div_bits(self.d, scalar),
    {
        Vector4 {
            a: scalar_div(self.a, scalar),
            b: scalar_div(self.b, scalar),
            c: scalar_div(self.c, scalar),
            d: scalar_div(self.d, scalar),
        }
    }

    /// Builds the vector from its components in order.
    pub fn from_array(arr: [u64; 4]) -> (r: Vector4)
        ensures
            r == Vector4::from_array_spec(arr@),
    {
        Vector4 { a: arr[0], b: arr[1], c: arr[2], d: arr[3] }
    }

    /// Returns the components in order.
    pub fn to_array(self) -> (r: [u64; 4])
        ensures
            r@ == self.to_array_spec(),
    {
        let r = [self.a, self.b, self.c, self.d];
        proof {
            assert(r@ =~= self.to_array_spec());
        }
        r
    }

    /// Builds the vector from a quadruple of components.
    pub fn from_tuple(t: (u64, u64, u64, u64)) -> (r: Vector4)
        ensures
            r == Vector4::from_tuple_spec(t),
    {
        Vector4 { a: t.0, b: t.1, c: t.2, d: t.3 }
    }

    /// Returns the components as a quadruple.
    pub fn to_tuple(self) -> (r: (u64, u64, u64, u64))
        ensures
            r == self.to_tuple_spec(),
    {
        (self.a, self.b, self.c, self.d)
    }
}

/// Rebuilding a vector from its own array form gives the vector back.
pub proof fn lemma_vector4_array_round_trip(v: Vector4)
    ensures
        Vector4::from_array_spec(v.to_array_spec()) == v,
{
}

/// Rebuilding a vector from its own tuple form gives the vector back.
pub proof fn lemma_vector4_tuple_round_trip(v: Vector4)
    ensures
        Vector4::from_tuple_spec(v.to_tuple_spec()) == v,
{
}

/// Turning an array into a vector and back keeps the array: the
/// conversion pair is a bijection.
pub proof fn lemma_vector4_array_identity(s: Seq<u64>)
    requires
        s.len() == 4,
    ensures
        Vector4::from_array_spec(s).to_array_spec() =~= s,
{
}

impl Vector for Vector4 {
    /// Computes the dot product `a*a' + b*b' + c*c' + d*d'`. On NaN-free
    /// operands the dot product is commutative bit for bit.
    fn dot(&self, other: &Self) -> (r: u64)
        ensures
            r == self.dot_spec(*other),
            self.no_nan() && other.no_nan() ==> r == other.dot_spec(*self),
    {
        scalar_add(
            scalar_add(
                scalar_add(scalar_mul(self.a, other.a), scalar_mul(self.b, other.b)),
                scalar_mul(self.c, other.c),
            ),
            scalar_mul(self.d, other.d),
        )
    }

    /// Computes the magnitude, the square root of `a*a + b*b + c*c + d*d`.
    /// The result is never negative: it is a NaN or has a clear sign
    /// bit, and on the all-zero vector it is exactly positive zero.
    fn magnitude(&self) -> (r: u64)
        ensures
            r == self.magnitude_spec(),
            is_nan_bits(r) || !sign_bit(r),
            self.all_zero() ==> r == 0u64,
    {
        let d = scalar_add(
            scalar_add(
                scalar_add(scalar_mul(self.a, self.a), scalar_mul(self.b, self.b)),
                scalar_mul(self.c, self.c),
            ),
            scalar_mul(self.d, self.d),
        );
        scalar_sqrt(d)
    }

    /// Divides each component by the magnitude. On the all-zero vector
    /// every component of the result is a NaN.
    fn normalize(&self) -> (r: Self)
        ensures
            r == self.normalize_spec(),
    {
        let m = self.magnitude();
        Vector4 {
            a: scalar_div(self.a, m),
            b: scalar_div(self.b, m),
            c: scalar_div(self.c, m),
            d: scalar_div(self.d, m),
        }
    }
}

impl PartialEq for Vector4 {
    /// Componentwise IEEE-754 equality: a NaN component makes the vectors
    /// unequal, and zeros of either sign are equal.
    fn eq(&self, other: &Vector4) -> (r: bool) {
        scalar_eq(self.a, other.a) && scalar_eq(self.b, other.b) && scalar_eq(self.c, other.c)
            && scalar_eq(self.d, other.d)
    }
}

impl vstd::std_specs::cmp::PartialEqSpecImpl for Vector4 {
    open spec fn obeys_eq_spec() -> bool {
        true
    }

    open spec fn eq_spec(&self, other: &Vector4) -> bool {
        eq_bits(self.a, other.a) && eq_bits(self.b, other.b) && eq_bits(self.c, other.c)
            && eq_bits(self.d, other.d)
    }
}

impl PartialOrd for Vector4 {
    /// Lexicographic comparison by component, with IEEE-754 comparison on
    /// each: the first unequal component decides, and a NaN anywhere
    /// along the way makes the vectors incomparable.
    fn partial_cmp(&self, other: &Vector4) -> (r: Option<Ordering>) {
        let ca = scalar_cmp(self.a, other.a);
        match ca {
            Some(Ordering::Equal) => {
                let cb = scalar_cmp(self.b, other.b);
                match cb {
                    Some(Ordering::Equal) => {
                        let cc = scalar_cmp(self.c, other.c);
                        match cc {
                            Some(Ordering::Equal) => scalar_cmp(self.d, other.d),
                            _ => cc,
                        }
                    },
                    _ => cb,
                }
            },
            _ => ca,
        }
    }
}

impl vstd::std_specs::cmp::PartialOrdSpecImpl for Vector4 {
    open spec fn obeys_partial_cmp_spec() -> bool {
        true
    }

    open spec fn partial_cmp_spec(&self, other: &Vector4) -> Option<Ordering> {
        if cmp_bits(self.a, other.a) == Some(Ordering::Equal) {
            if cmp_bits(self.b, other.b) == Some(Ordering::Equal) {
                if cmp_bits(self.c, other.c) == Some(Ordering::Equal) {
                    cmp_bits(self.d, other.d)
                } else {
                    cmp_bits(self.c, other.c)
                }
            } else {
                cmp_bits(self.b, other.b)
            }
        } else {
            cmp_bits(self.a, other.a)
        }
    }
}

} // verus!
