//! The scalar layer: IEEE-754 binary64 values as their 64-bit patterns.
//!
//! Arithmetic (`+`, `-`, `*`, `/`, square root) is not something this
//! library could state in a few lines, so each operation is named by an
//! uninterpreted spec function and performed by a trusted wrapper around a
//! software implementation of IEEE-754. Comparison, on the other hand, is
//! fully determined by a few lines over the bit patterns, so it is defined
//! and verified here with no trust involved.

use vstd::prelude::*;

use rustc_apfloat::ieee::Double;
use rustc_apfloat::{Float, Round};

verus! {

/// The sign bit of a binary64 pattern.
pub const SIGN_MASK: u64 = 0x8000_0000_0000_0000;

/// Everything but the sign bit: exponent and significand.
pub const MAGNITUDE_MASK: u64 = 0x7FFF_FFFF_FFFF_FFFF;

/// Exponent all ones, significand zero: the pattern of positive infinity.
/// A pattern whose magnitude exceeds it is a NaN.
pub const INFINITY_BITS: u64 = 0x7FF0_0000_0000_0000;

/// Whether the pattern is a NaN: exponent all ones, significand nonzero.
pub open spec fn is_nan_bits(a: u64) -> bool {
    (a & MAGNITUDE_MASK) > INFINITY_BITS
}

/// Whether the pattern is a zero, of either sign.
pub open spec fn is_zero_bits(a: u64) -> bool {
    (a & MAGNITUDE_MASK) == 0
}

/// Whether the pattern's sign bit is set.
pub open spec fn sign_bit(a: u64) -> bool {
    (a & SIGN_MASK) != 0
}

/// IEEE-754 equality of the two values named by the patterns: false when
/// either is a NaN, true for a pair of zeros of any signs, and otherwise
/// true exactly for identical patterns.
pub open spec fn eq_bits(a: u64, b: u64) -> bool {
    &&& !is_nan_bits(a)
    &&& !is_nan_bits(b)
    &&& (a == b || (is_zero_bits(a) && is_zero_bits(b)))
}

/// IEEE-754 `<` on the two values named by the patterns. For values that
/// are not NaN and not both zero, the sign bits decide when they differ;
/// two nonnegative patterns order as integers, two negative ones in
/// reverse.
pub open spec fn lt_bits(a: u64, b: u64) -> bool {
    &&& !is_nan_bits(a)
    &&& !is_nan_bits(b)
    &&& !(is_zero_bits(a) && is_zero_bits(b))
    &&& if sign_bit(a) != sign_bit(b) {
        sign_bit(a)
    } else if !sign_bit(a) {
        a < b
    } else {
        a > b
    }
}

/// Whether the pattern names a finite value: neither a NaN nor an
/// infinity.
pub open spec fn is_finite_bits(a: u64) -> bool {
    (a & MAGNITUDE_MASK) < INFINITY_BITS
}

/// The IEEE-754 negation of the value named by the pattern: the same
/// pattern with the sign bit flipped.
pub open spec fn neg_bits(a: u64) -> u64 {
    a ^ SIGN_MASK
}

/// The IEEE-754 comparison of the two values named by the patterns: `None`
/// when either is a NaN, and the usual total order on the rest.
pub open spec fn cmp_bits(a: u64, b: u64) -> Option<core::cmp::Ordering> {
    if is_nan_bits(a) || is_nan_bits(b) {
        None
    } else if eq_bits(a, b) {
        Some(core::cmp::Ordering::Equal)
    } else if lt_bits(a, b) {
        Some(core::cmp::Ordering::Less)
    } else {
        Some(core::cmp::Ordering::Greater)
    }
}

/// The pattern of positive zero is a zero, not a NaN, and not negative.
pub proof fn lemma_zero_pattern()
    ensures
        is_zero_bits(0u64),
        !is_nan_bits(0u64),
        !sign_bit(0u64),
{
    assert(0u64 & 0x7FFF_FFFF_FFFF_FFFFu64 == 0u64) by (bit_vector);
    assert(0u64 & 0x8000_0000_0000_0000u64 == 0u64) by (bit_vector);
}

/// Decides [`is_nan_bits`].
pub fn scalar_is_nan(a: u64) -> (r: bool)
    ensures
        r == is_nan_bits(a),
{
    (a & MAGNITUDE_MASK) > INFINITY_BITS
}

/// Decides [`eq_bits`].
pub fn scalar_eq(a: u64, b: u64) -> (r: bool)
    ensures
        r == eq_bits(a, b),
{
    !scalar_is_nan(a) && !scalar_is_nan(b) && (a == b || ((a & MAGNITUDE_MASK) == 0
        && (b & MAGNITUDE_MASK) == 0))
}

/// Decides [`lt_bits`].
pub fn scalar_lt(a: u64, b: u64) -> (r: bool)
    ensures
        r == lt_bits(a, b),
{
    if scalar_is_nan(a) || scalar_is_nan(b) {
        return false;
    }
    if (a & MAGNITUDE_MASK) == 0 && (b & MAGNITUDE_MASK) == 0 {
        return false;
    }
    let sa = (a & SIGN_MASK) != 0;
    let sb = (b & SIGN_MASK) != 0;
    if sa != sb {
        sa
    } else if !sa {
        a < b
    } else {
        a > b
    }
}

/// Decides [`cmp_bits`].
pub fn scalar_cmp(a: u64, b: u64) -> (r: Option<core::cmp::Ordering>)
    ensures
        r == cmp_bits(a, b),
{
    if scalar_is_nan(a) || scalar_is_nan(b) {
        None
    } else if scalar_eq(a, b) {
        Some(core::cmp::Ordering::Equal)
    } else if scalar_lt(a, b) {
        Some(core::cmp::Ordering::Less)
    } else {
        Some(core::cmp::Ordering::Greater)
    }
}

/// The IEEE-754 binary64 sum of the values named by the two patterns,
/// rounded to nearest with ties to even, as a pattern again.
pub uninterp spec fn add_bits(a: u64, b: u64) -> u64;

/// The IEEE-754 binary64 difference of the values named by the patterns.
pub uninterp spec fn sub_bits(a: u64, b: u64) -> u64;

/// The IEEE-754 binary64 product of the values named by the patterns.
pub uninterp spec fn mul_bits(a: u64, b: u64) -> u64;

/// The IEEE-754 binary64 quotient of the values named by the patterns.
pub uninterp spec fn div_bits(a: u64, b: u64) -> u64;

/// The IEEE-754 binary64 square root of the value named by the pattern.
pub uninterp spec fn sqrt_bits(a: u64) -> u64;

/// Relies on `rustc_apfloat::Float::add_r` on `ieee::Double`: IEEE-754
/// binary64 addition on bit patterns, rounded to nearest, ties to even.
/// A NaN operand gives a NaN; the sum of two values that are neither NaN
/// nor negative is again neither NaN nor negative; and the sum of two
/// positive zeros is positive zero.
#[verifier::external_body]
pub fn scalar_add(a: u64, b: u64) -> (r: u64)
    ensures
        r == add_bits(a, b),
        (is_nan_bits(a) || !sign_bit(a)) && (is_nan_bits(b) || !sign_bit(b)) ==> (is_nan_bits(r)
            || !sign_bit(r)),
        a == 0u64 && b == 0u64 ==> r == 0u64,
{
    let x = Double::from_bits(a as u128);
    let y = Double::from_bits(b as u128);
    x.add_r(y, Round::NearestTiesToEven).value.to_bits() as u64
}

/// Relies on `rustc_apfloat::Float::sub_r` on `ieee::Double`: IEEE-754
/// binary64 subtraction on bit patterns, rounded to nearest, ties to even.
/// On finite operands subtraction is anticommutative up to IEEE-754
/// equality (an exact zero difference is positive zero either way
/// around), and subtracting a finite value from itself gives positive
/// zero.
#[verifier::external_body]
pub fn scalar_sub(a: u64, b: u64) -> (r: u64)
    ensures
        r == sub_bits(a, b),
        is_finite_bits(a) && is_finite_bits(b) ==> eq_bits(r, neg_bits(sub_bits(b, a))),
        is_finite_bits(a) && b == a ==> r == 0u64,
{
    let x = Double::from_bits(a as u128);
    let y = Double::from_bits(b as u128);
    x.sub_r(y, Round::NearestTiesToEven).value.to_bits() as u64
}

/// Relies on `rustc_apfloat::Float::mul_r` on `ieee::Double`: IEEE-754
/// binary64 multiplication on bit patterns, rounded to nearest, ties to
/// even. On operands that are not NaN, multiplication is commutative bit
/// for bit (an invalid product is the one canonical NaN either way
/// around); a square is never negative; and the square of a zero of
/// either sign is positive zero.
#[verifier::external_body]
pub fn scalar_mul(a: u64, b: u64) -> (r: u64)
    ensures
        r == mul_bits(a, b),
        !is_nan_bits(a) && !is_nan_bits(b) ==> r == mul_bits(b, a),
        b == a ==> (is_nan_bits(r) || !sign_bit(r)),
        is_zero_bits(a) && b == a ==> r == 0u64,
{
    let x = Double::from_bits(a as u128);
    let y = Double::from_bits(b as u128);
    x.mul_r(y, Round::NearestTiesToEven).value.to_bits() as u64
}

/// Relies on `rustc_apfloat::Float::div_r` on `ieee::Double`: IEEE-754
/// binary64 division on bit patterns, rounded to nearest, ties to even.
#[verifier::external_body]
pub fn scalar_div(a: u64, b: u64) -> (r: u64)
    ensures
        r == div_bits(a, b),
{
    let x = Double::from_bits(a as u128);
    let y = Double::from_bits(b as u128);
    x.div_r(y, Round::NearestTiesToEven).value.to_bits() as u64
}

/// Relies on `ieee_apsqrt::sqrt_accurate` on `ieee::Double`: the IEEE-754
/// binary64 square root on bit patterns, rounded to nearest, ties to even.
/// The root of positive zero is positive zero, and the root of a value
/// that is not NaN and not negative is neither NaN nor negative (a NaN
/// argument gives the canonical NaN, whose sign bit is clear).
#[verifier::external_body]
pub fn scalar_sqrt(a: u64) -> (r: u64)
    ensures
        r == sqrt_bits(a),
        is_nan_bits(a) || !sign_bit(a) ==> (is_nan_bits(r) || !sign_bit(r)),
        a == 0u64 ==> r == 0u64,
{
    ieee_apsqrt::sqrt_accurate(a, Round::NearestTiesToEven).0.value
}

} // verus!
