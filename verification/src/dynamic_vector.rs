//! A vector whose dimension is chosen at run time.

use vstd::prelude::*;

use core::cmp::Ordering;

use crate::scalar::{
    add_bits, cmp_bits, div_bits, eq_bits, is_nan_bits, is_zero_bits, mul_bits, scalar_add,
    scalar_cmp, scalar_div, scalar_eq, scalar_mul, scalar_sqrt, sign_bit, sqrt_bits,
};
use crate::Vector;

verus! {

/// A vector of arbitrary dimension, fixed at construction: a contiguous
/// buffer of components, each the bit pattern of an IEEE-754 binary64
/// value. No operation resizes it; components are read and written
/// through `get` and `set`, whose indices must be in bounds.
#[derive(Debug, Clone)]
pub struct DynamicVector {
    data: Vec<u64>,
}

/// The shorter of the two lengths: how many component pairs the dot
/// product of two vectors of these lengths walks.
pub open spec fn min_len(a: Seq<u64>, b: Seq<u64>) -> int {
    if a.len() <= b.len() {
        a.len() as int
    } else {
        b.len() as int
    }
}

/// The running sum of the first `n` componentwise products, left to
/// right, starting from the pattern of positive zero.
pub open spec fn dot_fold(a: Seq<u64>, b: Seq<u64>, n: int) -> u64
    decreases n,
{
    if n <= 0 {
        0u64
    } else {
        add_bits(dot_fold(a, b, n - 1), mul_bits(a[n - 1], b[n - 1]))
    }
}

/// The dot product of two component sequences: pairs are walked up to the
/// shorter length, so the tail of the longer operand is ignored.
pub open spec fn dot_spec(a: Seq<u64>, b: Seq<u64>) -> u64 {
    dot_fold(a, b, min_len(a, b))
}

/// Whether no entry of the sequence is a NaN.
pub open spec fn no_nan_seq(s: Seq<u64>) -> bool {
    forall|i: int| 0 <= i < s.len() ==> !is_nan_bits(#[trigger] s[i])
}

/// Whether every entry of the sequence is a zero, of either sign.
pub open spec fn all_zero_seq(s: Seq<u64>) -> bool {
    forall|i: int| 0 <= i < s.len() ==> is_zero_bits(#[trigger] s[i])
}

/// The lexicographic IEEE-754 comparison of two component sequences from
/// position `i` on: the first pair that is not equal decides, a NaN makes
/// the sequences incomparable, and when the shorter one is a prefix of
/// the longer, the shorter orders first.
pub open spec fn cmp_seq_from(a: Seq<u64>, b: Seq<u64>, i: int) -> Option<Ordering>
    decreases min_len(a, b) - i,
{
    if 0 <= i < min_len(a, b) {
        if cmp_bits(a[i], b[i]) == Some(Ordering::Equal) {
            cmp_seq_from(a, b, i + 1)
        } else {
            cmp_bits(a[i], b[i])
        }
    } else if a.len() == b.len() {
        Some(Ordering::Equal)
    } else if a.len() < b.len() {
        Some(Ordering::Less)
    } else {
        Some(Ordering::Greater)
    }
}

/// The lexicographic IEEE-754 comparison of two component sequences.
pub open spec fn cmp_seq(a: Seq<u64>, b: Seq<u64>) -> Option<Ordering> {
    cmp_seq_from(a, b, 0)
}

impl View for DynamicVector {
    type V = Seq<u64>;

    closed spec fn view(&self) -> Seq<u64> {
        self.data@
    }
}

impl DynamicVector {
    /// Creates a vector of the given dimension with every component the
    /// pattern of positive zero.
    pub fn new(length: usize) -> (r: DynamicVector)
        ensures
            r@.len() == length,
            forall|i: int| 0 <= i < length ==> r@[i] == 0u64,
    {
        let mut data: Vec<u64> = Vec::with_capacity(length);
        let mut i: usize = 0;
        while i < length
            invariant
                i <= length,
                data@.len() == i,
                forall|j: int| 0 <= j < i ==> data@[j] == 0u64,
            decreases length - i,
        {
            data.push(0);
            i = i + 1;
        }
        DynamicVector { data }
    }

    /// The dimension of the vector.
    pub fn len(&self) -> (r: usize)
        ensures
            r == self@.len(),
    {
        self.data.len()
    }

    /// Reads the component at the index, which must be in bounds.
    pub fn get(&self, index: usize) -> (r: u64)
        requires
            index < self@.len(),
        ensures
            r == self@[index as int],
    {
        self.data[index]
    }

    /// Writes the component at the index, which must be in bounds. The
    /// dimension does not change.
    pub fn set(&mut self, index: usize, value: u64)
        requires
            index < old(self)@.len(),
        ensures
            final(self)@ == old(self)@.update(index as int, value),
    {
        self.data.set(index, value);
    }
}

impl Vector for DynamicVector {
    /// Computes the dot product, walking the components of both vectors
    /// up to the shorter dimension: when the dimensions differ, the tail
    /// of the longer operand is ignored rather than rejected. On NaN-free
    /// operands the dot product is commutative bit for bit, and the dot
    /// product of a vector with itself is never negative.
    fn dot(&self, other: &Self) -> (r: u64)
        ensures
            r == dot_spec(self@, other@),
            no_nan_seq(self@) && no_nan_seq(other@) ==> r == dot_spec(other@, self@),
            self@ == other@ ==> (is_nan_bits(r) || !sign_bit(r)),
            self@ == other@ && all_zero_seq(self@) ==> r == 0u64,
    {
        let n = if self.data.len() <= other.data.len() {
            self.data.len()
        } else {
            other.data.len()
        };
        let mut acc: u64 = 0;
        let mut i: usize = 0;
        proof {
            crate::scalar::lemma_zero_pattern();
        }
        while i < n
            invariant
                i <= n,
                n == min_len(self@, other@),
                acc == dot_fold(self@, other@, i as int),
                no_nan_seq(self@) && no_nan_seq(other@) ==> acc == dot_fold(
                    other@,
                    self@,
                    i as int,
                ),
                self@ == other@ ==> (is_nan_bits(acc) || !sign_bit(acc)),
                self@ == other@ && all_zero_seq(self@) ==> acc == 0u64,
            decreases n - i,
        {
            acc = scalar_add(acc, scalar_mul(self.data[i], other.data[i]));
            i = i + 1;
        }
        acc
    }

    /// Computes the magnitude: the square root of the sum of the squares
    /// of the components. The result is never negative: it is a NaN or
    /// has a clear sign bit, and on the all-zero vector it is exactly
    /// positive zero.
    fn magnitude(&self) -> (r: u64)
        ensures
            r == sqrt_bits(dot_spec(self@, self@)),
            is_nan_bits(r) || !sign_bit(r),
            all_zero_seq(self@) ==> r == 0u64,
    {
        let d = self.dot(self);
        scalar_sqrt(d)
    }

    /// Divides each component by the magnitude, giving a vector of the
    /// same dimension. On the all-zero vector every component of the
    /// result is a NaN.
    fn normalize(&self) -> (r: Self)
        ensures
            r@.len() == self@.len(),
            forall|i: int|
                0 <= i < self@.len() ==> r@[i] == div_bits(
                    self@[i],
                    sqrt_bits(dot_spec(self@, self@)),
                ),
    {
        let m = self.magnitude();
        let mut data: Vec<u64> = Vec::with_capacity(self.data.len());
        let mut i: usize = 0;
        while i < self.data.len()
            invariant
                i <= self@.len(),
                data@.len() == i,
                m == sqrt_bits(dot_spec(self@, self@)),
                forall|j: int| 0 <= j < i ==> data@[j] == div_bits(self@[j], m),
            decreases self@.len() - i,
        {
            data.push(scalar_div(self.data[i], m));
            i = i + 1;
        }
        DynamicVector { data }
    }
}

impl PartialEq for DynamicVector {
    /// Componentwise IEEE-754 equality of vectors of equal dimension: a
    /// NaN component makes the vectors unequal, zeros of either sign are
    /// equal, and vectors of different dimensions are never equal.
    fn eq(&self, other: &DynamicVector) -> (r: bool) {
        if self.data.len() != other.data.len() {
            return false;
        }
        let mut i: usize = 0;
        while i < self.data.len()
            invariant
                i <= self@.len(),
                self@.len() == other@.len(),
                forall|j: int| 0 <= j < i ==> eq_bits(self@[j], other@[j]),
            decreases self@.len() - i,
        {
            if !scalar_eq(self.data[i], other.data[i]) {
                return false;
            }
            i = i + 1;
        }
        true
    }
}

impl PartialOrd for DynamicVector {
    /// Lexicographic comparison by component, with IEEE-754 comparison on
    /// each: the first unequal pair decides, a NaN anywhere along the
    /// common prefix makes the vectors incomparable, and when one vector
    /// is a strict prefix of the other, the shorter orders first.
    fn partial_cmp(&self, other: &DynamicVector) -> (r: Option<Ordering>) {
        let n = if self.data.len() <= other.data.len() {
            self.data.len()
        } else {
            other.data.len()
        };
        let mut i: usize = 0;
        while i < n
            invariant
                i <= n,
                n == min_len(self@, other@),
                cmp_seq(self@, other@) == cmp_seq_from(self@, other@, i as int),
            decreases n - i,
        {
            let c = scalar_cmp(self.data[i], other.data[i]);
            match c {
                Some(Ordering::Equal) => {
                    i = i + 1;
                },
                _ => {
                    return c;
                },
            }
        }
        if self.data.len() == other.data.len() {
            Some(Ordering::Equal)
        } else if self.data.len() < other.data.len() {
            Some(Ordering::Less)
        } else {
            Some(Ordering::Greater)
        }
    }
}

impl vstd::std_specs::cmp::PartialOrdSpecImpl for DynamicVector {
    open spec fn obeys_partial_cmp_spec() -> bool {
        true
    }

    open spec fn partial_cmp_spec(&self, other: &DynamicVector) -> Option<Ordering> {
        cmp_seq(self@, other@)
    }
}

impl vstd::std_specs::cmp::PartialEqSpecImpl for DynamicVector {
    open spec fn obeys_eq_spec() -> bool {
        true
    }

    open spec fn eq_spec(&self, other: &DynamicVector) -> bool {
        self@.len() == other@.len() && (forall|i: int|
            0 <= i < self@.len() ==> eq_bits(self@[i], other@[i]))
    }
}

} // verus!
