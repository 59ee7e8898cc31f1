//! An `f64` held by its IEEE-754 bit pattern, with the comparison that `==` on `f64` performs.
use vstd::prelude::*;

verus! {

/// Mask that clears the sign bit of a binary64 pattern.
pub const MAGNITUDE_MASK: u64 = 0x7fff_ffff_ffff_ffffu64;

/// Bit pattern of positive infinity; every magnitude above it is a NaN.
pub const INFINITY_BITS: u64 = 0x7ff0_0000_0000_0000u64;

/// Bit pattern of the sign bit alone, that is of `-0.0`.
pub const NEGATIVE_ZERO_BITS: u64 = 0x8000_0000_0000_0000u64;

/// A double-precision value, stored as its IEEE-754 binary64 bit pattern.
#[derive(Clone, Copy, Debug)]
pub struct F64Bits {
    pub bits: u64,
}

/// The magnitude (the pattern with the sign bit cleared).
pub open spec fn magnitude(bits: u64) -> u64 {
    bits & MAGNITUDE_MASK
}

/// The pattern encodes a NaN: all exponent bits set and a non-zero mantissa.
pub open spec fn is_nan_bits(bits: u64) -> bool {
    magnitude(bits) > INFINITY_BITS
}

/// The pattern encodes `+0.0` or `-0.0`.
pub open spec fn is_zero_bits(bits: u64) -> bool {
    magnitude(bits) == 0
}

/// IEEE-754 equality of two binary64 patterns, as `==` on `f64` decides it:
/// a NaN equals nothing, the two zeros are equal, and otherwise the patterns must agree.
pub open spec fn float_eq_bits(a: u64, b: u64) -> bool {
    &&& !is_nan_bits(a)
    &&& !is_nan_bits(b)
    &&& (a == b || (is_zero_bits(a) && is_zero_bits(b)))
}

impl F64Bits {
    /// Wraps a bit pattern.
    pub fn from_bits(bits: u64) -> (r: F64Bits)
        ensures
            r.bits == bits,
    {
        F64Bits { bits }
    }

    /// `+0.0`, the default value of an `f64`.
    pub fn zero() -> (r: F64Bits)
        ensures
            r.bits == 0,
            is_zero_bits(r.bits),
    {
        assert(0u64 & MAGNITUDE_MASK == 0) by (bit_vector);
        F64Bits { bits: 0 }
    }

    /// Whether the value is a NaN.
    pub fn is_nan(&self) -> (r: bool)
        ensures
            r == is_nan_bits(self.bits),
    {
        (self.bits & MAGNITUDE_MASK) > INFINITY_BITS
    }

    /// Whether the value is `+0.0` or `-0.0`.
    pub fn is_zero(&self) -> (r: bool)
        ensures
            r == is_zero_bits(self.bits),
    {
        (self.bits & MAGNITUDE_MASK) == 0
    }

    /// `self == other` as `f64` compares.
    pub fn float_eq(&self, other: &F64Bits) -> (r: bool)
        ensures
            r == float_eq_bits(self.bits, other.bits),
    {
        if self.is_nan() || other.is_nan() {
            false
        } else {
            self.bits == other.bits || (self.is_zero() && other.is_zero())
        }
    }
}

/// Float equality is symmetric.
pub proof fn lemma_float_eq_symmetric(a: u64, b: u64)
    ensures
        float_eq_bits(a, b) == float_eq_bits(b, a),
{
}

/// A value equals itself exactly when it is not a NaN.
pub proof fn lemma_float_eq_reflexive_unless_nan(a: u64)
    ensures
        float_eq_bits(a, a) <==> !is_nan_bits(a),
{
}

/// A NaN equals no value, itself included.
pub proof fn lemma_nan_equals_nothing(a: u64, b: u64)
    requires
        is_nan_bits(a) || is_nan_bits(b),
    ensures
        !float_eq_bits(a, b),
{
}

/// Float equality is transitive.
pub proof fn lemma_float_eq_transitive(a: u64, b: u64, c: u64)
    requires
        float_eq_bits(a, b),
        float_eq_bits(b, c),
    ensures
        float_eq_bits(a, c),
{
}

/// `+0.0` and `-0.0` compare equal although their patterns differ.
pub proof fn lemma_signed_zeros_equal()
    ensures
        float_eq_bits(0, NEGATIVE_ZERO_BITS),
        0u64 != NEGATIVE_ZERO_BITS,
{
    assert(0u64 & 0x7fff_ffff_ffff_ffffu64 == 0) by (bit_vector);
    assert(0x8000_0000_0000_0000u64 & 0x7fff_ffff_ffff_ffffu64 == 0) by (bit_vector);
}


/// A pattern is a NaN exactly when its exponent field (bits 52..62) is all ones and its
/// mantissa field (bits 0..51) is not zero.
pub proof fn lemma_nan_is_max_exponent_nonzero_mantissa(a: u64)
    ensures
        is_nan_bits(a) <==> ((a >> 52u64) & 0x7ffu64 == 0x7ffu64 && a & 0x000f_ffff_ffff_ffffu64
            != 0),
{
    assert(((a & 0x7fff_ffff_ffff_ffffu64) > 0x7ff0_0000_0000_0000u64) <==> ((a >> 52u64)
        & 0x7ffu64 == 0x7ffu64 && a & 0x000f_ffff_ffff_ffffu64 != 0)) by (bit_vector);
}

/// A pattern is a zero exactly when its exponent and mantissa fields are both zero, whatever
/// its sign bit.
pub proof fn lemma_zero_is_clear_exponent_and_mantissa(a: u64)
    ensures
        is_zero_bits(a) <==> ((a >> 52u64) & 0x7ffu64 == 0 && a & 0x000f_ffff_ffff_ffffu64 == 0),
{
    assert(((a & 0x7fff_ffff_ffff_ffffu64) == 0) <==> ((a >> 52u64) & 0x7ffu64 == 0 && a
        & 0x000f_ffff_ffff_ffffu64 == 0)) by (bit_vector);
}

} // verus!
