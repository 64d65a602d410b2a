//! Numbers of the design tokens.
//!
//! Token sizes are single-precision numbers that the library only hands on:
//! it never computes with them. They are held by their IEEE 754 bit pattern,
//! which keeps every value, the negative ones and the ones that are no number
//! included, apart from every other.

use vstd::prelude::*;
use vstd::arithmetic::power2::{lemma2_to64, pow2};

verus! {

/// Bit pattern of the single-precision number 16.
pub const SIXTEEN_BITS: u32 = 0x4180_0000;

/// Bit pattern of the single-precision number 0.
pub const ZERO_BITS: u32 = 0x0000_0000;

/// A single-precision number in logical units, as a configuration holds it.
#[derive(Debug, Clone, Copy, PartialEq, Eq, Structural)]
pub struct Scalar {
    /// The IEEE 754 bit pattern of the number.
    pub bits: u32,
}

/// A length in the toolkit's pixel unit, as the theme holds it.
#[derive(Debug, Clone, Copy, PartialEq, Eq, Structural)]
pub struct Pixels {
    /// The IEEE 754 bit pattern of the length.
    pub bits: u32,
}

impl Scalar {
    /// The number with the given bit pattern.
    pub fn from_bits(bits: u32) -> (value: Self)
        ensures
            value.bits == bits,
    {
        Scalar { bits }
    }

    /// The bit pattern of the number.
    pub fn to_bits(self) -> (bits: u32)
        ensures
            bits == self.bits,
    {
        self.bits
    }
}

impl Pixels {
    /// The length with the given bit pattern.
    pub fn from_bits(bits: u32) -> (length: Self)
        ensures
            length.bits == bits,
    {
        Pixels { bits }
    }

    /// The bit pattern of the length.
    pub fn to_bits(self) -> (bits: u32)
        ensures
            bits == self.bits,
    {
        self.bits
    }
}

/// Whether the sign bit of a bit pattern is set.
pub open spec fn sign_bit(bits: u32) -> bool {
    bits >> 31 == 1
}

/// The exponent field of a bit pattern: bits 23 to 30.
pub open spec fn exponent_field(bits: u32) -> nat {
    ((bits >> 23) & 0xff) as nat
}

/// The fraction field of a bit pattern: bits 0 to 22.
pub open spec fn fraction_field(bits: u32) -> nat {
    (bits & 0x7f_ffff) as nat
}

/// Whether a bit pattern, read as an IEEE 754 single-precision number, is the
/// whole number `n` with the sign bit clear.
///
/// A finite pattern stands for its significand times a power of two: the
/// fraction with the hidden bit in front and the exponent field less 150,
/// or, where the exponent field is zero, the bare fraction and -149.
pub open spec fn is_whole_number(bits: u32, n: nat) -> bool {
    let exponent = exponent_field(bits);
    let significand = if exponent == 0 {
        fraction_field(bits)
    } else {
        0x80_0000 + fraction_field(bits)
    };
    let scale = if exponent == 0 {
        1
    } else {
        exponent
    };
    &&& !sign_bit(bits)
    &&& exponent != 0xff
    &&& if scale >= 150 {
        n == significand * pow2((scale - 150) as nat)
    } else {
        significand == n * pow2((150 - scale) as nat)
    }
}

/// The two bit patterns that the default configuration uses are those of the
/// numbers 16 and 0.
pub proof fn lemma_default_sizes_are_sixteen_and_zero()
    ensures
        is_whole_number(SIXTEEN_BITS, 16),
        is_whole_number(ZERO_BITS, 0),
{
    assert(0x4180_0000u32 >> 31 == 0) by (bit_vector);
    assert((0x4180_0000u32 >> 23) & 0xff == 131) by (bit_vector);
    assert(0x4180_0000u32 & 0x7f_ffff == 0) by (bit_vector);
    assert(0u32 >> 31 == 0) by (bit_vector);
    assert((0u32 >> 23) & 0xff == 0) by (bit_vector);
    assert(0u32 & 0x7f_ffff == 0) by (bit_vector);
    lemma2_to64();
    assert(pow2(19) == 0x8_0000);
}

/// The length of as many pixels as the number says.
pub open spec fn spec_px(value: Scalar) -> Pixels {
    Pixels { bits: value.bits }
}

/// Converts a number of logical units to the toolkit's pixel unit. The number
/// is kept as it is: nothing is rounded, clamped or rejected.
#[verifier::when_used_as_spec(spec_px)]
pub fn px(value: Scalar) -> (length: Pixels)
    ensures
        length == spec_px(value),
{
    Pixels { bits: value.bits }
}

} // verus!
