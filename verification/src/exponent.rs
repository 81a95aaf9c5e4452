//! The curve exponent as an IEEE-754 binary64 bit pattern.
//!
//! The library never computes with the exponent. It only decides whether the
//! number that a pattern encodes is greater than zero, which the order of the
//! patterns settles: with the sign bit clear, a larger number has a larger
//! pattern, zero has the pattern 0, and the patterns above that of positive
//! infinity encode no number.

use vstd::prelude::*;

verus! {

/// The pattern of positive infinity: sign clear, every exponent bit set,
/// fraction zero.
pub const POSITIVE_INFINITY_BITS: u64 = 0x7FF0_0000_0000_0000;

/// The pattern encodes a number greater than zero: a positive subnormal, a
/// positive normal number or positive infinity.
pub open spec fn is_positive(bits: u64) -> bool {
    0 < bits <= POSITIVE_INFINITY_BITS
}

/// The sign bit of a pattern.
pub open spec fn sign_bit(bits: u64) -> u64 {
    bits >> 63
}

/// The eleven bits of the biased exponent.
pub open spec fn exponent_field(bits: u64) -> u64 {
    (bits >> 52) & 0x7FF
}

/// The fifty-two bits of the fraction.
pub open spec fn fraction_field(bits: u64) -> u64 {
    bits & 0x000F_FFFF_FFFF_FFFF
}

/// The pattern encodes no number: every exponent bit set and a fraction that
/// is not zero.
pub open spec fn is_nan(bits: u64) -> bool {
    exponent_field(bits) == 0x7FF && fraction_field(bits) != 0
}

/// The pattern encodes zero, of either sign.
pub open spec fn is_zero(bits: u64) -> bool {
    exponent_field(bits) == 0 && fraction_field(bits) == 0
}

/// In terms of the fields of the format, the patterns of the numbers greater
/// than zero are those with the sign bit clear that encode neither zero nor
/// no number at all.
pub proof fn lemma_positive_by_fields(bits: u64)
    ensures
        is_positive(bits) <==> sign_bit(bits) == 0 && !is_nan(bits) && !is_zero(bits),
{
    assert((0 < bits && bits <= 0x7FF0_0000_0000_0000) <==> (bits >> 63 == 0 && !(((bits >> 52)
        & 0x7FF) == 0x7FF && (bits & 0x000F_FFFF_FFFF_FFFF) != 0) && !(((bits >> 52) & 0x7FF) == 0
        && (bits & 0x000F_FFFF_FFFF_FFFF) == 0))) by (bit_vector);
}

/// Decides whether the pattern encodes a number greater than zero.
pub fn exponent_is_positive(bits: u64) -> (positive: bool)
    ensures
        positive == is_positive(bits),
{
    0 < bits && bits <= POSITIVE_INFINITY_BITS
}

} // verus!
