//! Classification of IEEE-754 binary64 values given by their bit patterns.
use vstd::prelude::*;

verus! {

/// The sign bit of a binary64 value.
pub const SIGN_BIT: u64 = 0x8000_0000_0000_0000;

/// The bit pattern of negative infinity: the most negative pattern that is not a NaN.
pub const NEG_INFINITY_BITS: u64 = 0xfff0_0000_0000_0000;

/// The sign field: 1 for a negative sign.
pub open spec fn sign_of(bits: u64) -> u64 {
    bits >> 63u64
}

/// The eleven-bit biased exponent field.
pub open spec fn exponent_of(bits: u64) -> u64 {
    (bits >> 52u64) & 0x7ffu64
}

/// The fifty-two-bit mantissa field.
pub open spec fn mantissa_of(bits: u64) -> u64 {
    bits & 0x000f_ffff_ffff_ffffu64
}

/// A NaN: every exponent bit set and a non-zero mantissa.
pub open spec fn is_nan_bits(bits: u64) -> bool {
    exponent_of(bits) == 0x7ff && mantissa_of(bits) != 0
}

/// `x == 0.0` holds exactly for the zeros of either sign: exponent and mantissa
/// both zero.
pub open spec fn is_zero_bits(bits: u64) -> bool {
    exponent_of(bits) == 0 && mantissa_of(bits) == 0
}

/// `x < 0.0` holds exactly for a value with its sign set that is neither a zero
/// nor a NaN.
pub open spec fn is_negative_bits(bits: u64) -> bool {
    sign_of(bits) == 1 && !is_zero_bits(bits) && !is_nan_bits(bits)
}

/// Whether the value with these bits compares equal to zero.
pub fn is_zero(bits: u64) -> (r: bool)
    ensures
        r == is_zero_bits(bits),
{
    assert((bits == 0 || bits == 0x8000_0000_0000_0000u64) == (
        (bits >> 52u64) & 0x7ffu64 == 0
        && bits & 0x000f_ffff_ffff_ffffu64 == 0
    )) by (bit_vector);
    bits == 0 || bits == SIGN_BIT
}

/// Whether the value with these bits compares less than zero: the patterns
/// strictly above negative zero, up to and including negative infinity.
pub fn is_negative(bits: u64) -> (r: bool)
    ensures
        r == is_negative_bits(bits),
{
    assert((0x8000_0000_0000_0000u64 < bits && bits <= 0xfff0_0000_0000_0000u64) == (
        bits >> 63u64 == 1
        && !((bits >> 52u64) & 0x7ffu64 == 0 && bits & 0x000f_ffff_ffff_ffffu64 == 0)
        && !((bits >> 52u64) & 0x7ffu64 == 0x7ff && bits & 0x000f_ffff_ffff_ffffu64 != 0)
    )) by (bit_vector);
    SIGN_BIT < bits && bits <= NEG_INFINITY_BITS
}

} // verus!
