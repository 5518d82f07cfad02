//! Facts about single 32-bit lanes read as IEEE-754 single-precision values.
use vstd::prelude::*;

verus! {

/// The sign bit of a lane.
pub const SIGN_BIT: u32 = 0x8000_0000;

/// Every bit of a lane but the sign bit.
pub const MAGNITUDE_BITS: u32 = 0x7FFF_FFFF;

/// The exponent field of a lane.
pub const EXPONENT_BITS: u32 = 0x7F80_0000;

/// The fraction field of a lane.
pub const FRACTION_BITS: u32 = 0x007F_FFFF;

/// A lane that encodes a NaN: all exponent bits set and a non-zero fraction.
pub open spec fn is_nan(x: u32) -> bool {
    &&& x & EXPONENT_BITS == EXPONENT_BITS
    &&& x & FRACTION_BITS != 0
}

/// A lane that encodes positive or negative zero.
pub open spec fn is_zero(x: u32) -> bool {
    x & MAGNITUDE_BITS == 0
}

/// IEEE-754 equality of two lanes: no NaN equals anything, the two zeros are
/// equal, and otherwise equal values have equal encodings.
pub open spec fn float_eq(x: u32, y: u32) -> bool {
    &&& !is_nan(x)
    &&& !is_nan(y)
    &&& (x == y || (is_zero(x) && is_zero(y)))
}

/// The lane chosen by a mask lane `s`: the bits of `a` where `s` has them
/// set, those of `b` elsewhere.
pub open spec fn blend(s: u32, a: u32, b: u32) -> u32 {
    (s & a) | (!s & b)
}

/// A mask lane that is all ones picks the first lane, one that is all zeros
/// the second.
pub proof fn lemma_blend_full_or_empty(a: u32, b: u32)
    ensures
        blend(0xFFFF_FFFF, a, b) == a,
        blend(0, a, b) == b,
{
    assert((0xFFFF_FFFFu32 & a) | (!0xFFFF_FFFFu32 & b) == a) by (bit_vector);
    assert((0u32 & a) | (!0u32 & b) == b) by (bit_vector);
}

/// A mask of all ones keeps a lane, one of all zeros clears it.
pub proof fn lemma_and_full_or_empty(x: u32)
    ensures
        x & 0xFFFF_FFFF == x,
        x & 0 == 0,
{
    assert(x & 0xFFFF_FFFF == x) by (bit_vector);
    assert(x & 0 == 0) by (bit_vector);
}

/// Flipping the sign bit twice gives the lane back, and xor with zero
/// changes nothing.
pub proof fn lemma_flip_sign_twice(x: u32)
    ensures
        (x ^ SIGN_BIT) ^ SIGN_BIT == x,
        x ^ 0 == x,
{
    assert((x ^ 0x8000_0000u32) ^ 0x8000_0000u32 == x) by (bit_vector);
    assert(x ^ 0 == x) by (bit_vector);
}

/// Clearing the sign bit twice is clearing it once.
pub proof fn lemma_clear_sign_twice(x: u32)
    ensures
        (x & MAGNITUDE_BITS) & MAGNITUDE_BITS == x & MAGNITUDE_BITS,
{
    assert((x & 0x7FFF_FFFFu32) & 0x7FFF_FFFFu32 == x & 0x7FFF_FFFFu32) by (bit_vector);
}

} // verus!
