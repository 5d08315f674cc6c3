//! Single-precision values travel through the controller as their IEEE-754
//! bit patterns, held in `u32`. This module gives the bit-level facts the
//! rest of the library needs: finiteness, the order of non-NaN values, and
//! the clamp that follows that order. Arithmetic on the encoded values is
//! left to the unverified shell around the library.

use vstd::prelude::*;

verus! {

/// Bit pattern of positive zero.
pub const F32_POS_ZERO_BITS: u32 = 0;

/// Bit pattern of positive infinity.
pub const F32_POS_INF_BITS: u32 = 0x7F80_0000;

/// The exponent field of a single-precision bit pattern.
pub open spec fn exponent_field(bits: u32) -> u32 {
    (bits >> 23) & 0xFF
}

/// A single-precision value is finite exactly when its exponent field is not
/// all ones; all ones encodes an infinity or a NaN.
pub open spec fn is_finite_bits(bits: u32) -> bool {
    exponent_field(bits) != 0xFF
}

/// A NaN has an all-ones exponent field and a non-zero mantissa field.
pub open spec fn is_nan_bits(bits: u32) -> bool {
    exponent_field(bits) == 0xFF && bits & 0x007F_FFFF != 0
}

/// The magnitude of a bit pattern: everything but the sign bit.
pub open spec fn magnitude_field(bits: u32) -> u32 {
    bits & 0x7FFF_FFFF
}

/// Whether the sign bit is set.
pub open spec fn sign_field(bits: u32) -> bool {
    bits >> 31 == 1
}

/// Order key of a non-NaN value: single-precision values outside NaN compare
/// exactly like their sign-magnitude reading as an integer, with both zeroes
/// mapping to the same key.
pub open spec fn order_key(bits: u32) -> int {
    if sign_field(bits) {
        -(magnitude_field(bits) as int)
    } else {
        magnitude_field(bits) as int
    }
}

/// The IEEE `<` on two encoded values; false whenever either is a NaN.
pub open spec fn lt_bits(a: u32, b: u32) -> bool {
    !is_nan_bits(a) && !is_nan_bits(b) && order_key(a) < order_key(b)
}

/// The clamp of `x` to `[min, max]`, following the IEEE comparisons: `min`
/// when `x` compares below `min`, `max` when `x` compares above `max`,
/// otherwise `x` itself (in particular a NaN stays a NaN).
pub open spec fn clamp_bits(x: u32, min: u32, max: u32) -> u32 {
    if lt_bits(x, min) {
        min
    } else if lt_bits(max, x) {
        max
    } else {
        x
    }
}

/// Whether the encoded value is finite.
pub fn is_finite(bits: u32) -> (r: bool)
    ensures
        r == is_finite_bits(bits),
{
    (bits >> 23u32) & 0xFF != 0xFF
}

/// Whether the encoded value is a NaN.
pub fn is_nan(bits: u32) -> (r: bool)
    ensures
        r == is_nan_bits(bits),
{
    (bits >> 23u32) & 0xFF == 0xFF && bits & 0x007F_FFFF != 0
}

/// The order key of an encoded value as a machine integer.
fn order_key_i64(bits: u32) -> (r: i64)
    ensures
        r as int == order_key(bits),
{
    let magnitude: u32 = bits & 0x7FFF_FFFF;
    assert(bits & 0x7FFF_FFFFu32 <= 0x7FFF_FFFF) by (bit_vector);
    if bits >> 31u32 == 1 {
        -(magnitude as i64)
    } else {
        magnitude as i64
    }
}

/// The IEEE `<` on two encoded values.
pub fn lt(a: u32, b: u32) -> (r: bool)
    ensures
        r == lt_bits(a, b),
{
    if is_nan(a) || is_nan(b) {
        false
    } else {
        order_key_i64(a) < order_key_i64(b)
    }
}

/// The clamp of an encoded value to an encoded range, as the standard
/// library's clamp on floats computes it.
pub fn clamp(x: u32, min: u32, max: u32) -> (r: u32)
    requires
        !is_nan_bits(min),
        !is_nan_bits(max),
        order_key(min) <= order_key(max),
    ensures
        r == clamp_bits(x, min, max),
{
    if lt(x, min) {
        min
    } else if lt(max, x) {
        max
    } else {
        x
    }
}

/// The encoded value unchanged when it is finite, positive zero otherwise.
/// This never returns an infinity or a NaN.
pub fn finite_or_zero(bits: u32) -> (r: u32)
    ensures
        r == if is_finite_bits(bits) { bits } else { F32_POS_ZERO_BITS },
        is_finite_bits(r),
{
    if is_finite(bits) {
        bits
    } else {
        assert(is_finite_bits(0u32)) by (bit_vector);
        F32_POS_ZERO_BITS
    }
}

} // verus!
