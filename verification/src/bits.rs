//! Exact operations on IEEE-754 single-precision bit patterns.
//!
//! A `u32` holds the raw bits of a single-precision value. For two patterns
//! that do not encode a NaN, the signed integer `order_key` orders them
//! exactly as the encoded values are ordered: the key is the magnitude part
//! of the pattern, negated when the sign bit is set, so the two zero
//! patterns share the key `0`. On top of the key this module proves exact
//! comparison, absolute value and maximum selection — the only pieces of
//! single-precision behaviour the analyzer core needs, since every rounding
//! operation stays with the embedding layer.

use vstd::prelude::*;

verus! {

/// The sign bit of a single-precision pattern.
pub const SIGN_MASK: u32 = 0x8000_0000;

/// Exponent and fraction of a single-precision pattern.
pub const MAGNITUDE_MASK: u32 = 0x7fff_ffff;

/// Magnitude of positive infinity; every greater magnitude encodes a NaN.
pub const INFINITY_MAGNITUDE: u32 = 0x7f80_0000;

/// The pattern of `1.0`.
pub const ONE_BITS: u32 = 0x3f80_0000;

/// The pattern of `0.0` with a positive sign.
pub const ZERO_BITS: u32 = 0x0000_0000;

/// Whether the sign bit of `b` is set.
pub open spec fn sign_of(b: u32) -> bool {
    b & SIGN_MASK != 0
}

/// The magnitude part of `b`: its pattern with the sign bit cleared.
pub open spec fn mag_of(b: u32) -> u32 {
    b & MAGNITUDE_MASK
}

/// Whether `b` encodes a NaN: a magnitude beyond positive infinity.
pub open spec fn is_nan_of(b: u32) -> bool {
    mag_of(b) > INFINITY_MAGNITUDE
}

/// The ordering key of `b`. For patterns that are not NaN, the encoded
/// values compare exactly as their keys do, and the keys of `0.0` and
/// `-0.0` coincide.
pub open spec fn order_key(b: u32) -> int {
    if sign_of(b) {
        -(mag_of(b) as int)
    } else {
        mag_of(b) as int
    }
}

/// Strict order on patterns: false whenever either side is NaN, as for the
/// encoded values.
pub open spec fn lt_of(a: u32, b: u32) -> bool {
    &&& !is_nan_of(a)
    &&& !is_nan_of(b)
    &&& order_key(a) < order_key(b)
}

/// Non-strict order on patterns: false whenever either side is NaN.
pub open spec fn le_of(a: u32, b: u32) -> bool {
    &&& !is_nan_of(a)
    &&& !is_nan_of(b)
    &&& order_key(a) <= order_key(b)
}

/// Value equality of patterns: key equality of non-NaN patterns, so the two
/// zero patterns are equal and a NaN equals nothing.
pub open spec fn eq_of(a: u32, b: u32) -> bool {
    &&& !is_nan_of(a)
    &&& !is_nan_of(b)
    &&& order_key(a) == order_key(b)
}

/// The greater pattern; a NaN loses to the other side, and of two patterns
/// with equal keys the first is kept.
pub open spec fn max_of(a: u32, b: u32) -> u32 {
    if is_nan_of(a) {
        b
    } else if is_nan_of(b) {
        a
    } else if order_key(a) < order_key(b) {
        b
    } else {
        a
    }
}

/// A pattern strictly between `0.0` and `1.0`.
pub open spec fn in_unit_open_of(b: u32) -> bool {
    lt_of(ZERO_BITS, b) && lt_of(b, ONE_BITS)
}

/// The sign bit is set exactly on the patterns at or above `SIGN_MASK`.
proof fn lemma_sign_test(b: u32)
    by (bit_vector)
    ensures
        (b & 0x8000_0000u32 != 0) == (b >= 0x8000_0000u32),
{
}

/// Clearing the sign bit leaves a sign-free pattern with the same magnitude.
proof fn lemma_magnitude_mask(b: u32)
    by (bit_vector)
    ensures
        (b & 0x7fff_ffffu32) & 0x8000_0000u32 == 0,
        (b & 0x7fff_ffffu32) & 0x7fff_ffffu32 == b & 0x7fff_ffffu32,
{
}

/// Splitting a pattern at the sign bit: the sign test is a plain
/// comparison, and the magnitude a plain subtraction, so the ordering key
/// of any concrete pattern reduces to integer arithmetic.
pub proof fn lemma_sign_split(b: u32)
    by (bit_vector)
    ensures
        (b & 0x8000_0000u32 != 0) == (b >= 0x8000_0000u32),
        b < 0x8000_0000u32 ==> b & 0x7fff_ffffu32 == b,
        b >= 0x8000_0000u32 ==> b & 0x7fff_ffffu32 == b - 0x8000_0000u32,
{
}

/// The magnitude part of a pattern is itself sign-free with the same
/// magnitude, so it encodes a NaN exactly when the pattern does, and its
/// ordering key is the magnitude itself.
pub proof fn lemma_mag_of_properties(b: u32)
    ensures
        !sign_of(mag_of(b)),
        mag_of(mag_of(b)) == mag_of(b),
        is_nan_of(mag_of(b)) == is_nan_of(b),
        order_key(mag_of(b)) == mag_of(b) as int,
{
    lemma_magnitude_mask(b);
}

/// Whether `b` encodes a NaN.
pub fn is_nan_bits(b: u32) -> (r: bool)
    ensures
        r == is_nan_of(b),
{
    (b & MAGNITUDE_MASK) > INFINITY_MAGNITUDE
}

/// The pattern of the absolute value of `b`: the sign bit cleared, the
/// magnitude kept, exactly as single-precision absolute value behaves.
pub fn abs_bits(b: u32) -> (r: u32)
    ensures
        r == mag_of(b),
        !sign_of(r),
        mag_of(r) == mag_of(b),
        is_nan_of(r) == is_nan_of(b),
        !is_nan_of(b) ==> order_key(r) == mag_of(b) as int,
{
    proof {
        lemma_magnitude_mask(b);
    }
    b & MAGNITUDE_MASK
}

/// Strict comparison of patterns, exactly as the encoded values compare:
/// false on any NaN, sign handled first, magnitudes compared within a sign,
/// and the two zeros equal.
pub fn lt_bits(a: u32, b: u32) -> (r: bool)
    ensures
        r == lt_of(a, b),
{
    if is_nan_bits(a) || is_nan_bits(b) {
        false
    } else {
        let negative_a = a >= SIGN_MASK;
        let negative_b = b >= SIGN_MASK;
        let mag_a = a & MAGNITUDE_MASK;
        let mag_b = b & MAGNITUDE_MASK;
        proof {
            lemma_sign_test(a);
            lemma_sign_test(b);
        }
        if negative_a != negative_b {
            negative_a && (mag_a != 0 || mag_b != 0)
        } else if negative_a {
            mag_b < mag_a
        } else {
            mag_a < mag_b
        }
    }
}

/// Non-strict comparison of patterns: false on any NaN.
pub fn le_bits(a: u32, b: u32) -> (r: bool)
    ensures
        r == le_of(a, b),
{
    if is_nan_bits(a) || is_nan_bits(b) {
        false
    } else {
        !lt_bits(b, a)
    }
}

/// Value equality of patterns: false on any NaN, true on the two zeros.
pub fn eq_bits(a: u32, b: u32) -> (r: bool)
    ensures
        r == eq_of(a, b),
{
    if is_nan_bits(a) || is_nan_bits(b) {
        false
    } else {
        let mag_a = a & MAGNITUDE_MASK;
        let mag_b = b & MAGNITUDE_MASK;
        proof {
            lemma_sign_test(a);
            lemma_sign_test(b);
        }
        if mag_a != mag_b {
            false
        } else {
            mag_a == 0 || (a >= SIGN_MASK) == (b >= SIGN_MASK)
        }
    }
}

/// The greater of two patterns, exactly as the single-precision maximum
/// selects it: a NaN loses to the other side; of two equal values the first
/// is kept, so the result can differ from the other choice only in the sign
/// of a zero.
pub fn max_bits(a: u32, b: u32) -> (r: u32)
    ensures
        r == max_of(a, b),
{
    if is_nan_bits(a) {
        b
    } else if is_nan_bits(b) {
        a
    } else if lt_bits(a, b) {
        b
    } else {
        a
    }
}

/// Whether `b` lies strictly between `0.0` and `1.0`.
pub fn in_unit_open_bits(b: u32) -> (r: bool)
    ensures
        r == in_unit_open_of(b),
{
    lt_bits(ZERO_BITS, b) && lt_bits(b, ONE_BITS)
}

} // verus!
