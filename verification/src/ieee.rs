//! IEEE 754 binary64 values, handled through their raw bit patterns.
//!
//! The drag formulas work on floating-point numbers, which stay outside the
//! verified library. Every discrete question the model asks of such a number
//! is answered here instead, on its bit pattern (`f64::to_bits`): whether it
//! is NaN or finite, how two values are ordered, and what the sanitizing step
//! turns a non-finite component into. The sign, exponent and fraction fields
//! are read arithmetically, by division and remainder with fixed powers of
//! two, so that the field values of literal patterns are plain constants.

use vstd::prelude::*;

verus! {

/// Place value of the sign bit in a binary64 pattern.
pub const SIGN_PLACE: u64 = 0x8000_0000_0000_0000;

/// Place value of the lowest exponent-field bit in a binary64 pattern.
pub const EXP_PLACE: u64 = 0x0010_0000_0000_0000;

/// Exponent-field value reserved for infinities and NaNs.
pub const EXP_SPECIAL: u64 = 0x7FF;

/// The magnitude of a pattern: all bits but the sign.
pub open spec fn magnitude(b: u64) -> u64 {
    b % SIGN_PLACE
}

/// The sign bit of a pattern: true for negative values.
pub open spec fn sign(b: u64) -> bool {
    b / SIGN_PLACE == 1
}

/// The 11-bit exponent field of a pattern.
pub open spec fn exponent(b: u64) -> u64 {
    (b / EXP_PLACE) % 0x800
}

/// The 52-bit fraction field of a pattern.
pub open spec fn fraction(b: u64) -> u64 {
    b % EXP_PLACE
}

/// A NaN pattern: exponent field all ones, nonzero fraction.
pub open spec fn is_nan(b: u64) -> bool {
    exponent(b) == EXP_SPECIAL && fraction(b) != 0
}

/// A finite pattern: anything but an infinity or a NaN.
pub open spec fn is_finite(b: u64) -> bool {
    exponent(b) != EXP_SPECIAL
}

/// A zero pattern, of either sign.
pub open spec fn is_zero(b: u64) -> bool {
    magnitude(b) == 0
}

/// The IEEE `<` order on two patterns. False whenever either side is NaN.
///
/// For non-negative binary64 values the bit-pattern order is the value
/// order (the exponent field stands above the fraction field), and for
/// negative values it is reversed; the two zeros are equal.
pub open spec fn val_lt(a: u64, b: u64) -> bool {
    &&& !is_nan(a)
    &&& !is_nan(b)
    &&& if sign(a) {
        if sign(b) {
            magnitude(a) > magnitude(b)
        } else {
            !(is_zero(a) && is_zero(b))
        }
    } else {
        if sign(b) {
            false
        } else {
            magnitude(a) < magnitude(b)
        }
    }
}

/// The IEEE `==` relation on two patterns: equal bits, or two zeros.
/// False whenever either side is NaN.
pub open spec fn val_eq(a: u64, b: u64) -> bool {
    &&& !is_nan(a)
    &&& !is_nan(b)
    &&& (a == b || (is_zero(a) && is_zero(b)))
}

/// The IEEE `<=` order on two patterns. False whenever either side is NaN.
pub open spec fn val_le(a: u64, b: u64) -> bool {
    val_lt(a, b) || val_eq(a, b)
}

/// True exactly on NaN patterns.
pub fn nan_bits(b: u64) -> (r: bool)
    ensures
        r == is_nan(b),
{
    (b / EXP_PLACE) % 0x800 == EXP_SPECIAL && b % EXP_PLACE != 0
}

/// True exactly on finite patterns.
pub fn finite_bits(b: u64) -> (r: bool)
    ensures
        r == is_finite(b),
{
    (b / EXP_PLACE) % 0x800 != EXP_SPECIAL
}

/// IEEE `<` on bit patterns.
pub fn lt_bits(a: u64, b: u64) -> (r: bool)
    ensures
        r == val_lt(a, b),
{
    if nan_bits(a) || nan_bits(b) {
        false
    } else {
        let negative_a: bool = a / SIGN_PLACE == 1;
        let negative_b: bool = b / SIGN_PLACE == 1;
        let mag_a: u64 = a % SIGN_PLACE;
        let mag_b: u64 = b % SIGN_PLACE;
        if negative_a {
            if negative_b {
                mag_a > mag_b
            } else {
                !(mag_a == 0 && mag_b == 0)
            }
        } else {
            if negative_b {
                false
            } else {
                mag_a < mag_b
            }
        }
    }
}

/// IEEE `<=` on bit patterns.
pub fn le_bits(a: u64, b: u64) -> (r: bool)
    ensures
        r == val_le(a, b),
{
    if nan_bits(a) || nan_bits(b) {
        false
    } else if a == b || (a % SIGN_PLACE == 0 && b % SIGN_PLACE == 0) {
        true
    } else {
        lt_bits(a, b)
    }
}

/// IEEE `>= 0.0` on a bit pattern: a non-NaN pattern with a clear sign
/// bit, or a zero of either sign.
pub fn ge_zero_bits(b: u64) -> (r: bool)
    ensures
        r == val_le(0, b),
{
    if nan_bits(b) {
        false
    } else {
        b / SIGN_PLACE == 0 || b % SIGN_PLACE == 0
    }
}

/// What the sanitizing step leaves of a component: the pattern itself if it
/// is finite, the positive-zero pattern otherwise.
pub open spec fn sanitized(b: u64) -> u64 {
    if is_finite(b) {
        b
    } else {
        0
    }
}

/// The sanitizing step of the drag model: a non-finite intermediate
/// component (infinity or NaN, from a degenerate geometry) is replaced by
/// zero before the components are summed, never propagated or rejected.
pub fn sanitize(b: u64) -> (r: u64)
    ensures
        r == sanitized(b),
        is_finite(r),
        is_finite(b) ==> r == b,
        !is_finite(b) ==> r == 0,
{
    if (b / EXP_PLACE) % 0x800 == EXP_SPECIAL {
        0
    } else {
        b
    }
}

/// The strict and the reverse non-strict order exclude each other: the
/// value order on non-NaN patterns is a total order with the two zeros
/// identified.
pub proof fn lemma_lt_le_exclusive(a: u64, b: u64)
    ensures
        !(val_lt(a, b) && val_le(b, a)),
{
}

/// Any two non-NaN patterns are comparable under the value order.
pub proof fn lemma_le_total(a: u64, b: u64)
    requires
        !is_nan(a),
        !is_nan(b),
    ensures
        val_le(a, b) || val_le(b, a),
{
}

} // verus!
