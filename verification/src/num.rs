//! Scalars carried as IEEE 754 binary64 bit patterns.
//!
//! The library never computes with the numeric values themselves; it carries
//! each one as the `u64` bit pattern of its binary64 encoding.  The operations
//! that are exact bit manipulations on that encoding — negation, the NaN test,
//! ordering of non-NaN values, minimum and maximum — are implemented here and
//! verified against spec-level definitions.  Rounding arithmetic and decimal
//! formatting are left to the host (see the `host` module).

use vstd::prelude::*;

verus! {

/// Sign bit of a binary64 bit pattern.
pub const SIGN_MASK: u64 = 0x8000_0000_0000_0000;
/// Exponent field of a binary64 bit pattern.
pub const EXP_MASK: u64 = 0x7FF0_0000_0000_0000;
/// Fraction field of a binary64 bit pattern.
pub const FRAC_MASK: u64 = 0x000F_FFFF_FFFF_FFFF;
/// Bit pattern of positive infinity.
pub const POS_INFINITY: u64 = 0x7FF0_0000_0000_0000;
/// Bit pattern of negative infinity.
pub const NEG_INFINITY: u64 = 0xFFF0_0000_0000_0000;
/// Bit pattern of positive zero.
pub const ZERO_BITS: u64 = 0;
/// Bit pattern of 1.0.
pub const ONE_BITS: u64 = 0x3FF0_0000_0000_0000;

/// A bit pattern encodes NaN exactly when its exponent field is all ones and
/// its fraction field is non-zero.
pub open spec fn spec_is_nan(a: u64) -> bool {
    a & EXP_MASK == EXP_MASK && a & FRAC_MASK != 0
}

/// An unsigned key whose order agrees with the numeric order of the non-NaN
/// binary64 values; the two zeroes collapse onto one key, as they compare
/// equal numerically.
pub open spec fn spec_order_key(a: u64) -> u64 {
    let z = if a == SIGN_MASK {
        0u64
    } else {
        a
    };
    if z & SIGN_MASK != 0 {
        !z
    } else {
        z | SIGN_MASK
    }
}

/// Numeric `<=` on two non-NaN bit patterns.
pub open spec fn spec_le(a: u64, b: u64) -> bool {
    spec_order_key(a) <= spec_order_key(b)
}

/// The minimum of two bit patterns, with NaN ignored in favour of the other
/// operand, as the standard binary64 minimum-number operation has it.
pub open spec fn spec_min(a: u64, b: u64) -> u64 {
    if spec_is_nan(a) {
        b
    } else if spec_is_nan(b) {
        a
    } else if spec_le(a, b) {
        a
    } else {
        b
    }
}

/// The maximum of two bit patterns, with NaN ignored in favour of the other
/// operand.
pub open spec fn spec_max(a: u64, b: u64) -> u64 {
    if spec_is_nan(a) {
        b
    } else if spec_is_nan(b) {
        a
    } else if spec_le(b, a) {
        a
    } else {
        b
    }
}

/// Negation of a binary64 value: the sign bit flips, nothing else changes.
pub open spec fn spec_neg(a: u64) -> u64 {
    a ^ SIGN_MASK
}

/// NaN test on a bit pattern.
pub fn is_nan_bits(a: u64) -> (r: bool)
    ensures
        r == spec_is_nan(a),
{
    a & EXP_MASK == EXP_MASK && a & FRAC_MASK != 0
}

/// Numeric `<=` on two non-NaN bit patterns.
pub fn le_bits(a: u64, b: u64) -> (r: bool)
    ensures
        r == spec_le(a, b),
{
    let za: u64 = if a == SIGN_MASK {
        0
    } else {
        a
    };
    let zb: u64 = if b == SIGN_MASK {
        0
    } else {
        b
    };
    let ka: u64 = if za & SIGN_MASK != 0 {
        !za
    } else {
        za | SIGN_MASK
    };
    let kb: u64 = if zb & SIGN_MASK != 0 {
        !zb
    } else {
        zb | SIGN_MASK
    };
    ka <= kb
}

/// Minimum of two bit patterns.
pub fn min_bits(a: u64, b: u64) -> (r: u64)
    ensures
        r == spec_min(a, b),
{
    if is_nan_bits(a) {
        b
    } else if is_nan_bits(b) {
        a
    } else if le_bits(a, b) {
        a
    } else {
        b
    }
}

/// Maximum of two bit patterns.
pub fn max_bits(a: u64, b: u64) -> (r: u64)
    ensures
        r == spec_max(a, b),
{
    if is_nan_bits(a) {
        b
    } else if is_nan_bits(b) {
        a
    } else if le_bits(b, a) {
        a
    } else {
        b
    }
}

/// Negation: flip the sign bit.
pub fn neg_bits(a: u64) -> (r: u64)
    ensures
        r == spec_neg(a),
{
    a ^ SIGN_MASK
}

} // verus!
