//! Binary64 values as IEEE-754 bit patterns.
//!
//! A value is carried as the `u64` that `f64::to_bits` gives for it. The
//! encoding is sign-magnitude: the top bit is the sign, and the remaining
//! 63 bits, read as an unsigned integer, order the magnitudes of all non-NaN
//! values (zero, subnormals, normals, infinity) by size. Magnitudes above the
//! pattern of infinity are NaNs. The spec functions below state finiteness and
//! the `<` of binary64 in those terms, the same way vstd's float module reads
//! `is_finite` off the bits.

use vstd::prelude::*;

verus! {

/// The sign bit.
pub const SIGN_BIT: u64 = 0x8000_0000_0000_0000;

/// The pattern of positive infinity; a magnitude above it is a NaN.
pub const INFINITY_BITS: u64 = 0x7ff0_0000_0000_0000;

/// The pattern of `0.0`.
pub const ZERO_BITS: u64 = 0;

/// The pattern of `-0.0`.
pub const NEG_ZERO_BITS: u64 = 0x8000_0000_0000_0000;

/// The pattern of `1.0`.
pub const ONE_BITS: u64 = 0x3ff0_0000_0000_0000;

/// The pattern of `1e-15`, the smallest probability that the features are
/// evaluated at.
pub const LOWER_CLAMP_BITS: u64 = 0x3cd2_03af_9ee7_5616;

/// The pattern of `1.0 - 1e-15` (as binary64 computes it), the largest
/// probability that the features are evaluated at.
pub const UPPER_CLAMP_BITS: u64 = 0x3fef_ffff_ffff_fff7;

/// The magnitude: every bit but the sign.
pub open spec fn magnitude(bits: u64) -> int {
    if bits >= SIGN_BIT {
        bits - SIGN_BIT
    } else {
        bits as int
    }
}

/// Zero, subnormal or normal: neither infinite nor NaN.
pub open spec fn spec_is_finite(bits: u64) -> bool {
    magnitude(bits) < INFINITY_BITS
}

/// A NaN.
pub open spec fn spec_is_nan(bits: u64) -> bool {
    magnitude(bits) > INFINITY_BITS
}

/// The place of a non-NaN value on the number line: `a < b` holds of two
/// non-NaN values exactly when their keys are in that order. Both zeros get
/// the key 0.
pub open spec fn order_key(bits: u64) -> int {
    if bits >= SIGN_BIT {
        -magnitude(bits)
    } else {
        magnitude(bits)
    }
}

/// The binary64 comparison `a < b`, which is false whenever a NaN is involved.
pub open spec fn float_lt(a: u64, b: u64) -> bool {
    !spec_is_nan(a) && !spec_is_nan(b) && order_key(a) < order_key(b)
}

/// A probability: finite, not below `0.0` and not above `1.0`.
pub open spec fn is_probability(bits: u64) -> bool {
    spec_is_finite(bits) && !float_lt(bits, ZERO_BITS) && !float_lt(ONE_BITS, bits)
}

/// `f64::clamp(x, lo, hi)` for `lo <= hi`: `lo` if `x < lo`, `hi` if `x > hi`,
/// and `x` otherwise (a NaN stays itself).
pub open spec fn float_clamp(x: u64, lo: u64, hi: u64) -> u64 {
    if float_lt(x, lo) {
        lo
    } else if float_lt(hi, x) {
        hi
    } else {
        x
    }
}

/// The value clamped into `[1e-15, 1.0 - 1e-15]`.
pub open spec fn clamped_probability(bits: u64) -> u64 {
    float_clamp(bits, LOWER_CLAMP_BITS, UPPER_CLAMP_BITS)
}

/// `f64::is_finite` of the value with these bits.
pub fn is_finite(bits: u64) -> (r: bool)
    ensures
        r == spec_is_finite(bits),
{
    if bits >= SIGN_BIT {
        bits - SIGN_BIT < INFINITY_BITS
    } else {
        bits < INFINITY_BITS
    }
}

/// Whether the value is an acceptable input probability: finite, and neither
/// below `0.0` nor above `1.0`. The accepted patterns are those of `+0.0`
/// through `1.0`, and that of `-0.0`.
pub fn is_valid_probability(bits: u64) -> (r: bool)
    ensures
        r == is_probability(bits),
        r <==> (bits <= ONE_BITS || bits == NEG_ZERO_BITS),
{
    bits <= ONE_BITS || bits == NEG_ZERO_BITS
}

/// `x.clamp(1e-15, 1.0 - 1e-15)` for the value `x` with these bits.
pub fn clamp_probability(bits: u64) -> (r: u64)
    ensures
        r == clamped_probability(bits),
{
    if bits >= SIGN_BIT {
        // Negative values (and -0.0) lie below the lower bound; a NaN stays.
        if bits - SIGN_BIT > INFINITY_BITS {
            bits
        } else {
            LOWER_CLAMP_BITS
        }
    } else if bits < LOWER_CLAMP_BITS {
        LOWER_CLAMP_BITS
    } else if bits > UPPER_CLAMP_BITS {
        if bits > INFINITY_BITS {
            bits
        } else {
            UPPER_CLAMP_BITS
        }
    } else {
        bits
    }
}

/// A finite probability within `[1e-15, 1.0 - 1e-15]`, hence strictly
/// between `0.0` and `1.0`.
pub open spec fn within_clamp_bounds(bits: u64) -> bool {
    &&& is_probability(bits)
    &&& !float_lt(bits, LOWER_CLAMP_BITS)
    &&& !float_lt(UPPER_CLAMP_BITS, bits)
    &&& float_lt(ZERO_BITS, bits)
    &&& float_lt(bits, ONE_BITS)
}

/// Clamping an accepted probability gives a finite probability that lies
/// within `[1e-15, 1.0 - 1e-15]`, strictly between `0.0` and `1.0`, so that
/// the logarithms of the value and of its complement are finite.
pub proof fn lemma_clamped_within_bounds(bits: u64)
    requires
        is_probability(bits),
    ensures
        within_clamp_bounds(clamped_probability(bits)),
{
}

/// Values already inside `[1e-15, 1.0 - 1e-15]` are left as they are.
pub proof fn lemma_clamp_keeps_inner_values(bits: u64)
    requires
        !spec_is_nan(bits),
        !float_lt(bits, LOWER_CLAMP_BITS),
        !float_lt(UPPER_CLAMP_BITS, bits),
    ensures
        clamped_probability(bits) == bits,
{
}

/// Clamping twice is clamping once.
pub proof fn lemma_clamp_idempotent(bits: u64)
    ensures
        clamped_probability(clamped_probability(bits)) == clamped_probability(bits),
{
}

/// Clamping keeps the order of values: it never turns `a < b` around.
pub proof fn lemma_clamp_monotone(a: u64, b: u64)
    requires
        float_lt(a, b),
    ensures
        !float_lt(clamped_probability(b), clamped_probability(a)),
{
}

/// The finite values are exactly the patterns below that of positive
/// infinity, and the same patterns with the sign bit set.
pub proof fn lemma_finite_patterns(bits: u64)
    ensures
        spec_is_finite(bits) <==> (bits < 0x7ff0_0000_0000_0000 || (0x8000_0000_0000_0000 <= bits
            && bits < 0xfff0_0000_0000_0000)),
{
}

/// The accepted probabilities are exactly the patterns of `+0.0` through
/// `1.0`, and that of `-0.0`: every other pattern is negative, above one,
/// infinite or NaN.
pub proof fn lemma_probability_patterns(bits: u64)
    ensures
        is_probability(bits) <==> (bits <= 0x3ff0_0000_0000_0000 || bits == 0x8000_0000_0000_0000),
{
}

/// On accepted probabilities, clamping raises both zeros and everything below
/// `1e-15` to `1e-15`, lowers everything above `1.0 - 1e-15` to it, and keeps
/// the rest.
pub proof fn lemma_clamp_on_probabilities(bits: u64)
    requires
        is_probability(bits),
    ensures
        clamped_probability(bits) == if bits == 0x8000_0000_0000_0000 || bits < 0x3cd2_03af_9ee7_5616 {
            0x3cd2_03af_9ee7_5616u64
        } else if bits > 0x3fef_ffff_ffff_fff7 {
            0x3fef_ffff_ffff_fff7u64
        } else {
            bits
        },
{
}

} // verus!
