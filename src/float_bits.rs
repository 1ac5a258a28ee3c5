//! IEEE-754 binary64 comparisons performed on raw bit patterns.
use vstd::prelude::*;

verus! {

/// The sign bit of a binary64 bit pattern.
pub const SIGN_BIT: u64 = 0x8000_0000_0000_0000;

/// The bit pattern of positive infinity; larger magnitudes are NaN.
pub const INFINITY_BITS: u64 = 0x7FF0_0000_0000_0000;

/// Whether the sign bit is set.
pub open spec fn is_negative(b: u64) -> bool {
    b >= SIGN_BIT
}

/// The pattern with its sign bit cleared: exponent and fraction.
pub open spec fn magnitude(b: u64) -> int {
    if is_negative(b) {
        b - SIGN_BIT
    } else {
        b as int
    }
}

/// Whether the pattern encodes a NaN (all exponent bits set, fraction non-zero).
pub open spec fn is_nan(b: u64) -> bool {
    magnitude(b) > INFINITY_BITS
}

/// A position on the number line: for non-NaN patterns, `a < b` as floats
/// exactly when `ordinal(a) < ordinal(b)`. Both zeros sit at 0.
pub open spec fn ordinal(b: u64) -> int {
    if is_negative(b) {
        -magnitude(b)
    } else {
        magnitude(b)
    }
}

/// The float `a` is strictly greater than the float `b` (false when either is NaN).
pub open spec fn float_gt(a: u64, b: u64) -> bool {
    !is_nan(a) && !is_nan(b) && ordinal(a) > ordinal(b)
}

/// The float `a` is strictly less than the float `b` (false when either is NaN).
pub open spec fn float_lt(a: u64, b: u64) -> bool {
    float_gt(b, a)
}

fn magnitude_of(b: u64) -> (r: u64)
    ensures
        r == magnitude(b),
        r < SIGN_BIT,
{
    if b >= SIGN_BIT {
        b - SIGN_BIT
    } else {
        b
    }
}

/// Compares two binary64 values, given as bit patterns, with `>`.
pub fn bits_gt(a: u64, b: u64) -> (r: bool)
    ensures
        r == float_gt(a, b),
{
    let ma = magnitude_of(a);
    let mb = magnitude_of(b);
    if ma > INFINITY_BITS || mb > INFINITY_BITS {
        return false;
    }
    let na = a >= SIGN_BIT;
    let nb = b >= SIGN_BIT;
    if !na && !nb {
        ma > mb
    } else if na && nb {
        ma < mb
    } else if !na {
        ma > 0 || mb > 0
    } else {
        false
    }
}

/// Compares two binary64 values, given as bit patterns, with `<`.
pub fn bits_lt(a: u64, b: u64) -> (r: bool)
    ensures
        r == float_lt(a, b),
{
    bits_gt(b, a)
}

} // verus!
