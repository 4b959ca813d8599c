//! Real numbers as binary64 bit patterns.
//!
//! Every real number of the data model is held as the 64 bits of an IEEE-754
//! double: one sign bit above 63 bits of magnitude. Among the patterns that
//! are numbers, the numeric order is the order of sign and magnitude, so it
//! can be decided, and reasoned about, on integers alone.

use vstd::prelude::*;

verus! {

/// The sign bit of a pattern.
pub const SIGN_BIT: u64 = 0x8000_0000_0000_0000;

/// Positive infinity, the largest magnitude that is still a number.
pub const INFINITY: u64 = 0x7FF0_0000_0000_0000;

/// Positive zero.
pub const ZERO: u64 = 0;

/// The number one.
pub const ONE: u64 = 0x3FF0_0000_0000_0000;

/// The pattern without its sign bit.
pub open spec fn magnitude(bits: u64) -> int {
    if bits >= SIGN_BIT {
        bits - SIGN_BIT
    } else {
        bits as int
    }
}

/// Whether the pattern is not a number: its magnitude lies above infinity.
pub open spec fn is_nan(bits: u64) -> bool {
    magnitude(bits) > INFINITY
}

/// The place of a number in the numeric order: its magnitude, negated when the
/// sign bit is set. Both zeros have rank 0.
pub open spec fn rank(bits: u64) -> int {
    if bits >= SIGN_BIT {
        -magnitude(bits)
    } else {
        magnitude(bits)
    }
}

/// `a < b` as doubles: false as soon as one side is not a number.
pub open spec fn lt(a: u64, b: u64) -> bool {
    !is_nan(a) && !is_nan(b) && rank(a) < rank(b)
}

/// `a <= b` as doubles: false as soon as one side is not a number.
pub open spec fn le(a: u64, b: u64) -> bool {
    !is_nan(a) && !is_nan(b) && rank(a) <= rank(b)
}

/// Whether the pattern is a number between zero and one, both included.
pub open spec fn in_unit_interval(bits: u64) -> bool {
    le(ZERO, bits) && le(bits, ONE)
}

/// The pattern saturated into the unit interval: zero below it, one above it,
/// and the pattern itself otherwise, which includes every pattern that is not
/// a number.
pub open spec fn clamp_to_unit(bits: u64) -> u64 {
    if lt(bits, ZERO) {
        ZERO
    } else if lt(ONE, bits) {
        ONE
    } else {
        bits
    }
}

/// Decides `is_nan`.
pub fn not_a_number(bits: u64) -> (r: bool)
    ensures
        r == is_nan(bits),
{
    if bits >= SIGN_BIT {
        bits - SIGN_BIT > INFINITY
    } else {
        bits > INFINITY
    }
}

/// Decides `lt`.
pub fn less_than(a: u64, b: u64) -> (r: bool)
    ensures
        r == lt(a, b),
{
    if not_a_number(a) || not_a_number(b) {
        false
    } else if a >= SIGN_BIT {
        if b >= SIGN_BIT {
            a > b
        } else {
            a > SIGN_BIT || b > 0
        }
    } else {
        b < SIGN_BIT && a < b
    }
}

/// Decides `le`.
pub fn at_most(a: u64, b: u64) -> (r: bool)
    ensures
        r == le(a, b),
{
    if not_a_number(a) || not_a_number(b) {
        false
    } else {
        !less_than(b, a)
    }
}

/// Saturates a pattern into the unit interval.
pub fn clamp_unit(bits: u64) -> (r: u64)
    ensures
        r == clamp_to_unit(bits),
{
    if less_than(bits, ZERO) {
        ZERO
    } else if less_than(ONE, bits) {
        ONE
    } else {
        bits
    }
}

/// A clamped number lies in the unit interval; what is not a number stays as
/// it is.
pub proof fn lemma_clamp_range(bits: u64)
    ensures
        !is_nan(bits) ==> in_unit_interval(clamp_to_unit(bits)),
        is_nan(bits) ==> clamp_to_unit(bits) == bits,
{
}

/// Clamping a number of the unit interval changes nothing, and clamping twice
/// is clamping once.
pub proof fn lemma_clamp_fixes_unit_interval(bits: u64)
    ensures
        in_unit_interval(bits) ==> clamp_to_unit(bits) == bits,
        clamp_to_unit(clamp_to_unit(bits)) == clamp_to_unit(bits),
{
}

} // verus!
