//! IEEE-754 single-precision values, held by their 32-bit patterns.
//!
//! The pipeline never does arithmetic on these numbers here; it only has to
//! order them. Patterns with a clear sign bit are ordered as the numbers
//! they stand for, patterns with the sign bit set the other way round, and
//! the two zeros are equal, so each test is a test on integers.

use vstd::prelude::*;

verus! {

/// Pattern of positive zero.
pub const ZERO: u32 = 0;

/// Pattern of one.
pub const ONE: u32 = 0x3F80_0000;

/// Pattern of positive infinity. Larger patterns with a clear sign bit are
/// not numbers.
pub const INFINITY: u32 = 0x7F80_0000;

/// Pattern of negative zero, the smallest pattern with the sign bit set.
pub const SIGN: u32 = 0x8000_0000;

/// Pattern of negative infinity. Larger patterns are not numbers.
pub const NEG_INFINITY: u32 = 0xFF80_0000;

/// The pattern is not a number: all exponent bits set, fraction not zero.
pub open spec fn is_nan(b: u32) -> bool {
    (INFINITY < b && b < SIGN) || b > NEG_INFINITY
}

/// The pattern is a number other than an infinity.
pub open spec fn is_finite(b: u32) -> bool {
    b < INFINITY || (SIGN <= b && b < NEG_INFINITY)
}

/// An integer that orders the patterns of numbers as the numbers are
/// ordered: the pattern itself where the sign bit is clear, and the
/// negated rest of the pattern where it is set.
pub open spec fn rank(b: u32) -> int {
    if b < SIGN {
        b as int
    } else {
        SIGN - b
    }
}

/// The value is strictly greater than zero (positive infinity included).
pub open spec fn is_positive(b: u32) -> bool {
    !is_nan(b) && rank(b) > 0
}

/// Both are numbers, and the value of `b` is not below that of `threshold`.
pub open spec fn at_least(b: u32, threshold: u32) -> bool {
    !is_nan(b) && !is_nan(threshold) && rank(b) >= rank(threshold)
}

/// The value is a number in the closed unit interval.
pub open spec fn in_unit_interval(b: u32) -> bool {
    at_least(b, ZERO) && at_least(ONE, b)
}

/// The value clamped into the unit interval: what lies below zero becomes
/// zero, what lies above one becomes one. What is not a number stays as
/// it is, and so does negative zero, which is not below zero.
pub open spec fn clamped_unit(b: u32) -> u32 {
    if !is_nan(b) && rank(b) > rank(ONE) {
        ONE
    } else if !is_nan(b) && rank(b) < rank(ZERO) {
        ZERO
    } else {
        b
    }
}

/// Clamping leaves a number within the unit interval, and changes nothing
/// that is already there.
pub proof fn lemma_clamped_unit(b: u32)
    ensures
        is_nan(b) <==> is_nan(clamped_unit(b)),
        !is_nan(b) ==> in_unit_interval(clamped_unit(b)),
        in_unit_interval(b) ==> clamped_unit(b) == b,
        clamped_unit(clamped_unit(b)) == clamped_unit(b),
{
}

/// Against a threshold that is a number and not negative, the tests are
/// plain comparisons of patterns.
pub proof fn lemma_order_of_patterns(b: u32, threshold: u32)
    requires
        0 < threshold <= INFINITY,
    ensures
        at_least(b, threshold) <==> threshold <= b <= INFINITY,
        is_positive(b) <==> 0 < b <= INFINITY,
        in_unit_interval(b) <==> b <= ONE || b == SIGN,
{
}

pub fn clamp_unit(b: u32) -> (r: u32)
    ensures
        r == clamped_unit(b),
{
    if ONE < b && b <= INFINITY {
        ONE
    } else if SIGN < b && b <= NEG_INFINITY {
        ZERO
    } else {
        b
    }
}

pub fn finite(b: u32) -> (r: bool)
    ensures
        r == is_finite(b),
{
    b < INFINITY || (SIGN <= b && b < NEG_INFINITY)
}

pub fn positive(b: u32) -> (r: bool)
    ensures
        r == is_positive(b),
{
    0 < b && b <= INFINITY
}

fn not_a_number(b: u32) -> (r: bool)
    ensures
        r == is_nan(b),
{
    (INFINITY < b && b < SIGN) || b > NEG_INFINITY
}

/// Whether the value of `b` is not below that of `threshold`; false where
/// either is not a number.
pub fn reaches(b: u32, threshold: u32) -> (r: bool)
    ensures
        r == at_least(b, threshold),
{
    if not_a_number(b) || not_a_number(threshold) {
        false
    } else if b < SIGN {
        threshold >= SIGN || threshold <= b
    } else if threshold >= SIGN {
        threshold >= b
    } else {
        b == SIGN && threshold == ZERO
    }
}

} // verus!
