//! Output volume levels.
//!
//! A level is carried as the bit pattern of an IEEE 754 single-precision
//! number, which is the form in which platform audio properties take and
//! give it. Everything this module decides about a level it decides on that
//! pattern with integer comparisons: within one sign, the patterns of
//! non-NaN numbers are ordered as the numbers are.

use vstd::prelude::*;

verus! {

/// The pattern of `0.0`.
pub const SILENT_BITS: u32 = 0x0000_0000;

/// The pattern of `1.0`.
pub const FULL_BITS: u32 = 0x3F80_0000;

/// The pattern of positive infinity, the largest pattern of a positive number.
pub const POSITIVE_INFINITY_BITS: u32 = 0x7F80_0000;

/// The pattern of `-0.0`: the sign bit alone.
pub const NEGATIVE_ZERO_BITS: u32 = 0x8000_0000;

/// The pattern of negative infinity, the largest pattern of a negative number.
pub const NEGATIVE_INFINITY_BITS: u32 = 0xFF80_0000;

/// Whether the pattern is a NaN: its magnitude lies above that of infinity.
pub open spec fn is_nan(bits: u32) -> bool {
    POSITIVE_INFINITY_BITS < bits < NEGATIVE_ZERO_BITS || NEGATIVE_INFINITY_BITS < bits
}

/// Whether the pattern is a number strictly less than `0.0`. Negative zero
/// is not: it compares equal to zero.
pub open spec fn below_silent(bits: u32) -> bool {
    NEGATIVE_ZERO_BITS < bits <= NEGATIVE_INFINITY_BITS
}

/// Whether the pattern is a number strictly greater than `1.0`.
pub open spec fn above_full(bits: u32) -> bool {
    FULL_BITS < bits <= POSITIVE_INFINITY_BITS
}

/// Whether the pattern is a number in the closed range from `0.0` to `1.0`.
pub open spec fn in_range(bits: u32) -> bool {
    bits <= FULL_BITS || bits == NEGATIVE_ZERO_BITS
}

/// The pattern saturated to the range from `0.0` to `1.0`: a number below
/// the range becomes `0.0`, one above it becomes `1.0`, and every other
/// pattern, NaN included, stays as it is.
pub open spec fn clamp_bits(bits: u32) -> u32 {
    if below_silent(bits) {
        SILENT_BITS
    } else if above_full(bits) {
        FULL_BITS
    } else {
        bits
    }
}

/// A volume level.
#[derive(Clone, Copy, Debug, PartialEq, Eq, Structural)]
pub struct Volume {
    bits: u32,
}

impl View for Volume {
    type V = u32;

    closed spec fn view(&self) -> u32 {
        self.bits
    }
}

impl Volume {
    /// The level with the given single-precision bit pattern.
    pub fn from_bits(bits: u32) -> (level: Volume)
        ensures
            level@ == bits,
    {
        Volume { bits }
    }

    /// The single-precision bit pattern of this level.
    pub fn to_bits(self) -> (bits: u32)
        ensures
            bits == self@,
    {
        self.bits
    }

    /// No output: `0.0`.
    pub fn silent() -> (level: Volume)
        ensures
            level@ == SILENT_BITS,
    {
        Volume { bits: SILENT_BITS }
    }

    /// Full output: `1.0`.
    pub fn full() -> (level: Volume)
        ensures
            level@ == FULL_BITS,
    {
        Volume { bits: FULL_BITS }
    }

    /// This level saturated to the range from `0.0` to `1.0`. Levels outside
    /// the range are never rejected.
    pub fn clamped(self) -> (level: Volume)
        ensures
            level@ == clamp_bits(self@),
    {
        if NEGATIVE_ZERO_BITS < self.bits && self.bits <= NEGATIVE_INFINITY_BITS {
            Volume { bits: SILENT_BITS }
        } else if FULL_BITS < self.bits && self.bits <= POSITIVE_INFINITY_BITS {
            Volume { bits: FULL_BITS }
        } else {
            self
        }
    }
}

/// Every pattern is exactly one of: a NaN, a number below the range, a
/// number above it, a number within it.
pub proof fn lemma_patterns_partition(bits: u32)
    ensures
        is_nan(bits) || below_silent(bits) || above_full(bits) || in_range(bits),
        !(is_nan(bits) && below_silent(bits)),
        !(is_nan(bits) && above_full(bits)),
        !(is_nan(bits) && in_range(bits)),
        !(below_silent(bits) && above_full(bits)),
        !(below_silent(bits) && in_range(bits)),
        !(above_full(bits) && in_range(bits)),
{
}

/// Saturation yields a level within the range for every number, leaves a
/// level within the range untouched, passes a NaN through, and changes
/// nothing when applied again.
pub proof fn lemma_clamp_saturates(bits: u32)
    ensures
        !is_nan(bits) ==> in_range(clamp_bits(bits)),
        in_range(bits) ==> clamp_bits(bits) == bits,
        is_nan(bits) ==> clamp_bits(bits) == bits,
        below_silent(bits) ==> clamp_bits(bits) == SILENT_BITS,
        above_full(bits) ==> clamp_bits(bits) == FULL_BITS,
        clamp_bits(clamp_bits(bits)) == clamp_bits(bits),
{
}

} // verus!
