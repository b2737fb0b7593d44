//! Single-precision numbers as bit patterns: when two compare equal, and when one
//! is less than the other.

use vstd::prelude::*;

verus! {

/// The bit pattern without its sign.
pub open spec fn magnitude(bits: u32) -> u32 {
    if bits >= 0x8000_0000 {
        (bits - 0x8000_0000) as u32
    } else {
        bits
    }
}

/// The pattern stands for no number.
pub open spec fn is_nan(bits: u32) -> bool {
    magnitude(bits) > 0x7f80_0000
}

/// The two patterns compare equal as numbers: no pattern that stands for no
/// number equals anything, and the two zeros are equal.
pub open spec fn same_number(a: u32, b: u32) -> bool {
    !is_nan(a) && !is_nan(b) && (a == b || (magnitude(a) == 0 && magnitude(b) == 0))
}

/// Whether two patterns compare equal as numbers.
pub fn same_f32(a: u32, b: u32) -> (r: bool)
    ensures
        r == same_number(a, b),
{
    let left: u32 = if a >= 0x8000_0000 {
        a - 0x8000_0000
    } else {
        a
    };
    let right: u32 = if b >= 0x8000_0000 {
        b - 0x8000_0000
    } else {
        b
    };
    left <= 0x7f80_0000 && right <= 0x7f80_0000 && (a == b || (left == 0 && right == 0))
}

/// Where a pattern stands among the numbers: patterns are ordered by their
/// magnitudes, backwards below zero, and the two zeros stand together.
pub open spec fn rank(bits: u32) -> int {
    if bits >= 0x8000_0000 {
        -(magnitude(bits) as int)
    } else {
        bits as int
    }
}

/// The first pattern is less than the second as a number. A pattern that stands
/// for no number is neither less nor greater than any.
pub open spec fn less(a: u32, b: u32) -> bool {
    !is_nan(a) && !is_nan(b) && rank(a) < rank(b)
}

/// Whether the first pattern is less than the second as a number.
pub fn less_f32(a: u32, b: u32) -> (r: bool)
    ensures
        r == less(a, b),
{
    let left: u32 = if a >= 0x8000_0000 {
        a - 0x8000_0000
    } else {
        a
    };
    let right: u32 = if b >= 0x8000_0000 {
        b - 0x8000_0000
    } else {
        b
    };
    if left > 0x7f80_0000 || right > 0x7f80_0000 {
        return false;
    }
    if a >= 0x8000_0000 {
        if b >= 0x8000_0000 {
            right < left
        } else {
            left > 0 || right > 0
        }
    } else {
        if b >= 0x8000_0000 {
            false
        } else {
            left < right
        }
    }
}

} // verus!
