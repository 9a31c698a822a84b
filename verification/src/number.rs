//! Single-precision numbers, known by their bit patterns alone.
//!
//! A pattern holds a sign in its top bit and a magnitude in the other
//! thirty-one. Leaving aside the patterns that are no number, a larger
//! magnitude is a number further from zero, which is all that ordering two
//! of them takes.

use vstd::prelude::*;

verus! {

/// The pattern with the sign bit set and a magnitude of zero: the number
/// `-0.0`, and the count of magnitudes.
pub const SIGN: u32 = 0x8000_0000;

/// The magnitude of the two infinities. Every larger magnitude is no number.
pub const INFINITE: u32 = 0x7F80_0000;

/// The pattern without its sign.
pub open spec fn magnitude(bits: u32) -> int {
    bits as int % 0x8000_0000
}

/// Whether the pattern is no number.
pub open spec fn is_nan(bits: u32) -> bool {
    magnitude(bits) > INFINITE
}

/// The place of a pattern on the line of numbers: patterns of numbers are
/// ordered as their places are, and the two zeros share place 0.
pub open spec fn place(bits: u32) -> int {
    if bits >= SIGN {
        -magnitude(bits)
    } else {
        magnitude(bits)
    }
}

/// Whether the number with pattern `a` is less than the number with pattern
/// `b`. Nothing is less than, or has anything less than, a pattern that is no
/// number.
pub open spec fn less_than(a: u32, b: u32) -> bool {
    !is_nan(a) && !is_nan(b) && place(a) < place(b)
}

/// Tells whether the number with pattern `a` is less than the number with
/// pattern `b`.
pub fn is_less_than(a: u32, b: u32) -> (less: bool)
    ensures
        less == less_than(a, b),
{
    let size_a: u32 = a % SIGN;
    let size_b: u32 = b % SIGN;
    if size_a > INFINITE || size_b > INFINITE {
        false
    } else if a >= SIGN {
        if b >= SIGN {
            size_a > size_b
        } else {
            size_a > 0 || size_b > 0
        }
    } else {
        b < SIGN && size_a < size_b
    }
}

} // verus!
