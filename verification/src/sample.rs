//! Samples as bit patterns of IEEE-754 binary64 values.

use vstd::prelude::*;

verus! {

/// The quiet not-a-number pattern that marks an undefined position.
pub const NAN_BITS: u64 = 0x7ff8_0000_0000_0000u64;

/// The pattern of positive zero.
pub const ZERO_BITS: u64 = 0u64;

/// The pattern of the sign bit alone, which is negative zero.
pub const SIGN_BIT: u64 = 0x8000_0000_0000_0000u64;

/// The pattern of positive infinity: all exponent bits set, no fraction bit.
pub const INFINITY_BITS: u64 = 0x7ff0_0000_0000_0000u64;

/// The pattern with its sign bit cleared.
pub open spec fn magnitude(bits: u64) -> u64 {
    if bits >= SIGN_BIT {
        (bits - SIGN_BIT) as u64
    } else {
        bits
    }
}

/// Whether the pattern encodes a not-a-number value: all exponent bits set
/// and some fraction bit set, whatever the sign.
pub open spec fn is_nan(bits: u64) -> bool {
    magnitude(bits) > INFINITY_BITS
}

/// Whether the pattern encodes zero, positive or negative.
pub open spec fn is_zero(bits: u64) -> bool {
    magnitude(bits) == 0
}

/// Tells whether a sample is undefined.
pub fn is_nan_bits(bits: u64) -> (r: bool)
    ensures
        r == is_nan(bits),
{
    let cleared: u64 = if bits >= SIGN_BIT {
        bits - SIGN_BIT
    } else {
        bits
    };
    cleared > INFINITY_BITS
}

/// Tells whether a sample compares equal to zero.
pub fn is_zero_bits(bits: u64) -> (r: bool)
    ensures
        r == is_zero(bits),
{
    bits == ZERO_BITS || bits == SIGN_BIT
}

} // verus!
