//! Ordered keys for IEEE-754 double-precision bit patterns.
//!
//! A double is stored as a sign bit followed by a magnitude whose integer
//! order agrees with the order of the values it encodes. Reading the bits as a
//! sign-magnitude integer therefore orders every non-NaN double as the
//! floating-point comparison does, and treats `-0.0` and `+0.0` as equal.
//! The keys below shift that integer into the unsigned range, so distances
//! and bounds can be compared as plain `u64` values.
use vstd::prelude::*;

verus! {

/// The sign bit of a 64-bit pattern.
pub const SIGN_BIT: u64 = 0x8000_0000_0000_0000;

/// The bits read as a sign-magnitude integer.
pub open spec fn signed_magnitude(bits: u64) -> int {
    if bits >= SIGN_BIT {
        -(bits - SIGN_BIT)
    } else {
        bits as int
    }
}

/// The sign-magnitude value that an ordered key stands for.
pub open spec fn key_value(k: u64) -> int {
    k - SIGN_BIT
}

/// The ordered key of a bit pattern: its sign-magnitude value, offset by `2^63`.
pub fn order_key(bits: u64) -> (k: u64)
    ensures
        k == signed_magnitude(bits) + SIGN_BIT,
        key_value(k) == signed_magnitude(bits),
{
    if bits >= SIGN_BIT {
        SIGN_BIT - (bits - SIGN_BIT)
    } else {
        bits + SIGN_BIT
    }
}

} // verus!
