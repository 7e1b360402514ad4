//! Boolean and optional values at the native boundary.
//!
//! The native side has no boolean type: a flag is an `int` that is true when
//! it is not zero, and an optional in/out flag is a pointer that may be null.

use vstd::prelude::*;

verus! {

/// The native integer that stands for a host boolean.
pub open spec fn int_of_bool(b: bool) -> i32 {
    if b {
        1i32
    } else {
        0i32
    }
}

/// The host boolean that a native integer stands for.
pub open spec fn bool_of_int(v: i32) -> bool {
    v != 0
}

/// The in/out slot for an optional host flag: `None` is the null pointer.
pub open spec fn slot_of_flag(flag: Option<bool>) -> Option<i32> {
    match flag {
        Some(b) => Some(int_of_bool(b)),
        None => None,
    }
}

/// Encodes a host boolean for the native side.
pub fn bool_to_int(b: bool) -> (r: i32)
    ensures
        r == int_of_bool(b),
{
    if b {
        1
    } else {
        0
    }
}

/// Decodes a native integer into a host boolean.
pub fn int_to_bool(v: i32) -> (r: bool)
    ensures
        r == bool_of_int(v),
{
    v != 0
}

/// Encodes an optional host flag as an optional in/out slot.
pub fn flag_to_slot(flag: Option<bool>) -> (r: Option<i32>)
    ensures
        r == slot_of_flag(flag),
{
    match flag {
        Some(b) => Some(bool_to_int(b)),
        None => None,
    }
}

/// Encoding a boolean and decoding it again gives the boolean back, so a
/// flag that the native side leaves untouched reads as before, while the
/// two encodings of distinct booleans differ.
pub proof fn lemma_bool_round_trip(b: bool)
    ensures
        bool_of_int(int_of_bool(b)) == b,
        int_of_bool(true) != int_of_bool(false),
{
}

} // verus!
