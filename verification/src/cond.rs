//! Conditions for `set_next_window_pos` and `set_next_window_size`: when the
//! requested placement applies.

use vstd::prelude::*;

verus! {

pub const NONE: i32 = 0;

pub const ALWAYS: i32 = 1 << 0;

pub const ONCE: i32 = 1 << 1;

pub const FIRST_USE_EVER: i32 = 1 << 2;

pub const APPEARING: i32 = 1 << 3;

/// The conditions as the native header numbers them.
pub proof fn lemma_cond_values()
    ensures
        NONE == 0,
        ALWAYS == 1,
        ONCE == 2,
        FIRST_USE_EVER == 4,
        APPEARING == 8,
{
    assert(1i32 << 0 == 1 && 1i32 << 1 == 2 && 1i32 << 2 == 4 && 1i32 << 3 == 8) by (bit_vector);
}

} // verus!
