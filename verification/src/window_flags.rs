//! Window flags for `begin`, to be combined with `|`.

use vstd::prelude::*;

verus! {

pub const NONE: i32 = 0;

pub const NO_TITLE_BAR: i32 = 1 << 0;

pub const NO_RESIZE: i32 = 1 << 1;

pub const NO_MOVE: i32 = 1 << 2;

pub const NO_SCROLLBAR: i32 = 1 << 3;

pub const NO_SCROLL_WITH_MOUSE: i32 = 1 << 4;

pub const NO_COLLAPSE: i32 = 1 << 5;

pub const ALWAYS_AUTO_RESIZE: i32 = 1 << 6;

pub const NO_BACKGROUND: i32 = 1 << 7;

pub const NO_SAVED_SETTINGS: i32 = 1 << 8;

pub const NO_MOUSE_INPUTS: i32 = 1 << 9;

pub const MENU_BAR: i32 = 1 << 10;

pub const HORIZONTAL_SCROLLBAR: i32 = 1 << 11;

pub const NO_FOCUS_ON_APPEARING: i32 = 1 << 12;

pub const NO_BRING_TO_FRONT_ON_FOCUS: i32 = 1 << 13;

pub const ALWAYS_VERTICAL_SCROLLBAR: i32 = 1 << 14;

pub const ALWAYS_HORIZONTAL_SCROLLBAR: i32 = 1 << 15;

pub const NO_NAV_INPUTS: i32 = 1 << 16;

pub const NO_NAV_FOCUS: i32 = 1 << 17;

pub const UNSAVED_DOCUMENT: i32 = 1 << 18;

pub const NO_NAV: i32 = NO_NAV_INPUTS | NO_NAV_FOCUS;

pub const NO_DECORATION: i32 = NO_TITLE_BAR | NO_RESIZE | NO_SCROLLBAR | NO_COLLAPSE;

pub const NO_INPUTS: i32 = NO_MOUSE_INPUTS | NO_NAV_INPUTS | NO_NAV_FOCUS;

/// The window flags as the native header numbers them: one bit each, and the
/// three shorthands as the unions of their parts.
pub proof fn lemma_window_flag_values()
    ensures
        NONE == 0,
        NO_TITLE_BAR == 1,
        NO_RESIZE == 2,
        NO_MOVE == 4,
        NO_SCROLLBAR == 8,
        NO_SCROLL_WITH_MOUSE == 16,
        NO_COLLAPSE == 32,
        ALWAYS_AUTO_RESIZE == 64,
        NO_BACKGROUND == 128,
        NO_SAVED_SETTINGS == 256,
        NO_MOUSE_INPUTS == 512,
        MENU_BAR == 1024,
        HORIZONTAL_SCROLLBAR == 2048,
        NO_FOCUS_ON_APPEARING == 4096,
        NO_BRING_TO_FRONT_ON_FOCUS == 8192,
        ALWAYS_VERTICAL_SCROLLBAR == 16384,
        ALWAYS_HORIZONTAL_SCROLLBAR == 32768,
        NO_NAV_INPUTS == 65536,
        NO_NAV_FOCUS == 131072,
        UNSAVED_DOCUMENT == 262144,
        NO_NAV == 196608,
        NO_DECORATION == 43,
        NO_INPUTS == 197120,
{
    assert(1i32 << 0 == 1
        && 1i32 << 1 == 2
        && 1i32 << 2 == 4
        && 1i32 << 3 == 8
        && 1i32 << 4 == 16
        && 1i32 << 5 == 32) by (bit_vector);
    assert(1i32 << 6 == 64
        && 1i32 << 7 == 128
        && 1i32 << 8 == 256
        && 1i32 << 9 == 512
        && 1i32 << 10 == 1024
        && 1i32 << 11 == 2048) by (bit_vector);
    assert(1i32 << 12 == 4096
        && 1i32 << 13 == 8192
        && 1i32 << 14 == 16384
        && 1i32 << 15 == 32768
        && 1i32 << 16 == 65536
        && 1i32 << 17 == 131072) by (bit_vector);
    assert(1i32 << 18 == 262144) by (bit_vector);
    assert(65536i32 | 131072i32 == 196608) by (bit_vector);
    assert(1i32 | 2i32 | 8i32 | 32i32 == 43) by (bit_vector);
    assert(512i32 | 65536i32 | 131072i32 == 197120) by (bit_vector);
}

} // verus!
