//! Table flags for `begin_table`, to be combined with `|`.

use vstd::prelude::*;

verus! {

pub const NONE: i32 = 0;

pub const RESIZABLE: i32 = 1 << 0;

pub const REORDERABLE: i32 = 1 << 1;

pub const HIDEABLE: i32 = 1 << 2;

pub const SORTABLE: i32 = 1 << 3;

pub const NO_SAVED_SETTINGS: i32 = 1 << 4;

pub const CONTEXT_MENU_IN_BODY: i32 = 1 << 5;

pub const ROW_BG: i32 = 1 << 6;

pub const BORDERS_INNER_H: i32 = 1 << 7;

pub const BORDERS_OUTER_H: i32 = 1 << 8;

pub const BORDERS_INNER_V: i32 = 1 << 9;

pub const BORDERS_OUTER_V: i32 = 1 << 10;

pub const BORDERS_H: i32 = BORDERS_INNER_H | BORDERS_OUTER_H;

pub const BORDERS_V: i32 = BORDERS_INNER_V | BORDERS_OUTER_V;

pub const BORDERS_INNER: i32 = BORDERS_INNER_V | BORDERS_INNER_H;

pub const BORDERS_OUTER: i32 = BORDERS_OUTER_V | BORDERS_OUTER_H;

pub const BORDERS: i32 = BORDERS_INNER | BORDERS_OUTER;

/// The table flags as the native header numbers them: one bit each, and the
/// border shorthands as the unions of their parts.
pub proof fn lemma_table_flag_values()
    ensures
        NONE == 0,
        RESIZABLE == 1,
        REORDERABLE == 2,
        HIDEABLE == 4,
        SORTABLE == 8,
        NO_SAVED_SETTINGS == 16,
        CONTEXT_MENU_IN_BODY == 32,
        ROW_BG == 64,
        BORDERS_INNER_H == 128,
        BORDERS_OUTER_H == 256,
        BORDERS_INNER_V == 512,
        BORDERS_OUTER_V == 1024,
        BORDERS_H == 384,
        BORDERS_V == 1536,
        BORDERS_INNER == 640,
        BORDERS_OUTER == 1280,
        BORDERS == 1920,
{
    assert(1i32 << 0 == 1
        && 1i32 << 1 == 2
        && 1i32 << 2 == 4
        && 1i32 << 3 == 8
        && 1i32 << 4 == 16
        && 1i32 << 5 == 32) by (bit_vector);
    assert(1i32 << 6 == 64
        && 1i32 << 7 == 128
        && 1i32 << 8 == 256
        && 1i32 << 9 == 512
        && 1i32 << 10 == 1024) by (bit_vector);
    assert(128i32 | 256i32 == 384) by (bit_vector);
    assert(512i32 | 1024i32 == 1536) by (bit_vector);
    assert(512i32 | 128i32 == 640) by (bit_vector);
    assert(1024i32 | 256i32 == 1280) by (bit_vector);
    assert(640i32 | 1280i32 == 1920) by (bit_vector);
}

} // verus!
