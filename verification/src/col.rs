//! Style colour slots for `push_style_color`. The slots are consecutive
//! indices, not bits.

use vstd::prelude::*;

verus! {

pub const TEXT: i32 = 0;

pub const TEXT_DISABLED: i32 = 1;

pub const WINDOW_BG: i32 = 2;

pub const CHILD_BG: i32 = 3;

pub const POPUP_BG: i32 = 4;

pub const BORDER: i32 = 5;

pub const BORDER_SHADOW: i32 = 6;

pub const FRAME_BG: i32 = 7;

pub const FRAME_BG_HOVERED: i32 = 8;

pub const FRAME_BG_ACTIVE: i32 = 9;

pub const TITLE_BG: i32 = 10;

pub const TITLE_BG_ACTIVE: i32 = 11;

pub const TITLE_BG_COLLAPSED: i32 = 12;

pub const MENU_BAR_BG: i32 = 13;

pub const SCROLLBAR_BG: i32 = 14;

pub const SCROLLBAR_GRAB: i32 = 15;

pub const SCROLLBAR_GRAB_HOVERED: i32 = 16;

pub const SCROLLBAR_GRAB_ACTIVE: i32 = 17;

pub const CHECK_MARK: i32 = 18;

pub const SLIDER_GRAB: i32 = 19;

pub const SLIDER_GRAB_ACTIVE: i32 = 20;

pub const BUTTON: i32 = 21;

pub const BUTTON_HOVERED: i32 = 22;

pub const BUTTON_ACTIVE: i32 = 23;

pub const HEADER: i32 = 24;

pub const HEADER_HOVERED: i32 = 25;

pub const HEADER_ACTIVE: i32 = 26;

} // verus!
