//! The native interface as data: which entry point to invoke, with which
//! marshalled arguments, and what the native side reports back.
//!
//! Floating-point arguments never take part in any decision made here, so
//! they travel as IEEE-754 single-precision bit patterns (`u32`).

use crate::convert::{bool_of_int, int_to_bool};
use crate::text::CText;
use vstd::prelude::*;

verus! {

/// One invocation of a native entry point with its arguments already in
/// native representation.
///
/// `T` is the representation of text arguments: [`CText`] in executable
/// code, `Seq<u8>` in the view that contracts speak of. An `Option` that is
/// `None` stands for a null pointer.
#[derive(Debug, PartialEq, Eq)]
#[allow(inconsistent_fields)]
pub enum NativeCall<T = CText> {
    // ---- Context and backends ----
    /// `imgui_create_context()`; reports the new context handle.
    CreateContext,
    /// `imgui_destroy_context(ctx)`.
    DestroyContext { ctx: usize },
    /// `imgui_init_for_glfw(window, install_callbacks)`.
    InitForGlfw { window: usize, install_callbacks: i32 },
    /// `imgui_init_for_opengl3(glsl_version)`.
    InitForOpengl3 { glsl_version: T },
    /// `imgui_shutdown_opengl3()`.
    ShutdownOpengl3,
    /// `imgui_shutdown_glfw()`.
    ShutdownGlfw,
    // ---- Frame ----
    /// `imgui_new_frame()`.
    NewFrame,
    /// `imgui_render()`.
    Render,
    /// `imgui_opengl3_render_draw_data()`.
    Opengl3RenderDrawData,
    // ---- Input capture ----
    /// `imgui_io_want_capture_mouse()`.
    IoWantCaptureMouse,
    /// `imgui_io_want_capture_keyboard()`.
    IoWantCaptureKeyboard,
    // ---- Windows ----
    /// `imgui_begin(name, p_open, flags)`; `p_open` is in/out.
    Begin { name: T, p_open: Option<i32>, flags: i32 },
    /// `imgui_end()`.
    End,
    /// `imgui_set_next_window_pos(x, y, cond)`.
    SetNextWindowPos { x: u32, y: u32, cond: i32 },
    /// `imgui_set_next_window_size(width, height, cond)`.
    SetNextWindowSize { width: u32, height: u32, cond: i32 },
    // ---- Widgets ----
    /// `imgui_text(text)`.
    Text { text: T },
    /// `imgui_button(label)`.
    Button { label: T },
    /// `imgui_checkbox(label, v)`; `v` is in/out.
    Checkbox { label: T, v: i32 },
    /// `imgui_slider_float(label, v, v_min, v_max)`; `v` is in/out.
    SliderFloat { label: T, v: u32, v_min: u32, v_max: u32 },
    /// `imgui_slider_int(label, v, v_min, v_max)`; `v` is in/out.
    SliderInt { label: T, v: i32, v_min: i32, v_max: i32 },
    /// `imgui_input_float(label, v)`; `v` is in/out.
    InputFloat { label: T, v: u32 },
    /// `imgui_input_int(label, v)`; `v` is in/out.
    InputInt { label: T, v: i32 },
    /// `imgui_color_edit3(label, col)`; the three channels are in/out.
    ColorEdit3 { label: T, r: u32, g: u32, b: u32 },
    /// `imgui_color_edit4(label, col)`; the four channels are in/out.
    ColorEdit4 { label: T, r: u32, g: u32, b: u32, a: u32 },
    // ---- Layout ----
    /// `imgui_same_line()`.
    SameLine,
    /// `imgui_separator()`.
    Separator,
    /// `imgui_spacing()`.
    Spacing,
    /// `imgui_dummy(width, height)`.
    Dummy { width: u32, height: u32 },
    /// `imgui_indent(indent_w)`.
    Indent { indent_w: u32 },
    /// `imgui_unindent(indent_w)`.
    Unindent { indent_w: u32 },
    // ---- Trees ----
    /// `imgui_tree_node(label)`.
    TreeNode { label: T },
    /// `imgui_tree_pop()`.
    TreePop,
    // ---- Combo boxes ----
    /// `imgui_begin_combo(label, preview_value, flags)`.
    BeginCombo { label: T, preview_value: T, flags: i32 },
    /// `imgui_end_combo()`.
    EndCombo,
    /// `imgui_selectable(label, selected, flags)`.
    Selectable { label: T, selected: i32, flags: i32 },
    // ---- Menus ----
    /// `imgui_begin_main_menu_bar()`.
    BeginMainMenuBar,
    /// `imgui_end_main_menu_bar()`.
    EndMainMenuBar,
    /// `imgui_begin_menu(label, enabled)`.
    BeginMenu { label: T, enabled: i32 },
    /// `imgui_end_menu()`.
    EndMenu,
    /// `imgui_menu_item(label, shortcut, selected, enabled)`; `shortcut` may be null.
    MenuItem { label: T, shortcut: Option<T>, selected: i32, enabled: i32 },
    // ---- Tooltips ----
    /// `imgui_set_tooltip(text)`.
    SetTooltip { text: T },
    /// `imgui_begin_tooltip()`.
    BeginTooltip,
    /// `imgui_end_tooltip()`.
    EndTooltip,
    // ---- Popups ----
    /// `imgui_begin_popup(str_id, flags)`.
    BeginPopup { str_id: T, flags: i32 },
    /// `imgui_begin_popup_modal(name, p_open, flags)`; `p_open` is in/out.
    BeginPopupModal { name: T, p_open: Option<i32>, flags: i32 },
    /// `imgui_end_popup()`.
    EndPopup,
    /// `imgui_open_popup(str_id)`.
    OpenPopup { str_id: T },
    /// `imgui_close_current_popup()`.
    CloseCurrentPopup,
    // ---- Tables ----
    /// `imgui_begin_table(str_id, column, flags)`.
    BeginTable { str_id: T, column: i32, flags: i32 },
    /// `imgui_end_table()`.
    EndTable,
    /// `imgui_table_next_row()`.
    TableNextRow,
    /// `imgui_table_next_column()`.
    TableNextColumn,
    /// `imgui_table_set_column_index(column_n)`.
    TableSetColumnIndex { column_n: i32 },
    /// `imgui_table_setup_column(label, flags, init_width_or_weight)`.
    TableSetupColumn { label: T, flags: i32, init_width_or_weight: u32 },
    /// `imgui_table_headers_row()`.
    TableHeadersRow,
    // ---- Style stack ----
    /// `imgui_push_style_color(idx, r, g, b, a)`.
    PushStyleColor { idx: i32, r: u32, g: u32, b: u32, a: u32 },
    /// `imgui_pop_style_color(count)`.
    PopStyleColor { count: i32 },
    // ---- Identifier stack ----
    /// `imgui_push_id_int(int_id)`.
    PushIdInt { int_id: i32 },
    /// `imgui_push_id_str(str_id)`.
    PushIdStr { str_id: T },
    /// `imgui_pop_id()`.
    PopId,
    // ---- Item queries ----
    /// `imgui_is_item_hovered()`.
    IsItemHovered,
    /// `imgui_is_item_clicked(mouse_button)`.
    IsItemClicked { mouse_button: i32 },
    /// `imgui_is_item_active()`.
    IsItemActive,
    // ---- Demo ----
    /// `imgui_show_demo_window(p_open)`; `p_open` is in/out.
    ShowDemoWindow { p_open: Option<i32> },
}

/// A call as contracts see it: every text argument is the byte sequence of
/// its buffer.
pub type NativeCallView = NativeCall<Seq<u8>>;

impl View for NativeCall<CText> {
    type V = NativeCall<Seq<u8>>;

    open spec fn view(&self) -> NativeCall<Seq<u8>> {
        match *self {
            NativeCall::CreateContext => NativeCall::CreateContext,
            NativeCall::DestroyContext { ctx } => NativeCall::DestroyContext { ctx: ctx },
            NativeCall::InitForGlfw { window, install_callbacks } => NativeCall::InitForGlfw {
                window: window,
                install_callbacks: install_callbacks,
            },
            NativeCall::InitForOpengl3 { glsl_version } => NativeCall::InitForOpengl3 {
                glsl_version: glsl_version@,
            },
            NativeCall::ShutdownOpengl3 => NativeCall::ShutdownOpengl3,
            NativeCall::ShutdownGlfw => NativeCall::ShutdownGlfw,
            NativeCall::NewFrame => NativeCall::NewFrame,
            NativeCall::Render => NativeCall::Render,
            NativeCall::Opengl3RenderDrawData => NativeCall::Opengl3RenderDrawData,
            NativeCall::IoWantCaptureMouse => NativeCall::IoWantCaptureMouse,
            NativeCall::IoWantCaptureKeyboard => NativeCall::IoWantCaptureKeyboard,
            NativeCall::Begin { name, p_open, flags } => NativeCall::Begin {
                name: name@,
                p_open: p_open,
                flags: flags,
            },
            NativeCall::End => NativeCall::End,
            NativeCall::SetNextWindowPos { x, y, cond } => NativeCall::SetNextWindowPos {
                x: x,
                y: y,
                cond: cond,
            },
            NativeCall::SetNextWindowSize { width, height, cond } => NativeCall::SetNextWindowSize {
                width: width,
                height: height,
                cond: cond,
            },
            NativeCall::Text { text } => NativeCall::Text { text: text@ },
            NativeCall::Button { label } => NativeCall::Button { label: label@ },
            NativeCall::Checkbox { label, v } => NativeCall::Checkbox { label: label@, v: v },
            NativeCall::SliderFloat { label, v, v_min, v_max } => NativeCall::SliderFloat {
                label: label@,
                v: v,
                v_min: v_min,
                v_max: v_max,
            },
            NativeCall::SliderInt { label, v, v_min, v_max } => NativeCall::SliderInt {
                label: label@,
                v: v,
                v_min: v_min,
                v_max: v_max,
            },
            NativeCall::InputFloat { label, v } => NativeCall::InputFloat { label: label@, v: v },
            NativeCall::InputInt { label, v } => NativeCall::InputInt { label: label@, v: v },
            NativeCall::ColorEdit3 { label, r, g, b } => NativeCall::ColorEdit3 {
                label: label@,
                r: r,
                g: g,
                b: b,
            },
            NativeCall::ColorEdit4 { label, r, g, b, a } => NativeCall::ColorEdit4 {
                label: label@,
                r: r,
                g: g,
                b: b,
                a: a,
            },
            NativeCall::SameLine => NativeCall::SameLine,
            NativeCall::Separator => NativeCall::Separator,
            NativeCall::Spacing => NativeCall::Spacing,
            NativeCall::Dummy { width, height } => NativeCall::Dummy {
                width: width,
                height: height,
            },
            NativeCall::Indent { indent_w } => NativeCall::Indent { indent_w: indent_w },
            NativeCall::Unindent { indent_w } => NativeCall::Unindent { indent_w: indent_w },
            NativeCall::TreeNode { label } => NativeCall::TreeNode { label: label@ },
            NativeCall::TreePop => NativeCall::TreePop,
            NativeCall::BeginCombo { label, preview_value, flags } => NativeCall::BeginCombo {
                label: label@,
                preview_value: preview_value@,
                flags: flags,
            },
            NativeCall::EndCombo => NativeCall::EndCombo,
            NativeCall::Selectable { label, selected, flags } => NativeCall::Selectable {
                label: label@,
                selected: selected,
                flags: flags,
            },
            NativeCall::BeginMainMenuBar => NativeCall::BeginMainMenuBar,
            NativeCall::EndMainMenuBar => NativeCall::EndMainMenuBar,
            NativeCall::BeginMenu { label, enabled } => NativeCall::BeginMenu {
                label: label@,
                enabled: enabled,
            },
            NativeCall::EndMenu => NativeCall::EndMenu,
            NativeCall::MenuItem { label, shortcut, selected, enabled } => NativeCall::MenuItem {
                label: label@,
                shortcut: match shortcut { Some(t) => Some(t@), None => None },
                selected: selected,
                enabled: enabled,
            },
            NativeCall::SetTooltip { text } => NativeCall::SetTooltip { text: text@ },
            NativeCall::BeginTooltip => NativeCall::BeginTooltip,
            NativeCall::EndTooltip => NativeCall::EndTooltip,
            NativeCall::BeginPopup { str_id, flags } => NativeCall::BeginPopup {
                str_id: str_id@,
                flags: flags,
            },
            NativeCall::BeginPopupModal { name, p_open, flags } => NativeCall::BeginPopupModal {
                name: name@,
                p_open: p_open,
                flags: flags,
            },
            NativeCall::EndPopup => NativeCall::EndPopup,
            NativeCall::OpenPopup { str_id } => NativeCall::OpenPopup { str_id: str_id@ },
            NativeCall::CloseCurrentPopup => NativeCall::CloseCurrentPopup,
            NativeCall::BeginTable { str_id, column, flags } => NativeCall::BeginTable {
                str_id: str_id@,
                column: column,
                flags: flags,
            },
            NativeCall::EndTable => NativeCall::EndTable,
            NativeCall::TableNextRow => NativeCall::TableNextRow,
            NativeCall::TableNextColumn => NativeCall::TableNextColumn,
            NativeCall::TableSetColumnIndex { column_n } => NativeCall::TableSetColumnIndex {
                column_n: column_n,
            },
            NativeCall::TableSetupColumn { label, flags, init_width_or_weight } => {
                NativeCall::TableSetupColumn {
                    label: label@,
                    flags: flags,
                    init_width_or_weight: init_width_or_weight,
                }
            },
            NativeCall::TableHeadersRow => NativeCall::TableHeadersRow,
            NativeCall::PushStyleColor { idx, r, g, b, a } => NativeCall::PushStyleColor {
                idx: idx,
                r: r,
                g: g,
                b: b,
                a: a,
            },
            NativeCall::PopStyleColor { count } => NativeCall::PopStyleColor { count: count },
            NativeCall::PushIdInt { int_id } => NativeCall::PushIdInt { int_id: int_id },
            NativeCall::PushIdStr { str_id } => NativeCall::PushIdStr { str_id: str_id@ },
            NativeCall::PopId => NativeCall::PopId,
            NativeCall::IsItemHovered => NativeCall::IsItemHovered,
            NativeCall::IsItemClicked { mouse_button } => NativeCall::IsItemClicked {
                mouse_button: mouse_button,
            },
            NativeCall::IsItemActive => NativeCall::IsItemActive,
            NativeCall::ShowDemoWindow { p_open } => NativeCall::ShowDemoWindow { p_open: p_open },
        }
    }
}

/// The views of a sequence of calls, in order.
pub open spec fn call_views(calls: Seq<NativeCall>) -> Seq<NativeCallView> {
    Seq::new(calls.len(), |i: int| calls[i]@)
}

/// What a native call hands back besides its integer result.
#[derive(Debug, Clone, Copy, PartialEq, Eq, Structural)]
pub enum Output {
    /// Nothing: the call has no in/out argument, or a null pointer was
    /// passed for it.
    Nothing,
    /// The `int` in/out argument after the call.
    Int(i32),
    /// The `float` in/out argument after the call, as its bit pattern.
    Bits(u32),
    /// Three consecutive `float` in/out arguments after the call.
    Bits3 { r: u32, g: u32, b: u32 },
    /// Four consecutive `float` in/out arguments after the call.
    Bits4 { r: u32, g: u32, b: u32, a: u32 },
    /// The address of a created context; 0 is the null pointer.
    Handle(usize),
}

/// What the native side reports for one executed [`NativeCall`].
#[derive(Debug, Clone, Copy, PartialEq, Eq, Structural)]
pub struct NativeReply {
    /// The entry point's integer result; 0 where it returns none.
    pub ret: i32,
    /// What else came back.
    pub out: Output,
}

impl NativeReply {
    /// The reply's integer result read as a boolean.
    pub open spec fn truth(&self) -> bool {
        bool_of_int(self.ret)
    }

    /// The context handle that the reply carries; null where it carries none.
    pub open spec fn handle(&self) -> usize {
        match self.out {
            Output::Handle(h) => h,
            _ => 0,
        }
    }

    /// The value a host flag has after the call, given its value before.
    pub open spec fn flag_after(&self, before: bool) -> bool {
        match self.out {
            Output::Int(v) => bool_of_int(v),
            _ => before,
        }
    }

    /// The value a host integer has after the call, given its value before.
    pub open spec fn int_after(&self, before: i32) -> i32 {
        match self.out {
            Output::Int(v) => v,
            _ => before,
        }
    }

    /// The value a host float (as bits) has after the call, given its value
    /// before.
    pub open spec fn bits_after(&self, before: u32) -> u32 {
        match self.out {
            Output::Bits(v) => v,
            _ => before,
        }
    }

    /// The channels a host RGB colour has after the call, given its
    /// channels before.
    pub open spec fn color3_after(&self, before: Seq<u32>) -> Seq<u32> {
        match self.out {
            Output::Bits3 { r, g, b } => seq![r, g, b],
            _ => before,
        }
    }

    /// The channels a host RGBA colour has after the call, given its
    /// channels before.
    pub open spec fn color4_after(&self, before: Seq<u32>) -> Seq<u32> {
        match self.out {
            Output::Bits4 { r, g, b, a } => seq![r, g, b, a],
            _ => before,
        }
    }

    /// Whether the entry point returned true (any non-zero integer).
    pub fn returned_true(&self) -> (r: bool)
        ensures
            r == self.truth(),
    {
        int_to_bool(self.ret)
    }

    /// The context handle that the entry point returned; null when the
    /// reply carries none.
    pub fn returned_handle(&self) -> (r: usize)
        ensures
            r == self.handle(),
    {
        match self.out {
            Output::Handle(h) => h,
            _ => 0,
        }
    }

    /// Writes the reported `int` back into a host flag. The flag keeps
    /// its value when the reply carries no `int`.
    pub fn store_flag(&self, v: &mut bool)
        ensures
            *final(v) == self.flag_after(*old(v)),
    {
        match self.out {
            Output::Int(x) => {
                *v = int_to_bool(x);
            },
            _ => {},
        }
    }

    /// Writes the reported `int` back into an optional host flag.
    /// Nothing is written when the caller passed none.
    pub fn store_open(&self, open: Option<&mut bool>)
        ensures
            match open {
                Some(flag) => *final(flag) == self.flag_after(*flag),
                None => true,
            },
    {
        match open {
            Some(flag) => {
                self.store_flag(flag);
            },
            None => {},
        }
    }

    /// Writes the reported `int` back into a host integer.
    pub fn store_int(&self, v: &mut i32)
        ensures
            *final(v) == self.int_after(*old(v)),
    {
        match self.out {
            Output::Int(x) => {
                *v = x;
            },
            _ => {},
        }
    }

    /// Writes the reported `float` back into a host float's bits.
    pub fn store_bits(&self, v: &mut u32)
        ensures
            *final(v) == self.bits_after(*old(v)),
    {
        match self.out {
            Output::Bits(x) => {
                *v = x;
            },
            _ => {},
        }
    }

    /// Writes the three reported `float`s back into a host RGB colour.
    pub fn store_color3(&self, col: &mut [u32; 3])
        ensures
            final(col)@ == self.color3_after(old(col)@),
    {
        match self.out {
            Output::Bits3 { r, g, b } => {
                *col = [r, g, b];
            },
            _ => {},
        }
    }

    /// Writes the four reported `float`s back into a host RGBA colour.
    pub fn store_color4(&self, col: &mut [u32; 4])
        ensures
            final(col)@ == self.color4_after(old(col)@),
    {
        match self.out {
            Output::Bits4 { r, g, b, a } => {
                *col = [r, g, b, a];
            },
            _ => {},
        }
    }
}

} // verus!
