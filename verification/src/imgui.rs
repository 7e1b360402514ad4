//! The binding shim: one context per [`ImGui`] value, and one native entry
//! point per operation.
//!
//! Every operation is described, not performed. A method marshals its host
//! arguments and returns the [`NativeCall`] to execute; the caller executes
//! it and decodes the outcome with the methods of
//! [`NativeReply`](crate::native::NativeReply). The shim keeps no record of
//! open windows, popups or stacks: pairing `begin_*` with `end_*` and `push_*`
//! with `pop_*` is left to the caller and to the native library.
//!
//! Floating-point arguments are bit patterns, as `f32::to_bits` gives them.

use crate::convert::{bool_to_int, flag_to_slot, int_of_bool, slot_of_flag};
use crate::native::{call_views, NativeCall, NativeCallView};
use crate::setup::ContextPending;
use crate::text::{c_text, has_nul, is_first_nul, CText, NulError};
use std::marker::PhantomData;
use std::rc::Rc;
use vstd::prelude::*;
use vstd::string::StringSliceAdditionalSpecFns;

verus! {

/// The bytes of an optional text; an absent text has none.
pub open spec fn text_opt_bytes(text: Option<&str>) -> Seq<u8> {
    match text {
        Some(s) => s.spec_bytes(),
        None => Seq::empty(),
    }
}

/// The buffer passed for an optional text; an absent text is a null pointer.
pub open spec fn c_text_opt(text: Option<&str>) -> Option<Seq<u8>> {
    match text {
        Some(s) => Some(c_text(s.spec_bytes())),
        None => None,
    }
}

/// The outcome of marshalling an operation with one text argument: the call
/// when the text holds no zero byte, else the position of its first one.
pub open spec fn marshalled(
    r: Result<NativeCall, NulError>,
    text: Seq<u8>,
    call: NativeCallView,
) -> bool {
    match r {
        Ok(c) => !has_nul(text) && c@ == call,
        Err(e) => is_first_nul(text, e.position as int),
    }
}

/// The outcome of marshalling an operation with two text arguments: the
/// call when neither holds a zero byte, else the position of the first zero
/// byte of the first text that holds one.
pub open spec fn marshalled2(
    r: Result<NativeCall, NulError>,
    first: Seq<u8>,
    second: Seq<u8>,
    call: NativeCallView,
) -> bool {
    match r {
        Ok(c) => !has_nul(first) && !has_nul(second) && c@ == call,
        Err(e) => if has_nul(first) {
            is_first_nul(first, e.position as int)
        } else {
            is_first_nul(second, e.position as int)
        },
    }
}

/// The calls that end one frame: finalise it, then submit its draw data.
pub open spec fn render_calls() -> Seq<NativeCallView> {
    seq![NativeCall::Render, NativeCall::Opengl3RenderDrawData]
}

/// The calls that release a fully constructed shim: the backends go in the
/// reverse order of their start, the context they point into goes last.
pub open spec fn teardown_calls(ctx: usize) -> Seq<NativeCallView> {
    seq![
        NativeCall::ShutdownOpengl3,
        NativeCall::ShutdownGlfw,
        NativeCall::DestroyContext { ctx: ctx },
    ]
}

/// A live context with both backends running.
///
/// The value owns the native context: it cannot be copied, and
/// [`teardown`](ImGui::teardown) consumes it, so the context is released at
/// most once.
#[derive(Debug)]
pub struct ImGui {
    ctx: usize,
    // The native library keeps one current context and is not to be entered
    // from two threads; the marker keeps the value on the thread that made it.
    thread_bound: PhantomData<Rc<()>>,
}

impl ImGui {
    #[verifier::type_invariant]
    spec fn inv(self) -> bool {
        self.ctx != 0
    }

    /// The handle of the owned context.
    pub closed spec fn context(&self) -> usize {
        self.ctx
    }

    /// The shim for a context whose backends both run.
    pub(crate) fn with_context(ctx: usize) -> (r: ImGui)
        requires
            ctx != 0,
        ensures
            r.context() == ctx,
    {
        ImGui { ctx, thread_bound: PhantomData }
    }

    // ---- Lifecycle ----

    /// Starts construction for the window at address `window`. The window
    /// stays the caller's and has to outlive the shim. Construction begins
    /// with the creation of a context and goes on stage by stage as the
    /// native outcomes are fed in.
    pub fn new(window: usize, install_callbacks: bool) -> (r: (NativeCall, ContextPending))
        ensures
            r.0@ == NativeCallView::CreateContext,
            r.1.window() == window,
            r.1.install_callbacks() == install_callbacks,
    {
        (NativeCall::CreateContext, ContextPending::start(window, install_callbacks))
    }

    /// Gives the shim up: the rendering backend is shut down, then the
    /// windowing backend, then the context is destroyed.
    pub fn teardown(self) -> (calls: Vec<NativeCall>)
        ensures
            self.context() != 0,
            call_views(calls@) == teardown_calls(self.context()),
    {
        proof {
            use_type_invariant(&self);
        }
        let mut calls: Vec<NativeCall> = Vec::new();
        calls.push(NativeCall::ShutdownOpengl3);
        calls.push(NativeCall::ShutdownGlfw);
        calls.push(NativeCall::DestroyContext { ctx: self.ctx });
        assert(call_views(calls@) =~= teardown_calls(self.ctx));
        calls
    }

    // ---- Frame ----

    /// Begins a frame; due once per frame before any widget.
    pub fn new_frame(&self) -> (call: NativeCall)
        ensures
            call@ == NativeCallView::NewFrame,
    {
        NativeCall::NewFrame
    }

    /// Ends a frame; due once per frame after the last widget.
    pub fn render(&self) -> (calls: Vec<NativeCall>)
        ensures
            call_views(calls@) == render_calls(),
    {
        let mut calls: Vec<NativeCall> = Vec::new();
        calls.push(NativeCall::Render);
        calls.push(NativeCall::Opengl3RenderDrawData);
        assert(call_views(calls@) =~= render_calls());
        calls
    }

    // ---- Input capture ----

    /// Asks whether the GUI wants the mouse, as when the pointer is over one
    /// of its windows.
    pub fn want_capture_mouse(&self) -> (call: NativeCall)
        ensures
            call@ == NativeCallView::IoWantCaptureMouse,
    {
        NativeCall::IoWantCaptureMouse
    }

    /// Asks whether the GUI wants the keyboard.
    pub fn want_capture_keyboard(&self) -> (call: NativeCall)
        ensures
            call@ == NativeCallView::IoWantCaptureKeyboard,
    {
        NativeCall::IoWantCaptureKeyboard
    }

    // ---- Windows ----

    /// Opens a window. The native result tells whether the window is visible and
    /// not collapsed; `end` is due either way. With `open` present the window has
    /// a close button and the flag is an in/out argument; absent, a null pointer
    /// is passed.
    pub fn begin(
        &self,
        name: &str,
        open: Option<bool>,
        flags: i32,
    ) -> (r: Result<NativeCall, NulError>)
        ensures
            marshalled(
                r,
                name.spec_bytes(),
                (NativeCallView::Begin {
                    name: c_text(name.spec_bytes()),
                    p_open: slot_of_flag(open),
                    flags: flags,
                }),
            ),
    {
        let name_c = CText::new(name)?;
        Ok(NativeCall::Begin { name: name_c, p_open: flag_to_slot(open), flags })
    }

    /// Closes the window opened last.
    pub fn end(&self) -> (call: NativeCall)
        ensures
            call@ == NativeCallView::End,
    {
        NativeCall::End
    }

    /// Places the next window. `cond` is one of the [`cond`](crate::cond) values.
    pub fn set_next_window_pos(&self, x: u32, y: u32, cond: i32) -> (call: NativeCall)
        ensures
            call@ == (NativeCallView::SetNextWindowPos { x: x, y: y, cond: cond }),
    {
        NativeCall::SetNextWindowPos { x, y, cond }
    }

    /// Sizes the next window. `cond` is one of the [`cond`](crate::cond) values.
    pub fn set_next_window_size(&self, width: u32, height: u32, cond: i32) -> (call: NativeCall)
        ensures
            call@ == (NativeCallView::SetNextWindowSize {
                width: width,
                height: height,
                cond: cond,
            }),
    {
        NativeCall::SetNextWindowSize { width, height, cond }
    }

    // ---- Widgets ----

    /// Shows a line of text.
    pub fn text(&self, text: &str) -> (r: Result<NativeCall, NulError>)
        ensures
            marshalled(
                r,
                text.spec_bytes(),
                (NativeCallView::Text { text: c_text(text.spec_bytes()) }),
            ),
    {
        let text_c = CText::new(text)?;
        Ok(NativeCall::Text { text: text_c })
    }

    /// A button. The native result tells whether it was clicked.
    pub fn button(&self, label: &str) -> (r: Result<NativeCall, NulError>)
        ensures
            marshalled(
                r,
                label.spec_bytes(),
                (NativeCallView::Button { label: c_text(label.spec_bytes()) }),
            ),
    {
        let label_c = CText::new(label)?;
        Ok(NativeCall::Button { label: label_c })
    }

    /// A checkbox over the in/out flag `v`. The native result tells whether the
    /// flag changed.
    pub fn checkbox(&self, label: &str, v: bool) -> (r: Result<NativeCall, NulError>)
        ensures
            marshalled(
                r,
                label.spec_bytes(),
                (NativeCallView::Checkbox { label: c_text(label.spec_bytes()), v: int_of_bool(v) }),
            ),
    {
        let label_c = CText::new(label)?;
        Ok(NativeCall::Checkbox { label: label_c, v: bool_to_int(v) })
    }

    /// A slider over the in/out float `v` within `min..=max`.
    pub fn slider_float(
        &self,
        label: &str,
        v: u32,
        min: u32,
        max: u32,
    ) -> (r: Result<NativeCall, NulError>)
        ensures
            marshalled(
                r,
                label.spec_bytes(),
                (NativeCallView::SliderFloat {
                    label: c_text(label.spec_bytes()),
                    v: v,
                    v_min: min,
                    v_max: max,
                }),
            ),
    {
        let label_c = CText::new(label)?;
        Ok(NativeCall::SliderFloat { label: label_c, v, v_min: min, v_max: max })
    }

    /// A slider over the in/out integer `v` within `min..=max`.
    pub fn slider_int(
        &self,
        label: &str,
        v: i32,
        min: i32,
        max: i32,
    ) -> (r: Result<NativeCall, NulError>)
        ensures
            marshalled(
                r,
                label.spec_bytes(),
                (NativeCallView::SliderInt {
                    label: c_text(label.spec_bytes()),
                    v: v,
                    v_min: min,
                    v_max: max,
                }),
            ),
    {
        let label_c = CText::new(label)?;
        Ok(NativeCall::SliderInt { label: label_c, v, v_min: min, v_max: max })
    }

    /// An input field over the in/out float `v`.
    pub fn input_float(&self, label: &str, v: u32) -> (r: Result<NativeCall, NulError>)
        ensures
            marshalled(
                r,
                label.spec_bytes(),
                (NativeCallView::InputFloat { label: c_text(label.spec_bytes()), v: v }),
            ),
    {
        let label_c = CText::new(label)?;
        Ok(NativeCall::InputFloat { label: label_c, v })
    }

    /// An input field over the in/out integer `v`.
    pub fn input_int(&self, label: &str, v: i32) -> (r: Result<NativeCall, NulError>)
        ensures
            marshalled(
                r,
                label.spec_bytes(),
                (NativeCallView::InputInt { label: c_text(label.spec_bytes()), v: v }),
            ),
    {
        let label_c = CText::new(label)?;
        Ok(NativeCall::InputInt { label: label_c, v })
    }

    /// An RGB colour editor over the in/out channels `col`.
    pub fn color_edit3(&self, label: &str, col: &[u32; 3]) -> (r: Result<NativeCall, NulError>)
        ensures
            marshalled(
                r,
                label.spec_bytes(),
                (NativeCallView::ColorEdit3 {
                    label: c_text(label.spec_bytes()),
                    r: col@[0],
                    g: col@[1],
                    b: col@[2],
                }),
            ),
    {
        let label_c = CText::new(label)?;
        Ok(NativeCall::ColorEdit3 { label: label_c, r: col[0], g: col[1], b: col[2] })
    }

    /// An RGBA colour editor over the in/out channels `col`.
    pub fn color_edit4(&self, label: &str, col: &[u32; 4]) -> (r: Result<NativeCall, NulError>)
        ensures
            marshalled(
                r,
                label.spec_bytes(),
                (NativeCallView::ColorEdit4 {
                    label: c_text(label.spec_bytes()),
                    r: col@[0],
                    g: col@[1],
                    b: col@[2],
                    a: col@[3],
                }),
            ),
    {
        let label_c = CText::new(label)?;
        Ok(NativeCall::ColorEdit4 { label: label_c, r: col[0], g: col[1], b: col[2], a: col[3] })
    }

    // ---- Layout ----

    /// Keeps the next widget on the current line.
    pub fn same_line(&self) -> (call: NativeCall)
        ensures
            call@ == NativeCallView::SameLine,
    {
        NativeCall::SameLine
    }

    /// A horizontal separator.
    pub fn separator(&self) -> (call: NativeCall)
        ensures
            call@ == NativeCallView::Separator,
    {
        NativeCall::Separator
    }

    /// Vertical spacing.
    pub fn spacing(&self) -> (call: NativeCall)
        ensures
            call@ == NativeCallView::Spacing,
    {
        NativeCall::Spacing
    }

    /// An empty item of the given size.
    pub fn dummy(&self, width: u32, height: u32) -> (call: NativeCall)
        ensures
            call@ == (NativeCallView::Dummy { width: width, height: height }),
    {
        NativeCall::Dummy { width, height }
    }

    /// Moves the content to the right.
    pub fn indent(&self, indent_w: u32) -> (call: NativeCall)
        ensures
            call@ == (NativeCallView::Indent { indent_w: indent_w }),
    {
        NativeCall::Indent { indent_w }
    }

    /// Moves the content back to the left.
    pub fn unindent(&self, indent_w: u32) -> (call: NativeCall)
        ensures
            call@ == (NativeCallView::Unindent { indent_w: indent_w }),
    {
        NativeCall::Unindent { indent_w }
    }

    // ---- Trees ----

    /// A tree node. The native result tells whether it is open; `tree_pop` is due
    /// only then.
    pub fn tree_node(&self, label: &str) -> (r: Result<NativeCall, NulError>)
        ensures
            marshalled(
                r,
                label.spec_bytes(),
                (NativeCallView::TreeNode { label: c_text(label.spec_bytes()) }),
            ),
    {
        let label_c = CText::new(label)?;
        Ok(NativeCall::TreeNode { label: label_c })
    }

    /// Leaves a tree node that reported itself open.
    pub fn tree_pop(&self) -> (call: NativeCall)
        ensures
            call@ == NativeCallView::TreePop,
    {
        NativeCall::TreePop
    }

    // ---- Combo boxes ----

    /// Opens a combo box. `end_combo` is due only when the native result is true.
    pub fn begin_combo(
        &self,
        label: &str,
        preview: &str,
        flags: i32,
    ) -> (r: Result<NativeCall, NulError>)
        ensures
            marshalled2(
                r,
                label.spec_bytes(),
                preview.spec_bytes(),
                (NativeCallView::BeginCombo {
                    label: c_text(label.spec_bytes()),
                    preview_value: c_text(preview.spec_bytes()),
                    flags: flags,
                }),
            ),
    {
        let label_c = CText::new(label)?;
        let preview_c = CText::new(preview)?;
        Ok(NativeCall::BeginCombo { label: label_c, preview_value: preview_c, flags })
    }

    /// Closes a combo box that reported itself open.
    pub fn end_combo(&self) -> (call: NativeCall)
        ensures
            call@ == NativeCallView::EndCombo,
    {
        NativeCall::EndCombo
    }

    /// A selectable entry of a combo box or list. The native result tells whether
    /// it was clicked.
    pub fn selectable(
        &self,
        label: &str,
        selected: bool,
        flags: i32,
    ) -> (r: Result<NativeCall, NulError>)
        ensures
            marshalled(
                r,
                label.spec_bytes(),
                (NativeCallView::Selectable {
                    label: c_text(label.spec_bytes()),
                    selected: int_of_bool(selected),
                    flags: flags,
                }),
            ),
    {
        let label_c = CText::new(label)?;
        Ok(NativeCall::Selectable { label: label_c, selected: bool_to_int(selected), flags })
    }

    // ---- Menus ----

    /// Opens the main menu bar.
    pub fn begin_main_menu_bar(&self) -> (call: NativeCall)
        ensures
            call@ == NativeCallView::BeginMainMenuBar,
    {
        NativeCall::BeginMainMenuBar
    }

    /// Closes the main menu bar.
    pub fn end_main_menu_bar(&self) -> (call: NativeCall)
        ensures
            call@ == NativeCallView::EndMainMenuBar,
    {
        NativeCall::EndMainMenuBar
    }

    /// Opens a menu.
    pub fn begin_menu(&self, label: &str, enabled: bool) -> (r: Result<NativeCall, NulError>)
        ensures
            marshalled(
                r,
                label.spec_bytes(),
                (NativeCallView::BeginMenu {
                    label: c_text(label.spec_bytes()),
                    enabled: int_of_bool(enabled),
                }),
            ),
    {
        let label_c = CText::new(label)?;
        Ok(NativeCall::BeginMenu { label: label_c, enabled: bool_to_int(enabled) })
    }

    /// Closes a menu.
    pub fn end_menu(&self) -> (call: NativeCall)
        ensures
            call@ == NativeCallView::EndMenu,
    {
        NativeCall::EndMenu
    }

    /// A menu entry. The native result tells whether it was activated. An absent
    /// `shortcut` is passed as a null pointer.
    pub fn menu_item(
        &self,
        label: &str,
        shortcut: Option<&str>,
        selected: bool,
        enabled: bool,
    ) -> (r: Result<NativeCall, NulError>)
        ensures
            marshalled2(
                r,
                label.spec_bytes(),
                text_opt_bytes(shortcut),
                (NativeCallView::MenuItem {
                    label: c_text(label.spec_bytes()),
                    shortcut: c_text_opt(shortcut),
                    selected: int_of_bool(selected),
                    enabled: int_of_bool(enabled),
                }),
            ),
    {
        let label_c = CText::new(label)?;
        let shortcut_c = CText::new_opt(shortcut)?;
        Ok(NativeCall::MenuItem {
            label: label_c,
            shortcut: shortcut_c,
            selected: bool_to_int(selected),
            enabled: bool_to_int(enabled),
        })
    }

    // ---- Tooltips ----

    /// Attaches a tooltip to the previous item.
    pub fn set_tooltip(&self, text: &str) -> (r: Result<NativeCall, NulError>)
        ensures
            marshalled(
                r,
                text.spec_bytes(),
                (NativeCallView::SetTooltip { text: c_text(text.spec_bytes()) }),
            ),
    {
        let text_c = CText::new(text)?;
        Ok(NativeCall::SetTooltip { text: text_c })
    }

    /// Opens a tooltip.
    pub fn begin_tooltip(&self) -> (call: NativeCall)
        ensures
            call@ == NativeCallView::BeginTooltip,
    {
        NativeCall::BeginTooltip
    }

    /// Closes a tooltip.
    pub fn end_tooltip(&self) -> (call: NativeCall)
        ensures
            call@ == NativeCallView::EndTooltip,
    {
        NativeCall::EndTooltip
    }

    // ---- Popups ----

    /// Opens a popup.
    pub fn begin_popup(&self, str_id: &str, flags: i32) -> (r: Result<NativeCall, NulError>)
        ensures
            marshalled(
                r,
                str_id.spec_bytes(),
                (NativeCallView::BeginPopup { str_id: c_text(str_id.spec_bytes()), flags: flags }),
            ),
    {
        let str_id_c = CText::new(str_id)?;
        Ok(NativeCall::BeginPopup { str_id: str_id_c, flags })
    }

    /// Opens a modal popup. With `open` present the flag is an in/out argument;
    /// absent, a null pointer is passed.
    pub fn begin_popup_modal(
        &self,
        name: &str,
        open: Option<bool>,
        flags: i32,
    ) -> (r: Result<NativeCall, NulError>)
        ensures
            marshalled(
                r,
                name.spec_bytes(),
                (NativeCallView::BeginPopupModal {
                    name: c_text(name.spec_bytes()),
                    p_open: slot_of_flag(open),
                    flags: flags,
                }),
            ),
    {
        let name_c = CText::new(name)?;
        Ok(NativeCall::BeginPopupModal { name: name_c, p_open: flag_to_slot(open), flags })
    }

    /// Closes a popup.
    pub fn end_popup(&self) -> (call: NativeCall)
        ensures
            call@ == NativeCallView::EndPopup,
    {
        NativeCall::EndPopup
    }

    /// Marks a popup as open.
    pub fn open_popup(&self, str_id: &str) -> (r: Result<NativeCall, NulError>)
        ensures
            marshalled(
                r,
                str_id.spec_bytes(),
                (NativeCallView::OpenPopup { str_id: c_text(str_id.spec_bytes()) }),
            ),
    {
        let str_id_c = CText::new(str_id)?;
        Ok(NativeCall::OpenPopup { str_id: str_id_c })
    }

    /// Closes the popup that is being drawn.
    pub fn close_current_popup(&self) -> (call: NativeCall)
        ensures
            call@ == NativeCallView::CloseCurrentPopup,
    {
        NativeCall::CloseCurrentPopup
    }

    // ---- Tables ----

    /// Opens a table. `flags` combines [`table_flags`](crate::table_flags) values.
    pub fn begin_table(
        &self,
        str_id: &str,
        columns: i32,
        flags: i32,
    ) -> (r: Result<NativeCall, NulError>)
        ensures
            marshalled(
                r,
                str_id.spec_bytes(),
                (NativeCallView::BeginTable {
                    str_id: c_text(str_id.spec_bytes()),
                    column: columns,
                    flags: flags,
                }),
            ),
    {
        let str_id_c = CText::new(str_id)?;
        Ok(NativeCall::BeginTable { str_id: str_id_c, column: columns, flags })
    }

    /// Closes a table.
    pub fn end_table(&self) -> (call: NativeCall)
        ensures
            call@ == NativeCallView::EndTable,
    {
        NativeCall::EndTable
    }

    /// Starts the next row.
    pub fn table_next_row(&self) -> (call: NativeCall)
        ensures
            call@ == NativeCallView::TableNextRow,
    {
        NativeCall::TableNextRow
    }

    /// Moves to the next column.
    pub fn table_next_column(&self) -> (call: NativeCall)
        ensures
            call@ == NativeCallView::TableNextColumn,
    {
        NativeCall::TableNextColumn
    }

    /// Moves to the given column.
    pub fn table_set_column_index(&self, column: i32) -> (call: NativeCall)
        ensures
            call@ == (NativeCallView::TableSetColumnIndex { column_n: column }),
    {
        NativeCall::TableSetColumnIndex { column_n: column }
    }

    /// Declares a column; to be used before the first row.
    pub fn table_setup_column(
        &self,
        label: &str,
        flags: i32,
        init_width: u32,
    ) -> (r: Result<NativeCall, NulError>)
        ensures
            marshalled(
                r,
                label.spec_bytes(),
                (NativeCallView::TableSetupColumn {
                    label: c_text(label.spec_bytes()),
                    flags: flags,
                    init_width_or_weight: init_width,
                }),
            ),
    {
        let label_c = CText::new(label)?;
        Ok(NativeCall::TableSetupColumn { label: label_c, flags, init_width_or_weight: init_width })
    }

    /// Emits the row of column headers.
    pub fn table_headers_row(&self) -> (call: NativeCall)
        ensures
            call@ == NativeCallView::TableHeadersRow,
    {
        NativeCall::TableHeadersRow
    }

    // ---- Style stack ----

    /// Pushes a colour for the slot `idx`, one of the [`col`](crate::col) values.
    pub fn push_style_color(&self, idx: i32, r: u32, g: u32, b: u32, a: u32) -> (call: NativeCall)
        ensures
            call@ == (NativeCallView::PushStyleColor { idx: idx, r: r, g: g, b: b, a: a }),
    {
        NativeCall::PushStyleColor { idx, r, g, b, a }
    }

    /// Pops `count` colours.
    pub fn pop_style_color(&self, count: i32) -> (call: NativeCall)
        ensures
            call@ == (NativeCallView::PopStyleColor { count: count }),
    {
        NativeCall::PopStyleColor { count }
    }

    // ---- Identifier stack ----

    /// Pushes an integer identifier.
    pub fn push_id_int(&self, id: i32) -> (call: NativeCall)
        ensures
            call@ == (NativeCallView::PushIdInt { int_id: id }),
    {
        NativeCall::PushIdInt { int_id: id }
    }

    /// Pushes a text identifier.
    pub fn push_id(&self, id: &str) -> (r: Result<NativeCall, NulError>)
        ensures
            marshalled(
                r,
                id.spec_bytes(),
                (NativeCallView::PushIdStr { str_id: c_text(id.spec_bytes()) }),
            ),
    {
        let id_c = CText::new(id)?;
        Ok(NativeCall::PushIdStr { str_id: id_c })
    }

    /// Pops an identifier.
    pub fn pop_id(&self) -> (call: NativeCall)
        ensures
            call@ == NativeCallView::PopId,
    {
        NativeCall::PopId
    }

    // ---- Item queries ----

    /// Asks whether the last item is hovered.
    pub fn is_item_hovered(&self) -> (call: NativeCall)
        ensures
            call@ == NativeCallView::IsItemHovered,
    {
        NativeCall::IsItemHovered
    }

    /// Asks whether the last item was clicked with the given button.
    pub fn is_item_clicked(&self, mouse_button: i32) -> (call: NativeCall)
        ensures
            call@ == (NativeCallView::IsItemClicked { mouse_button: mouse_button }),
    {
        NativeCall::IsItemClicked { mouse_button }
    }

    /// Asks whether the last item is active.
    pub fn is_item_active(&self) -> (call: NativeCall)
        ensures
            call@ == NativeCallView::IsItemActive,
    {
        NativeCall::IsItemActive
    }

    // ---- Demo ----

    /// Shows the built-in demo window. With `open` present the flag is an in/out
    /// argument; absent, a null pointer is passed.
    pub fn show_demo_window(&self, open: Option<bool>) -> (call: NativeCall)
        ensures
            call@ == (NativeCallView::ShowDemoWindow { p_open: slot_of_flag(open) }),
    {
        NativeCall::ShowDemoWindow { p_open: flag_to_slot(open) }
    }
}

} // verus!
