use wilhelm_renderer_imgui::{
    cond, table_flags, window_flags, CText, ImGui, NativeCall, NativeReply, NulError, Output,
};

fn shim() -> ImGui {
    let (_, stage) = ImGui::new(0x5000, true);
    let (_, stage) = stage.created(&NativeReply { ret: 0, out: Output::Handle(0xabc) }).unwrap();
    let (_, stage) = stage.initialized(&NativeReply { ret: 1, out: Output::Nothing }).unwrap();
    stage.initialized(&NativeReply { ret: 1, out: Output::Nothing }).unwrap()
}

fn c(s: &str) -> CText {
    CText::new(s).unwrap()
}

fn bits(v: f32) -> u32 {
    v.to_bits()
}

// ---- Optional arguments ----

#[test]
fn begin_without_open_flag_forwards_null() {
    let call = shim().begin("Debug", None, 0).unwrap();
    match call {
        NativeCall::Begin { name, p_open, flags } => {
            assert_eq!(name.as_bytes(), b"Debug\0");
            assert_eq!(p_open, None);
            assert_eq!(flags, 0);
        }
        other => panic!("unexpected call {:?}", other),
    }
}

#[test]
fn begin_with_open_flag_forwards_its_value() {
    let flags = window_flags::NO_RESIZE | window_flags::MENU_BAR;
    assert_eq!(
        shim().begin("Debug", Some(true), flags),
        Ok(NativeCall::Begin { name: c("Debug"), p_open: Some(1), flags: 1026 })
    );
    assert_eq!(
        shim().begin("Debug", Some(false), 0),
        Ok(NativeCall::Begin { name: c("Debug"), p_open: Some(0), flags: 0 })
    );
}

#[test]
fn begin_popup_modal_without_open_flag_forwards_null() {
    assert_eq!(
        shim().begin_popup_modal("Confirm", None, 64),
        Ok(NativeCall::BeginPopupModal { name: c("Confirm"), p_open: None, flags: 64 })
    );
}

#[test]
fn begin_popup_modal_with_open_flag_forwards_its_value() {
    assert_eq!(
        shim().begin_popup_modal("Confirm", Some(true), 0),
        Ok(NativeCall::BeginPopupModal { name: c("Confirm"), p_open: Some(1), flags: 0 })
    );
}

#[test]
fn show_demo_window_without_open_flag_forwards_null() {
    assert_eq!(shim().show_demo_window(None), NativeCall::ShowDemoWindow { p_open: None });
}

#[test]
fn show_demo_window_with_open_flag_forwards_its_value() {
    assert_eq!(
        shim().show_demo_window(Some(true)),
        NativeCall::ShowDemoWindow { p_open: Some(1) }
    );
    assert_eq!(
        shim().show_demo_window(Some(false)),
        NativeCall::ShowDemoWindow { p_open: Some(0) }
    );
}

#[test]
fn menu_item_without_shortcut_forwards_null() {
    let call = shim().menu_item("Open", None, false, true).unwrap();
    match call {
        NativeCall::MenuItem { label, shortcut, selected, enabled } => {
            assert_eq!(label.as_bytes(), b"Open\0");
            assert!(shortcut.is_none());
            assert_eq!(selected, 0);
            assert_eq!(enabled, 1);
        }
        other => panic!("unexpected call {:?}", other),
    }
}

#[test]
fn menu_item_with_shortcut_forwards_its_text() {
    let call = shim().menu_item("Save", Some("Ctrl+S"), true, false).unwrap();
    match call {
        NativeCall::MenuItem { label, shortcut, selected, enabled } => {
            assert_eq!(label.as_bytes(), b"Save\0");
            assert_eq!(shortcut.unwrap().as_bytes(), b"Ctrl+S\0");
            assert_eq!(selected, 1);
            assert_eq!(enabled, 0);
        }
        other => panic!("unexpected call {:?}", other),
    }
}

#[test]
fn empty_shortcut_is_not_a_null_pointer() {
    assert_eq!(
        shim().menu_item("Save", Some(""), false, true),
        Ok(NativeCall::MenuItem {
            label: c("Save"),
            shortcut: Some(c("")),
            selected: 0,
            enabled: 1,
        })
    );
}

// ---- Boolean in/out round trip ----

#[test]
fn checkbox_flag_round_trips_through_the_native_side() {
    let imgui = shim();
    let mut checked = true;
    let call = imgui.checkbox("Enabled", checked).unwrap();
    assert_eq!(call, NativeCall::Checkbox { label: c("Enabled"), v: 1 });
    // The native side unticks the box and says that the value changed.
    let reply = NativeReply { ret: 1, out: Output::Int(0) };
    reply.store_flag(&mut checked);
    assert!(reply.returned_true());
    assert!(!checked);
}

#[test]
fn untouched_checkbox_keeps_its_value() {
    let imgui = shim();
    for initial in [true, false] {
        let mut checked = initial;
        let sent = match imgui.checkbox("Enabled", checked).unwrap() {
            NativeCall::Checkbox { v, .. } => v,
            other => panic!("unexpected call {:?}", other),
        };
        let reply = NativeReply { ret: 0, out: Output::Int(sent) };
        reply.store_flag(&mut checked);
        assert!(!reply.returned_true());
        assert_eq!(checked, initial);
    }
}

#[test]
fn window_closed_by_its_button_clears_the_open_flag() {
    let imgui = shim();
    let mut open = true;
    let call = imgui.begin("Tools", Some(open), 0).unwrap();
    assert_eq!(call, NativeCall::Begin { name: c("Tools"), p_open: Some(1), flags: 0 });
    let reply = NativeReply { ret: 1, out: Output::Int(0) };
    reply.store_open(Some(&mut open));
    assert!(!open);
    assert!(reply.returned_true());
}

// ---- Embedded zero bytes ----

#[test]
fn every_text_operation_rejects_an_embedded_nul() {
    let g = shim();
    let bad = "ab\0cd";
    let err = Err(NulError { position: 2 });
    assert_eq!(g.begin(bad, None, 0), err);
    assert_eq!(g.begin(bad, Some(true), 0), err);
    assert_eq!(g.text(bad), err);
    assert_eq!(g.button(bad), err);
    assert_eq!(g.checkbox(bad, true), err);
    assert_eq!(g.slider_float(bad, 0, 0, 0), err);
    assert_eq!(g.slider_int(bad, 0, 0, 10), err);
    assert_eq!(g.input_float(bad, 0), err);
    assert_eq!(g.input_int(bad, 0), err);
    assert_eq!(g.color_edit3(bad, &[0, 0, 0]), err);
    assert_eq!(g.color_edit4(bad, &[0, 0, 0, 0]), err);
    assert_eq!(g.tree_node(bad), err);
    assert_eq!(g.begin_combo(bad, "preview", 0), err);
    assert_eq!(g.selectable(bad, false, 0), err);
    assert_eq!(g.begin_menu(bad, true), err);
    assert_eq!(g.menu_item(bad, None, false, true), err);
    assert_eq!(g.set_tooltip(bad), err);
    assert_eq!(g.begin_popup(bad, 0), err);
    assert_eq!(g.begin_popup_modal(bad, None, 0), err);
    assert_eq!(g.open_popup(bad), err);
    assert_eq!(g.begin_table(bad, 3, 0), err);
    assert_eq!(g.table_setup_column(bad, 0, 0), err);
    assert_eq!(g.push_id(bad), err);
}

#[test]
fn nul_in_the_second_text_is_rejected() {
    let g = shim();
    assert_eq!(g.begin_combo("label", "pre\0view", 0), Err(NulError { position: 3 }));
    assert_eq!(g.menu_item("label", Some("\0"), false, true), Err(NulError { position: 0 }));
}

#[test]
fn nul_in_the_first_text_is_reported_first() {
    let g = shim();
    assert_eq!(g.begin_combo("labe\0l", "\0preview", 0), Err(NulError { position: 4 }));
    assert_eq!(g.menu_item("l\0", Some("ab\0"), false, true), Err(NulError { position: 1 }));
}

#[test]
fn text_is_never_truncated_at_a_nul() {
    // A truncating conversion would forward "ab"; the operation fails instead.
    let g = shim();
    assert!(g.text("ab\0cd").is_err());
    assert_ne!(g.text("ab\0cd"), g.text("ab"));
}

// ---- Windows ----

#[test]
fn end_closes_the_window() {
    assert_eq!(shim().end(), NativeCall::End);
}

#[test]
fn next_window_position_is_forwarded() {
    assert_eq!(
        shim().set_next_window_pos(bits(10.0), bits(20.5), cond::ONCE),
        NativeCall::SetNextWindowPos { x: 0x4120_0000, y: 0x41a4_0000, cond: 2 }
    );
}

#[test]
fn next_window_size_is_forwarded() {
    assert_eq!(
        shim().set_next_window_size(bits(800.0), bits(600.0), cond::FIRST_USE_EVER),
        NativeCall::SetNextWindowSize { width: bits(800.0), height: bits(600.0), cond: 4 }
    );
}

// ---- Widgets ----

#[test]
fn text_is_forwarded() {
    assert_eq!(shim().text("Hello, ImGui!"), Ok(NativeCall::Text { text: c("Hello, ImGui!") }));
}

#[test]
fn button_is_forwarded() {
    assert_eq!(shim().button("Apply"), Ok(NativeCall::Button { label: c("Apply") }));
}

#[test]
fn checkbox_forwards_the_flag_as_integer() {
    assert_eq!(shim().checkbox("On", false), Ok(NativeCall::Checkbox { label: c("On"), v: 0 }));
    assert_eq!(shim().checkbox("On", true), Ok(NativeCall::Checkbox { label: c("On"), v: 1 }));
}

#[test]
fn slider_float_forwards_value_and_range() {
    assert_eq!(
        shim().slider_float("Scale", bits(1.0), bits(0.1), bits(3.0)),
        Ok(NativeCall::SliderFloat {
            label: c("Scale"),
            v: 0x3f80_0000,
            v_min: bits(0.1),
            v_max: 0x4040_0000,
        })
    );
}

#[test]
fn slider_int_forwards_value_and_range() {
    assert_eq!(
        shim().slider_int("Count", 5, -10, 10),
        Ok(NativeCall::SliderInt { label: c("Count"), v: 5, v_min: -10, v_max: 10 })
    );
}

#[test]
fn input_float_is_forwarded() {
    assert_eq!(
        shim().input_float("Width", bits(-2.5)),
        Ok(NativeCall::InputFloat { label: c("Width"), v: 0xc020_0000 })
    );
}

#[test]
fn input_int_is_forwarded() {
    assert_eq!(
        shim().input_int("Rows", i32::MIN),
        Ok(NativeCall::InputInt { label: c("Rows"), v: i32::MIN })
    );
}

#[test]
fn color_edit3_forwards_channels_in_order() {
    assert_eq!(
        shim().color_edit3("Fill", &[bits(0.2), bits(0.6), bits(0.9)]),
        Ok(NativeCall::ColorEdit3 { label: c("Fill"), r: bits(0.2), g: bits(0.6), b: bits(0.9) })
    );
}

#[test]
fn color_edit4_forwards_channels_in_order() {
    assert_eq!(
        shim().color_edit4("Fill", &[1, 2, 3, 4]),
        Ok(NativeCall::ColorEdit4 { label: c("Fill"), r: 1, g: 2, b: 3, a: 4 })
    );
}

// ---- Layout ----

#[test]
fn layout_calls_are_forwarded() {
    let g = shim();
    assert_eq!(g.same_line(), NativeCall::SameLine);
    assert_eq!(g.separator(), NativeCall::Separator);
    assert_eq!(g.spacing(), NativeCall::Spacing);
    assert_eq!(
        g.dummy(bits(4.0), bits(8.0)),
        NativeCall::Dummy { width: 0x4080_0000, height: 0x4100_0000 }
    );
    assert_eq!(g.indent(bits(16.0)), NativeCall::Indent { indent_w: 0x4180_0000 });
    assert_eq!(g.unindent(bits(16.0)), NativeCall::Unindent { indent_w: 0x4180_0000 });
}

#[test]
fn dummy_keeps_width_and_height_apart() {
    assert_eq!(shim().dummy(1, 2), NativeCall::Dummy { width: 1, height: 2 });
}

// ---- Trees and combo boxes ----

#[test]
fn tree_calls_are_forwarded() {
    let g = shim();
    assert_eq!(g.tree_node("Scene"), Ok(NativeCall::TreeNode { label: c("Scene") }));
    assert_eq!(g.tree_pop(), NativeCall::TreePop);
}

#[test]
fn combo_calls_are_forwarded() {
    let g = shim();
    assert_eq!(
        g.begin_combo("Mode", "Fill", 3),
        Ok(NativeCall::BeginCombo { label: c("Mode"), preview_value: c("Fill"), flags: 3 })
    );
    assert_eq!(g.end_combo(), NativeCall::EndCombo);
}

#[test]
fn selectable_forwards_selection_and_flags() {
    let g = shim();
    assert_eq!(
        g.selectable("Fill", true, 4),
        Ok(NativeCall::Selectable { label: c("Fill"), selected: 1, flags: 4 })
    );
    assert_eq!(
        g.selectable("Stroke", false, 0),
        Ok(NativeCall::Selectable { label: c("Stroke"), selected: 0, flags: 0 })
    );
}

// ---- Menus and tooltips ----

#[test]
fn menu_bar_calls_are_forwarded() {
    let g = shim();
    assert_eq!(g.begin_main_menu_bar(), NativeCall::BeginMainMenuBar);
    assert_eq!(g.end_main_menu_bar(), NativeCall::EndMainMenuBar);
    assert_eq!(g.end_menu(), NativeCall::EndMenu);
}

#[test]
fn begin_menu_forwards_the_enabled_flag() {
    let g = shim();
    assert_eq!(
        g.begin_menu("File", true),
        Ok(NativeCall::BeginMenu { label: c("File"), enabled: 1 })
    );
    assert_eq!(
        g.begin_menu("Edit", false),
        Ok(NativeCall::BeginMenu { label: c("Edit"), enabled: 0 })
    );
}

#[test]
fn menu_item_keeps_selected_and_enabled_apart() {
    let g = shim();
    assert_eq!(
        g.menu_item("Grid", None, true, false),
        Ok(NativeCall::MenuItem { label: c("Grid"), shortcut: None, selected: 1, enabled: 0 })
    );
    assert_eq!(
        g.menu_item("Grid", None, false, true),
        Ok(NativeCall::MenuItem { label: c("Grid"), shortcut: None, selected: 0, enabled: 1 })
    );
}

#[test]
fn tooltip_calls_are_forwarded() {
    let g = shim();
    assert_eq!(
        g.set_tooltip("Resets the view"),
        Ok(NativeCall::SetTooltip { text: c("Resets the view") })
    );
    assert_eq!(g.begin_tooltip(), NativeCall::BeginTooltip);
    assert_eq!(g.end_tooltip(), NativeCall::EndTooltip);
}

// ---- Popups ----

#[test]
fn popup_calls_are_forwarded() {
    let g = shim();
    assert_eq!(g.begin_popup("ctx", 8), Ok(NativeCall::BeginPopup { str_id: c("ctx"), flags: 8 }));
    assert_eq!(g.open_popup("ctx"), Ok(NativeCall::OpenPopup { str_id: c("ctx") }));
    assert_eq!(g.end_popup(), NativeCall::EndPopup);
    assert_eq!(g.close_current_popup(), NativeCall::CloseCurrentPopup);
}

// ---- Tables ----

#[test]
fn begin_table_forwards_columns_and_flags() {
    let flags = table_flags::BORDERS | table_flags::ROW_BG;
    assert_eq!(
        shim().begin_table("grid", 3, flags),
        Ok(NativeCall::BeginTable { str_id: c("grid"), column: 3, flags: 1984 })
    );
}

#[test]
fn table_calls_are_forwarded() {
    let g = shim();
    assert_eq!(g.end_table(), NativeCall::EndTable);
    assert_eq!(g.table_next_row(), NativeCall::TableNextRow);
    assert_eq!(g.table_next_column(), NativeCall::TableNextColumn);
    assert_eq!(g.table_set_column_index(2), NativeCall::TableSetColumnIndex { column_n: 2 });
    assert_eq!(g.table_headers_row(), NativeCall::TableHeadersRow);
}

#[test]
fn table_setup_column_keeps_flags_and_width_apart() {
    assert_eq!(
        shim().table_setup_column("Name", 16, bits(120.0)),
        Ok(NativeCall::TableSetupColumn {
            label: c("Name"),
            flags: 16,
            init_width_or_weight: 0x42f0_0000,
        })
    );
}

// ---- Stacks ----

#[test]
fn push_style_color_forwards_slot_and_channels() {
    assert_eq!(
        shim().push_style_color(wilhelm_renderer_imgui::col::BUTTON, 1, 2, 3, 4),
        NativeCall::PushStyleColor { idx: 21, r: 1, g: 2, b: 3, a: 4 }
    );
}

#[test]
fn pop_style_color_forwards_the_count() {
    assert_eq!(shim().pop_style_color(2), NativeCall::PopStyleColor { count: 2 });
}

#[test]
fn identifier_stack_calls_are_forwarded() {
    let g = shim();
    assert_eq!(g.push_id_int(-4), NativeCall::PushIdInt { int_id: -4 });
    assert_eq!(g.push_id("row"), Ok(NativeCall::PushIdStr { str_id: c("row") }));
    assert_eq!(g.pop_id(), NativeCall::PopId);
}

// ---- Queries ----

#[test]
fn query_calls_are_forwarded() {
    let g = shim();
    assert_eq!(g.want_capture_mouse(), NativeCall::IoWantCaptureMouse);
    assert_eq!(g.want_capture_keyboard(), NativeCall::IoWantCaptureKeyboard);
    assert_eq!(g.is_item_hovered(), NativeCall::IsItemHovered);
    assert_eq!(g.is_item_clicked(1), NativeCall::IsItemClicked { mouse_button: 1 });
    assert_eq!(g.is_item_active(), NativeCall::IsItemActive);
}

#[test]
fn query_result_is_decoded_from_the_reply() {
    let yes = NativeReply { ret: 1, out: Output::Nothing };
    let no = NativeReply { ret: 0, out: Output::Nothing };
    assert!(yes.returned_true());
    assert!(!no.returned_true());
}

#[test]
fn calls_do_not_depend_on_earlier_calls() {
    let g = shim();
    let first = g.button("Apply");
    let _ = g.begin("Other", Some(true), 7);
    let _ = g.text("noise");
    let second = g.button("Apply");
    assert_eq!(first, second);
}
