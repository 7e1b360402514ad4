use wilhelm_renderer_imgui::{NativeReply, Output};

fn reply(ret: i32, out: Output) -> NativeReply {
    NativeReply { ret, out }
}

#[test]
fn non_zero_result_reads_as_true() {
    assert!(reply(1, Output::Nothing).returned_true());
    assert!(reply(-1, Output::Nothing).returned_true());
    assert!(reply(42, Output::Int(0)).returned_true());
}

#[test]
fn zero_result_reads_as_false() {
    assert!(!reply(0, Output::Nothing).returned_true());
    assert!(!reply(0, Output::Int(1)).returned_true());
}

#[test]
fn flag_changed_to_false_is_seen_by_the_host() {
    let mut v = true;
    let r = reply(1, Output::Int(0));
    r.store_flag(&mut v);
    assert!(!v);
    assert!(r.returned_true());
}

#[test]
fn flag_changed_to_true_is_seen_by_the_host() {
    let mut v = false;
    reply(1, Output::Int(1)).store_flag(&mut v);
    assert!(v);
}

#[test]
fn flag_reads_any_non_zero_integer_as_true() {
    let mut v = false;
    reply(0, Output::Int(-5)).store_flag(&mut v);
    assert!(v);
}

#[test]
fn flag_is_kept_when_nothing_came_back() {
    let mut v = true;
    reply(0, Output::Nothing).store_flag(&mut v);
    assert!(v);
    let mut w = false;
    reply(1, Output::Nothing).store_flag(&mut w);
    assert!(!w);
}

#[test]
fn flag_is_kept_when_another_kind_came_back() {
    let mut v = true;
    reply(0, Output::Bits(0)).store_flag(&mut v);
    assert!(v);
    reply(0, Output::Handle(0)).store_flag(&mut v);
    assert!(v);
}

#[test]
fn optional_flag_is_written_when_present() {
    let mut open = true;
    reply(1, Output::Int(0)).store_open(Some(&mut open));
    assert!(!open);
}

#[test]
fn optional_flag_absent_writes_nothing() {
    reply(1, Output::Int(0)).store_open(None);
    reply(1, Output::Nothing).store_open(None);
}

#[test]
fn integer_is_written_back() {
    let mut v = 10;
    reply(1, Output::Int(-7)).store_int(&mut v);
    assert_eq!(v, -7);
    reply(0, Output::Nothing).store_int(&mut v);
    assert_eq!(v, -7);
    reply(0, Output::Bits(3)).store_int(&mut v);
    assert_eq!(v, -7);
}

#[test]
fn float_bits_are_written_back_unchanged() {
    let mut v = 1.5f32.to_bits();
    reply(1, Output::Bits(0.25f32.to_bits())).store_bits(&mut v);
    assert_eq!(f32::from_bits(v), 0.25);
    reply(0, Output::Nothing).store_bits(&mut v);
    assert_eq!(f32::from_bits(v), 0.25);
    reply(0, Output::Int(9)).store_bits(&mut v);
    assert_eq!(f32::from_bits(v), 0.25);
}

#[test]
fn not_a_number_keeps_its_payload() {
    let nan = 0x7fc0_1234u32;
    let mut v = 0;
    reply(1, Output::Bits(nan)).store_bits(&mut v);
    assert_eq!(v, nan);
}

#[test]
fn rgb_channels_are_written_back_in_order() {
    let mut c = [0u32; 3];
    reply(1, Output::Bits3 { r: 1, g: 2, b: 3 }).store_color3(&mut c);
    assert_eq!(c, [1, 2, 3]);
    reply(0, Output::Nothing).store_color3(&mut c);
    assert_eq!(c, [1, 2, 3]);
    reply(0, Output::Bits4 { r: 9, g: 9, b: 9, a: 9 }).store_color3(&mut c);
    assert_eq!(c, [1, 2, 3]);
}

#[test]
fn rgba_channels_are_written_back_in_order() {
    let mut c = [0u32; 4];
    reply(1, Output::Bits4 { r: 1, g: 2, b: 3, a: 4 }).store_color4(&mut c);
    assert_eq!(c, [1, 2, 3, 4]);
    reply(0, Output::Bits3 { r: 9, g: 9, b: 9 }).store_color4(&mut c);
    assert_eq!(c, [1, 2, 3, 4]);
}

#[test]
fn handle_is_read_from_the_reply() {
    assert_eq!(reply(0, Output::Handle(0x1000)).returned_handle(), 0x1000);
    assert_eq!(reply(0, Output::Handle(0)).returned_handle(), 0);
}

#[test]
fn reply_without_handle_reads_as_null() {
    assert_eq!(reply(1, Output::Nothing).returned_handle(), 0);
    assert_eq!(reply(1, Output::Int(77)).returned_handle(), 0);
}
