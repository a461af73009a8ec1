use wayscriber::color::{color_to_hex, parse_hex_color, Rgb8};
use wayscriber::color_picker::ColorPickerPopupState;

fn rgb(r: u8, g: u8, b: u8) -> Rgb8 {
    Rgb8 { r, g, b }
}

#[test]
fn color_formats_as_upper_case_hex() {
    assert_eq!(color_to_hex(rgb(255, 128, 64)), "#FF8040");
    assert_eq!(color_to_hex(rgb(0, 0, 0)), "#000000");
    assert_eq!(color_to_hex(rgb(10, 11, 12)), "#0A0B0C");
}

#[test]
fn parse_accepts_long_short_and_prefixed_forms() {
    assert_eq!(parse_hex_color("#FF8040"), Some(rgb(255, 128, 64)));
    assert_eq!(parse_hex_color("ff8040"), Some(rgb(255, 128, 64)));
    assert_eq!(parse_hex_color("  #abc  "), Some(rgb(0xAA, 0xBB, 0xCC)));
    assert_eq!(parse_hex_color("0x123456"), Some(rgb(0x12, 0x34, 0x56)));
    assert_eq!(parse_hex_color("0x0x#fff"), Some(rgb(255, 255, 255)));
}

#[test]
fn parse_rejects_bad_lengths_and_digits() {
    assert_eq!(parse_hex_color(""), None);
    assert_eq!(parse_hex_color("#"), None);
    assert_eq!(parse_hex_color("#ABCD"), None);
    assert_eq!(parse_hex_color("#12345G"), None);
    assert_eq!(parse_hex_color("##123456"), None);
    assert_eq!(parse_hex_color("#1234567"), None);
}

#[test]
fn formatted_color_parses_back() {
    for c in [rgb(0, 0, 0), rgb(255, 255, 255), rgb(1, 2, 3), rgb(200, 100, 50)] {
        assert_eq!(parse_hex_color(&color_to_hex(c)), Some(c));
    }
}

fn packed(c: Rgb8) -> u32 {
    ((c.r as u32) << 16) | ((c.g as u32) << 8) | (c.b as u32)
}

#[test]
fn hex_field_replaces_selection_and_parses_live() {
    let mut picker = ColorPickerPopupState::open_color_picker_popup(7u32, rgb(1, 2, 3));
    picker.color_picker_popup_set_hex_editing(true, rgb(1, 2, 3));
    assert_eq!(picker.color_picker_popup_hex_buffer().as_deref(), Some("#010203"));
    assert!(picker.color_picker_popup_hex_selected());

    let out = picker.color_picker_popup_hex_append('a', packed);
    assert!(out.redraw);
    assert_eq!(out.parsed, None);
    assert_eq!(picker.color_picker_popup_hex_buffer().as_deref(), Some("A"));

    picker.color_picker_popup_hex_append('b', packed);
    let out = picker.color_picker_popup_hex_append('c', packed);
    assert_eq!(out.parsed, Some(rgb(0xAA, 0xBB, 0xCC)));
    assert_eq!(picker.color_picker_popup_hex_buffer().as_deref(), Some("ABC"));
    assert_eq!(picker.color_picker_popup_current_color(), Some(0xAABBCC));

    let out = picker.color_picker_popup_hex_append('g', packed);
    assert!(!out.redraw);

    let out = picker.color_picker_popup_hex_backspace(packed);
    assert!(out.redraw);
    assert_eq!(picker.color_picker_popup_hex_buffer().as_deref(), Some("AB"));
    assert!(!picker.color_picker_popup_hex_valid());
    // An unparsable buffer keeps the last colour.
    assert_eq!(picker.color_picker_popup_current_color(), Some(0xAABBCC));
}

#[test]
fn hex_field_caps_digits_and_accepts_leading_hash() {
    let mut picker = ColorPickerPopupState::open_color_picker_popup(0u32, rgb(0, 0, 0));
    picker.color_picker_popup_set_hex_editing(true, rgb(0, 0, 0));
    let out = picker.color_picker_popup_hex_append('#', packed);
    assert!(out.redraw);
    assert!(picker.color_picker_popup_hex_valid());
    for ch in "123456".chars() {
        picker.color_picker_popup_hex_append(ch, packed);
    }
    let out = picker.color_picker_popup_hex_append('7', packed);
    assert!(!out.redraw);
    assert_eq!(picker.color_picker_popup_hex_buffer().as_deref(), Some("#123456"));
}

#[test]
fn commit_applies_valid_hex_and_reverts_invalid() {
    let mut picker = ColorPickerPopupState::open_color_picker_popup(0u32, rgb(9, 9, 9));
    picker.color_picker_popup_set_hex_editing(true, rgb(9, 9, 9));
    for ch in "fa0".chars() {
        picker.color_picker_popup_hex_append(ch, packed);
    }
    assert_eq!(picker.color_picker_popup_commit_hex(rgb(9, 9, 9), packed), Some(rgb(0xFF, 0xAA, 0x00)));
    assert_eq!(picker.color_picker_popup_hex_buffer().as_deref(), Some("#FFAA00"));
    assert!(!picker.color_picker_popup_is_hex_editing());
    assert_eq!(picker.color_picker_popup_current_color(), Some(0xFFAA00));
    assert_eq!(picker.apply_color_picker_popup(), Some(0xFFAA00));
    let mut picker = ColorPickerPopupState::open_color_picker_popup(0xFFAA00u32, rgb(9, 9, 9));

    picker.color_picker_popup_set_hex_editing(true, rgb(9, 9, 9));
    picker.color_picker_popup_hex_append('1', packed);
    assert_eq!(picker.color_picker_popup_commit_hex(rgb(9, 9, 9), packed), None);
    assert_eq!(picker.color_picker_popup_hex_buffer().as_deref(), Some("#090909"));
}

#[test]
fn closing_restores_or_keeps_the_color() {
    let mut picker = ColorPickerPopupState::open_color_picker_popup(5u32, rgb(0, 0, 0));
    picker.set_from_gradient(6u32, rgb(1, 1, 1));
    assert_eq!(picker.color_picker_popup_current_color(), Some(6));
    assert_eq!(picker.close_color_picker_popup(true), Some(5));
    assert!(!picker.is_color_picker_popup_open());

    let mut picker = ColorPickerPopupState::open_color_picker_popup(5u32, rgb(0, 0, 0));
    picker.set_from_gradient(6u32, rgb(1, 1, 1));
    assert_eq!(picker.close_color_picker_popup(false), None);
    assert_eq!(picker.color_picker_popup_current_color(), None);
}

#[test]
fn hex_spellings_of_one_body_agree() {
    let bare = parse_hex_color("a1B2c3");
    assert!(bare.is_some());
    assert_eq!(parse_hex_color("#a1B2c3"), bare);
    assert_eq!(parse_hex_color("0xa1B2c3"), bare);
    assert_eq!(parse_hex_color(" a1B2c3\n"), bare);
    assert_eq!(parse_hex_color("a1b2c3"), bare);
}
