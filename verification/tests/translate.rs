use egui_baseview::input::Code;
use egui_baseview::input::CursorIcon;
use egui_baseview::input::Key;
use egui_baseview::input::Modifiers;
use egui_baseview::input::MouseButton;
use egui_baseview::input::MouseCursor;
use egui_baseview::input::Platform;
use egui_baseview::input::PointerButton;
use egui_baseview::input::RawModifiers;
use egui_baseview::is_copy_command;
use egui_baseview::is_cut_command;
use egui_baseview::is_paste_command;
use egui_baseview::translate::translate_cursor_icon;
use egui_baseview::translate_modifiers;
use egui_baseview::translate_mouse_button;
use egui_baseview::translate_virtual_key_code;

fn no_mods() -> Modifiers {
    Modifiers { alt: false, ctrl: false, shift: false, mac_cmd: false, command: false }
}

#[test]
fn mouse_buttons_map_one_to_one() {
    assert_eq!(translate_mouse_button(MouseButton::Left), Some(PointerButton::Primary));
    assert_eq!(translate_mouse_button(MouseButton::Right), Some(PointerButton::Secondary));
    assert_eq!(translate_mouse_button(MouseButton::Middle), Some(PointerButton::Middle));
}

#[test]
fn other_mouse_buttons_are_dropped() {
    assert_eq!(translate_mouse_button(MouseButton::Back), None);
    assert_eq!(translate_mouse_button(MouseButton::Forward), None);
}

#[test]
fn key_codes_map_to_ui_keys() {
    assert_eq!(translate_virtual_key_code(Code::ArrowDown), Some(Key::ArrowDown));
    assert_eq!(translate_virtual_key_code(Code::Escape), Some(Key::Escape));
    assert_eq!(translate_virtual_key_code(Code::Space), Some(Key::Space));
    assert_eq!(translate_virtual_key_code(Code::KeyA), Some(Key::A));
    assert_eq!(translate_virtual_key_code(Code::KeyZ), Some(Key::Z));
    assert_eq!(translate_virtual_key_code(Code::Digit0), Some(Key::Num0));
}

#[test]
fn numpad_keys_alias_onto_digits_and_enter() {
    assert_eq!(translate_virtual_key_code(Code::Numpad7), Some(Key::Num7));
    assert_eq!(translate_virtual_key_code(Code::Digit7), Some(Key::Num7));
    assert_eq!(translate_virtual_key_code(Code::NumpadEnter), Some(Key::Enter));
    assert_eq!(translate_virtual_key_code(Code::Enter), Some(Key::Enter));
}

#[test]
fn unmapped_key_codes_are_a_no_op() {
    assert_eq!(translate_virtual_key_code(Code::ShiftLeft), None);
    assert_eq!(translate_virtual_key_code(Code::MetaRight), None);
    assert_eq!(translate_virtual_key_code(Code::Unidentified), None);
}

#[test]
fn cursor_icons_collapse_onto_closest_host_shape() {
    assert_eq!(translate_cursor_icon(CursorIcon::Default), MouseCursor::Default);
    assert_eq!(translate_cursor_icon(CursorIcon::ContextMenu), MouseCursor::Default);
    assert_eq!(translate_cursor_icon(CursorIcon::NoIcon), MouseCursor::Hidden);
    assert_eq!(translate_cursor_icon(CursorIcon::NoDrop), MouseCursor::PtrNotAllowed);
    assert_eq!(translate_cursor_icon(CursorIcon::NotAllowed), MouseCursor::NotAllowed);
    assert_eq!(translate_cursor_icon(CursorIcon::Grab), MouseCursor::Hand);
    assert_eq!(translate_cursor_icon(CursorIcon::ZoomOut), MouseCursor::ZoomOut);
}

#[test]
fn modifier_translation_aliases_ctrl_to_command_off_apple() {
    let raw = RawModifiers { alt: false, ctrl: true, meta: false, shift: false };
    let m = translate_modifiers(&raw, Platform::Other);
    assert!(m.ctrl && m.command && !m.mac_cmd && !m.alt && !m.shift);
}

#[test]
fn modifier_translation_aliases_meta_to_command_on_apple() {
    let raw = RawModifiers { alt: false, ctrl: false, meta: true, shift: false };
    let m = translate_modifiers(&raw, Platform::MacOs);
    assert!(m.command && m.mac_cmd && !m.ctrl);
    let m2 = translate_modifiers(&raw, Platform::Other);
    assert!(m2.command && m2.ctrl && !m2.mac_cmd);
}

#[test]
fn ctrl_is_not_command_on_apple() {
    let raw = RawModifiers { alt: false, ctrl: true, meta: false, shift: false };
    let m = translate_modifiers(&raw, Platform::MacOs);
    assert!(m.ctrl && !m.command && !m.mac_cmd);
}

#[test]
fn command_chords_classify_everywhere() {
    let m = Modifiers { command: true, ..no_mods() };
    assert!(is_cut_command(m, Code::KeyX, Platform::Other));
    assert!(is_copy_command(m, Code::KeyC, Platform::MacOs));
    assert!(is_paste_command(m, Code::KeyV, Platform::Windows));
    assert!(!is_cut_command(m, Code::KeyC, Platform::Other));
    assert!(!is_copy_command(no_mods(), Code::KeyC, Platform::Other));
}

#[test]
fn legacy_chords_classify_only_on_windows() {
    let shift = Modifiers { shift: true, ..no_mods() };
    let ctrl = Modifiers { ctrl: true, ..no_mods() };
    assert!(is_cut_command(shift, Code::Delete, Platform::Windows));
    assert!(!is_cut_command(shift, Code::Delete, Platform::Other));
    assert!(is_copy_command(ctrl, Code::Insert, Platform::Windows));
    assert!(!is_copy_command(ctrl, Code::Insert, Platform::MacOs));
    assert!(is_paste_command(shift, Code::Insert, Platform::Windows));
    assert!(!is_paste_command(shift, Code::Insert, Platform::Other));
}
