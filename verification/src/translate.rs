//! Pure, stateless translation between host and UI-library enumerations, the
//! canonical raw-to-UI modifier mapping, and the cut/copy/paste chord tests.
//!
//! Each executable function is specified against a spec-level mirror of its
//! table, so callers can reason about exact results.

use vstd::prelude::*;

use crate::input::Code;
use crate::input::CursorIcon;
use crate::input::Key;
use crate::input::Modifiers;
use crate::input::MouseButton;
use crate::input::MouseCursor;
use crate::input::Platform;
use crate::input::PointerButton;
use crate::input::RawModifiers;

verus! {

/// The mouse-button table: left/right/middle map one to one; any other host
/// button has no UI counterpart and is dropped.
pub open spec fn translate_mouse_button_spec(button: MouseButton) -> Option<PointerButton> {
    match button {
        MouseButton::Left => Some(PointerButton::Primary),
        MouseButton::Right => Some(PointerButton::Secondary),
        MouseButton::Middle => Some(PointerButton::Middle),
        _ => None,
    }
}

/// Maps a host mouse button to the UI library's pointer button, if it has
/// one.
pub fn translate_mouse_button(button: MouseButton) -> (r: Option<PointerButton>)
    ensures
        r == translate_mouse_button_spec(button),
{
    match button {
        MouseButton::Left => Some(PointerButton::Primary),
        MouseButton::Right => Some(PointerButton::Secondary),
        MouseButton::Middle => Some(PointerButton::Middle),
        _ => None,
    }
}

/// The key-code table: arrows, navigation keys, digits (with numpad
/// aliasing), letters and a few editing keys; any other code has no UI key.
pub open spec fn translate_virtual_key_code_spec(key: Code) -> Option<Key> {
    match key {
        Code::ArrowDown => Some(Key::ArrowDown),
        Code::ArrowLeft => Some(Key::ArrowLeft),
        Code::ArrowRight => Some(Key::ArrowRight),
        Code::ArrowUp => Some(Key::ArrowUp),
        Code::Escape => Some(Key::Escape),
        Code::Tab => Some(Key::Tab),
        Code::Backspace => Some(Key::Backspace),
        Code::Enter | Code::NumpadEnter => Some(Key::Enter),
        Code::Space => Some(Key::Space),
        Code::Insert => Some(Key::Insert),
        Code::Delete => Some(Key::Delete),
        Code::Home => Some(Key::Home),
        Code::End => Some(Key::End),
        Code::PageUp => Some(Key::PageUp),
        Code::PageDown => Some(Key::PageDown),
        Code::Digit0 | Code::Numpad0 => Some(Key::Num0),
        Code::Digit1 | Code::Numpad1 => Some(Key::Num1),
        Code::Digit2 | Code::Numpad2 => Some(Key::Num2),
        Code::Digit3 | Code::Numpad3 => Some(Key::Num3),
        Code::Digit4 | Code::Numpad4 => Some(Key::Num4),
        Code::Digit5 | Code::Numpad5 => Some(Key::Num5),
        Code::Digit6 | Code::Numpad6 => Some(Key::Num6),
        Code::Digit7 | Code::Numpad7 => Some(Key::Num7),
        Code::Digit8 | Code::Numpad8 => Some(Key::Num8),
        Code::Digit9 | Code::Numpad9 => Some(Key::Num9),
        Code::KeyA => Some(Key::A),
        Code::KeyB => Some(Key::B),
        Code::KeyC => Some(Key::C),
        Code::KeyD => Some(Key::D),
        Code::KeyE => Some(Key::E),
        Code::KeyF => Some(Key::F),
        Code::KeyG => Some(Key::G),
        Code::KeyH => Some(Key::H),
        Code::KeyI => Some(Key::I),
        Code::KeyJ => Some(Key::J),
        Code::KeyK => Some(Key::K),
        Code::KeyL => Some(Key::L),
        Code::KeyM => Some(Key::M),
        Code::KeyN => Some(Key::N),
        Code::KeyO => Some(Key::O),
        Code::KeyP => Some(Key::P),
        Code::KeyQ => Some(Key::Q),
        Code::KeyR => Some(Key::R),
        Code::KeyS => Some(Key::S),
        Code::KeyT => Some(Key::T),
        Code::KeyU => Some(Key::U),
        Code::KeyV => Some(Key::V),
        Code::KeyW => Some(Key::W),
        Code::KeyX => Some(Key::X),
        Code::KeyY => Some(Key::Y),
        Code::KeyZ => Some(Key::Z),
        _ => None,
    }
}

/// Maps a host key code to the UI library's key, if it has one. Callers
/// treat a `None` as a legitimate no-op, not a fault.
pub fn translate_virtual_key_code(key: Code) -> (r: Option<Key>)
    ensures
        r == translate_virtual_key_code_spec(key),
{
    match key {
        Code::ArrowDown => Some(Key::ArrowDown),
        Code::ArrowLeft => Some(Key::ArrowLeft),
        Code::ArrowRight => Some(Key::ArrowRight),
        Code::ArrowUp => Some(Key::ArrowUp),
        Code::Escape => Some(Key::Escape),
        Code::Tab => Some(Key::Tab),
        Code::Backspace => Some(Key::Backspace),
        Code::Enter | Code::NumpadEnter => Some(Key::Enter),
        Code::Space => Some(Key::Space),
        Code::Insert => Some(Key::Insert),
        Code::Delete => Some(Key::Delete),
        Code::Home => Some(Key::Home),
        Code::End => Some(Key::End),
        Code::PageUp => Some(Key::PageUp),
        Code::PageDown => Some(Key::PageDown),
        Code::Digit0 | Code::Numpad0 => Some(Key::Num0),
        Code::Digit1 | Code::Numpad1 => Some(Key::Num1),
        Code::Digit2 | Code::Numpad2 => Some(Key::Num2),
        Code::Digit3 | Code::Numpad3 => Some(Key::Num3),
        Code::Digit4 | Code::Numpad4 => Some(Key::Num4),
        Code::Digit5 | Code::Numpad5 => Some(Key::Num5),
        Code::Digit6 | Code::Numpad6 => Some(Key::Num6),
        Code::Digit7 | Code::Numpad7 => Some(Key::Num7),
        Code::Digit8 | Code::Numpad8 => Some(Key::Num8),
        Code::Digit9 | Code::Numpad9 => Some(Key::Num9),
        Code::KeyA => Some(Key::A),
        Code::KeyB => Some(Key::B),
        Code::KeyC => Some(Key::C),
        Code::KeyD => Some(Key::D),
        Code::KeyE => Some(Key::E),
        Code::KeyF => Some(Key::F),
        Code::KeyG => Some(Key::G),
        Code::KeyH => Some(Key::H),
        Code::KeyI => Some(Key::I),
        Code::KeyJ => Some(Key::J),
        Code::KeyK => Some(Key::K),
        Code::KeyL => Some(Key::L),
        Code::KeyM => Some(Key::M),
        Code::KeyN => Some(Key::N),
        Code::KeyO => Some(Key::O),
        Code::KeyP => Some(Key::P),
        Code::KeyQ => Some(Key::Q),
        Code::KeyR => Some(Key::R),
        Code::KeyS => Some(Key::S),
        Code::KeyT => Some(Key::T),
        Code::KeyU => Some(Key::U),
        Code::KeyV => Some(Key::V),
        Code::KeyW => Some(Key::W),
        Code::KeyX => Some(Key::X),
        Code::KeyY => Some(Key::Y),
        Code::KeyZ => Some(Key::Z),
        _ => None,
    }
}

/// The cursor-icon table. It is total: every UI icon has exactly one host
/// cursor, with icons the host lacks collapsed onto the visually closest
/// shape (the context-menu icon shares the default cursor).
pub open spec fn translate_cursor_icon_spec(icon: CursorIcon) -> MouseCursor {
    match icon {
        CursorIcon::Default => MouseCursor::Default,
        CursorIcon::NoIcon => MouseCursor::Hidden,
        CursorIcon::ContextMenu => MouseCursor::Default,
        CursorIcon::Help => MouseCursor::Help,
        CursorIcon::PointingHand => MouseCursor::Pointer,
        CursorIcon::Progress => MouseCursor::PtrWorking,
        CursorIcon::Wait => MouseCursor::Working,
        CursorIcon::Cell => MouseCursor::Cell,
        CursorIcon::Crosshair => MouseCursor::Crosshair,
        CursorIcon::Text => MouseCursor::Text,
        CursorIcon::VerticalText => MouseCursor::VerticalText,
        CursorIcon::Alias => MouseCursor::Alias,
        CursorIcon::CopyIcon => MouseCursor::CopyCursor,
        CursorIcon::Move => MouseCursor::Move,
        CursorIcon::NoDrop => MouseCursor::PtrNotAllowed,
        CursorIcon::NotAllowed => MouseCursor::NotAllowed,
        CursorIcon::Grab => MouseCursor::Hand,
        CursorIcon::Grabbing => MouseCursor::HandGrabbing,
        CursorIcon::AllScroll => MouseCursor::AllScroll,
        CursorIcon::ResizeHorizontal => MouseCursor::EwResize,
        CursorIcon::ResizeNeSw => MouseCursor::NeswResize,
        CursorIcon::ResizeNwSe => MouseCursor::NwseResize,
        CursorIcon::ResizeVertical => MouseCursor::NsResize,
        CursorIcon::ResizeEast => MouseCursor::EResize,
        CursorIcon::ResizeSouthEast => MouseCursor::SeResize,
        CursorIcon::ResizeSouth => MouseCursor::SResize,
        CursorIcon::ResizeSouthWest => MouseCursor::SwResize,
        CursorIcon::ResizeWest => MouseCursor::WResize,
        CursorIcon::ResizeNorthWest => MouseCursor::NwResize,
        CursorIcon::ResizeNorth => MouseCursor::NResize,
        CursorIcon::ResizeNorthEast => MouseCursor::NeResize,
        CursorIcon::ResizeColumn => MouseCursor::ColResize,
        CursorIcon::ResizeRow => MouseCursor::RowResize,
        CursorIcon::ZoomIn => MouseCursor::ZoomIn,
        CursorIcon::ZoomOut => MouseCursor::ZoomOut,
    }
}

/// Maps a UI cursor icon to the host cursor shape.
pub fn translate_cursor_icon(icon: CursorIcon) -> (r: MouseCursor)
    ensures
        r == translate_cursor_icon_spec(icon),
{
    match icon {
        CursorIcon::Default => MouseCursor::Default,
        CursorIcon::NoIcon => MouseCursor::Hidden,
        CursorIcon::ContextMenu => MouseCursor::Default,
        CursorIcon::Help => MouseCursor::Help,
        CursorIcon::PointingHand => MouseCursor::Pointer,
        CursorIcon::Progress => MouseCursor::PtrWorking,
        CursorIcon::Wait => MouseCursor::Working,
        CursorIcon::Cell => MouseCursor::Cell,
        CursorIcon::Crosshair => MouseCursor::Crosshair,
        CursorIcon::Text => MouseCursor::Text,
        CursorIcon::VerticalText => MouseCursor::VerticalText,
        CursorIcon::Alias => MouseCursor::Alias,
        CursorIcon::CopyIcon => MouseCursor::CopyCursor,
        CursorIcon::Move => MouseCursor::Move,
        CursorIcon::NoDrop => MouseCursor::PtrNotAllowed,
        CursorIcon::NotAllowed => MouseCursor::NotAllowed,
        CursorIcon::Grab => MouseCursor::Hand,
        CursorIcon::Grabbing => MouseCursor::HandGrabbing,
        CursorIcon::AllScroll => MouseCursor::AllScroll,
        CursorIcon::ResizeHorizontal => MouseCursor::EwResize,
        CursorIcon::ResizeNeSw => MouseCursor::NeswResize,
        CursorIcon::ResizeNwSe => MouseCursor::NwseResize,
        CursorIcon::ResizeVertical => MouseCursor::NsResize,
        CursorIcon::ResizeEast => MouseCursor::EResize,
        CursorIcon::ResizeSouthEast => MouseCursor::SeResize,
        CursorIcon::ResizeSouth => MouseCursor::SResize,
        CursorIcon::ResizeSouthWest => MouseCursor::SwResize,
        CursorIcon::ResizeWest => MouseCursor::WResize,
        CursorIcon::ResizeNorthWest => MouseCursor::NwResize,
        CursorIcon::ResizeNorth => MouseCursor::NResize,
        CursorIcon::ResizeNorthEast => MouseCursor::NeResize,
        CursorIcon::ResizeColumn => MouseCursor::ColResize,
        CursorIcon::ResizeRow => MouseCursor::RowResize,
        CursorIcon::ZoomIn => MouseCursor::ZoomIn,
        CursorIcon::ZoomOut => MouseCursor::ZoomOut,
    }
}

/// The canonical raw-to-UI modifier mapping. On Apple platforms meta is the
/// command key; elsewhere ctrl is aliased to command and meta to ctrl.
pub open spec fn translate_modifiers_spec(raw: RawModifiers, platform: Platform) -> Modifiers {
    Modifiers {
        alt: raw.alt,
        ctrl: raw.ctrl || (platform != Platform::MacOs && raw.meta),
        shift: raw.shift,
        mac_cmd: platform == Platform::MacOs && raw.meta,
        command: raw.meta || (platform != Platform::MacOs && raw.ctrl),
    }
}

/// Produces the UI modifier state from a raw host snapshot. This is the only
/// mapping from raw to UI modifiers; besides it, only explicit modifier-key
/// press and release transitions change the state.
pub fn translate_modifiers(raw: &RawModifiers, platform: Platform) -> (r: Modifiers)
    ensures
        r == translate_modifiers_spec(*raw, platform),
{
    let mac: bool = platform == Platform::MacOs;
    Modifiers {
        alt: raw.alt,
        ctrl: raw.ctrl || (!mac && raw.meta),
        shift: raw.shift,
        mac_cmd: mac && raw.meta,
        command: raw.meta || (!mac && raw.ctrl),
    }
}

/// The cut chord: command+X everywhere, or shift+Delete on Windows.
pub open spec fn is_cut_command_spec(modifiers: Modifiers, keycode: Code, platform: Platform) -> bool {
    (modifiers.command && keycode == Code::KeyX)
        || (platform == Platform::Windows && modifiers.shift && keycode == Code::Delete)
}

/// Reports whether the event is the cut chord.
pub fn is_cut_command(modifiers: Modifiers, keycode: Code, platform: Platform) -> (r: bool)
    ensures
        r == is_cut_command_spec(modifiers, keycode, platform),
{
    (modifiers.command && keycode == Code::KeyX)
        || (platform == Platform::Windows && modifiers.shift && keycode == Code::Delete)
}

/// The copy chord: command+C everywhere, or ctrl+Insert on Windows.
pub open spec fn is_copy_command_spec(modifiers: Modifiers, keycode: Code, platform: Platform) -> bool {
    (modifiers.command && keycode == Code::KeyC)
        || (platform == Platform::Windows && modifiers.ctrl && keycode == Code::Insert)
}

/// Reports whether the event is the copy chord.
pub fn is_copy_command(modifiers: Modifiers, keycode: Code, platform: Platform) -> (r: bool)
    ensures
        r == is_copy_command_spec(modifiers, keycode, platform),
{
    (modifiers.command && keycode == Code::KeyC)
        || (platform == Platform::Windows && modifiers.ctrl && keycode == Code::Insert)
}

/// The paste chord: command+V everywhere, or shift+Insert on Windows.
pub open spec fn is_paste_command_spec(modifiers: Modifiers, keycode: Code, platform: Platform) -> bool {
    (modifiers.command && keycode == Code::KeyV)
        || (platform == Platform::Windows && modifiers.shift && keycode == Code::Insert)
}

/// Reports whether the event is the paste chord.
pub fn is_paste_command(modifiers: Modifiers, keycode: Code, platform: Platform) -> (r: bool)
    ensures
        r == is_paste_command_spec(modifiers, keycode, platform),
{
    (modifiers.command && keycode == Code::KeyV)
        || (platform == Platform::Windows && modifiers.shift && keycode == Code::Insert)
}

} // verus!
