use egui_baseview::input::BinaryPayload;
use egui_baseview::input::Code;
use egui_baseview::input::Event;
use egui_baseview::input::Key;
use egui_baseview::input::Modifiers;
use egui_baseview::input::Platform;
use egui_baseview::input::RawInput;
use egui_baseview::input::RawModifiers;
use egui_baseview::keyboard::InputState;
use egui_baseview::keyboard::KeyState;
use egui_baseview::keyboard::KeyboardEvent;
use egui_baseview::window::clipboard_binary_mime;
use egui_baseview::EguiKeyboardInput;

fn raw_none() -> RawModifiers {
    RawModifiers { alt: false, ctrl: false, meta: false, shift: false }
}

fn no_mods() -> Modifiers {
    Modifiers { alt: false, ctrl: false, shift: false, mac_cmd: false, command: false }
}

fn key_event(code: Code, state: KeyState, character: Option<&str>, modifiers: RawModifiers) -> KeyboardEvent {
    KeyboardEvent { state, code, character: character.map(|s| s.to_string()), modifiers }
}

#[test]
fn copy_chord_emits_key_and_copy_but_no_text() {
    // ctrl held on a non-Apple platform aliases to command, so ctrl+C is the
    // copy chord: a key event for C, a copy event, and no text event.
    let raw = RawModifiers { ctrl: true, ..raw_none() };
    let ev = key_event(Code::KeyC, KeyState::Down, Some("c"), raw);
    let r = EguiKeyboardInput::from_keyboard_event(&ev, Platform::Other);
    assert_eq!(r.events.len(), 2);
    assert!(matches!(r.events[0], Event::Key { key: Key::C, pressed: true, .. }));
    assert_eq!(r.events[1], Event::Copy);
    assert!(!r.paste_requested);
    assert!(r.modifiers.ctrl && r.modifiers.command && !r.modifiers.mac_cmd);
}

#[test]
fn plain_character_emits_text() {
    let ev = key_event(Code::KeyA, KeyState::Down, Some("a"), raw_none());
    let r = EguiKeyboardInput::from_keyboard_event(&ev, Platform::Other);
    assert_eq!(r.events.len(), 2);
    assert!(matches!(r.events[0], Event::Key { key: Key::A, pressed: true, .. }));
    assert_eq!(r.events[1], Event::Text("a".to_string()));
}

#[test]
fn release_emits_no_text_or_command() {
    let raw = RawModifiers { ctrl: true, ..raw_none() };
    let ev = key_event(Code::KeyC, KeyState::Up, Some("c"), raw);
    let r = EguiKeyboardInput::from_keyboard_event(&ev, Platform::Other);
    assert_eq!(r.events.len(), 1);
    assert!(matches!(r.events[0], Event::Key { key: Key::C, pressed: false, .. }));
}

#[test]
fn modifier_key_without_event_still_tracks_modifiers() {
    // A dedicated modifier key has no character and no mapped UI key, yet
    // participates in modifier tracking.
    let ev = key_event(Code::ShiftLeft, KeyState::Down, None, raw_none());
    let r = EguiKeyboardInput::from_keyboard_event(&ev, Platform::Other);
    assert!(r.events.is_empty());
    assert!(r.modifiers.shift);
}

#[test]
fn modifier_round_trip_restores_snapshot() {
    // Pressing then releasing each dedicated modifier key returns the
    // snapshot to its pre-press value.
    let before = no_mods();
    for (down_code, up_code) in [
        (Code::ShiftLeft, Code::ShiftRight),
        (Code::ControlLeft, Code::ControlRight),
        (Code::AltLeft, Code::AltRight),
        (Code::MetaLeft, Code::MetaRight),
    ] {
        for platform in [Platform::MacOs, Platform::Windows, Platform::Other] {
            let down = key_event(down_code, KeyState::Down, None, raw_none());
            let pressed = EguiKeyboardInput::from_keyboard_event(&down, platform);
            let up = key_event(up_code, KeyState::Up, None, raw_none());
            let released = EguiKeyboardInput::from_keyboard_event(&up, platform);
            // the press changes the snapshot, except that the meta key is
            // tracked only on the Apple platform
            let meta_elsewhere =
                down_code == Code::MetaLeft && platform != Platform::MacOs;
            assert_eq!(pressed.modifiers == before, meta_elsewhere);
            assert_eq!(released.modifiers, before);
        }
    }
}

#[test]
fn adversarial_chord_classifies_as_copy_never_paste() {
    // On Windows, ctrl+shift+Insert matches both the copy chord
    // (ctrl+Insert) and the paste chord (shift+Insert); copy is checked
    // first and wins, and no paste is requested.
    let raw = RawModifiers { ctrl: true, shift: true, ..raw_none() };
    let ev = key_event(Code::Insert, KeyState::Down, None, raw);
    let r = EguiKeyboardInput::from_keyboard_event(&ev, Platform::Windows);
    let copies = r.events.iter().filter(|e| **e == Event::Copy).count();
    assert_eq!(copies, 1);
    assert!(!r.paste_requested);
    assert!(!r.events.contains(&Event::Cut));
}

#[test]
fn cut_takes_precedence_over_copy_and_paste() {
    // On Windows with shift held, Delete matches the cut chord; even with
    // ctrl (hence command) held too, only the cut event fires.
    let raw = RawModifiers { ctrl: true, shift: true, ..raw_none() };
    let ev = key_event(Code::Delete, KeyState::Down, None, raw);
    let r = EguiKeyboardInput::from_keyboard_event(&ev, Platform::Windows);
    assert!(r.events.contains(&Event::Cut));
    assert!(!r.events.contains(&Event::Copy));
    assert!(!r.paste_requested);
}

#[test]
fn paste_request_defers_to_clipboard_contents() {
    // command+V requests a paste and emits nothing for it until the host
    // supplies the clipboard; both the plain text and the tagged binary
    // payload then fire from the one paste.
    let raw = RawModifiers { meta: true, ..raw_none() };
    let ev = key_event(Code::KeyV, KeyState::Down, Some("v"), raw);
    let mut r = EguiKeyboardInput::from_keyboard_event(&ev, Platform::MacOs);
    assert!(r.paste_requested);
    assert_eq!(r.events.len(), 1);
    assert!(matches!(r.events[0], Event::Key { key: Key::V, pressed: true, .. }));
    let payload = BinaryPayload { mime: clipboard_binary_mime().to_string(), data: vec![7, 8, 9] };
    r.add_clipboard_contents(Some("hello".to_string()), Some(payload));
    assert!(!r.paste_requested);
    assert_eq!(r.events.len(), 3);
    assert_eq!(r.events[1], Event::Paste("hello".to_string()));
    match &r.events[2] {
        Event::PasteBinary(b) => {
            assert_eq!(b.mime, clipboard_binary_mime());
            assert_eq!(b.data, vec![7, 8, 9]);
        }
        other => panic!("expected a binary paste event, got {:?}", other),
    }
}

#[test]
fn clipboard_contents_without_request_are_ignored() {
    let ev = key_event(Code::KeyA, KeyState::Down, Some("a"), raw_none());
    let mut r = EguiKeyboardInput::from_keyboard_event(&ev, Platform::Other);
    let n = r.events.len();
    r.add_clipboard_contents(Some("stale".to_string()), None);
    assert_eq!(r.events.len(), n);
}

#[test]
fn apply_on_raw_input_appends_in_order() {
    let raw = RawModifiers { ctrl: true, ..raw_none() };
    let ev = key_event(Code::KeyC, KeyState::Down, Some("c"), raw);
    let r = EguiKeyboardInput::from_keyboard_event(&ev, Platform::Other);
    let mut input = RawInput {
        time_nanos: None,
        screen_rect: None,
        pixels_per_point_milli: None,
        modifiers: no_mods(),
        events: vec![Event::PointerGone],
    };
    r.apply_on_raw_input(&mut input);
    assert_eq!(input.events.len(), 3);
    assert_eq!(input.events[0], Event::PointerGone);
    assert!(matches!(input.events[1], Event::Key { key: Key::C, .. }));
    assert_eq!(input.events[2], Event::Copy);
    assert!(input.modifiers.command);
}

#[test]
fn apply_on_input_maintains_keys_down() {
    let mut state = InputState {
        raw: RawInput {
            time_nanos: None,
            screen_rect: None,
            pixels_per_point_milli: None,
            modifiers: no_mods(),
            events: Vec::new(),
        },
        events: Vec::new(),
        keys_down: Vec::new(),
        modifiers: no_mods(),
    };
    let down = key_event(Code::KeyA, KeyState::Down, Some("a"), raw_none());
    EguiKeyboardInput::from_keyboard_event(&down, Platform::Other).apply_on_input(&mut state);
    assert_eq!(state.keys_down, vec![Key::A]);
    // pressing the same key again must not duplicate it
    EguiKeyboardInput::from_keyboard_event(&down, Platform::Other).apply_on_input(&mut state);
    assert_eq!(state.keys_down, vec![Key::A]);
    let up = key_event(Code::KeyA, KeyState::Up, None, raw_none());
    EguiKeyboardInput::from_keyboard_event(&up, Platform::Other).apply_on_input(&mut state);
    assert!(state.keys_down.is_empty());
    // both event lists saw every event, in order
    assert_eq!(state.events.len(), state.raw.events.len());
    assert!(matches!(state.events[0], Event::Key { key: Key::A, pressed: true, .. }));
}

#[test]
fn text_is_suppressed_while_command_is_held() {
    // a printable key with command held emits the key event only: no text,
    // and no clipboard command unless it is one of the chords
    let raw = RawModifiers { meta: true, ..raw_none() };
    let ev = key_event(Code::KeyA, KeyState::Down, Some("a"), raw);
    let r = EguiKeyboardInput::from_keyboard_event(&ev, Platform::MacOs);
    assert_eq!(r.events.len(), 1);
    assert!(matches!(r.events[0], Event::Key { key: Key::A, .. }));
}
