//! The keyboard input normalizer: one raw key-down/up event plus the current
//! raw modifier snapshot becomes an updated UI modifier state and a sequence
//! of zero or more UI input events (key press/release, text, cut, copy,
//! paste).
//!
//! The normalizer itself never touches the clipboard. When it classifies an
//! event as the paste chord it reports `paste_requested`; the host then reads
//! the clipboard and hands the contents back through
//! [`EguiKeyboardInput::add_clipboard_contents`], which appends the paste
//! events.

use vstd::prelude::*;

use crate::input::BinaryPayload;
use crate::input::Code;
use crate::input::Event;
use crate::input::Key;
use crate::input::Modifiers;
use crate::input::Platform;
use crate::input::RawInput;
use crate::input::RawModifiers;
use crate::translate::is_copy_command;
use crate::translate::is_copy_command_spec;
use crate::translate::is_cut_command;
use crate::translate::is_cut_command_spec;
use crate::translate::is_paste_command;
use crate::translate::is_paste_command_spec;
use crate::translate::translate_modifiers;
use crate::translate::translate_modifiers_spec;
use crate::translate::translate_virtual_key_code;
use crate::translate::translate_virtual_key_code_spec;

verus! {

/// Whether a key is going down or up.
#[derive(Clone, Copy, Debug, PartialEq, Eq, Structural)]
pub enum KeyState {
    Down,
    Up,
}

/// One raw keyboard event as the host reports it: the key's physical code,
/// its direction, the character it writes (if any), and the raw modifier
/// snapshot that accompanied the event.
#[derive(Debug)]
pub struct KeyboardEvent {
    pub state: KeyState,
    pub code: Code,
    pub character: Option<String>,
    pub modifiers: RawModifiers,
}

/// How a pressed chord is classified; at most one classification fires per
/// event, cut checked before copy before paste.
#[derive(Clone, Copy, Debug, PartialEq, Eq, Structural)]
pub enum ClipboardCommand {
    Cut,
    Copy,
    Paste,
}

/// The modifier-key transition: a dedicated modifier key sets or clears its
/// own flag (and the command alias it feeds) according to the press state;
/// every other code leaves the state untouched.
pub open spec fn modifier_transition(
    m: Modifiers,
    code: Code,
    pressed: bool,
    platform: Platform,
) -> Modifiers {
    match code {
        Code::ShiftLeft | Code::ShiftRight => Modifiers { shift: pressed, ..m },
        Code::ControlLeft | Code::ControlRight => if platform == Platform::MacOs {
            Modifiers { ctrl: pressed, ..m }
        } else {
            Modifiers { ctrl: pressed, command: pressed, ..m }
        },
        Code::AltLeft | Code::AltRight => Modifiers { alt: pressed, ..m },
        Code::MetaLeft | Code::MetaRight => if platform == Platform::MacOs {
            Modifiers { mac_cmd: pressed, command: pressed, ..m }
        } else {
            m
        },
        _ => m,
    }
}

/// The modifier snapshot after one keyboard event: the canonical translation
/// of the event's raw snapshot, with the event's own key transition applied.
pub open spec fn keyboard_modifiers(ev: KeyboardEvent, platform: Platform) -> Modifiers {
    modifier_transition(
        translate_modifiers_spec(ev.modifiers, platform),
        ev.code,
        ev.state == KeyState::Down,
        platform,
    )
}

/// Classifies a pressed chord as cut, copy or paste, in that order of
/// precedence, or as none of them.
pub open spec fn classify_clipboard_command(
    m: Modifiers,
    code: Code,
    platform: Platform,
) -> Option<ClipboardCommand> {
    if is_cut_command_spec(m, code, platform) {
        Some(ClipboardCommand::Cut)
    } else if is_copy_command_spec(m, code, platform) {
        Some(ClipboardCommand::Copy)
    } else if is_paste_command_spec(m, code, platform) {
        Some(ClipboardCommand::Paste)
    } else {
        None
    }
}

/// The key event a keyboard event emits, if its code maps to a UI key.
pub open spec fn key_event_part(ev: KeyboardEvent, platform: Platform) -> Seq<Event> {
    match translate_virtual_key_code_spec(ev.code) {
        Some(k) => seq![
            Event::Key {
                key: k,
                pressed: ev.state == KeyState::Down,
                modifiers: keyboard_modifiers(ev, platform),
            },
        ],
        None => Seq::empty(),
    }
}

/// The cut/copy/text event a pressed key emits after classification. A paste
/// classification emits nothing here: its events carry the clipboard contents
/// and are appended when the host supplies them. A text event fires only for
/// a character-writing key with neither ctrl nor command held.
pub open spec fn command_or_text_part(ev: KeyboardEvent, platform: Platform) -> Seq<Event> {
    if ev.state != KeyState::Down {
        Seq::empty()
    } else {
        let m = keyboard_modifiers(ev, platform);
        match classify_clipboard_command(m, ev.code, platform) {
            Some(ClipboardCommand::Cut) => seq![Event::Cut],
            Some(ClipboardCommand::Copy) => seq![Event::Copy],
            Some(ClipboardCommand::Paste) => Seq::empty(),
            None => match ev.character {
                Some(written) => if !m.ctrl && !m.command {
                    seq![Event::Text(written)]
                } else {
                    Seq::empty()
                },
                None => Seq::empty(),
            },
        }
    }
}

/// All events one keyboard event emits before any clipboard contents arrive.
pub open spec fn keyboard_events(ev: KeyboardEvent, platform: Platform) -> Seq<Event> {
    key_event_part(ev, platform) + command_or_text_part(ev, platform)
}

/// Whether the event is a pressed paste chord, so that the host must read
/// the clipboard and hand its contents back.
pub open spec fn keyboard_paste_requested(ev: KeyboardEvent, platform: Platform) -> bool {
    ev.state == KeyState::Down && classify_clipboard_command(
        keyboard_modifiers(ev, platform),
        ev.code,
        platform,
    ) == Some(ClipboardCommand::Paste)
}

/// The paste events appended once the host has read the clipboard: a
/// text-paste event if plain text was present, then a binary-paste event if
/// the tagged binary slot was present; nothing if no paste was requested.
pub open spec fn paste_additions(
    requested: bool,
    text: Option<String>,
    binary: Option<BinaryPayload>,
) -> Seq<Event> {
    if requested {
        (match text {
            Some(t) => seq![Event::Paste(t)],
            None => Seq::empty(),
        }) + (match binary {
            Some(b) => seq![Event::PasteBinary(b)],
            None => Seq::empty(),
        })
    } else {
        Seq::empty()
    }
}

/// The result of normalizing one raw keyboard event: the UI events it emits,
/// the updated modifier snapshot, and whether the host owes this event a
/// clipboard read.
#[derive(Debug)]
pub struct EguiKeyboardInput {
    pub events: Vec<Event>,
    pub modifiers: Modifiers,
    pub paste_requested: bool,
}

impl EguiKeyboardInput {
    /// Normalizes one raw keyboard event against the current platform:
    /// recomputes the modifier snapshot, emits the key event if the code maps
    /// to a UI key, and on press classifies the chord as cut, copy or paste
    /// or emits the written character as text.
    pub fn from_keyboard_event(event: &KeyboardEvent, platform: Platform) -> (r:
        EguiKeyboardInput)
        ensures
            r.modifiers == keyboard_modifiers(*event, platform),
            r.events@ == keyboard_events(*event, platform),
            r.paste_requested == keyboard_paste_requested(*event, platform),
    {
        let mut events: Vec<Event> = Vec::new();
        let mut modifiers = translate_modifiers(&event.modifiers, platform);
        let pressed: bool = event.state == KeyState::Down;

        match event.code {
            Code::ShiftLeft | Code::ShiftRight => {
                modifiers.shift = pressed;
            },
            Code::ControlLeft | Code::ControlRight => {
                modifiers.ctrl = pressed;
                if platform != Platform::MacOs {
                    modifiers.command = pressed;
                }
            },
            Code::AltLeft | Code::AltRight => {
                modifiers.alt = pressed;
            },
            Code::MetaLeft | Code::MetaRight => {
                if platform == Platform::MacOs {
                    modifiers.mac_cmd = pressed;
                    modifiers.command = pressed;
                }
            },
            _ => {},
        }

        if let Some(key) = translate_virtual_key_code(event.code) {
            events.push(Event::Key { key, pressed, modifiers });
        }

        let mut paste_requested: bool = false;
        if pressed {
            if is_cut_command(modifiers, event.code, platform) {
                events.push(Event::Cut);
            } else if is_copy_command(modifiers, event.code, platform) {
                events.push(Event::Copy);
            } else if is_paste_command(modifiers, event.code, platform) {
                paste_requested = true;
            } else if let Some(written) = &event.character {
                if !modifiers.ctrl && !modifiers.command {
                    events.push(Event::Text(written.clone()));
                }
            }
        }
        proof {
            assert(events@ =~= keyboard_events(*event, platform));
        }
        EguiKeyboardInput { events, modifiers, paste_requested }
    }

    /// Appends the paste events for the clipboard contents the host read:
    /// the plain text if present, then the tagged binary payload if present.
    /// Does nothing unless this event requested a paste; the request is
    /// consumed either way.
    pub fn add_clipboard_contents(&mut self, text: Option<String>, binary: Option<
        BinaryPayload>)
        ensures
            final(self).events@ == old(self).events@ + paste_additions(
                old(self).paste_requested,
                text,
                binary,
            ),
            final(self).modifiers == old(self).modifiers,
            final(self).paste_requested == false,
    {
        if self.paste_requested {
            if let Some(t) = text {
                self.events.push(Event::Paste(t));
            }
            if let Some(b) = binary {
                self.events.push(Event::PasteBinary(b));
            }
        }
        self.paste_requested = false;
        proof {
            assert(self.events@ =~= old(self).events@ + paste_additions(
                old(self).paste_requested,
                text,
                binary,
            ));
        }
    }

    /// Pushes this event batch onto a pending per-frame input snapshot and
    /// installs the new modifier snapshot.
    pub fn apply_on_raw_input(self, raw_input: &mut RawInput)
        ensures
            final(raw_input).events@ == old(raw_input).events@ + self.events@,
            final(raw_input).modifiers == self.modifiers,
            final(raw_input).time_nanos == old(raw_input).time_nanos,
            final(raw_input).screen_rect == old(raw_input).screen_rect,
            final(raw_input).pixels_per_point_milli == old(raw_input).pixels_per_point_milli,
    {
        let mut events = self.events;
        raw_input.events.append(&mut events);
        raw_input.modifiers = self.modifiers;
    }

    /// Applies this event batch to a live input state: key events maintain
    /// the set of keys held down, every event is recorded both in the raw
    /// snapshot and in the per-frame event list, and the modifier snapshot
    /// is installed in both places.
    pub fn apply_on_input(self, input_mut: &mut InputState)
        requires
            old(input_mut).keys_down@.no_duplicates(),
        ensures
            final(input_mut).events@ == old(input_mut).events@ + self.events@,
            final(input_mut).raw.events@.len() == old(input_mut).raw.events@.len()
                + self.events@.len(),
            forall|i: int|
                0 <= i < old(input_mut).raw.events@.len() ==> final(input_mut).raw.events@[i]
                    == old(input_mut).raw.events@[i],
            forall|i: int|
                0 <= i < self.events@.len() ==> event_cloned(
                    self.events@[i],
                    final(input_mut).raw.events@[old(input_mut).raw.events@.len() + i],
                ),
            final(input_mut).keys_down@.no_duplicates(),
            final(input_mut).keys_down@.to_set() == keys_down_after(
                old(input_mut).keys_down@.to_set(),
                self.events@,
            ),
            final(input_mut).modifiers == self.modifiers,
            final(input_mut).raw.modifiers == self.modifiers,
            final(input_mut).raw.time_nanos == old(input_mut).raw.time_nanos,
            final(input_mut).raw.screen_rect == old(input_mut).raw.screen_rect,
            final(input_mut).raw.pixels_per_point_milli == old(
                input_mut,
            ).raw.pixels_per_point_milli,
    {
        let mut events = self.events;
        let ghost evs = events@;
        let ghost keys0 = old(input_mut).keys_down@.to_set();
        let ghost raw0 = old(input_mut).raw.events@;
        let mut i: usize = 0;
        while i < events.len()
            invariant
                i <= evs.len(),
                events@ == evs,
                input_mut.keys_down@.no_duplicates(),
                input_mut.keys_down@.to_set() == keys_down_after(
                    keys0,
                    evs.subrange(0, i as int),
                ),
                input_mut.raw.events@.len() == raw0.len() + i,
                forall|j: int| 0 <= j < raw0.len() ==> input_mut.raw.events@[j] == raw0[j],
                forall|j: int|
                    0 <= j < i ==> event_cloned(evs[j], input_mut.raw.events@[raw0.len() + j]),
                input_mut.events@ == old(input_mut).events@,
                input_mut.modifiers == old(input_mut).modifiers,
                input_mut.raw.modifiers == old(input_mut).raw.modifiers,
                input_mut.raw.time_nanos == old(input_mut).raw.time_nanos,
                input_mut.raw.screen_rect == old(input_mut).raw.screen_rect,
                input_mut.raw.pixels_per_point_milli == old(input_mut).raw.pixels_per_point_milli,
            decreases evs.len() - i,
        {
            match &events[i] {
                Event::Key { key, pressed, .. } => {
                    if *pressed {
                        keys_insert(&mut input_mut.keys_down, *key);
                    } else {
                        keys_remove(&mut input_mut.keys_down, *key);
                    }
                },
                _ => {},
            }
            let copy = clone_event(&events[i]);
            input_mut.raw.events.push(copy);
            i += 1;
            proof {
                assert(evs.subrange(0, i as int).drop_last() =~= evs.subrange(0, i - 1));
                assert(evs.subrange(0, i as int).last() == evs[i - 1]);
            }
        }
        proof {
            assert(evs.subrange(0, evs.len() as int) =~= evs);
        }
        input_mut.events.append(&mut events);
        input_mut.raw.modifiers = self.modifiers;
        input_mut.modifiers = self.modifiers;
    }
}

/// A live input state as the UI library keeps it between frames: the raw
/// snapshot being accumulated, the per-frame event list, the set of keys
/// currently held down (a duplicate-free vector), and the current modifier
/// state.
#[derive(Debug)]
pub struct InputState {
    pub raw: RawInput,
    pub events: Vec<Event>,
    pub keys_down: Vec<Key>,
    pub modifiers: Modifiers,
}

/// The set of keys held down after a sequence of events: each key event sets
/// or clears membership of its key; other events change nothing.
pub open spec fn keys_down_after(keys: Set<Key>, events: Seq<Event>) -> Set<Key>
    decreases events.len(),
{
    if events.len() == 0 {
        keys
    } else {
        let rest = keys_down_after(keys, events.drop_last());
        match events.last() {
            Event::Key { key, pressed, .. } => if pressed {
                rest.insert(key)
            } else {
                rest.remove(key)
            },
            _ => rest,
        }
    }
}

/// Relates an event to a copy of it: equal outright, except that a copied
/// binary-paste payload is equal by its tag and its byte contents.
pub open spec fn event_cloned(a: Event, b: Event) -> bool {
    ||| a == b
    ||| {
        &&& a matches Event::PasteBinary(pa)
        &&& b matches Event::PasteBinary(pb)
        &&& pa.mime == pb.mime
        &&& pa.data@ == pb.data@
    }
}

/// Copies a byte vector.
fn clone_bytes(v: &Vec<u8>) -> (r: Vec<u8>)
    ensures
        r@ == v@,
{
    let mut r: Vec<u8> = Vec::new();
    let mut i: usize = 0;
    while i < v.len()
        invariant
            i <= v@.len(),
            r@ == v@.subrange(0, i as int),
        decreases v@.len() - i,
    {
        r.push(v[i]);
        i += 1;
        proof {
            assert(r@ =~= v@.subrange(0, i as int));
        }
    }
    proof {
        assert(r@ =~= v@);
    }
    r
}

/// Copies one event.
fn clone_event(e: &Event) -> (r: Event)
    ensures
        event_cloned(*e, r),
{
    match e {
        Event::PointerMoved(p) => Event::PointerMoved(*p),
        Event::PointerButton { pos, button, pressed, modifiers } => Event::PointerButton {
            pos: *pos,
            button: *button,
            pressed: *pressed,
            modifiers: *modifiers,
        },
        Event::PointerGone => Event::PointerGone,
        Event::Scroll(v) => Event::Scroll(*v),
        Event::Zoom(z) => Event::Zoom(*z),
        Event::Key { key, pressed, modifiers } => Event::Key {
            key: *key,
            pressed: *pressed,
            modifiers: *modifiers,
        },
        Event::Text(s) => Event::Text(s.clone()),
        Event::Cut => Event::Cut,
        Event::Copy => Event::Copy,
        Event::Paste(s) => Event::Paste(s.clone()),
        Event::PasteBinary(b) => Event::PasteBinary(
            BinaryPayload { mime: b.mime.clone(), data: clone_bytes(&b.data) },
        ),
    }
}

/// Whether a code is a dedicated modifier key, which participates in
/// modifier tracking even when it emits no event.
pub open spec fn is_modifier_key(code: Code) -> bool {
    match code {
        Code::ShiftLeft | Code::ShiftRight => true,
        Code::ControlLeft | Code::ControlRight => true,
        Code::AltLeft | Code::AltRight => true,
        Code::MetaLeft | Code::MetaRight => true,
        _ => false,
    }
}

/// Whether a modifier state does not yet assert the flags a dedicated
/// modifier key drives: the precondition for a clean press/release round
/// trip.
pub open spec fn modifier_key_clear(m: Modifiers, code: Code, platform: Platform) -> bool {
    match code {
        Code::ShiftLeft | Code::ShiftRight => !m.shift,
        Code::ControlLeft | Code::ControlRight => !m.ctrl && (platform == Platform::MacOs
            || !m.command),
        Code::AltLeft | Code::AltRight => !m.alt,
        Code::MetaLeft | Code::MetaRight => platform != Platform::MacOs || (!m.mac_cmd
            && !m.command),
        _ => true,
    }
}

/// Pressing and then releasing a dedicated modifier key returns the
/// modifier snapshot to its pre-press value: each event recomputes the
/// snapshot from its raw modifier set and applies its own transition, so
/// when both events carry the same raw set, and that set does not itself
/// assert the flags the key drives, the release lands exactly on the
/// pre-press snapshot. (When the raw set does assert them — say a release
/// of ctrl while the raw set still holds the meta bit on a non-Apple
/// platform — the release clears flags the pre-press snapshot had, and the
/// round trip does not hold.)
pub proof fn lemma_modifier_round_trip(raw: RawModifiers, code: Code, platform: Platform)
    requires
        is_modifier_key(code),
        modifier_key_clear(translate_modifiers_spec(raw, platform), code, platform),
    ensures
        modifier_transition(translate_modifiers_spec(raw, platform), code, false, platform)
            == translate_modifiers_spec(raw, platform),
{
}

/// Cut, copy and paste are checked in that order and at most one
/// classification fires per event: an event matching both the copy and the
/// paste chords classifies as copy (or as cut if it also matches cut),
/// never as both.
pub proof fn lemma_clipboard_command_precedence(m: Modifiers, code: Code, platform: Platform)
    ensures
        is_cut_command_spec(m, code, platform) ==> classify_clipboard_command(m, code, platform)
            == Some(ClipboardCommand::Cut),
        !is_cut_command_spec(m, code, platform) && is_copy_command_spec(m, code, platform)
            ==> classify_clipboard_command(m, code, platform) == Some(ClipboardCommand::Copy),
        !is_cut_command_spec(m, code, platform) && !is_copy_command_spec(m, code, platform)
            && is_paste_command_spec(m, code, platform) ==> classify_clipboard_command(
            m,
            code,
            platform,
        ) == Some(ClipboardCommand::Paste),
        is_copy_command_spec(m, code, platform) ==> classify_clipboard_command(m, code, platform)
            != Some(ClipboardCommand::Paste),
{
}

/// One keyboard event never emits two clipboard commands: it cannot emit
/// both a cut and a copy event, and when it requests a paste it emits
/// neither.
pub proof fn lemma_single_clipboard_classification(ev: KeyboardEvent, platform: Platform)
    ensures
        !(keyboard_events(ev, platform).contains(Event::Cut) && keyboard_events(
            ev,
            platform,
        ).contains(Event::Copy)),
        keyboard_paste_requested(ev, platform) ==> !keyboard_events(ev, platform).contains(
            Event::Cut,
        ) && !keyboard_events(ev, platform).contains(Event::Copy),
{
    let evs = keyboard_events(ev, platform);
    let keys = key_event_part(ev, platform);
    let rest = command_or_text_part(ev, platform);
    assert forall|i: int| 0 <= i < keys.len() implies keys[i] !is Cut && keys[i] !is Copy by {}
    assert forall|i: int| 0 <= i < evs.len() implies evs[i] == (if i < keys.len() {
        keys[i]
    } else {
        rest[i - keys.len()]
    }) by {}
    if evs.contains(Event::Cut) {
        let i = choose|i: int| 0 <= i < evs.len() && evs[i] == Event::Cut;
        assert(rest[i - keys.len()] == Event::Cut);
    }
    if evs.contains(Event::Copy) {
        let i = choose|i: int| 0 <= i < evs.len() && evs[i] == Event::Copy;
        assert(rest[i - keys.len()] == Event::Copy);
    }
}

/// Adds a key to a duplicate-free key vector, as a set insertion.
fn keys_insert(keys: &mut Vec<Key>, k: Key)
    requires
        old(keys)@.no_duplicates(),
    ensures
        final(keys)@.no_duplicates(),
        final(keys)@.to_set() == old(keys)@.to_set().insert(k),
{
    let mut i: usize = 0;
    while i < keys.len()
        invariant
            i <= keys@.len(),
            keys@ == old(keys)@,
            old(keys)@.no_duplicates(),
            forall|j: int| 0 <= j < i ==> keys@[j] != k,
        decreases keys@.len() - i,
    {
        if keys[i] == k {
            proof {
                assert(old(keys)@.contains(k));
                assert(old(keys)@.to_set() =~= old(keys)@.to_set().insert(k));
            }
            return ;
        }
        i += 1;
    }
    keys.push(k);
    proof {
        let s = old(keys)@;
        assert forall|x: Key| s.push(k).contains(x) <==> s.contains(x) || x == k by {
            if s.push(k).contains(x) {
                let idx = choose|idx: int|
                    0 <= idx < s.push(k).len() && s.push(k)[idx] == x;
                if idx < s.len() {
                    assert(s[idx] == x);
                }
            }
            if s.contains(x) {
                let idx = choose|idx: int| 0 <= idx < s.len() && s[idx] == x;
                assert(s.push(k)[idx] == x);
            }
            assert(s.push(k)[s.len() as int] == k);
        }
        assert(s.push(k).to_set() =~= s.to_set().insert(k));
    }
}

/// Removes a key from a duplicate-free key vector, as a set removal.
fn keys_remove(keys: &mut Vec<Key>, k: Key)
    requires
        old(keys)@.no_duplicates(),
    ensures
        final(keys)@.no_duplicates(),
        final(keys)@.to_set() == old(keys)@.to_set().remove(k),
{
    let mut i: usize = 0;
    while i < keys.len()
        invariant
            i <= keys@.len(),
            keys@ == old(keys)@,
            old(keys)@.no_duplicates(),
            forall|j: int| 0 <= j < i ==> keys@[j] != k,
        decreases keys@.len() - i,
    {
        if keys[i] == k {
            let ghost s = keys@;
            let ghost pos = i as int;
            keys.remove(i);
            proof {
                assert(keys@ =~= s.subrange(0, pos) + s.subrange(pos + 1, s.len() as int));
                assert forall|a: int| 0 <= a < keys@.len() implies keys@[a] == (if a < pos {
                    s[a]
                } else {
                    s[a + 1]
                }) by {}
                assert(keys@.no_duplicates());
                assert forall|x: Key| keys@.contains(x) <==> s.contains(x) && x != k by {
                    if keys@.contains(x) {
                        let idx = choose|idx: int| 0 <= idx < keys@.len() && keys@[idx] == x;
                        if idx < pos {
                            assert(s[idx] == x);
                        } else {
                            assert(s[idx + 1] == x);
                        }
                    }
                    if s.contains(x) && x != k {
                        let idx = choose|idx: int| 0 <= idx < s.len() && s[idx] == x;
                        if idx < pos {
                            assert(keys@[idx] == x);
                        } else {
                            assert(idx != pos);
                            assert(keys@[idx - 1] == x);
                        }
                    }
                }
                assert(keys@.to_set() =~= s.to_set().remove(k));
            }
            return ;
        }
        i += 1;
    }
    proof {
        assert(!old(keys)@.contains(k));
        assert(old(keys)@.to_set() =~= old(keys)@.to_set().remove(k));
    }
}

} // verus!
