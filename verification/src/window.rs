//! The frame controller: the per-window state machine that buffers raw host
//! events into the pending input snapshot, tracks modifier, pointer and
//! geometry state, schedules repaints, and turns each frame's output into
//! explicit host-side effect commands.
//!
//! The host shell drives it in two alternating phases. On each raw event it
//! calls [`EguiWindow::on_event`]; when the response asks for the clipboard
//! it reads it and hands the contents back through
//! [`EguiWindow::supply_clipboard`]. On each frame tick it drains the pending
//! input with [`EguiWindow::begin_frame_input`], runs the UI library and the
//! user update callback against a [`Queue`], hands the queue back with
//! [`EguiWindow::absorb_queue`], and finally passes the frame's output to
//! [`EguiWindow::end_frame_output`], which decides whether to repaint and
//! which side effects the host must apply.

use vstd::arithmetic::div_mod::lemma_div_nonincreasing;
use vstd::arithmetic::div_mod::lemma_div_pos_is_pos;
use vstd::prelude::*;

use crate::input::BinaryPayload;
use crate::input::CursorIcon;
use crate::input::Event;
use crate::input::Modifiers;
use crate::input::MouseButton;
use crate::input::MouseCursor;
use crate::input::Platform;
use crate::input::Pos2;
use crate::input::RawInput;
use crate::input::RawModifiers;
use crate::input::Rgba;
use crate::input::ScreenRect;
use crate::input::Vec2;
use crate::keyboard::keyboard_events;
use crate::keyboard::keyboard_modifiers;
use crate::keyboard::keyboard_paste_requested;
use crate::keyboard::paste_additions;
use crate::keyboard::EguiKeyboardInput;
use crate::keyboard::KeyboardEvent;
use crate::translate::translate_cursor_icon;
use crate::translate::translate_cursor_icon_spec;
use crate::translate::translate_modifiers;
use crate::translate::translate_modifiers_spec;
use crate::translate::translate_mouse_button;
use crate::translate::translate_mouse_button_spec;

verus! {

/// A wheel displacement as the host reports it: either in lines or in
/// physical pixels, both in thousandths of a unit.
#[derive(Clone, Copy, Debug, PartialEq, Eq, Structural)]
pub enum ScrollDelta {
    Lines { x: i32, y: i32 },
    Pixels { x: i32, y: i32 },
}

/// A raw host window event.
#[derive(Debug)]
pub enum HostEvent {
    CursorMoved { position: Pos2, modifiers: RawModifiers },
    ButtonPressed { button: MouseButton, modifiers: RawModifiers },
    ButtonReleased { button: MouseButton, modifiers: RawModifiers },
    WheelScrolled { delta: ScrollDelta, modifiers: RawModifiers },
    CursorLeft,
    Keyboard(KeyboardEvent),
    Resized { physical_width: u32, physical_height: u32, scale_factor_milli: u32 },
    WillClose,
}

/// How the controller answered a host event.
#[derive(Clone, Copy, Debug, PartialEq, Eq, Structural)]
pub enum EventStatus {
    Captured,
    Ignored,
}

/// The controller's answer to one host event: whether it consumed the event,
/// and whether it now owes the pending input a clipboard read (the host
/// should read the clipboard and call [`EguiWindow::supply_clipboard`]).
#[derive(Clone, Copy, Debug, PartialEq, Eq, Structural)]
pub struct EventResponse {
    pub status: EventStatus,
    pub paste_requested: bool,
}

/// What the UI library produced for one frame, reduced to what the
/// controller decides on: the minimum delay until the next repaint, the
/// copied plain text, the copied tagged binary payload, and the cursor icon
/// to show. Draw primitives and texture deltas go straight from the UI
/// library to the renderer and never pass through the controller.
#[derive(Debug)]
pub struct FrameOutput {
    pub repaint_delay_nanos: u64,
    pub copied_text: String,
    pub copied_binary: Option<BinaryPayload>,
    pub cursor_icon: CursorIcon,
}

/// The side effects the host must apply after a tick, in order: repaint if
/// asked, write the clipboard slots, set the cursor, close the window.
#[derive(Debug)]
pub struct TickEffects {
    pub repaint: bool,
    pub set_clipboard_text: Option<String>,
    pub set_clipboard_binary: Option<BinaryPayload>,
    pub set_cursor: Option<MouseCursor>,
    pub close: bool,
}

/// The minimal mutable view handed to the user update callback: it can set
/// the background color and request that the window close, and nothing else.
#[derive(Clone, Copy, Debug, PartialEq, Eq, Structural)]
pub struct Queue {
    pub bg_color: Rgba,
    pub close_requested: bool,
}

impl Queue {
    /// A queue bound to the given background color and close-request state.
    pub fn new(bg_color: Rgba, close_requested: bool) -> (q: Queue)
        ensures
            q.bg_color == bg_color,
            q.close_requested == close_requested,
    {
        Queue { bg_color, close_requested }
    }

    /// Set the background color.
    pub fn bg_color(&mut self, bg_color: Rgba)
        ensures
            final(self).bg_color == bg_color,
            final(self).close_requested == old(self).close_requested,
    {
        self.bg_color = bg_color;
    }

    /// Close the window. Idempotent: requesting a close when one is already
    /// requested changes nothing.
    pub fn close_window(&mut self)
        ensures
            final(self).close_requested,
            final(self).bg_color == old(self).bg_color,
    {
        self.close_requested = true;
    }
}

/// The private MIME-like tag under which the binary clipboard slot is read
/// and written.
pub open spec fn clipboard_binary_mime_spec() -> Seq<char> {
    "application/dspstudio"@
}

/// The private MIME-like tag for the binary clipboard slot, for the host to
/// read and write under.
pub fn clipboard_binary_mime() -> (r: &'static str)
    ensures
        r@ == clipboard_binary_mime_spec(),
{
    "application/dspstudio"
}

/// A logical length in millipoints: the physical length divided by the
/// scale factor (pixels per point, in thousandths).
pub open spec fn logical_size_milli(physical: u32, scale_factor_milli: u32) -> u64 {
    ((physical as int) * 1_000_000 / (scale_factor_milli as int)) as u64
}

/// The signed fixed-point division of a pixel displacement by the scale
/// factor: millipixels to millipoints, truncating toward zero.
pub open spec fn pixels_to_points_milli(v: int, scale_factor_milli: int) -> int {
    if v >= 0 {
        v * 1000 / scale_factor_milli
    } else {
        -((-v) * 1000 / scale_factor_milli)
    }
}

/// A wheel displacement in millipoints: lines are worth 50 points each, and
/// pixels are divided by the scale factor where one is known.
pub open spec fn scroll_delta_points(delta: ScrollDelta, ppp_milli: Option<u32>) -> Vec2 {
    match delta {
        ScrollDelta::Lines { x, y } => Vec2 { x: (x * 50) as i64, y: (y * 50) as i64 },
        ScrollDelta::Pixels { x, y } => match ppp_milli {
            Some(p) => Vec2 {
                x: pixels_to_points_milli(x as int, p as int) as i64,
                y: pixels_to_points_milli(y as int, p as int) as i64,
            },
            None => Vec2 { x: x as i64, y: y as i64 },
        },
    }
}

/// The frame controller. All cross-frame state of one window: the pending
/// input snapshot, the platform flag, the geometry, the background color,
/// the repaint deadline, the last pointer position, the close request, the
/// cursor-icon memo, the pending clipboard read, and whether the window is
/// still active (a one-way flag cleared when the host signals shutdown).
#[derive(Debug)]
pub struct EguiWindow {
    pub egui_input: RawInput,
    pub platform: Platform,
    pub scale_factor_milli: u32,
    pub bg_color: Rgba,
    pub physical_width: u32,
    pub physical_height: u32,
    pub repaint_at: Option<u64>,
    pub mouse_pos: Option<Pos2>,
    pub close_requested: bool,
    pub last_cursor_icon: Option<CursorIcon>,
    pub paste_pending: bool,
    pub active: bool,
}

/// The UI events one host event appends to the pending input.
pub open spec fn event_additions(w: EguiWindow, ev: HostEvent) -> Seq<Event> {
    match ev {
        HostEvent::CursorMoved { position, .. } => seq![Event::PointerMoved(position)],
        HostEvent::ButtonPressed { button, modifiers } => button_additions(
            w,
            button,
            modifiers,
            true,
        ),
        HostEvent::ButtonReleased { button, modifiers } => button_additions(
            w,
            button,
            modifiers,
            false,
        ),
        HostEvent::WheelScrolled { delta, modifiers } => wheel_additions(w, delta, modifiers),
        HostEvent::CursorLeft => seq![Event::PointerGone],
        HostEvent::Keyboard(kev) => keyboard_events(kev, w.platform),
        HostEvent::Resized { .. } => Seq::empty(),
        HostEvent::WillClose => Seq::empty(),
    }
}

/// The pointer-button event a press or release appends: one event at the
/// last known pointer position, if there is one and the button has a UI
/// counterpart; nothing otherwise.
pub open spec fn button_additions(
    w: EguiWindow,
    button: MouseButton,
    raw: RawModifiers,
    pressed: bool,
) -> Seq<Event> {
    match (w.mouse_pos, translate_mouse_button_spec(button)) {
        (Some(pos), Some(b)) => seq![
            Event::PointerButton {
                pos,
                button: b,
                pressed,
                modifiers: translate_modifiers_spec(raw, w.platform),
            },
        ],
        _ => Seq::empty(),
    }
}

/// The event a wheel displacement appends: a zoom when ctrl or command is
/// held (carrying the vertical displacement the host turns into a factor),
/// a horizontal scroll of the summed displacement when shift is held, and a
/// plain scroll otherwise.
pub open spec fn wheel_additions(w: EguiWindow, delta: ScrollDelta, raw: RawModifiers) -> Seq<
    Event,
> {
    let m = translate_modifiers_spec(raw, w.platform);
    let d = scroll_delta_points(delta, w.egui_input.pixels_per_point_milli);
    if m.ctrl || m.command {
        seq![Event::Zoom(d.y)]
    } else if m.shift {
        seq![Event::Scroll(Vec2 { x: ((d.x as int) + (d.y as int)) as i64, y: 0 })]
    } else {
        seq![Event::Scroll(d)]
    }
}

/// The modifier snapshot after one host event: mouse events install the
/// canonical translation of their raw snapshot, keyboard events additionally
/// apply their own key transition, and window events change nothing.
pub open spec fn event_modifiers(w: EguiWindow, ev: HostEvent) -> Modifiers {
    match ev {
        HostEvent::CursorMoved { modifiers, .. } => translate_modifiers_spec(
            modifiers,
            w.platform,
        ),
        HostEvent::ButtonPressed { modifiers, .. } => translate_modifiers_spec(
            modifiers,
            w.platform,
        ),
        HostEvent::ButtonReleased { modifiers, .. } => translate_modifiers_spec(
            modifiers,
            w.platform,
        ),
        HostEvent::WheelScrolled { modifiers, .. } => translate_modifiers_spec(
            modifiers,
            w.platform,
        ),
        HostEvent::Keyboard(kev) => keyboard_modifiers(kev, w.platform),
        _ => w.egui_input.modifiers,
    }
}

/// The pointer position after one host event: set by a move, cleared by the
/// cursor leaving, untouched otherwise.
pub open spec fn event_mouse_pos(w: EguiWindow, ev: HostEvent) -> Option<Pos2> {
    match ev {
        HostEvent::CursorMoved { position, .. } => Some(position),
        HostEvent::CursorLeft => None,
        _ => w.mouse_pos,
    }
}

/// The repaint deadline after one host event: a resize forces a deadline of
/// now, whatever was scheduled; every other event leaves it alone.
pub open spec fn event_repaint_at(w: EguiWindow, ev: HostEvent, now_nanos: u64) -> Option<u64> {
    match ev {
        HostEvent::Resized { .. } => Some(now_nanos),
        _ => w.repaint_at,
    }
}

/// Whether a clipboard read is owed after one host event: a keyboard event
/// classified as paste requests one and any other keyboard event cancels a
/// stale request; other events leave the flag alone.
pub open spec fn event_paste_pending(w: EguiWindow, ev: HostEvent) -> bool {
    match ev {
        HostEvent::Keyboard(kev) => keyboard_paste_requested(kev, w.platform),
        _ => w.paste_pending,
    }
}

/// Whether a repaint is due this tick: a scheduled deadline has been
/// reached, or the UI library asked for a zero delay (with or without a
/// deadline on the books).
pub open spec fn repaint_due(repaint_at: Option<u64>, delay_nanos: u64, now_nanos: u64) -> bool {
    match repaint_at {
        Some(t) => now_nanos >= t || delay_nanos == 0,
        None => delay_nanos == 0,
    }
}

/// The repaint deadline after a tick: cleared by a repaint (the only path
/// that clears it); otherwise overwritten with now plus the requested delay
/// where that fits the clock, deadlines being overwritten, never queued.
pub open spec fn repaint_at_after(
    repaint_at: Option<u64>,
    delay_nanos: u64,
    now_nanos: u64,
) -> Option<u64> {
    if repaint_due(repaint_at, delay_nanos, now_nanos) {
        None
    } else if now_nanos + delay_nanos <= u64::MAX {
        Some((now_nanos + delay_nanos) as u64)
    } else {
        repaint_at
    }
}

/// The cursor-set command a tick issues: one host call when the requested
/// icon differs from the memo of the last applied icon, none when it is the
/// same.
pub open spec fn cursor_call(last: Option<CursorIcon>, icon: CursorIcon) -> Option<MouseCursor> {
    if last == Some(icon) {
        None
    } else {
        Some(translate_cursor_icon_spec(icon))
    }
}

impl EguiWindow {
    /// The state is well formed when its scale factors are positive, so
    /// that pixel-to-point divisions are defined.
    pub open spec fn wf(&self) -> bool {
        &&& self.scale_factor_milli >= 1
        &&& (self.egui_input.pixels_per_point_milli matches Some(p) ==> p >= 1)
    }

    /// Opens the controller for a window of the given physical size. The
    /// scale factor starts as a guess of one until the host reports
    /// otherwise, the logical rectangle as the physical size under that
    /// guess, and the first repaint is due immediately.
    pub fn new(physical_width: u32, physical_height: u32, platform: Platform) -> (w: EguiWindow)
        ensures
            w.egui_input.time_nanos is None,
            w.egui_input.screen_rect == Some(
                ScreenRect {
                    width_milli: ((physical_width as int) * 1000) as u64,
                    height_milli: ((physical_height as int) * 1000) as u64,
                },
            ),
            w.egui_input.pixels_per_point_milli == Some(1000u32),
            w.egui_input.modifiers == (Modifiers {
                alt: false,
                ctrl: false,
                shift: false,
                mac_cmd: false,
                command: false,
            }),
            w.egui_input.events@ == Seq::<Event>::empty(),
            w.platform == platform,
            w.scale_factor_milli == 1000,
            w.bg_color == (Rgba { r: 0, g: 0, b: 0, a: 255 }),
            w.physical_width == physical_width,
            w.physical_height == physical_height,
            w.repaint_at == Some(0u64),
            w.mouse_pos is None,
            !w.close_requested,
            w.last_cursor_icon is None,
            !w.paste_pending,
            w.active,
            w.wf(),
    {
        EguiWindow {
            egui_input: RawInput {
                time_nanos: None,
                screen_rect: Some(
                    ScreenRect {
                        width_milli: (physical_width as u64) * 1000,
                        height_milli: (physical_height as u64) * 1000,
                    },
                ),
                pixels_per_point_milli: Some(1000),
                modifiers: Modifiers {
                    alt: false,
                    ctrl: false,
                    shift: false,
                    mac_cmd: false,
                    command: false,
                },
                events: Vec::new(),
            },
            platform,
            scale_factor_milli: 1000,
            bg_color: Rgba::black(),
            physical_width,
            physical_height,
            repaint_at: Some(0),
            mouse_pos: None,
            close_requested: false,
            last_cursor_icon: None,
            paste_pending: false,
            active: true,
        }
    }

    /// Installs the canonical translation of a raw modifier snapshot, as
    /// mouse events report one.
    fn update_modifiers(&mut self, modifiers: &RawModifiers)
        ensures
            final(self).egui_input.modifiers == translate_modifiers_spec(
                *modifiers,
                old(self).platform,
            ),
            final(self).egui_input.time_nanos == old(self).egui_input.time_nanos,
            final(self).egui_input.screen_rect == old(self).egui_input.screen_rect,
            final(self).egui_input.pixels_per_point_milli == old(
                self,
            ).egui_input.pixels_per_point_milli,
            final(self).egui_input.events@ == old(self).egui_input.events@,
            final(self).platform == old(self).platform,
            final(self).scale_factor_milli == old(self).scale_factor_milli,
            final(self).bg_color == old(self).bg_color,
            final(self).physical_width == old(self).physical_width,
            final(self).physical_height == old(self).physical_height,
            final(self).repaint_at == old(self).repaint_at,
            final(self).mouse_pos == old(self).mouse_pos,
            final(self).close_requested == old(self).close_requested,
            final(self).last_cursor_icon == old(self).last_cursor_icon,
            final(self).paste_pending == old(self).paste_pending,
            final(self).active == old(self).active,
    {
        let m = translate_modifiers(modifiers, self.platform);
        self.egui_input.modifiers = m;
    }

    /// Buffers one raw host event into the pending input, updating modifier,
    /// pointer, geometry and scheduling state as the event demands. Always
    /// captures the event; the response says whether the host owes the
    /// pending input a clipboard read.
    pub fn on_event(&mut self, event: &HostEvent, now_nanos: u64) -> (r: EventResponse)
        requires
            old(self).wf(),
            *event matches HostEvent::Resized { scale_factor_milli, .. }
                ==> scale_factor_milli >= 1,
        ensures
            r.status == EventStatus::Captured,
            r.paste_requested == event_paste_pending(*old(self), *event),
            final(self).paste_pending == event_paste_pending(*old(self), *event),
            final(self).egui_input.events@ == old(self).egui_input.events@ + event_additions(
                *old(self),
                *event,
            ),
            final(self).egui_input.modifiers == event_modifiers(*old(self), *event),
            final(self).mouse_pos == event_mouse_pos(*old(self), *event),
            final(self).repaint_at == event_repaint_at(*old(self), *event, now_nanos),
            final(self).active == (old(self).active && !(*event is WillClose)),
            *event matches HostEvent::Resized {
                physical_width,
                physical_height,
                scale_factor_milli,
            } ==> {
                &&& final(self).scale_factor_milli == scale_factor_milli
                &&& final(self).physical_width == physical_width
                &&& final(self).physical_height == physical_height
                &&& final(self).egui_input.pixels_per_point_milli == Some(scale_factor_milli)
                &&& final(self).egui_input.screen_rect == Some(
                    ScreenRect {
                        width_milli: logical_size_milli(physical_width, scale_factor_milli),
                        height_milli: logical_size_milli(physical_height, scale_factor_milli),
                    },
                )
            },
            !(*event is Resized) ==> {
                &&& final(self).scale_factor_milli == old(self).scale_factor_milli
                &&& final(self).physical_width == old(self).physical_width
                &&& final(self).physical_height == old(self).physical_height
                &&& final(self).egui_input.pixels_per_point_milli == old(
                    self,
                ).egui_input.pixels_per_point_milli
                &&& final(self).egui_input.screen_rect == old(self).egui_input.screen_rect
            },
            final(self).egui_input.time_nanos == old(self).egui_input.time_nanos,
            final(self).platform == old(self).platform,
            final(self).bg_color == old(self).bg_color,
            final(self).close_requested == old(self).close_requested,
            final(self).last_cursor_icon == old(self).last_cursor_icon,
            final(self).wf(),
    {
        match event {
            HostEvent::CursorMoved { position, modifiers } => {
                self.update_modifiers(modifiers);
                self.mouse_pos = Some(*position);
                self.egui_input.events.push(Event::PointerMoved(*position));
            },
            HostEvent::ButtonPressed { button, modifiers } => {
                self.update_modifiers(modifiers);
                if let Some(pos) = self.mouse_pos {
                    if let Some(b) = translate_mouse_button(*button) {
                        self.egui_input.events.push(
                            Event::PointerButton {
                                pos,
                                button: b,
                                pressed: true,
                                modifiers: self.egui_input.modifiers,
                            },
                        );
                    }
                }
            },
            HostEvent::ButtonReleased { button, modifiers } => {
                self.update_modifiers(modifiers);
                if let Some(pos) = self.mouse_pos {
                    if let Some(b) = translate_mouse_button(*button) {
                        self.egui_input.events.push(
                            Event::PointerButton {
                                pos,
                                button: b,
                                pressed: false,
                                modifiers: self.egui_input.modifiers,
                            },
                        );
                    }
                }
            },
            HostEvent::WheelScrolled { delta, modifiers } => {
                self.update_modifiers(modifiers);
                let d: Vec2 = match delta {
                    ScrollDelta::Lines { x, y } => Vec2 {
                        x: (*x as i64) * 50,
                        y: (*y as i64) * 50,
                    },
                    ScrollDelta::Pixels { x, y } => match self.egui_input.pixels_per_point_milli {
                        Some(p) => Vec2 {
                            x: pixels_to_points(*x, p),
                            y: pixels_to_points(*y, p),
                        },
                        None => Vec2 { x: *x as i64, y: *y as i64 },
                    },
                };
                if self.egui_input.modifiers.ctrl || self.egui_input.modifiers.command {
                    self.egui_input.events.push(Event::Zoom(d.y));
                } else if self.egui_input.modifiers.shift {
                    self.egui_input.events.push(Event::Scroll(Vec2 { x: d.x + d.y, y: 0 }));
                } else {
                    self.egui_input.events.push(Event::Scroll(d));
                }
            },
            HostEvent::CursorLeft => {
                self.mouse_pos = None;
                self.egui_input.events.push(Event::PointerGone);
            },
            HostEvent::Keyboard(kev) => {
                let ki = EguiKeyboardInput::from_keyboard_event(kev, self.platform);
                let paste = ki.paste_requested;
                ki.apply_on_raw_input(&mut self.egui_input);
                self.paste_pending = paste;
            },
            HostEvent::Resized { physical_width, physical_height, scale_factor_milli } => {
                self.scale_factor_milli = *scale_factor_milli;
                let w: u64 = (*physical_width as u64) * 1_000_000 / (*scale_factor_milli as u64);
                let h: u64 = (*physical_height as u64) * 1_000_000 / (*scale_factor_milli as u64);
                self.physical_width = *physical_width;
                self.physical_height = *physical_height;
                self.egui_input.pixels_per_point_milli = Some(*scale_factor_milli);
                self.egui_input.screen_rect = Some(
                    ScreenRect { width_milli: w, height_milli: h },
                );
                self.repaint_at = Some(now_nanos);
            },
            HostEvent::WillClose => {
                self.active = false;
            },
        }
        proof {
            assert(self.egui_input.events@ =~= old(self).egui_input.events@ + event_additions(
                *old(self),
                *event,
            ));
        }
        EventResponse { status: EventStatus::Captured, paste_requested: self.paste_pending }
    }

    /// Appends the paste events for the clipboard contents the host read in
    /// answer to a paste request: the plain text if present, then the tagged
    /// binary payload if present. Does nothing unless a paste is pending;
    /// the request is consumed either way.
    pub fn supply_clipboard(&mut self, text: Option<String>, binary: Option<BinaryPayload>)
        ensures
            final(self).egui_input.events@ == old(self).egui_input.events@ + paste_additions(
                old(self).paste_pending,
                text,
                binary,
            ),
            final(self).paste_pending == false,
            final(self).egui_input.modifiers == old(self).egui_input.modifiers,
            final(self).egui_input.time_nanos == old(self).egui_input.time_nanos,
            final(self).egui_input.screen_rect == old(self).egui_input.screen_rect,
            final(self).egui_input.pixels_per_point_milli == old(
                self,
            ).egui_input.pixels_per_point_milli,
            final(self).platform == old(self).platform,
            final(self).scale_factor_milli == old(self).scale_factor_milli,
            final(self).bg_color == old(self).bg_color,
            final(self).physical_width == old(self).physical_width,
            final(self).physical_height == old(self).physical_height,
            final(self).repaint_at == old(self).repaint_at,
            final(self).mouse_pos == old(self).mouse_pos,
            final(self).close_requested == old(self).close_requested,
            final(self).last_cursor_icon == old(self).last_cursor_icon,
            final(self).active == old(self).active,
    {
        if self.paste_pending {
            if let Some(t) = text {
                self.egui_input.events.push(Event::Paste(t));
            }
            if let Some(b) = binary {
                self.egui_input.events.push(Event::PasteBinary(b));
            }
        }
        self.paste_pending = false;
        proof {
            assert(self.egui_input.events@ =~= old(self).egui_input.events@ + paste_additions(
                old(self).paste_pending,
                text,
                binary,
            ));
        }
    }

    /// Drains the pending input into the begin-frame snapshot, stamped with
    /// the tick's timestamp. The pending buffer is left empty: its events
    /// are gone, its one-shot geometry fields are taken, and only the
    /// modifier state carries over.
    pub fn begin_frame_input(&mut self, now_nanos: u64) -> (input: RawInput)
        requires
            old(self).wf(),
            old(self).active,
        ensures
            input.time_nanos == Some(now_nanos),
            input.screen_rect == old(self).egui_input.screen_rect,
            input.pixels_per_point_milli == old(self).egui_input.pixels_per_point_milli,
            input.modifiers == old(self).egui_input.modifiers,
            input.events@ == old(self).egui_input.events@,
            final(self).egui_input.time_nanos is None,
            final(self).egui_input.screen_rect is None,
            final(self).egui_input.pixels_per_point_milli is None,
            final(self).egui_input.modifiers == old(self).egui_input.modifiers,
            final(self).egui_input.events@ == Seq::<Event>::empty(),
            final(self).platform == old(self).platform,
            final(self).scale_factor_milli == old(self).scale_factor_milli,
            final(self).bg_color == old(self).bg_color,
            final(self).physical_width == old(self).physical_width,
            final(self).physical_height == old(self).physical_height,
            final(self).repaint_at == old(self).repaint_at,
            final(self).mouse_pos == old(self).mouse_pos,
            final(self).close_requested == old(self).close_requested,
            final(self).last_cursor_icon == old(self).last_cursor_icon,
            final(self).paste_pending == old(self).paste_pending,
            final(self).active == old(self).active,
            final(self).wf(),
    {
        let screen_rect = self.egui_input.screen_rect;
        let pixels_per_point_milli = self.egui_input.pixels_per_point_milli;
        let modifiers = self.egui_input.modifiers;
        let mut events: Vec<Event> = Vec::new();
        events.append(&mut self.egui_input.events);
        self.egui_input.time_nanos = None;
        self.egui_input.screen_rect = None;
        self.egui_input.pixels_per_point_milli = None;
        proof {
            assert(events@ =~= old(self).egui_input.events@);
        }
        RawInput {
            time_nanos: Some(now_nanos),
            screen_rect,
            pixels_per_point_milli,
            modifiers,
            events,
        }
    }

    /// A queue bound to this tick's background color and close-request
    /// state, for the user update callback to mutate.
    pub fn make_queue(&self) -> (q: Queue)
        ensures
            q.bg_color == self.bg_color,
            q.close_requested == self.close_requested,
    {
        Queue { bg_color: self.bg_color, close_requested: self.close_requested }
    }

    /// Takes back the queue the user update callback mutated, installing its
    /// background color and close request.
    pub fn absorb_queue(&mut self, q: Queue)
        ensures
            final(self).bg_color == q.bg_color,
            final(self).close_requested == q.close_requested,
            final(self).egui_input == old(self).egui_input,
            final(self).platform == old(self).platform,
            final(self).scale_factor_milli == old(self).scale_factor_milli,
            final(self).physical_width == old(self).physical_width,
            final(self).physical_height == old(self).physical_height,
            final(self).repaint_at == old(self).repaint_at,
            final(self).mouse_pos == old(self).mouse_pos,
            final(self).last_cursor_icon == old(self).last_cursor_icon,
            final(self).paste_pending == old(self).paste_pending,
            final(self).active == old(self).active,
    {
        self.bg_color = q.bg_color;
        self.close_requested = q.close_requested;
    }

    /// Ends the tick: decides whether a repaint is due now (a reached
    /// deadline or a zero requested delay), reschedules or clears the
    /// deadline, and returns the side effects the host must apply: the
    /// repaint, the clipboard writes (plain text only when non-empty, the
    /// tagged binary payload whenever present), the cursor-set call only
    /// when the icon changed, and the close request. The cursor memo is
    /// updated to the observed icon unconditionally.
    pub fn end_frame_output(&mut self, output: FrameOutput, now_nanos: u64) -> (effects:
        TickEffects)
        requires
            old(self).active,
        ensures
            effects.repaint == repaint_due(
                old(self).repaint_at,
                output.repaint_delay_nanos,
                now_nanos,
            ),
            final(self).repaint_at == repaint_at_after(
                old(self).repaint_at,
                output.repaint_delay_nanos,
                now_nanos,
            ),
            effects.set_clipboard_text == (if output.copied_text@.len() == 0 {
                None::<String>
            } else {
                Some(output.copied_text)
            }),
            effects.set_clipboard_binary == output.copied_binary,
            effects.set_cursor == cursor_call(old(self).last_cursor_icon, output.cursor_icon),
            final(self).last_cursor_icon == Some(output.cursor_icon),
            effects.close == old(self).close_requested,
            final(self).egui_input == old(self).egui_input,
            final(self).platform == old(self).platform,
            final(self).scale_factor_milli == old(self).scale_factor_milli,
            final(self).bg_color == old(self).bg_color,
            final(self).physical_width == old(self).physical_width,
            final(self).physical_height == old(self).physical_height,
            final(self).mouse_pos == old(self).mouse_pos,
            final(self).close_requested == old(self).close_requested,
            final(self).paste_pending == old(self).paste_pending,
            final(self).active == old(self).active,
    {
        let do_repaint: bool = match self.repaint_at {
            Some(t) => now_nanos >= t || output.repaint_delay_nanos == 0,
            None => output.repaint_delay_nanos == 0,
        };
        if do_repaint {
            self.repaint_at = None;
        } else if output.repaint_delay_nanos <= u64::MAX - now_nanos {
            self.repaint_at = Some(now_nanos + output.repaint_delay_nanos);
        }
        let same_icon: bool = match self.last_cursor_icon {
            Some(prev) => prev == output.cursor_icon,
            None => false,
        };
        let set_cursor: Option<MouseCursor> = if same_icon {
            None
        } else {
            Some(translate_cursor_icon(output.cursor_icon))
        };
        self.last_cursor_icon = Some(output.cursor_icon);
        let empty_text = String::new();
        let text_is_empty: bool = output.copied_text == empty_text;
        proof {
            if output.copied_text@.len() == 0 {
                assert(output.copied_text@ =~= Seq::<char>::empty());
            }
        }
        let set_clipboard_text: Option<String> = if text_is_empty {
            None
        } else {
            Some(output.copied_text)
        };
        TickEffects {
            repaint: do_repaint,
            set_clipboard_text,
            set_clipboard_binary: output.copied_binary,
            set_cursor,
            close: self.close_requested,
        }
    }
}

/// A button press or release reports the position of the most recent
/// pointer move: after a move to `position`, a button event for a button
/// with a UI counterpart appends exactly one pointer-button event at
/// `position`, and one for a button without a counterpart appends nothing.
pub proof fn lemma_button_press_uses_last_move(
    w1: EguiWindow,
    w2: EguiWindow,
    position: Pos2,
    move_modifiers: RawModifiers,
    button: MouseButton,
    press_modifiers: RawModifiers,
)
    requires
        w2.mouse_pos == event_mouse_pos(
            w1,
            HostEvent::CursorMoved { position, modifiers: move_modifiers },
        ),
    ensures
        translate_mouse_button_spec(button) matches Some(b) ==> event_additions(
            w2,
            HostEvent::ButtonPressed { button, modifiers: press_modifiers },
        ) == seq![
            Event::PointerButton {
                pos: position,
                button: b,
                pressed: true,
                modifiers: translate_modifiers_spec(press_modifiers, w2.platform),
            },
        ],
        translate_mouse_button_spec(button) is None ==> event_additions(
            w2,
            HostEvent::ButtonPressed { button, modifiers: press_modifiers },
        ).len() == 0,
{
}

/// A button event with no known pointer position appends nothing: so before
/// any move, and again after the cursor has left the window.
pub proof fn lemma_button_press_without_position(
    w: EguiWindow,
    button: MouseButton,
    press_modifiers: RawModifiers,
)
    requires
        w.mouse_pos is None,
    ensures
        event_additions(w, HostEvent::ButtonPressed { button, modifiers: press_modifiers }).len()
            == 0,
        event_additions(w, HostEvent::ButtonReleased { button, modifiers: press_modifiers }).len()
            == 0,
{
}

/// The cursor leaving the window clears the known pointer position.
pub proof fn lemma_cursor_left_clears_position(w: EguiWindow)
    ensures
        event_mouse_pos(w, HostEvent::CursorLeft) is None,
{
}

/// A resize forces a repaint deadline of now, whatever was scheduled
/// before, and sets the logical rectangle to the physical size divided by
/// the reported scale factor.
pub proof fn lemma_resize_forces_immediate_repaint(
    w: EguiWindow,
    physical_width: u32,
    physical_height: u32,
    scale_factor_milli: u32,
    now_nanos: u64,
)
    requires
        scale_factor_milli >= 1,
    ensures
        event_repaint_at(
            w,
            HostEvent::Resized { physical_width, physical_height, scale_factor_milli },
            now_nanos,
        ) == Some(now_nanos),
        logical_size_milli(physical_width, scale_factor_milli) == (physical_width as int)
            * 1_000_000 / (scale_factor_milli as int),
        logical_size_milli(physical_height, scale_factor_milli) == (physical_height as int)
            * 1_000_000 / (scale_factor_milli as int),
{
    lemma_div_pos_is_pos((physical_width as int) * 1_000_000, scale_factor_milli as int);
    lemma_div_nonincreasing((physical_width as int) * 1_000_000, scale_factor_milli as int);
    lemma_div_pos_is_pos((physical_height as int) * 1_000_000, scale_factor_milli as int);
    lemma_div_nonincreasing((physical_height as int) * 1_000_000, scale_factor_milli as int);
}

/// Applying the same cursor icon on two successive ticks issues exactly one
/// host cursor-set call: the first tick issues it (the memo differed), and
/// the second tick, whose memo now holds that icon, issues none.
pub proof fn lemma_cursor_icon_applied_once(w1: EguiWindow, w2: EguiWindow, icon: CursorIcon)
    requires
        w1.last_cursor_icon != Some(icon),
        w2.last_cursor_icon == Some(icon),
    ensures
        cursor_call(w1.last_cursor_icon, icon) == Some(translate_cursor_icon_spec(icon)),
        cursor_call(w2.last_cursor_icon, icon) is None,
{
}

/// A zero requested repaint delay repaints this same tick, whatever the
/// schedule held: with a deadline on the books, past or future, and with
/// none.
pub proof fn lemma_zero_delay_repaints_now(repaint_at: Option<u64>, now_nanos: u64)
    ensures
        repaint_due(repaint_at, 0, now_nanos),
{
}

/// Divides a signed millipixel displacement by the scale factor, truncating
/// toward zero.
fn pixels_to_points(v: i32, scale_factor_milli: u32) -> (r: i64)
    requires
        scale_factor_milli >= 1,
    ensures
        r == pixels_to_points_milli(v as int, scale_factor_milli as int),
        -2_148_000_000_000 <= r <= 2_148_000_000_000,
{
    if v >= 0 {
        let q: u64 = (v as u64) * 1000 / (scale_factor_milli as u64);
        proof {
            lemma_div_pos_is_pos((v as int) * 1000, scale_factor_milli as int);
            lemma_div_nonincreasing((v as int) * 1000, scale_factor_milli as int);
        }
        q as i64
    } else {
        let mag: u64 = ((-(v as i64)) as u64) * 1000 / (scale_factor_milli as u64);
        proof {
            lemma_div_pos_is_pos((-(v as int)) * 1000, scale_factor_milli as int);
            lemma_div_nonincreasing((-(v as int)) * 1000, scale_factor_milli as int);
        }
        -(mag as i64)
    }
}

} // verus!
