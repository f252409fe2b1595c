//! The plain-value data model of the adapter: host-side enumerations
//! (key codes, mouse buttons, cursors, raw modifier snapshots), UI-side
//! enumerations (keys, pointer buttons, cursor icons, modifier state), the
//! input events exchanged between them, and the per-frame input snapshot.
//!
//! Geometry is carried in fixed point: positions, scroll deltas and screen
//! sizes are in thousandths of a point ("millipoints"), and scale factors in
//! thousandths of a pixel-per-point. The host converts its floating-point
//! coordinates at the boundary.

use vstd::prelude::*;

verus! {

/// The host platform, detected once at startup. It selects the modifier
/// aliasing (meta vs. ctrl as the command key) and the platform-specific
/// cut/copy/paste chords.
#[derive(Clone, Copy, Debug, PartialEq, Eq, Structural)]
pub enum Platform {
    MacOs,
    Windows,
    Other,
}

/// A raw modifier snapshot as the host keyboard layer reports it alongside
/// each event: one flag per physical modifier class.
#[derive(Clone, Copy, Debug, PartialEq, Eq, Structural)]
pub struct RawModifiers {
    pub alt: bool,
    pub ctrl: bool,
    pub meta: bool,
    pub shift: bool,
}

impl RawModifiers {
    /// The snapshot with no modifier held.
    pub fn none() -> (r: RawModifiers)
        ensures
            r == (RawModifiers { alt: false, ctrl: false, meta: false, shift: false }),
    {
        RawModifiers { alt: false, ctrl: false, meta: false, shift: false }
    }
}

/// The UI library's modifier state. `command` is the platform-normalized
/// alias: meta on Apple platforms, ctrl elsewhere; `mac_cmd` is set only on
/// Apple platforms.
#[derive(Clone, Copy, Debug, PartialEq, Eq, Structural)]
pub struct Modifiers {
    pub alt: bool,
    pub ctrl: bool,
    pub shift: bool,
    pub mac_cmd: bool,
    pub command: bool,
}

impl Modifiers {
    /// The state with no modifier held.
    pub fn none() -> (r: Modifiers)
        ensures
            r == (Modifiers {
                alt: false,
                ctrl: false,
                shift: false,
                mac_cmd: false,
                command: false,
            }),
    {
        Modifiers { alt: false, ctrl: false, shift: false, mac_cmd: false, command: false }
    }
}

/// A physical key code as the host keyboard layer reports it. Only the codes
/// the adapter reads are distinguished; every other code is `Unidentified`
/// and participates in nothing but modifier tracking.
#[derive(Clone, Copy, Debug, PartialEq, Eq, Structural)]
pub enum Code {
    ShiftLeft,
    ShiftRight,
    ControlLeft,
    ControlRight,
    AltLeft,
    AltRight,
    MetaLeft,
    MetaRight,
    ArrowDown,
    ArrowLeft,
    ArrowRight,
    ArrowUp,
    Escape,
    Tab,
    Backspace,
    Enter,
    NumpadEnter,
    Space,
    Insert,
    Delete,
    Home,
    End,
    PageUp,
    PageDown,
    Digit0,
    Digit1,
    Digit2,
    Digit3,
    Digit4,
    Digit5,
    Digit6,
    Digit7,
    Digit8,
    Digit9,
    Numpad0,
    Numpad1,
    Numpad2,
    Numpad3,
    Numpad4,
    Numpad5,
    Numpad6,
    Numpad7,
    Numpad8,
    Numpad9,
    KeyA,
    KeyB,
    KeyC,
    KeyD,
    KeyE,
    KeyF,
    KeyG,
    KeyH,
    KeyI,
    KeyJ,
    KeyK,
    KeyL,
    KeyM,
    KeyN,
    KeyO,
    KeyP,
    KeyQ,
    KeyR,
    KeyS,
    KeyT,
    KeyU,
    KeyV,
    KeyW,
    KeyX,
    KeyY,
    KeyZ,
    Unidentified,
}

/// A key in the UI library's enumeration.
#[derive(Clone, Copy, Debug, PartialEq, Eq, Structural)]
pub enum Key {
    ArrowDown,
    ArrowLeft,
    ArrowRight,
    ArrowUp,
    Escape,
    Tab,
    Backspace,
    Enter,
    Space,
    Insert,
    Delete,
    Home,
    End,
    PageUp,
    PageDown,
    Num0,
    Num1,
    Num2,
    Num3,
    Num4,
    Num5,
    Num6,
    Num7,
    Num8,
    Num9,
    A,
    B,
    C,
    D,
    E,
    F,
    G,
    H,
    I,
    J,
    K,
    L,
    M,
    N,
    O,
    P,
    Q,
    R,
    S,
    T,
    U,
    V,
    W,
    X,
    Y,
    Z,
}

/// A mouse button as the host reports it.
#[derive(Clone, Copy, Debug, PartialEq, Eq, Structural)]
pub enum MouseButton {
    Left,
    Right,
    Middle,
    Back,
    Forward,
}

/// A pointer button in the UI library's enumeration.
#[derive(Clone, Copy, Debug, PartialEq, Eq, Structural)]
pub enum PointerButton {
    Primary,
    Secondary,
    Middle,
}

/// A cursor icon as the UI library requests it.
#[derive(Clone, Copy, Debug, PartialEq, Eq, Structural)]
pub enum CursorIcon {
    Default,
    NoIcon,
    ContextMenu,
    Help,
    PointingHand,
    Progress,
    Wait,
    Cell,
    Crosshair,
    Text,
    VerticalText,
    Alias,
    CopyIcon,
    Move,
    NoDrop,
    NotAllowed,
    Grab,
    Grabbing,
    AllScroll,
    ResizeHorizontal,
    ResizeNeSw,
    ResizeNwSe,
    ResizeVertical,
    ResizeEast,
    ResizeSouthEast,
    ResizeSouth,
    ResizeSouthWest,
    ResizeWest,
    ResizeNorthWest,
    ResizeNorth,
    ResizeNorthEast,
    ResizeColumn,
    ResizeRow,
    ZoomIn,
    ZoomOut,
}

/// A cursor shape in the host window system's enumeration.
#[derive(Clone, Copy, Debug, PartialEq, Eq, Structural)]
pub enum MouseCursor {
    Default,
    Hidden,
    Help,
    Pointer,
    PtrWorking,
    Working,
    Cell,
    Crosshair,
    Text,
    VerticalText,
    Alias,
    CopyCursor,
    Move,
    PtrNotAllowed,
    NotAllowed,
    Hand,
    HandGrabbing,
    AllScroll,
    EwResize,
    NeswResize,
    NwseResize,
    NsResize,
    EResize,
    SeResize,
    SResize,
    SwResize,
    WResize,
    NwResize,
    NResize,
    NeResize,
    ColResize,
    RowResize,
    ZoomIn,
    ZoomOut,
}

/// A position in millipoints (thousandths of a logical point).
#[derive(Clone, Copy, Debug, PartialEq, Eq, Structural)]
pub struct Pos2 {
    pub x: i64,
    pub y: i64,
}

/// A displacement in millipoints.
#[derive(Clone, Copy, Debug, PartialEq, Eq, Structural)]
pub struct Vec2 {
    pub x: i64,
    pub y: i64,
}

/// The logical screen rectangle, anchored at the origin, in millipoints.
#[derive(Clone, Copy, Debug, PartialEq, Eq, Structural)]
pub struct ScreenRect {
    pub width_milli: u64,
    pub height_milli: u64,
}

/// A color with 8-bit channels. The decision logic only stores and forwards
/// it; the host converts to its own color type.
#[derive(Clone, Copy, Debug, PartialEq, Eq, Structural)]
pub struct Rgba {
    pub r: u8,
    pub g: u8,
    pub b: u8,
    pub a: u8,
}

impl Rgba {
    /// Opaque black, the initial background color.
    pub fn black() -> (c: Rgba)
        ensures
            c == (Rgba { r: 0, g: 0, b: 0, a: 255 }),
    {
        Rgba { r: 0, g: 0, b: 0, a: 255 }
    }
}

/// A tagged binary clipboard payload: content identified by a private
/// MIME-like string, for app-specific copy/paste beyond plain text.
#[derive(Debug, PartialEq, Eq)]
pub struct BinaryPayload {
    pub mime: String,
    pub data: Vec<u8>,
}

/// An input event in the UI library's model.
///
/// `Zoom` carries the vertical scroll displacement in millipoints from which
/// the host derives the exponential zoom factor; the factor itself is
/// floating point and lives outside this crate.
#[derive(Debug, PartialEq, Eq)]
pub enum Event {
    PointerMoved(Pos2),
    PointerButton { pos: Pos2, button: PointerButton, pressed: bool, modifiers: Modifiers },
    PointerGone,
    Scroll(Vec2),
    Zoom(i64),
    Key { key: Key, pressed: bool, modifiers: Modifiers },
    Text(String),
    Cut,
    Copy,
    Paste(String),
    PasteBinary(BinaryPayload),
}

/// The per-frame input snapshot handed to the UI library: the events that
/// arrived since the last frame, the most recent modifier state, the screen
/// geometry where it changed, and the frame timestamp in nanoseconds since
/// window-open.
#[derive(Debug)]
pub struct RawInput {
    pub time_nanos: Option<u64>,
    pub screen_rect: Option<ScreenRect>,
    pub pixels_per_point_milli: Option<u32>,
    pub modifiers: Modifiers,
    pub events: Vec<Event>,
}

} // verus!
