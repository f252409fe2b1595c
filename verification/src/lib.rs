//! Adapter core between a host windowing system and an immediate-mode UI
//! library: it accumulates raw input events between frames, tracks modifier
//! and pointer state, decides when a repaint is due, and turns each frame's
//! output into explicit host-side effect commands (clipboard writes, cursor
//! changes, window close).
//!
//! Everything the decision logic reads is held as plain values: positions and
//! scroll deltas in thousandths of a point, scale factors in thousandths of a
//! pixel-per-point, times in nanoseconds on the host's monotonic timeline.
//! The host shell converts between these and its own floating-point and
//! windowing types, performs the GL work, and reads and writes the OS
//! clipboard; none of that crosses into this crate.

pub mod input;
pub mod keyboard;
pub mod translate;
pub mod window;

pub use keyboard::EguiKeyboardInput;
pub use translate::is_copy_command;
pub use translate::is_cut_command;
pub use translate::is_paste_command;
pub use translate::translate_modifiers;
pub use translate::translate_mouse_button;
pub use translate::translate_virtual_key_code;
pub use window::EguiWindow;
pub use window::Queue;
