//! The events that the loop delivers to its consumer.

use vstd::prelude::*;
use crate::dpi::PhysicalSize;
use crate::keyboard::PhysicalKey;

verus! {

/// Whether a key went down or came up.
#[derive(Debug, Hash, PartialEq, Eq, Structural, Clone, Copy)]
pub enum ElementState {
    Pressed,
    Released,
}

/// A keyboard input that targets a window.
#[derive(Debug, Clone, Copy, Eq, PartialEq, Structural, Hash)]
pub struct KeyEvent {
    /// The key, by its position on the keyboard.
    pub physical_key: PhysicalKey,
    /// Whether the key is being pressed or released.
    pub state: ElementState,
}

/// An event of one window.
#[derive(Debug, Clone, Copy, PartialEq, Eq, Structural)]
pub enum WindowEvent {
    CloseRequested,
    RedrawRequested,
    Resized(PhysicalSize),
    KeyboardInput { event: KeyEvent },
}

/// Identifies a window.
#[derive(Debug, Clone, Copy, PartialEq, Structural, Hash, Eq)]
pub struct WindowId(pub u64);

/// What the consumer's handler is called with.
#[derive(Debug, Clone, Copy, PartialEq, Eq, Structural)]
pub enum Event {
    /// The loop is starting.
    NewEvents,
    /// The loop has resumed and windows may be created.
    Resumed,
    /// An event of the window `window_id`.
    WindowEvent { window_id: WindowId, event: WindowEvent },
}

/// Why the loop is resuming.
#[derive(Debug, Clone, Copy, PartialEq, Eq, Structural)]
pub enum StartCause {
    /// The loop is polling.
    Poll,
    /// The loop was just initialised.
    Init,
}

} // verus!
