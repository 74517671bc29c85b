//! The events the host consumes once per tick.
//!
//! `WindowEvent` is what the protocol handlers gather while the display
//! connection is dispatched. `LifecycleEvent` is what reconciliation
//! announces when it creates or destroys a native surface.

use vstd::prelude::*;

use crate::input::keyboard::{Key, KeyCode};
use crate::Entity;

verus! {

/// Whether a key or button went down or came up.
#[derive(Clone, Copy, Debug, PartialEq, Eq, Structural)]
pub enum ButtonState {
    Pressed,
    Released,
}

/// The stage of one touch point's life.
#[derive(Clone, Copy, Debug, PartialEq, Eq, Structural)]
pub enum TouchPhase {
    Started,
    Moved,
    Ended,
    Canceled,
}

/// A pointer button.
#[derive(Clone, Copy, Debug, PartialEq, Eq, Structural)]
pub enum MouseButton {
    Left,
    Right,
    Middle,
    Back,
    Forward,
    /// Any other button, with its Linux input code.
    Other(u32),
}

/// One event from the display server, addressed to the window it concerns.
///
/// `P` is the type of a logical position; this crate stores and forwards
/// positions without computing on them.
#[derive(Debug, PartialEq)]
pub enum WindowEvent<P> {
    CursorEntered { window: Entity },
    CursorLeft { window: Entity },
    CursorMoved { window: Entity, position: P, delta: Option<P> },
    MouseButtonInput { window: Entity, button: MouseButton, state: ButtonState },
    KeyboardInput {
        window: Entity,
        key_code: KeyCode,
        logical_key: Key,
        state: ButtonState,
        repeat: bool,
    },
    TouchInput { window: Entity, id: u64, phase: TouchPhase, position: P },
    WindowCloseRequested { window: Entity },
    WindowScaleFactorChanged { window: Entity, scale_factor: i32 },
}

/// A step in a window's life, announced by reconciliation.
#[derive(Clone, Copy, Debug, PartialEq, Eq, Structural)]
pub enum LifecycleEvent {
    /// The window has its native surface now.
    WindowCreated { window: Entity },
    /// The window is about to be closed.
    WindowClosing { window: Entity },
    /// The window is gone.
    WindowClosed { window: Entity },
}

} // verus!
