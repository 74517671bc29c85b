//! Pointer buttons and pointer frames.
//!
//! The compositor reports pointer activity in frames: batches of events that
//! belong together. Each event of a frame is looked at on its own. What it
//! means for the host is decided here; the arithmetic on cursor positions is
//! left to the caller, who knows the window's scale factor.

use vstd::prelude::*;

use crate::events::{ButtonState, MouseButton, WindowEvent};
use crate::smithay_windows::{SmithayWindows, WindowsView};
use crate::{Entity, SurfaceId};

verus! {

/// Linux input code of the left button.
pub const BTN_LEFT: u32 = 272;

/// Linux input code of the right button.
pub const BTN_RIGHT: u32 = 273;

/// Linux input code of the middle button.
pub const BTN_MIDDLE: u32 = 274;

/// Linux input code of the forward button.
pub const BTN_FORWARD: u32 = 277;

/// Linux input code of the back button.
pub const BTN_BACK: u32 = 278;

/// The button a Linux input code stands for.
///
/// The five known codes map to their named buttons. Every other code maps to
/// `Other`, carrying the code.
pub open spec fn mouse_button_of(button: u32) -> MouseButton {
    if button == BTN_LEFT {
        MouseButton::Left
    } else if button == BTN_RIGHT {
        MouseButton::Right
    } else if button == BTN_MIDDLE {
        MouseButton::Middle
    } else if button == BTN_FORWARD {
        MouseButton::Forward
    } else if button == BTN_BACK {
        MouseButton::Back
    } else {
        MouseButton::Other(button)
    }
}

/// Maps a Linux input code to a button. Total: an unknown code is
/// reported as `Other`, never as one of the named buttons.
pub fn convert_to_mouse_button(button: u32) -> (r: MouseButton)
    ensures
        r == mouse_button_of(button),
{
    match button {
        272 => MouseButton::Left,
        273 => MouseButton::Right,
        274 => MouseButton::Middle,
        277 => MouseButton::Forward,
        278 => MouseButton::Back,
        other => MouseButton::Other(other),
    }
}

/// What happened to the pointer.
#[derive(Clone, Copy, Debug, PartialEq, Eq, Structural)]
pub enum PointerEventKind {
    /// The pointer came onto the surface.
    Enter,
    /// The pointer went off the surface.
    Leave,
    /// The pointer moved over the surface.
    Motion,
    /// A button went down; `button` is its Linux input code.
    Press { button: u32 },
    /// A button came up; `button` is its Linux input code.
    Release { button: u32 },
    /// The wheel turned or a finger scrolled.
    Axis,
}

/// One event of a pointer frame.
///
/// `P` is the type of a position; here it is the physical position the
/// compositor reported.
#[derive(Debug, PartialEq)]
pub struct PointerEvent<P> {
    /// The surface the pointer is over.
    pub surface: SurfaceId,
    /// Where the pointer is on that surface.
    pub position: P,
    /// What happened.
    pub kind: PointerEventKind,
}

/// What the caller has to do for one event of a pointer frame.
#[derive(Debug, PartialEq)]
pub enum PointerAction<P> {
    /// Queue this event as it is.
    Send(WindowEvent<P>),
    /// The cursor moved to `position` on `window`: store the position on the
    /// window, scale it, and queue the cursor move.
    Moved { window: Entity, position: P },
}

/// What one pointer event asks for.
///
/// An event on a surface that belongs to no scene window asks for nothing,
/// and neither does scrolling. Entering, leaving and buttons give their host
/// event directly; motion is passed on with its window.
pub open spec fn pointer_action_of<L, S, P>(
    windows: WindowsView<L, S>,
    event: PointerEvent<P>,
) -> Option<PointerAction<P>> {
    match windows.lookup_entity(event.surface) {
        None => None,
        Some(window) => match event.kind {
            PointerEventKind::Enter => Some(
                PointerAction::Send(WindowEvent::CursorEntered { window }),
            ),
            PointerEventKind::Leave => Some(PointerAction::Send(WindowEvent::CursorLeft { window })),
            PointerEventKind::Motion => Some(
                PointerAction::Moved { window, position: event.position },
            ),
            PointerEventKind::Press { button } => Some(
                PointerAction::Send(
                    WindowEvent::MouseButtonInput {
                        window,
                        button: mouse_button_of(button),
                        state: ButtonState::Pressed,
                    },
                ),
            ),
            PointerEventKind::Release { button } => Some(
                PointerAction::Send(
                    WindowEvent::MouseButtonInput {
                        window,
                        button: mouse_button_of(button),
                        state: ButtonState::Released,
                    },
                ),
            ),
            PointerEventKind::Axis => None,
        },
    }
}

/// What a pointer frame asks for: the actions of its events, in the order of
/// the events, those that ask for nothing left out.
pub open spec fn pointer_actions_of<L, S, P>(
    windows: WindowsView<L, S>,
    events: Seq<PointerEvent<P>>,
) -> Seq<PointerAction<P>>
    decreases events.len(),
{
    if events.len() == 0 {
        Seq::empty()
    } else {
        let earlier = pointer_actions_of(windows, events.drop_last());
        match pointer_action_of(windows, events.last()) {
            Some(action) => earlier.push(action),
            None => earlier,
        }
    }
}

/// Decides what one pointer event asks for.
pub fn pointer_event<L, S, P: Copy>(windows: &SmithayWindows<L, S>, event: &PointerEvent<P>) -> (r:
    Option<PointerAction<P>>)
    ensures
        r == pointer_action_of(windows@, *event),
{
    let window = match windows.lookup_entity(event.surface) {
        Some(window) => window,
        None => {
            return None;
        },
    };
    match event.kind {
        PointerEventKind::Enter => Some(PointerAction::Send(WindowEvent::CursorEntered { window })),
        PointerEventKind::Leave => Some(PointerAction::Send(WindowEvent::CursorLeft { window })),
        PointerEventKind::Motion => Some(PointerAction::Moved { window, position: event.position }),
        PointerEventKind::Press { button } => Some(
            PointerAction::Send(
                WindowEvent::MouseButtonInput {
                    window,
                    button: convert_to_mouse_button(button),
                    state: ButtonState::Pressed,
                },
            ),
        ),
        PointerEventKind::Release { button } => Some(
            PointerAction::Send(
                WindowEvent::MouseButtonInput {
                    window,
                    button: convert_to_mouse_button(button),
                    state: ButtonState::Released,
                },
            ),
        ),
        PointerEventKind::Axis => None,
    }
}

/// Decides what a pointer frame asks for.
///
/// Every event is resolved on its own: one on a surface that belongs to no
/// scene window is skipped, and the rest of the frame is still looked at.
/// The actions come back in the order of their events.
pub fn pointer_frame<L, S, P: Copy>(
    windows: &SmithayWindows<L, S>,
    events: &Vec<PointerEvent<P>>,
) -> (actions: Vec<PointerAction<P>>)
    ensures
        actions@ == pointer_actions_of(windows@, events@),
{
    let mut actions: Vec<PointerAction<P>> = Vec::new();
    let mut seen: usize = 0;
    while seen < events.len()
        invariant
            seen <= events.len(),
            actions@ == pointer_actions_of(windows@, events@.take(seen as int)),
        decreases events.len() - seen,
    {
        proof {
            let next = events@.take(seen as int + 1);
            assert(next.drop_last() =~= events@.take(seen as int));
            assert(next.last() == events@[seen as int]);
        }
        match pointer_event(windows, &events[seen]) {
            Some(action) => {
                actions.push(action);
            },
            None => {},
        }
        seen = seen + 1;
    }
    proof {
        assert(events@.take(seen as int) =~= events@);
    }
    actions
}

} // verus!
