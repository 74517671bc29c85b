//! The state the protocol handlers share, and the handlers that are not
//! tied to one input device.
//!
//! Handlers run one after another on a single thread while the display
//! connection is dispatched. Each either changes this state, or appends to
//! the event buffer, or ignores what it was told. The buffer is handed to the
//! host in the order the handlers filled it.

use std::collections::HashMap;

use vstd::prelude::*;

use crate::events::{ButtonState, WindowEvent};
use crate::smithay_windows::{SmithayWindows, WindowsView};
use crate::{Entity, SurfaceId};

verus! {

/// An input device a seat can offer.
#[derive(Clone, Copy, Debug, PartialEq, Eq, Structural)]
pub enum Capability {
    Keyboard,
    Pointer,
    Touch,
}

/// What became of a protocol event.
#[derive(Clone, Copy, Debug, PartialEq, Eq, Structural)]
pub enum EventOutcome {
    /// An event for the host was appended to the buffer.
    Queued,
    /// Dropped: the surface belongs to no scene window (any more).
    UnknownSurface,
    /// Dropped: a key arrived while no surface had keyboard focus.
    NoKeyboardFocus,
    /// Dropped: the touch point was never put down, or is already gone.
    UnknownTouch,
}

/// The shared state of the protocol handlers.
///
/// `P` is the type of a logical position.
pub struct SmithayRunnerState<P> {
    /// Whether the seat's keyboard is bound.
    pub keyboard: bool,
    /// Whether the seat's pointer is bound.
    pub pointer: bool,
    /// Whether the seat's touch device is bound.
    pub touch: bool,
    /// The surface that has keyboard focus, if any.
    pub active_keyboard_surface: Option<SurfaceId>,
    /// The events gathered since the host last took them, oldest first.
    pub bevy_window_events: Vec<WindowEvent<P>>,
    /// The touch points that are down: the scene window each was put down
    /// on, and where it was last seen.
    pub active_touches: HashMap<i32, (Entity, P)>,
}

/// The handlers' state as plain values.
pub struct RunnerView<P> {
    pub keyboard: bool,
    pub pointer: bool,
    pub touch: bool,
    pub focus: Option<SurfaceId>,
    pub events: Seq<WindowEvent<P>>,
    pub touches: Map<i32, (Entity, P)>,
}

impl<P> View for SmithayRunnerState<P> {
    type V = RunnerView<P>;

    open spec fn view(&self) -> RunnerView<P> {
        RunnerView {
            keyboard: self.keyboard,
            pointer: self.pointer,
            touch: self.touch,
            focus: self.active_keyboard_surface,
            events: self.bevy_window_events@,
            touches: self.active_touches@,
        }
    }
}

impl<P> RunnerView<P> {
    /// The state before anything has happened.
    pub open spec fn initial() -> Self {
        RunnerView {
            keyboard: false,
            pointer: false,
            touch: false,
            focus: None,
            events: Seq::empty(),
            touches: Map::empty(),
        }
    }

    /// The state with one more event at the end of the buffer.
    pub open spec fn send(self, event: WindowEvent<P>) -> Self {
        RunnerView { events: self.events.push(event), ..self }
    }

    /// The state after the compositor changed the scale factor of `surface`:
    /// the surface's scene window is told, if there is one.
    pub open spec fn scale_factor_changed<L, S>(
        self,
        windows: WindowsView<L, S>,
        surface: SurfaceId,
        new_factor: i32,
    ) -> Self {
        match windows.lookup_entity(surface) {
            Some(window) => self.send(
                WindowEvent::WindowScaleFactorChanged { window, scale_factor: new_factor },
            ),
            None => self,
        }
    }

    /// The state after the compositor closed `surface`: the surface's scene
    /// window is asked to close, if there is one.
    pub open spec fn closed<L, S>(self, windows: WindowsView<L, S>, surface: SurfaceId) -> Self {
        match windows.lookup_entity(surface) {
            Some(window) => self.send(WindowEvent::WindowCloseRequested { window }),
            None => self,
        }
    }

    /// Whether the device is bound.
    pub open spec fn has_device(self, capability: Capability) -> bool {
        match capability {
            Capability::Keyboard => self.keyboard,
            Capability::Pointer => self.pointer,
            Capability::Touch => self.touch,
        }
    }

    /// The state with the device marked bound or unbound.
    pub open spec fn with_device(self, capability: Capability, bound: bool) -> Self {
        match capability {
            Capability::Keyboard => RunnerView { keyboard: bound, ..self },
            Capability::Pointer => RunnerView { pointer: bound, ..self },
            Capability::Touch => RunnerView { touch: bound, ..self },
        }
    }

    /// The state with an empty buffer.
    pub open spec fn flushed(self) -> Self {
        RunnerView { events: Seq::empty(), ..self }
    }
}

impl<P> RunnerView<P> {
    /// Handlers only ever append to the buffer. Whatever a handler does, the
    /// events that were buffered before it ran are still there afterwards,
    /// in the same order, in front of what the handler added. So the host
    /// sees the events of a dispatch in the order the handlers queued them.
    pub proof fn lemma_handlers_only_append<L, S>(
        self,
        windows: WindowsView<L, S>,
        surface: SurfaceId,
        new_factor: i32,
        keysym: u32,
        key_char: Option<char>,
        state: ButtonState,
        id: i32,
        position: P,
        order: Seq<i32>,
        capability: Capability,
        event: WindowEvent<P>,
    )
        ensures
            self.events.is_prefix_of(self.send(event).events),
            self.events.is_prefix_of(self.scale_factor_changed(windows, surface, new_factor).events),
            self.events.is_prefix_of(self.closed(windows, surface).events),
            self.events.is_prefix_of(self.enter(surface).events),
            self.events.is_prefix_of(self.leave(surface).events),
            self.events.is_prefix_of(self.key_input(windows, keysym, key_char, state).events),
            self.events.is_prefix_of(self.down(windows, surface, id, position).events),
            self.events.is_prefix_of(self.motion(id, position).events),
            self.events.is_prefix_of(self.up(id).events),
            self.events.is_prefix_of(self.cancel(order).events),
            self.events.is_prefix_of(self.with_device(capability, true).events),
            self.events.is_prefix_of(self.with_device(capability, false).events),
    {
    }
}

/// What a surface lookup means for the event that asked for it.
pub open spec fn outcome_for_surface<L, S>(
    windows: WindowsView<L, S>,
    surface: SurfaceId,
) -> EventOutcome {
    if windows.lookup_entity(surface) is Some {
        EventOutcome::Queued
    } else {
        EventOutcome::UnknownSurface
    }
}

impl<P> SmithayRunnerState<P> {
    /// The state at start-up: no device bound, no focus, nothing buffered,
    /// no touch point down.
    pub fn new() -> (r: Self)
        ensures
            r@ == RunnerView::<P>::initial(),
    {
        SmithayRunnerState {
            keyboard: false,
            pointer: false,
            touch: false,
            active_keyboard_surface: None,
            bevy_window_events: Vec::new(),
            active_touches: HashMap::new(),
        }
    }

    /// Appends an event to the buffer.
    pub fn send(&mut self, event: WindowEvent<P>)
        ensures
            final(self)@ == old(self)@.send(event),
    {
        self.bevy_window_events.push(event);
    }

    /// The compositor changed the scale factor of a surface.
    ///
    /// Queues a scale-factor event for the surface's scene window. A surface
    /// that belongs to no scene window is ignored: the compositor may still
    /// talk about a surface that is being torn down.
    pub fn scale_factor_changed<L, S>(
        &mut self,
        windows: &SmithayWindows<L, S>,
        surface: SurfaceId,
        new_factor: i32,
    ) -> (r: EventOutcome)
        ensures
            final(self)@ == old(self)@.scale_factor_changed(windows@, surface, new_factor),
            r == outcome_for_surface(windows@, surface),
    {
        match windows.lookup_entity(surface) {
            Some(window) => {
                self.send(WindowEvent::WindowScaleFactorChanged { window, scale_factor: new_factor });
                EventOutcome::Queued
            },
            None => EventOutcome::UnknownSurface,
        }
    }

    /// The compositor closed a layer surface.
    ///
    /// Queues a close request for the surface's scene window, so that the
    /// host can despawn it. A surface that belongs to no scene window is
    /// ignored.
    pub fn closed<L, S>(&mut self, windows: &SmithayWindows<L, S>, surface: SurfaceId) -> (r:
        EventOutcome)
        ensures
            final(self)@ == old(self)@.closed(windows@, surface),
            r == outcome_for_surface(windows@, surface),
    {
        match windows.lookup_entity(surface) {
            Some(window) => {
                self.send(WindowEvent::WindowCloseRequested { window });
                EventOutcome::Queued
            },
            None => EventOutcome::UnknownSurface,
        }
    }

    /// The seat gained a device.
    ///
    /// Returns whether the caller has to bind the device now: it has to
    /// exactly when the device was not bound before. Afterwards the device
    /// counts as bound, so a repeated announcement binds nothing.
    pub fn new_capability(&mut self, capability: Capability) -> (bind: bool)
        ensures
            bind == !old(self)@.has_device(capability),
            final(self)@ == old(self)@.with_device(capability, true),
    {
        match capability {
            Capability::Keyboard => {
                let bind = !self.keyboard;
                self.keyboard = true;
                bind
            },
            Capability::Pointer => {
                let bind = !self.pointer;
                self.pointer = true;
                bind
            },
            Capability::Touch => {
                let bind = !self.touch;
                self.touch = true;
                bind
            },
        }
    }

    /// The seat lost a device.
    ///
    /// Returns whether the caller has to release the device now: it has to
    /// exactly when the device was bound. Afterwards the device counts as
    /// unbound.
    pub fn remove_capability(&mut self, capability: Capability) -> (release: bool)
        ensures
            release == old(self)@.has_device(capability),
            final(self)@ == old(self)@.with_device(capability, false),
    {
        match capability {
            Capability::Keyboard => {
                let release = self.keyboard;
                self.keyboard = false;
                release
            },
            Capability::Pointer => {
                let release = self.pointer;
                self.pointer = false;
                release
            },
            Capability::Touch => {
                let release = self.touch;
                self.touch = false;
                release
            },
        }
    }

    /// Hands the buffered events to the host, once the host is ready.
    ///
    /// While the host has not finished starting up, nothing is handed over
    /// and nothing is lost: the buffer stays as it is and the host is not to
    /// be updated. Once it has, the whole buffer is returned, oldest event
    /// first, the buffer is empty afterwards, and the caller delivers the
    /// events and then updates the host once.
    pub fn run_app_update(&mut self, startup_complete: bool) -> (r: Option<Vec<WindowEvent<P>>>)
        ensures
            match r {
                Some(events) => startup_complete && events@ == old(self)@.events && final(self)@
                    == old(self)@.flushed(),
                None => !startup_complete && final(self)@ == old(self)@,
            },
    {
        if startup_complete {
            let mut events = Vec::new();
            std::mem::swap(&mut self.bevy_window_events, &mut events);
            Some(events)
        } else {
            None
        }
    }
}

} // verus!
