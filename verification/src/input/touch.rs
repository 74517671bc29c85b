//! Touch points: where each went down, where it was last seen, and the
//! events of its life.
//!
//! The protocol names a touch point by a small number that is free again
//! once the point is lifted. While a point is down this module remembers the
//! scene window it went down on and its last position, because the protocol
//! reports neither when the point is lifted or cancelled.

use vstd::prelude::*;
use vstd::std_specs::iter::IteratorSpec;

use crate::events::{TouchPhase, WindowEvent};
use crate::smithay_windows::{SmithayWindows, WindowsView};
use crate::state::{outcome_for_surface, EventOutcome, RunnerView, SmithayRunnerState};
use crate::{Entity, SurfaceId};

verus! {

broadcast use vstd::std_specs::hash::group_hash_axioms;

/// The identifier a touch point has in the host's events: the protocol's
/// number, sign-extended to 64 bits.
pub open spec fn touch_id_of(id: i32) -> u64 {
    if id >= 0 {
        id as u64
    } else {
        (id + 0x1_0000_0000_0000_0000) as u64
    }
}

/// The identifier a touch point has in the host's events.
pub fn touch_event_id(id: i32) -> (r: u64)
    ensures
        r == touch_id_of(id),
{
    if id >= 0 {
        id as u64
    } else {
        u64::MAX - ((-(id + 1)) as u64)
    }
}

impl<P> RunnerView<P> {
    /// The event of the given phase for a touch point that is down, at the
    /// position it was last seen at.
    pub open spec fn touch_event(self, id: i32, phase: TouchPhase) -> WindowEvent<P> {
        WindowEvent::TouchInput {
            window: self.touches[id].0,
            id: touch_id_of(id),
            phase,
            position: self.touches[id].1,
        }
    }

    /// The state with the touch point `id` down on `window` at `position`.
    pub open spec fn with_touch(self, id: i32, window: Entity, position: P) -> Self {
        RunnerView { touches: self.touches.insert(id, (window, position)), ..self }
    }

    /// The state after a touch point went down on `surface`: the point is
    /// remembered and its start is queued. Unchanged where the surface belongs
    /// to no scene window.
    pub open spec fn down<L, S>(
        self,
        windows: WindowsView<L, S>,
        surface: SurfaceId,
        id: i32,
        position: P,
    ) -> Self {
        match windows.lookup_entity(surface) {
            Some(window) => {
                let touched = self.with_touch(id, window, position);
                touched.send(touched.touch_event(id, TouchPhase::Started))
            },
            None => self,
        }
    }

    /// The state after a touch point moved: its position is replaced and
    /// the move is queued. Unchanged where the point is not down.
    pub open spec fn motion(self, id: i32, position: P) -> Self {
        if self.touches.contains_key(id) {
            let touched = self.with_touch(id, self.touches[id].0, position);
            touched.send(touched.touch_event(id, TouchPhase::Moved))
        } else {
            self
        }
    }

    /// The state after a touch point was lifted: it is forgotten and its end
    /// is queued, at the position it was last seen at. Unchanged where the
    /// point is not down.
    pub open spec fn up(self, id: i32) -> Self {
        if self.touches.contains_key(id) {
            RunnerView {
                touches: self.touches.remove(id),
                events: self.events.push(self.touch_event(id, TouchPhase::Ended)),
                ..self
            }
        } else {
            self
        }
    }

    /// What becomes of a move or a lift of the touch point `id`.
    pub open spec fn touch_outcome(self, id: i32) -> EventOutcome {
        if self.touches.contains_key(id) {
            EventOutcome::Queued
        } else {
            EventOutcome::UnknownTouch
        }
    }

    /// Whether `order` lists every touch point that is down exactly once.
    pub open spec fn lists_touches(self, order: Seq<i32>) -> bool {
        order.no_duplicates() && order.to_set() == self.touches.dom()
    }

    /// The cancellations of the touch points in `order`, each at the
    /// position the point was last seen at.
    pub open spec fn cancel_events(self, order: Seq<i32>) -> Seq<WindowEvent<P>> {
        Seq::new(order.len(), |i: int| self.touch_event(order[i], TouchPhase::Canceled))
    }

    /// The state after every touch point was cancelled, in the given order:
    /// no point is down and the cancellations are queued.
    pub open spec fn cancel(self, order: Seq<i32>) -> Self {
        RunnerView {
            touches: Map::empty(),
            events: self.events + self.cancel_events(order),
            ..self
        }
    }
}

impl<P> RunnerView<P> {
    /// A touch point ends where it was last seen: after any move, the lift
    /// reports the position of that move, on the scene window the point went
    /// down on, and the point is no longer down.
    pub proof fn lemma_touch_ends_where_last_seen(self, id: i32, position: P)
        requires
            self.touches.contains_key(id),
        ensures
            self.motion(id, position).up(id).events == self.events.push(
                (WindowEvent::TouchInput {
                    window: self.touches[id].0,
                    id: touch_id_of(id),
                    phase: TouchPhase::Moved,
                    position,
                }),
            ).push(
                (WindowEvent::TouchInput {
                    window: self.touches[id].0,
                    id: touch_id_of(id),
                    phase: TouchPhase::Ended,
                    position,
                }),
            ),
            !self.motion(id, position).up(id).touches.contains_key(id),
    {
    }

    /// A cancellation reports every touch point that is down exactly once,
    /// at the position it was last seen at, and leaves no point down.
    pub proof fn lemma_cancel_reports_each_touch_once(self, order: Seq<i32>, id: i32)
        requires
            self.lists_touches(order),
            self.touches.contains_key(id),
        ensures
            self.cancel(order).touches.dom() =~= Set::<i32>::empty(),
            self.cancel_events(order).len() == self.touches.dom().len(),
            exists|i: int|
                0 <= i < order.len() && #[trigger] self.cancel_events(order)[i]
                    == self.touch_event(id, TouchPhase::Canceled) && forall|j: int|
                    0 <= j < order.len() && j != i ==> self.cancel_events(order)[j]
                        != self.touch_event(id, TouchPhase::Canceled),
    {
        order.unique_seq_to_set();
        assert(order.to_set().contains(id));
        let i = choose|i: int| 0 <= i < order.len() && order[i] == id;
        assert(self.cancel_events(order)[i] == self.touch_event(id, TouchPhase::Canceled));
        assert forall|j: int| 0 <= j < order.len() && j != i implies self.cancel_events(order)[j]
            != self.touch_event(id, TouchPhase::Canceled) by {
            assert(order[j] != order[i]);
            lemma_touch_id_injective(order[j], id);
        }
    }
}

/// Different touch points have different identifiers in the host's events.
pub proof fn lemma_touch_id_injective(a: i32, b: i32)
    ensures
        touch_id_of(a) == touch_id_of(b) ==> a == b,
{
}

impl<P: Copy> SmithayRunnerState<P> {
    /// The scene window a touch point went down on, while it is down.
    pub fn touch_window(&self, id: i32) -> (r: Option<Entity>)
        ensures
            r == if self@.touches.contains_key(id) {
                Some(self@.touches[id].0)
            } else {
                None
            },
    {
        match self.active_touches.get(&id) {
            Some(touch) => Some(touch.0),
            None => None,
        }
    }

    /// A touch point went down on a surface, at the logical `position`.
    ///
    /// Remembers the point under its number, with the surface's scene window
    /// and the position, and queues the start of the touch. A point on a
    /// surface that belongs to no scene window is ignored.
    pub fn down<L, S>(
        &mut self,
        windows: &SmithayWindows<L, S>,
        surface: SurfaceId,
        id: i32,
        position: P,
    ) -> (r: EventOutcome)
        ensures
            final(self)@ == old(self)@.down(windows@, surface, id, position),
            r == outcome_for_surface(windows@, surface),
    {
        match windows.lookup_entity(surface) {
            None => EventOutcome::UnknownSurface,
            Some(window) => {
                self.active_touches.insert(id, (window, position));
                self.bevy_window_events.push(
                    WindowEvent::TouchInput {
                        window,
                        id: touch_event_id(id),
                        phase: TouchPhase::Started,
                        position,
                    },
                );
                EventOutcome::Queued
            },
        }
    }

    /// A touch point moved to the logical `position`.
    ///
    /// Replaces the remembered position and queues the move, for the scene
    /// window the point went down on. A point that is not down is ignored.
    pub fn motion(&mut self, id: i32, position: P) -> (r: EventOutcome)
        ensures
            final(self)@ == old(self)@.motion(id, position),
            r == old(self)@.touch_outcome(id),
    {
        match self.touch_window(id) {
            None => EventOutcome::UnknownTouch,
            Some(window) => {
                self.active_touches.insert(id, (window, position));
                self.bevy_window_events.push(
                    WindowEvent::TouchInput {
                        window,
                        id: touch_event_id(id),
                        phase: TouchPhase::Moved,
                        position,
                    },
                );
                EventOutcome::Queued
            },
        }
    }

    /// A touch point was lifted.
    ///
    /// Forgets the point and queues the end of the touch at the position the
    /// point was last seen at: the protocol sends none with a lift. A point
    /// that is not down is ignored.
    pub fn up(&mut self, id: i32) -> (r: EventOutcome)
        ensures
            final(self)@ == old(self)@.up(id),
            r == old(self)@.touch_outcome(id),
    {
        match self.active_touches.remove(&id) {
            None => {
                assert(self@.touches =~= old(self)@.touches);
                EventOutcome::UnknownTouch
            },
            Some((window, position)) => {
                self.bevy_window_events.push(
                    WindowEvent::TouchInput {
                        window,
                        id: touch_event_id(id),
                        phase: TouchPhase::Ended,
                        position,
                    },
                );
                EventOutcome::Queued
            },
        }
    }

    /// The compositor cancelled the touch sequence.
    ///
    /// Every touch point that is down is forgotten, and for each one
    /// cancellation is queued, at the position the point was last seen at.
    /// The points are taken in no particular order; the order taken is
    /// returned.
    pub fn cancel(&mut self) -> (order: Vec<i32>)
        ensures
            old(self)@.lists_touches(order@),
            final(self)@ == old(self)@.cancel(order@),
    {
        let mut order: Vec<i32> = Vec::new();
        for id in keys: self.active_touches.keys()
            invariant
                order@.len() == keys.index(),
                forall|j: int| 0 <= j < order@.len() ==> order@[j] == *keys.seq()[j],
        {
            order.push(*id);
        }
        proof {
            assert(order@ =~= self.active_touches.keys().remaining().unref());
        }
        let mut done: usize = 0;
        while done < order.len()
            invariant
                done <= order.len(),
                old(self)@.lists_touches(order@),
                self.keyboard == old(self).keyboard,
                self.pointer == old(self).pointer,
                self.touch == old(self).touch,
                self.active_keyboard_surface == old(self).active_keyboard_surface,
                self@.events == old(self)@.events + old(self)@.cancel_events(
                    order@.take(done as int),
                ),
                forall|id: i32|
                    self@.touches.contains_key(id) <==> exists|j: int|
                        done <= j < order@.len() && order@[j] == id,
                forall|id: i32| #[trigger]
                    self@.touches.contains_key(id) ==> self@.touches[id] == old(self)@.touches[id],
            decreases order.len() - done,
        {
            let id = order[done];
            let ghost before = self@;
            assert(before.touches.contains_key(id));
            match self.active_touches.remove(&id) {
                Some((window, position)) => {
                    self.bevy_window_events.push(
                        WindowEvent::TouchInput {
                            window,
                            id: touch_event_id(id),
                            phase: TouchPhase::Canceled,
                            position,
                        },
                    );
                },
                None => {},
            }
            proof {
                let taken = order@.take(done as int);
                let next = order@.take(done as int + 1);
                assert(next =~= taken.push(id));
                assert(old(self)@.cancel_events(next) =~= old(self)@.cancel_events(taken).push(
                    old(self)@.touch_event(id, TouchPhase::Canceled),
                ));
                assert forall|other: i32|
                    self@.touches.contains_key(other) <==> exists|j: int|
                        done + 1 <= j < order@.len() && order@[j] == other by {
                    if self@.touches.contains_key(other) {
                        assert(before.touches.contains_key(other));
                        let j = choose|j: int| done <= j < order@.len() && order@[j] == other;
                        assert(j != done);
                    }
                    if exists|j: int| done + 1 <= j < order@.len() && order@[j] == other {
                        let j = choose|j: int| done + 1 <= j < order@.len() && order@[j] == other;
                        assert(order@[j] != order@[done as int]);
                        assert(before.touches.contains_key(other));
                    }
                }
            }
            done = done + 1;
        }
        proof {
            assert(order@.take(done as int) =~= order@);
            assert(self@.touches =~= Map::<i32, (Entity, P)>::empty());
        }
        order
    }
}

} // verus!
