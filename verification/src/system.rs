//! Reconciliation: what is done once per tick to bring the native surfaces
//! in line with the scene windows.
//!
//! Three passes run in this order. Creation gives every new scene window a
//! surface. Settings are pushed to the surfaces of windows that changed.
//! Destruction takes the surfaces of despawned windows out of the registry.
//!
//! A native window that leaves the registry is not disposed of at once. It
//! is kept pending until the next tick, because the dispatch that is under
//! way may still refer to it.

use vstd::prelude::*;

use crate::entity_map::{is_entity_bits, valid_entity_bits};
use crate::events::LifecycleEvent;
use crate::shells::layer_shell::{LayerShellSettings, LayerSurfaceUpdate};
use crate::smithay_windows::{
    RegistryOp, SmithayWindow, SmithayWindows, WindowError, WindowsView,
};
use crate::{Entity, SmithayWindowType, SurfaceId};

verus! {

/// What creation has to do for one scene window.
#[derive(Clone, Copy, Debug, PartialEq, Eq)]
pub enum WindowPlan {
    /// The window has its surface already.
    Skip,
    /// Create a layer surface with these settings, and attach the settings
    /// to the window. `primary` says whether to mark the window as the
    /// primary one.
    Layer { settings: LayerShellSettings, primary: bool },
    /// Create a subsurface of `parent_surface`, the surface of the scene
    /// window `parent`, at `position` relative to it. A subsurface is never
    /// the primary window: its parent was there before it.
    Child { parent: Entity, parent_surface: SurfaceId, position: (i32, i32) },
}

/// What creation has to do for the scene window `entity`.
///
/// A window that is registered is skipped. Otherwise the window gets what it
/// asks for, or, where it asks for nothing, a layer surface with default
/// settings at its physical size. A layer surface is to be marked as the
/// primary window exactly when it is the first window to be registered and
/// the scene has no primary window yet.
pub open spec fn window_plan<L, S>(
    windows: WindowsView<L, S>,
    entity: Entity,
    requested: Option<SmithayWindowType>,
    physical_size: (u32, u32),
    primary_exists: bool,
) -> Result<WindowPlan, WindowError> {
    if windows.surfaces.contains_key(entity) {
        Ok(WindowPlan::Skip)
    } else if !is_entity_bits(entity) {
        Err(WindowError::InvalidEntity)
    } else {
        let primary = windows.is_empty() && !primary_exists;
        match requested {
            None => Ok(
                WindowPlan::Layer {
                    settings: LayerShellSettings::unconfigured(physical_size),
                    primary,
                },
            ),
            Some(SmithayWindowType::LayerShell { settings }) => Ok(
                WindowPlan::Layer { settings, primary },
            ),
            Some(SmithayWindowType::SubSurface { parent, position }) => match windows.subsurface_parent(
                parent,
            ) {
                Ok(parent_surface) => Ok(WindowPlan::Child { parent, parent_surface, position }),
                Err(error) => Err(error),
            },
        }
    }
}

/// Decides what creation has to do for one scene window that the host
/// reported as new.
///
/// `primary_exists` says whether any scene window is marked as the primary
/// one at present. The caller creates the surface the plan asks for and
/// registers it with `create_window` or `create_subsurface`. A window that
/// is registered already is skipped, so a window reported twice gets one
/// surface. The plan fails exactly when `entity` is not the number of an
/// entity, or when the window asks for a subsurface and the parent it names
/// has no surface or is a subsurface itself.
pub fn plan_window<L, S>(
    windows: &SmithayWindows<L, S>,
    entity: Entity,
    requested: Option<&SmithayWindowType>,
    physical_size: (u32, u32),
    primary_exists: bool,
) -> (r: Result<WindowPlan, WindowError>)
    ensures
        r == window_plan(
            windows@,
            entity,
            match requested {
                Some(requested) => Some(*requested),
                None => None,
            },
            physical_size,
            primary_exists,
        ),
{
    if windows.lookup_surface(entity).is_some() {
        return Ok(WindowPlan::Skip);
    }
    if !valid_entity_bits(entity) {
        return Err(WindowError::InvalidEntity);
    }
    let primary = windows.is_empty() && !primary_exists;
    match requested {
        None => Ok(
            WindowPlan::Layer { settings: LayerShellSettings::with_size(physical_size), primary },
        ),
        Some(SmithayWindowType::LayerShell { settings }) => Ok(
            WindowPlan::Layer { settings: *settings, primary },
        ),
        Some(SmithayWindowType::SubSurface { parent, position }) => {
            match windows.subsurface_parent(*parent) {
                Ok(parent_surface) => Ok(
                    WindowPlan::Child { parent: *parent, parent_surface, position: *position },
                ),
                Err(error) => Err(error),
            }
        },
    }
}

/// Creation is idempotent. A window that is registered is skipped by the
/// plan, whatever it asks for and whether or not a primary window exists.
/// And once a window has been registered, a second registration under any
/// surface, as a layer-shell window or as a subsurface of any parent, is
/// turned down and leaves the registry as it was, so that the window's
/// creation is announced once.
pub proof fn lemma_creation_is_idempotent<L, S>(
    windows: WindowsView<L, S>,
    entity: Entity,
    surface: SurfaceId,
    window: SmithayWindow<L, S>,
    requested: Option<SmithayWindowType>,
    physical_size: (u32, u32),
    primary_exists: bool,
    second_surface: SurfaceId,
    second_window: SmithayWindow<L, S>,
    second_parent: Entity,
    second_subsurface: S,
)
    requires
        windows.wf(),
        windows.create_error(entity, surface) is None,
    ensures
        ({
            let created = windows.apply(RegistryOp::Create { entity, surface, window });
            &&& created.lookup_surface(entity) == Some(surface)
            &&& window_plan(created, entity, requested, physical_size, primary_exists) == Ok::<
                WindowPlan,
                WindowError,
            >(WindowPlan::Skip)
            &&& created.create_error(entity, second_surface) == Some(
                WindowError::EntityAlreadyRegistered,
            )
            &&& created.apply(
                RegistryOp::Create { entity, surface: second_surface, window: second_window },
            ) == created
            &&& created.subsurface_error(entity, second_parent, second_surface) is Some
            &&& created.create_subsurface(entity, second_parent, second_surface, second_subsurface)
                == created
        }),
{
}

/// The primary window is the first one, and only where there is none yet.
/// A plan marks its window as primary exactly when no window is registered
/// and the scene has no primary window. So while the scene has a primary
/// window no plan marks another, and once any window is registered no plan
/// marks a later one. A subsurface is only ever planned, and a window only
/// ever skipped, when some window is registered; and on an empty registry
/// every entity that does not ask for a subsurface gets its plan.
pub proof fn lemma_one_primary_window<L, S>(
    windows: WindowsView<L, S>,
    entity: Entity,
    requested: Option<SmithayWindowType>,
    physical_size: (u32, u32),
    primary_exists: bool,
)
    ensures
        match window_plan(windows, entity, requested, physical_size, primary_exists) {
            Ok(WindowPlan::Layer { primary, .. }) => primary == (windows.is_empty()
                && !primary_exists),
            Ok(WindowPlan::Child { .. }) => !windows.is_empty(),
            Ok(WindowPlan::Skip) => !windows.is_empty(),
            Err(_) => true,
        },
        windows.is_empty() && is_entity_bits(entity) && !(requested is Some
            && requested->0 is SubSurface) ==> window_plan(
            windows,
            entity,
            requested,
            physical_size,
            primary_exists,
        ) is Ok,
{
    if windows.surfaces.contains_key(entity) {
        assert(!windows.is_empty());
    }
    if requested is Some && requested->0 is SubSurface {
        let parent = requested->0->parent;
        if windows.subsurface_parent(parent) is Ok {
            assert(windows.surfaces.contains_key(parent));
        }
    }
}

/// A scene window whose settings or size changed, with its settings.
#[derive(Clone, Copy, Debug, PartialEq, Eq)]
pub struct ChangedWindow {
    pub window: Entity,
    pub settings: LayerShellSettings,
}

/// Decides what to push to the native surfaces of the windows that changed
/// since the last tick.
///
/// The result has one entry per changed window, in the same order: the
/// update to push to its surface, or the reason why there is none.
pub fn changed_windows<L, S>(windows: &SmithayWindows<L, S>, changed: &Vec<ChangedWindow>) -> (r:
    Vec<Result<LayerSurfaceUpdate, WindowError>>)
    ensures
        r@.len() == changed@.len(),
        forall|i: int|
            0 <= i < changed@.len() ==> #[trigger] r@[i] == windows@.settings_update(
                changed@[i].window,
                changed@[i].settings,
            ),
{
    let mut updates: Vec<Result<LayerSurfaceUpdate, WindowError>> = Vec::new();
    let mut seen: usize = 0;
    while seen < changed.len()
        invariant
            seen <= changed.len(),
            updates@.len() == seen,
            forall|i: int|
                0 <= i < seen ==> #[trigger] updates@[i] == windows@.settings_update(
                    changed@[i].window,
                    changed@[i].settings,
                ),
        decreases changed.len() - seen,
    {
        let update = windows.apply_settings(changed[seen].window, &changed[seen].settings);
        updates.push(update);
        seen = seen + 1;
    }
    updates
}

/// A native window that left the registry, with the surface it was.
pub type Disposable<L, S> = (SurfaceId, SmithayWindow<L, S>);

/// The native windows that left the registry during the last tick and are
/// not disposed of yet, in the order they left.
pub struct PendingDisposal<L, S> {
    handles: Vec<Disposable<L, S>>,
}

impl<L, S> View for PendingDisposal<L, S> {
    type V = Seq<Disposable<L, S>>;

    closed spec fn view(&self) -> Seq<Disposable<L, S>> {
        self.handles@
    }
}

impl<L, S> PendingDisposal<L, S> {
    /// Nothing pending.
    pub fn new() -> (r: Self)
        ensures
            r@ == Seq::<Disposable<L, S>>::empty(),
    {
        PendingDisposal { handles: Vec::new() }
    }

    /// The number of native windows that wait for disposal.
    pub fn len(&self) -> (r: usize)
        ensures
            r == self@.len(),
    {
        self.handles.len()
    }

    /// Whether no native window waits for disposal.
    pub fn is_empty(&self) -> (r: bool)
        ensures
            r == (self@.len() == 0),
    {
        self.handles.len() == 0
    }

    /// Takes out everything that is pending, for the caller to dispose of.
    /// Nothing is pending afterwards.
    pub fn drain(&mut self) -> (r: Vec<Disposable<L, S>>)
        ensures
            r@ == old(self)@,
            final(self)@ == Seq::<Disposable<L, S>>::empty(),
    {
        let mut handles = Vec::new();
        std::mem::swap(&mut self.handles, &mut handles);
        handles
    }
}

impl<L, S> Default for PendingDisposal<L, S> {
    /// Nothing pending.
    fn default() -> (r: Self)
        ensures
            r@ == Seq::<Disposable<L, S>>::empty(),
    {
        PendingDisposal::new()
    }
}

/// The destruction pass as it goes: the registry, what has been handed out
/// for disposal, what has become pending, and what has been announced.
pub struct DespawnView<L, S> {
    pub windows: WindowsView<L, S>,
    pub dropped: Seq<Disposable<L, S>>,
    pub pending: Seq<Disposable<L, S>>,
    pub events: Seq<LifecycleEvent>,
}

impl<L, S> DespawnView<L, S> {
    /// The pass at its start: what was pending is handed out for disposal,
    /// nothing is pending and nothing is announced.
    pub open spec fn start(windows: WindowsView<L, S>, pending: Seq<Disposable<L, S>>) -> Self {
        DespawnView { windows, dropped: pending, pending: Seq::empty(), events: Seq::empty() }
    }

    /// Every window of `windows` is told that it is closing, in order.
    pub open spec fn closing(self, windows: Seq<Entity>) -> Self {
        DespawnView {
            events: self.events + Seq::new(
                windows.len(),
                |i: int| LifecycleEvent::WindowClosing { window: windows[i] },
            ),
            ..self
        }
    }

    /// Whether removing `window` takes anything out: the window must be
    /// gone from the scene, and must still be registered.
    pub open spec fn despawns(self, window: Entity, open: Seq<Entity>) -> bool {
        !open.contains(window) && self.windows.surfaces.contains_key(window)
    }

    /// One removed window is dealt with. Where it is gone from the scene and
    /// still registered, it leaves the registry, its native window becomes
    /// pending and the host is told that it closed. Otherwise nothing
    /// changes.
    pub open spec fn despawn(self, window: Entity, open: Seq<Entity>) -> Self {
        if self.despawns(window, open) {
            DespawnView {
                windows: self.windows.remove(window),
                pending: self.pending.push(self.windows.removed(window)->0),
                events: self.events.push(LifecycleEvent::WindowClosed { window }),
                ..self
            }
        } else {
            self
        }
    }

    /// The removed windows are dealt with one after another.
    pub open spec fn despawn_all(self, closed: Seq<Entity>, open: Seq<Entity>) -> Self
        decreases closed.len(),
    {
        if closed.len() == 0 {
            self
        } else {
            self.despawn_all(closed.drop_last(), open).despawn(closed.last(), open)
        }
    }

    /// The whole pass: windows marked as closing are told so, removed
    /// windows are dealt with, and where the process is about to exit every
    /// window that is still open is told that it is closing.
    pub open spec fn despawn_windows(
        self,
        closing: Seq<Entity>,
        closed: Seq<Entity>,
        open: Seq<Entity>,
        exit_requested: bool,
    ) -> Self {
        let despawned = self.closing(closing).despawn_all(closed, open);
        if exit_requested {
            despawned.closing(open)
        } else {
            despawned
        }
    }

    /// Dealing with removed windows hands nothing out for disposal, keeps
    /// the registry well formed, and only adds to what is pending and to
    /// what is announced.
    pub proof fn lemma_despawn_all_defers(self, closed: Seq<Entity>, open: Seq<Entity>)
        requires
            self.windows.wf(),
        ensures
            self.despawn_all(closed, open).windows.wf(),
            self.despawn_all(closed, open).dropped == self.dropped,
            self.pending.is_prefix_of(self.despawn_all(closed, open).pending),
            self.events.is_prefix_of(self.despawn_all(closed, open).events),
        decreases closed.len(),
    {
        if closed.len() > 0 {
            self.lemma_despawn_all_defers(closed.drop_last(), open);
            let before = self.despawn_all(closed.drop_last(), open);
            before.windows.lemma_remove_keeps_wf(closed.last());
        }
    }

    /// Take a window among the removed ones that is gone from the scene and
    /// registered beforehand. Afterwards it has left the registry, its
    /// native window is pending, and the host has been told that it closed.
    pub proof fn lemma_despawn_all_takes(
        self,
        closed: Seq<Entity>,
        open: Seq<Entity>,
        window: Entity,
    )
        requires
            self.windows.wf(),
            closed.contains(window),
            self.despawns(window, open),
        ensures
            !self.despawn_all(closed, open).windows.surfaces.contains_key(window),
            self.despawn_all(closed, open).pending.contains(self.windows.removed(window)->0),
            self.despawn_all(closed, open).events.contains(
                (LifecycleEvent::WindowClosed { window }),
            ),
        decreases closed.len(),
    {
        let earlier = closed.drop_last();
        let before = self.despawn_all(earlier, open);
        let after = self.despawn_all(closed, open);
        let handle = self.windows.removed(window)->0;
        let notice = LifecycleEvent::WindowClosed { window };
        self.lemma_despawn_all_defers(earlier, open);
        if earlier.contains(window) {
            self.lemma_despawn_all_takes(earlier, open, window);
            let i = choose|i: int| 0 <= i < before.pending.len() && before.pending[i] == handle;
            let j = choose|j: int| 0 <= j < before.events.len() && before.events[j] == notice;
            if closed.last() != window {
                before.lemma_despawn_keeps_others(closed.last(), open, window);
            }
            assert(after.pending[i] == handle);
            assert(after.events[j] == notice);
        } else {
            let i = choose|i: int| 0 <= i < closed.len() && closed[i] == window;
            if i < earlier.len() {
                assert(earlier[i] == window);
            }
            assert(closed.last() == window);
            self.lemma_despawn_all_skips(earlier, open, window);
            self.lemma_despawn_all_keeps_others(earlier, open, window);
            assert(before.despawns(window, open));
            assert(after.pending.last() == handle);
            assert(after.events.last() == notice);
        }
    }

    /// Dealing with one removed window leaves every other window as it was.
    proof fn lemma_despawn_keeps_others(self, window: Entity, open: Seq<Entity>, other: Entity)
        requires
            self.windows.wf(),
            other != window,
        ensures
            self.despawn(window, open).windows.surfaces.contains_key(other)
                == self.windows.surfaces.contains_key(other),
            self.despawn(window, open).windows.removed(other) == self.windows.removed(other),
    {
        if self.despawns(window, open) && self.windows.surfaces.contains_key(other) {
            assert(self.windows.entities.contains_key(self.windows.surfaces[other]));
            assert(self.windows.entities.contains_key(self.windows.surfaces[window]));
        }
    }

    /// While a window stays registered, the native window it would hand
    /// back stays the same.
    proof fn lemma_despawn_all_keeps_others(
        self,
        closed: Seq<Entity>,
        open: Seq<Entity>,
        window: Entity,
    )
        requires
            self.windows.wf(),
        ensures
            self.despawn_all(closed, open).windows.surfaces.contains_key(window) ==> {
                &&& self.windows.surfaces.contains_key(window)
                &&& self.despawn_all(closed, open).windows.removed(window)
                    == self.windows.removed(window)
            },
        decreases closed.len(),
    {
        if closed.len() > 0 {
            let before = self.despawn_all(closed.drop_last(), open);
            self.lemma_despawn_all_defers(closed.drop_last(), open);
            self.lemma_despawn_all_keeps_others(closed.drop_last(), open, window);
            if closed.last() != window {
                before.lemma_despawn_keeps_others(closed.last(), open, window);
            }
        }
    }

    /// A window that is not among the removed ones stays registered if it
    /// was.
    proof fn lemma_despawn_all_skips(self, closed: Seq<Entity>, open: Seq<Entity>, window: Entity)
        requires
            self.windows.wf(),
            !closed.contains(window),
        ensures
            self.despawn_all(closed, open).windows.surfaces.contains_key(window)
                == self.windows.surfaces.contains_key(window),
        decreases closed.len(),
    {
        if closed.len() > 0 {
            let earlier = closed.drop_last();
            let before = self.despawn_all(earlier, open);
            self.lemma_despawn_all_defers(earlier, open);
            assert forall|i: int| 0 <= i < earlier.len() implies earlier[i] != window by {
                assert(closed[i] == earlier[i]);
            }
            self.lemma_despawn_all_skips(earlier, open, window);
            assert(closed[closed.len() - 1] != window);
            before.lemma_despawn_keeps_others(closed.last(), open, window);
        }
    }
}

/// Disposal lags one tick behind removal.
///
/// Take a window that is gone from the scene and still registered when a
/// destruction pass deals with it. That pass hands out for disposal exactly
/// what was pending before it, whatever it removes; the window's native
/// window is pending after it. The following pass hands out exactly what the
/// first left pending, the native window among it, and if it removes nothing
/// itself, nothing is pending after it.
pub proof fn lemma_disposal_waits_one_tick<L, S>(
    windows: WindowsView<L, S>,
    pending: Seq<Disposable<L, S>>,
    window: Entity,
    closing: Seq<Entity>,
    closed: Seq<Entity>,
    open: Seq<Entity>,
    exit_requested: bool,
    next_closing: Seq<Entity>,
    next_closed: Seq<Entity>,
    next_open: Seq<Entity>,
    next_exit_requested: bool,
)
    requires
        windows.wf(),
        closed.contains(window),
        !open.contains(window),
        windows.surfaces.contains_key(window),
    ensures
        ({
            let handle = windows.removed(window)->0;
            let first = DespawnView::start(windows, pending).despawn_windows(
                closing,
                closed,
                open,
                exit_requested,
            );
            let second = DespawnView::start(first.windows, first.pending).despawn_windows(
                next_closing,
                next_closed,
                next_open,
                next_exit_requested,
            );
            &&& first.dropped == pending
            &&& first.pending.contains(handle)
            &&& first.windows.lookup_surface(window) is None
            &&& second.dropped == first.pending
            &&& second.dropped.contains(handle)
            &&& next_closed.len() == 0 ==> second.pending.len() == 0
        }),
{
    let begun = DespawnView::start(windows, pending).closing(closing);
    begun.lemma_despawn_all_defers(closed, open);
    begun.lemma_despawn_all_takes(closed, open, window);
    let first = DespawnView::start(windows, pending).despawn_windows(
        closing,
        closed,
        open,
        exit_requested,
    );
    assert(first.pending == begun.despawn_all(closed, open).pending);
    assert(first.windows == begun.despawn_all(closed, open).windows);
    let next_begun = DespawnView::start(first.windows, first.pending).closing(next_closing);
    next_begun.lemma_despawn_all_defers(next_closed, next_open);
}

/// What the destruction pass hands to its caller.
pub struct Despawned<L, S> {
    /// The native windows that left the registry a tick ago. They are safe
    /// to dispose of now.
    pub dropped: Vec<Disposable<L, S>>,
    /// What to announce to the host, in order.
    pub events: Vec<LifecycleEvent>,
}

/// Whether `window` is among `windows`.
fn contains_window(windows: &Vec<Entity>, window: Entity) -> (r: bool)
    ensures
        r == windows@.contains(window),
{
    let mut seen: usize = 0;
    while seen < windows.len()
        invariant
            seen <= windows.len(),
            forall|i: int| 0 <= i < seen ==> windows@[i] != window,
        decreases windows.len() - seen,
    {
        if windows[seen] == window {
            return true;
        }
        seen = seen + 1;
    }
    false
}

/// Appends a closing notice for each of `windows` to `events`.
fn announce_closing(events: &mut Vec<LifecycleEvent>, windows: &Vec<Entity>)
    ensures
        final(events)@ == old(events)@ + Seq::new(
            windows@.len(),
            |i: int| LifecycleEvent::WindowClosing { window: windows@[i] },
        ),
{
    let mut seen: usize = 0;
    while seen < windows.len()
        invariant
            seen <= windows.len(),
            events@ == old(events)@ + Seq::new(
                seen as nat,
                |i: int| LifecycleEvent::WindowClosing { window: windows@[i] },
            ),
        decreases windows.len() - seen,
    {
        events.push(LifecycleEvent::WindowClosing { window: windows[seen] });
        seen = seen + 1;
    }
}

/// The destruction pass of one tick.
///
/// `closing` are the windows the host marked as closing, `closed` the
/// windows it reported as removed since the last tick, and `window_entities`
/// all windows that exist now.
///
/// First, what became pending during the previous tick is taken out and
/// handed back for disposal. Then every removed window that is really gone
/// and still registered leaves the registry; its native window becomes
/// pending, to be handed back by the next call, and the host is told that
/// it closed. A window that was reported as removed but exists again is left
/// alone. If the process is about to exit, all windows that exist are told
/// that they are closing.
pub fn despawn_windows<L, S>(
    windows: &mut SmithayWindows<L, S>,
    windows_to_drop: &mut PendingDisposal<L, S>,
    closing: &Vec<Entity>,
    closed: &Vec<Entity>,
    window_entities: &Vec<Entity>,
    exit_requested: bool,
) -> (r: Despawned<L, S>)
    ensures
        r.dropped@ == old(windows_to_drop)@,
        (DespawnView {
            windows: final(windows)@,
            dropped: r.dropped@,
            pending: final(windows_to_drop)@,
            events: r.events@,
        }) == DespawnView::start(old(windows)@, old(windows_to_drop)@).despawn_windows(
            closing@,
            closed@,
            window_entities@,
            exit_requested,
        ),
{
    let dropped = windows_to_drop.drain();
    let mut events: Vec<LifecycleEvent> = Vec::new();
    announce_closing(&mut events, closing);
    let ghost begun = DespawnView::start(old(windows)@, old(windows_to_drop)@).closing(closing@);
    assert(events@ =~= begun.events);
    let mut seen: usize = 0;
    while seen < closed.len()
        invariant
            seen <= closed.len(),
            begun == DespawnView::start(old(windows)@, old(windows_to_drop)@).closing(closing@),
            dropped@ == old(windows_to_drop)@,
            (DespawnView {
                windows: windows@,
                dropped: dropped@,
                pending: windows_to_drop@,
                events: events@,
            }) == begun.despawn_all(closed@.take(seen as int), window_entities@),
        decreases closed.len() - seen,
    {
        let window = closed[seen];
        proof {
            let next = closed@.take(seen as int + 1);
            assert(next.drop_last() =~= closed@.take(seen as int));
            assert(next.last() == window);
        }
        if !contains_window(window_entities, window) {
            match windows.remove(window) {
                Some(handle) => {
                    windows_to_drop.handles.push(handle);
                    events.push(LifecycleEvent::WindowClosed { window });
                },
                None => {},
            }
        }
        seen = seen + 1;
    }
    proof {
        assert(closed@.take(seen as int) =~= closed@);
    }
    if exit_requested {
        announce_closing(&mut events, window_entities);
    }
    Despawned { dropped, events }
}

} // verus!
