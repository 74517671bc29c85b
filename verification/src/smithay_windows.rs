//! The registry that ties scene windows to native surfaces.
//!
//! Every registered scene window has exactly one surface, every registered
//! surface exactly one scene window, and every registered surface has its
//! native window stored here. The three tables change together or not at all.

use std::collections::HashMap;

use bevy::ecs::entity::EntityHashMap;
use vstd::prelude::*;

use crate::entity_map::{
    entity_map_contents, entity_map_get, entity_map_insert, entity_map_new, entity_map_remove,
    is_entity_bits, valid_entity_bits,
};
use crate::events::LifecycleEvent;
use crate::shells::layer_shell::{LayerShellSettings, LayerSurfaceUpdate};
use crate::{Entity, SurfaceId};

verus! {

broadcast use vstd::std_specs::hash::group_hash_axioms;

/// What kind of native surface backs a scene window.
#[derive(Clone, Copy, Debug, PartialEq, Eq, Structural)]
pub enum SurfaceKind {
    /// A top-level surface anchored to screen edges.
    LayerSurface,
    /// A surface placed relative to a parent. It cannot be a parent itself.
    ChildSurface,
}

/// A native window, tagged with its kind.
///
/// `L` is the handle of a layer-shell window and `S` that of a subsurface.
/// The registry owns the handles and hands them back on removal; it never
/// looks inside them.
#[derive(Debug, PartialEq)]
pub enum SmithayWindow<L, S> {
    LayerShellWindow(L),
    SubSurface(S),
}

impl<L, S> SmithayWindow<L, S> {
    /// The kind of surface this window is.
    pub open spec fn kind(&self) -> SurfaceKind {
        match self {
            SmithayWindow::LayerShellWindow(_) => SurfaceKind::LayerSurface,
            SmithayWindow::SubSurface(_) => SurfaceKind::ChildSurface,
        }
    }

    /// The window itself.
    pub fn get(&self) -> (r: &SmithayWindow<L, S>)
        ensures
            r == self,
    {
        self
    }

    /// The kind of surface this window is.
    pub fn surface_kind(&self) -> (r: SurfaceKind)
        ensures
            r == self.kind(),
    {
        match self {
            SmithayWindow::LayerShellWindow(_) => SurfaceKind::LayerSurface,
            SmithayWindow::SubSurface(_) => SurfaceKind::ChildSurface,
        }
    }
}

/// Why the registry turned a request down.
#[derive(Clone, Copy, Debug, PartialEq, Eq, Structural)]
pub enum WindowError {
    /// The number given for the scene window is not that of any entity.
    InvalidEntity,
    /// The scene window already has a surface.
    EntityAlreadyRegistered,
    /// The surface already belongs to a scene window.
    SurfaceAlreadyRegistered,
    /// The scene window has no surface.
    EntityNotRegistered,
    /// The scene window named as parent has no surface.
    ParentNotRegistered,
    /// The scene window named as parent is backed by a child surface.
    ParentIsSubsurface,
    /// The scene window is backed by a child surface, which has no layer
    /// settings.
    NotALayerSurface,
}

/// The registry as three finite maps.
pub struct WindowsView<L, S> {
    /// The surface of each registered scene window.
    pub surfaces: Map<Entity, SurfaceId>,
    /// The scene window of each registered surface.
    pub entities: Map<SurfaceId, Entity>,
    /// The native window of each registered surface.
    pub windows: Map<SurfaceId, SmithayWindow<L, S>>,
}

/// One change to the registry.
pub enum RegistryOp<L, S> {
    /// Register `window` as the surface `surface` of `entity`.
    Create { entity: Entity, surface: SurfaceId, window: SmithayWindow<L, S> },
    /// Forget whatever is registered for `entity`.
    Remove { entity: Entity },
}

impl<L, S> WindowsView<L, S> {
    /// The registry with nothing in it.
    pub open spec fn empty() -> Self {
        WindowsView { surfaces: Map::empty(), entities: Map::empty(), windows: Map::empty() }
    }

    /// The two identity maps are inverse to each other, the stored windows
    /// are those of the registered surfaces, and every registered scene
    /// window is an entity.
    pub open spec fn wf(self) -> bool {
        &&& forall|e: Entity| #[trigger]
            self.surfaces.contains_key(e) ==> is_entity_bits(e) && self.entities.contains_key(
                self.surfaces[e],
            ) && self.entities[self.surfaces[e]] == e
        &&& forall|s: SurfaceId| #[trigger]
            self.entities.contains_key(s) ==> self.surfaces.contains_key(self.entities[s])
                && self.surfaces[self.entities[s]] == s
        &&& forall|s: SurfaceId|
            self.windows.contains_key(s) <==> #[trigger] self.entities.contains_key(s)
    }

    /// Whether no scene window is registered.
    pub open spec fn is_empty(self) -> bool {
        forall|e: Entity| !self.surfaces.contains_key(e)
    }

    /// The surface of a scene window, if it has one.
    pub open spec fn lookup_surface(self, entity: Entity) -> Option<SurfaceId> {
        if self.surfaces.contains_key(entity) {
            Some(self.surfaces[entity])
        } else {
            None
        }
    }

    /// The scene window of a surface, if it belongs to one.
    pub open spec fn lookup_entity(self, surface: SurfaceId) -> Option<Entity> {
        if self.entities.contains_key(surface) {
            Some(self.entities[surface])
        } else {
            None
        }
    }

    /// The native window of a surface, if it is registered.
    pub open spec fn lookup_window(self, surface: SurfaceId) -> Option<SmithayWindow<L, S>> {
        if self.windows.contains_key(surface) {
            Some(self.windows[surface])
        } else {
            None
        }
    }

    /// Why `entity` cannot be registered with `surface`, if it cannot.
    pub open spec fn create_error(self, entity: Entity, surface: SurfaceId) -> Option<
        WindowError,
    > {
        if !is_entity_bits(entity) {
            Some(WindowError::InvalidEntity)
        } else if self.surfaces.contains_key(entity) {
            Some(WindowError::EntityAlreadyRegistered)
        } else if self.entities.contains_key(surface) {
            Some(WindowError::SurfaceAlreadyRegistered)
        } else {
            None
        }
    }

    /// The registry with `entity` registered as `surface`, backed by `window`.
    pub open spec fn create(
        self,
        entity: Entity,
        surface: SurfaceId,
        window: SmithayWindow<L, S>,
    ) -> Self {
        WindowsView {
            surfaces: self.surfaces.insert(entity, surface),
            entities: self.entities.insert(surface, entity),
            windows: self.windows.insert(surface, window),
        }
    }

    /// The surface and native window that leave when `entity` is removed.
    pub open spec fn removed(self, entity: Entity) -> Option<(SurfaceId, SmithayWindow<L, S>)> {
        if self.surfaces.contains_key(entity) {
            Some((self.surfaces[entity], self.windows[self.surfaces[entity]]))
        } else {
            None
        }
    }

    /// The registry without `entity`: its surface and native window are gone
    /// too. Unchanged where `entity` was not registered.
    pub open spec fn remove(self, entity: Entity) -> Self {
        if self.surfaces.contains_key(entity) {
            WindowsView {
                surfaces: self.surfaces.remove(entity),
                entities: self.entities.remove(self.surfaces[entity]),
                windows: self.windows.remove(self.surfaces[entity]),
            }
        } else {
            self
        }
    }

    /// The surface a new child of `parent` is attached to: the parent's own,
    /// provided the parent is registered and is a layer surface.
    pub open spec fn subsurface_parent(self, parent: Entity) -> Result<SurfaceId, WindowError> {
        if !self.surfaces.contains_key(parent) {
            Err(WindowError::ParentNotRegistered)
        } else if self.windows[self.surfaces[parent]].kind() == SurfaceKind::ChildSurface {
            Err(WindowError::ParentIsSubsurface)
        } else {
            Ok(self.surfaces[parent])
        }
    }

    /// Why the subsurface `surface` of `parent` cannot be registered for
    /// `entity`, if it cannot: the parent's fault comes first, the faults of
    /// any registration after it.
    pub open spec fn subsurface_error(
        self,
        entity: Entity,
        parent: Entity,
        surface: SurfaceId,
    ) -> Option<WindowError> {
        match self.subsurface_parent(parent) {
            Err(error) => Some(error),
            Ok(_) => self.create_error(entity, surface),
        }
    }

    /// The registry after the subsurface `window` of `parent` was offered
    /// for `entity`: registered where nothing speaks against it, unchanged
    /// otherwise.
    pub open spec fn create_subsurface(
        self,
        entity: Entity,
        parent: Entity,
        surface: SurfaceId,
        window: S,
    ) -> Self {
        if self.subsurface_error(entity, parent, surface) is None {
            self.create(entity, surface, SmithayWindow::SubSurface(window))
        } else {
            self
        }
    }

    /// What has to be pushed to the surface of `entity` to bring it to
    /// `settings`.
    pub open spec fn settings_update(self, entity: Entity, settings: LayerShellSettings) -> Result<
        LayerSurfaceUpdate,
        WindowError,
    > {
        if !self.surfaces.contains_key(entity) {
            Err(WindowError::EntityNotRegistered)
        } else if self.windows[self.surfaces[entity]].kind() == SurfaceKind::ChildSurface {
            Err(WindowError::NotALayerSurface)
        } else {
            Ok(LayerSurfaceUpdate::of(self.surfaces[entity], settings))
        }
    }

    /// The registry after one change. A registration that cannot be made
    /// changes nothing.
    pub open spec fn apply(self, op: RegistryOp<L, S>) -> Self {
        match op {
            RegistryOp::Create { entity, surface, window } => {
                if self.create_error(entity, surface) is None {
                    self.create(entity, surface, window)
                } else {
                    self
                }
            },
            RegistryOp::Remove { entity } => self.remove(entity),
        }
    }

    /// The registry after a sequence of changes, first to last.
    pub open spec fn apply_all(self, ops: Seq<RegistryOp<L, S>>) -> Self
        decreases ops.len(),
    {
        if ops.len() == 0 {
            self
        } else {
            self.apply_all(ops.drop_last()).apply(ops.last())
        }
    }

    /// Registering a new pair keeps the registry well formed.
    pub proof fn lemma_create_keeps_wf(
        self,
        entity: Entity,
        surface: SurfaceId,
        window: SmithayWindow<L, S>,
    )
        requires
            self.wf(),
            self.create_error(entity, surface) is None,
        ensures
            self.create(entity, surface, window).wf(),
    {
        let after = self.create(entity, surface, window);
        assert forall|e: Entity| #[trigger] after.surfaces.contains_key(e) implies (is_entity_bits(e)
            && after.entities.contains_key(after.surfaces[e]) && after.entities[after.surfaces[e]]
            == e) by {
            if e != entity {
                assert(self.surfaces.contains_key(e));
            }
        }
        assert forall|s: SurfaceId| #[trigger] after.entities.contains_key(s) implies (
        after.surfaces.contains_key(after.entities[s]) && after.surfaces[after.entities[s]] == s) by {
            if s != surface {
                assert(self.entities.contains_key(s));
            }
        }
        assert forall|s: SurfaceId|
            after.windows.contains_key(s) <==> #[trigger] after.entities.contains_key(s) by {
            if s != surface {
                assert(self.windows.contains_key(s) <==> self.entities.contains_key(s));
            }
        }
    }

    /// Removing a scene window keeps the registry well formed.
    pub proof fn lemma_remove_keeps_wf(self, entity: Entity)
        requires
            self.wf(),
        ensures
            self.remove(entity).wf(),
    {
        if self.surfaces.contains_key(entity) {
            let surface = self.surfaces[entity];
            let after = self.remove(entity);
            assert forall|e: Entity| #[trigger] after.surfaces.contains_key(e) implies (
            is_entity_bits(e) && after.entities.contains_key(after.surfaces[e])
                && after.entities[after.surfaces[e]] == e) by {
                assert(self.surfaces.contains_key(e));
            }
            assert forall|s: SurfaceId| #[trigger] after.entities.contains_key(s) implies (
            after.surfaces.contains_key(after.entities[s]) && after.surfaces[after.entities[s]]
                == s) by {
                assert(self.entities.contains_key(s));
            }
            assert forall|s: SurfaceId|
                after.windows.contains_key(s) <==> #[trigger] after.entities.contains_key(s) by {
                assert(self.windows.contains_key(s) <==> self.entities.contains_key(s));
            }
        }
    }

    /// The two lookups are inverse to each other: a scene window's surface
    /// leads back to that scene window, and a surface's scene window leads
    /// back to that surface.
    pub proof fn lemma_lookups_are_inverse(self, entity: Entity, surface: SurfaceId)
        requires
            self.wf(),
        ensures
            self.lookup_surface(entity) == Some(surface) <==> self.lookup_entity(surface) == Some(
                entity,
            ),
            self.lookup_surface(entity) == Some(surface) ==> self.lookup_window(surface) is Some,
    {
        if self.lookup_surface(entity) == Some(surface) {
            assert(self.surfaces.contains_key(entity));
        }
        if self.lookup_entity(surface) == Some(entity) {
            assert(self.entities.contains_key(surface));
        }
    }

    /// Whatever sequence of registrations and removals is applied to an empty
    /// registry, the lookups stay inverse to each other: at every point, a
    /// scene window has the surface `s` exactly when `s` belongs to that
    /// scene window, and then the native window of `s` is stored.
    pub proof fn lemma_registry_stays_bijective(ops: Seq<RegistryOp<L, S>>)
        ensures
            ({
                let now = Self::empty().apply_all(ops);
                &&& now.wf()
                &&& forall|e: Entity, s: SurfaceId|
                    #![trigger now.lookup_surface(e), now.lookup_entity(s)]
                    now.lookup_surface(e) == Some(s) <==> now.lookup_entity(s) == Some(e)
                &&& forall|e: Entity, s: SurfaceId|
                    #![trigger now.lookup_surface(e), now.lookup_window(s)]
                    now.lookup_surface(e) == Some(s) ==> now.lookup_window(s) is Some
            }),
        decreases ops.len(),
    {
        if ops.len() > 0 {
            Self::lemma_registry_stays_bijective(ops.drop_last());
            let before = Self::empty().apply_all(ops.drop_last());
            match ops.last() {
                RegistryOp::Create { entity, surface, window } => {
                    if before.create_error(entity, surface) is None {
                        before.lemma_create_keeps_wf(entity, surface, window);
                    }
                },
                RegistryOp::Remove { entity } => {
                    before.lemma_remove_keeps_wf(entity);
                },
            }
        }
        let now = Self::empty().apply_all(ops);
        assert forall|e: Entity, s: SurfaceId|
            #![trigger now.lookup_surface(e), now.lookup_entity(s)]
            now.lookup_surface(e) == Some(s) <==> now.lookup_entity(s) == Some(e) by {
            now.lemma_lookups_are_inverse(e, s);
        }
        assert forall|e: Entity, s: SurfaceId|
            #![trigger now.lookup_surface(e), now.lookup_window(s)]
            now.lookup_surface(e) == Some(s) implies now.lookup_window(s) is Some by {
            now.lemma_lookups_are_inverse(e, s);
        }
    }
}

/// The native windows of the scene windows, with the scene window and the
/// surface of each.
///
/// A registry is well formed at all times. No method asks for that, and
/// every method says so in its `ensures`.
pub struct SmithayWindows<L, S> {
    windows: HashMap<SurfaceId, SmithayWindow<L, S>>,
    entity_to_smithay: EntityHashMap<SurfaceId>,
    smithay_to_entity: HashMap<SurfaceId, Entity>,
}

impl<L, S> View for SmithayWindows<L, S> {
    type V = WindowsView<L, S>;

    closed spec fn view(&self) -> WindowsView<L, S> {
        WindowsView {
            surfaces: entity_map_contents(self.entity_to_smithay),
            entities: self.smithay_to_entity@,
            windows: self.windows@,
        }
    }
}

impl<L, S> SmithayWindows<L, S> {
    /// What holds of every registry at all times: its view is well formed.
    #[verifier::type_invariant]
    spec fn well_formed(self) -> bool {
        self@.wf()
    }

    /// An empty registry.
    pub fn new() -> (r: Self)
        ensures
            r@ == WindowsView::<L, S>::empty(),
            r@.wf(),
    {
        SmithayWindows {
            windows: HashMap::new(),
            entity_to_smithay: entity_map_new(),
            smithay_to_entity: HashMap::new(),
        }
    }

    /// The number of registered surfaces.
    pub fn len(&self) -> (r: usize)
        ensures
            r == self@.windows.len(),
            self@.wf(),
    {
        proof {
            use_type_invariant(&*self);
        }
        self.windows.len()
    }

    /// Whether no scene window is registered.
    pub fn is_empty(&self) -> (r: bool)
        ensures
            r == self@.is_empty(),
            self@.wf(),
    {
        proof {
            use_type_invariant(&*self);
            let stored = self@.windows.dom();
            assert(stored.finite());
            if stored.len() == 0 {
                assert forall|e: Entity| !self@.surfaces.contains_key(e) by {
                    if self@.surfaces.contains_key(e) {
                        assert(self@.entities.contains_key(self@.surfaces[e]));
                        assert(stored.contains(self@.surfaces[e]));
                        vstd::set_lib::lemma_set_empty_equivalency_len(stored);
                    }
                }
            } else {
                let s = stored.choose();
                assert(self@.entities.contains_key(s));
                assert(self@.surfaces.contains_key(self@.entities[s]));
            }
        }
        self.windows.len() == 0
    }

    /// The surface of a scene window, if it has one.
    pub fn lookup_surface(&self, entity: Entity) -> (r: Option<SurfaceId>)
        ensures
            r == self@.lookup_surface(entity),
            r matches Some(surface) ==> self@.lookup_entity(surface) == Some(entity),
            self@.wf(),
    {
        proof {
            use_type_invariant(&*self);
        }
        if !valid_entity_bits(entity) {
            return None;
        }
        entity_map_get(&self.entity_to_smithay, entity)
    }

    /// The scene window of a surface, if it belongs to one.
    pub fn lookup_entity(&self, surface: SurfaceId) -> (r: Option<Entity>)
        ensures
            r == self@.lookup_entity(surface),
            r matches Some(entity) ==> self@.lookup_surface(entity) == Some(surface)
                && is_entity_bits(entity),
            self@.wf(),
    {
        proof {
            use_type_invariant(&*self);
        }
        match self.smithay_to_entity.get(&surface) {
            Some(entity) => {
                assert(self@.entities.contains_key(surface));
                assert(self@.surfaces.contains_key(*entity));
                Some(*entity)
            },
            None => None,
        }
    }

    /// The native window stored for a surface, if it is registered.
    pub fn window(&self, surface: SurfaceId) -> (r: Option<&SmithayWindow<L, S>>)
        ensures
            match r {
                Some(window) => self@.lookup_window(surface) == Some(*window),
                None => self@.lookup_window(surface) is None,
            },
            self@.wf(),
    {
        proof {
            use_type_invariant(&*self);
        }
        self.windows.get(&surface)
    }

    /// The surface a new child of `parent` has to be attached to.
    ///
    /// Fails with `ParentNotRegistered` exactly when `parent` has no surface,
    /// and with `ParentIsSubsurface` exactly when its surface is itself a
    /// child: children do not nest.
    pub fn subsurface_parent(&self, parent: Entity) -> (r: Result<SurfaceId, WindowError>)
        ensures
            r == self@.subsurface_parent(parent),
            self@.wf(),
    {
        proof {
            use_type_invariant(&*self);
        }
        match self.lookup_surface(parent) {
            None => Err(WindowError::ParentNotRegistered),
            Some(surface) => {
                assert(self@.surfaces.contains_key(parent));
                match self.windows.get(&surface) {
                    Some(SmithayWindow::LayerShellWindow(_)) => Ok(surface),
                    Some(SmithayWindow::SubSurface(_)) => Err(WindowError::ParentIsSubsurface),
                    None => Err(WindowError::ParentNotRegistered),
                }
            },
        }
    }

    /// Why `entity` cannot be registered with `surface`, if it cannot.
    fn registration_error(&self, entity: Entity, surface: SurfaceId) -> (r: Option<WindowError>)
        ensures
            r == self@.create_error(entity, surface),
    {
        if !valid_entity_bits(entity) {
            Some(WindowError::InvalidEntity)
        } else if entity_map_get(&self.entity_to_smithay, entity).is_some() {
            Some(WindowError::EntityAlreadyRegistered)
        } else if self.smithay_to_entity.contains_key(&surface) {
            Some(WindowError::SurfaceAlreadyRegistered)
        } else {
            None
        }
    }

    /// Enters `window` as the surface `surface` of `entity` into all three
    /// tables.
    fn register(&mut self, entity: Entity, surface: SurfaceId, window: SmithayWindow<L, S>)
        requires
            old(self)@.create_error(entity, surface) is None,
        ensures
            final(self)@ == old(self)@.create(entity, surface, window),
            final(self)@.wf(),
    {
        proof {
            use_type_invariant(&*self);
            old(self)@.lemma_create_keeps_wf(entity, surface, window);
        }
        // The three tables are taken out, changed, and put back together, so
        // that the registry is never seen with only some of them changed.
        let mut taken = SmithayWindows::new();
        std::mem::swap(self, &mut taken);
        let SmithayWindows { mut windows, mut entity_to_smithay, mut smithay_to_entity } = taken;
        entity_map_insert(&mut entity_to_smithay, entity, surface);
        smithay_to_entity.insert(surface, entity);
        windows.insert(surface, window);
        *self = SmithayWindows { windows, entity_to_smithay, smithay_to_entity };
    }

    /// Registers the layer-shell window `window`, freshly created as
    /// `surface`, for `entity`.
    ///
    /// All three tables gain their entry together, and the creation of the
    /// window is to be announced with the event that is returned. The
    /// request is turned down, the registry left as it was and the window
    /// handed back, exactly when `entity` is not the number of an entity,
    /// when it already has a surface, or when `surface` already belongs to a
    /// scene window.
    pub fn create_window(&mut self, entity: Entity, surface: SurfaceId, window: L) -> (r: Result<
        LifecycleEvent,
        (WindowError, L),
    >)
        ensures
            old(self)@.wf(),
            final(self)@.wf(),
            final(self)@ == old(self)@.apply(
                (RegistryOp::Create {
                    entity,
                    surface,
                    window: SmithayWindow::LayerShellWindow(window),
                }),
            ),
            match r {
                Ok(created) => old(self)@.create_error(entity, surface) is None && created == (
                LifecycleEvent::WindowCreated { window: entity }),
                Err((error, unused)) => old(self)@.create_error(entity, surface) == Some(error)
                    && unused == window,
            },
    {
        proof {
            use_type_invariant(&*self);
        }
        match self.registration_error(entity, surface) {
            Some(error) => Err((error, window)),
            None => {
                self.register(entity, surface, SmithayWindow::LayerShellWindow(window));
                Ok(LifecycleEvent::WindowCreated { window: entity })
            },
        }
    }

    /// Registers the subsurface `window`, freshly created as `surface` on
    /// the surface of `parent`, for `entity`.
    ///
    /// The parent is checked first: the request fails with the parent's
    /// error exactly when `parent` has no surface or is backed by a
    /// subsurface itself. After that it is turned down on the same grounds
    /// as a layer-shell window is. Whenever it fails, the registry is left
    /// as it was and the window is handed back. Otherwise all three tables
    /// gain their entry together, and the creation of the window is to be
    /// announced with the event that is returned.
    pub fn create_subsurface(
        &mut self,
        entity: Entity,
        parent: Entity,
        surface: SurfaceId,
        window: S,
    ) -> (r: Result<LifecycleEvent, (WindowError, S)>)
        ensures
            old(self)@.wf(),
            final(self)@.wf(),
            final(self)@ == old(self)@.create_subsurface(entity, parent, surface, window),
            match r {
                Ok(created) => old(self)@.subsurface_error(entity, parent, surface) is None
                    && created == (LifecycleEvent::WindowCreated { window: entity }),
                Err((error, unused)) => old(self)@.subsurface_error(entity, parent, surface)
                    == Some(error) && unused == window,
            },
    {
        proof {
            use_type_invariant(&*self);
        }
        if let Err(error) = self.subsurface_parent(parent) {
            return Err((error, window));
        }
        match self.registration_error(entity, surface) {
            Some(error) => Err((error, window)),
            None => {
                self.register(entity, surface, SmithayWindow::SubSurface(window));
                Ok(LifecycleEvent::WindowCreated { window: entity })
            },
        }
    }

    /// What has to be pushed to the surface of `entity` so that it shows
    /// `settings`: its size, margins and exclusive zone.
    ///
    /// Nothing is pushed, and the reason is reported, exactly when `entity`
    /// has no surface or its surface is a child surface.
    pub fn apply_settings(&self, entity: Entity, settings: &LayerShellSettings) -> (r: Result<
        LayerSurfaceUpdate,
        WindowError,
    >)
        ensures
            r == self@.settings_update(entity, *settings),
            self@.wf(),
    {
        proof {
            use_type_invariant(&*self);
        }
        match self.lookup_surface(entity) {
            None => Err(WindowError::EntityNotRegistered),
            Some(surface) => {
                assert(self@.surfaces.contains_key(entity));
                match self.windows.get(&surface) {
                    Some(SmithayWindow::LayerShellWindow(_)) => Ok(
                        LayerSurfaceUpdate {
                            surface,
                            exclusive_zone: settings.exclusive_zone,
                            size: settings.size,
                            margin: settings.margin,
                        },
                    ),
                    Some(SmithayWindow::SubSurface(_)) => Err(WindowError::NotALayerSurface),
                    None => Err(WindowError::EntityNotRegistered),
                }
            },
        }
    }

    /// Forgets `entity` and hands back its surface and native window, for
    /// the caller to dispose of later.
    ///
    /// Both identity entries and the stored window leave together. Removing
    /// a scene window that is not registered changes nothing and returns
    /// `None`, so removing twice is harmless.
    pub fn remove(&mut self, entity: Entity) -> (r: Option<(SurfaceId, SmithayWindow<L, S>)>)
        ensures
            old(self)@.wf(),
            final(self)@.wf(),
            final(self)@ == old(self)@.apply((RegistryOp::Remove { entity })),
            r == old(self)@.removed(entity),
            final(self)@.lookup_surface(entity) is None,
    {
        proof {
            use_type_invariant(&*self);
            old(self)@.lemma_remove_keeps_wf(entity);
        }
        if self.lookup_surface(entity).is_none() {
            return None;
        }
        let mut taken = SmithayWindows::new();
        std::mem::swap(self, &mut taken);
        let SmithayWindows { mut windows, mut entity_to_smithay, mut smithay_to_entity } = taken;
        let removed = match entity_map_remove(&mut entity_to_smithay, entity) {
            None => None,
            Some(surface) => {
                assert(old(self)@.entities.contains_key(surface));
                smithay_to_entity.remove(&surface);
                match windows.remove(&surface) {
                    Some(window) => Some((surface, window)),
                    None => None,
                }
            },
        };
        proof {
            let after = old(self)@.remove(entity);
            assert(entity_map_contents(entity_to_smithay) =~= after.surfaces);
            assert(smithay_to_entity@ =~= after.entities);
            assert(windows@ =~= after.windows);
        }
        *self = SmithayWindows { windows, entity_to_smithay, smithay_to_entity };
        removed
    }
}

impl<L, S> Default for SmithayWindows<L, S> {
    /// An empty registry.
    fn default() -> (r: Self)
        ensures
            r@ == WindowsView::<L, S>::empty(),
            r@.wf(),
    {
        SmithayWindows::new()
    }
}

} // verus!
