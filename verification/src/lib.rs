//! Bridge between a scene graph's windows and Wayland surfaces.
//!
//! A host application keeps its windows as scene entities; a Wayland
//! compositor knows surfaces. This crate holds the bookkeeping that keeps the
//! two in step: the entity/surface registry, the per-tick reconciliation
//! decisions, and the mapping of seat input to window events.
//!
//! Entities and surfaces appear here by their numeric identity only. Native
//! handles and cursor or touch positions are carried through as type
//! parameters, so the crate never looks inside them.

pub mod entity_map;
pub mod events;
pub mod input;
pub mod shells;
pub mod smithay_windows;
pub mod state;
pub mod system;

use vstd::prelude::*;

use crate::shells::layer_shell::LayerShellSettings;

verus! {

/// A scene window: the bits of the host's entity identifier.
pub type Entity = u64;

/// A native surface: the protocol id the display connection issued for it.
pub type SurfaceId = u32;

/// The kind of native surface a scene window asks for, with what that kind
/// needs to be created.
#[derive(Clone, Copy, Debug, PartialEq, Eq)]
pub enum SmithayWindowType {
    /// A layer surface with the given settings.
    LayerShell { settings: LayerShellSettings },
    /// A subsurface of the surface of `parent`, placed at `position`
    /// relative to it.
    SubSurface { parent: Entity, position: (i32, i32) },
}

impl Default for SmithayWindowType {
    /// A layer surface with default settings.
    fn default() -> (r: SmithayWindowType)
        ensures
            r == (SmithayWindowType::LayerShell {
                settings: LayerShellSettings::unconfigured((256, 256)),
            }),
    {
        SmithayWindowType::LayerShell { settings: LayerShellSettings::with_size((256, 256)) }
    }
}

} // verus!
