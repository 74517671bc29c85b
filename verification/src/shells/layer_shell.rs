//! Settings of a layer surface: where it is anchored, how large it is and on
//! which layer it lies.

use vstd::prelude::*;

use crate::SurfaceId;

verus! {

/// The screen edges a layer surface is anchored to.
#[derive(Clone, Copy, Debug, PartialEq, Eq)]
pub struct Anchor {
    pub top: bool,
    pub bottom: bool,
    pub left: bool,
    pub right: bool,
}

impl Anchor {
    /// The anchor that names no edge.
    pub open spec fn none() -> Anchor {
        Anchor { top: false, bottom: false, left: false, right: false }
    }

    /// An anchor to no edge at all.
    pub fn empty() -> (r: Anchor)
        ensures
            r == Anchor::none(),
    {
        Anchor { top: false, bottom: false, left: false, right: false }
    }

    /// Whether no edge is named.
    pub fn is_empty(&self) -> (r: bool)
        ensures
            r == (*self == Anchor::none()),
    {
        !self.top && !self.bottom && !self.left && !self.right
    }
}

/// How a layer surface takes part in keyboard focus.
#[derive(Clone, Copy, Debug, PartialEq, Eq)]
pub enum KeyboardInteractivity {
    /// The surface never receives keyboard input.
    Never,
    /// The surface receives all keyboard input.
    Exclusive,
    /// The surface receives keyboard input while it is focused.
    OnDemand,
}

/// The layer a surface is stacked on, lowest first.
#[derive(Clone, Copy, Debug, PartialEq, Eq)]
pub enum Layer {
    Background,
    Bottom,
    Top,
    Overlay,
}

/// How a layer surface is anchored, sized and layered.
#[derive(Clone, Copy, Debug, PartialEq, Eq)]
pub struct LayerShellSettings {
    /// The edges the surface is anchored to.
    pub anchor: Anchor,
    /// Width and height in physical pixels.
    pub size: (u32, u32),
    /// The space the surface reserves for itself; negative reserves none.
    pub exclusive_zone: i32,
    /// Margins in the order top, right, bottom, left.
    pub margin: (i32, i32, i32, i32),
    /// How the surface takes part in keyboard focus.
    pub keyboard_interactivity: KeyboardInteractivity,
    /// The layer the surface is stacked on.
    pub layer: Layer,
}

impl LayerShellSettings {
    /// The settings of a surface nobody configured, at a given size: no
    /// anchor, no reserved space, no margins, focus on demand, top layer.
    pub open spec fn unconfigured(size: (u32, u32)) -> LayerShellSettings {
        LayerShellSettings {
            anchor: Anchor::none(),
            size,
            exclusive_zone: 0,
            margin: (0, 0, 0, 0),
            keyboard_interactivity: KeyboardInteractivity::OnDemand,
            layer: Layer::Top,
        }
    }

    /// Default settings at the given size in physical pixels.
    pub fn with_size(size: (u32, u32)) -> (r: LayerShellSettings)
        ensures
            r == LayerShellSettings::unconfigured(size),
    {
        LayerShellSettings {
            anchor: Anchor::empty(),
            size,
            exclusive_zone: 0,
            margin: (0, 0, 0, 0),
            keyboard_interactivity: KeyboardInteractivity::OnDemand,
            layer: Layer::Top,
        }
    }
}

impl Default for LayerShellSettings {
    /// A 256 by 256 surface with no anchor, on the top layer.
    fn default() -> (r: LayerShellSettings)
        ensures
            r == LayerShellSettings::unconfigured((256, 256)),
    {
        LayerShellSettings::with_size((256, 256))
    }
}

/// What is pushed to an existing layer surface when its settings change.
/// The surface is committed afterwards.
#[derive(Clone, Copy, Debug, PartialEq, Eq)]
pub struct LayerSurfaceUpdate {
    /// The surface to configure.
    pub surface: SurfaceId,
    /// The space to reserve.
    pub exclusive_zone: i32,
    /// The new width and height.
    pub size: (u32, u32),
    /// The new margins: top, right, bottom, left.
    pub margin: (i32, i32, i32, i32),
}

impl LayerSurfaceUpdate {
    /// The update that brings `surface` to `settings`.
    pub open spec fn of(surface: SurfaceId, settings: LayerShellSettings) -> LayerSurfaceUpdate {
        LayerSurfaceUpdate {
            surface,
            exclusive_zone: settings.exclusive_zone,
            size: settings.size,
            margin: settings.margin,
        }
    }
}

} // verus!
