use bevy::prelude::Entity;
use bevy_smithay::entity_map::valid_entity_bits;
use bevy_smithay::events::LifecycleEvent;
use bevy_smithay::shells::layer_shell::{
    Anchor, KeyboardInteractivity, Layer, LayerShellSettings, LayerSurfaceUpdate,
};
use bevy_smithay::smithay_windows::{SmithayWindow, SmithayWindows, SurfaceKind, WindowError};
use bevy_smithay::SmithayWindowType;

type Windows = SmithayWindows<String, String>;

fn entity(index: u32) -> u64 {
    Entity::from_raw(index).to_bits()
}

fn name(name: &str) -> String {
    name.to_string()
}

fn layer(name: &str) -> SmithayWindow<String, String> {
    SmithayWindow::LayerShellWindow(name.to_string())
}

fn child(name: &str) -> SmithayWindow<String, String> {
    SmithayWindow::SubSurface(name.to_string())
}

#[test]
fn new_registry_is_empty() {
    let windows = Windows::new();
    assert!(windows.is_empty());
    assert_eq!(windows.len(), 0);
    assert_eq!(windows.lookup_surface(entity(1)), None);
    assert_eq!(windows.lookup_entity(1), None);
    assert_eq!(windows.window(1), None);
    let windows = Windows::default();
    assert!(windows.is_empty());
}

#[test]
fn create_registers_all_three_entries() {
    let mut windows = Windows::new();
    assert_eq!(
        windows.create_window(entity(7), 70, name("panel")),
        Ok(LifecycleEvent::WindowCreated { window: entity(7) })
    );
    assert!(!windows.is_empty());
    assert_eq!(windows.len(), 1);
    assert_eq!(windows.lookup_surface(entity(7)), Some(70));
    assert_eq!(windows.lookup_entity(70), Some(entity(7)));
    assert_eq!(windows.window(70), Some(&layer("panel")));
    assert_eq!(windows.window(70).map(|w| w.surface_kind()), Some(SurfaceKind::LayerSurface));
    assert_eq!(windows.window(70).map(|w| w.get()), Some(&layer("panel")));
}

#[test]
fn lookups_are_inverse_for_every_live_pair() {
    let mut windows = Windows::new();
    let pairs: [(u64, u32); 4] =
        [(entity(1), 40), (entity(2), 30), (entity(3), 20), (entity(u32::MAX), u32::MAX)];
    for (window, surface) in pairs.iter() {
        windows.create_window(*window, *surface, name("w")).unwrap();
    }
    windows.remove(entity(2));
    for (window, surface) in pairs.iter() {
        if *window == entity(2) {
            assert_eq!(windows.lookup_surface(*window), None);
            assert_eq!(windows.lookup_entity(*surface), None);
            assert_eq!(windows.window(*surface), None);
        } else {
            let found = windows.lookup_surface(*window).unwrap();
            assert_eq!(found, *surface);
            assert_eq!(windows.lookup_entity(found), Some(*window));
            let owner = windows.lookup_entity(*surface).unwrap();
            assert_eq!(windows.lookup_surface(owner), Some(*surface));
            assert!(windows.window(*surface).is_some());
        }
    }
    assert_eq!(windows.len(), 3);
}

#[test]
fn second_registration_of_an_entity_is_turned_down() {
    let mut windows = Windows::new();
    windows.create_window(entity(7), 70, name("first")).unwrap();
    assert_eq!(
        windows.create_window(entity(7), 71, name("second")),
        Err((WindowError::EntityAlreadyRegistered, name("second")))
    );
    assert_eq!(windows.len(), 1);
    assert_eq!(windows.lookup_surface(entity(7)), Some(70));
    assert_eq!(windows.lookup_entity(71), None);
    assert_eq!(windows.window(70), Some(&layer("first")));
    assert_eq!(windows.window(71), None);
}

#[test]
fn second_registration_of_a_surface_is_turned_down() {
    let mut windows = Windows::new();
    windows.create_window(entity(7), 70, name("first")).unwrap();
    assert_eq!(
        windows.create_window(entity(8), 70, name("second")),
        Err((WindowError::SurfaceAlreadyRegistered, name("second")))
    );
    assert_eq!(
        windows.create_subsurface(entity(8), entity(7), 70, name("third")),
        Err((WindowError::SurfaceAlreadyRegistered, name("third")))
    );
    assert_eq!(windows.len(), 1);
    assert_eq!(windows.lookup_surface(entity(8)), None);
    assert_eq!(windows.lookup_entity(70), Some(entity(7)));
    assert_eq!(windows.window(70), Some(&layer("first")));
}

#[test]
fn remove_returns_the_window_and_is_idempotent() {
    let mut windows = Windows::new();
    windows.create_window(entity(7), 70, name("panel")).unwrap();
    windows.create_subsurface(entity(8), entity(7), 80, name("popup")).unwrap();
    assert_eq!(windows.remove(entity(7)), Some((70, layer("panel"))));
    assert_eq!(windows.lookup_surface(entity(7)), None);
    assert_eq!(windows.lookup_entity(70), None);
    assert_eq!(windows.window(70), None);
    assert_eq!(windows.remove(entity(7)), None);
    assert_eq!(windows.len(), 1);
    assert_eq!(windows.lookup_surface(entity(8)), Some(80));
    assert_eq!(windows.remove(entity(9)), None);
    assert_eq!(windows.remove(entity(8)), Some((80, child("popup"))));
    assert!(windows.is_empty());
}

#[test]
fn removed_entity_and_surface_can_be_registered_again() {
    let mut windows = Windows::new();
    windows.create_window(entity(7), 70, name("old")).unwrap();
    windows.remove(entity(7));
    assert_eq!(
        windows.create_window(entity(7), 70, name("new")),
        Ok(LifecycleEvent::WindowCreated { window: entity(7) })
    );
    assert_eq!(windows.window(70), Some(&layer("new")));
}

#[test]
fn subsurface_parent_must_be_a_registered_layer_surface() {
    let mut windows = Windows::new();
    assert_eq!(windows.subsurface_parent(entity(1)), Err(WindowError::ParentNotRegistered));
    windows.create_window(entity(1), 10, name("parent")).unwrap();
    assert_eq!(windows.subsurface_parent(entity(1)), Ok(10));
    windows.create_subsurface(entity(2), entity(1), 20, name("child")).unwrap();
    assert_eq!(windows.window(20).map(|w| w.surface_kind()), Some(SurfaceKind::ChildSurface));
    assert_eq!(windows.subsurface_parent(entity(2)), Err(WindowError::ParentIsSubsurface));
    assert_eq!(windows.subsurface_parent(entity(3)), Err(WindowError::ParentNotRegistered));
    windows.remove(entity(1));
    assert_eq!(windows.subsurface_parent(entity(1)), Err(WindowError::ParentNotRegistered));
}

#[test]
fn apply_settings_pushes_size_margin_and_exclusive_zone() {
    let mut windows = Windows::new();
    windows.create_window(entity(1), 10, name("panel")).unwrap();
    let settings = LayerShellSettings {
        anchor: Anchor { top: true, bottom: false, left: true, right: true },
        size: (1920, 32),
        exclusive_zone: 32,
        margin: (1, 2, 3, 4),
        keyboard_interactivity: KeyboardInteractivity::Exclusive,
        layer: Layer::Overlay,
    };
    assert_eq!(
        windows.apply_settings(entity(1), &settings),
        Ok(LayerSurfaceUpdate { surface: 10, exclusive_zone: 32, size: (1920, 32), margin: (1, 2, 3, 4) })
    );
    let negative = LayerShellSettings { exclusive_zone: -1, ..settings };
    assert_eq!(windows.apply_settings(entity(1), &negative).map(|u| u.exclusive_zone), Ok(-1));
}

#[test]
fn apply_settings_reports_a_window_without_surface() {
    let mut windows = Windows::new();
    let settings = LayerShellSettings::default();
    assert_eq!(windows.apply_settings(entity(1), &settings), Err(WindowError::EntityNotRegistered));
    windows.create_window(entity(1), 10, name("panel")).unwrap();
    windows.remove(entity(1));
    assert_eq!(windows.apply_settings(entity(1), &settings), Err(WindowError::EntityNotRegistered));
}

#[test]
fn apply_settings_reports_a_child_surface() {
    let mut windows = Windows::new();
    windows.create_window(entity(1), 10, name("panel")).unwrap();
    windows.create_subsurface(entity(2), entity(1), 20, name("popup")).unwrap();
    assert_eq!(
        windows.apply_settings(entity(2), &LayerShellSettings::default()),
        Err(WindowError::NotALayerSurface)
    );
}

#[test]
fn default_settings_are_a_small_unanchored_top_layer_surface() {
    let settings = LayerShellSettings::default();
    assert_eq!(settings.size, (256, 256));
    assert_eq!(settings.anchor, Anchor::empty());
    assert!(settings.anchor.is_empty());
    assert_eq!(settings.exclusive_zone, 0);
    assert_eq!(settings.margin, (0, 0, 0, 0));
    assert_eq!(settings.keyboard_interactivity, KeyboardInteractivity::OnDemand);
    assert_eq!(settings.layer, Layer::Top);
    assert_eq!(LayerShellSettings::with_size((256, 256)), settings);
    assert_eq!(LayerShellSettings::with_size((800, 600)).size, (800, 600));
    assert!(!Anchor { top: false, bottom: false, left: false, right: true }.is_empty());
}

#[test]
fn default_window_type_is_a_default_layer_surface() {
    assert_eq!(
        SmithayWindowType::default(),
        SmithayWindowType::LayerShell { settings: LayerShellSettings::default() }
    );
}

#[test]
fn numbers_that_are_no_entity_are_never_registered() {
    let mut windows = Windows::new();
    // No generation in the upper half, or the placeholder bit set.
    for bits in [0_u64, 7, 0xffff_ffff, 0x8000_0000_0000_0000, u64::MAX] {
        assert_eq!(
            windows.create_window(bits, 70, name("w")),
            Err((WindowError::InvalidEntity, name("w")))
        );
        assert_eq!(windows.lookup_surface(bits), None);
        assert_eq!(windows.remove(bits), None);
        assert_eq!(windows.subsurface_parent(bits), Err(WindowError::ParentNotRegistered));
        assert_eq!(
            windows.apply_settings(bits, &LayerShellSettings::default()),
            Err(WindowError::EntityNotRegistered)
        );
    }
    assert!(windows.is_empty());
    assert_eq!(windows.lookup_entity(70), None);
}

#[test]
fn entity_bits_are_those_of_bevy() {
    assert!(valid_entity_bits(Entity::from_raw(0).to_bits()));
    assert!(valid_entity_bits(Entity::PLACEHOLDER.to_bits()));
    assert!(valid_entity_bits(0x1_0000_0000));
    assert!(valid_entity_bits(0x7fff_ffff_ffff_ffff));
    assert!(!valid_entity_bits(0xffff_ffff));
    assert!(!valid_entity_bits(0x8000_0000_0000_0000));
    for bits in [0_u64, 1, 0xffff_ffff, 0x1_0000_0000, 0x7fff_ffff_0000_0001, 0x8000_0000_0000_0000, u64::MAX] {
        assert_eq!(valid_entity_bits(bits), Entity::try_from_bits(bits).is_ok());
    }
}

#[test]
fn entities_of_different_generations_are_different_windows() {
    let mut windows = Windows::new();
    let first = Entity::from_bits(0x1_0000_0005).to_bits();
    let second = Entity::from_bits(0x2_0000_0005).to_bits();
    windows.create_window(first, 1, name("first")).unwrap();
    assert_eq!(windows.lookup_surface(second), None);
    windows.create_window(second, 2, name("second")).unwrap();
    assert_eq!(windows.lookup_surface(first), Some(1));
    assert_eq!(windows.lookup_surface(second), Some(2));
    assert_eq!(windows.remove(first), Some((1, layer("first"))));
    assert_eq!(windows.lookup_surface(second), Some(2));
}

#[test]
fn subsurface_is_registered_on_a_layer_surface() {
    let mut windows = Windows::new();
    windows.create_window(entity(1), 10, name("parent")).unwrap();
    assert_eq!(
        windows.create_subsurface(entity(2), entity(1), 20, name("child")),
        Ok(LifecycleEvent::WindowCreated { window: entity(2) })
    );
    assert_eq!(windows.len(), 2);
    assert_eq!(windows.lookup_surface(entity(2)), Some(20));
    assert_eq!(windows.lookup_entity(20), Some(entity(2)));
    assert_eq!(windows.window(20), Some(&child("child")));
    // A second child of the same parent is fine.
    assert_eq!(
        windows.create_subsurface(entity(3), entity(1), 30, name("sibling")),
        Ok(LifecycleEvent::WindowCreated { window: entity(3) })
    );
}

#[test]
fn subsurface_without_registered_parent_is_turned_down() {
    let mut windows = Windows::new();
    assert_eq!(
        windows.create_subsurface(entity(2), entity(1), 20, name("child")),
        Err((WindowError::ParentNotRegistered, name("child")))
    );
    // A window cannot be its own parent either.
    assert_eq!(
        windows.create_subsurface(entity(2), entity(2), 20, name("child")),
        Err((WindowError::ParentNotRegistered, name("child")))
    );
    // Nor can a number that is no entity.
    assert_eq!(
        windows.create_subsurface(entity(2), 7, 20, name("child")),
        Err((WindowError::ParentNotRegistered, name("child")))
    );
    assert!(windows.is_empty());
    assert_eq!(windows.lookup_surface(entity(2)), None);
    assert_eq!(windows.lookup_entity(20), None);
    assert_eq!(windows.window(20), None);
}

#[test]
fn subsurface_of_a_subsurface_is_turned_down() {
    let mut windows = Windows::new();
    windows.create_window(entity(1), 10, name("parent")).unwrap();
    windows.create_subsurface(entity(2), entity(1), 20, name("child")).unwrap();
    assert_eq!(
        windows.create_subsurface(entity(3), entity(2), 30, name("nested")),
        Err((WindowError::ParentIsSubsurface, name("nested")))
    );
    assert_eq!(windows.len(), 2);
    assert_eq!(windows.lookup_surface(entity(3)), None);
    assert_eq!(windows.window(30), None);
}

#[test]
fn parent_fault_is_reported_before_the_faults_of_the_window() {
    let mut windows = Windows::new();
    windows.create_window(entity(1), 10, name("parent")).unwrap();
    // The parent is in order: the window's own faults show.
    assert_eq!(
        windows.create_subsurface(entity(1), entity(1), 20, name("child")),
        Err((WindowError::EntityAlreadyRegistered, name("child")))
    );
    assert_eq!(
        windows.create_subsurface(7, entity(1), 20, name("child")),
        Err((WindowError::InvalidEntity, name("child")))
    );
    // The parent is at fault: that is what is reported.
    assert_eq!(
        windows.create_subsurface(entity(1), entity(9), 10, name("child")),
        Err((WindowError::ParentNotRegistered, name("child")))
    );
    assert_eq!(windows.len(), 1);
    assert_eq!(windows.window(10), Some(&layer("parent")));
}

#[test]
fn subsurface_outlives_the_removal_of_its_parent() {
    let mut windows = Windows::new();
    windows.create_window(entity(1), 10, name("parent")).unwrap();
    windows.create_subsurface(entity(2), entity(1), 20, name("child")).unwrap();
    assert_eq!(windows.remove(entity(1)), Some((10, layer("parent"))));
    assert_eq!(windows.lookup_surface(entity(2)), Some(20));
    assert_eq!(windows.remove(entity(2)), Some((20, child("child"))));
    assert!(windows.is_empty());
}
