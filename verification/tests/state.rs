use bevy::prelude::Entity;
use bevy_smithay::events::{MouseButton, WindowEvent};
use bevy_smithay::events::ButtonState;
use bevy_smithay::smithay_windows::SmithayWindows;
use bevy_smithay::state::{Capability, EventOutcome, SmithayRunnerState};

type Windows = SmithayWindows<u8, u8>;
type State = SmithayRunnerState<(f32, f32)>;

fn entity(index: u32) -> u64 {
    Entity::from_raw(index).to_bits()
}

fn one_window() -> Windows {
    let mut windows = Windows::new();
    windows.create_window(entity(50), 5, 0).unwrap();
    windows
}

#[test]
fn new_state_is_blank() {
    let state = State::new();
    assert!(!state.keyboard);
    assert!(!state.pointer);
    assert!(!state.touch);
    assert_eq!(state.active_keyboard_surface, None);
    assert!(state.bevy_window_events.is_empty());
    assert!(state.active_touches.is_empty());
}

#[test]
fn scale_factor_change_is_sent_to_the_owner() {
    let windows = one_window();
    let mut state = State::new();
    assert_eq!(state.scale_factor_changed(&windows, 5, 2), EventOutcome::Queued);
    assert_eq!(
        state.bevy_window_events,
        vec![WindowEvent::WindowScaleFactorChanged { window: entity(50), scale_factor: 2 }]
    );
}

#[test]
fn scale_factor_change_of_unknown_surface_is_ignored() {
    let windows = one_window();
    let mut state = State::new();
    assert_eq!(state.scale_factor_changed(&windows, 6, 2), EventOutcome::UnknownSurface);
    assert!(state.bevy_window_events.is_empty());
}

#[test]
fn closed_surface_requests_the_close_of_its_owner() {
    let windows = one_window();
    let mut state = State::new();
    assert_eq!(state.closed(&windows, 5), EventOutcome::Queued);
    assert_eq!(state.closed(&windows, 4), EventOutcome::UnknownSurface);
    assert_eq!(state.bevy_window_events, vec![WindowEvent::WindowCloseRequested { window: entity(50) }]);
}

#[test]
fn devices_are_bound_once() {
    let mut state = State::new();
    assert!(state.new_capability(Capability::Keyboard));
    assert!(!state.new_capability(Capability::Keyboard));
    assert!(state.keyboard);
    assert!(!state.pointer);
    assert!(state.new_capability(Capability::Pointer));
    assert!(state.new_capability(Capability::Touch));
    assert!(!state.new_capability(Capability::Touch));
    assert!(state.keyboard && state.pointer && state.touch);
}

#[test]
fn devices_are_released_when_they_were_bound() {
    let mut state = State::new();
    assert!(!state.remove_capability(Capability::Pointer));
    state.new_capability(Capability::Pointer);
    state.new_capability(Capability::Touch);
    assert!(state.remove_capability(Capability::Pointer));
    assert!(!state.pointer);
    assert!(state.touch);
    assert!(!state.remove_capability(Capability::Pointer));
    assert!(state.new_capability(Capability::Pointer));
    assert!(state.remove_capability(Capability::Touch));
    assert!(!state.remove_capability(Capability::Keyboard));
}

#[test]
fn events_are_flushed_in_the_order_they_were_queued() {
    let windows = one_window();
    let mut state = State::new();
    state.scale_factor_changed(&windows, 5, 3);
    state.send(WindowEvent::CursorEntered { window: entity(50) });
    state.send(WindowEvent::MouseButtonInput {
        window: entity(50),
        button: MouseButton::Left,
        state: ButtonState::Pressed,
    });
    state.closed(&windows, 5);
    assert_eq!(
        state.run_app_update(true),
        Some(vec![
            WindowEvent::WindowScaleFactorChanged { window: entity(50), scale_factor: 3 },
            WindowEvent::CursorEntered { window: entity(50) },
            WindowEvent::MouseButtonInput {
                window: entity(50),
                button: MouseButton::Left,
                state: ButtonState::Pressed,
            },
            WindowEvent::WindowCloseRequested { window: entity(50) },
        ])
    );
    assert!(state.bevy_window_events.is_empty());
    assert_eq!(state.run_app_update(true), Some(vec![]));
}

#[test]
fn events_wait_until_startup_is_complete() {
    let mut state = State::new();
    state.send(WindowEvent::CursorEntered { window: 1 });
    assert_eq!(state.run_app_update(false), None);
    assert_eq!(state.bevy_window_events, vec![WindowEvent::CursorEntered { window: 1 }]);
    state.send(WindowEvent::CursorLeft { window: 1 });
    assert_eq!(
        state.run_app_update(true),
        Some(vec![WindowEvent::CursorEntered { window: 1 }, WindowEvent::CursorLeft { window: 1 }])
    );
    assert!(state.bevy_window_events.is_empty());
}

#[test]
fn flush_leaves_focus_and_touches_alone() {
    let windows = one_window();
    let mut state = State::new();
    state.enter(5);
    state.down(&windows, 5, 1, (1.0, 2.0));
    state.run_app_update(true);
    assert_eq!(state.active_keyboard_surface, Some(5));
    assert_eq!(state.touch_window(1), Some(entity(50)));
}
