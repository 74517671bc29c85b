use bevy::prelude::Entity;
use bevy_smithay::events::{ButtonState, MouseButton, WindowEvent};
use bevy_smithay::input::pointer::{
    convert_to_mouse_button, pointer_event, pointer_frame, PointerAction, PointerEvent,
    PointerEventKind, BTN_BACK, BTN_FORWARD, BTN_LEFT, BTN_MIDDLE, BTN_RIGHT,
};
use bevy_smithay::smithay_windows::SmithayWindows;

type Windows = SmithayWindows<u8, u8>;

fn entity(index: u32) -> u64 {
    Entity::from_raw(index).to_bits()
}

fn two_windows() -> Windows {
    let mut windows = Windows::new();
    windows.create_window(entity(100), 1, 0).unwrap();
    windows.create_subsurface(entity(200), entity(100), 2, 0).unwrap();
    windows
}

fn event(surface: u32, position: (f64, f64), kind: PointerEventKind) -> PointerEvent<(f64, f64)> {
    PointerEvent { surface, position, kind }
}

#[test]
fn known_button_codes_map_to_named_buttons() {
    assert_eq!(convert_to_mouse_button(272), MouseButton::Left);
    assert_eq!(convert_to_mouse_button(273), MouseButton::Right);
    assert_eq!(convert_to_mouse_button(274), MouseButton::Middle);
    assert_eq!(convert_to_mouse_button(277), MouseButton::Forward);
    assert_eq!(convert_to_mouse_button(278), MouseButton::Back);
    assert_eq!(BTN_LEFT, 0x110);
    assert_eq!(BTN_RIGHT, 0x111);
    assert_eq!(BTN_MIDDLE, 0x112);
    assert_eq!(BTN_FORWARD, 0x115);
    assert_eq!(BTN_BACK, 0x116);
}

#[test]
fn other_button_codes_are_kept_as_other() {
    assert_eq!(convert_to_mouse_button(275), MouseButton::Other(275));
    assert_eq!(convert_to_mouse_button(276), MouseButton::Other(276));
    assert_eq!(convert_to_mouse_button(0), MouseButton::Other(0));
    assert_eq!(convert_to_mouse_button(279), MouseButton::Other(279));
    assert_eq!(convert_to_mouse_button(65535), MouseButton::Other(65535));
}

#[test]
fn wide_button_codes_are_kept_whole() {
    assert_eq!(convert_to_mouse_button(0x1_0005), MouseButton::Other(0x1_0005));
    assert_eq!(convert_to_mouse_button(u32::MAX), MouseButton::Other(u32::MAX));
    // The low bits of a wide code may look like a named button; it stays `Other`.
    assert_eq!(convert_to_mouse_button(0x1_0110), MouseButton::Other(0x1_0110));
}

#[test]
fn enter_leave_and_buttons_map_one_to_one() {
    let windows = two_windows();
    assert_eq!(
        pointer_event(&windows, &event(1, (0.0, 0.0), PointerEventKind::Enter)),
        Some(PointerAction::Send(WindowEvent::CursorEntered { window: entity(100) }))
    );
    assert_eq!(
        pointer_event(&windows, &event(2, (0.0, 0.0), PointerEventKind::Leave)),
        Some(PointerAction::Send(WindowEvent::CursorLeft { window: entity(200) }))
    );
    assert_eq!(
        pointer_event(&windows, &event(1, (0.0, 0.0), PointerEventKind::Press { button: 272 })),
        Some(PointerAction::Send(WindowEvent::MouseButtonInput {
            window: entity(100),
            button: MouseButton::Left,
            state: ButtonState::Pressed,
        }))
    );
    assert_eq!(
        pointer_event(&windows, &event(1, (0.0, 0.0), PointerEventKind::Release { button: 300 })),
        Some(PointerAction::Send(WindowEvent::MouseButtonInput {
            window: entity(100),
            button: MouseButton::Other(300),
            state: ButtonState::Released,
        }))
    );
}

#[test]
fn motion_is_passed_on_with_its_window_and_position() {
    let windows = two_windows();
    assert_eq!(
        pointer_event(&windows, &event(2, (12.5, 40.0), PointerEventKind::Motion)),
        Some(PointerAction::Moved { window: entity(200), position: (12.5, 40.0) })
    );
}

#[test]
fn scrolling_and_unknown_surfaces_ask_for_nothing() {
    let windows = two_windows();
    assert_eq!(pointer_event(&windows, &event(1, (0.0, 0.0), PointerEventKind::Axis)), None);
    assert_eq!(pointer_event(&windows, &event(3, (0.0, 0.0), PointerEventKind::Enter)), None);
    assert_eq!(pointer_event(&windows, &event(3, (1.0, 1.0), PointerEventKind::Motion)), None);
}

#[test]
fn frame_skips_unresolved_events_and_goes_on() {
    let windows = two_windows();
    let frame = vec![
        event(1, (1.0, 2.0), PointerEventKind::Enter),
        event(9, (3.0, 4.0), PointerEventKind::Motion),
        event(1, (5.0, 6.0), PointerEventKind::Motion),
        event(1, (5.0, 6.0), PointerEventKind::Axis),
        event(2, (7.0, 8.0), PointerEventKind::Press { button: 273 }),
        event(9, (0.0, 0.0), PointerEventKind::Leave),
        event(1, (9.0, 9.0), PointerEventKind::Leave),
    ];
    assert_eq!(
        pointer_frame(&windows, &frame),
        vec![
            PointerAction::Send(WindowEvent::CursorEntered { window: entity(100) }),
            PointerAction::Moved { window: entity(100), position: (5.0, 6.0) },
            PointerAction::Send(WindowEvent::MouseButtonInput {
                window: entity(200),
                button: MouseButton::Right,
                state: ButtonState::Pressed,
            }),
            PointerAction::Send(WindowEvent::CursorLeft { window: entity(100) }),
        ]
    );
}

#[test]
fn empty_frame_asks_for_nothing() {
    let windows = two_windows();
    let frame: Vec<PointerEvent<(f64, f64)>> = Vec::new();
    assert_eq!(pointer_frame(&windows, &frame), vec![]);
}

#[test]
fn frame_on_an_empty_registry_asks_for_nothing() {
    let windows = Windows::new();
    let frame = vec![
        event(1, (1.0, 2.0), PointerEventKind::Enter),
        event(1, (1.0, 2.0), PointerEventKind::Press { button: 272 }),
    ];
    assert_eq!(pointer_frame(&windows, &frame), vec![]);
}
