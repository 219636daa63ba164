use open_ui::KeyboardAction;
use open_ui::KeyboardEvent;
use open_ui::KeyboardKey;
use open_ui::MouseButton;
use open_ui::MouseButtonAction;
use open_ui::MouseButtonEvent;
use open_ui::CursorMovementEvent;
use open_ui::ResizeEvent;
use open_ui::UIEvent;
use open_ui::normalizer::apply_cursor_movement_event;
use open_ui::normalizer::apply_keyboard_event;
use open_ui::normalizer::apply_mouse_button_event;
use open_ui::normalizer::apply_resize_event;
use open_ui::normalizer::normalize_key_code;

#[test]
fn key_codes_map_to_stable_keys() {
    assert_eq!(normalize_key_code(0), Some(KeyboardKey::Num1));
    assert_eq!(normalize_key_code(9), Some(KeyboardKey::Num0));
    assert_eq!(normalize_key_code(10), Some(KeyboardKey::A));
    assert_eq!(normalize_key_code(35), Some(KeyboardKey::Z));
    assert_eq!(normalize_key_code(36), Some(KeyboardKey::Escape));
    assert_eq!(normalize_key_code(37), Some(KeyboardKey::F1));
    assert_eq!(normalize_key_code(70), Some(KeyboardKey::Left));
    assert_eq!(normalize_key_code(73), Some(KeyboardKey::Down));
    assert_eq!(normalize_key_code(76), Some(KeyboardKey::Space));
    assert_eq!(normalize_key_code(162), Some(KeyboardKey::Cut));
}

#[test]
fn each_key_code_maps_to_its_same_named_key() {
    assert_eq!(normalize_key_code(22), Some(KeyboardKey::M));
    assert_eq!(normalize_key_code(23), Some(KeyboardKey::N));
    assert_eq!(normalize_key_code(66), Some(KeyboardKey::Delete));
    assert_eq!(normalize_key_code(67), Some(KeyboardKey::End));
    assert_eq!(normalize_key_code(68), Some(KeyboardKey::PageDown));
    assert_eq!(normalize_key_code(69), Some(KeyboardKey::PageUp));
    assert_eq!(normalize_key_code(80), Some(KeyboardKey::Numpad0));
    assert_eq!(normalize_key_code(89), Some(KeyboardKey::Numpad9));
}

#[test]
fn unmapped_key_codes_are_dropped() {
    assert_eq!(normalize_key_code(163), None);
    assert_eq!(normalize_key_code(9999), None);
}

#[test]
fn apply_keyboard_event_appends_mapped_keys_only() {
    let mut events: Vec<UIEvent> = Vec::new();
    apply_keyboard_event(7, 10, true, &mut events);
    apply_keyboard_event(7, 9999, true, &mut events);
    apply_keyboard_event(7, 10, false, &mut events);
    assert_eq!(events.len(), 2);
    assert_eq!(
        events[0],
        UIEvent::Keyboard(KeyboardEvent {
            device_id: 7,
            key: KeyboardKey::A,
            action: KeyboardAction::Press,
        })
    );
    assert_eq!(
        events[1],
        UIEvent::Keyboard(KeyboardEvent {
            device_id: 7,
            key: KeyboardKey::A,
            action: KeyboardAction::Release,
        })
    );
}

#[test]
fn apply_mouse_button_event_appends_one_event() {
    let mut events: Vec<UIEvent> = Vec::new();
    apply_mouse_button_event(3, MouseButton::Left, true, &mut events);
    apply_mouse_button_event(3, MouseButton::Other(8), false, &mut events);
    assert_eq!(events.len(), 2);
    assert_eq!(
        events[0],
        UIEvent::MouseButton(MouseButtonEvent {
            device_id: 3,
            button: MouseButton::Left,
            action: MouseButtonAction::Press,
        })
    );
    assert_eq!(
        events[1],
        UIEvent::MouseButton(MouseButtonEvent {
            device_id: 3,
            button: MouseButton::Other(8),
            action: MouseButtonAction::Release,
        })
    );
}

#[test]
fn apply_cursor_movement_event_records_the_position() {
    let mut events: Vec<UIEvent> = Vec::new();
    apply_cursor_movement_event(5, 120, 48, &mut events);
    assert_eq!(
        events,
        vec![UIEvent::CursorMovement(CursorMovementEvent { device_id: 5, x: 120, y: 48 })]
    );
}

#[test]
fn apply_resize_event_records_the_new_size() {
    let mut events: Vec<UIEvent> = Vec::new();
    apply_resize_event(1024, 768, &mut events);
    assert_eq!(events, vec![UIEvent::Resize(ResizeEvent { width: 1024, height: 768 })]);
}
