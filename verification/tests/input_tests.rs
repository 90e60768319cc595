use servo_webview::cursor::{cursor_to_shape, Cursor, CursorShape};
use servo_webview::frame::{frame_wake_action, WakeAction};
use servo_webview::godot_codes;
use servo_webview::input::{translate_input, GodotInput, WebInput};
use servo_webview::keyboard::{GodotKeyInput, KeyState};
use servo_webview::keys::{Code, Key};
use servo_webview::mouse::{
    godot_button_to_pointer_button, translate_mouse_button, ButtonAction, MouseInput,
    PointerButton, WHEEL_STEP_PIXELS,
};

#[test]
fn wheel_buttons_scroll_along_one_axis() {
    assert_eq!(
        translate_mouse_button(godot_codes::MOUSE_BUTTON_WHEEL_UP, true),
        MouseInput::Wheel { horizontal: 0, vertical: 1 }
    );
    assert_eq!(
        translate_mouse_button(godot_codes::MOUSE_BUTTON_WHEEL_DOWN, false),
        MouseInput::Wheel { horizontal: 0, vertical: -1 }
    );
    assert_eq!(
        translate_mouse_button(godot_codes::MOUSE_BUTTON_WHEEL_LEFT, true),
        MouseInput::Wheel { horizontal: 1, vertical: 0 }
    );
    assert_eq!(
        translate_mouse_button(godot_codes::MOUSE_BUTTON_WHEEL_RIGHT, true),
        MouseInput::Wheel { horizontal: -1, vertical: 0 }
    );
    assert_eq!(WHEEL_STEP_PIXELS, 16);
}

#[test]
fn buttons_map_to_pointer_buttons() {
    assert_eq!(
        translate_mouse_button(godot_codes::MOUSE_BUTTON_LEFT, true),
        MouseInput::Button { action: ButtonAction::Down, button: PointerButton::Left }
    );
    assert_eq!(
        translate_mouse_button(godot_codes::MOUSE_BUTTON_RIGHT, false),
        MouseInput::Button { action: ButtonAction::Up, button: PointerButton::Right }
    );
    assert_eq!(godot_button_to_pointer_button(godot_codes::MOUSE_BUTTON_MIDDLE), PointerButton::Middle);
    assert_eq!(godot_button_to_pointer_button(godot_codes::MOUSE_BUTTON_XBUTTON1), PointerButton::Back);
    assert_eq!(godot_button_to_pointer_button(godot_codes::MOUSE_BUTTON_XBUTTON2), PointerButton::Forward);
    assert_eq!(godot_button_to_pointer_button(0), PointerButton::Other(0));
    assert_eq!(godot_button_to_pointer_button(42), PointerButton::Other(0));
}

#[test]
fn mouse_events_are_accepted_and_translated() {
    let d = translate_input(GodotInput::MouseButton {
        button_index: godot_codes::MOUSE_BUTTON_LEFT,
        pressed: true,
    });
    assert!(d.accept);
    assert!(matches!(
        d.event,
        Some(WebInput::Mouse(MouseInput::Button { action: ButtonAction::Down, button: PointerButton::Left }))
    ));

    let d = translate_input(GodotInput::MouseMotion);
    assert!(d.accept);
    assert!(matches!(d.event, Some(WebInput::Mouse(MouseInput::Move))));

    let d = translate_input(GodotInput::OtherMouse);
    assert!(d.accept);
    assert!(d.event.is_none());
}

#[test]
fn key_events_are_accepted_and_translated() {
    let d = translate_input(GodotInput::Key(GodotKeyInput {
        pressed: true,
        unicode: 0,
        keycode: godot_codes::KEY_ESCAPE,
        physical_keycode: godot_codes::KEY_ESCAPE,
        ctrl: false,
        shift: false,
        alt: false,
        meta: false,
        echo: false,
    }));
    assert!(d.accept);
    match d.event {
        Some(WebInput::Keyboard(k)) => {
            assert_eq!(k.state, KeyState::Down);
            assert_eq!(k.code, Code::Escape);
            assert!(matches!(k.key, Key::Named(servo_webview::keys::NamedKey::Escape)));
        }
        _ => panic!("expected a keyboard event"),
    }
}

#[test]
fn other_events_are_neither_accepted_nor_sent() {
    let d = translate_input(GodotInput::Other);
    assert!(!d.accept);
    assert!(d.event.is_none());
}

#[test]
fn cursors_map_to_godot_shapes() {
    assert_eq!(cursor_to_shape(Cursor::Pointer), CursorShape::PointingHand);
    assert_eq!(cursor_to_shape(Cursor::Text), CursorShape::Ibeam);
    assert_eq!(cursor_to_shape(Cursor::VerticalText), CursorShape::Ibeam);
    assert_eq!(cursor_to_shape(Cursor::Progress), CursorShape::Busy);
    assert_eq!(cursor_to_shape(Cursor::NotAllowed), CursorShape::Forbidden);
    assert_eq!(cursor_to_shape(Cursor::NsResize), CursorShape::Bdiagsize);
    assert_eq!(cursor_to_shape(Cursor::ColResize), CursorShape::Hsplit);
    assert_eq!(cursor_to_shape(Cursor::AllScroll), CursorShape::Drag);
    assert_eq!(cursor_to_shape(Cursor::Default), CursorShape::Arrow);
    assert_eq!(cursor_to_shape(Cursor::Hidden), CursorShape::Arrow);
    assert_eq!(cursor_to_shape(Cursor::ZoomIn), CursorShape::Arrow);
    assert_eq!(cursor_to_shape(Cursor::Grab), CursorShape::Arrow);
}

#[test]
fn opposite_resize_cursors_share_a_shape() {
    assert_eq!(cursor_to_shape(Cursor::NResize), cursor_to_shape(Cursor::SResize));
    assert_eq!(cursor_to_shape(Cursor::EResize), cursor_to_shape(Cursor::WResize));
    assert_eq!(cursor_to_shape(Cursor::NeResize), cursor_to_shape(Cursor::SwResize));
    assert_eq!(cursor_to_shape(Cursor::NwResize), cursor_to_shape(Cursor::SeResize));
    assert_eq!(cursor_to_shape(Cursor::NResize), CursorShape::Vsize);
    assert_eq!(cursor_to_shape(Cursor::EResize), CursorShape::Hsize);
    assert_eq!(cursor_to_shape(Cursor::NeResize), CursorShape::Bdiagsize);
    assert_eq!(cursor_to_shape(Cursor::NwResize), CursorShape::Fdiagsize);
}

#[test]
fn animating_pages_are_always_woken() {
    assert_eq!(frame_wake_action(true), WakeAction::Wake);
    assert_eq!(frame_wake_action(false), WakeAction::WakeIfNeeded);
}
