use servo_webview::godot_codes;
use servo_webview::keyboard::{
    event_key, key_modifiers, translate_key_event, GodotKeyInput, KeyState,
};
use servo_webview::keys::{godot_key_to_code, godot_key_to_key, godot_key_to_named_key, Code, Key, NamedKey};

use keyboard_types::Modifiers;

#[test]
fn letters_digits_and_keypad_map_to_their_codes() {
    assert_eq!(godot_key_to_code(godot_codes::KEY_A), Code::KeyA);
    assert_eq!(godot_key_to_code(godot_codes::KEY_Z), Code::KeyZ);
    assert_eq!(godot_key_to_code(godot_codes::KEY_0), Code::Digit0);
    assert_eq!(godot_key_to_code(godot_codes::KEY_9), Code::Digit9);
    assert_eq!(godot_key_to_code(godot_codes::KEY_KP_0), Code::Numpad0);
    assert_eq!(godot_key_to_code(godot_codes::KEY_KP_PERIOD), Code::NumpadDecimal);
    assert_eq!(godot_key_to_code(godot_codes::KEY_APOSTROPHE), Code::Quote);
    assert_eq!(godot_key_to_code(godot_codes::KEY_QUOTELEFT), Code::Backquote);
    assert_eq!(godot_key_to_code(godot_codes::KEY_CTRL), Code::ControlLeft);
}

#[test]
fn enter_and_keypad_enter_have_distinct_codes() {
    assert_eq!(godot_key_to_code(godot_codes::KEY_ENTER), Code::Enter);
    assert_eq!(godot_key_to_code(godot_codes::KEY_KP_ENTER), Code::NumpadEnter);
}

#[test]
fn unknown_keys_are_unidentified() {
    assert_eq!(godot_key_to_code(0), Code::Unidentified);
    assert_eq!(godot_key_to_code(godot_codes::KEY_PAUSE), Code::Unidentified);
    assert_eq!(godot_key_to_named_key(godot_codes::KEY_A), NamedKey::Unidentified);
    assert_eq!(godot_key_to_key(-5), Key::Named(NamedKey::Unidentified));
}

#[test]
fn known_physical_keys_get_distinct_codes() {
    let mut known = Vec::new();
    for k in -10..4194500 {
        let c = godot_key_to_code(k);
        if c != Code::Unidentified {
            assert!(!known.contains(&c), "code {:?} given twice", c);
            known.push(c);
        }
    }
    assert_eq!(known.len(), 97);
}

#[test]
fn named_keys_map_to_w3c_names() {
    assert_eq!(godot_key_to_key(godot_codes::KEY_ENTER), Key::Named(NamedKey::Enter));
    assert_eq!(godot_key_to_key(godot_codes::KEY_KP_ENTER), Key::Named(NamedKey::Enter));
    assert_eq!(godot_key_to_key(godot_codes::KEY_PRINT), Key::Named(NamedKey::PrintScreen));
    assert_eq!(godot_key_to_key(godot_codes::KEY_CTRL), Key::Named(NamedKey::Control));
    assert_eq!(godot_key_to_key(godot_codes::KEY_F12), Key::Named(NamedKey::F12));
    assert_eq!(godot_key_to_key(godot_codes::KEY_LEFT), Key::Named(NamedKey::ArrowLeft));
}

#[test]
fn only_space_gives_a_character() {
    assert_eq!(godot_key_to_key(godot_codes::KEY_SPACE), Key::Character(" ".to_string()));
    for k in -10..4194500 {
        if k != godot_codes::KEY_SPACE {
            assert!(matches!(godot_key_to_key(k), Key::Named(_)));
        }
    }
}

#[test]
fn printable_unicode_is_sent_as_character() {
    assert_eq!(event_key('a' as u32, godot_codes::KEY_A, false), Key::Character("a".to_string()));
    assert_eq!(event_key('é' as u32, godot_codes::KEY_E, false), Key::Character("é".to_string()));
    assert_eq!(event_key('€' as u32, 0, false), Key::Character("€".to_string()));
}

#[test]
fn ctrl_uses_the_named_key() {
    assert_eq!(event_key('a' as u32, godot_codes::KEY_A, true), Key::Named(NamedKey::Unidentified));
    assert_eq!(event_key(' ' as u32, godot_codes::KEY_SPACE, true), Key::Character(" ".to_string()));
}

#[test]
fn control_characters_and_invalid_scalars_use_the_named_key() {
    assert_eq!(event_key(0x0d, godot_codes::KEY_ENTER, false), Key::Named(NamedKey::Enter));
    assert_eq!(event_key(0x7f, godot_codes::KEY_DELETE, false), Key::Named(NamedKey::Delete));
    assert_eq!(event_key(0, godot_codes::KEY_TAB, false), Key::Named(NamedKey::Tab));
    assert_eq!(event_key(0xD800, godot_codes::KEY_HOME, false), Key::Named(NamedKey::Home));
    assert_eq!(event_key(0x110000, godot_codes::KEY_END, false), Key::Named(NamedKey::End));
    assert_eq!(event_key(0x20, godot_codes::KEY_SPACE, false), Key::Character(" ".to_string()));
}

#[test]
fn modifiers_hold_exactly_the_held_keys() {
    assert_eq!(key_modifiers(false, false, false, false), Modifiers::empty());
    assert_eq!(key_modifiers(true, false, false, false), Modifiers::CONTROL);
    assert_eq!(key_modifiers(false, true, false, false), Modifiers::SHIFT);
    assert_eq!(key_modifiers(false, false, true, false), Modifiers::ALT);
    assert_eq!(key_modifiers(false, false, false, true), Modifiers::META);
    assert_eq!(
        key_modifiers(true, true, true, true),
        Modifiers::CONTROL | Modifiers::SHIFT | Modifiers::ALT | Modifiers::META
    );
}

#[test]
fn key_event_is_translated_field_by_field() {
    let input = GodotKeyInput {
        pressed: true,
        unicode: 'Q' as u32,
        keycode: godot_codes::KEY_Q,
        physical_keycode: godot_codes::KEY_A,
        ctrl: false,
        shift: true,
        alt: false,
        meta: false,
        echo: true,
    };
    let event = translate_key_event(&input);
    assert_eq!(event.state, KeyState::Down);
    assert_eq!(event.key, Key::Character("Q".to_string()));
    assert_eq!(event.code, Code::KeyA);
    assert_eq!(event.modifiers, Modifiers::SHIFT);
    assert!(event.repeat);

    let released = GodotKeyInput { pressed: false, unicode: 0, ctrl: true, echo: false, ..input };
    let event = translate_key_event(&released);
    assert_eq!(event.state, KeyState::Up);
    assert_eq!(event.key, Key::Named(NamedKey::Unidentified));
    assert_eq!(event.modifiers, Modifiers::CONTROL | Modifiers::SHIFT);
    assert!(!event.repeat);
}
