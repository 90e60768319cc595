//! Mapping of Godot key codes to the W3C key values and physical key codes
//! that the browser engine expects.
use vstd::prelude::*;

use crate::godot_codes;

verus! {

/// A named (non-printable) key value, after the W3C `key` attribute values.
#[derive(Clone, Copy, Debug, PartialEq, Eq, Structural)]
pub enum NamedKey {
    Enter,
    Tab,
    Backspace,
    Escape,
    Delete,
    Insert,
    Home,
    End,
    PageUp,
    PageDown,
    ArrowLeft,
    ArrowRight,
    ArrowUp,
    ArrowDown,
    F1,
    F2,
    F3,
    F4,
    F5,
    F6,
    F7,
    F8,
    F9,
    F10,
    F11,
    F12,
    Shift,
    Control,
    Alt,
    Meta,
    CapsLock,
    NumLock,
    ScrollLock,
    Pause,
    PrintScreen,
    Unidentified,
}

/// The physical position of a key, after the W3C `code` attribute values.
#[derive(Clone, Copy, Debug, PartialEq, Eq, Structural)]
pub enum Code {
    KeyA,
    KeyB,
    KeyC,
    KeyD,
    KeyE,
    KeyF,
    KeyG,
    KeyH,
    KeyI,
    KeyJ,
    KeyK,
    KeyL,
    KeyM,
    KeyN,
    KeyO,
    KeyP,
    KeyQ,
    KeyR,
    KeyS,
    KeyT,
    KeyU,
    KeyV,
    KeyW,
    KeyX,
    KeyY,
    KeyZ,
    Digit0,
    Digit1,
    Digit2,
    Digit3,
    Digit4,
    Digit5,
    Digit6,
    Digit7,
    Digit8,
    Digit9,
    Space,
    Enter,
    NumpadEnter,
    Tab,
    Backspace,
    Escape,
    Delete,
    Insert,
    Home,
    End,
    PageUp,
    PageDown,
    ArrowLeft,
    ArrowRight,
    ArrowUp,
    ArrowDown,
    F1,
    F2,
    F3,
    F4,
    F5,
    F6,
    F7,
    F8,
    F9,
    F10,
    F11,
    F12,
    ShiftLeft,
    ControlLeft,
    AltLeft,
    MetaLeft,
    CapsLock,
    NumLock,
    ScrollLock,
    Minus,
    Equal,
    BracketLeft,
    BracketRight,
    Semicolon,
    Quote,
    Comma,
    Period,
    Slash,
    Backslash,
    Backquote,
    Numpad0,
    Numpad1,
    Numpad2,
    Numpad3,
    Numpad4,
    Numpad5,
    Numpad6,
    Numpad7,
    Numpad8,
    Numpad9,
    NumpadAdd,
    NumpadSubtract,
    NumpadMultiply,
    NumpadDivide,
    NumpadDecimal,
    Unidentified,
}

/// The value a key press produces: a printable character string or a named key.
#[derive(Debug, PartialEq, Eq)]
pub enum Key {
    Character(String),
    Named(NamedKey),
}

/// The mathematical model of a [`Key`].
pub enum KeyView {
    Character(Seq<char>),
    Named(NamedKey),
}

impl View for Key {
    type V = KeyView;

    open spec fn view(&self) -> KeyView {
        match self {
            Key::Character(s) => KeyView::Character(s@),
            Key::Named(n) => KeyView::Named(*n),
        }
    }
}

/// The named key that a Godot logical key code stands for.
pub open spec fn named_key_of(keycode: i32) -> NamedKey {
    match keycode {
        godot_codes::KEY_ENTER | godot_codes::KEY_KP_ENTER => NamedKey::Enter,
        godot_codes::KEY_TAB => NamedKey::Tab,
        godot_codes::KEY_BACKSPACE => NamedKey::Backspace,
        godot_codes::KEY_ESCAPE => NamedKey::Escape,
        godot_codes::KEY_DELETE => NamedKey::Delete,
        godot_codes::KEY_INSERT => NamedKey::Insert,
        godot_codes::KEY_HOME => NamedKey::Home,
        godot_codes::KEY_END => NamedKey::End,
        godot_codes::KEY_PAGEUP => NamedKey::PageUp,
        godot_codes::KEY_PAGEDOWN => NamedKey::PageDown,
        godot_codes::KEY_LEFT => NamedKey::ArrowLeft,
        godot_codes::KEY_RIGHT => NamedKey::ArrowRight,
        godot_codes::KEY_UP => NamedKey::ArrowUp,
        godot_codes::KEY_DOWN => NamedKey::ArrowDown,
        godot_codes::KEY_F1 => NamedKey::F1,
        godot_codes::KEY_F2 => NamedKey::F2,
        godot_codes::KEY_F3 => NamedKey::F3,
        godot_codes::KEY_F4 => NamedKey::F4,
        godot_codes::KEY_F5 => NamedKey::F5,
        godot_codes::KEY_F6 => NamedKey::F6,
        godot_codes::KEY_F7 => NamedKey::F7,
        godot_codes::KEY_F8 => NamedKey::F8,
        godot_codes::KEY_F9 => NamedKey::F9,
        godot_codes::KEY_F10 => NamedKey::F10,
        godot_codes::KEY_F11 => NamedKey::F11,
        godot_codes::KEY_F12 => NamedKey::F12,
        godot_codes::KEY_SHIFT => NamedKey::Shift,
        godot_codes::KEY_CTRL => NamedKey::Control,
        godot_codes::KEY_ALT => NamedKey::Alt,
        godot_codes::KEY_META => NamedKey::Meta,
        godot_codes::KEY_CAPSLOCK => NamedKey::CapsLock,
        godot_codes::KEY_NUMLOCK => NamedKey::NumLock,
        godot_codes::KEY_SCROLLLOCK => NamedKey::ScrollLock,
        godot_codes::KEY_PAUSE => NamedKey::Pause,
        godot_codes::KEY_PRINT => NamedKey::PrintScreen,
        _ => NamedKey::Unidentified,
    }
}

/// The key value that a Godot logical key code yields: the space bar gives the
/// character string `" "`, every other key its named key.
pub open spec fn key_of(keycode: i32) -> KeyView {
    if keycode == godot_codes::KEY_SPACE {
        KeyView::Character(seq![' '])
    } else {
        KeyView::Named(named_key_of(keycode))
    }
}

/// The physical code that a Godot physical key code stands for.
pub open spec fn code_of(physical: i32) -> Code {
    match physical {
        godot_codes::KEY_A => Code::KeyA,
        godot_codes::KEY_B => Code::KeyB,
        godot_codes::KEY_C => Code::KeyC,
        godot_codes::KEY_D => Code::KeyD,
        godot_codes::KEY_E => Code::KeyE,
        godot_codes::KEY_F => Code::KeyF,
        godot_codes::KEY_G => Code::KeyG,
        godot_codes::KEY_H => Code::KeyH,
        godot_codes::KEY_I => Code::KeyI,
        godot_codes::KEY_J => Code::KeyJ,
        godot_codes::KEY_K => Code::KeyK,
        godot_codes::KEY_L => Code::KeyL,
        godot_codes::KEY_M => Code::KeyM,
        godot_codes::KEY_N => Code::KeyN,
        godot_codes::KEY_O => Code::KeyO,
        godot_codes::KEY_P => Code::KeyP,
        godot_codes::KEY_Q => Code::KeyQ,
        godot_codes::KEY_R => Code::KeyR,
        godot_codes::KEY_S => Code::KeyS,
        godot_codes::KEY_T => Code::KeyT,
        godot_codes::KEY_U => Code::KeyU,
        godot_codes::KEY_V => Code::KeyV,
        godot_codes::KEY_W => Code::KeyW,
        godot_codes::KEY_X => Code::KeyX,
        godot_codes::KEY_Y => Code::KeyY,
        godot_codes::KEY_Z => Code::KeyZ,
        godot_codes::KEY_0 => Code::Digit0,
        godot_codes::KEY_1 => Code::Digit1,
        godot_codes::KEY_2 => Code::Digit2,
        godot_codes::KEY_3 => Code::Digit3,
        godot_codes::KEY_4 => Code::Digit4,
        godot_codes::KEY_5 => Code::Digit5,
        godot_codes::KEY_6 => Code::Digit6,
        godot_codes::KEY_7 => Code::Digit7,
        godot_codes::KEY_8 => Code::Digit8,
        godot_codes::KEY_9 => Code::Digit9,
        godot_codes::KEY_SPACE => Code::Space,
        godot_codes::KEY_ENTER => Code::Enter,
        godot_codes::KEY_KP_ENTER => Code::NumpadEnter,
        godot_codes::KEY_TAB => Code::Tab,
        godot_codes::KEY_BACKSPACE => Code::Backspace,
        godot_codes::KEY_ESCAPE => Code::Escape,
        godot_codes::KEY_DELETE => Code::Delete,
        godot_codes::KEY_INSERT => Code::Insert,
        godot_codes::KEY_HOME => Code::Home,
        godot_codes::KEY_END => Code::End,
        godot_codes::KEY_PAGEUP => Code::PageUp,
        godot_codes::KEY_PAGEDOWN => Code::PageDown,
        godot_codes::KEY_LEFT => Code::ArrowLeft,
        godot_codes::KEY_RIGHT => Code::ArrowRight,
        godot_codes::KEY_UP => Code::ArrowUp,
        godot_codes::KEY_DOWN => Code::ArrowDown,
        godot_codes::KEY_F1 => Code::F1,
        godot_codes::KEY_F2 => Code::F2,
        godot_codes::KEY_F3 => Code::F3,
        godot_codes::KEY_F4 => Code::F4,
        godot_codes::KEY_F5 => Code::F5,
        godot_codes::KEY_F6 => Code::F6,
        godot_codes::KEY_F7 => Code::F7,
        godot_codes::KEY_F8 => Code::F8,
        godot_codes::KEY_F9 => Code::F9,
        godot_codes::KEY_F10 => Code::F10,
        godot_codes::KEY_F11 => Code::F11,
        godot_codes::KEY_F12 => Code::F12,
        godot_codes::KEY_SHIFT => Code::ShiftLeft,
        godot_codes::KEY_CTRL => Code::ControlLeft,
        godot_codes::KEY_ALT => Code::AltLeft,
        godot_codes::KEY_META => Code::MetaLeft,
        godot_codes::KEY_CAPSLOCK => Code::CapsLock,
        godot_codes::KEY_NUMLOCK => Code::NumLock,
        godot_codes::KEY_SCROLLLOCK => Code::ScrollLock,
        godot_codes::KEY_MINUS => Code::Minus,
        godot_codes::KEY_EQUAL => Code::Equal,
        godot_codes::KEY_BRACKETLEFT => Code::BracketLeft,
        godot_codes::KEY_BRACKETRIGHT => Code::BracketRight,
        godot_codes::KEY_SEMICOLON => Code::Semicolon,
        godot_codes::KEY_APOSTROPHE => Code::Quote,
        godot_codes::KEY_COMMA => Code::Comma,
        godot_codes::KEY_PERIOD => Code::Period,
        godot_codes::KEY_SLASH => Code::Slash,
        godot_codes::KEY_BACKSLASH => Code::Backslash,
        godot_codes::KEY_QUOTELEFT => Code::Backquote,
        godot_codes::KEY_KP_0 => Code::Numpad0,
        godot_codes::KEY_KP_1 => Code::Numpad1,
        godot_codes::KEY_KP_2 => Code::Numpad2,
        godot_codes::KEY_KP_3 => Code::Numpad3,
        godot_codes::KEY_KP_4 => Code::Numpad4,
        godot_codes::KEY_KP_5 => Code::Numpad5,
        godot_codes::KEY_KP_6 => Code::Numpad6,
        godot_codes::KEY_KP_7 => Code::Numpad7,
        godot_codes::KEY_KP_8 => Code::Numpad8,
        godot_codes::KEY_KP_9 => Code::Numpad9,
        godot_codes::KEY_KP_ADD => Code::NumpadAdd,
        godot_codes::KEY_KP_SUBTRACT => Code::NumpadSubtract,
        godot_codes::KEY_KP_MULTIPLY => Code::NumpadMultiply,
        godot_codes::KEY_KP_DIVIDE => Code::NumpadDivide,
        godot_codes::KEY_KP_PERIOD => Code::NumpadDecimal,
        _ => Code::Unidentified,
    }
}

/// The Godot physical key that sits at the position of a given code (0 for
/// `Unidentified`).
pub open spec fn godot_key_of_code(code: Code) -> i32 {
    match code {
        Code::KeyA => godot_codes::KEY_A,
        Code::KeyB => godot_codes::KEY_B,
        Code::KeyC => godot_codes::KEY_C,
        Code::KeyD => godot_codes::KEY_D,
        Code::KeyE => godot_codes::KEY_E,
        Code::KeyF => godot_codes::KEY_F,
        Code::KeyG => godot_codes::KEY_G,
        Code::KeyH => godot_codes::KEY_H,
        Code::KeyI => godot_codes::KEY_I,
        Code::KeyJ => godot_codes::KEY_J,
        Code::KeyK => godot_codes::KEY_K,
        Code::KeyL => godot_codes::KEY_L,
        Code::KeyM => godot_codes::KEY_M,
        Code::KeyN => godot_codes::KEY_N,
        Code::KeyO => godot_codes::KEY_O,
        Code::KeyP => godot_codes::KEY_P,
        Code::KeyQ => godot_codes::KEY_Q,
        Code::KeyR => godot_codes::KEY_R,
        Code::KeyS => godot_codes::KEY_S,
        Code::KeyT => godot_codes::KEY_T,
        Code::KeyU => godot_codes::KEY_U,
        Code::KeyV => godot_codes::KEY_V,
        Code::KeyW => godot_codes::KEY_W,
        Code::KeyX => godot_codes::KEY_X,
        Code::KeyY => godot_codes::KEY_Y,
        Code::KeyZ => godot_codes::KEY_Z,
        Code::Digit0 => godot_codes::KEY_0,
        Code::Digit1 => godot_codes::KEY_1,
        Code::Digit2 => godot_codes::KEY_2,
        Code::Digit3 => godot_codes::KEY_3,
        Code::Digit4 => godot_codes::KEY_4,
        Code::Digit5 => godot_codes::KEY_5,
        Code::Digit6 => godot_codes::KEY_6,
        Code::Digit7 => godot_codes::KEY_7,
        Code::Digit8 => godot_codes::KEY_8,
        Code::Digit9 => godot_codes::KEY_9,
        Code::Space => godot_codes::KEY_SPACE,
        Code::Enter => godot_codes::KEY_ENTER,
        Code::NumpadEnter => godot_codes::KEY_KP_ENTER,
        Code::Tab => godot_codes::KEY_TAB,
        Code::Backspace => godot_codes::KEY_BACKSPACE,
        Code::Escape => godot_codes::KEY_ESCAPE,
        Code::Delete => godot_codes::KEY_DELETE,
        Code::Insert => godot_codes::KEY_INSERT,
        Code::Home => godot_codes::KEY_HOME,
        Code::End => godot_codes::KEY_END,
        Code::PageUp => godot_codes::KEY_PAGEUP,
        Code::PageDown => godot_codes::KEY_PAGEDOWN,
        Code::ArrowLeft => godot_codes::KEY_LEFT,
        Code::ArrowRight => godot_codes::KEY_RIGHT,
        Code::ArrowUp => godot_codes::KEY_UP,
        Code::ArrowDown => godot_codes::KEY_DOWN,
        Code::F1 => godot_codes::KEY_F1,
        Code::F2 => godot_codes::KEY_F2,
        Code::F3 => godot_codes::KEY_F3,
        Code::F4 => godot_codes::KEY_F4,
        Code::F5 => godot_codes::KEY_F5,
        Code::F6 => godot_codes::KEY_F6,
        Code::F7 => godot_codes::KEY_F7,
        Code::F8 => godot_codes::KEY_F8,
        Code::F9 => godot_codes::KEY_F9,
        Code::F10 => godot_codes::KEY_F10,
        Code::F11 => godot_codes::KEY_F11,
        Code::F12 => godot_codes::KEY_F12,
        Code::ShiftLeft => godot_codes::KEY_SHIFT,
        Code::ControlLeft => godot_codes::KEY_CTRL,
        Code::AltLeft => godot_codes::KEY_ALT,
        Code::MetaLeft => godot_codes::KEY_META,
        Code::CapsLock => godot_codes::KEY_CAPSLOCK,
        Code::NumLock => godot_codes::KEY_NUMLOCK,
        Code::ScrollLock => godot_codes::KEY_SCROLLLOCK,
        Code::Minus => godot_codes::KEY_MINUS,
        Code::Equal => godot_codes::KEY_EQUAL,
        Code::BracketLeft => godot_codes::KEY_BRACKETLEFT,
        Code::BracketRight => godot_codes::KEY_BRACKETRIGHT,
        Code::Semicolon => godot_codes::KEY_SEMICOLON,
        Code::Quote => godot_codes::KEY_APOSTROPHE,
        Code::Comma => godot_codes::KEY_COMMA,
        Code::Period => godot_codes::KEY_PERIOD,
        Code::Slash => godot_codes::KEY_SLASH,
        Code::Backslash => godot_codes::KEY_BACKSLASH,
        Code::Backquote => godot_codes::KEY_QUOTELEFT,
        Code::Numpad0 => godot_codes::KEY_KP_0,
        Code::Numpad1 => godot_codes::KEY_KP_1,
        Code::Numpad2 => godot_codes::KEY_KP_2,
        Code::Numpad3 => godot_codes::KEY_KP_3,
        Code::Numpad4 => godot_codes::KEY_KP_4,
        Code::Numpad5 => godot_codes::KEY_KP_5,
        Code::Numpad6 => godot_codes::KEY_KP_6,
        Code::Numpad7 => godot_codes::KEY_KP_7,
        Code::Numpad8 => godot_codes::KEY_KP_8,
        Code::Numpad9 => godot_codes::KEY_KP_9,
        Code::NumpadAdd => godot_codes::KEY_KP_ADD,
        Code::NumpadSubtract => godot_codes::KEY_KP_SUBTRACT,
        Code::NumpadMultiply => godot_codes::KEY_KP_MULTIPLY,
        Code::NumpadDivide => godot_codes::KEY_KP_DIVIDE,
        Code::NumpadDecimal => godot_codes::KEY_KP_PERIOD,
        Code::Unidentified => 0,
    }
}

/// Maps a Godot logical key code to the named key it stands for.
pub fn godot_key_to_named_key(keycode: i32) -> (named: NamedKey)
    ensures
        named == named_key_of(keycode),
{
    match keycode {
        godot_codes::KEY_ENTER | godot_codes::KEY_KP_ENTER => NamedKey::Enter,
        godot_codes::KEY_TAB => NamedKey::Tab,
        godot_codes::KEY_BACKSPACE => NamedKey::Backspace,
        godot_codes::KEY_ESCAPE => NamedKey::Escape,
        godot_codes::KEY_DELETE => NamedKey::Delete,
        godot_codes::KEY_INSERT => NamedKey::Insert,
        godot_codes::KEY_HOME => NamedKey::Home,
        godot_codes::KEY_END => NamedKey::End,
        godot_codes::KEY_PAGEUP => NamedKey::PageUp,
        godot_codes::KEY_PAGEDOWN => NamedKey::PageDown,
        godot_codes::KEY_LEFT => NamedKey::ArrowLeft,
        godot_codes::KEY_RIGHT => NamedKey::ArrowRight,
        godot_codes::KEY_UP => NamedKey::ArrowUp,
        godot_codes::KEY_DOWN => NamedKey::ArrowDown,
        godot_codes::KEY_F1 => NamedKey::F1,
        godot_codes::KEY_F2 => NamedKey::F2,
        godot_codes::KEY_F3 => NamedKey::F3,
        godot_codes::KEY_F4 => NamedKey::F4,
        godot_codes::KEY_F5 => NamedKey::F5,
        godot_codes::KEY_F6 => NamedKey::F6,
        godot_codes::KEY_F7 => NamedKey::F7,
        godot_codes::KEY_F8 => NamedKey::F8,
        godot_codes::KEY_F9 => NamedKey::F9,
        godot_codes::KEY_F10 => NamedKey::F10,
        godot_codes::KEY_F11 => NamedKey::F11,
        godot_codes::KEY_F12 => NamedKey::F12,
        godot_codes::KEY_SHIFT => NamedKey::Shift,
        godot_codes::KEY_CTRL => NamedKey::Control,
        godot_codes::KEY_ALT => NamedKey::Alt,
        godot_codes::KEY_META => NamedKey::Meta,
        godot_codes::KEY_CAPSLOCK => NamedKey::CapsLock,
        godot_codes::KEY_NUMLOCK => NamedKey::NumLock,
        godot_codes::KEY_SCROLLLOCK => NamedKey::ScrollLock,
        godot_codes::KEY_PAUSE => NamedKey::Pause,
        godot_codes::KEY_PRINT => NamedKey::PrintScreen,
        _ => NamedKey::Unidentified,
    }
}

/// Maps a Godot logical key code to a key value.
/// Printable characters are handled through the event's unicode value by the
/// caller; this covers the named keys, and the space bar.
pub fn godot_key_to_key(keycode: i32) -> (key: Key)
    ensures
        key@ == key_of(keycode),
{
    if keycode == godot_codes::KEY_SPACE {
        let space = String::from_str(" ");
        proof {
            reveal_strlit(" ");
            assert(space@ =~= seq![' ']);
        }
        Key::Character(space)
    } else {
        Key::Named(godot_key_to_named_key(keycode))
    }
}

/// Maps a Godot physical key code to the physical code of the key, which does
/// not depend on the keyboard layout.
pub fn godot_key_to_code(physical: i32) -> (code: Code)
    ensures
        code == code_of(physical),
{
    match physical {
        godot_codes::KEY_A => Code::KeyA,
        godot_codes::KEY_B => Code::KeyB,
        godot_codes::KEY_C => Code::KeyC,
        godot_codes::KEY_D => Code::KeyD,
        godot_codes::KEY_E => Code::KeyE,
        godot_codes::KEY_F => Code::KeyF,
        godot_codes::KEY_G => Code::KeyG,
        godot_codes::KEY_H => Code::KeyH,
        godot_codes::KEY_I => Code::KeyI,
        godot_codes::KEY_J => Code::KeyJ,
        godot_codes::KEY_K => Code::KeyK,
        godot_codes::KEY_L => Code::KeyL,
        godot_codes::KEY_M => Code::KeyM,
        godot_codes::KEY_N => Code::KeyN,
        godot_codes::KEY_O => Code::KeyO,
        godot_codes::KEY_P => Code::KeyP,
        godot_codes::KEY_Q => Code::KeyQ,
        godot_codes::KEY_R => Code::KeyR,
        godot_codes::KEY_S => Code::KeyS,
        godot_codes::KEY_T => Code::KeyT,
        godot_codes::KEY_U => Code::KeyU,
        godot_codes::KEY_V => Code::KeyV,
        godot_codes::KEY_W => Code::KeyW,
        godot_codes::KEY_X => Code::KeyX,
        godot_codes::KEY_Y => Code::KeyY,
        godot_codes::KEY_Z => Code::KeyZ,
        godot_codes::KEY_0 => Code::Digit0,
        godot_codes::KEY_1 => Code::Digit1,
        godot_codes::KEY_2 => Code::Digit2,
        godot_codes::KEY_3 => Code::Digit3,
        godot_codes::KEY_4 => Code::Digit4,
        godot_codes::KEY_5 => Code::Digit5,
        godot_codes::KEY_6 => Code::Digit6,
        godot_codes::KEY_7 => Code::Digit7,
        godot_codes::KEY_8 => Code::Digit8,
        godot_codes::KEY_9 => Code::Digit9,
        godot_codes::KEY_SPACE => Code::Space,
        godot_codes::KEY_ENTER => Code::Enter,
        godot_codes::KEY_KP_ENTER => Code::NumpadEnter,
        godot_codes::KEY_TAB => Code::Tab,
        godot_codes::KEY_BACKSPACE => Code::Backspace,
        godot_codes::KEY_ESCAPE => Code::Escape,
        godot_codes::KEY_DELETE => Code::Delete,
        godot_codes::KEY_INSERT => Code::Insert,
        godot_codes::KEY_HOME => Code::Home,
        godot_codes::KEY_END => Code::End,
        godot_codes::KEY_PAGEUP => Code::PageUp,
        godot_codes::KEY_PAGEDOWN => Code::PageDown,
        godot_codes::KEY_LEFT => Code::ArrowLeft,
        godot_codes::KEY_RIGHT => Code::ArrowRight,
        godot_codes::KEY_UP => Code::ArrowUp,
        godot_codes::KEY_DOWN => Code::ArrowDown,
        godot_codes::KEY_F1 => Code::F1,
        godot_codes::KEY_F2 => Code::F2,
        godot_codes::KEY_F3 => Code::F3,
        godot_codes::KEY_F4 => Code::F4,
        godot_codes::KEY_F5 => Code::F5,
        godot_codes::KEY_F6 => Code::F6,
        godot_codes::KEY_F7 => Code::F7,
        godot_codes::KEY_F8 => Code::F8,
        godot_codes::KEY_F9 => Code::F9,
        godot_codes::KEY_F10 => Code::F10,
        godot_codes::KEY_F11 => Code::F11,
        godot_codes::KEY_F12 => Code::F12,
        godot_codes::KEY_SHIFT => Code::ShiftLeft,
        godot_codes::KEY_CTRL => Code::ControlLeft,
        godot_codes::KEY_ALT => Code::AltLeft,
        godot_codes::KEY_META => Code::MetaLeft,
        godot_codes::KEY_CAPSLOCK => Code::CapsLock,
        godot_codes::KEY_NUMLOCK => Code::NumLock,
        godot_codes::KEY_SCROLLLOCK => Code::ScrollLock,
        godot_codes::KEY_MINUS => Code::Minus,
        godot_codes::KEY_EQUAL => Code::Equal,
        godot_codes::KEY_BRACKETLEFT => Code::BracketLeft,
        godot_codes::KEY_BRACKETRIGHT => Code::BracketRight,
        godot_codes::KEY_SEMICOLON => Code::Semicolon,
        godot_codes::KEY_APOSTROPHE => Code::Quote,
        godot_codes::KEY_COMMA => Code::Comma,
        godot_codes::KEY_PERIOD => Code::Period,
        godot_codes::KEY_SLASH => Code::Slash,
        godot_codes::KEY_BACKSLASH => Code::Backslash,
        godot_codes::KEY_QUOTELEFT => Code::Backquote,
        godot_codes::KEY_KP_0 => Code::Numpad0,
        godot_codes::KEY_KP_1 => Code::Numpad1,
        godot_codes::KEY_KP_2 => Code::Numpad2,
        godot_codes::KEY_KP_3 => Code::Numpad3,
        godot_codes::KEY_KP_4 => Code::Numpad4,
        godot_codes::KEY_KP_5 => Code::Numpad5,
        godot_codes::KEY_KP_6 => Code::Numpad6,
        godot_codes::KEY_KP_7 => Code::Numpad7,
        godot_codes::KEY_KP_8 => Code::Numpad8,
        godot_codes::KEY_KP_9 => Code::Numpad9,
        godot_codes::KEY_KP_ADD => Code::NumpadAdd,
        godot_codes::KEY_KP_SUBTRACT => Code::NumpadSubtract,
        godot_codes::KEY_KP_MULTIPLY => Code::NumpadMultiply,
        godot_codes::KEY_KP_DIVIDE => Code::NumpadDivide,
        godot_codes::KEY_KP_PERIOD => Code::NumpadDecimal,
        _ => Code::Unidentified,
    }
}

/// Every Godot physical key with a known code is the key at that code's
/// position.
pub proof fn lemma_code_has_inverse(physical: i32)
    requires
        code_of(physical) != Code::Unidentified,
    ensures
        godot_key_of_code(code_of(physical)) == physical,
{
}

/// Every known code is produced by the Godot key at its position.
pub proof fn lemma_code_is_produced(code: Code)
    requires
        code != Code::Unidentified,
    ensures
        code_of(godot_key_of_code(code)) == code,
{
}

/// The Godot logical key that stands for a named key (0 for `Unidentified`);
/// `Enter` is the main Enter key.
pub open spec fn godot_key_of_named(named: NamedKey) -> i32 {
    match named {
        NamedKey::Enter => godot_codes::KEY_ENTER,
        NamedKey::Tab => godot_codes::KEY_TAB,
        NamedKey::Backspace => godot_codes::KEY_BACKSPACE,
        NamedKey::Escape => godot_codes::KEY_ESCAPE,
        NamedKey::Delete => godot_codes::KEY_DELETE,
        NamedKey::Insert => godot_codes::KEY_INSERT,
        NamedKey::Home => godot_codes::KEY_HOME,
        NamedKey::End => godot_codes::KEY_END,
        NamedKey::PageUp => godot_codes::KEY_PAGEUP,
        NamedKey::PageDown => godot_codes::KEY_PAGEDOWN,
        NamedKey::ArrowLeft => godot_codes::KEY_LEFT,
        NamedKey::ArrowRight => godot_codes::KEY_RIGHT,
        NamedKey::ArrowUp => godot_codes::KEY_UP,
        NamedKey::ArrowDown => godot_codes::KEY_DOWN,
        NamedKey::F1 => godot_codes::KEY_F1,
        NamedKey::F2 => godot_codes::KEY_F2,
        NamedKey::F3 => godot_codes::KEY_F3,
        NamedKey::F4 => godot_codes::KEY_F4,
        NamedKey::F5 => godot_codes::KEY_F5,
        NamedKey::F6 => godot_codes::KEY_F6,
        NamedKey::F7 => godot_codes::KEY_F7,
        NamedKey::F8 => godot_codes::KEY_F8,
        NamedKey::F9 => godot_codes::KEY_F9,
        NamedKey::F10 => godot_codes::KEY_F10,
        NamedKey::F11 => godot_codes::KEY_F11,
        NamedKey::F12 => godot_codes::KEY_F12,
        NamedKey::Shift => godot_codes::KEY_SHIFT,
        NamedKey::Control => godot_codes::KEY_CTRL,
        NamedKey::Alt => godot_codes::KEY_ALT,
        NamedKey::Meta => godot_codes::KEY_META,
        NamedKey::CapsLock => godot_codes::KEY_CAPSLOCK,
        NamedKey::NumLock => godot_codes::KEY_NUMLOCK,
        NamedKey::ScrollLock => godot_codes::KEY_SCROLLLOCK,
        NamedKey::Pause => godot_codes::KEY_PAUSE,
        NamedKey::PrintScreen => godot_codes::KEY_PRINT,
        NamedKey::Unidentified => 0,
    }
}

/// Every Godot logical key with a name is the key for that name, except the
/// keypad Enter, which is named `Enter` like the main Enter key.
pub proof fn lemma_named_key_has_inverse(keycode: i32)
    requires
        named_key_of(keycode) != NamedKey::Unidentified,
    ensures
        keycode == godot_codes::KEY_KP_ENTER ==> named_key_of(keycode) == NamedKey::Enter,
        keycode != godot_codes::KEY_KP_ENTER ==> godot_key_of_named(named_key_of(keycode)) == keycode,
{
}

/// Every named key is produced by the Godot key for that name.
pub proof fn lemma_named_key_is_produced(named: NamedKey)
    requires
        named != NamedKey::Unidentified,
    ensures
        named_key_of(godot_key_of_named(named)) == named,
{
}

/// Two Godot physical keys that map to the same known code are the same key:
/// the physical mapping loses no distinction between the keys it knows.
pub proof fn lemma_code_of_injective(k1: i32, k2: i32)
    requires
        code_of(k1) != Code::Unidentified,
        code_of(k1) == code_of(k2),
    ensures
        k1 == k2,
{
    lemma_code_has_inverse(k1);
    lemma_code_has_inverse(k2);
}

/// The only Godot logical key that yields a character string is the space bar;
/// every other key yields a named key.
pub proof fn lemma_only_space_is_character(keycode: i32)
    ensures
        (key_of(keycode) is Character) <==> keycode == godot_codes::KEY_SPACE,
        key_of(keycode) matches KeyView::Character(text) ==> text == seq![' '],
        !(key_of(keycode) is Character) ==> key_of(keycode) == KeyView::Named(named_key_of(keycode)),
{
}

} // verus!
