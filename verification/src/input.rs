//! The web view's decision on each Godot input event: which event the browser
//! engine receives, and whether the control consumes the Godot event.
use vstd::prelude::*;

use crate::keyboard::{GodotKeyInput, KeyboardInput, is_keyboard_event_for, translate_key_event};
use crate::mouse::{MouseInput, mouse_button_input, translate_mouse_button};

verus! {

/// A Godot input event, as far as the web view reads it.
#[derive(Clone, Copy, Debug, PartialEq, Eq)]
pub enum GodotInput {
    /// A mouse button or wheel event, with the button's ordinal.
    MouseButton { button_index: i32, pressed: bool },
    /// A mouse motion event.
    MouseMotion,
    /// Any other mouse event.
    OtherMouse,
    /// A key event.
    Key(GodotKeyInput),
    /// Any other event (touch, joypad, action, ...).
    Other,
}

/// An event for the browser engine.
#[derive(Debug)]
pub enum WebInput {
    Mouse(MouseInput),
    Keyboard(KeyboardInput),
}

/// What the web view does with a Godot input event.
#[derive(Debug)]
pub struct InputDecision {
    /// The event sent to the browser engine, if any.
    pub event: Option<WebInput>,
    /// Whether the control marks the Godot event as handled.
    pub accept: bool,
}

/// Whether the web view consumes a Godot input event: mouse and key events
/// are consumed, all others are left to the rest of the scene.
pub open spec fn accepts(input: GodotInput) -> bool {
    !(input is Other)
}

/// Decides what a Godot input event becomes: a mouse button or wheel event, a
/// pointer move, or a keyboard event; other mouse events are consumed and send
/// nothing, and other events are neither consumed nor sent.
pub fn translate_input(input: GodotInput) -> (decision: InputDecision)
    ensures
        decision.accept == accepts(input),
        decision.accept <==> !(input is Other),
        match input {
            GodotInput::MouseButton { button_index, pressed } => decision.event == Some(
                WebInput::Mouse(mouse_button_input(button_index, pressed)),
            ),
            GodotInput::MouseMotion => decision.event == Some(WebInput::Mouse(MouseInput::Move)),
            GodotInput::OtherMouse => decision.event is None,
            GodotInput::Key(key) => match decision.event {
                Some(WebInput::Keyboard(k)) => is_keyboard_event_for(key, k),
                _ => false,
            },
            GodotInput::Other => decision.event is None,
        },
{
    match input {
        GodotInput::MouseButton { button_index, pressed } => InputDecision {
            event: Some(WebInput::Mouse(translate_mouse_button(button_index, pressed))),
            accept: true,
        },
        GodotInput::MouseMotion => InputDecision {
            event: Some(WebInput::Mouse(MouseInput::Move)),
            accept: true,
        },
        GodotInput::OtherMouse => InputDecision { event: None, accept: true },
        GodotInput::Key(key) => InputDecision {
            event: Some(WebInput::Keyboard(translate_key_event(&key))),
            accept: true,
        },
        GodotInput::Other => InputDecision { event: None, accept: false },
    }
}

} // verus!
