//! Translation of Godot mouse events into pointer events for the browser engine.
//!
//! Positions and the wheel's scroll factor are floating-point values that the
//! caller attaches; this module decides which event is sent.
use vstd::prelude::*;

use crate::godot_codes;

verus! {

/// Pixels scrolled per unit of a wheel event's factor.
pub const WHEEL_STEP_PIXELS: u32 = 16;

/// A mouse button as the browser engine names it.
#[derive(Clone, Copy, Debug, PartialEq, Eq, Structural)]
pub enum PointerButton {
    Left,
    Middle,
    Right,
    Back,
    Forward,
    Other(u16),
}

/// Whether a mouse button went down or up.
#[derive(Clone, Copy, Debug, PartialEq, Eq, Structural)]
pub enum ButtonAction {
    Down,
    Up,
}

/// The pointer event to send, without its position.
#[derive(Clone, Copy, Debug, PartialEq, Eq, Structural)]
pub enum MouseInput {
    /// A wheel step; each axis is -1, 0 or 1 and is scaled by the event's factor
    /// times [`WHEEL_STEP_PIXELS`].
    Wheel { horizontal: i8, vertical: i8 },
    /// A button going down or up.
    Button { action: ButtonAction, button: PointerButton },
    /// The pointer moving.
    Move,
}

/// Whether a Godot mouse button ordinal is one of the four wheel directions.
pub open spec fn is_wheel_button(button_index: i32) -> bool {
    button_index == godot_codes::MOUSE_BUTTON_WHEEL_UP || button_index
        == godot_codes::MOUSE_BUTTON_WHEEL_DOWN || button_index
        == godot_codes::MOUSE_BUTTON_WHEEL_LEFT || button_index
        == godot_codes::MOUSE_BUTTON_WHEEL_RIGHT
}

/// Horizontal direction of a wheel button: left scrolls by +1, right by -1.
pub open spec fn wheel_horizontal(button_index: i32) -> int {
    if button_index == godot_codes::MOUSE_BUTTON_WHEEL_LEFT {
        1
    } else if button_index == godot_codes::MOUSE_BUTTON_WHEEL_RIGHT {
        -1
    } else {
        0
    }
}

/// Vertical direction of a wheel button: up scrolls by +1, down by -1.
pub open spec fn wheel_vertical(button_index: i32) -> int {
    if button_index == godot_codes::MOUSE_BUTTON_WHEEL_UP {
        1
    } else if button_index == godot_codes::MOUSE_BUTTON_WHEEL_DOWN {
        -1
    } else {
        0
    }
}

/// The browser's name for a Godot (non-wheel) mouse button ordinal.
pub open spec fn pointer_button_of(button_index: i32) -> PointerButton {
    if button_index == godot_codes::MOUSE_BUTTON_LEFT {
        PointerButton::Left
    } else if button_index == godot_codes::MOUSE_BUTTON_MIDDLE {
        PointerButton::Middle
    } else if button_index == godot_codes::MOUSE_BUTTON_RIGHT {
        PointerButton::Right
    } else if button_index == godot_codes::MOUSE_BUTTON_XBUTTON1 {
        PointerButton::Back
    } else if button_index == godot_codes::MOUSE_BUTTON_XBUTTON2 {
        PointerButton::Forward
    } else {
        PointerButton::Other(0)
    }
}

/// The pointer event for a Godot mouse button event.
pub open spec fn mouse_button_input(button_index: i32, pressed: bool) -> MouseInput {
    if is_wheel_button(button_index) {
        MouseInput::Wheel {
            horizontal: wheel_horizontal(button_index) as i8,
            vertical: wheel_vertical(button_index) as i8,
        }
    } else {
        MouseInput::Button {
            action: if pressed {
                ButtonAction::Down
            } else {
                ButtonAction::Up
            },
            button: pointer_button_of(button_index),
        }
    }
}

/// Maps a Godot (non-wheel) mouse button ordinal to the browser's button.
pub fn godot_button_to_pointer_button(button_index: i32) -> (button: PointerButton)
    ensures
        button == pointer_button_of(button_index),
{
    match button_index {
        godot_codes::MOUSE_BUTTON_LEFT => PointerButton::Left,
        godot_codes::MOUSE_BUTTON_MIDDLE => PointerButton::Middle,
        godot_codes::MOUSE_BUTTON_RIGHT => PointerButton::Right,
        godot_codes::MOUSE_BUTTON_XBUTTON1 => PointerButton::Back,
        godot_codes::MOUSE_BUTTON_XBUTTON2 => PointerButton::Forward,
        _ => PointerButton::Other(0),
    }
}

/// Translates a Godot mouse button event: a wheel button gives a wheel step in
/// its direction, any other button a button event.
pub fn translate_mouse_button(button_index: i32, pressed: bool) -> (input: MouseInput)
    ensures
        input == mouse_button_input(button_index, pressed),
        !is_wheel_button(button_index) ==> (input matches MouseInput::Button { action, button }
            && (action == ButtonAction::Down <==> pressed) && button == pointer_button_of(
            button_index,
        )),
        is_wheel_button(button_index) ==> (input matches MouseInput::Wheel { horizontal, vertical }
            && (vertical == 1 <==> button_index == godot_codes::MOUSE_BUTTON_WHEEL_UP) && (vertical
            == -1 <==> button_index == godot_codes::MOUSE_BUTTON_WHEEL_DOWN) && (horizontal == 1
            <==> button_index == godot_codes::MOUSE_BUTTON_WHEEL_LEFT) && (horizontal == -1
            <==> button_index == godot_codes::MOUSE_BUTTON_WHEEL_RIGHT)),
{
    match button_index {
        godot_codes::MOUSE_BUTTON_WHEEL_UP | godot_codes::MOUSE_BUTTON_WHEEL_DOWN
        | godot_codes::MOUSE_BUTTON_WHEEL_LEFT | godot_codes::MOUSE_BUTTON_WHEEL_RIGHT => {
            let horizontal: i8 = match button_index {
                godot_codes::MOUSE_BUTTON_WHEEL_LEFT => 1,
                godot_codes::MOUSE_BUTTON_WHEEL_RIGHT => -1,
                _ => 0,
            };
            let vertical: i8 = match button_index {
                godot_codes::MOUSE_BUTTON_WHEEL_UP => 1,
                godot_codes::MOUSE_BUTTON_WHEEL_DOWN => -1,
                _ => 0,
            };
            MouseInput::Wheel { horizontal, vertical }
        },
        _ => {
            let action = if pressed {
                ButtonAction::Down
            } else {
                ButtonAction::Up
            };
            MouseInput::Button { action, button: godot_button_to_pointer_button(button_index) }
        },
    }
}

/// A wheel step scrolls along exactly one axis, by one unit: up and left
/// forward, down and right backward.
pub proof fn lemma_wheel_scrolls_one_axis(button_index: i32)
    requires
        is_wheel_button(button_index),
    ensures
        (wheel_horizontal(button_index) == 0) != (wheel_vertical(button_index) == 0),
        -1 <= wheel_horizontal(button_index) <= 1,
        -1 <= wheel_vertical(button_index) <= 1,
        wheel_vertical(button_index) == 1 <==> button_index == godot_codes::MOUSE_BUTTON_WHEEL_UP,
        wheel_vertical(button_index) == -1 <==> button_index
            == godot_codes::MOUSE_BUTTON_WHEEL_DOWN,
        wheel_horizontal(button_index) == 1 <==> button_index
            == godot_codes::MOUSE_BUTTON_WHEEL_LEFT,
        wheel_horizontal(button_index) == -1 <==> button_index
            == godot_codes::MOUSE_BUTTON_WHEEL_RIGHT,
{
}

/// A (non-wheel) button event goes down exactly when the button is pressed,
/// whichever the button: pressing and releasing the same button give the same
/// button with opposite actions.
pub proof fn lemma_button_action_follows_pressed(button_index: i32, pressed: bool)
    requires
        !is_wheel_button(button_index),
    ensures
        mouse_button_input(button_index, pressed) matches MouseInput::Button { action, button }
            && (action == ButtonAction::Down <==> pressed) && (action == ButtonAction::Up
            <==> !pressed),
        mouse_button_input(button_index, true) matches MouseInput::Button { button: b1, .. }
            && mouse_button_input(button_index, false) matches MouseInput::Button {
            button: b2,
            ..
        } && b1 == b2,
{
}

/// The Godot mouse button for a pointer button (0 for `Other`).
pub open spec fn godot_button_of(button: PointerButton) -> i32 {
    match button {
        PointerButton::Left => godot_codes::MOUSE_BUTTON_LEFT,
        PointerButton::Middle => godot_codes::MOUSE_BUTTON_MIDDLE,
        PointerButton::Right => godot_codes::MOUSE_BUTTON_RIGHT,
        PointerButton::Back => godot_codes::MOUSE_BUTTON_XBUTTON1,
        PointerButton::Forward => godot_codes::MOUSE_BUTTON_XBUTTON2,
        PointerButton::Other(_) => 0,
    }
}

/// Every known Godot button is the button for its pointer button, and every
/// pointer button other than `Other` comes from its Godot button.
pub proof fn lemma_pointer_button_round_trip(button_index: i32, button: PointerButton)
    ensures
        !(pointer_button_of(button_index) is Other) ==> godot_button_of(
            pointer_button_of(button_index),
        ) == button_index,
        !(button is Other) ==> pointer_button_of(godot_button_of(button)) == button,
        pointer_button_of(button_index) is Other ==> pointer_button_of(button_index)
            == PointerButton::Other(0),
{
}

} // verus!
