//! Ordinals of the Godot engine enums that the web view reads.
//!
//! Godot hands key codes and mouse buttons over as enum ordinals; these are
//! the values of the engine's `Key` and `MouseButton` enums.
use vstd::prelude::*;

verus! {

pub const KEY_ESCAPE: i32 = 4194305;
pub const KEY_TAB: i32 = 4194306;
pub const KEY_BACKSPACE: i32 = 4194308;
pub const KEY_ENTER: i32 = 4194309;
pub const KEY_KP_ENTER: i32 = 4194310;
pub const KEY_INSERT: i32 = 4194311;
pub const KEY_DELETE: i32 = 4194312;
pub const KEY_PAUSE: i32 = 4194313;
pub const KEY_PRINT: i32 = 4194314;
pub const KEY_HOME: i32 = 4194317;
pub const KEY_END: i32 = 4194318;
pub const KEY_LEFT: i32 = 4194319;
pub const KEY_UP: i32 = 4194320;
pub const KEY_RIGHT: i32 = 4194321;
pub const KEY_DOWN: i32 = 4194322;
pub const KEY_PAGEUP: i32 = 4194323;
pub const KEY_PAGEDOWN: i32 = 4194324;
pub const KEY_SHIFT: i32 = 4194325;
pub const KEY_CTRL: i32 = 4194326;
pub const KEY_META: i32 = 4194327;
pub const KEY_ALT: i32 = 4194328;
pub const KEY_CAPSLOCK: i32 = 4194329;
pub const KEY_NUMLOCK: i32 = 4194330;
pub const KEY_SCROLLLOCK: i32 = 4194331;
pub const KEY_F1: i32 = 4194332;
pub const KEY_F2: i32 = 4194333;
pub const KEY_F3: i32 = 4194334;
pub const KEY_F4: i32 = 4194335;
pub const KEY_F5: i32 = 4194336;
pub const KEY_F6: i32 = 4194337;
pub const KEY_F7: i32 = 4194338;
pub const KEY_F8: i32 = 4194339;
pub const KEY_F9: i32 = 4194340;
pub const KEY_F10: i32 = 4194341;
pub const KEY_F11: i32 = 4194342;
pub const KEY_F12: i32 = 4194343;
pub const KEY_KP_MULTIPLY: i32 = 4194433;
pub const KEY_KP_DIVIDE: i32 = 4194434;
pub const KEY_KP_SUBTRACT: i32 = 4194435;
pub const KEY_KP_PERIOD: i32 = 4194436;
pub const KEY_KP_ADD: i32 = 4194437;
pub const KEY_KP_0: i32 = 4194438;
pub const KEY_KP_1: i32 = 4194439;
pub const KEY_KP_2: i32 = 4194440;
pub const KEY_KP_3: i32 = 4194441;
pub const KEY_KP_4: i32 = 4194442;
pub const KEY_KP_5: i32 = 4194443;
pub const KEY_KP_6: i32 = 4194444;
pub const KEY_KP_7: i32 = 4194445;
pub const KEY_KP_8: i32 = 4194446;
pub const KEY_KP_9: i32 = 4194447;
pub const KEY_SPACE: i32 = 32;
pub const KEY_APOSTROPHE: i32 = 39;
pub const KEY_COMMA: i32 = 44;
pub const KEY_MINUS: i32 = 45;
pub const KEY_PERIOD: i32 = 46;
pub const KEY_SLASH: i32 = 47;
pub const KEY_0: i32 = 48;
pub const KEY_1: i32 = 49;
pub const KEY_2: i32 = 50;
pub const KEY_3: i32 = 51;
pub const KEY_4: i32 = 52;
pub const KEY_5: i32 = 53;
pub const KEY_6: i32 = 54;
pub const KEY_7: i32 = 55;
pub const KEY_8: i32 = 56;
pub const KEY_9: i32 = 57;
pub const KEY_SEMICOLON: i32 = 59;
pub const KEY_EQUAL: i32 = 61;
pub const KEY_A: i32 = 65;
pub const KEY_B: i32 = 66;
pub const KEY_C: i32 = 67;
pub const KEY_D: i32 = 68;
pub const KEY_E: i32 = 69;
pub const KEY_F: i32 = 70;
pub const KEY_G: i32 = 71;
pub const KEY_H: i32 = 72;
pub const KEY_I: i32 = 73;
pub const KEY_J: i32 = 74;
pub const KEY_K: i32 = 75;
pub const KEY_L: i32 = 76;
pub const KEY_M: i32 = 77;
pub const KEY_N: i32 = 78;
pub const KEY_O: i32 = 79;
pub const KEY_P: i32 = 80;
pub const KEY_Q: i32 = 81;
pub const KEY_R: i32 = 82;
pub const KEY_S: i32 = 83;
pub const KEY_T: i32 = 84;
pub const KEY_U: i32 = 85;
pub const KEY_V: i32 = 86;
pub const KEY_W: i32 = 87;
pub const KEY_X: i32 = 88;
pub const KEY_Y: i32 = 89;
pub const KEY_Z: i32 = 90;
pub const KEY_BRACKETLEFT: i32 = 91;
pub const KEY_BACKSLASH: i32 = 92;
pub const KEY_BRACKETRIGHT: i32 = 93;
pub const KEY_QUOTELEFT: i32 = 96;

pub const MOUSE_BUTTON_LEFT: i32 = 1;
pub const MOUSE_BUTTON_RIGHT: i32 = 2;
pub const MOUSE_BUTTON_MIDDLE: i32 = 3;
pub const MOUSE_BUTTON_WHEEL_UP: i32 = 4;
pub const MOUSE_BUTTON_WHEEL_DOWN: i32 = 5;
pub const MOUSE_BUTTON_WHEEL_LEFT: i32 = 6;
pub const MOUSE_BUTTON_WHEEL_RIGHT: i32 = 7;
pub const MOUSE_BUTTON_XBUTTON1: i32 = 8;
pub const MOUSE_BUTTON_XBUTTON2: i32 = 9;

} // verus!
