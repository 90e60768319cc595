//! Input, cursor and resource decisions for a Servo web view embedded in Godot.

pub mod godot_codes;
pub mod keys;
pub mod keyboard;
pub mod mouse;
pub mod input;
pub mod cursor;
pub mod text;
pub mod url_input;
pub mod events;
pub mod resource;
pub mod frame;
