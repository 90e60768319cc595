//! Per-frame decisions of the web view and of the browser manager.
use vstd::prelude::*;

verus! {

/// Width of the browser's headless window before any control is laid out.
pub const DEFAULT_WINDOW_WIDTH: u32 = 800;

/// Height of the browser's headless window before any control is laid out.
pub const DEFAULT_WINDOW_HEIGHT: u32 = 600;

/// How the browser engine is woken on a frame.
#[derive(Clone, Copy, Debug, PartialEq, Eq, Structural)]
pub enum WakeAction {
    /// Run the engine's event loop now.
    Wake,
    /// Run it only if it has work pending.
    WakeIfNeeded,
}

/// Chooses how to wake the browser engine on a frame: a page that is animating
/// is always woken, any other only when the engine has work pending.
pub fn frame_wake_action(animating: bool) -> (action: WakeAction)
    ensures
        action == (if animating {
            WakeAction::Wake
        } else {
            WakeAction::WakeIfNeeded
        }),
{
    if animating {
        WakeAction::Wake
    } else {
        WakeAction::WakeIfNeeded
    }
}

} // verus!
