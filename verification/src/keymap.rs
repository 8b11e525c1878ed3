//! The key-event table: recognized window keys map to device key codes,
//! plus one manual-reload key that only marks the mirrored image stale.
//! Any other key is ignored.

use vstd::prelude::*;

verus! {

/// A key press in the window, already classified by the window layer.
#[derive(Clone, Copy, Debug, PartialEq, Eq, Structural)]
pub enum Key {
    /// Manual-reload key: re-capture without sending anything to the device.
    Reload,
    /// Device "back" key.
    Back,
    /// Device "menu" key.
    Menu,
    /// Directional pad up.
    DpadUp,
    /// Directional pad down.
    DpadDown,
    /// Directional pad left.
    DpadLeft,
    /// Directional pad right.
    DpadRight,
    /// Any key outside the table; ignored.
    Other,
}

/// Device key code for "back".
pub const CODE_BACK: usize = 4;

/// Device key code for "menu".
pub const CODE_MENU: usize = 82;

/// Device key code for "directional pad up".
pub const CODE_DPAD_UP: usize = 19;

/// Device key code for "directional pad down".
pub const CODE_DPAD_DOWN: usize = 20;

/// Device key code for "directional pad left".
pub const CODE_DPAD_LEFT: usize = 21;

/// Device key code for "directional pad right".
pub const CODE_DPAD_RIGHT: usize = 22;

/// The device key code a key sends, if any. The reload key and unrecognized
/// keys send nothing.
pub open spec fn key_code_spec(k: Key) -> Option<usize> {
    match k {
        Key::Reload => None,
        Key::Back => Some(CODE_BACK),
        Key::Menu => Some(CODE_MENU),
        Key::DpadUp => Some(CODE_DPAD_UP),
        Key::DpadDown => Some(CODE_DPAD_DOWN),
        Key::DpadLeft => Some(CODE_DPAD_LEFT),
        Key::DpadRight => Some(CODE_DPAD_RIGHT),
        Key::Other => None,
    }
}

/// Whether a key press marks the mirrored image stale: every key in the
/// table does, including the reload key; unrecognized keys do not.
pub open spec fn key_triggers_refresh(k: Key) -> bool {
    !(k is Other)
}

/// Looks a key up in the table.
pub fn key_code(k: &Key) -> (r: Option<usize>)
    ensures
        r == key_code_spec(*k),
{
    match k {
        Key::Reload => None,
        Key::Back => Some(CODE_BACK),
        Key::Menu => Some(CODE_MENU),
        Key::DpadUp => Some(CODE_DPAD_UP),
        Key::DpadDown => Some(CODE_DPAD_DOWN),
        Key::DpadLeft => Some(CODE_DPAD_LEFT),
        Key::DpadRight => Some(CODE_DPAD_RIGHT),
        Key::Other => None,
    }
}

} // verus!
