//! Decoding of the platform's raw keyboard-modifier bitmask into the GUI
//! library's modifier model.

use vstd::prelude::*;

verus! {

/// Bits of the platform's keyboard-modifier mask.
pub const KMOD_LSHIFT: u16 = 0x0001;
pub const KMOD_RSHIFT: u16 = 0x0002;
pub const KMOD_LCTRL: u16 = 0x0040;
pub const KMOD_RCTRL: u16 = 0x0080;
pub const KMOD_LALT: u16 = 0x0100;
pub const KMOD_RALT: u16 = 0x0200;
pub const KMOD_LGUI: u16 = 0x0400;
pub const KMOD_RGUI: u16 = 0x0800;

/// Modifier-key state as the GUI library understands it, decoded from the
/// platform's raw bitmask on every key event.
#[derive(Clone, Copy, Debug, PartialEq, Eq, Structural)]
pub struct Modifiers {
    pub alt: bool,
    pub ctrl: bool,
    pub shift: bool,
    /// The left platform-meta (GUI) key.
    pub mac_cmd: bool,
    /// The cross-platform "primary" modifier: left ctrl or left meta.
    pub command: bool,
}

impl Modifiers {
    /// The state with no modifier active; attached to scroll events, which
    /// deliberately carry no modifiers.
    pub open spec fn spec_none() -> Modifiers {
        Modifiers { alt: false, ctrl: false, shift: false, mac_cmd: false, command: false }
    }

    /// Construct the all-inactive modifier state.
    pub fn none() -> (r: Modifiers)
        ensures
            r == Modifiers::spec_none(),
    {
        Modifiers { alt: false, ctrl: false, shift: false, mac_cmd: false, command: false }
    }
}

/// The decoding rules: alt is either alt key, ctrl is either ctrl key, shift
/// is either shift key, mac_cmd is the left meta key, and command is left
/// ctrl or left meta.
pub open spec fn spec_decode_modifiers(keymod: u16) -> Modifiers {
    Modifiers {
        alt: (keymod & KMOD_LALT) != 0 || (keymod & KMOD_RALT) != 0,
        ctrl: (keymod & KMOD_LCTRL) != 0 || (keymod & KMOD_RCTRL) != 0,
        shift: (keymod & KMOD_LSHIFT) != 0 || (keymod & KMOD_RSHIFT) != 0,
        mac_cmd: (keymod & KMOD_LGUI) != 0,
        command: (keymod & KMOD_LCTRL) != 0 || (keymod & KMOD_LGUI) != 0,
    }
}

/// Decode the raw modifier bitmask; shared by the key-down and key-up paths.
pub fn decode_modifiers(keymod: u16) -> (r: Modifiers)
    ensures
        r == spec_decode_modifiers(keymod),
{
    Modifiers {
        alt: (keymod & KMOD_LALT) != 0 || (keymod & KMOD_RALT) != 0,
        ctrl: (keymod & KMOD_LCTRL) != 0 || (keymod & KMOD_RCTRL) != 0,
        shift: (keymod & KMOD_LSHIFT) != 0 || (keymod & KMOD_RSHIFT) != 0,
        mac_cmd: (keymod & KMOD_LGUI) != 0,
        command: (keymod & KMOD_LCTRL) != 0 || (keymod & KMOD_LGUI) != 0,
    }
}

} // verus!
