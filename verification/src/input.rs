//! The input side of the bridge: plain-value platform events coming in, and
//! the normalized UI events that the translator accumulates for the GUI
//! library.
//!
//! Coordinates. Physical positions arrive in whole pixels. Logical positions
//! are kept in hundredths of a logical point, so that DPI scales such as 1.25
//! or 1.5 divide without loss. The scale factor itself is carried as
//! pixels-per-point in hundredths (`100` means one pixel per point).

use vstd::prelude::*;
use crate::keymap::Key;
use crate::modifiers::Modifiers;

verus! {

/// A logical position, both axes in hundredths of a point.
#[derive(Clone, Copy, Debug, PartialEq, Eq, Structural)]
pub struct Pos {
    pub x: u64,
    pub y: u64,
}

impl Pos {
    /// The origin.
    pub open spec fn spec_zero() -> Pos {
        Pos { x: 0, y: 0 }
    }

    /// Construct the origin.
    pub fn zero() -> (r: Pos)
        ensures
            r == Pos::spec_zero(),
    {
        Pos { x: 0, y: 0 }
    }
}

/// Physical pixels to hundredths of a logical point: the physical value
/// divided by the scale factor, where `scale_centi` is pixels-per-point in
/// hundredths. The division floors.
pub open spec fn spec_to_logical(phys: u32, scale_centi: u32) -> int {
    (phys as int) * 10000 / (scale_centi as int)
}

/// Convert a physical pixel coordinate to hundredths of a logical point.
pub fn to_logical(phys: u32, scale_centi: u32) -> (r: u64)
    requires
        1 <= scale_centi,
    ensures
        r == spec_to_logical(phys, scale_centi),
{
    (phys as u64) * 10000 / (scale_centi as u64)
}

/// The platform's mouse buttons as they arrive in a button event.
#[derive(Clone, Copy, Debug, PartialEq, Eq, Structural)]
pub enum MouseButton {
    Left,
    Middle,
    Right,
    X1,
    X2,
    Unknown,
}

/// The GUI library's pointer buttons. Platform buttons beyond these three
/// produce no event.
#[derive(Clone, Copy, Debug, PartialEq, Eq, Structural)]
pub enum PointerButton {
    Primary,
    Secondary,
    Middle,
}

/// The button mapping: left, middle and right are forwarded, anything else
/// is dropped.
pub open spec fn spec_map_button(b: MouseButton) -> Option<PointerButton> {
    match b {
        MouseButton::Left => Some(PointerButton::Primary),
        MouseButton::Middle => Some(PointerButton::Middle),
        MouseButton::Right => Some(PointerButton::Secondary),
        _ => None,
    }
}

/// Map a platform mouse button to the GUI library's pointer button.
pub fn map_button(b: MouseButton) -> (r: Option<PointerButton>)
    ensures
        r == spec_map_button(b),
{
    match b {
        MouseButton::Left => Some(PointerButton::Primary),
        MouseButton::Middle => Some(PointerButton::Middle),
        MouseButton::Right => Some(PointerButton::Secondary),
        _ => None,
    }
}

/// How many hundredths of a point one hundredth of a wheel notch scrolls:
/// the fixed 32-points-per-notch multiplier of the scroll path.
pub const SCROLL_POINTS_PER_NOTCH: i64 = 32;

/// A discrete platform event, reduced to the plain values the translator
/// reads. Wheel deltas arrive in hundredths of a notch; motion positions in
/// whole physical pixels; key events carry the raw key code (if any) and the
/// raw modifier bitmask.
#[derive(Debug, PartialEq)]
#[allow(inconsistent_fields)]
pub enum PlatformEvent {
    WindowResized { width: u32, height: u32 },
    MouseButtonDown { button: MouseButton },
    MouseButtonUp { button: MouseButton },
    MouseMotion { x: u32, y: u32 },
    MouseWheel { x: i32, y: i32 },
    KeyDown { keycode: Option<u32>, keymod: u16 },
    KeyUp { keycode: Option<u32>, keymod: u16 },
    TextInput { text: String },
    Other,
}

/// A normalized UI event, accumulated in arrival order and replayed to the
/// GUI library at frame begin. Scroll deltas are in hundredths of a point.
#[derive(Debug, PartialEq)]
pub enum UiEvent {
    PointerMoved { pos: Pos },
    PointerButton { pos: Pos, button: PointerButton, pressed: bool, modifiers: Modifiers },
    MouseWheel { delta_x: i64, delta_y: i64, modifiers: Modifiers },
    Key { key: Key, pressed: bool, modifiers: Modifiers },
    Text { text: String },
    Copy,
    Cut,
    Paste { text: String },
}

} // verus!
