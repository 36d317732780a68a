//! The key-mapping table: platform key codes to the GUI library's semantic
//! key identifiers. Total and deterministic; codes with no mapping yield
//! `None` and the translator drops them. Modifier keys themselves are not
//! mapped — they are only folded into the modifier state.

use vstd::prelude::*;

verus! {

/// The GUI library's semantic key identifiers that this bridge emits.
#[derive(Clone, Copy, Debug, PartialEq, Eq, Structural)]
pub enum Key {
    ArrowDown,
    ArrowLeft,
    ArrowRight,
    ArrowUp,
    Escape,
    Tab,
    Backspace,
    Enter,
    Space,
    Insert,
    Delete,
    Home,
    End,
    PageUp,
    PageDown,
    Colon,
    Comma,
    Backslash,
    Slash,
    OpenBracket,
    CloseBracket,
    Backtick,
    Minus,
    Period,
    Plus,
    Equals,
    Semicolon,
    Quote,
    Num0,
    Num1,
    Num2,
    Num3,
    Num4,
    Num5,
    Num6,
    Num7,
    Num8,
    Num9,
    A,
    B,
    C,
    D,
    E,
    F,
    G,
    H,
    I,
    J,
    K,
    L,
    M,
    N,
    O,
    P,
    Q,
    R,
    S,
    T,
    U,
    V,
    W,
    X,
    Y,
    Z,
    F1,
    F2,
    F3,
    F4,
    F5,
    F6,
    F7,
    F8,
    F9,
    F10,
    F11,
    F12,
}

/// The mapping table. Platform key codes are the printable key's character
/// value for character keys, and scancode-derived codes (high bit 0x40000000
/// set) for the rest.
pub open spec fn spec_key_for(code: u32) -> Option<Key> {
    if code == 0x0D { Some(Key::Enter) }               // return
    else if code == 0x1B { Some(Key::Escape) }         // escape
    else if code == 0x08 { Some(Key::Backspace) }      // backspace
    else if code == 0x09 { Some(Key::Tab) }            // tab
    else if code == 0x20 { Some(Key::Space) }          // space
    else if code == 0x27 { Some(Key::Quote) }          // apostrophe
    else if code == 0x2B { Some(Key::Plus) }           // plus
    else if code == 0x2C { Some(Key::Comma) }          // comma
    else if code == 0x2D { Some(Key::Minus) }          // minus
    else if code == 0x2E { Some(Key::Period) }         // period
    else if code == 0x2F { Some(Key::Slash) }          // slash
    else if code == 0x30 { Some(Key::Num0) }
    else if code == 0x31 { Some(Key::Num1) }
    else if code == 0x32 { Some(Key::Num2) }
    else if code == 0x33 { Some(Key::Num3) }
    else if code == 0x34 { Some(Key::Num4) }
    else if code == 0x35 { Some(Key::Num5) }
    else if code == 0x36 { Some(Key::Num6) }
    else if code == 0x37 { Some(Key::Num7) }
    else if code == 0x38 { Some(Key::Num8) }
    else if code == 0x39 { Some(Key::Num9) }
    else if code == 0x3A { Some(Key::Colon) }          // colon
    else if code == 0x3B { Some(Key::Semicolon) }      // semicolon
    else if code == 0x3D { Some(Key::Equals) }         // equals
    else if code == 0x5B { Some(Key::OpenBracket) }    // left bracket
    else if code == 0x5C { Some(Key::Backslash) }      // backslash
    else if code == 0x5D { Some(Key::CloseBracket) }   // right bracket
    else if code == 0x60 { Some(Key::Backtick) }       // grave
    else if code == 0x61 { Some(Key::A) }
    else if code == 0x62 { Some(Key::B) }
    else if code == 0x63 { Some(Key::C) }
    else if code == 0x64 { Some(Key::D) }
    else if code == 0x65 { Some(Key::E) }
    else if code == 0x66 { Some(Key::F) }
    else if code == 0x67 { Some(Key::G) }
    else if code == 0x68 { Some(Key::H) }
    else if code == 0x69 { Some(Key::I) }
    else if code == 0x6A { Some(Key::J) }
    else if code == 0x6B { Some(Key::K) }
    else if code == 0x6C { Some(Key::L) }
    else if code == 0x6D { Some(Key::M) }
    else if code == 0x6E { Some(Key::N) }
    else if code == 0x6F { Some(Key::O) }
    else if code == 0x70 { Some(Key::P) }
    else if code == 0x71 { Some(Key::Q) }
    else if code == 0x72 { Some(Key::R) }
    else if code == 0x73 { Some(Key::S) }
    else if code == 0x74 { Some(Key::T) }
    else if code == 0x75 { Some(Key::U) }
    else if code == 0x76 { Some(Key::V) }
    else if code == 0x77 { Some(Key::W) }
    else if code == 0x78 { Some(Key::X) }
    else if code == 0x79 { Some(Key::Y) }
    else if code == 0x7A { Some(Key::Z) }
    else if code == 0x7F { Some(Key::Delete) }         // delete
    else if code == 0x4000003A { Some(Key::F1) }
    else if code == 0x4000003B { Some(Key::F2) }
    else if code == 0x4000003C { Some(Key::F3) }
    else if code == 0x4000003D { Some(Key::F4) }
    else if code == 0x4000003E { Some(Key::F5) }
    else if code == 0x4000003F { Some(Key::F6) }
    else if code == 0x40000040 { Some(Key::F7) }
    else if code == 0x40000041 { Some(Key::F8) }
    else if code == 0x40000042 { Some(Key::F9) }
    else if code == 0x40000043 { Some(Key::F10) }
    else if code == 0x40000044 { Some(Key::F11) }
    else if code == 0x40000045 { Some(Key::F12) }
    else if code == 0x40000049 { Some(Key::Insert) }   // insert
    else if code == 0x4000004A { Some(Key::Home) }     // home
    else if code == 0x4000004B { Some(Key::PageUp) }   // page up
    else if code == 0x4000004D { Some(Key::End) }      // end
    else if code == 0x4000004E { Some(Key::PageDown) } // page down
    else if code == 0x4000004F { Some(Key::ArrowRight) }
    else if code == 0x40000050 { Some(Key::ArrowLeft) }
    else if code == 0x40000051 { Some(Key::ArrowDown) }
    else if code == 0x40000052 { Some(Key::ArrowUp) }
    else { None }
}

/// Map a platform key code to the GUI library's key, `None` where the code
/// has no mapping.
pub fn key_for(code: u32) -> (r: Option<Key>)
    ensures
        r == spec_key_for(code),
{
    if code == 0x0D { Some(Key::Enter) }
    else if code == 0x1B { Some(Key::Escape) }
    else if code == 0x08 { Some(Key::Backspace) }
    else if code == 0x09 { Some(Key::Tab) }
    else if code == 0x20 { Some(Key::Space) }
    else if code == 0x27 { Some(Key::Quote) }
    else if code == 0x2B { Some(Key::Plus) }
    else if code == 0x2C { Some(Key::Comma) }
    else if code == 0x2D { Some(Key::Minus) }
    else if code == 0x2E { Some(Key::Period) }
    else if code == 0x2F { Some(Key::Slash) }
    else if code == 0x30 { Some(Key::Num0) }
    else if code == 0x31 { Some(Key::Num1) }
    else if code == 0x32 { Some(Key::Num2) }
    else if code == 0x33 { Some(Key::Num3) }
    else if code == 0x34 { Some(Key::Num4) }
    else if code == 0x35 { Some(Key::Num5) }
    else if code == 0x36 { Some(Key::Num6) }
    else if code == 0x37 { Some(Key::Num7) }
    else if code == 0x38 { Some(Key::Num8) }
    else if code == 0x39 { Some(Key::Num9) }
    else if code == 0x3A { Some(Key::Colon) }
    else if code == 0x3B { Some(Key::Semicolon) }
    else if code == 0x3D { Some(Key::Equals) }
    else if code == 0x5B { Some(Key::OpenBracket) }
    else if code == 0x5C { Some(Key::Backslash) }
    else if code == 0x5D { Some(Key::CloseBracket) }
    else if code == 0x60 { Some(Key::Backtick) }
    else if code == 0x61 { Some(Key::A) }
    else if code == 0x62 { Some(Key::B) }
    else if code == 0x63 { Some(Key::C) }
    else if code == 0x64 { Some(Key::D) }
    else if code == 0x65 { Some(Key::E) }
    else if code == 0x66 { Some(Key::F) }
    else if code == 0x67 { Some(Key::G) }
    else if code == 0x68 { Some(Key::H) }
    else if code == 0x69 { Some(Key::I) }
    else if code == 0x6A { Some(Key::J) }
    else if code == 0x6B { Some(Key::K) }
    else if code == 0x6C { Some(Key::L) }
    else if code == 0x6D { Some(Key::M) }
    else if code == 0x6E { Some(Key::N) }
    else if code == 0x6F { Some(Key::O) }
    else if code == 0x70 { Some(Key::P) }
    else if code == 0x71 { Some(Key::Q) }
    else if code == 0x72 { Some(Key::R) }
    else if code == 0x73 { Some(Key::S) }
    else if code == 0x74 { Some(Key::T) }
    else if code == 0x75 { Some(Key::U) }
    else if code == 0x76 { Some(Key::V) }
    else if code == 0x77 { Some(Key::W) }
    else if code == 0x78 { Some(Key::X) }
    else if code == 0x79 { Some(Key::Y) }
    else if code == 0x7A { Some(Key::Z) }
    else if code == 0x7F { Some(Key::Delete) }
    else if code == 0x4000003A { Some(Key::F1) }
    else if code == 0x4000003B { Some(Key::F2) }
    else if code == 0x4000003C { Some(Key::F3) }
    else if code == 0x4000003D { Some(Key::F4) }
    else if code == 0x4000003E { Some(Key::F5) }
    else if code == 0x4000003F { Some(Key::F6) }
    else if code == 0x40000040 { Some(Key::F7) }
    else if code == 0x40000041 { Some(Key::F8) }
    else if code == 0x40000042 { Some(Key::F9) }
    else if code == 0x40000043 { Some(Key::F10) }
    else if code == 0x40000044 { Some(Key::F11) }
    else if code == 0x40000045 { Some(Key::F12) }
    else if code == 0x40000049 { Some(Key::Insert) }
    else if code == 0x4000004A { Some(Key::Home) }
    else if code == 0x4000004B { Some(Key::PageUp) }
    else if code == 0x4000004D { Some(Key::End) }
    else if code == 0x4000004E { Some(Key::PageDown) }
    else if code == 0x4000004F { Some(Key::ArrowRight) }
    else if code == 0x40000050 { Some(Key::ArrowLeft) }
    else if code == 0x40000051 { Some(Key::ArrowDown) }
    else if code == 0x40000052 { Some(Key::ArrowUp) }
    else { None }
}

} // verus!
