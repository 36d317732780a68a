//! Input and frame bridge between a native windowing backend and an
//! immediate-mode GUI library.
//!
//! The library owns the translation logic only: platform events are handed in
//! as plain values, normalized UI events accumulate in a pending buffer, and
//! the per-frame begin/end lifecycle decides what the caller must push to the
//! GUI library and which platform side effects (clipboard writes, cursor
//! changes) to perform. All actual windowing, clipboard and GUI calls live
//! with the caller.

use vstd::prelude::*;

pub mod input;
pub mod keymap;
pub mod modifiers;
pub mod output;
pub mod platform;

verus! {

/// The one error this library surfaces: creating a platform cursor resource
/// failed. The payload is the platform's own message.
#[derive(Debug)]
pub enum Error {
    Sdl(String),
}

impl Error {
    /// The platform's message, for display by the caller.
    pub fn message(self) -> (r: String)
        ensures
            self matches Error::Sdl(m) && r == m,
    {
        match self {
            Error::Sdl(m) => m,
        }
    }
}

} // verus!
