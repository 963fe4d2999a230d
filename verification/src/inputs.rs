//! The key model: what the presentation layer hands the engine when the
//! user presses something.  Only the value matters here; decoding terminal
//! events into these values happens outside the library.

use vstd::prelude::*;

verus! {

/// One key press, as plain data.
#[derive(Clone, Copy, Debug, PartialEq, Eq, Structural)]
pub enum Key {
    Enter,
    Left,
    Right,
    Up,
    Down,
    /// A printable character.
    Char(char),
    /// A character pressed together with control.
    Ctrl(char),
    /// Anything the presentation layer does not decode.
    Unknown,
}

} // verus!
