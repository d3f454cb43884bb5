//! Keyboard input events.

use vstd::prelude::*;

verus! {

/// A key press, as delivered by the terminal input layer.
#[derive(Debug, Clone, Copy, PartialEq, Eq, Structural)]
pub enum Key {
    /// The Enter key.
    Enter,
    /// The Escape key.
    Esc,
    /// The up arrow key.
    Up,
    /// The down arrow key.
    Down,
    /// The left arrow key.
    Left,
    /// The right arrow key.
    Right,
    /// The Backspace key.
    Backspace,
    /// A plain character key.
    Char(char),
    /// A character pressed together with Control.
    Ctrl(char),
    /// A character pressed together with Alt.
    Alt(char),
}

} // verus!
