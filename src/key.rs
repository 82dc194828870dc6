use vstd::prelude::*;

verus! {

/// A key press as a terminal reports it: the identity by which a keymap
/// dispatches input.
#[derive(Clone, Copy, Debug, PartialEq, Eq, Hash, Structural)]
pub enum Key {
    Backspace,
    Left,
    Right,
    Up,
    Down,
    Home,
    End,
    PageUp,
    PageDown,
    BackTab,
    Delete,
    Insert,
    /// A function key, numbered from 1.
    F(u8),
    /// A plain character; Enter arrives as `'\n'`.
    Char(char),
    /// A character pressed with Alt.
    Alt(char),
    /// A character pressed with Ctrl.
    Ctrl(char),
    Null,
    Esc,
}

} // verus!
