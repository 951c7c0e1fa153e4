use vstd::prelude::*;

verus! {

/// A key as the interactive elements see it.
#[derive(Clone, Copy, Debug, PartialEq, Eq, Structural)]
pub enum Key {
    Char(char),
    Backspace,
    Esc,
    Up,
    Down,
    Other,
}

} // verus!
