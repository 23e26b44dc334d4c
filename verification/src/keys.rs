use vstd::prelude::*;

verus! {

/// A key as the engine and the shell read it.
#[derive(Clone, Copy, PartialEq, Eq, Structural, Debug)]
pub enum Key {
    Up,
    Down,
    Left,
    Right,
    Esc,
    Char(char),
    Other,
}

/// A key press: the key, and whether Control, and nothing else, was held with
/// it.
#[derive(Clone, Copy, PartialEq, Eq, Structural, Debug)]
pub struct KeyPress {
    pub key: Key,
    pub control: bool,
}

} // verus!
