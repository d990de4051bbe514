//! Terminal geometry as plain values: a size and a cell position.

use vstd::prelude::*;

verus! {

#[derive(Debug, Clone, Copy, PartialEq, Eq, Structural)]
pub struct TerminalSize {
    pub width: u16,
    pub height: u16,
}

impl TerminalSize {
    pub fn new(width: u16, height: u16) -> (r: Self)
        ensures
            r == (TerminalSize { width, height }),
    {
        Self { width, height }
    }
}

#[derive(Debug, Clone, Copy, PartialEq, Eq, Structural)]
pub struct TerminalPosition {
    pub col: u16,
    pub row: u16,
}

impl TerminalPosition {
    pub fn new(col: u16, row: u16) -> (r: Self)
        ensures
            r == (TerminalPosition { col, row }),
    {
        Self { col, row }
    }
}

} // verus!
