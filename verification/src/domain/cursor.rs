//! A cursor position whose movements are total: each one clamps silently at
//! the boundary instead of reporting it.

use vstd::prelude::*;

verus! {

#[derive(Debug, Clone, PartialEq, Eq, Structural)]
pub struct CursorPosition {
    pub row: usize,
    pub col: usize,
}

impl CursorPosition {
    pub fn new(row: usize, col: usize) -> (r: Self)
        ensures
            r == (CursorPosition { row, col }),
    {
        Self { row, col }
    }

    /// One column right, stopping at the line's length.
    pub fn move_right(&mut self, line_length: usize)
        ensures
            final(self).row == old(self).row,
            final(self).col == if old(self).col < line_length {
                old(self).col + 1
            } else {
                old(self).col as int
            },
    {
        if self.col < line_length {
            self.col = self.col + 1;
        }
    }

    /// One column left, stopping at the start of the line.
    pub fn move_left(&mut self)
        ensures
            final(self).row == old(self).row,
            final(self).col == if old(self).col > 0 {
                old(self).col - 1
            } else {
                0int
            },
    {
        if self.col > 0 {
            self.col = self.col - 1;
        }
    }

    /// One row up, stopping at the first line.
    pub fn move_up(&mut self)
        ensures
            final(self).col == old(self).col,
            final(self).row == if old(self).row > 0 {
                old(self).row - 1
            } else {
                0int
            },
    {
        if self.row > 0 {
            self.row = self.row - 1;
        }
    }

    /// One row down, stopping at the last of `buffer_height` lines.
    pub fn move_down(&mut self, buffer_height: usize)
        ensures
            final(self).col == old(self).col,
            final(self).row == if buffer_height > 0 && old(self).row < buffer_height - 1 {
                old(self).row + 1
            } else {
                old(self).row as int
            },
    {
        if buffer_height > 0 && self.row < buffer_height - 1 {
            self.row = self.row + 1;
        }
    }

    pub fn move_to_line_start(&mut self)
        ensures
            final(self).row == old(self).row,
            final(self).col == 0,
    {
        self.col = 0;
    }

    pub fn move_to_line_end(&mut self, line_length: usize)
        ensures
            final(self).row == old(self).row,
            final(self).col == line_length,
    {
        self.col = line_length;
    }

    pub fn move_to_buffer_start(&mut self)
        ensures
            final(self).row == 0,
            final(self).col == 0,
    {
        self.row = 0;
        self.col = 0;
    }

    /// The last line and the given column; with no lines at all the position
    /// stays where it was.
    pub fn move_to_buffer_end(&mut self, buffer_height: usize, last_line_length: usize)
        ensures
            buffer_height > 0 ==> final(self).row == buffer_height - 1 && final(self).col
                == last_line_length,
            buffer_height == 0 ==> *final(self) == *old(self),
    {
        if buffer_height > 0 {
            self.row = buffer_height - 1;
            self.col = last_line_length;
        }
    }
}

} // verus!
