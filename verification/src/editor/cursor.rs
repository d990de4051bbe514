//! A cursor position with boundary-reporting movement.
//!
//! Every movement either succeeds, or reports the boundary it ran into and
//! leaves the position unchanged. The companion column-clamping step,
//! [`Position::clamp_to_line`], is applied after any command that may have
//! changed the active line or row.

use vstd::prelude::*;

use crate::error::EditorError;

verus! {

#[derive(Debug, Clone, Copy, PartialEq, Eq, Structural)]
pub struct Position {
    pub row: usize,
    pub col: usize,
}

/// `n + 1`, stopping at the top of `usize` instead of wrapping.
pub open spec fn spec_inc(n: usize) -> usize {
    if n < usize::MAX {
        (n + 1) as usize
    } else {
        n
    }
}

impl Position {
    pub fn new(row: usize, col: usize) -> (r: Self)
        ensures
            r == (Position { row, col }),
    {
        Self { row, col }
    }

    pub fn origin() -> (r: Self)
        ensures
            r == (Position { row: 0usize, col: 0usize }),
    {
        Self { row: 0, col: 0 }
    }

    /// One column to the right, bounded by the current line's length.
    pub fn move_right(&mut self, line_length: usize) -> (r: Result<(), EditorError>)
        ensures
            old(self).col < line_length ==> r is Ok && final(self).row == old(self).row
                && final(self).col == old(self).col + 1,
            old(self).col >= line_length ==> *final(self) == *old(self) && (r matches Err(
                EditorError::OutOfBounds { row, col },
            ) && row == old(self).row && col == spec_inc(old(self).col)),
    {
        if self.col < line_length {
            self.col = self.col + 1;
            Ok(())
        } else {
            let next: usize = if self.col < usize::MAX {
                self.col + 1
            } else {
                self.col
            };
            Err(EditorError::out_of_bounds(self.row, next))
        }
    }

    /// One column to the left, stopping at the start of the line.
    pub fn move_left(&mut self) -> (r: Result<(), EditorError>)
        ensures
            old(self).col > 0 ==> r is Ok && final(self).row == old(self).row && final(self).col
                == old(self).col - 1,
            old(self).col == 0 ==> *final(self) == *old(self) && (r matches Err(
                EditorError::OutOfBounds { row, col },
            ) && row == old(self).row && col == 0),
    {
        if self.col > 0 {
            self.col = self.col - 1;
            Ok(())
        } else {
            Err(EditorError::out_of_bounds(self.row, 0))
        }
    }

    /// One row down, bounded by the number of lines.
    pub fn move_down(&mut self, total_lines: usize) -> (r: Result<(), EditorError>)
        ensures
            old(self).row + 1 < total_lines ==> r is Ok && final(self).row == old(self).row + 1
                && final(self).col == old(self).col,
            old(self).row + 1 >= total_lines ==> *final(self) == *old(self) && (r matches Err(
                EditorError::OutOfBounds { row, col },
            ) && row == spec_inc(old(self).row) && col == old(self).col),
    {
        if total_lines > 0 && self.row < total_lines - 1 {
            self.row = self.row + 1;
            Ok(())
        } else {
            let next: usize = if self.row < usize::MAX {
                self.row + 1
            } else {
                self.row
            };
            Err(EditorError::out_of_bounds(next, self.col))
        }
    }

    /// One row up, stopping at the first line.
    pub fn move_up(&mut self) -> (r: Result<(), EditorError>)
        ensures
            old(self).row > 0 ==> r is Ok && final(self).row == old(self).row - 1
                && final(self).col == old(self).col,
            old(self).row == 0 ==> *final(self) == *old(self) && (r matches Err(
                EditorError::OutOfBounds { row, col },
            ) && row == 0 && col == old(self).col),
    {
        if self.row > 0 {
            self.row = self.row - 1;
            Ok(())
        } else {
            Err(EditorError::out_of_bounds(0, self.col))
        }
    }

    pub fn move_to_line_start(&mut self)
        ensures
            final(self).row == old(self).row,
            final(self).col == 0,
    {
        self.col = 0;
    }

    pub fn move_to_line_end(&mut self, line_length: usize)
        ensures
            final(self).row == old(self).row,
            final(self).col == line_length,
    {
        self.col = line_length;
    }

    pub fn move_to_buffer_start(&mut self)
        ensures
            *final(self) == (Position { row: 0usize, col: 0usize }),
    {
        self.row = 0;
        self.col = 0;
    }

    /// The last line, at a column equal to that line's length; the origin
    /// when there are no lines at all.
    pub fn move_to_buffer_end(&mut self, total_lines: usize, last_line_length: usize)
        ensures
            total_lines > 0 ==> final(self).row == total_lines - 1 && final(self).col
                == last_line_length,
            total_lines == 0 ==> *final(self) == (Position { row: 0usize, col: 0usize }),
    {
        if total_lines > 0 {
            self.row = total_lines - 1;
            self.col = last_line_length;
        } else {
            self.row = 0;
            self.col = 0;
        }
    }

    /// Forces the column back inside the given line length.
    pub fn clamp_to_line(&mut self, line_length: usize)
        ensures
            final(self).row == old(self).row,
            final(self).col == if old(self).col > line_length {
                line_length
            } else {
                old(self).col
            },
    {
        if self.col > line_length {
            self.col = line_length;
        }
    }
}

impl Default for Position {
    fn default() -> (r: Self)
        ensures
            r == (Position { row: 0usize, col: 0usize }),
    {
        Self::origin()
    }
}

} // verus!
