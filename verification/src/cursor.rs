//! A bounded two-dimensional position.  The cursor owns no text and does no
//! I/O: each move is clamped arithmetic, and `move_to` deliberately does not
//! clamp, leaving that to the viewport that knows the line lengths.

use vstd::prelude::*;

verus! {

#[derive(Debug, Clone, Copy, PartialEq, Eq, Structural)]
pub struct Cursor {
    pub col: usize,
    pub row: usize,
}

impl Cursor {
    /// One row up, stopping at the first row.
    pub fn move_up(&mut self)
        ensures
            final(self).row == if old(self).row > 0 {
                old(self).row - 1
            } else {
                0
            },
            final(self).col == old(self).col,
    {
        if self.row > 0 {
            self.row -= 1;
        } else {
            self.row = 0;
        }
    }

    /// One row down, stopping at the last of `max_lines` rows.  Callers
    /// must never pass zero: there is no row to sit on then.
    pub fn move_down(&mut self, max_lines: usize)
        requires
            max_lines >= 1,
        ensures
            final(self).row == if old(self).row + 1 < max_lines {
                old(self).row + 1
            } else {
                max_lines - 1
            },
            final(self).col == old(self).col,
    {
        if self.row < max_lines - 1 {
            self.row += 1;
        } else {
            self.row = max_lines - 1;
        }
    }

    /// One column left, stopping at the first column.
    pub fn move_left(&mut self)
        ensures
            final(self).col == if old(self).col > 0 {
                old(self).col - 1
            } else {
                0
            },
            final(self).row == old(self).row,
    {
        if self.col > 0 {
            self.col -= 1;
        } else {
            self.col = 0;
        }
    }

    /// One column right, stopping at `max_columns`.  The bound is a line
    /// length, so the column may legitimately equal it: that is the
    /// insertion point after the final character.
    pub fn move_right(&mut self, max_columns: usize)
        ensures
            final(self).col == if old(self).col < max_columns {
                old(self).col + 1
            } else {
                max_columns as int
            },
            final(self).row == old(self).row,
    {
        if self.col < max_columns {
            self.col += 1;
        } else {
            self.col = max_columns;
        }
    }

    /// Absolute placement, with no clamping.
    pub fn move_to(&mut self, row: usize, col: usize)
        ensures
            final(self).row == row,
            final(self).col == col,
    {
        self.row = row;
        self.col = col;
    }
}

} // verus!
