//! A position on the screen grid, in (column, row) screen units.

use vstd::prelude::*;

verus! {

/// A physical screen position: column and row.
#[derive(Clone, Copy, Debug, PartialEq, Eq, Structural)]
pub struct Position {
    pub column: usize,
    pub row: usize,
}

impl Position {
    /// Componentwise difference, clamped at zero.
    pub fn saturating_sub(self, other: Self) -> (r: Self)
        ensures
            r.column == if self.column >= other.column {
                self.column - other.column
            } else {
                0
            },
            r.row == if self.row >= other.row {
                self.row - other.row
            } else {
                0
            },
    {
        Self {
            column: self.column.saturating_sub(other.column),
            row: self.row.saturating_sub(other.row),
        }
    }
}

impl Default for Position {
    /// The top-left corner of the screen.
    fn default() -> (r: Self)
        ensures
            r.column == 0,
            r.row == 0,
    {
        Position { column: 0, row: 0 }
    }
}

} // verus!
