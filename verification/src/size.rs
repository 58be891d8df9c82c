//! The size of the terminal window or of a component, in screen units.

use vstd::prelude::*;

verus! {

/// A width and height in screen cells.
#[derive(Clone, Copy, Debug, PartialEq, Eq, Structural)]
pub struct Size {
    pub columns: usize,
    pub rows: usize,
}

impl Default for Size {
    /// A zero-sized window, used until a real size is known.
    fn default() -> (r: Self)
        ensures
            r.columns == 0,
            r.rows == 0,
    {
        Size { columns: 0, rows: 0 }
    }
}

} // verus!
