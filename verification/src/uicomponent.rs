//! The capability interface every drawable component shares: a redraw
//! flag, a size, and a uniform render template that computes the rows to
//! print and clears the flag. Printing itself happens outside the crate.

use crate::size::Size;
use vstd::prelude::*;

verus! {

/// A drawable component: the status, message, and command bars, and the
/// text view itself.
pub trait UIComponent: Sized {
    /// Whether the component needs to be drawn again.
    spec fn redraw_flag(&self) -> bool;

    /// Marks the component as needing (or not needing) a redraw.
    fn set_needs_redraw(&mut self, value: bool)
        ensures
            final(self).redraw_flag() == value,
    ;

    /// Reads the redraw flag.
    fn needs_redraw(&self) -> (r: bool)
        ensures
            r == self.redraw_flag(),
    ;

    /// Updates the component's size when the window changes.
    fn set_size(&mut self, size: Size);

    /// The rows of text the component currently shows, top to bottom.
    fn draw_lines(&mut self) -> Vec<String>;

    /// Resizes the component and marks it for redraw.
    fn resize(&mut self, size: Size)
        ensures
            final(self).redraw_flag() == true,
    {
        self.set_size(size);
        self.set_needs_redraw(true);
    }

    /// The uniform render template: when a redraw is needed, computes the
    /// rows to print and clears the flag; otherwise reports nothing to do.
    /// The caller prints the returned rows (and may set the flag again if
    /// printing fails).
    fn render(&mut self) -> (r: Option<Vec<String>>)
        ensures
            r is Some <==> old(self).redraw_flag(),
            final(self).redraw_flag() == false,
    {
        if self.needs_redraw() {
            let lines = self.draw_lines();
            self.set_needs_redraw(false);
            Some(lines)
        } else {
            None
        }
    }
}

} // verus!
