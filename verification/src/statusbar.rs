//! The status bar: shows the file name, line count, modified indicator,
//! and cursor position, redrawing only when the summary changes.

use crate::documentstatus::{sat_inc, DocumentStatus};
use crate::size::Size;
use crate::strutil::{decimal_of, spaces};
use crate::uicomponent::UIComponent;
use vstd::prelude::*;
use vstd::view::View as _;

verus! {

/// Whether two document summaries show the same thing.
pub open spec fn status_eq(a: DocumentStatus, b: DocumentStatus) -> bool {
    &&& a.total_lines == b.total_lines
    &&& a.current_line_index == b.current_line_index
    &&& a.is_modified == b.is_modified
    &&& a.file_name@ == b.file_name@
}

/// The status line's text: the file name, the line count, the modified
/// indicator, and the position indicator right-aligned in the remaining
/// width; an empty line when it would not fit.
pub open spec fn status_line_spec(status: DocumentStatus, columns: nat) -> Seq<char> {
    let beginning = status.file_name@ + " - "@ + decimal_of(status.total_lines as nat) + " lines "@
        + (if status.is_modified {
        "(modified)"@
    } else {
        Seq::<char>::empty()
    });
    let indicator = decimal_of(sat_inc(status.current_line_index) as nat) + "/"@ + decimal_of(
        status.total_lines as nat,
    );
    let right_left: nat = if columns >= beginning.len() {
        (columns - beginning.len()) as nat
    } else {
        0
    };
    let pad: nat = if right_left >= indicator.len() {
        (right_left - indicator.len()) as nat
    } else {
        0
    };
    let line = beginning + Seq::new(pad, |i: int| ' ') + indicator;
    if line.len() <= columns {
        line
    } else {
        Seq::empty()
    }
}

/// The status bar's state: the last summary shown, the redraw flag, and
/// the bar's size.
pub struct StatusBar {
    current_status: DocumentStatus,
    needs_redraw: bool,
    size: Size,
}

impl StatusBar {
    /// The summary currently shown.
    pub closed spec fn spec_status(self) -> DocumentStatus {
        self.current_status
    }

    /// Whether the bar needs a redraw.
    pub closed spec fn spec_needs_redraw(self) -> bool {
        self.needs_redraw
    }

    /// The bar's size.
    pub closed spec fn spec_size(self) -> Size {
        self.size
    }

    /// Takes a fresh summary; a change marks the bar for redraw.
    pub fn update_status(&mut self, new_status: DocumentStatus)
        ensures
            !status_eq(new_status, old(self).spec_status()) ==> {
                &&& status_eq(final(self).spec_status(), new_status)
                &&& final(self).spec_needs_redraw() == true
            },
            status_eq(new_status, old(self).spec_status()) ==> *final(self) == *old(self),
            final(self).spec_size() == old(self).spec_size(),
    {
        if !(new_status == self.current_status) {
            self.current_status = new_status;
            self.mark_redraw(true);
        }
    }

    /// Sets the redraw flag.
    pub fn mark_redraw(&mut self, value: bool)
        ensures
            final(self).spec_needs_redraw() == value,
            final(self).spec_status() == old(self).spec_status(),
            final(self).spec_size() == old(self).spec_size(),
    {
        self.needs_redraw = value;
    }

    /// Reads the redraw flag.
    pub fn needs_redraw(&self) -> (r: bool)
        ensures
            r == self.spec_needs_redraw(),
    {
        self.needs_redraw
    }

    /// Sets the bar's size and marks it for redraw.
    pub fn resize(&mut self, size: Size)
        ensures
            final(self).spec_size() == size,
            final(self).spec_needs_redraw() == true,
            final(self).spec_status() == old(self).spec_status(),
    {
        self.size = size;
        self.needs_redraw = true;
    }

    /// The text the bar shows for its current summary and width.
    pub fn draw_text(&self) -> (r: String)
        ensures
            r@ == status_line_spec(self.spec_status(), self.spec_size().columns as nat),
    {
        let mut beginning = self.current_status.file_name.clone();
        beginning.append(" - ");
        let line_count = self.current_status.line_count_to_string();
        beginning.append(line_count.as_str());
        beginning.append(" ");
        let modified_indicator = self.current_status.modified_indicator_to_string();
        beginning.append(modified_indicator.as_str());
        let indicator = self.current_status.position_indicator_to_string();
        let beginning_len = beginning.as_str().unicode_len();
        let indicator_len = indicator.as_str().unicode_len();
        let right_left = self.size.columns.saturating_sub(beginning_len);
        let pad = right_left.saturating_sub(indicator_len);
        let mut line = beginning;
        let padding = spaces(pad);
        line.append(padding.as_str());
        line.append(indicator.as_str());
        proof {
            reveal_strlit(" lines");
            reveal_strlit(" lines ");
            reveal_strlit(" ");
            assert(" lines "@ =~= " lines"@ + " "@);
            assert(line@ =~= (self.spec_status().file_name@ + " - "@ + decimal_of(
                self.spec_status().total_lines as nat,
            ) + " lines "@ + (if self.spec_status().is_modified {
                "(modified)"@
            } else {
                Seq::<char>::empty()
            })) + Seq::new(pad as nat, |i: int| ' ') + (decimal_of(
                sat_inc(self.spec_status().current_line_index) as nat,
            ) + "/"@ + decimal_of(self.spec_status().total_lines as nat)));
        }
        let line_len = line.as_str().unicode_len();
        if line_len <= self.size.columns {
            line
        } else {
            String::new()
        }
    }
}

impl Default for StatusBar {
    /// A status bar showing an empty summary.
    fn default() -> (r: StatusBar)
        ensures
            r.spec_status().total_lines == 0,
            r.spec_status().current_line_index == 0,
            r.spec_status().is_modified == false,
            r.spec_status().file_name@ == Seq::<char>::empty(),
            r.spec_needs_redraw() == true,
            r.spec_size() == (Size { columns: 0, rows: 0 }),
    {
        StatusBar {
            current_status: DocumentStatus {
                total_lines: 0,
                current_line_index: 0,
                is_modified: false,
                file_name: String::new(),
            },
            needs_redraw: true,
            size: Size { columns: 0, rows: 0 },
        }
    }
}

impl UIComponent for StatusBar {
    open spec fn redraw_flag(&self) -> bool {
        self.spec_needs_redraw()
    }

    fn set_needs_redraw(&mut self, value: bool) {
        self.needs_redraw = value;
    }

    fn needs_redraw(&self) -> bool {
        self.needs_redraw
    }

    fn set_size(&mut self, size: Size) {
        self.size = size;
    }

    fn draw_lines(&mut self) -> Vec<String> {
        let mut rows: Vec<String> = Vec::new();
        rows.push(self.draw_text());
        rows
    }
}

} // verus!
