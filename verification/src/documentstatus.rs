//! A derived, read-only summary of the document, recomputed on demand and
//! compared by the status bar to decide whether a redraw is needed.

use crate::strutil::{decimal_of, to_decimal_string};
use vstd::prelude::*;

verus! {

/// What the status bar shows: line count, cursor line, modified flag, and
/// the display file name.
#[derive(Debug)]
pub struct DocumentStatus {
    pub total_lines: usize,
    pub current_line_index: usize,
    pub is_modified: bool,
    pub file_name: String,
}

impl PartialEq for DocumentStatus {
    fn eq(&self, other: &Self) -> (r: bool) {
        self.total_lines == other.total_lines && self.current_line_index
            == other.current_line_index && self.is_modified == other.is_modified
            && self.file_name == other.file_name
    }
}

impl vstd::std_specs::cmp::PartialEqSpecImpl for DocumentStatus {
    open spec fn obeys_eq_spec() -> bool {
        true
    }

    open spec fn eq_spec(&self, other: &Self) -> bool {
        &&& self.total_lines == other.total_lines
        &&& self.current_line_index == other.current_line_index
        &&& self.is_modified == other.is_modified
        &&& self.file_name@ == other.file_name@
    }
}

impl DocumentStatus {
    /// The indicator shown while the buffer has unsaved changes.
    pub fn modified_indicator_to_string(&self) -> (r: String)
        ensures
            self.is_modified ==> r@ == "(modified)"@,
            !self.is_modified ==> r@ == Seq::<char>::empty(),
    {
        let mut s = String::new();
        if self.is_modified {
            s.append("(modified)");
        }
        s
    }

    /// The total line count, rendered as text.
    pub fn line_count_to_string(&self) -> (r: String)
        ensures
            r@ == decimal_of(self.total_lines as nat) + " lines"@,
    {
        let mut s = to_decimal_string(self.total_lines);
        s.append(" lines");
        s
    }

    /// The cursor's one-based line over the total, rendered as text.
    pub fn position_indicator_to_string(&self) -> (r: String)
        ensures
            r@ == decimal_of(sat_inc(self.current_line_index) as nat) + "/"@ + decimal_of(
                self.total_lines as nat,
            ),
    {
        let mut s = to_decimal_string(self.current_line_index.saturating_add(1));
        s.append("/");
        let total = to_decimal_string(self.total_lines);
        s.append(total.as_str());
        s
    }
}

/// One more than `n`, saturating at the machine limit.
pub open spec fn sat_inc(n: usize) -> usize {
    if n < usize::MAX {
        (n + 1) as usize
    } else {
        usize::MAX
    }
}

} // verus!
