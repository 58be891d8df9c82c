//! Trusted interface to the Unicode text-segmentation and display-width
//! crates, and to the few `std` string operations that have no specification
//! in vstd. Everything else in the crate is verified against the names and
//! contracts given here.

use crate::concat_all;
use unicode_segmentation::UnicodeSegmentation;
use unicode_width::UnicodeWidthStr;
use vstd::prelude::*;

verus! {

/// The sequence of extended grapheme clusters of `s`, in order, as defined
/// by Unicode text segmentation (UAX #29).
pub uninterp spec fn graphemes_of(s: Seq<char>) -> Seq<Seq<char>>;

/// The number of terminal columns `s` occupies, as defined by the Unicode
/// East-Asian-width rules (UAX #11).
pub uninterp spec fn display_width_of(s: Seq<char>) -> usize;

/// `s` with leading and trailing whitespace removed.
pub uninterp spec fn trimmed_of(s: Seq<char>) -> Seq<char>;

/// Relies on unicode_segmentation's `UnicodeSegmentation::graphemes` (with
/// extended clusters selected): it yields the grapheme clusters of the
/// string as substrings of it, in order, so the clusters are nonempty and
/// their concatenation is the original string.
#[verifier::external_body]
pub(crate) fn split_graphemes(s: &str) -> (r: Vec<String>)
    ensures
        r@.map_values(|g: String| g@) == graphemes_of(s@),
        concat_all(r@.map_values(|g: String| g@)) == s@,
        forall|i: int| 0 <= i < r@.len() ==> (#[trigger] r@[i])@.len() > 0,
{
    s.graphemes(true).map(|g| g.to_string()).collect()
}

/// Relies on unicode_width's `UnicodeWidthStr::width`: the displayed width
/// of the string in terminal columns, a function of its characters alone.
#[verifier::external_body]
pub(crate) fn str_display_width(s: &str) -> (r: usize)
    ensures
        r == display_width_of(s@),
{
    UnicodeWidthStr::width(s)
}

/// Relies on std's `str::trim`: the string with leading and trailing
/// whitespace removed, a function of its characters alone.
#[verifier::external_body]
pub(crate) fn trim_str(s: &str) -> (r: &str)
    ensures
        r@ == trimmed_of(s@),
{
    s.trim()
}

/// Relies on std's `String::push`: appends one character to the string.
#[verifier::external_body]
pub(crate) fn push_char(s: &mut String, c: char)
    ensures
        final(s)@ == old(s)@.push(c),
{
    s.push(c);
}

} // verus!
