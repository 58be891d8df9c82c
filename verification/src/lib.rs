//! Core of a terminal text editor: a grapheme-cluster-aware line model,
//! a line buffer with file association, a cursor/viewport engine, and the
//! command-interpretation and editor state machine that drives them.
//!
//! All terminal and file input/output lives outside this crate; the library
//! computes what to draw, how the cursor moves, and how the buffer changes.

use vstd::prelude::*;

pub mod buffer;
pub mod command;
pub mod commandbar;
pub mod documentstatus;
pub mod editor;
pub mod editorcommand;
pub mod fileinfo;
pub mod line;
pub mod messagebar;
pub mod position;
pub mod size;
pub mod statusbar;
pub mod strutil;
pub mod uicomponent;
pub mod unicode;
pub mod view;

verus! {

/// Addition on column counts, saturating at `usize::MAX`; mirrors
/// `usize::saturating_add`, which the executable code uses throughout.
pub open spec fn sat_add(a: nat, b: nat) -> nat {
    if a + b > usize::MAX {
        usize::MAX as nat
    } else {
        a + b
    }
}

/// The concatenation of a sequence of character sequences.
pub open spec fn concat_all(gs: Seq<Seq<char>>) -> Seq<char>
    decreases gs.len(),
{
    if gs.len() == 0 {
        Seq::empty()
    } else {
        concat_all(gs.drop_last()) + gs.last()
    }
}

/// Extending a prefix of `gs` by one element appends exactly that element's
/// characters to the concatenation of the prefix.
pub proof fn lemma_concat_all_take_step(gs: Seq<Seq<char>>, i: int)
    requires
        0 <= i < gs.len(),
    ensures
        concat_all(gs.take(i + 1)) == concat_all(gs.take(i)) + gs[i],
{
    assert(gs.take(i + 1).drop_last() =~= gs.take(i));
    assert(gs.take(i + 1).last() == gs[i]);
}

/// The same step rule for a subrange growing at its right end.
pub proof fn lemma_concat_all_subrange_step(gs: Seq<Seq<char>>, a: int, i: int)
    requires
        0 <= a <= i < gs.len(),
    ensures
        concat_all(gs.subrange(a, i + 1)) == concat_all(gs.subrange(a, i)) + gs[i],
{
    assert(gs.subrange(a, i + 1).drop_last() =~= gs.subrange(a, i));
    assert(gs.subrange(a, i + 1).last() == gs[i]);
}

} // verus!
