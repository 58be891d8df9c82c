//! A single line of text as a sequence of grapheme-cluster fragments with
//! precomputed render widths. Storage is lossless: concatenating fragment
//! text reproduces the line's content exactly; substitution glyphs affect
//! rendering only. Every mutation rebuilds the fragment sequence from the
//! spliced canonical text, so width classification stays consistent.

use crate::strutil::spaces;
use crate::unicode::{
    display_width_of, graphemes_of, push_char, split_graphemes, str_display_width, trim_str,
    trimmed_of,
};
use crate::{concat_all, lemma_concat_all_subrange_step, lemma_concat_all_take_step, sat_add};
use core::ops::Range;
use vstd::prelude::*;

verus! {

/// The number of columns a tab advances to: the next multiple of four.
pub const TAB_STOP: usize = 4;

/// Control characters: the C0 range, DEL, and the C1 range.
pub open spec fn is_control_char(c: char) -> bool {
    (c as u32) < 0x20 || (0x7f <= (c as u32) && (c as u32) <= 0x9f)
}

/// The substitution glyph a grapheme cluster renders as, if any: visible
/// whitespace other than a plain space or tab renders as an open box with
/// a tail, a lone control character as a hollow rectangle, any other
/// zero-width cluster as a middle dot.
pub open spec fn replacement_of(g: Seq<char>) -> Option<char> {
    if g == seq![' '] {
        None
    } else if g == seq!['\t'] {
        None
    } else if display_width_of(g) > 0 && trimmed_of(g).len() == 0 {
        Some('\u{2423}')
    } else if display_width_of(g) == 0 {
        if g.len() == 1 && is_control_char(g[0]) {
            Some('\u{25af}')
        } else {
            Some('\u{b7}')
        }
    } else {
        None
    }
}

/// The render width class of a grapheme cluster, in columns: a substituted
/// cluster renders as exactly one visible cell; otherwise the East-Asian
/// width, clamped to two columns.
pub open spec fn class_cols_of(g: Seq<char>) -> nat {
    if replacement_of(g) is Some {
        1
    } else if display_width_of(g) == 0 {
        0
    } else if display_width_of(g) == 1 {
        1
    } else {
        2
    }
}

/// Whether a grapheme cluster is a literal tab.
pub open spec fn is_tab(g: Seq<char>) -> bool {
    g == seq!['\t']
}

/// The columns a grapheme cluster occupies when it starts at column `pos`:
/// a tab reaches the next tab stop; anything else has a fixed class width.
pub open spec fn frag_cols(g: Seq<char>, pos: nat) -> nat {
    if is_tab(g) {
        (TAB_STOP as nat - pos % (TAB_STOP as nat)) as nat
    } else {
        class_cols_of(g)
    }
}

/// The total rendered width of the first `n` grapheme clusters, with the
/// accumulation saturating at `usize::MAX` as the executable code does.
pub open spec fn width_upto(gs: Seq<Seq<char>>, n: int) -> nat
    decreases n,
{
    if n <= 0 {
        0
    } else {
        let prev = width_upto(gs, n - 1);
        sat_add(prev, frag_cols(gs[n - 1], prev))
    }
}

/// What the clusters from index `i` on contribute to the visible slice
/// `[start, end)`, when cluster `i` starts at column `pos`: clusters fully
/// outside are skipped, a tab contributes the spaces that fall within the
/// window, a cluster straddling a boundary contributes one ellipsis mark,
/// and a cluster fully inside contributes its glyph or its text.
pub open spec fn visible_from(gs: Seq<Seq<char>>, i: int, pos: nat, start: nat, end: nat) -> Seq<
    char,
>
    decreases gs.len() - i,
{
    if i < 0 || i >= gs.len() || pos >= end {
        Seq::empty()
    } else {
        let w = frag_cols(gs[i], pos);
        let fe = sat_add(pos, w);
        let piece: Seq<char> = if fe > start {
            if is_tab(gs[i]) {
                let start_col: nat = if pos > start {
                    pos
                } else {
                    start
                };
                let end_col: nat = if fe < end {
                    fe
                } else {
                    end
                };
                let num: nat = if end_col >= start_col {
                    (end_col - start_col) as nat
                } else {
                    0
                };
                Seq::new(num, |j: int| ' ')
            } else if fe > end || pos < start {
                seq!['\u{22ef}']
            } else {
                match replacement_of(gs[i]) {
                    Some(c) => seq![c],
                    None => gs[i],
                }
            }
        } else {
            Seq::empty()
        };
        piece + visible_from(gs, i + 1, fe, start, end)
    }
}

/// The text that the visible column range `[start, end)` of a line shows.
pub open spec fn visible_slice(gs: Seq<Seq<char>>, start: nat, end: nat) -> Seq<char> {
    if start >= end {
        Seq::empty()
    } else {
        visible_from(gs, 0, 0, start, end)
    }
}

/// The line content with `c` spliced in at the boundary of grapheme
/// cluster `at` (appended at the end when `at` is out of range).
pub open spec fn spliced_content(gs: Seq<Seq<char>>, at: int, c: char) -> Seq<char> {
    let k = if 0 <= at < gs.len() {
        at
    } else {
        gs.len() as int
    };
    concat_all(gs.take(k)) + seq![c] + concat_all(gs.skip(k))
}

/// The line content with grapheme cluster `k` removed.
pub open spec fn content_without(gs: Seq<Seq<char>>, k: int) -> Seq<char> {
    concat_all(gs.subrange(0, k)) + concat_all(gs.subrange(k + 1, gs.len() as int))
}

#[derive(Clone, Copy)]
enum GraphemeWidth {
    Half,
    Full,
    Zero,
}

impl GraphemeWidth {
    spec fn columns(self) -> nat {
        match self {
            GraphemeWidth::Zero => 0,
            GraphemeWidth::Half => 1,
            GraphemeWidth::Full => 2,
        }
    }

    /// Advances a column position by this width, saturating at the
    /// machine limit like every other width accumulation here.
    fn saturating_add(self, other: usize) -> (r: usize)
        ensures
            r as nat == sat_add(other as nat, self.columns()),
    {
        match self {
            GraphemeWidth::Zero => other.saturating_add(0),
            GraphemeWidth::Half => other.saturating_add(1),
            GraphemeWidth::Full => other.saturating_add(2),
        }
    }
}

struct TextFragment {
    grapheme: String,
    rendered_width: GraphemeWidth,
    replacement: Option<char>,
}

impl TextFragment {
    spec fn wf(self) -> bool {
        &&& self.grapheme@.len() > 0
        &&& self.rendered_width.columns() == class_cols_of(self.grapheme@)
        &&& self.replacement == replacement_of(self.grapheme@)
    }
}

/// One line of the document: an ordered sequence of grapheme-cluster
/// fragments. Its view is the sequence of cluster texts.
pub struct Line {
    fragments: Vec<TextFragment>,
}

impl View for Line {
    type V = Seq<Seq<char>>;

    closed spec fn view(&self) -> Seq<Seq<char>> {
        self.fragments@.map_values(|f: TextFragment| f.grapheme@)
    }
}

impl Line {
    #[verifier::type_invariant]
    spec fn wf(self) -> bool {
        forall|i: int| 0 <= i < self.fragments@.len() ==> (#[trigger] self.fragments@[i]).wf()
    }

    /// The exact text the line stores: the concatenation of its clusters.
    pub open spec fn content(self) -> Seq<char> {
        concat_all(self@)
    }

    /// Partitions `line_str` into grapheme clusters, classifying each
    /// cluster's render width and substitution glyph. Storage is lossless:
    /// the clusters concatenate back to `line_str` exactly.
    pub fn from(line_str: &str) -> (r: Line)
        ensures
            r@ == graphemes_of(line_str@),
            r.content() == line_str@,
    {
        let pieces = split_graphemes(line_str);
        let ghost gs = graphemes_of(line_str@);
        let mut fragments: Vec<TextFragment> = Vec::new();
        let mut i: usize = 0;
        while i < pieces.len()
            invariant
                i <= pieces.len(),
                pieces@.map_values(|g: String| g@) == gs,
                forall|j: int| 0 <= j < pieces@.len() ==> (#[trigger] pieces@[j])@.len() > 0,
                fragments@.len() == i,
                forall|j: int| 0 <= j < i ==> (#[trigger] fragments@[j]).wf(),
                forall|j: int| 0 <= j < i ==> (#[trigger] fragments@[j]).grapheme@ == gs[j],
            decreases pieces.len() - i,
        {
            let grapheme = pieces[i].clone();
            let replacement = replacement_character(grapheme.as_str());
            let rendered_width = match replacement {
                Some(_) => GraphemeWidth::Half,
                None => {
                    let w = str_display_width(grapheme.as_str());
                    if w == 0 {
                        GraphemeWidth::Zero
                    } else if w == 1 {
                        GraphemeWidth::Half
                    } else {
                        GraphemeWidth::Full
                    }
                },
            };
            let fragment = TextFragment { grapheme, rendered_width, replacement };
            proof {
                assert(gs[i as int] == pieces@[i as int]@);
                assert(fragment.wf());
            }
            fragments.push(fragment);
            i = i + 1;
        }
        let r = Line { fragments };
        proof {
            assert(r@ =~= gs);
        }
        r
    }

    /// The number of grapheme clusters in the line.
    pub fn grapheme_count(&self) -> (r: usize)
        ensures
            r == self@.len(),
    {
        self.fragments.len()
    }

    /// The rendered width, in columns, of the clusters before index
    /// `grapheme_index` (of the whole line when the index is out of range).
    pub fn width_until(&self, grapheme_index: usize) -> (r: usize)
        ensures
            r as nat == width_upto(
                self@,
                if grapheme_index <= self@.len() {
                    grapheme_index as int
                } else {
                    self@.len() as int
                },
            ),
    {
        proof {
            use_type_invariant(&*self);
        }
        let end = if grapheme_index <= self.fragments.len() {
            grapheme_index
        } else {
            self.fragments.len()
        };
        let mut width: usize = 0;
        let mut i: usize = 0;
        while i < end
            invariant
                i <= end,
                end <= self.fragments@.len(),
                self.wf(),
                width as nat == width_upto(self@, i as int),
            decreases end - i,
        {
            let fragment = &self.fragments[i];
            if frag_is_tab(fragment) {
                let fw = TAB_STOP - (width % TAB_STOP);
                proof {
                    assert(fw as nat == frag_cols(self@[i as int], width as nat));
                }
                width = width.saturating_add(fw);
            } else {
                proof {
                    assert(fragment.rendered_width.columns() == frag_cols(
                        self@[i as int],
                        width as nat,
                    ));
                }
                width = fragment.rendered_width.saturating_add(width);
            }
            i = i + 1;
        }
        width
    }

    /// The rendered width of the whole line.
    pub fn width(&self) -> (r: usize)
        ensures
            r as nat == width_upto(self@, self@.len() as int),
    {
        let count = self.grapheme_count();
        self.width_until(count)
    }

    /// The text to print for the visible column range `range`: clusters
    /// outside it are skipped, clusters straddling a boundary become one
    /// ellipsis mark, tabs become exactly the spaces that fall within the
    /// window, and clusters inside render their glyph or their text.
    pub fn get_visible_graheme(&self, range: Range<usize>) -> (r: String)
        ensures
            r@ == visible_slice(self@, range.start as nat, range.end as nat),
    {
        proof {
            use_type_invariant(&*self);
        }
        let mut result = String::new();
        if range.start >= range.end {
            return result;
        }
        let ghost start = range.start as nat;
        let ghost end = range.end as nat;
        let mut current_pos: usize = 0;
        let mut i: usize = 0;
        while i < self.fragments.len() && current_pos < range.end
            invariant
                i <= self.fragments@.len(),
                self.wf(),
                start < end,
                start == range.start,
                end == range.end,
                visible_slice(self@, start, end) == result@ + visible_from(
                    self@,
                    i as int,
                    current_pos as nat,
                    start,
                    end,
                ),
            decreases self.fragments@.len() - i,
        {
            let fragment = &self.fragments[i];
            let ghost g = self@[i as int];
            let fragment_width = if frag_is_tab(fragment) {
                TAB_STOP - (current_pos % TAB_STOP)
            } else {
                match fragment.rendered_width {
                    GraphemeWidth::Zero => 0,
                    GraphemeWidth::Half => 1,
                    GraphemeWidth::Full => 2,
                }
            };
            proof {
                assert(fragment_width as nat == frag_cols(g, current_pos as nat));
            }
            let ghost pre = result@;
            let fragment_end = current_pos.saturating_add(fragment_width);
            if fragment_end > range.start {
                if frag_is_tab(fragment) {
                    let start_col = if current_pos > range.start {
                        current_pos
                    } else {
                        range.start
                    };
                    let end_col = if fragment_end < range.end {
                        fragment_end
                    } else {
                        range.end
                    };
                    let num_spaces = end_col.saturating_sub(start_col);
                    let pad = spaces(num_spaces);
                    result.append(pad.as_str());
                } else if fragment_end > range.end || current_pos < range.start {
                    push_char(&mut result, '\u{22ef}');
                    proof {
                        assert(result@ =~= pre + seq!['\u{22ef}']);
                    }
                } else {
                    match fragment.replacement {
                        Some(value) => {
                            push_char(&mut result, value);
                            proof {
                                assert(result@ =~= pre + seq![value]);
                            }
                        },
                        None => result.append(fragment.grapheme.as_str()),
                    }
                }
            }
            proof {
                let gs = self@;
                let pos = current_pos as nat;
                let w = frag_cols(g, pos);
                let fe = sat_add(pos, w);
                assert(fe == fragment_end as nat);
                let rest = visible_from(gs, i as int + 1, fe, start, end);
                let piece: Seq<char> = if fe > start {
                    if is_tab(g) {
                        let start_col: nat = if pos > start {
                            pos
                        } else {
                            start
                        };
                        let end_col: nat = if fe < end {
                            fe
                        } else {
                            end
                        };
                        let num: nat = if end_col >= start_col {
                            (end_col - start_col) as nat
                        } else {
                            0
                        };
                        Seq::new(num, |j: int| ' ')
                    } else if fe > end || pos < start {
                        seq!['\u{22ef}']
                    } else {
                        match replacement_of(g) {
                            Some(c) => seq![c],
                            None => g,
                        }
                    }
                } else {
                    Seq::empty()
                };
                assert(visible_from(gs, i as int, pos, start, end) == piece + rest);
                assert(result@ =~= pre + piece);
                assert((pre + piece) + rest =~= pre + (piece + rest));
            }
            current_pos = fragment_end;
            i = i + 1;
        }
        result
    }
    /// The exact line text, substitution glyphs left aside.
    pub fn to_string(&self) -> (r: String)
        ensures
            r@ == self.content(),
    {
        proof {
            use_type_invariant(&*self);
        }
        let mut result = String::new();
        let mut i: usize = 0;
        while i < self.fragments.len()
            invariant
                i <= self.fragments@.len(),
                result@ == concat_all(self@.take(i as int)),
            decreases self.fragments@.len() - i,
        {
            result.append(self.fragments[i].grapheme.as_str());
            proof {
                lemma_concat_all_take_step(self@, i as int);
            }
            i = i + 1;
        }
        proof {
            assert(self@.take(self@.len() as int) =~= self@);
        }
        result
    }

    /// Inserts `character` at the boundary of grapheme cluster
    /// `grapheme_index` (at the end when the index is out of range) by
    /// splicing the canonical text and re-partitioning it.
    pub fn insert_char(&mut self, character: char, grapheme_index: usize)
        ensures
            final(self)@ == graphemes_of(
                spliced_content(old(self)@, grapheme_index as int, character),
            ),
            final(self).content() == spliced_content(old(self)@, grapheme_index as int, character),
    {
        proof {
            use_type_invariant(&*self);
        }
        let ghost gs = self@;
        let ghost gi = grapheme_index as int;
        let mut result = String::new();
        let mut i: usize = 0;
        while i < self.fragments.len()
            invariant
                i <= self.fragments@.len(),
                gs == self@,
                gi == grapheme_index as int,
                i <= gi ==> result@ == concat_all(gs.take(i as int)),
                i > gi ==> result@ == concat_all(gs.take(gi)) + seq![character] + concat_all(
                    gs.subrange(gi, i as int),
                ),
            decreases self.fragments@.len() - i,
        {
            if i == grapheme_index {
                push_char(&mut result, character);
                proof {
                    assert(gs.subrange(gi, gi) =~= Seq::<Seq<char>>::empty());
                    assert(result@ =~= concat_all(gs.take(gi)) + seq![character] + concat_all(
                        gs.subrange(gi, gi),
                    ));
                }
            }
            result.append(self.fragments[i].grapheme.as_str());
            proof {
                lemma_concat_all_take_step(gs, i as int);
                if (i as int) >= gi {
                    lemma_concat_all_subrange_step(gs, gi, i as int);
                    assert(result@ =~= concat_all(gs.take(gi)) + seq![character] + concat_all(
                        gs.subrange(gi, i as int + 1),
                    ));
                }
            }
            i = i + 1;
        }
        if grapheme_index >= self.fragments.len() {
            push_char(&mut result, character);
        }
        proof {
            assert(gs.take(gs.len() as int) =~= gs);
            if gi < gs.len() {
                assert(gs.skip(gi) =~= gs.subrange(gi, gs.len() as int));
            } else {
                assert(gs.skip(gs.len() as int) =~= Seq::<Seq<char>>::empty());
            }
            assert(result@ =~= spliced_content(gs, gi, character));
        }
        *self = Line::from(result.as_str());
    }

    /// Removes grapheme cluster `grapheme_index` by splicing the canonical
    /// text and re-partitioning it; out-of-range indices leave the line
    /// unchanged.
    pub fn delete(&mut self, grapheme_index: usize)
        ensures
            grapheme_index < old(self)@.len() ==> {
                &&& final(self)@ == graphemes_of(content_without(old(self)@, grapheme_index as int))
                &&& final(self).content() == content_without(old(self)@, grapheme_index as int)
            },
            grapheme_index >= old(self)@.len() ==> *final(self) == *old(self),
    {
        proof {
            use_type_invariant(&*self);
        }
        if grapheme_index >= self.fragments.len() {
            return ;
        }
        let ghost gs = self@;
        let ghost gi = grapheme_index as int;
        let mut result = String::new();
        let mut i: usize = 0;
        while i < self.fragments.len()
            invariant
                i <= self.fragments@.len(),
                gs == self@,
                gi == grapheme_index as int,
                i <= gi ==> result@ == concat_all(gs.subrange(0, i as int)),
                i > gi ==> result@ == concat_all(gs.subrange(0, gi)) + concat_all(
                    gs.subrange(gi + 1, i as int),
                ),
            decreases self.fragments@.len() - i,
        {
            if i != grapheme_index {
                result.append(self.fragments[i].grapheme.as_str());
            }
            proof {
                if (i as int) < gi {
                    lemma_concat_all_subrange_step(gs, 0, i as int);
                } else if (i as int) == gi {
                    assert(gs.subrange(gi + 1, gi + 1) =~= Seq::<Seq<char>>::empty());
                    assert(result@ =~= concat_all(gs.subrange(0, gi)) + concat_all(
                        gs.subrange(gi + 1, gi + 1),
                    ));
                } else {
                    lemma_concat_all_subrange_step(gs, gi + 1, i as int);
                    assert(result@ =~= concat_all(gs.subrange(0, gi)) + concat_all(
                        gs.subrange(gi + 1, i as int + 1),
                    ));
                }
            }
            i = i + 1;
        }
        *self = Line::from(result.as_str());
    }

    /// Removes the last grapheme cluster; a no-op on an empty line.
    pub fn delete_last(&mut self)
        ensures
            old(self)@.len() > 0 ==> {
                &&& final(self)@ == graphemes_of(
                    content_without(old(self)@, old(self)@.len() - 1),
                )
                &&& final(self).content() == content_without(old(self)@, old(self)@.len() - 1)
            },
            old(self)@.len() == 0 ==> *final(self) == *old(self),
    {
        let count = self.grapheme_count();
        self.delete(count.saturating_sub(1));
    }

    /// Splits the line at the boundary of grapheme cluster `at` (clamped
    /// to the line's end), keeping the left part and returning the right.
    /// The fragments themselves are kept, not re-partitioned.
    pub fn split_off(&mut self, at: usize) -> (r: Line)
        ensures
            final(self)@ == old(self)@.take(
                if at <= old(self)@.len() {
                    at as int
                } else {
                    old(self)@.len() as int
                },
            ),
            r@ == old(self)@.skip(
                if at <= old(self)@.len() {
                    at as int
                } else {
                    old(self)@.len() as int
                },
            ),
    {
        proof {
            use_type_invariant(&*self);
        }
        let boundary = if at <= self.fragments.len() {
            at
        } else {
            self.fragments.len()
        };
        let mut work: Vec<TextFragment> = Vec::new();
        core::mem::swap(&mut work, &mut self.fragments);
        let tail = work.split_off(boundary);
        self.fragments = work;
        let r = Line { fragments: tail };
        proof {
            assert(final(self)@ =~= old(self)@.take(boundary as int));
            assert(r@ =~= old(self)@.skip(boundary as int));
        }
        r
    }

    /// Appends the content of `other`, re-partitioning the concatenated
    /// text (clusters can merge across the seam).
    pub fn append(&mut self, other: &Line)
        ensures
            final(self)@ == graphemes_of(old(self).content() + other.content()),
            final(self).content() == old(self).content() + other.content(),
    {
        let mut concat = self.to_string();
        let tail = other.to_string();
        concat.append(tail.as_str());
        *self = Line::from(concat.as_str());
    }

    /// Appends one character at the end of the line.
    pub fn append_char(&mut self, ch: char)
        ensures
            final(self)@ == graphemes_of(old(self).content() + seq![ch]),
            final(self).content() == old(self).content() + seq![ch],
    {
        let count = self.grapheme_count();
        self.insert_char(ch, count);
        proof {
            assert(old(self)@.take(old(self)@.len() as int) =~= old(self)@);
            assert(old(self)@.skip(old(self)@.len() as int) =~= Seq::<Seq<char>>::empty());
            assert(old(self).content() + seq![ch] + Seq::<char>::empty() =~= old(self).content()
                + seq![ch]);
        }
    }
}

impl Default for Line {
    /// An empty line.
    fn default() -> (r: Line)
        ensures
            r@ == Seq::<Seq<char>>::empty(),
    {
        let r = Line { fragments: Vec::new() };
        proof {
            assert(r@ =~= Seq::<Seq<char>>::empty());
        }
        r
    }
}

/// Rendered width is monotone in the grapheme index: showing one more
/// cluster never narrows the line.
pub proof fn lemma_width_upto_monotone(gs: Seq<Seq<char>>, i: int)
    requires
        0 <= i < gs.len(),
    ensures
        width_upto(gs, i) <= width_upto(gs, i + 1),
{
    lemma_width_upto_bounded(gs, i);
}

/// Accumulated widths never exceed `usize::MAX`, by saturation.
pub proof fn lemma_width_upto_bounded(gs: Seq<Seq<char>>, n: int)
    ensures
        width_upto(gs, n) <= usize::MAX,
    decreases n,
{
    if n > 0 {
        lemma_width_upto_bounded(gs, n - 1);
    }
}

/// Whether a fragment holds a literal tab.
fn frag_is_tab(f: &TextFragment) -> (b: bool)
    ensures
        b == is_tab(f.grapheme@),
{
    let len = f.grapheme.as_str().unicode_len();
    if len == 1 {
        let c = f.grapheme.as_str().get_char(0);
        proof {
            if c == '\t' {
                assert(f.grapheme@ =~= seq!['\t']);
            }
        }
        c == '\t'
    } else {
        proof {
            assert(f.grapheme@ != seq!['\t']);
        }
        false
    }
}

/// Whether `c` is a control character, per its Unicode general category.
pub fn is_control(c: char) -> (r: bool)
    ensures
        r == is_control_char(c),
{
    let u = c as u32;
    u < 0x20 || (0x7f <= u && u <= 0x9f)
}

/// The substitution glyph for one grapheme cluster, if it needs one.
fn replacement_character(for_str: &str) -> (r: Option<char>)
    ensures
        r == replacement_of(for_str@),
{
    let len = for_str.unicode_len();
    if len == 1 {
        let c = for_str.get_char(0);
        if c == ' ' {
            proof {
                assert(for_str@ =~= seq![' ']);
            }
            return None;
        }
        if c == '\t' {
            proof {
                assert(for_str@ =~= seq!['\t']);
            }
            return None;
        }
    }
    proof {
        assert(for_str@ != seq![' ']);
        assert(for_str@ != seq!['\t']);
    }
    let width = str_display_width(for_str);
    let trimmed = trim_str(for_str);
    if width > 0 && trimmed.is_empty() {
        return Some('\u{2423}');
    }
    if width == 0 {
        if len == 1 && is_control(for_str.get_char(0)) {
            return Some('\u{25af}');
        }
        return Some('\u{b7}');
    }
    None
}

} // verus!
