//! The document buffer: an ordered sequence of lines, an optional file
//! association, and a modified flag. Loading splits text on line
//! boundaries; serializing writes one terminator after every line. All
//! file input/output happens outside the crate: callers write the
//! serialized text to disk and record the outcome here.

use crate::fileinfo::FileInfo;
use crate::line::{content_without, spliced_content, Line};
use crate::strutil::char_to_string;
use crate::view::Location;
use vstd::prelude::*;

verus! {

/// The index of the first line feed in `s`, or `s.len()` if there is none.
pub open spec fn first_newline(s: Seq<char>) -> int
    decreases s.len(),
{
    if s.len() == 0 {
        0
    } else if s[0] == '\n' {
        0
    } else {
        1 + first_newline(s.drop_first())
    }
}

/// A line as stored from a piece of loaded text: one carriage return
/// immediately before the line feed is dropped.
pub open spec fn strip_cr(l: Seq<char>) -> Seq<char> {
    if l.len() > 0 && l.last() == '\r' {
        l.drop_last()
    } else {
        l
    }
}

/// The lines of a text, split at each line feed; a carriage return before
/// a line feed is dropped; a final line without terminator still counts;
/// a trailing terminator adds no empty final line.
pub open spec fn split_lines(s: Seq<char>) -> Seq<Seq<char>>
    decreases s.len(),
{
    if s.len() == 0 {
        Seq::empty()
    } else {
        let i = first_newline(s);
        if 0 <= i < s.len() {
            seq![strip_cr(s.take(i))] + split_lines(s.skip(i + 1))
        } else {
            seq![s]
        }
    }
}

/// The serialized form of a sequence of lines: each line followed by
/// exactly one line feed, the last included.
pub open spec fn join_lines(ls: Seq<Seq<char>>) -> Seq<char>
    decreases ls.len(),
{
    if ls.len() == 0 {
        Seq::empty()
    } else {
        join_lines(ls.drop_last()) + ls.last() + seq!['\n']
    }
}

proof fn lemma_first_newline_at(t: Seq<char>, k: int)
    requires
        0 <= k <= t.len(),
        forall|j: int| 0 <= j < k ==> t[j] != '\n',
        k < t.len() ==> t[k] == '\n',
    ensures
        first_newline(t) == k,
    decreases t.len(),
{
    if t.len() == 0 {
    } else if k == 0 {
    } else {
        assert(t[0] != '\n');
        assert(forall|j: int| 0 <= j < k - 1 ==> t.drop_first()[j] == t[j + 1]);
        lemma_first_newline_at(t.drop_first(), k - 1);
    }
}

proof fn lemma_join_lines_snoc(ls: Seq<Seq<char>>, l: Seq<char>)
    ensures
        join_lines(ls.push(l)) == join_lines(ls) + l + seq!['\n'],
{
    assert(ls.push(l).drop_last() =~= ls);
    assert(ls.push(l).last() == l);
}

/// A line that serializing and reloading reproduces exactly: it embeds no
/// line feed, and does not end in a carriage return (one there would be
/// taken for part of the terminator on reload).
pub open spec fn round_trippable_line(l: Seq<char>) -> bool {
    &&& forall|j: int| 0 <= j < l.len() ==> l[j] != '\n'
    &&& l.len() > 0 ==> l.last() != '\r'
}

proof fn lemma_join_lines_front(ls: Seq<Seq<char>>)
    requires
        ls.len() > 0,
    ensures
        join_lines(ls) == ls[0] + seq!['\n'] + join_lines(ls.drop_first()),
    decreases ls.len(),
{
    if ls.len() == 1 {
        assert(ls.drop_last() =~= Seq::<Seq<char>>::empty());
        assert(ls.drop_first() =~= Seq::<Seq<char>>::empty());
        assert(join_lines(ls) =~= ls[0] + seq!['\n'] + join_lines(ls.drop_first()));
    } else {
        let dl = ls.drop_last();
        lemma_join_lines_front(dl);
        assert(dl[0] == ls[0]);
        assert(ls.drop_first().drop_last() =~= dl.drop_first());
        assert(ls.drop_first().last() == ls.last());
        assert(join_lines(ls.drop_first()) == join_lines(dl.drop_first()) + ls.last()
            + seq!['\n']);
        assert(join_lines(ls) == (ls[0] + seq!['\n'] + join_lines(dl.drop_first())) + ls.last()
            + seq!['\n']);
        assert((ls[0] + seq!['\n'] + join_lines(dl.drop_first())) + ls.last() + seq!['\n']
            =~= ls[0] + seq!['\n'] + (join_lines(dl.drop_first()) + ls.last() + seq!['\n']));
    }
}

/// Saving then reloading reproduces the lines exactly: splitting the
/// serialized text on line boundaries gives back the very line contents
/// that were serialized, for lines the terminator normalization leaves
/// untouched.
pub proof fn lemma_save_load_round_trip(ls: Seq<Seq<char>>)
    requires
        forall|k: int| 0 <= k < ls.len() ==> round_trippable_line(#[trigger] ls[k]),
    ensures
        split_lines(join_lines(ls)) == ls,
    decreases ls.len(),
{
    if ls.len() == 0 {
        assert(split_lines(join_lines(ls)) =~= ls);
    } else {
        let s = join_lines(ls);
        let head = ls[0];
        let rest = ls.drop_first();
        lemma_join_lines_front(ls);
        assert(s == head + seq!['\n'] + join_lines(rest));
        assert(s.len() == head.len() + 1 + join_lines(rest).len());
        assert(forall|j: int| 0 <= j < head.len() ==> s[j] == head[j]);
        assert(s[head.len() as int] == '\n');
        lemma_first_newline_at(s, head.len() as int);
        assert(s.take(head.len() as int) =~= head);
        assert(strip_cr(head) == head);
        assert(s.skip(head.len() as int + 1) =~= join_lines(rest));
        assert(forall|k: int| 0 <= k < rest.len() ==> rest[k] == ls[k + 1]);
        lemma_save_load_round_trip(rest);
        assert(split_lines(s) =~= seq![head] + split_lines(join_lines(rest)));
        assert(seq![head] + rest =~= ls);
    }
}

/// An in-memory document: its lines, its file association, and whether it
/// has unsaved changes.
pub struct Buffer {
    pub lines: Vec<Line>,
    pub file_info: FileInfo,
    pub dirty: bool,
}

impl Buffer {
    /// The text of each line, in order.
    pub open spec fn content_seq(self) -> Seq<Seq<char>> {
        self.lines@.map_values(|l: Line| l.content())
    }

    /// Whether the buffer holds no lines at all.
    pub fn is_empty(&self) -> (r: bool)
        ensures
            r == (self.lines@.len() == 0),
    {
        self.lines.is_empty()
    }

    /// The number of lines.
    pub fn height(&self) -> (r: usize)
        ensures
            r == self.lines@.len(),
    {
        self.lines.len()
    }

    /// A fresh buffer holding `contents` split on line boundaries,
    /// associated with `file_name`, with no unsaved changes. The caller
    /// reads the file; this function only interprets its text.
    pub fn load(file_name: &str, contents: &str) -> (r: Buffer)
        ensures
            r.content_seq() == split_lines(contents@),
            r.file_info.path_spec() == Some(file_name@),
            r.dirty == false,
    {
        let pieces = split_into_lines(contents);
        let mut content_lines: Vec<Line> = Vec::new();
        let mut i: usize = 0;
        while i < pieces.len()
            invariant
                i <= pieces.len(),
                pieces@.map_values(|p: String| p@) == split_lines(contents@),
                content_lines@.len() == i,
                forall|j: int|
                    0 <= j < i ==> (#[trigger] content_lines@[j]).content() == split_lines(
                        contents@,
                    )[j],
            decreases pieces.len() - i,
        {
            let line = Line::from(pieces[i].as_str());
            proof {
                assert(pieces@[i as int]@ == split_lines(contents@)[i as int]);
            }
            content_lines.push(line);
            i = i + 1;
        }
        let r = Buffer { lines: content_lines, file_info: FileInfo::from(file_name), dirty: false };
        proof {
            assert(r.content_seq() =~= split_lines(contents@));
        }
        r
    }

    /// The exact text a save writes: every line followed by one line feed.
    pub fn serialize(&self) -> (r: String)
        ensures
            r@ == join_lines(self.content_seq()),
    {
        let mut result = String::new();
        let mut i: usize = 0;
        while i < self.lines.len()
            invariant
                i <= self.lines@.len(),
                result@ == join_lines(self.content_seq().take(i as int)),
            decreases self.lines@.len() - i,
        {
            let text = self.lines[i].to_string();
            result.append(text.as_str());
            let nl = char_to_string('\n');
            result.append(nl.as_str());
            proof {
                lemma_join_lines_snoc(self.content_seq().take(i as int), self.content_seq()[i as int]);
                assert(self.content_seq().take(i as int).push(self.content_seq()[i as int])
                    =~= self.content_seq().take(i as int + 1));
                assert(result@ =~= join_lines(self.content_seq().take(i as int + 1)));
            }
            i = i + 1;
        }
        proof {
            assert(self.content_seq().take(self.content_seq().len() as int) =~= self.content_seq());
        }
        result
    }

    /// Records a successful save in place: the content was written, so the
    /// buffer has no unsaved changes. The caller must first have written
    /// `serialize()` to the associated file.
    pub fn save(&mut self)
        ensures
            final(self).lines@ == old(self).lines@,
            final(self).file_info == old(self).file_info,
            final(self).dirty == false,
    {
        self.dirty = false;
    }

    /// Records a successful save under a new name: rebinds the file
    /// association and clears the modified flag. The caller must first
    /// have written `serialize()` to the file named `file_name`.
    pub fn save_as(&mut self, file_name: &str)
        ensures
            final(self).lines@ == old(self).lines@,
            final(self).file_info.path_spec() == Some(file_name@),
            final(self).dirty == false,
    {
        self.file_info = FileInfo::from(file_name);
        self.dirty = false;
    }

    /// Inserts `character` at `at`: appends a fresh one-character line when
    /// `at` addresses the line past the end, splices into the addressed
    /// line otherwise, and absorbs an address beyond that as a no-op.
    pub fn insert_char(&mut self, character: char, at: Location)
        ensures
            final(self).file_info == old(self).file_info,
            at.line_index > old(self).lines@.len() ==> *final(self) == *old(self),
            at.line_index == old(self).lines@.len() ==> {
                &&& final(self).lines@.len() == old(self).lines@.len() + 1
                &&& forall|j: int|
                    0 <= j < old(self).lines@.len() ==> final(self).lines@[j] == old(self).lines@[j]
                &&& final(self).lines@.last().content() == seq![character]
                &&& final(self).dirty == true
            },
            at.line_index < old(self).lines@.len() ==> {
                &&& final(self).lines@.len() == old(self).lines@.len()
                &&& forall|j: int|
                    0 <= j < old(self).lines@.len() && j != at.line_index ==> final(self).lines@[j] == old(self).lines@[j]
                &&& final(self).lines@[at.line_index as int]@ == crate::unicode::graphemes_of(
                    spliced_content(
                        old(self).lines@[at.line_index as int]@,
                        at.grapheme_index as int,
                        character,
                    ),
                )
                &&& final(self).lines@[at.line_index as int].content() == spliced_content(
                    old(self).lines@[at.line_index as int]@,
                    at.grapheme_index as int,
                    character,
                )
                &&& final(self).dirty == true
            },
    {
        if at.line_index > self.lines.len() {
            return ;
        }
        if at.line_index == self.lines.len() {
            let text = char_to_string(character);
            let line = Line::from(text.as_str());
            proof {
                assert(line.content() =~= seq![character]);
            }
            self.lines.push(line);
            self.dirty = true;
        } else {
            self.lines[at.line_index].insert_char(character, at.grapheme_index);
            self.dirty = true;
        }
    }

    /// Splits the line at `at` into two at the grapheme index, the right
    /// half becoming a new following line; at the line past the end a
    /// blank line is appended instead; beyond that, a no-op.
    pub fn insert_newline(&mut self, at: Location)
        ensures
            final(self).file_info == old(self).file_info,
            at.line_index > old(self).lines@.len() ==> *final(self) == *old(self),
            at.line_index == old(self).lines@.len() ==> {
                &&& final(self).lines@.len() == old(self).lines@.len() + 1
                &&& forall|j: int|
                    0 <= j < old(self).lines@.len() ==> final(self).lines@[j] == old(self).lines@[j]
                &&& final(self).lines@.last()@ == Seq::<Seq<char>>::empty()
                &&& final(self).dirty == true
            },
            at.line_index < old(self).lines@.len() ==> {
                &&& final(self).lines@.len() == old(self).lines@.len() + 1
                &&& forall|j: int|
                    0 <= j < at.line_index ==> final(self).lines@[j] == old(self).lines@[j]
                &&& final(self).lines@[at.line_index as int]@ == old(self).lines@[at.line_index as int]@.take(
                    clamp_index(at.grapheme_index as int, old(self).lines@[at.line_index as int]@.len() as int),
                )
                &&& final(self).lines@[at.line_index as int + 1]@ == old(self).lines@[at.line_index as int]@.skip(
                    clamp_index(at.grapheme_index as int, old(self).lines@[at.line_index as int]@.len() as int),
                )
                &&& forall|j: int|
                    at.line_index + 1 < j < final(self).lines@.len() ==> final(self).lines@[j]
                        == old(self).lines@[j - 1]
                &&& final(self).dirty == true
            },
    {
        if at.line_index > self.lines.len() {
            return ;
        }
        if at.line_index == self.lines.len() {
            self.lines.push(Line::default());
            self.dirty = true;
        } else {
            let new = self.lines[at.line_index].split_off(at.grapheme_index);
            self.lines.insert(at.line_index.saturating_add(1), new);
            self.dirty = true;
        }
    }

    /// Deletes forward at `at`: past the line's end with a following line,
    /// merges that line up; within the line, removes the addressed
    /// grapheme cluster; otherwise a no-op.
    pub fn delete(&mut self, at: Location)
        ensures
            final(self).file_info == old(self).file_info,
            at.line_index >= old(self).lines@.len() ==> *final(self) == *old(self),
            at.line_index < old(self).lines@.len() && at.grapheme_index >= old(self).lines@[at.line_index as int]@.len() && at.line_index + 1 < old(self).lines@.len()
                ==> {
                &&& final(self).lines@.len() == old(self).lines@.len() - 1
                &&& forall|j: int|
                    0 <= j < at.line_index ==> final(self).lines@[j] == old(self).lines@[j]
                &&& final(self).lines@[at.line_index as int].content() == old(self).lines@[at.line_index as int].content() + old(self).lines@[at.line_index as int
                    + 1].content()
                &&& forall|j: int|
                    at.line_index < j < final(self).lines@.len() ==> final(self).lines@[j] == old(self).lines@[j + 1]
                &&& final(self).dirty == true
            },
            at.line_index < old(self).lines@.len() && at.grapheme_index < old(self).lines@[at.line_index as int]@.len() ==> {
                &&& final(self).lines@.len() == old(self).lines@.len()
                &&& forall|j: int|
                    0 <= j < old(self).lines@.len() && j != at.line_index ==> final(self).lines@[j] == old(self).lines@[j]
                &&& final(self).lines@[at.line_index as int].content() == content_without(
                    old(self).lines@[at.line_index as int]@,
                    at.grapheme_index as int,
                )
                &&& final(self).dirty == true
            },
            at.line_index < old(self).lines@.len() && at.grapheme_index >= old(self).lines@[at.line_index as int]@.len() && at.line_index + 1 >= old(self).lines@.len()
                ==> *final(self) == *old(self),
    {
        if at.line_index >= self.lines.len() {
            return ;
        }
        let line_len = self.lines[at.line_index].grapheme_count();
        if at.grapheme_index >= line_len {
            if at.line_index.saturating_add(1) < self.lines.len() {
                let next_line = self.lines.remove(at.line_index.saturating_add(1));
                self.lines[at.line_index].append(&next_line);
                self.dirty = true;
            }
        } else {
            self.lines[at.line_index].delete(at.grapheme_index);
            self.dirty = true;
        }
    }

    /// Deletes backward at `at`: at column zero of a later line, merges
    /// this line onto the previous one; within a line, removes the cluster
    /// before the address; a no-op at the very start of the buffer.
    pub fn backspace(&mut self, at: Location)
        ensures
            final(self).file_info == old(self).file_info,
            at.line_index >= old(self).lines@.len() ==> *final(self) == *old(self),
            at.line_index == 0 && at.grapheme_index == 0 && old(self).lines@.len() > 0 ==> *final(self) == *old(self),
            0 < at.line_index < old(self).lines@.len() && at.grapheme_index == 0 ==> {
                &&& final(self).lines@.len() == old(self).lines@.len() - 1
                &&& forall|j: int|
                    0 <= j < at.line_index - 1 ==> final(self).lines@[j] == old(self).lines@[j]
                &&& final(self).lines@[at.line_index - 1].content() == old(self).lines@[at.line_index - 1].content() + old(self).lines@[at.line_index as int].content()
                &&& forall|j: int|
                    at.line_index - 1 < j < final(self).lines@.len() ==> final(self).lines@[j]
                        == old(self).lines@[j + 1]
                &&& final(self).dirty == true
            },
            at.line_index < old(self).lines@.len() && 0 < at.grapheme_index <= old(
                self,
            ).lines@[at.line_index as int]@.len() ==> {
                &&& final(self).lines@.len() == old(self).lines@.len()
                &&& forall|j: int|
                    0 <= j < old(self).lines@.len() && j != at.line_index ==> final(self).lines@[j] == old(self).lines@[j]
                &&& final(self).lines@[at.line_index as int].content() == content_without(
                    old(self).lines@[at.line_index as int]@,
                    at.grapheme_index - 1,
                )
                &&& final(self).dirty == true
            },
            at.line_index < old(self).lines@.len() && at.grapheme_index > old(
                self,
            ).lines@[at.line_index as int]@.len() ==> *final(self) == *old(self),
    {
        if at.line_index >= self.lines.len() {
            return ;
        }
        if at.line_index == 0 && at.grapheme_index == 0 {
            return ;
        }
        if at.grapheme_index == 0 {
            let previous_line = at.line_index - 1;
            let previous_index = self.lines[previous_line].grapheme_count();
            self.delete(Location { line_index: previous_line, grapheme_index: previous_index });
            self.dirty = true;
        } else {
            let line_len = self.lines[at.line_index].grapheme_count();
            if at.grapheme_index - 1 < line_len {
                self.lines[at.line_index].delete(at.grapheme_index - 1);
                self.dirty = true;
            }
        }
    }

    /// Splits the line at `at` into two, like `insert_newline` on an
    /// existing line; a no-op past the last line.
    pub fn tab(&mut self, at: Location)
        ensures
            final(self).file_info == old(self).file_info,
            at.line_index >= old(self).lines@.len() ==> *final(self) == *old(self),
            at.line_index < old(self).lines@.len() ==> {
                &&& final(self).lines@.len() == old(self).lines@.len() + 1
                &&& forall|j: int|
                    0 <= j < at.line_index ==> final(self).lines@[j] == old(self).lines@[j]
                &&& final(self).lines@[at.line_index as int]@ == old(self).lines@[at.line_index as int]@.take(
                    clamp_index(at.grapheme_index as int, old(self).lines@[at.line_index as int]@.len() as int),
                )
                &&& final(self).lines@[at.line_index as int + 1]@ == old(self).lines@[at.line_index as int]@.skip(
                    clamp_index(at.grapheme_index as int, old(self).lines@[at.line_index as int]@.len() as int),
                )
                &&& forall|j: int|
                    at.line_index + 1 < j < final(self).lines@.len() ==> final(self).lines@[j]
                        == old(self).lines@[j - 1]
                &&& final(self).dirty == true
            },
    {
        if at.line_index >= self.lines.len() {
            return ;
        }
        let new_line = self.lines[at.line_index].split_off(at.grapheme_index);
        self.lines.insert(at.line_index.saturating_add(1), new_line);
        self.dirty = true;
    }
}

impl Default for Buffer {
    /// An empty, unassociated, unmodified buffer.
    fn default() -> (r: Buffer)
        ensures
            r.lines@.len() == 0,
            r.file_info.path_spec() is None,
            r.dirty == false,
    {
        Buffer { lines: Vec::new(), file_info: FileInfo::default(), dirty: false }
    }
}

/// `at`, clamped to the bound `len`.
pub open spec fn clamp_index(at: int, len: int) -> int {
    if at <= len {
        at
    } else {
        len
    }
}

/// Splits text into its lines, as `split_lines` describes.
pub fn split_into_lines(s: &str) -> (r: Vec<String>)
    ensures
        r@.map_values(|p: String| p@) == split_lines(s@),
{
    let n = s.unicode_len();
    let mut lines: Vec<String> = Vec::new();
    let mut start: usize = 0;
    let mut i: usize = 0;
    proof {
        assert(s@.skip(0) =~= s@);
        assert(lines@.map_values(|p: String| p@) =~= Seq::<Seq<char>>::empty());
        assert(Seq::<Seq<char>>::empty() + split_lines(s@) =~= split_lines(s@));
    }
    while i < n
        invariant
            start <= i <= n,
            n == s@.len(),
            split_lines(s@) =~= lines@.map_values(|p: String| p@) + split_lines(
                s@.skip(start as int),
            ),
            forall|j: int| start <= j < i ==> s@[j] != '\n',
        decreases n - i,
    {
        if s.get_char(i) == '\n' {
            let end = if i > start && s.get_char(i - 1) == '\r' {
                i - 1
            } else {
                i
            };
            let piece = s.substring_char(start, end).to_owned();
            let ghost oldmap = lines@.map_values(|p: String| p@);
            proof {
                let t = s@.skip(start as int);
                assert(forall|j: int| 0 <= j < t.len() ==> t[j] == s@[j + start]);
                lemma_first_newline_at(t, i - start);
                assert(t.take(i - start) =~= s@.subrange(start as int, i as int));
                if end < i {
                    assert(s@.subrange(start as int, i as int).last() == s@[i - 1]);
                    assert(s@.subrange(start as int, i as int).drop_last() =~= s@.subrange(
                        start as int,
                        end as int,
                    ));
                } else {
                    assert(end == i);
                    if i > start {
                        assert(s@.subrange(start as int, i as int).last() == s@[i - 1]);
                    }
                }
                assert(strip_cr(s@.subrange(start as int, i as int)) =~= s@.subrange(
                    start as int,
                    end as int,
                ));
                assert(piece@ == strip_cr(t.take(i - start)));
                assert(t.len() > 0);
                assert(split_lines(t) =~= seq![strip_cr(t.take(i - start))] + split_lines(
                    t.skip(i - start + 1),
                ));
                assert(t.skip(i - start + 1) =~= s@.skip(i + 1));
            }
            lines.push(piece);
            proof {
                let t = s@.skip(start as int);
                assert(lines@.drop_last() =~= lines@.subrange(0, lines@.len() - 1));
                assert(lines@.map_values(|p: String| p@) =~= oldmap.push(piece@));
                assert(oldmap + split_lines(t) =~= oldmap + (seq![piece@] + split_lines(
                    s@.skip(i as int + 1),
                )));
                assert(oldmap + (seq![piece@] + split_lines(s@.skip(i as int + 1)))
                    =~= oldmap.push(piece@) + split_lines(s@.skip(i as int + 1)));
            }
            start = i + 1;
        }
        i = i + 1;
    }
    if start < n {
        let piece = s.substring_char(start, n).to_owned();
        let ghost oldmap = lines@.map_values(|p: String| p@);
        proof {
            let t = s@.skip(start as int);
            assert(forall|j: int| 0 <= j < t.len() ==> t[j] == s@[j + start]);
            lemma_first_newline_at(t, n - start);
            assert(t =~= s@.subrange(start as int, n as int));
            assert(t.len() > 0);
            assert(split_lines(t) =~= seq![t]);
            assert(piece@ == t);
        }
        lines.push(piece);
        proof {
            let t = s@.skip(start as int);
            assert(lines@.map_values(|p: String| p@) =~= oldmap.push(t));
            assert(oldmap + seq![t] =~= oldmap.push(t));
            assert(lines@.map_values(|p: String| p@) =~= split_lines(s@));
        }
    } else {
        proof {
            assert(s@.skip(start as int) =~= Seq::<char>::empty());
            assert(lines@.map_values(|p: String| p@) + split_lines(Seq::<char>::empty())
                =~= lines@.map_values(|p: String| p@));
        }
    }
    lines
}

} // verus!
