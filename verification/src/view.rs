//! The viewport and cursor engine: tracks the cursor in grapheme space,
//! converts it to screen space, and keeps it inside the visible window
//! with minimal scroll adjustments.

use crate::buffer::Buffer;
use crate::command::{Edit, Move};
use crate::documentstatus::DocumentStatus;
use crate::line::{content_without, spliced_content, visible_slice, width_upto, Line};
use crate::size::Size;
use crate::strutil::spaces;
use crate::uicomponent::UIComponent;
use crate::{position::Position, sat_add};
use vstd::prelude::*;
use vstd::view::View as _;

verus! {

/// A location in the document, in grapheme space: which line, and which
/// grapheme-cluster boundary within it.
#[derive(Clone, Copy, Debug, PartialEq, Eq, Structural)]
pub struct Location {
    pub grapheme_index: usize,
    pub line_index: usize,
}

impl Default for Location {
    /// The very start of the document.
    fn default() -> (r: Self)
        ensures
            r.grapheme_index == 0,
            r.line_index == 0,
    {
        Location { grapheme_index: 0, line_index: 0 }
    }
}

/// The grapheme count of line `i`, or zero where no such line exists.
pub open spec fn line_len_at(lines: Seq<Line>, i: int) -> nat {
    if 0 <= i < lines.len() {
        lines[i]@.len()
    } else {
        0
    }
}

/// A grapheme index clamped to the addressed line ("snapping").
pub open spec fn snap_grapheme_spec(lines: Seq<Line>, loc: Location) -> Location {
    let len = line_len_at(lines, loc.line_index as int);
    Location {
        grapheme_index: if loc.grapheme_index as nat <= len {
            loc.grapheme_index
        } else {
            len as usize
        },
        line_index: loc.line_index,
    }
}

/// A line index clamped to the buffer height (height itself means "past
/// the last line" and is allowed).
pub open spec fn snap_line_spec(lines: Seq<Line>, loc: Location) -> Location {
    Location {
        grapheme_index: loc.grapheme_index,
        line_index: if loc.line_index as nat <= lines.len() {
            loc.line_index
        } else {
            lines.len() as usize
        },
    }
}

/// Moving up: the line index drops by `step`, then the grapheme index
/// snaps to the target line.
pub open spec fn move_up_spec(lines: Seq<Line>, loc: Location, step: nat) -> Location {
    let up = Location {
        grapheme_index: loc.grapheme_index,
        line_index: if loc.line_index as nat >= step {
            (loc.line_index as nat - step) as usize
        } else {
            0
        },
    };
    snap_line_spec(lines, snap_grapheme_spec(lines, up))
}

/// Moving down: the line index grows by `step` (clamped to the buffer
/// height), and the grapheme index snaps to the target line.
pub open spec fn move_down_spec(lines: Seq<Line>, loc: Location, step: nat) -> Location {
    let down = Location {
        grapheme_index: loc.grapheme_index,
        line_index: if loc.line_index as nat + step <= usize::MAX {
            (loc.line_index as nat + step) as usize
        } else {
            usize::MAX as usize
        },
    };
    snap_line_spec(lines, snap_grapheme_spec(lines, down))
}

/// Moving left: back one grapheme, or — at the start of a later line —
/// to the end of the previous line.
pub open spec fn move_left_spec(lines: Seq<Line>, loc: Location) -> Location {
    if loc.grapheme_index > 0 {
        Location { grapheme_index: (loc.grapheme_index - 1) as usize, line_index: loc.line_index }
    } else if loc.line_index > 0 {
        Location {
            grapheme_index: line_len_at(lines, loc.line_index - 1) as usize,
            line_index: (loc.line_index - 1) as usize,
        }
    } else {
        loc
    }
}

/// Moving right: forward one grapheme, or — at the end of a line — to
/// the start of the next.
pub open spec fn move_right_spec(lines: Seq<Line>, loc: Location) -> Location {
    let len = line_len_at(lines, loc.line_index as int);
    if (loc.grapheme_index as nat) < len {
        Location { grapheme_index: (loc.grapheme_index + 1) as usize, line_index: loc.line_index }
    } else {
        move_down_spec(lines, Location { grapheme_index: 0, line_index: loc.line_index }, 1)
    }
}

/// Where each movement command puts the cursor; `rows` is the window
/// height, which sizes a page move.
pub open spec fn move_command_spec(lines: Seq<Line>, loc: Location, command: Move, rows: nat) -> Location {
    match command {
        Move::Up => move_up_spec(lines, loc, 1),
        Move::Down => move_down_spec(lines, loc, 1),
        Move::Left => move_left_spec(lines, loc),
        Move::Right => move_right_spec(lines, loc),
        Move::Pageup => move_up_spec(lines, loc, if rows >= 1 { (rows - 1) as nat } else { 0 }),
        Move::PageDown => move_down_spec(lines, loc, if rows >= 1 { (rows - 1) as nat } else { 0 }),
        Move::StartofLine => Location { grapheme_index: 0, line_index: loc.line_index },
        Move::EndofLine => Location {
            grapheme_index: line_len_at(lines, loc.line_index as int) as usize,
            line_index: loc.line_index,
        },
    }
}

/// The minimal scroll adjustment: an offset stays put while the target
/// column or row is inside the window, jumps back to the target when the
/// target lies before it, and moves just far enough forward for the
/// target to become the last visible cell when the target lies beyond.
pub open spec fn scroll_adjust(offset: nat, to: nat, extent: nat) -> nat {
    if to < offset {
        to
    } else if to >= sat_add(offset, extent) {
        sat_add((to - extent) as nat, 1)
    } else {
        offset
    }
}

/// Whether bringing `to` into a window of `extent` starting at `offset`
/// requires the offset to move at all.
pub open spec fn scroll_moved(offset: nat, to: nat, extent: nat) -> bool {
    to < offset || to >= sat_add(offset, extent)
}

/// The document's text area on screen: a scrollable window over the
/// buffer. Keeps the cursor location in grapheme space, the window size,
/// and the scroll offset in screen space.
pub struct View {
    buffer: Buffer,
    need_redraw: bool,
    size: Size,
    text_location: Location,
    scroll_offset: Position,
}

impl View {
    /// The buffer shown in this view.
    pub closed spec fn spec_buffer(self) -> Buffer {
        self.buffer
    }

    /// The window size.
    pub closed spec fn spec_size(self) -> Size {
        self.size
    }

    /// The cursor, in grapheme space.
    pub closed spec fn spec_text_location(self) -> Location {
        self.text_location
    }

    /// The scroll offset, in screen space.
    pub closed spec fn spec_scroll_offset(self) -> Position {
        self.scroll_offset
    }

    /// Whether the view needs a redraw.
    pub closed spec fn spec_needs_redraw(self) -> bool {
        self.need_redraw
    }

    /// Cursor validity: the line index is at most the buffer height (the
    /// height itself meaning "past the last line"), and the grapheme
    /// index is at most the addressed line's grapheme count.
    pub open spec fn cursor_valid(self) -> bool {
        let loc = self.spec_text_location();
        let lines = self.spec_buffer().lines@;
        &&& loc.line_index as nat <= lines.len()
        &&& loc.grapheme_index as nat <= line_len_at(lines, loc.line_index as int)
    }

    /// The cursor's screen row: its line index.
    pub open spec fn cursor_row(self) -> nat {
        self.spec_text_location().line_index as nat
    }

    /// The cursor's screen column: the rendered width of its line up to
    /// the cursor's grapheme index.
    pub open spec fn cursor_col(self) -> nat {
        let lines = self.spec_buffer().lines@;
        let loc = self.spec_text_location();
        if (loc.line_index as nat) < lines.len() {
            let gs = lines[loc.line_index as int]@;
            width_upto(
                gs,
                if loc.grapheme_index as nat <= gs.len() {
                    loc.grapheme_index as int
                } else {
                    gs.len() as int
                },
            )
        } else {
            0
        }
    }

    /// Shared read access to the buffer, for status, saving, and tests.
    pub fn buffer(&self) -> (r: &Buffer)
        ensures
            *r == self.spec_buffer(),
    {
        &self.buffer
    }

    /// The cursor location, in grapheme space.
    pub fn text_location(&self) -> (r: Location)
        ensures
            r == self.spec_text_location(),
    {
        self.text_location
    }

    /// The scroll offset, in screen space.
    pub fn scroll_offset(&self) -> (r: Position)
        ensures
            r == self.spec_scroll_offset(),
    {
        self.scroll_offset
    }

    /// The window size.
    pub fn size(&self) -> (r: Size)
        ensures
            r == self.spec_size(),
    {
        self.size
    }

    /// The derived document summary the status bar shows.
    pub fn get_status(&self) -> (r: DocumentStatus)
        ensures
            r.total_lines == self.spec_buffer().lines@.len(),
            r.current_line_index == self.spec_text_location().line_index,
            r.is_modified == self.spec_buffer().dirty,
            r.file_name@ == crate::fileinfo::display_name_spec(
                self.spec_buffer().file_info.path_spec(),
            ),
    {
        DocumentStatus {
            total_lines: self.buffer.height(),
            current_line_index: self.text_location.line_index,
            is_modified: self.buffer.dirty,
            file_name: self.buffer.file_info.display_name(),
        }
    }

    /// Whether the buffer has a file association.
    pub fn is_file_loaded(&self) -> (r: bool)
        ensures
            r == (self.spec_buffer().file_info.path_spec() is Some),
    {
        self.buffer.file_info.has_path()
    }

    /// Replaces the buffer with the given file's text and resets the
    /// cursor and scroll position to the start. The caller reads the
    /// file; this function only interprets its text.
    pub fn load(&mut self, file_name: &str, contents: &str)
        ensures
            final(self).spec_buffer().content_seq() == crate::buffer::split_lines(contents@),
            final(self).spec_buffer().file_info.path_spec() == Some(file_name@),
            final(self).spec_buffer().dirty == false,
            final(self).spec_text_location() == (Location { grapheme_index: 0, line_index: 0 }),
            final(self).spec_scroll_offset() == (Position { column: 0, row: 0 }),
            final(self).spec_size() == old(self).spec_size(),
            final(self).spec_needs_redraw() == true,
            final(self).cursor_valid(),
    {
        self.buffer = Buffer::load(file_name, contents);
        self.text_location = Location { grapheme_index: 0, line_index: 0 };
        self.scroll_offset = Position { column: 0, row: 0 };
        self.need_redraw = true;
    }

    /// Records a successful in-place save: clears the modified flag. The
    /// caller must first have written the serialized buffer to its file.
    pub fn save(&mut self)
        ensures
            final(self).spec_buffer().lines@ == old(self).spec_buffer().lines@,
            final(self).spec_buffer().file_info == old(self).spec_buffer().file_info,
            final(self).spec_buffer().dirty == false,
            final(self).spec_text_location() == old(self).spec_text_location(),
            final(self).spec_scroll_offset() == old(self).spec_scroll_offset(),
            final(self).spec_size() == old(self).spec_size(),
            final(self).spec_needs_redraw() == old(self).spec_needs_redraw(),
    {
        self.buffer.save();
    }

    /// Records a successful save under a new name: rebinds the file
    /// association and clears the modified flag. The caller must first
    /// have written the serialized buffer to that file.
    pub fn save_as(&mut self, file_name: &str)
        ensures
            final(self).spec_buffer().lines@ == old(self).spec_buffer().lines@,
            final(self).spec_buffer().file_info.path_spec() == Some(file_name@),
            final(self).spec_buffer().dirty == false,
            final(self).spec_text_location() == old(self).spec_text_location(),
            final(self).spec_scroll_offset() == old(self).spec_scroll_offset(),
            final(self).spec_size() == old(self).spec_size(),
            final(self).spec_needs_redraw() == old(self).spec_needs_redraw(),
    {
        self.buffer.save_as(file_name);
    }

    /// The serialized buffer text a save should write.
    pub fn serialize(&self) -> (r: String)
        ensures
            r@ == crate::buffer::join_lines(self.spec_buffer().content_seq()),
    {
        self.buffer.serialize()
    }

    /// The grapheme count of the line the cursor addresses (zero past the
    /// last line).
    fn current_line_len(&self) -> (r: usize)
        ensures
            r == line_len_at(self.spec_buffer().lines@, self.spec_text_location().line_index as int),
    {
        if self.text_location.line_index < self.buffer.lines.len() {
            self.buffer.lines[self.text_location.line_index].grapheme_count()
        } else {
            0
        }
    }

    /// Clamps the cursor's grapheme index to its line.
    fn snap_to_valid_grapheme(&mut self)
        ensures
            final(self).spec_text_location() == snap_grapheme_spec(
                old(self).spec_buffer().lines@,
                old(self).spec_text_location(),
            ),
            final(self).spec_buffer() == old(self).spec_buffer(),
            final(self).spec_size() == old(self).spec_size(),
            final(self).spec_scroll_offset() == old(self).spec_scroll_offset(),
            final(self).spec_needs_redraw() == old(self).spec_needs_redraw(),
    {
        let len = self.current_line_len();
        if self.text_location.grapheme_index > len {
            self.text_location.grapheme_index = len;
        }
    }

    /// Clamps the cursor's line index to the buffer height.
    fn snap_to_valid_line(&mut self)
        ensures
            final(self).spec_text_location() == snap_line_spec(
                old(self).spec_buffer().lines@,
                old(self).spec_text_location(),
            ),
            final(self).spec_buffer() == old(self).spec_buffer(),
            final(self).spec_size() == old(self).spec_size(),
            final(self).spec_scroll_offset() == old(self).spec_scroll_offset(),
            final(self).spec_needs_redraw() == old(self).spec_needs_redraw(),
    {
        let height = self.buffer.height();
        if self.text_location.line_index > height {
            self.text_location.line_index = height;
        }
    }

    /// Moves the cursor up `step` lines, snapping the grapheme index.
    fn move_up(&mut self, step: usize)
        ensures
            final(self).spec_text_location() == move_up_spec(
                old(self).spec_buffer().lines@,
                old(self).spec_text_location(),
                step as nat,
            ),
            final(self).spec_buffer() == old(self).spec_buffer(),
            final(self).spec_size() == old(self).spec_size(),
            final(self).spec_scroll_offset() == old(self).spec_scroll_offset(),
            final(self).spec_needs_redraw() == old(self).spec_needs_redraw(),
            final(self).cursor_valid(),
    {
        self.text_location.line_index = self.text_location.line_index.saturating_sub(step);
        self.snap_to_valid_grapheme();
        self.snap_to_valid_line();
    }

    /// Moves the cursor down `step` lines, snapping both indices.
    fn move_down(&mut self, step: usize)
        ensures
            final(self).spec_text_location() == move_down_spec(
                old(self).spec_buffer().lines@,
                old(self).spec_text_location(),
                step as nat,
            ),
            final(self).spec_buffer() == old(self).spec_buffer(),
            final(self).spec_size() == old(self).spec_size(),
            final(self).spec_scroll_offset() == old(self).spec_scroll_offset(),
            final(self).spec_needs_redraw() == old(self).spec_needs_redraw(),
            final(self).cursor_valid(),
    {
        self.text_location.line_index = self.text_location.line_index.saturating_add(step);
        self.snap_to_valid_grapheme();
        self.snap_to_valid_line();
    }

    /// Moves the cursor one grapheme left, wrapping to the end of the
    /// previous line at column zero.
    fn move_left(&mut self)
        requires
            old(self).cursor_valid(),
        ensures
            final(self).spec_text_location() == move_left_spec(
                old(self).spec_buffer().lines@,
                old(self).spec_text_location(),
            ),
            final(self).spec_buffer() == old(self).spec_buffer(),
            final(self).spec_size() == old(self).spec_size(),
            final(self).spec_scroll_offset() == old(self).spec_scroll_offset(),
            final(self).spec_needs_redraw() == old(self).spec_needs_redraw(),
            final(self).cursor_valid(),
    {
        if self.text_location.grapheme_index > 0 {
            self.text_location.grapheme_index = self.text_location.grapheme_index - 1;
        } else if self.text_location.line_index > 0 {
            self.move_up(1);
            self.move_to_end_of_line();
        }
    }

    /// Moves the cursor one grapheme right, wrapping to the start of the
    /// next line at the end of a line.
    fn move_right(&mut self)
        requires
            old(self).cursor_valid(),
        ensures
            final(self).spec_text_location() == move_right_spec(
                old(self).spec_buffer().lines@,
                old(self).spec_text_location(),
            ),
            final(self).spec_buffer() == old(self).spec_buffer(),
            final(self).spec_size() == old(self).spec_size(),
            final(self).spec_scroll_offset() == old(self).spec_scroll_offset(),
            final(self).spec_needs_redraw() == old(self).spec_needs_redraw(),
            final(self).cursor_valid(),
    {
        let line_grapheme_len = self.current_line_len();
        if self.text_location.grapheme_index < line_grapheme_len {
            self.text_location.grapheme_index = self.text_location.grapheme_index + 1;
        } else {
            self.move_down(1);
            self.move_to_start_of_line();
        }
    }

    /// Puts the cursor at the end of its line.
    fn move_to_end_of_line(&mut self)
        ensures
            final(self).spec_text_location() == (Location {
                grapheme_index: line_len_at(
                    old(self).spec_buffer().lines@,
                    old(self).spec_text_location().line_index as int,
                ) as usize,
                line_index: old(self).spec_text_location().line_index,
            }),
            final(self).spec_buffer() == old(self).spec_buffer(),
            final(self).spec_size() == old(self).spec_size(),
            final(self).spec_scroll_offset() == old(self).spec_scroll_offset(),
            final(self).spec_needs_redraw() == old(self).spec_needs_redraw(),
    {
        self.text_location.grapheme_index = self.current_line_len();
    }

    /// Puts the cursor at the start of its line.
    fn move_to_start_of_line(&mut self)
        ensures
            final(self).spec_text_location() == (Location {
                grapheme_index: 0,
                line_index: old(self).spec_text_location().line_index,
            }),
            final(self).spec_buffer() == old(self).spec_buffer(),
            final(self).spec_size() == old(self).spec_size(),
            final(self).spec_scroll_offset() == old(self).spec_scroll_offset(),
            final(self).spec_needs_redraw() == old(self).spec_needs_redraw(),
    {
        self.text_location.grapheme_index = 0;
    }

    /// Dispatches a movement command and scrolls the cursor into view.
    /// Afterwards the cursor is valid again, and — whenever the window
    /// has any extent — its screen position lies inside the window.
    pub fn handle_move_command(&mut self, command: Move)
        requires
            old(self).cursor_valid(),
        ensures
            move_post(*old(self), *final(self), command),
            final(self).cursor_valid(),
    {
        match command {
            Move::Up => self.move_up(1),
            Move::Down => self.move_down(1),
            Move::Left => self.move_left(),
            Move::Right => self.move_right(),
            Move::Pageup => {
                let step = self.size.rows.saturating_sub(1);
                self.move_up(step);
            },
            Move::PageDown => {
                let step = self.size.rows.saturating_sub(1);
                self.move_down(step);
            },
            Move::StartofLine => self.move_to_start_of_line(),
            Move::EndofLine => self.move_to_end_of_line(),
        }
        self.scroll_text_location_into_view();
    }

    /// Scrolls vertically so that row `to` is visible, with the minimal
    /// adjustment.
    fn scroll_vertically(&mut self, to: usize)
        ensures
            final(self).spec_scroll_offset().row as nat == scroll_adjust(
                old(self).spec_scroll_offset().row as nat,
                to as nat,
                old(self).spec_size().rows as nat,
            ),
            final(self).spec_scroll_offset().column == old(self).spec_scroll_offset().column,
            final(self).spec_buffer() == old(self).spec_buffer(),
            final(self).spec_size() == old(self).spec_size(),
            final(self).spec_text_location() == old(self).spec_text_location(),
            final(self).spec_needs_redraw() == (old(self).spec_needs_redraw() || scroll_moved(
                old(self).spec_scroll_offset().row as nat,
                to as nat,
                old(self).spec_size().rows as nat,
            )),
    {
        let rows = self.size.rows;
        let offset_changed = if to < self.scroll_offset.row {
            self.scroll_offset.row = to;
            true
        } else if to >= self.scroll_offset.row.saturating_add(rows) {
            self.scroll_offset.row = to.saturating_sub(rows).saturating_add(1);
            true
        } else {
            false
        };
        if offset_changed {
            self.need_redraw = true;
        }
    }

    /// Scrolls horizontally so that column `to` is visible, with the
    /// minimal adjustment.
    pub fn scroll_horizontally(&mut self, to: usize)
        ensures
            final(self).spec_scroll_offset().column as nat == scroll_adjust(
                old(self).spec_scroll_offset().column as nat,
                to as nat,
                old(self).spec_size().columns as nat,
            ),
            final(self).spec_scroll_offset().row == old(self).spec_scroll_offset().row,
            final(self).spec_buffer() == old(self).spec_buffer(),
            final(self).spec_size() == old(self).spec_size(),
            final(self).spec_text_location() == old(self).spec_text_location(),
            final(self).spec_needs_redraw() == (old(self).spec_needs_redraw() || scroll_moved(
                old(self).spec_scroll_offset().column as nat,
                to as nat,
                old(self).spec_size().columns as nat,
            )),
    {
        let columns = self.size.columns;
        let offset_changed = if to < self.scroll_offset.column {
            self.scroll_offset.column = to;
            true
        } else if to >= self.scroll_offset.column.saturating_add(columns) {
            self.scroll_offset.column = to.saturating_sub(columns).saturating_add(1);
            true
        } else {
            false
        };
        if offset_changed {
            self.need_redraw = true;
        }
    }

    /// Scrolls so the cursor's screen position is inside the window:
    /// afterwards, whenever the window has any extent, the cursor's row
    /// and column lie within `[offset, offset + size)`.
    pub fn scroll_text_location_into_view(&mut self)
        ensures
            final(self).spec_buffer() == old(self).spec_buffer(),
            final(self).spec_size() == old(self).spec_size(),
            final(self).spec_text_location() == old(self).spec_text_location(),
            final(self).spec_scroll_offset().row as nat == scroll_adjust(
                old(self).spec_scroll_offset().row as nat,
                old(self).cursor_row(),
                old(self).spec_size().rows as nat,
            ),
            final(self).spec_scroll_offset().column as nat == scroll_adjust(
                old(self).spec_scroll_offset().column as nat,
                old(self).cursor_col(),
                old(self).spec_size().columns as nat,
            ),
            final(self).spec_size().rows > 0 ==> final(self).spec_scroll_offset().row as nat
                <= final(self).cursor_row() < final(self).spec_scroll_offset().row as nat + final(self).spec_size().rows as nat,
            final(self).spec_size().columns > 0 ==> final(self).spec_scroll_offset().column as nat
                <= final(self).cursor_col() < final(self).spec_scroll_offset().column as nat
                + final(self).spec_size().columns as nat,
    {
        let position = self.text_locaton_to_position();
        self.scroll_vertically(position.row);
        self.scroll_horizontally(position.column);
    }

    /// The cursor's absolute screen position: row is the line index,
    /// column is the rendered width of the line up to the cursor.
    fn text_locaton_to_position(&self) -> (r: Position)
        ensures
            r.row as nat == self.cursor_row(),
            r.column as nat == self.cursor_col(),
    {
        let row = self.text_location.line_index;
        let column = if row < self.buffer.lines.len() {
            self.buffer.lines[row].width_until(self.text_location.grapheme_index)
        } else {
            0
        };
        Position { column, row }
    }

    /// The cursor's position inside the viewport: its absolute screen
    /// position minus the scroll offset, each coordinate clamped at zero.
    pub fn caret_position(&self) -> (r: Position)
        ensures
            r.row as nat == if self.cursor_row() >= self.spec_scroll_offset().row as nat {
                (self.cursor_row() - self.spec_scroll_offset().row as nat) as nat
            } else {
                0
            },
            r.column as nat == if self.cursor_col() >= self.spec_scroll_offset().column as nat {
                (self.cursor_col() - self.spec_scroll_offset().column as nat) as nat
            } else {
                0
            },
    {
        self.text_locaton_to_position().saturating_sub(self.scroll_offset)
    }

    /// Inserts one character at the cursor. When the line gains a
    /// grapheme cluster, the cursor steps right (scrolling into view);
    /// otherwise the cursor stays, clamped to the line.
    pub fn insert_char(&mut self, ch: char)
        requires
            old(self).cursor_valid(),
        ensures
            insert_char_post(*old(self), *final(self), ch),
            final(self).cursor_valid(),
    {
        let old_len = self.current_line_len();
        self.buffer.insert_char(ch, self.text_location);
        self.snap_to_valid_grapheme();
        let new_len = self.current_line_len();
        if new_len > old_len {
            self.handle_move_command(Move::Right);
        }
        self.scroll_text_location_into_view();
        self.need_redraw = true;
    }

    /// Splits the current line at the cursor; the cursor lands at the
    /// start of the new following line.
    pub fn insert_newline(&mut self)
        requires
            old(self).cursor_valid(),
        ensures
            insert_newline_post(*old(self), *final(self)),
            final(self).cursor_valid(),
    {
        self.buffer.insert_newline(self.text_location);
        proof {
            vstd::std_specs::vec::axiom_spec_len(&self.buffer.lines);
        }
        self.handle_move_command(Move::Right);
        self.need_redraw = true;
    }

    /// Deletes forward at the cursor: removes the addressed grapheme
    /// cluster, or merges the following line up when the cursor is past
    /// the line's end. The cursor stays, clamped to the line.
    pub fn delete(&mut self)
        requires
            old(self).cursor_valid(),
        ensures
            delete_post(*old(self), *final(self)),
            final(self).cursor_valid(),
    {
        self.buffer.delete(self.text_location);
        self.snap_to_valid_grapheme();
        self.scroll_text_location_into_view();
        self.need_redraw = true;
    }

    /// Deletes backward: moves the cursor one step left (scrolling into
    /// view), then deletes forward there. A no-op at the very start of
    /// the buffer.
    pub fn delete_backward(&mut self)
        requires
            old(self).cursor_valid(),
        ensures
            delete_backward_post(*old(self), *final(self)),
            final(self).cursor_valid(),
    {
        if self.text_location.line_index == 0 && self.text_location.grapheme_index == 0 {
            return ;
        }
        self.handle_move_command(Move::Left);
        let ghost mid: View = View {
            buffer: self.buffer,
            need_redraw: self.need_redraw,
            size: self.size,
            text_location: self.text_location,
            scroll_offset: self.scroll_offset,
        };
        self.delete();
        self.need_redraw = true;
        proof {
            assert(mid.spec_text_location() == move_left_spec(
                old(self).spec_buffer().lines@,
                old(self).spec_text_location(),
            ));
            assert(delete_post(mid, *final(self)));
        }
    }

    /// Dispatches an edit command to the buffer through the cursor.
    pub fn handle_edit_command(&mut self, command: Edit)
        requires
            old(self).cursor_valid(),
        ensures
            edit_post(*old(self), *final(self), command),
            final(self).cursor_valid(),
    {
        match command {
            Edit::Insert(ch) => self.insert_char(ch),
            Edit::InsertNewline => self.insert_newline(),
            Edit::Delete => self.delete(),
            Edit::DeleteBackward => self.delete_backward(),
        }
    }

    /// The text shown on viewport row `row`: a slice of the addressed
    /// buffer line, the welcome message on the center row of an empty
    /// buffer, or a tilde for rows past the end.
    pub fn draw_rows(&self) -> (r: Vec<String>)
        ensures
            r@.len() == self.spec_size().rows,
            forall|i: int|
                0 <= i < r@.len() ==> (#[trigger] r@[i])@ == self.row_text_spec(i as nat),
    {
        let rows = self.size.rows;
        let mut result: Vec<String> = Vec::new();
        let mut current_row: usize = 0;
        while current_row < rows
            invariant
                current_row <= rows,
                rows == self.spec_size().rows,
                result@.len() == current_row,
                forall|i: int|
                    0 <= i < current_row ==> (#[trigger] result@[i])@ == self.row_text_spec(
                        i as nat,
                    ),
            decreases rows - current_row,
        {
            let line_idx = current_row.saturating_add(self.scroll_offset.row);
            let text = if line_idx < self.buffer.lines.len() {
                let left = self.scroll_offset.column;
                let right = self.scroll_offset.column.saturating_add(self.size.columns);
                self.buffer.lines[line_idx].get_visible_graheme(left..right)
            } else if current_row == rows / 3 && self.buffer.is_empty() {
                build_welcome_message(self.size.columns)
            } else {
                tilde_row()
            };
            result.push(text);
            current_row = current_row + 1;
        }
        result
    }

    /// What `draw_rows` puts on viewport row `row`.
    pub open spec fn row_text_spec(self, row: nat) -> Seq<char> {
        let lines = self.spec_buffer().lines@;
        let off = self.spec_scroll_offset();
        let size = self.spec_size();
        let line_idx = sat_add(row, off.row as nat);
        if line_idx < lines.len() {
            visible_slice(
                lines[line_idx as int]@,
                off.column as nat,
                sat_add(off.column as nat, size.columns as nat),
            )
        } else if row == size.rows as nat / 3 && lines.len() == 0 {
            welcome_message_spec(size.columns as nat)
        } else {
            "~"@
        }
    }

    /// Reads the view's redraw flag.
    pub fn needs_redraw(&self) -> (r: bool)
        ensures
            r == self.spec_needs_redraw(),
    {
        self.need_redraw
    }

    /// Sets the view's redraw flag, touching nothing else.
    pub fn set_needs_redraw(&mut self, value: bool)
        ensures
            final(self).spec_needs_redraw() == value,
            final(self).spec_buffer() == old(self).spec_buffer(),
            final(self).spec_size() == old(self).spec_size(),
            final(self).spec_text_location() == old(self).spec_text_location(),
            final(self).spec_scroll_offset() == old(self).spec_scroll_offset(),
    {
        self.need_redraw = value;
    }

    /// Sets the window size, keeps the cursor visible in the new window,
    /// and marks the view for redraw.
    pub fn resize(&mut self, size: Size)
        ensures
            final(self).spec_size() == size,
            final(self).spec_buffer() == old(self).spec_buffer(),
            final(self).spec_text_location() == old(self).spec_text_location(),
            final(self).spec_needs_redraw() == true,
            size.rows > 0 ==> final(self).spec_scroll_offset().row as nat <= final(self).cursor_row() < final(self).spec_scroll_offset().row as nat + size.rows as nat,
            size.columns > 0 ==> final(self).spec_scroll_offset().column as nat <= final(self).cursor_col() < final(self).spec_scroll_offset().column as nat + size.columns as nat,
    {
        self.size = size;
        self.scroll_text_location_into_view();
        self.need_redraw = true;
    }
}

/// The cursor's screen position lies inside the window, in every
/// dimension that has any extent.
pub open spec fn cursor_in_window(v: View) -> bool {
    &&& (v.spec_size().rows > 0 ==> v.spec_scroll_offset().row as nat <= v.cursor_row()
        < v.spec_scroll_offset().row as nat + v.spec_size().rows as nat)
    &&& (v.spec_size().columns > 0 ==> v.spec_scroll_offset().column as nat <= v.cursor_col()
        < v.spec_scroll_offset().column as nat + v.spec_size().columns as nat)
}

/// The effect of a movement command on a view: the cursor moves as
/// `move_command_spec` says, the buffer and size are untouched, and the
/// cursor's screen position lies inside any window with extent.
pub open spec fn move_post(v0: View, v1: View, command: Move) -> bool {
    &&& v1.spec_text_location() == move_command_spec(
        v0.spec_buffer().lines@,
        v0.spec_text_location(),
        command,
        v0.spec_size().rows as nat,
    )
    &&& v1.spec_buffer() == v0.spec_buffer()
    &&& v1.spec_size() == v0.spec_size()
    &&& cursor_in_window(v1)
}

/// The effect of an edit command on a view.
pub open spec fn edit_post(v0: View, v1: View, command: Edit) -> bool {
    match command {
        Edit::Insert(ch) => insert_char_post(v0, v1, ch),
        Edit::InsertNewline => insert_newline_post(v0, v1),
        Edit::Delete => delete_post(v0, v1),
        Edit::DeleteBackward => delete_backward_post(v0, v1),
    }
}

/// The effect of deleting backward: nothing at the very start of the
/// buffer; otherwise a left move (scrolled into view) followed by a
/// forward delete at the moved-to location, witnessed by the state in
/// between.
pub open spec fn delete_backward_post(v0: View, v1: View) -> bool {
    let at_origin = v0.spec_text_location().line_index == 0
        && v0.spec_text_location().grapheme_index == 0;
    &&& (at_origin ==> v1 == v0)
    &&& (!at_origin ==> exists|mid: View|
        {
            &&& #[trigger] mid.spec_text_location() == move_left_spec(
                v0.spec_buffer().lines@,
                v0.spec_text_location(),
            )
            &&& mid.spec_buffer() == v0.spec_buffer()
            &&& mid.spec_size() == v0.spec_size()
            &&& delete_post(mid, v1)
        })
}

/// The effect of inserting `ch` at the cursor of `v0`, leaving `v1`.
pub open spec fn insert_char_post(v0: View, v1: View, ch: char) -> bool {
    let loc = v0.spec_text_location();
    let li = loc.line_index as int;
    let lines0 = v0.spec_buffer().lines@;
    let lines1 = v1.spec_buffer().lines@;
    let old_len = line_len_at(lines0, li);
    let new_len = line_len_at(lines1, li);
    &&& v1.spec_buffer().file_info == v0.spec_buffer().file_info
    &&& v1.spec_size() == v0.spec_size()
    &&& v1.spec_needs_redraw() == true
    &&& v1.spec_buffer().dirty == true
    &&& li == v1.spec_text_location().line_index
    &&& (li == lines0.len() ==> {
        &&& lines1.len() == lines0.len() + 1
        &&& (forall|j: int| 0 <= j < lines0.len() ==> lines1[j] == lines0[j])
        &&& lines1.last().content() == seq![ch]
    })
    &&& (li < lines0.len() ==> {
        &&& lines1.len() == lines0.len()
        &&& (forall|j: int| 0 <= j < lines0.len() && j != li ==> lines1[j] == lines0[j])
        &&& lines1[li]@ == crate::unicode::graphemes_of(
            spliced_content(lines0[li]@, loc.grapheme_index as int, ch),
        )
        &&& lines1[li].content() == spliced_content(lines0[li]@, loc.grapheme_index as int, ch)
    })
    &&& (new_len > old_len ==> v1.spec_text_location().grapheme_index == loc.grapheme_index + 1)
    &&& (new_len <= old_len ==> v1.spec_text_location().grapheme_index as nat == (
    if loc.grapheme_index as nat <= new_len {
        loc.grapheme_index as nat
    } else {
        new_len
    }))
    &&& cursor_in_window(v1)
}

/// The effect of inserting a line break at the cursor of `v0`.
pub open spec fn insert_newline_post(v0: View, v1: View) -> bool {
    let loc = v0.spec_text_location();
    let li = loc.line_index as int;
    let gi = loc.grapheme_index as nat;
    let lines0 = v0.spec_buffer().lines@;
    let lines1 = v1.spec_buffer().lines@;
    &&& v1.spec_buffer().file_info == v0.spec_buffer().file_info
    &&& v1.spec_size() == v0.spec_size()
    &&& v1.spec_needs_redraw() == true
    &&& v1.spec_buffer().dirty == true
    &&& lines1.len() == lines0.len() + 1
    &&& (li == lines0.len() ==> {
        &&& (forall|j: int| 0 <= j < lines0.len() ==> lines1[j] == lines0[j])
        &&& lines1.last()@ == Seq::<Seq<char>>::empty()
    })
    &&& (li < lines0.len() ==> {
        &&& (forall|j: int| 0 <= j < li ==> lines1[j] == lines0[j])
        &&& lines1[li]@ == lines0[li]@.take(gi as int)
        &&& lines1[li + 1]@ == lines0[li]@.skip(gi as int)
        &&& (forall|j: int| li + 1 < j < lines1.len() ==> lines1[j] == lines0[j - 1])
    })
    &&& v1.spec_text_location().line_index == li + 1
    &&& v1.spec_text_location().grapheme_index == 0
    &&& cursor_in_window(v1)
}

/// The effect of deleting forward at the cursor of `v0`.
pub open spec fn delete_post(v0: View, v1: View) -> bool {
    let loc = v0.spec_text_location();
    let li = loc.line_index as int;
    let gi = loc.grapheme_index as nat;
    let lines0 = v0.spec_buffer().lines@;
    let lines1 = v1.spec_buffer().lines@;
    &&& v1.spec_buffer().file_info == v0.spec_buffer().file_info
    &&& v1.spec_size() == v0.spec_size()
    &&& v1.spec_scroll_offset().row as nat == scroll_adjust(
        v0.spec_scroll_offset().row as nat,
        v1.cursor_row(),
        v0.spec_size().rows as nat,
    )
    &&& v1.spec_scroll_offset().column as nat == scroll_adjust(
        v0.spec_scroll_offset().column as nat,
        v1.cursor_col(),
        v0.spec_size().columns as nat,
    )
    &&& cursor_in_window(v1)
    &&& v1.spec_needs_redraw() == true
    &&& (li >= lines0.len() ==> {
        &&& lines1 == lines0
        &&& v1.spec_buffer().dirty == v0.spec_buffer().dirty
    })
    &&& (li < lines0.len() && gi >= lines0[li]@.len() && li + 1 < lines0.len() ==> {
        &&& lines1.len() == lines0.len() - 1
        &&& (forall|j: int| 0 <= j < li ==> lines1[j] == lines0[j])
        &&& lines1[li].content() == lines0[li].content() + lines0[li + 1].content()
        &&& (forall|j: int| li < j < lines1.len() ==> lines1[j] == lines0[j + 1])
        &&& v1.spec_buffer().dirty == true
    })
    &&& (li < lines0.len() && gi < lines0[li]@.len() ==> {
        &&& lines1.len() == lines0.len()
        &&& (forall|j: int| 0 <= j < lines0.len() && j != li ==> lines1[j] == lines0[j])
        &&& lines1[li].content() == content_without(lines0[li]@, gi as int)
        &&& v1.spec_buffer().dirty == true
    })
    &&& (li < lines0.len() && gi >= lines0[li]@.len() && li + 1 >= lines0.len() ==> {
        &&& lines1 == lines0
        &&& v1.spec_buffer().dirty == v0.spec_buffer().dirty
    })
    &&& v1.spec_text_location().line_index == li
    &&& v1.spec_text_location().grapheme_index as nat == (if gi <= line_len_at(lines1, li) {
        gi
    } else {
        line_len_at(lines1, li)
    })
}

impl Default for View {
    /// An empty view: empty buffer, cursor at the origin, no scroll, and
    /// a redraw pending.
    fn default() -> (r: View)
        ensures
            r.spec_buffer().lines@.len() == 0,
            r.spec_buffer().file_info.path_spec() is None,
            r.spec_buffer().dirty == false,
            r.spec_text_location() == (Location { grapheme_index: 0, line_index: 0 }),
            r.spec_scroll_offset() == (Position { column: 0, row: 0 }),
            r.spec_size() == (Size { columns: 0, rows: 0 }),
            r.spec_needs_redraw() == true,
            r.cursor_valid(),
    {
        View {
            buffer: Buffer::default(),
            need_redraw: true,
            size: Size { columns: 0, rows: 0 },
            text_location: Location { grapheme_index: 0, line_index: 0 },
            scroll_offset: Position { column: 0, row: 0 },
        }
    }
}

impl UIComponent for View {
    open spec fn redraw_flag(&self) -> bool {
        self.spec_needs_redraw()
    }

    fn set_needs_redraw(&mut self, value: bool) {
        self.need_redraw = value;
    }

    fn needs_redraw(&self) -> bool {
        self.need_redraw
    }

    fn set_size(&mut self, size: Size) {
        self.size = size;
        self.scroll_text_location_into_view();
    }

    fn draw_lines(&mut self) -> Vec<String> {
        self.draw_rows()
    }
}

/// The greeting shown on the center row of an empty buffer: a tilde, then
/// the editor's name and version centered-ish, cut to the window width; a
/// bare tilde when the window is too narrow, nothing when it has no width.
pub open spec fn welcome_message_spec(columns: nat) -> Seq<char> {
    let msg = "hecto editor -- version 0.1.0"@;
    if columns == 0 {
        Seq::empty()
    } else if columns < msg.len() {
        "~"@
    } else {
        let padding = (columns - msg.len()) / 2;
        let full = "~"@ + Seq::new((padding + 1) as nat, |i: int| ' ') + msg;
        if full.len() <= columns {
            full
        } else {
            full.take(columns as int)
        }
    }
}

/// Builds the welcome row for a window `columns` wide.
pub fn build_welcome_message(columns: usize) -> (r: String)
    ensures
        r@ == welcome_message_spec(columns as nat),
{
    if columns == 0 {
        return String::new();
    }
    let msg = "hecto editor -- version 0.1.0";
    let msg_len = msg.unicode_len();
    if columns < msg_len {
        return tilde_row();
    }
    let padding_len = (columns - msg_len) / 2;
    let mut welcome = tilde_row();
    let pad = spaces(padding_len.saturating_add(1));
    welcome.append(pad.as_str());
    welcome.append(msg);
    let wlen = welcome.as_str().unicode_len();
    if wlen > columns {
        let cut = welcome.as_str().substring_char(0, columns);
        let r = cut.to_owned();
        proof {
            assert(r@ =~= welcome_message_spec(columns as nat));
        }
        r
    } else {
        proof {
            assert(welcome@ =~= welcome_message_spec(columns as nat));
        }
        welcome
    }
}

/// A row holding just a tilde, marking space past the buffer's end.
fn tilde_row() -> (r: String)
    ensures
        r@ == "~"@,
{
    let mut s = String::new();
    s.append("~");
    proof {
        assert(s@ =~= "~"@);
    }
    s
}

} // verus!
