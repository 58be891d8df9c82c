use hecto::command::{Edit, Move};
use hecto::size::Size;
use hecto::view::{build_welcome_message, View};

fn view_with(contents: &str, columns: usize, rows: usize) -> View {
    let mut view = View::default();
    view.load("f.txt", contents);
    view.resize(Size { columns, rows });
    view
}

#[test]
fn vertical_move_snaps_grapheme_index() {
    let mut view = view_with("abcde\nxy\n", 80, 10);
    view.handle_move_command(Move::EndofLine);
    assert_eq!(view.text_location().grapheme_index, 5);
    view.handle_move_command(Move::Down);
    let loc = view.text_location();
    assert_eq!(loc.line_index, 1);
    assert_eq!(loc.grapheme_index, 2);
}

#[test]
fn left_wraps_to_previous_line_end() {
    let mut view = view_with("abc\nxyz\n", 80, 10);
    view.handle_move_command(Move::Down);
    view.handle_move_command(Move::Left);
    let loc = view.text_location();
    assert_eq!(loc.line_index, 0);
    assert_eq!(loc.grapheme_index, 3);
}

#[test]
fn right_wraps_to_next_line_start() {
    let mut view = view_with("ab\nxyz\n", 80, 10);
    view.handle_move_command(Move::EndofLine);
    view.handle_move_command(Move::Right);
    let loc = view.text_location();
    assert_eq!(loc.line_index, 1);
    assert_eq!(loc.grapheme_index, 0);
}

#[test]
fn page_moves_use_window_height() {
    let mut view = view_with("a\nb\nc\nd\ne\nf\ng\nh\n", 80, 4);
    view.handle_move_command(Move::PageDown);
    assert_eq!(view.text_location().line_index, 3);
    view.handle_move_command(Move::PageDown);
    assert_eq!(view.text_location().line_index, 6);
    view.handle_move_command(Move::Pageup);
    assert_eq!(view.text_location().line_index, 3);
}

#[test]
fn cursor_stays_valid_under_move_and_edit_sequences() {
    let mut view = view_with("abcde\nxy\n\u{65e5}\u{672c}\n", 20, 3);
    let moves = [
        Move::Down,
        Move::EndofLine,
        Move::Down,
        Move::Right,
        Move::Right,
        Move::PageDown,
        Move::Left,
        Move::Up,
        Move::StartofLine,
        Move::Pageup,
    ];
    for m in moves {
        view.handle_move_command(m);
        let loc = view.text_location();
        assert!(loc.line_index <= view.buffer().height());
        let line_len = if loc.line_index < view.buffer().height() {
            view.buffer().lines[loc.line_index].grapheme_count()
        } else {
            0
        };
        assert!(loc.grapheme_index <= line_len);
    }
    for e in [Edit::Insert('q'), Edit::InsertNewline, Edit::Delete, Edit::DeleteBackward] {
        view.handle_edit_command(e);
        let loc = view.text_location();
        assert!(loc.line_index <= view.buffer().height());
        let line_len = if loc.line_index < view.buffer().height() {
            view.buffer().lines[loc.line_index].grapheme_count()
        } else {
            0
        };
        assert!(loc.grapheme_index <= line_len);
    }
}

#[test]
fn scrolling_keeps_cursor_inside_window() {
    let mut view = view_with("abcdefghij\nk\n", 4, 2);
    view.handle_move_command(Move::EndofLine);
    // Cursor column 10; window 4 wide: offset moves to 10 - 4 + 1 = 7.
    assert_eq!(view.scroll_offset().column, 7);
    let caret = view.caret_position();
    assert!(caret.column < 4);
    assert_eq!(caret.column, 3);
    view.handle_move_command(Move::StartofLine);
    assert_eq!(view.scroll_offset().column, 0);
    assert_eq!(view.caret_position().column, 0);
}

#[test]
fn vertical_scroll_minimal_adjustment() {
    let mut view = view_with("a\nb\nc\nd\ne\n", 80, 2);
    view.handle_move_command(Move::Down);
    assert_eq!(view.scroll_offset().row, 0);
    view.handle_move_command(Move::Down);
    // Row 2 with a 2-row window: offset becomes 2 - 2 + 1 = 1.
    assert_eq!(view.scroll_offset().row, 1);
    view.handle_move_command(Move::Up);
    assert_eq!(view.scroll_offset().row, 1);
    view.handle_move_command(Move::Up);
    assert_eq!(view.scroll_offset().row, 0);
}

#[test]
fn backspace_at_line_start_merges_upward() {
    // Line 0 has 5 graphemes, line 1 has 3: backspace at (1, 0) merges,
    // the height drops by one, and the cursor lands at (0, 5).
    let mut view = view_with("abcde\nxyz\n", 80, 10);
    view.handle_move_command(Move::Down);
    assert_eq!(view.text_location().line_index, 1);
    assert_eq!(view.text_location().grapheme_index, 0);
    view.handle_edit_command(Edit::DeleteBackward);
    assert_eq!(view.buffer().height(), 1);
    assert_eq!(view.buffer().lines[0].grapheme_count(), 8);
    let loc = view.text_location();
    assert_eq!(loc.line_index, 0);
    assert_eq!(loc.grapheme_index, 5);
}

#[test]
fn backspace_at_origin_is_no_op() {
    let mut view = view_with("abc\n", 80, 10);
    view.handle_edit_command(Edit::DeleteBackward);
    assert_eq!(view.buffer().lines[0].to_string(), "abc");
    assert_eq!(view.text_location().grapheme_index, 0);
}

#[test]
fn insert_moves_cursor_right() {
    let mut view = view_with("", 80, 10);
    view.handle_edit_command(Edit::Insert('h'));
    view.handle_edit_command(Edit::Insert('i'));
    assert_eq!(view.buffer().lines[0].to_string(), "hi");
    assert_eq!(view.text_location().grapheme_index, 2);
    assert!(view.buffer().dirty);
}

#[test]
fn newline_splits_and_cursor_lands_on_next_line() {
    let mut view = view_with("abcd\n", 80, 10);
    view.handle_move_command(Move::Right);
    view.handle_move_command(Move::Right);
    view.handle_edit_command(Edit::InsertNewline);
    assert_eq!(view.buffer().lines[0].to_string(), "ab");
    assert_eq!(view.buffer().lines[1].to_string(), "cd");
    let loc = view.text_location();
    assert_eq!(loc.line_index, 1);
    assert_eq!(loc.grapheme_index, 0);
}

#[test]
fn delete_forward_merges_at_line_end() {
    let mut view = view_with("ab\ncd\n", 80, 10);
    view.handle_move_command(Move::EndofLine);
    view.handle_edit_command(Edit::Delete);
    assert_eq!(view.buffer().height(), 1);
    assert_eq!(view.buffer().lines[0].to_string(), "abcd");
}

#[test]
fn welcome_message_shapes() {
    assert_eq!(build_welcome_message(0), "");
    assert_eq!(build_welcome_message(5), "~");
    let msg = build_welcome_message(80);
    assert!(msg.starts_with('~'));
    assert!(msg.contains("hecto editor -- version 0.1.0"));
    assert!(msg.chars().count() <= 80);
}

#[test]
fn draw_rows_tilde_and_welcome() {
    let mut view = View::default();
    view.resize(Size { columns: 40, rows: 9 });
    let rows = view.draw_rows();
    assert_eq!(rows.len(), 9);
    for (i, row) in rows.iter().enumerate() {
        if i == 3 {
            assert!(row.contains("hecto"));
        } else {
            assert_eq!(row, "~");
        }
    }
}

#[test]
fn draw_rows_show_visible_slices() {
    let mut view = view_with("abcdefghij\nk\n", 4, 3);
    view.handle_move_command(Move::EndofLine);
    let rows = view.draw_rows();
    assert_eq!(rows.len(), 3);
    // Offset column is 7: the first row shows the tail of its line, the
    // second line lies entirely left of the window, and the third row is
    // past the buffer's end.
    assert_eq!(rows[0], "hij");
    assert_eq!(rows[1], "");
    assert_eq!(rows[2], "~");
}

#[test]
fn get_status_reports_document_summary() {
    let mut view = view_with("ab\ncd\n", 80, 10);
    view.handle_move_command(Move::Down);
    let status = view.get_status();
    assert_eq!(status.total_lines, 2);
    assert_eq!(status.current_line_index, 1);
    assert!(!status.is_modified);
    assert_eq!(status.file_name, "f.txt");
    assert_eq!(status.line_count_to_string(), "2 lines");
    assert_eq!(status.position_indicator_to_string(), "2/2");
    assert_eq!(status.modified_indicator_to_string(), "");
}

#[test]
fn load_resets_cursor_and_scroll() {
    let mut view = view_with("a\nb\nc\nd\n", 80, 2);
    view.handle_move_command(Move::PageDown);
    view.handle_move_command(Move::PageDown);
    assert!(view.scroll_offset().row > 0);
    view.load("g.txt", "x\n");
    assert_eq!(view.text_location().line_index, 0);
    assert_eq!(view.scroll_offset().row, 0);
}
