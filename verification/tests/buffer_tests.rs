use hecto::buffer::Buffer;
use hecto::view::Location;

fn line_texts(buffer: &Buffer) -> Vec<String> {
    buffer.lines.iter().map(|l| l.to_string()).collect()
}

#[test]
fn load_splits_on_line_feeds() {
    let buffer = Buffer::load("f.txt", "ab\ncd\n");
    assert_eq!(line_texts(&buffer), vec!["ab".to_string(), "cd".to_string()]);
    assert!(!buffer.dirty);
    assert_eq!(buffer.file_info.get_path(), Some("f.txt"));
}

#[test]
fn load_handles_crlf_and_missing_final_terminator() {
    let buffer = Buffer::load("f.txt", "ab\r\ncd");
    assert_eq!(line_texts(&buffer), vec!["ab".to_string(), "cd".to_string()]);
}

#[test]
fn load_empty_text_gives_empty_buffer() {
    let buffer = Buffer::load("f.txt", "");
    assert!(buffer.is_empty());
    assert_eq!(buffer.height(), 0);
}

#[test]
fn serialize_writes_one_terminator_per_line() {
    let buffer = Buffer::load("f.txt", "ab\ncd");
    assert_eq!(buffer.serialize(), "ab\ncd\n");
}

#[test]
fn three_records() {
    // Saving then reloading yields line content identical to before.
    let original = Buffer::load("f.txt", "first\nsecond record\n\u{65e5}\u{672c} third\n");
    let written = original.serialize();
    let reloaded = Buffer::load("f.txt", written.as_str());
    assert_eq!(line_texts(&original), line_texts(&reloaded));
}

#[test]
fn insert_char_into_line_and_past_end() {
    let mut buffer = Buffer::load("f.txt", "ab\n");
    buffer.insert_char('x', Location { line_index: 0, grapheme_index: 1 });
    assert_eq!(line_texts(&buffer), vec!["axb".to_string()]);
    assert!(buffer.dirty);
    buffer.insert_char('z', Location { line_index: 1, grapheme_index: 0 });
    assert_eq!(line_texts(&buffer), vec!["axb".to_string(), "z".to_string()]);
    buffer.insert_char('q', Location { line_index: 9, grapheme_index: 0 });
    assert_eq!(buffer.height(), 2);
}

#[test]
fn insert_newline_splits_a_line() {
    let mut buffer = Buffer::load("f.txt", "abcd\n");
    buffer.insert_newline(Location { line_index: 0, grapheme_index: 2 });
    assert_eq!(line_texts(&buffer), vec!["ab".to_string(), "cd".to_string()]);
    buffer.insert_newline(Location { line_index: 2, grapheme_index: 0 });
    assert_eq!(line_texts(&buffer), vec!["ab".to_string(), "cd".to_string(), "".to_string()]);
}

#[test]
fn delete_removes_grapheme_or_merges() {
    let mut buffer = Buffer::load("f.txt", "ab\ncd\n");
    buffer.delete(Location { line_index: 0, grapheme_index: 0 });
    assert_eq!(line_texts(&buffer), vec!["b".to_string(), "cd".to_string()]);
    buffer.delete(Location { line_index: 0, grapheme_index: 1 });
    assert_eq!(line_texts(&buffer), vec!["bcd".to_string()]);
    buffer.delete(Location { line_index: 0, grapheme_index: 3 });
    assert_eq!(line_texts(&buffer), vec!["bcd".to_string()]);
    buffer.delete(Location { line_index: 5, grapheme_index: 0 });
    assert_eq!(line_texts(&buffer), vec!["bcd".to_string()]);
}

#[test]
fn backspace_cases() {
    let mut buffer = Buffer::load("f.txt", "ab\ncd\n");
    buffer.backspace(Location { line_index: 0, grapheme_index: 0 });
    assert_eq!(line_texts(&buffer), vec!["ab".to_string(), "cd".to_string()]);
    buffer.backspace(Location { line_index: 1, grapheme_index: 1 });
    assert_eq!(line_texts(&buffer), vec!["ab".to_string(), "d".to_string()]);
    buffer.backspace(Location { line_index: 1, grapheme_index: 0 });
    assert_eq!(line_texts(&buffer), vec!["abd".to_string()]);
}

#[test]
fn tab_splits_like_insert_newline() {
    let mut buffer = Buffer::load("f.txt", "abcd\n");
    buffer.tab(Location { line_index: 0, grapheme_index: 3 });
    assert_eq!(line_texts(&buffer), vec!["abc".to_string(), "d".to_string()]);
}

#[test]
fn save_and_save_as_clear_dirty() {
    let mut buffer = Buffer::load("f.txt", "ab\n");
    buffer.insert_char('x', Location { line_index: 0, grapheme_index: 0 });
    assert!(buffer.dirty);
    buffer.save();
    assert!(!buffer.dirty);
    assert_eq!(buffer.file_info.get_path(), Some("f.txt"));
    buffer.insert_char('y', Location { line_index: 0, grapheme_index: 0 });
    buffer.save_as("g.txt");
    assert!(!buffer.dirty);
    assert_eq!(buffer.file_info.get_path(), Some("g.txt"));
}

#[test]
fn display_name_is_last_path_component() {
    let buffer = Buffer::load("dir/sub/name.txt", "x\n");
    assert_eq!(buffer.file_info.display_name(), "name.txt");
    let unnamed = Buffer::default();
    assert_eq!(unnamed.file_info.display_name(), "[No Name]");
}

#[test]
fn load_single_terminator_gives_one_empty_line() {
    let buffer = Buffer::load("f.txt", "\n");
    assert_eq!(buffer.height(), 1);
    assert_eq!(buffer.lines[0].to_string(), "");
}

#[test]
fn load_keeps_carriage_return_without_line_feed() {
    // Only a carriage return directly before a line feed is terminator
    // punctuation; a bare trailing one is content.
    let buffer = Buffer::load("f.txt", "ab\r");
    assert_eq!(buffer.height(), 1);
    assert_eq!(buffer.lines[0].to_string(), "ab\r");
}
