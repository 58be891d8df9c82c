use hecto::line::Line;

#[test]
fn round_trip_ascii() {
    let line = Line::from("hello world");
    assert_eq!(line.to_string(), "hello world");
}

#[test]
fn round_trip_unicode() {
    let text = "a\u{310}e\u{301} \u{65e5}\u{672c}\tx";
    let line = Line::from(text);
    assert_eq!(line.to_string(), text);
}

#[test]
fn round_trip_keeps_replaced_characters() {
    // Substitution glyphs affect rendering only, never storage.
    let text = "a\u{a0}b\u{7}c";
    let line = Line::from(text);
    assert_eq!(line.to_string(), text);
}

#[test]
fn grapheme_count_combining_marks() {
    // One user-perceived character per cluster, not one per code point.
    let line = Line::from("a\u{310}e\u{301}");
    assert_eq!(line.grapheme_count(), 2);
}

#[test]
fn width_of_wide_characters() {
    assert_eq!(Line::from("abc").width(), 3);
    assert_eq!(Line::from("\u{65e5}").width(), 2);
    assert_eq!(Line::from("a\u{65e5}b").width(), 4);
}

#[test]
fn width_until_monotonic_on_mixed_line() {
    let line = Line::from("a\u{65e5}\tb\u{310}");
    let count = line.grapheme_count();
    for i in 0..count {
        assert!(line.width_until(i) <= line.width_until(i + 1));
    }
}

#[test]
fn tab_width_depends_on_position() {
    assert_eq!(Line::from("\t").width(), 4);
    assert_eq!(Line::from("a\t").width(), 4);
    assert_eq!(Line::from("abcd\t").width(), 8);
    assert_eq!(Line::from("abc\tz").width(), 5);
}

#[test]
fn insert_then_tab_renders_three_spaces() {
    let mut line = Line::default();
    line.insert_char('t', 0);
    line.insert_char('\t', 1);
    assert_eq!(line.get_visible_graheme(0..80), "t   ");
}

#[test]
fn visible_slice_straddling_boundary_is_ellipsis() {
    let line = Line::from("\u{65e5}\u{672c}");
    assert_eq!(line.get_visible_graheme(1..4), "\u{22ef}\u{672c}");
}

#[test]
fn visible_slice_empty_range() {
    let line = Line::from("abc");
    assert_eq!(line.get_visible_graheme(2..2), "");
    assert_eq!(line.get_visible_graheme(3..1), "");
}

#[test]
fn visible_slice_plain_window() {
    let line = Line::from("abcdef");
    assert_eq!(line.get_visible_graheme(1..4), "bcd");
}

#[test]
fn visible_tab_clipped_at_window_edge() {
    // The tab spans columns 0..4; a window ending inside it shows only
    // the spaces that fall within the window.
    let line = Line::from("\tx");
    assert_eq!(line.get_visible_graheme(0..2), "  ");
    assert_eq!(line.get_visible_graheme(2..6), "  x");
}

#[test]
fn invisible_blank_renders_substitution() {
    let line = Line::from("\u{a0}");
    assert_eq!(line.get_visible_graheme(0..10), "\u{2423}");
}

#[test]
fn control_character_renders_substitution() {
    let line = Line::from("\u{7}");
    assert_eq!(line.get_visible_graheme(0..10), "\u{25af}");
}

#[test]
fn zero_width_renders_middle_dot() {
    let line = Line::from("\u{200b}");
    assert_eq!(line.get_visible_graheme(0..10), "\u{b7}");
}

#[test]
fn insert_char_in_middle() {
    let mut line = Line::from("ac");
    line.insert_char('b', 1);
    assert_eq!(line.to_string(), "abc");
}

#[test]
fn insert_char_past_end_appends() {
    let mut line = Line::from("ab");
    line.insert_char('c', 99);
    assert_eq!(line.to_string(), "abc");
}

#[test]
fn delete_and_delete_last() {
    let mut line = Line::from("abc");
    line.delete(1);
    assert_eq!(line.to_string(), "ac");
    line.delete_last();
    assert_eq!(line.to_string(), "a");
    line.delete(5);
    assert_eq!(line.to_string(), "a");
    line.delete_last();
    assert_eq!(line.to_string(), "");
    line.delete_last();
    assert_eq!(line.to_string(), "");
}

#[test]
fn split_off_and_append() {
    let mut line = Line::from("abcde");
    let tail = line.split_off(2);
    assert_eq!(line.to_string(), "ab");
    assert_eq!(tail.to_string(), "cde");
    line.append(&tail);
    assert_eq!(line.to_string(), "abcde");
    let tail2 = line.split_off(99);
    assert_eq!(line.to_string(), "abcde");
    assert_eq!(tail2.to_string(), "");
}

#[test]
fn append_char_at_end() {
    let mut line = Line::from("ab");
    line.append_char('c');
    assert_eq!(line.to_string(), "abc");
    assert_eq!(line.grapheme_count(), 3);
}
