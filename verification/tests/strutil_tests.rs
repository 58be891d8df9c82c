use hecto::strutil::{char_to_string, spaces, to_decimal_string};

#[test]
fn decimal_rendering_exact_values() {
    assert_eq!(to_decimal_string(0), "0");
    assert_eq!(to_decimal_string(7), "7");
    assert_eq!(to_decimal_string(42), "42");
    assert_eq!(to_decimal_string(1_234_567_890), "1234567890");
}

#[test]
fn decimal_rendering_matches_std_formatting() {
    for n in [1usize, 9, 10, 99, 100, 101, 65_535, usize::MAX] {
        assert_eq!(to_decimal_string(n), format!("{n}"));
    }
}

#[test]
fn spaces_and_single_characters() {
    assert_eq!(spaces(0), "");
    assert_eq!(spaces(4), "    ");
    assert_eq!(char_to_string('x'), "x");
    assert_eq!(char_to_string('\u{65e5}'), "\u{65e5}");
}
