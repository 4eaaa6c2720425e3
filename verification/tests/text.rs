use jellytui::text::{decimal_text, field_after_last_text, strip, trim, two_digits_text};

#[test]
fn numbers_are_written_in_decimal() {
    assert_eq!(decimal_text(0), "0");
    assert_eq!(decimal_text(9), "9");
    assert_eq!(decimal_text(10), "10");
    assert_eq!(decimal_text(1234567890), "1234567890");
    assert_eq!(decimal_text(u64::MAX), "18446744073709551615");
}

#[test]
fn decimal_reads_back_as_the_number() {
    for n in [0u64, 7, 10, 99, 100, 4096, 1_000_000_007, u64::MAX] {
        assert_eq!(decimal_text(n).parse::<u64>(), Ok(n));
    }
}

#[test]
fn two_digits_are_padded() {
    assert_eq!(two_digits_text(0), "00");
    assert_eq!(two_digits_text(5), "05");
    assert_eq!(two_digits_text(59), "59");
    assert_eq!(two_digits_text(123), "123");
}

#[test]
fn the_field_after_the_last_marker_is_taken() {
    let field = |text: &str| field_after_last_text(text, "STATUS:", '\r');
    assert_eq!(field("STATUS:1.5\rSTATUS: 2.5 \r"), Some(" 2.5 ".to_owned()));
    assert_eq!(field("noise STATUS:3\rmore"), Some("3".to_owned()));
    assert_eq!(field("STATUS:"), Some(String::new()));
    assert_eq!(field("STATUS:4"), Some("4".to_owned()));
    assert_eq!(field("STATUS"), None);
    assert_eq!(field(""), None);
    assert_eq!(field("äöSTATUS:é5\r"), Some("é5".to_owned()));
    assert_eq!(field("STATUS:\r6"), Some(String::new()));
}

#[test]
fn white_space_of_any_kind_is_trimmed() {
    assert_eq!(trim("\t\n \u{2003}x y\u{a0}\r\n"), "x y");
    assert_eq!(trim(" \t "), "");
    assert_eq!(trim("x"), "x");
    assert_eq!(trim(""), "");
}

#[test]
fn the_characters_of_white_space() {
    let blank = |c: u32| {
        matches!(c, 0x9..=0xd | 0x20 | 0x85 | 0xa0 | 0x1680 | 0x2000..=0x200a)
            || matches!(c, 0x2028 | 0x2029 | 0x202f | 0x205f | 0x3000)
    };
    for c in (0..=0x10ffff).filter_map(char::from_u32) {
        let want = if blank(u32::from(c)) { String::new() } else { c.to_string() };
        assert_eq!(trim(&c.to_string()), want);
    }
}

#[test]
fn marked_characters_are_stripped_at_the_ends_alone() {
    let strip = |marks: [bool; 4]| strip("abcd", &marks.to_vec());
    assert_eq!(strip([true, false, true, false]), "bcd");
    assert_eq!(strip([false, true, true, true]), "a");
    assert_eq!(strip([true, true, false, true]), "c");
    assert_eq!(strip([false, true, true, false]), "abcd");
    assert_eq!(strip([true, true, true, true]), "");
}

#[test]
fn overlapping_markers_count_from_the_last() {
    assert_eq!(field_after_last_text("aaa", "aa", ';'), Some(String::new()));
    assert_eq!(field_after_last_text("aaab", "aa", ';'), Some("b".to_owned()));
}
