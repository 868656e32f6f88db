use japonfou::text::{char_is_white_space, parse_i64, trim};

#[test]
fn decimal_integers_are_read() {
    assert_eq!(parse_i64("0"), Some(0));
    assert_eq!(parse_i64("42"), Some(42));
    assert_eq!(parse_i64("+42"), Some(42));
    assert_eq!(parse_i64("-42"), Some(-42));
    assert_eq!(parse_i64("-0"), Some(0));
    assert_eq!(parse_i64("007"), Some(7));
    assert_eq!(parse_i64("7123456789"), Some(7_123_456_789));
}

#[test]
fn the_ends_of_the_range_are_read_and_what_lies_beyond_is_not() {
    assert_eq!(parse_i64("9223372036854775807"), Some(i64::MAX));
    assert_eq!(parse_i64("-9223372036854775808"), Some(i64::MIN));
    assert_eq!(parse_i64("9223372036854775808"), None);
    assert_eq!(parse_i64("-9223372036854775809"), None);
    assert_eq!(parse_i64("99999999999999999999999"), None);
    assert_eq!(parse_i64("000000000000000000000000000001"), Some(1));
}

#[test]
fn what_is_no_decimal_integer_is_not_read() {
    for text in [
        "", "+", "-", "+-1", "--1", "1-", "1 ", " 1", "1.5", "1e3", "0x10", "one", "1_000",
        "\u{0661}", "12\u{00e9}", "\u{00e9}12", "-\u{4f60}",
    ] {
        assert_eq!(parse_i64(text), None, "{:?}", text);
    }
}

#[test]
fn reading_agrees_with_the_standard_library() {
    let samples = [
        "0", "-1", "+1", "12345", "-12345", "9223372036854775807", "9223372036854775808",
        "-9223372036854775808", "-9223372036854775809", "", "+", "-", "a", "1a", "a1", " 1",
        "1 ", "++1", "18446744073709551616", "0000", "-0000", "+0009",
    ];
    for text in samples {
        assert_eq!(parse_i64(text), text.parse::<i64>().ok(), "{:?}", text);
    }
    for value in [i64::MIN, i64::MIN + 1, -10, -9, -1, 0, 1, 9, 10, 99, 100, i64::MAX - 1, i64::MAX]
    {
        assert_eq!(parse_i64(&value.to_string()), Some(value));
    }
}

#[test]
fn white_space_is_what_the_standard_library_takes_for_it() {
    for c in '\0'..=char::MAX {
        assert_eq!(char_is_white_space(c), c.is_whitespace(), "{:?}", c);
    }
}

#[test]
fn trimming_takes_the_white_space_from_both_ends_only() {
    assert_eq!(trim("  tea pot "), "tea pot");
    assert_eq!(trim("tea pot"), "tea pot");
    assert_eq!(trim("\t\n tea\u{3000}"), "tea");
    assert_eq!(trim(" \u{4f60} \u{597d} "), "\u{4f60} \u{597d}");
    assert_eq!(trim("x"), "x");
    assert_eq!(trim(" x"), "x");
    assert_eq!(trim("x "), "x");
}

#[test]
fn trimming_white_space_leaves_nothing() {
    assert_eq!(trim(""), "");
    assert_eq!(trim(" "), "");
    assert_eq!(trim(" \t\r\n\u{85}\u{a0}\u{2003}\u{3000}"), "");
}

#[test]
fn trimming_agrees_with_the_standard_library() {
    for text in [
        "", " ", "a", " a", "a ", " a ", "\u{200b}a\u{200b}", "\u{feff}a", "\u{1680}a\u{205f}",
        "\u{0b}\u{0c}a b\u{1c}", "\u{2028}\u{2029}\u{202f}", "  \u{e9}t\u{e9}  ",
    ] {
        assert_eq!(trim(text), text.trim(), "{:?}", text);
    }
}
