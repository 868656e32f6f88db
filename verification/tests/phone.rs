use japonfou::phone::{
    char_is_digit, char_is_separator, has_phone_shape, PHONE_NUMBER_MAX_LENGTH,
    PHONE_NUMBER_MIN_LENGTH, PHONE_NUMBER_PATTERN,
};
use regex::Regex;

fn pattern() -> Regex {
    Regex::new(PHONE_NUMBER_PATTERN).expect("the pattern is no regular expression")
}

#[test]
fn usual_phone_numbers_have_the_shape() {
    for text in [
        "(853) 12345678",
        "8531234567",
        "853-123-4567",
        "853.123.456789",
        "+853 123 4567",
        "+(853)-123-456789",
        "\\853\\123\\4567",
        "(853)1234567",
        "853)123 4567",
        "(853 123.45678",
        "853\u{3000}123\t4567",
    ] {
        assert!(has_phone_shape(text), "{:?}", text);
    }
}

#[test]
fn other_texts_do_not_have_the_shape() {
    for text in [
        "",
        "adfadfa",
        "123456789",
        "853123456",
        "85312345678901",
        "853 123 4567890",
        "(853) 12345678 ",
        " (853) 12345678",
        "613-637-8110 x76344",
        "++8531234567",
        "((853)1234567",
        "(853))1234567",
        "853--1234567",
        "853-123--4567",
        "853 123 456",
        "8531234567\n",
        "85a1234567",
        "853123456\u{0667}",
        "+853 123 4567 ",
        "853/123/4567",
    ] {
        assert!(!has_phone_shape(text), "{:?}", text);
    }
}

#[test]
fn the_shape_has_ten_to_seventeen_characters() {
    assert_eq!(PHONE_NUMBER_MIN_LENGTH, 10);
    assert_eq!(PHONE_NUMBER_MAX_LENGTH, 17);
    assert!(has_phone_shape("1234567890"));
    assert!(has_phone_shape("+(123) 456 789012"));
    assert_eq!("+(123) 456 789012".chars().count(), 17);
    assert!(!has_phone_shape("+(123) 456 7890123"));
}

#[test]
fn digits_and_separators_are_told_apart() {
    for c in '0'..='9' {
        assert!(char_is_digit(c));
        assert!(!char_is_separator(c));
    }
    assert!(!char_is_digit('/'));
    assert!(!char_is_digit(':'));
    assert!(!char_is_digit('\u{0661}'));
    for c in ['-', '.', '\\', ' ', '\t', '\n', '\u{a0}', '\u{3000}'] {
        assert!(char_is_separator(c));
    }
    for c in ['+', '(', ')', '/', '_', 'x'] {
        assert!(!char_is_separator(c));
    }
}

#[test]
fn every_layout_agrees_with_the_regular_expression() {
    let re = pattern();
    let leads = ["", "+", "\\", "-", "x"];
    let opens = ["", "(", "["];
    let closes = ["", ")", "]"];
    let separators = ["", "-", " ", ".", "\\", "\u{2003}", "_", "--"];
    let tails = ["", "123", "1234", "12345", "123456", "1234567", "12a4", "1234 "];
    let mut count = 0;
    for lead in leads {
        for open in opens {
            for close in closes {
                for first in separators {
                    for second in separators {
                        for tail in tails {
                            let text = format!("{lead}{open}853{close}{first}123{second}{tail}");
                            assert_eq!(has_phone_shape(&text), re.is_match(&text), "{:?}", text);
                            count += 1;
                        }
                    }
                }
            }
        }
    }
    assert_eq!(count, 5 * 3 * 3 * 8 * 8 * 8);
}

#[test]
fn scrambled_texts_agree_with_the_regular_expression() {
    let re = pattern();
    let alphabet: Vec<char> = "0123456789012345678901234567890123456789()+-. \\x\u{3000}\n"
        .chars()
        .collect();
    let mut state: u64 = 0x2545_f491_4f6c_dd1d;
    let mut accepted = 0;
    for _ in 0..200_000 {
        let mut next = || {
            state ^= state << 13;
            state ^= state >> 7;
            state ^= state << 17;
            state
        };
        let length = 8 + (next() % 12) as usize;
        let text: String = (0..length)
            .map(|_| alphabet[(next() % alphabet.len() as u64) as usize])
            .collect();
        let expected = re.is_match(&text);
        assert_eq!(has_phone_shape(&text), expected, "{:?}", text);
        if expected {
            accepted += 1;
        }
    }
    assert!(accepted > 0);
}
