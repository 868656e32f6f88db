//! Text functions that the validation rules are built on.

use vstd::prelude::*;

verus! {

/// `c` is one of the ten decimal digits.
pub open spec fn is_digit(c: char) -> bool {
    '0' <= c <= '9'
}

/// Every character is a decimal digit.
pub open spec fn all_digits(text: Seq<char>) -> bool {
    forall|i: int| 0 <= i < text.len() ==> is_digit(#[trigger] text[i])
}

/// The number that a sequence of decimal digits stands for.
pub open spec fn digits_value(digits: Seq<char>) -> int
    decreases digits.len(),
{
    if digits.len() == 0 {
        0
    } else {
        10 * digits_value(digits.drop_last()) + (digits.last() as u32 - '0' as u32)
    }
}

/// The integer that one decimal digit or more stand for, negated where
/// `negative` says so: `None` where there is no digit, where a character
/// is no digit, and where the integer does not fit in an `i64`.
pub open spec fn digits_i64(digits: Seq<char>, negative: bool) -> Option<i64> {
    let value = if negative {
        -digits_value(digits)
    } else {
        digits_value(digits)
    };
    if digits.len() > 0 && all_digits(digits) && i64::MIN <= value <= i64::MAX {
        Some(value as i64)
    } else {
        None
    }
}

/// The integer that a decimal text stands for: digits, with `+` or `-` in
/// front or without a sign, and nothing else.
pub open spec fn decimal_i64(text: Seq<char>) -> Option<i64> {
    if text.len() > 0 && (text[0] == '+' || text[0] == '-') {
        digits_i64(text.subrange(1, text.len() as int), text[0] == '-')
    } else {
        digits_i64(text, false)
    }
}

/// A sequence of digits stands for no less than any of its beginnings.
pub proof fn lemma_digits_value_grows(digits: Seq<char>, k: int)
    requires
        all_digits(digits),
        0 <= k <= digits.len(),
    ensures
        0 <= digits_value(digits.subrange(0, k)) <= digits_value(digits),
    decreases digits.len() - k,
{
    if k == digits.len() {
        assert(digits.subrange(0, k) =~= digits);
        lemma_digits_value_nonnegative(digits);
    } else {
        let longer = digits.subrange(0, k + 1);
        assert(longer.drop_last() =~= digits.subrange(0, k));
        assert(is_digit(digits[k]));
        assert(longer.last() == digits[k]);
        lemma_digits_value_nonnegative(digits.subrange(0, k));
        lemma_digits_value_grows(digits, k + 1);
    }
}

/// A sequence of digits stands for no negative number.
pub proof fn lemma_digits_value_nonnegative(digits: Seq<char>)
    requires
        all_digits(digits),
    ensures
        0 <= digits_value(digits),
    decreases digits.len(),
{
    if digits.len() > 0 {
        assert(is_digit(digits[digits.len() - 1]));
        lemma_digits_value_nonnegative(digits.drop_last());
    }
}

/// `c` is white space: one of the characters that Unicode gives the
/// property `White_Space`.
pub open spec fn is_white_space(c: char) -> bool {
    let n = c as u32;
    ||| 0x09 <= n <= 0x0d
    ||| n == 0x20
    ||| n == 0x85
    ||| n == 0xa0
    ||| n == 0x1680
    ||| 0x2000 <= n <= 0x200a
    ||| n == 0x2028
    ||| n == 0x2029
    ||| n == 0x202f
    ||| n == 0x205f
    ||| n == 0x3000
}

/// Every character is white space.
pub open spec fn all_white(text: Seq<char>) -> bool {
    forall|i: int| 0 <= i < text.len() ==> is_white_space(#[trigger] text[i])
}

/// `at` is where the first character stands that is no white space.
pub open spec fn is_first_inked(text: Seq<char>, at: int) -> bool {
    &&& 0 <= at < text.len()
    &&& !is_white_space(text[at])
    &&& forall|j: int| 0 <= j < at ==> is_white_space(#[trigger] text[j])
}

/// `at` is where the last character stands that is no white space.
pub open spec fn is_last_inked(text: Seq<char>, at: int) -> bool {
    &&& 0 <= at < text.len()
    &&& !is_white_space(text[at])
    &&& forall|j: int| at < j < text.len() ==> is_white_space(#[trigger] text[j])
}

/// `text` without the white space at its beginning and at its end: what
/// stands from the first to the last character that is no white space.
pub open spec fn trimmed(text: Seq<char>) -> Seq<char> {
    if all_white(text) {
        Seq::empty()
    } else {
        let first = choose|at: int| is_first_inked(text, at);
        let last = choose|at: int| is_last_inked(text, at);
        text.subrange(first, last + 1)
    }
}

/// Where `first` and `last` are the places of the first and the last
/// character that is no white space, the trimmed text is what stands
/// between them.
pub proof fn lemma_trimmed_between(text: Seq<char>, first: int, last: int)
    requires
        is_first_inked(text, first),
        is_last_inked(text, last),
    ensures
        !all_white(text),
        first <= last,
        trimmed(text) == text.subrange(first, last + 1),
{
    assert(!is_white_space(text[first]));
    let a = choose|at: int| is_first_inked(text, at);
    let b = choose|at: int| is_last_inked(text, at);
    assert(a == first) by {
        if a < first {
            assert(is_white_space(text[a]));
        }
        if first < a {
            assert(is_white_space(text[first]));
        }
    }
    assert(b == last) by {
        if b < last {
            assert(is_white_space(text[last]));
        }
        if last < b {
            assert(is_white_space(text[b]));
        }
    }
    if last < first {
        assert(is_white_space(text[last]));
    }
}

/// Reads the digits of an ASCII text from `start` on.
fn parse_digits(text: &str, start: usize, negative: bool) -> (value: Option<i64>)
    requires
        text.is_ascii(),
        start <= text@.len(),
    ensures
        value == digits_i64(text@.subrange(start as int, text@.len() as int), negative),
{
    let length = text.unicode_len();
    if start == length {
        return None;
    }
    let ghost digits = text@.subrange(start as int, length as int);
    let mut low: i64 = 0;
    let mut i: usize = start;
    while i < length
        invariant
            text.is_ascii(),
            length == text@.len(),
            start <= i <= length,
            digits == text@.subrange(start as int, length as int),
            all_digits(digits.subrange(0, i - start)),
            low == -digits_value(digits.subrange(0, i - start)),
        decreases length - i,
    {
        let byte = text.get_ascii(i);
        assert('\0' <= text@[i as int] <= '\u{7f}');
        assert(digits[i - start] == text@[i as int]);
        if byte < 48u8 || byte > 57u8 {
            assert(!is_digit(digits[i - start]));
            return None;
        }
        let ghost shorter = digits.subrange(0, i - start);
        let ghost longer = digits.subrange(0, i - start + 1);
        proof {
            assert(longer.drop_last() =~= shorter);
            assert(longer.last() == text@[i as int]);
            assert(is_digit(longer.last()));
            assert forall|k: int| 0 <= k < longer.len() implies is_digit(#[trigger] longer[k]) by {
                if k < shorter.len() {
                    assert(shorter[k] == longer[k]);
                }
            }
            lemma_digits_value_nonnegative(shorter);
        }
        let digit: i64 = (byte - 48u8) as i64;
        let next = match low.checked_mul(10) {
            Some(tenfold) => tenfold.checked_sub(digit),
            None => None,
        };
        match next {
            Some(value) => {
                low = value;
            },
            None => {
                proof {
                    if all_digits(digits) {
                        lemma_digits_value_grows(digits, i - start + 1);
                    }
                }
                return None;
            },
        }
        i += 1;
    }
    proof {
        assert(digits.subrange(0, length - start) =~= digits);
    }
    if negative {
        Some(low)
    } else if low == i64::MIN {
        None
    } else {
        Some(-low)
    }
}

/// Reads a decimal integer: digits with or without a sign in front, and
/// nothing else. What does not fit in an `i64` is no `i64`.
pub fn parse_i64(text: &str) -> (value: Option<i64>)
    ensures
        value == decimal_i64(text@),
{
    if !text.is_ascii() {
        proof {
            let k = choose|k: int|
                0 <= k < text@.len() && !('\0' <= #[trigger] text@[k] <= '\u{7f}');
            assert(!is_digit(text@[k]));
            if k > 0 {
                assert(text@.subrange(1, text@.len() as int)[k - 1] == text@[k]);
            }
        }
        return None;
    }
    if text.unicode_len() == 0 {
        return None;
    }
    let first = text.get_ascii(0);
    assert('\0' <= text@[0] <= '\u{7f}');
    if first == 45u8 {
        parse_digits(text, 1, true)
    } else if first == 43u8 {
        parse_digits(text, 1, false)
    } else {
        assert(text@.subrange(0, text@.len() as int) =~= text@);
        parse_digits(text, 0, false)
    }
}

/// Whether `c` is white space.
pub fn char_is_white_space(c: char) -> (b: bool)
    ensures
        b == is_white_space(c),
{
    let n: u32 = c as u32;
    (0x09 <= n && n <= 0x0d) || n == 0x20 || n == 0x85 || n == 0xa0 || n == 0x1680 || (0x2000 <= n
        && n <= 0x200a) || n == 0x2028 || n == 0x2029 || n == 0x202f || n == 0x205f || n == 0x3000
}

/// Copies `text` without the white space at its beginning and at its end.
pub fn trim(text: &str) -> (inner: String)
    ensures
        inner@ == trimmed(text@),
{
    let length = text.unicode_len();
    let mut first: Option<usize> = None;
    let mut last: usize = 0;
    let mut index: usize = 0;
    for c in it: text.chars()
        invariant
            length == text@.len(),
            it.seq() == text@,
            index == it.index(),
            index <= length,
            match first {
                None => forall|j: int| 0 <= j < index ==> is_white_space(#[trigger] text@[j]),
                Some(a) => {
                    &&& is_first_inked(text@, a as int)
                    &&& a <= last < index
                    &&& !is_white_space(text@[last as int])
                    &&& forall|j: int| last < j < index ==> is_white_space(#[trigger] text@[j])
                },
            },
    {
        if !char_is_white_space(c) {
            if first.is_none() {
                first = Some(index);
            }
            last = index;
        }
        index += 1;
    }
    match first {
        None => {
            assert(all_white(text@));
            String::new()
        },
        Some(a) => {
            proof {
                lemma_trimmed_between(text@, a as int, last as int);
            }
            text.substring_char(a, last + 1).to_owned()
        },
    }
}

/// The number that was read, or the complaint where none was.
pub fn number_or(parsed: Option<i64>, complaint: &str) -> (r: Result<i64, String>)
    ensures
        match r {
            Ok(value) => parsed == Some(value),
            Err(message) => parsed is None && message@ == complaint@,
        },
{
    match parsed {
        Some(value) => Ok(value),
        None => Err(complaint.to_owned()),
    }
}

/// The view of an optional borrowed text.
pub open spec fn optional_str(text: Option<&str>) -> Option<Seq<char>> {
    match text {
        Some(t) => Some(t@),
        None => None,
    }
}

/// The view of an optional text.
pub open spec fn optional_text(text: Option<String>) -> Option<Seq<char>> {
    match text {
        Some(t) => Some(t@),
        None => None,
    }
}

} // verus!
