//! The shape of a phone number: an optional `+` or `\`, an optional `(`,
//! three digits, an optional `)`, an optional separator, three digits, an
//! optional separator, and four to six digits, as in `(853) 12345678`.

use vstd::prelude::*;

use crate::text::{is_digit, is_white_space};

verus! {

/// The shape of a phone number as a regular expression.
pub const PHONE_NUMBER_PATTERN: &'static str =
    r#"^[\\+]?[(]?[0-9]{3}[)]?[-\s\\.]?[0-9]{3}[-\s\\.]?[0-9]{4,6}$"#;

/// The least number of characters of a phone number.
pub const PHONE_NUMBER_MIN_LENGTH: usize = 10;

/// The greatest number of characters of a phone number.
pub const PHONE_NUMBER_MAX_LENGTH: usize = 17;

/// `c` may stand in front of a phone number.
pub open spec fn is_lead(c: char) -> bool {
    c == '+' || c == '\\'
}

/// `c` may stand between the groups of digits.
pub open spec fn is_separator(c: char) -> bool {
    c == '-' || c == '.' || c == '\\' || is_white_space(c)
}

/// The characters from `from` up to `to` are there and are digits.
pub open spec fn digits_between(text: Seq<char>, from: int, to: int) -> bool {
    &&& 0 <= from <= to <= text.len()
    &&& forall|i: int| from <= i < to ==> is_digit(#[trigger] text[i])
}

/// How a phone number is laid out: which of the optional characters are
/// there, and how many digits the last group has.
pub struct PhoneLayout {
    pub lead: bool,
    pub open: bool,
    pub close: bool,
    pub first_separator: bool,
    pub second_separator: bool,
    pub tail: int,
}

/// One or none, as a count.
pub open spec fn one_if(present: bool) -> int {
    if present {
        1
    } else {
        0
    }
}

impl PhoneLayout {
    /// Where the first group of digits begins.
    pub open spec fn area_at(self) -> int {
        one_if(self.lead) + one_if(self.open)
    }

    /// Where the second group of digits begins.
    pub open spec fn prefix_at(self) -> int {
        self.area_at() + 3 + one_if(self.close) + one_if(self.first_separator)
    }

    /// Where the last group of digits begins.
    pub open spec fn line_at(self) -> int {
        self.prefix_at() + 3 + one_if(self.second_separator)
    }

    /// `text` is laid out in this way, from its first character to its last.
    pub open spec fn fits(self, text: Seq<char>) -> bool {
        &&& 4 <= self.tail <= 6
        &&& text.len() == self.line_at() + self.tail
        &&& self.lead ==> is_lead(text[0])
        &&& self.open ==> text[one_if(self.lead)] == '('
        &&& digits_between(text, self.area_at(), self.area_at() + 3)
        &&& self.close ==> text[self.area_at() + 3] == ')'
        &&& self.first_separator ==> is_separator(text[self.prefix_at() - 1])
        &&& digits_between(text, self.prefix_at(), self.prefix_at() + 3)
        &&& self.second_separator ==> is_separator(text[self.line_at() - 1])
        &&& digits_between(text, self.line_at(), self.line_at() + self.tail)
    }
}

/// `text` has the shape of a phone number: there is a layout that it fits.
pub open spec fn phone_shape(text: Seq<char>) -> bool {
    exists|layout: PhoneLayout| #[trigger] layout.fits(text)
}

/// Whether `c` is a decimal digit.
pub fn char_is_digit(c: char) -> (b: bool)
    ensures
        b == is_digit(c),
{
    '0' <= c && c <= '9'
}

/// Whether `c` may stand between the groups of digits.
pub fn char_is_separator(c: char) -> (b: bool)
    ensures
        b == is_separator(c),
{
    c == '-' || c == '.' || c == '\\' || crate::text::char_is_white_space(c)
}

/// The only layout that `text` can fit: the one that takes each optional
/// character exactly where the text has it.
pub open spec fn forced_layout(text: Seq<char>) -> PhoneLayout {
    let lead = is_lead(text[0]);
    let open = text[one_if(lead)] == '(';
    let area_at = one_if(lead) + one_if(open);
    let close = text[area_at + 3] == ')';
    let first_separator = is_separator(text[area_at + 3 + one_if(close)]);
    let prefix_at = area_at + 3 + one_if(close) + one_if(first_separator);
    let second_separator = is_separator(text[prefix_at + 3]);
    let line_at = prefix_at + 3 + one_if(second_separator);
    PhoneLayout { lead, open, close, first_separator, second_separator, tail: text.len() - line_at }
}

/// A text fits no layout but the one that takes a lead and an opening
/// bracket exactly where the text has them.
pub proof fn lemma_front_is_forced(text: Seq<char>, layout: PhoneLayout)
    requires
        layout.fits(text),
    ensures
        layout.lead == is_lead(text[0]),
        layout.open == (text[one_if(layout.lead)] == '('),
{
    assert(is_digit(text[layout.area_at()]));
}

/// Behind the first group of digits, a text fits no layout but the one
/// that takes a closing bracket and a separator exactly where the text has
/// them.
pub proof fn lemma_middle_is_forced(text: Seq<char>, layout: PhoneLayout)
    requires
        layout.fits(text),
    ensures
        layout.close == (text[layout.area_at() + 3] == ')'),
        layout.first_separator == is_separator(
            text[layout.area_at() + 3 + one_if(layout.close)],
        ),
{
    assert(is_digit(text[layout.prefix_at()]));
}

/// Behind the second group of digits, a text fits no layout but the one
/// that takes a separator exactly where the text has one.
pub proof fn lemma_back_is_forced(text: Seq<char>, layout: PhoneLayout)
    requires
        layout.fits(text),
    ensures
        layout.second_separator == is_separator(text[layout.prefix_at() + 3]),
{
    assert(is_digit(text[layout.line_at()]));
}

/// A text has the shape of a phone number exactly when it fits the one
/// layout that it can fit.
pub proof fn lemma_shape_is_forced(text: Seq<char>)
    ensures
        phone_shape(text) == forced_layout(text).fits(text),
{
    if phone_shape(text) {
        let layout = choose|layout: PhoneLayout| #[trigger] layout.fits(text);
        lemma_front_is_forced(text, layout);
        lemma_middle_is_forced(text, layout);
        lemma_back_is_forced(text, layout);
        assert(layout == forced_layout(text));
    }
}

/// A phone number has ten to seventeen characters.
pub proof fn lemma_phone_length(text: Seq<char>)
    requires
        phone_shape(text),
    ensures
        PHONE_NUMBER_MIN_LENGTH <= text.len() <= PHONE_NUMBER_MAX_LENGTH,
{
    let layout = choose|layout: PhoneLayout| #[trigger] layout.fits(text);
}

/// Whether the `count` characters from `from` on are digits.
fn digits_at(text: &str, from: usize, count: usize) -> (b: bool)
    requires
        from + count <= text@.len(),
        from + count <= PHONE_NUMBER_MAX_LENGTH,
    ensures
        b == digits_between(text@, from as int, from + count),
{
    let mut i: usize = 0;
    while i < count
        invariant
            i <= count,
            from + count <= text@.len(),
            from + count <= PHONE_NUMBER_MAX_LENGTH,
            forall|k: int| from <= k < from + i ==> is_digit(#[trigger] text@[k]),
        decreases count - i,
    {
        if !char_is_digit(text.get_char(from + i)) {
            return false;
        }
        i += 1;
    }
    true
}

/// Whether `text` has the shape of a phone number.
pub fn has_phone_shape(text: &str) -> (b: bool)
    ensures
        b == phone_shape(text@),
{
    let length = text.unicode_len();
    if length < PHONE_NUMBER_MIN_LENGTH || length > PHONE_NUMBER_MAX_LENGTH {
        proof {
            if phone_shape(text@) {
                lemma_phone_length(text@);
            }
        }
        return false;
    }
    proof {
        lemma_shape_is_forced(text@);
    }
    let ghost forced = forced_layout(text@);
    let first = text.get_char(0);
    let lead = first == '+' || first == '\\';
    let mut at: usize = if lead {
        1
    } else {
        0
    };
    if text.get_char(at) == '(' {
        at += 1;
    }
    assert(at == forced.area_at());
    if !digits_at(text, at, 3) {
        return false;
    }
    at += 3;
    if text.get_char(at) == ')' {
        at += 1;
    }
    if char_is_separator(text.get_char(at)) {
        at += 1;
    }
    assert(at == forced.prefix_at());
    if !digits_at(text, at, 3) {
        return false;
    }
    at += 3;
    if at >= length {
        return false;
    }
    if char_is_separator(text.get_char(at)) {
        at += 1;
    }
    assert(at == forced.line_at());
    let tail = length - at;
    4 <= tail && tail <= 6 && digits_at(text, at, tail)
}

} // verus!
