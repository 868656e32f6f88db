//! The costs that a password hash string may ask for. A hash string names
//! its costs as decimals behind `m=`, `t=` and `p=`. Argon2 multiplies the
//! lanes by eight without looking and allocates the memory at once, so a
//! string that asks for too many lanes or too much memory is not handed to
//! it.

use vstd::prelude::*;
use vstd::utf8::is_ascii_chars;

use crate::text::{
    all_digits,
    digits_value,
    is_digit,
    lemma_digits_value_grows,
    lemma_digits_value_nonnegative,
};

verus! {

/// The greatest number of lanes that a hash string may ask for.
pub const MAX_LANES: u32 = 0x00ff_ffff;

/// The greatest memory, in KiB, that a hash string may ask for.
pub const MAX_MEMORY_KIB: u32 = 0x0010_0000;

/// The digits that begin at `from` end at `end`: all between are digits,
/// and what stands at `end`, if anything, is none.
pub open spec fn is_run_end(text: Seq<char>, from: int, end: int) -> bool {
    &&& 0 <= from <= end <= text.len()
    &&& all_digits(text.subrange(from, end))
    &&& end < text.len() ==> !is_digit(text[end])
}

/// Where the digits that begin at `from` end.
pub open spec fn run_end(text: Seq<char>, from: int) -> int {
    choose|end: int| is_run_end(text, from, end)
}

/// The number that the digits from `from` on stand for; zero where no
/// digit stands there.
pub open spec fn run_value(text: Seq<char>, from: int) -> int {
    digits_value(text.subrange(from, run_end(text, from)))
}

/// At `at` the text names the cost `letter`: the letter and `=` stand there.
pub open spec fn names_cost(text: Seq<char>, at: int, letter: char) -> bool {
    &&& 0 <= at
    &&& at + 1 < text.len()
    &&& text[at] == letter
    &&& text[at + 1] == '='
}

/// Wherever the text names the cost `letter`, the number behind it is at
/// most `bound`.
pub open spec fn cost_within(text: Seq<char>, letter: char, bound: u32) -> bool {
    forall|at: int| #[trigger] names_cost(text, at, letter) ==> run_value(text, at + 2) <= bound
}

/// The hash string is plain ASCII and asks for no more lanes and no more
/// memory than are admitted.
pub open spec fn costs_admitted(hash: Seq<char>) -> bool {
    &&& is_ascii_chars(hash)
    &&& cost_within(hash, 'p', MAX_LANES)
    &&& cost_within(hash, 'm', MAX_MEMORY_KIB)
}

/// From every place of a text a run of digits begins, and it ends
/// somewhere.
pub proof fn lemma_run_ends(text: Seq<char>, from: int)
    requires
        0 <= from <= text.len(),
    ensures
        is_run_end(text, from, run_end(text, from)),
    decreases text.len() - from,
{
    if from < text.len() && is_digit(text[from]) {
        lemma_run_ends(text, from + 1);
        let end = run_end(text, from + 1);
        assert forall|i: int| 0 <= i < end - from implies is_digit(
            #[trigger] text.subrange(from, end)[i],
        ) by {
            if i > 0 {
                assert(text.subrange(from + 1, end)[i - 1] == text[from + i]);
            }
        }
        assert(is_run_end(text, from, end));
    } else {
        assert(is_run_end(text, from, from));
    }
}

/// A run of digits has one end only.
pub proof fn lemma_run_end_is_unique(text: Seq<char>, from: int, end: int)
    requires
        is_run_end(text, from, end),
    ensures
        run_end(text, from) == end,
        run_value(text, from) == digits_value(text.subrange(from, end)),
{
    let other = run_end(text, from);
    if other < end {
        assert(text.subrange(from, end)[other - from] == text[other]);
    }
    if end < other {
        assert(text.subrange(from, other)[end - from] == text[end]);
    }
}

/// Where the digits from `from` up to `upto` are digits, the run goes on
/// to `upto` at least, and stands for no less than they do.
pub proof fn lemma_run_reaches(text: Seq<char>, from: int, upto: int)
    requires
        0 <= from <= upto <= text.len(),
        all_digits(text.subrange(from, upto)),
    ensures
        upto <= run_end(text, from),
        digits_value(text.subrange(from, upto)) <= run_value(text, from),
{
    lemma_run_ends(text, from);
    let end = run_end(text, from);
    if end < upto {
        assert(text.subrange(from, upto)[end - from] == text[end]);
    }
    let run = text.subrange(from, end);
    assert(run.subrange(0, upto - from) =~= text.subrange(from, upto));
    lemma_digits_value_grows(run, upto - from);
}

/// Whether the digits from `from` on stand for `bound` at most.
fn run_is_within(text: &str, length: usize, from: usize, bound: u32) -> (b: bool)
    requires
        text.is_ascii(),
        length == text@.len(),
        from <= length,
    ensures
        b == (run_value(text@, from as int) <= bound),
{
    let mut value: u64 = 0;
    let mut i: usize = from;
    while i < length
        invariant
            text.is_ascii(),
            length == text@.len(),
            from <= i <= length,
            all_digits(text@.subrange(from as int, i as int)),
            value == digits_value(text@.subrange(from as int, i as int)),
            value <= bound,
        decreases length - i,
    {
        let byte = text.get_ascii(i);
        assert('\0' <= text@[i as int] <= '\u{7f}');
        if byte < 48u8 || byte > 57u8 {
            proof {
                lemma_run_end_is_unique(text@, from as int, i as int);
            }
            return true;
        }
        let ghost shorter = text@.subrange(from as int, i as int);
        let ghost longer = text@.subrange(from as int, i + 1);
        proof {
            assert(longer.drop_last() =~= shorter);
            assert(longer.last() == text@[i as int]);
            assert forall|k: int| 0 <= k < longer.len() implies is_digit(#[trigger] longer[k]) by {
                if k < shorter.len() {
                    assert(shorter[k] == longer[k]);
                }
            }
            lemma_digits_value_nonnegative(shorter);
        }
        value = value * 10 + (byte - 48u8) as u64;
        if value > bound as u64 {
            proof {
                lemma_run_reaches(text@, from as int, i + 1);
            }
            return false;
        }
        i += 1;
    }
    proof {
        lemma_run_end_is_unique(text@, from as int, length as int);
    }
    true
}

/// Whether the number behind every `letter=` is `bound` at most.
fn cost_is_within(text: &str, length: usize, letter: char, bound: u32) -> (b: bool)
    requires
        text.is_ascii(),
        length == text@.len(),
        '\0' <= letter <= '\u{7f}',
    ensures
        b == cost_within(text@, letter, bound),
{
    let code = letter as u8;
    let mut at: usize = 0;
    while at < length && at + 1 < length
        invariant
            text.is_ascii(),
            length == text@.len(),
            at <= length,
            '\0' <= letter <= '\u{7f}',
            code == letter as u8,
            forall|k: int|
                0 <= k < at && #[trigger] names_cost(text@, k, letter) ==> run_value(text@, k + 2)
                    <= bound,
        decreases length - at,
    {
        let here = text.get_ascii(at);
        let next = text.get_ascii(at + 1);
        assert('\0' <= text@[at as int] <= '\u{7f}');
        assert('\0' <= text@[at + 1] <= '\u{7f}');
        if here == code && next == 61u8 {
            assert(names_cost(text@, at as int, letter));
            if !run_is_within(text, length, at + 2, bound) {
                return false;
            }
        } else {
            assert(!names_cost(text@, at as int, letter));
        }
        at += 1;
    }
    true
}

/// Whether a hash string may be handed to Argon2: it is plain ASCII, and
/// wherever it names lanes or memory, it asks for no more than are
/// admitted.
pub fn hash_is_admitted(hash: &str) -> (b: bool)
    ensures
        b == costs_admitted(hash@),
{
    if !hash.is_ascii() {
        return false;
    }
    let length = hash.unicode_len();
    cost_is_within(hash, length, 'p', MAX_LANES) && cost_is_within(hash, length, 'm', MAX_MEMORY_KIB)
}

} // verus!
