//! Catalogue identifiers and series positions read out of free text.

use vstd::prelude::*;
use crate::cue::{digit_end, digit_end_exec};
use crate::path::slice_chars;
use crate::text::{alnum_of, chars_of, is_alnum, string_of};

verus! {

/// A word character: alphanumeric or an underscore.
pub open spec fn word_char(c: char) -> bool {
    alnum_of(c) || c == '_'
}

/// A character allowed in an ASIN after its leading B: an ASCII digit or capital.
pub open spec fn asin_char(c: char) -> bool {
    ('0' <= c <= '9') || ('A' <= c <= 'Z')
}

/// An ASIN, a B and nine digits or capitals standing as a whole word, starts at `i`.
pub open spec fn asin_at(s: Seq<char>, i: int) -> bool {
    &&& 0 <= i && i + 10 <= s.len()
    &&& i == 0 || !word_char(s[i - 1])
    &&& s[i] == 'B'
    &&& forall|k: int| i + 1 <= k < i + 10 ==> asin_char(#[trigger] s[k])
    &&& i + 10 == s.len() || !word_char(s[i + 10])
}

/// The leftmost position from `i` on where an ASIN starts, or -1.
pub open spec fn first_asin(s: Seq<char>, i: int) -> int
    decreases s.len() - i,
{
    if i < 0 || i >= s.len() {
        -1
    } else if asin_at(s, i) {
        i
    } else {
        first_asin(s, i + 1)
    }
}

fn is_word(c: char) -> (r: bool)
    ensures
        r == word_char(c),
{
    is_alnum(c) || c == '_'
}

fn asin_at_exec(v: &Vec<char>, i: usize) -> (r: bool)
    requires
        i <= v@.len(),
    ensures
        r == asin_at(v@, i as int),
{
    let n = v.len();
    if n - i < 10 {
        return false;
    }
    if i > 0 && is_word(v[i - 1]) {
        return false;
    }
    if v[i] != 'B' {
        return false;
    }
    let stop = i + 10;
    let mut k: usize = i + 1;
    while k < stop
        invariant
            stop == i + 10,
            i + 1 <= k <= i + 10,
            i + 10 <= v@.len(),
            forall|j: int| i + 1 <= j < k ==> asin_char(#[trigger] v@[j]),
        decreases i + 10 - k,
    {
        let c = v[k];
        if !(('0' <= c && c <= '9') || ('A' <= c && c <= 'Z')) {
            return false;
        }
        k = k + 1;
    }
    i + 10 == n || !is_word(v[i + 10])
}

/// The first ASIN standing as a whole word in `text` (see [`asin_at`]).
pub fn detect_asin(text: &str) -> (r: Option<String>)
    ensures
        first_asin(text@, 0) < 0 ==> r is None,
        first_asin(text@, 0) >= 0 ==> r is Some && r->0@ == text@.subrange(
            first_asin(text@, 0),
            first_asin(text@, 0) + 10,
        ),
{
    let v = chars_of(text);
    let mut i: usize = 0;
    while i < v.len()
        invariant
            i <= v@.len(),
            v@ == text@,
            first_asin(v@, 0) == first_asin(v@, i as int),
        decreases v@.len() - i,
    {
        if asin_at_exec(&v, i) {
            let part = slice_chars(&v, i, i + 10);
            return Some(string_of(&part));
        }
        i = i + 1;
    }
    None
}

/// The leftmost position from `i` on that holds an ASCII digit, or -1.
pub open spec fn first_digit(s: Seq<char>, i: int) -> int
    decreases s.len() - i,
{
    if i < 0 || i >= s.len() {
        -1
    } else if '0' <= s[i] <= '9' {
        i
    } else {
        first_digit(s, i + 1)
    }
}

/// The series position in `s`: its first number, with a decimal fraction when
/// a dot and a digit follow; all of `s` when it holds no digit.
pub open spec fn sequence_spec(s: Seq<char>) -> Seq<char> {
    let i = first_digit(s, 0);
    let d = digit_end(s, i);
    if i < 0 {
        s
    } else if d + 1 < s.len() && s[d] == '.' && '0' <= s[d + 1] <= '9' {
        s.subrange(i, digit_end(s, d + 1))
    } else {
        s.subrange(i, d)
    }
}

/// Reduces a series position such as "Book 1.5" to its number (see [`sequence_spec`]).
pub fn clean_sequence(sequence: &str) -> (r: String)
    ensures
        r@ == sequence_spec(sequence@),
{
    let v = chars_of(sequence);
    let n = v.len();
    let mut i: usize = 0;
    while i < n && !('0' <= v[i] && v[i] <= '9')
        invariant
            i <= n,
            n == v@.len(),
            v@ == sequence@,
            first_digit(v@, 0) == first_digit(v@, i as int),
        decreases n - i,
    {
        i = i + 1;
    }
    if i == n {
        return sequence.to_owned();
    }
    let d = digit_end_exec(&v, i);
    let end = if d < n && n - d > 1 && v[d] == '.' && '0' <= v[d + 1] && v[d + 1] <= '9' {
        digit_end_exec(&v, d + 1)
    } else {
        d
    };
    let part = slice_chars(&v, i, end);
    string_of(&part)
}

} // verus!
