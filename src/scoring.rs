//! Normalising titles and names before they are compared.

use vstd::prelude::*;
use crate::text::{alnum_of, chars_of, is_alnum, is_ws, lower_of, string_of, to_lower, trim_chars, trim_of, ws_of};

verus! {

/// `s` without a leading "the ".
pub open spec fn strip_article(s: Seq<char>) -> Seq<char> {
    if s.len() >= 4 && s.subrange(0, 4) == "the "@ {
        s.subrange(4, s.len() as int)
    } else {
        s
    }
}

/// The letters, digits and whitespace of `s`, in order.
pub open spec fn words_only(s: Seq<char>) -> Seq<char>
    decreases s.len(),
{
    if s.len() == 0 {
        Seq::empty()
    } else {
        words_only(s.drop_last()) + if alnum_of(s.last()) || ws_of(s.last()) {
            seq![s.last()]
        } else {
            Seq::empty()
        }
    }
}

/// A text prepared for comparison: lowercased, trimmed, without a leading
/// "the ", without characters other than letters, digits and whitespace, and
/// trimmed again of the whitespace that removal uncovered.
pub open spec fn normalized(s: Seq<char>) -> Seq<char> {
    trim_of(words_only(strip_article(trim_of(lower_of(s)))))
}

/// Normalises `s` for comparison (see [`normalized`]).
pub fn normalize_string(s: &str) -> (r: String)
    ensures
        r@ == normalized(s@),
{
    let lowered = to_lower(s);
    let v = chars_of(lowered.as_str());
    let t = trim_chars(&v);
    let ghost tt = t@;
    let n = t.len();
    let mut start: usize = 0;
    if n >= 4 && t[0] == 't' && t[1] == 'h' && t[2] == 'e' && t[3] == ' ' {
        proof {
            reveal_strlit("the ");
        }
        assert(t@.subrange(0, 4) =~= "the "@);
        start = 4;
    } else {
        proof {
            reveal_strlit("the ");
            if n >= 4 && t@.subrange(0, 4) == "the "@ {
                assert(t@.subrange(0, 4)[0] == t@[0]);
                assert(t@.subrange(0, 4)[1] == t@[1]);
                assert(t@.subrange(0, 4)[2] == t@[2]);
                assert(t@.subrange(0, 4)[3] == t@[3]);
            }
        }
    }
    let ghost st = t@.subrange(start as int, n as int);
    assert(st == strip_article(tt)) by {
        assert(t@.subrange(0, n as int) =~= t@);
    }
    let mut out: Vec<char> = Vec::new();
    let mut i: usize = start;
    while i < n
        invariant
            start <= i <= n,
            n == t@.len(),
            st == t@.subrange(start as int, n as int),
            out@ == words_only(t@.subrange(start as int, i as int)),
        decreases n - i,
    {
        let c = t[i];
        assert(t@.subrange(start as int, i + 1).drop_last() =~= t@.subrange(start as int, i as int));
        if is_alnum(c) || is_ws(c) {
            out.push(c);
        }
        i = i + 1;
        assert(out@ =~= words_only(t@.subrange(start as int, i as int)));
    }
    let done = trim_chars(&out);
    string_of(&done)
}

} // verus!
