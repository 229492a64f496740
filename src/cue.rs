//! Chapters from a cue sheet: each TITLE and `INDEX 01 mm:ss:ff` line pair
//! makes a chapter, closed when the next TRACK line starts.

use vstd::prelude::*;
use crate::chapter_import::{all_digits, digits_value};
use crate::chapters::Chapter;
use crate::path::{is_last_index, last_index, last_index_exec, slice_chars};
use crate::text::{chars_of, is_ws, occurs_at, split_chars, split_on, string_of, ws_of};

verus! {

/// The first position from `i` on that holds no whitespace (or the end).
pub open spec fn ws_end(s: Seq<char>, i: int) -> int
    decreases s.len() - i,
{
    if 0 <= i < s.len() && ws_of(s[i]) {
        ws_end(s, i + 1)
    } else {
        i
    }
}

/// The first position from `i` on that holds no ASCII digit (or the end).
pub open spec fn digit_end(s: Seq<char>, i: int) -> int
    decreases s.len() - i,
{
    if 0 <= i < s.len() && '0' <= s[i] <= '9' {
        digit_end(s, i + 1)
    } else {
        i
    }
}

/// A line `TRACK <n> AUDIO`, after optional leading whitespace.
pub open spec fn is_track_line(s: Seq<char>) -> bool {
    let a = ws_end(s, 0);
    let c = ws_end(s, a + 5);
    let d = digit_end(s, c);
    let e = ws_end(s, d);
    occurs_at(s, "TRACK"@, a) && c > a + 5 && d > c && e > d && occurs_at(s, "AUDIO"@, e)
}

/// The title of a line `TITLE "<title>"`: what lies between the quote after
/// the keyword and the last quote of the line, when that is not empty.
pub open spec fn title_of(s: Seq<char>) -> Option<Seq<char>> {
    let a = ws_end(s, 0);
    let c = ws_end(s, a + 5);
    let k = last_index(s, '"');
    if occurs_at(s, "TITLE"@, a) && c > a + 5 && c < s.len() && s[c] == '"' && k >= c + 2 {
        Some(s.subrange(c + 1, k))
    } else {
        None
    }
}

/// The value of the digits of `s` from `i` to `j`; zero if it does not fit in 64 bits.
pub open spec fn field_value(s: Seq<char>, i: int, j: int) -> nat {
    let v = digits_value(s.subrange(i, j));
    if v <= u64::MAX {
        v
    } else {
        0
    }
}

/// Minutes, seconds and frames (75 to the second) in milliseconds, stopping
/// at the largest 64-bit value.
pub open spec fn cue_time(m: nat, sec: nat, f: nat) -> u64 {
    let t = m * 60000 + sec * 1000 + f * 1000 / 75;
    if t > u64::MAX {
        u64::MAX
    } else {
        t as u64
    }
}

/// The time of a line `INDEX 01 mm:ss:ff`, after optional leading whitespace.
pub open spec fn index_of(s: Seq<char>) -> Option<u64> {
    let a = ws_end(s, 0);
    let c = ws_end(s, a + 5);
    let e = ws_end(s, c + 2);
    let f = digit_end(s, e);
    let g = digit_end(s, f + 1);
    let h = digit_end(s, g + 1);
    if occurs_at(s, "INDEX"@, a) && c > a + 5 && occurs_at(s, "01"@, c) && e > c + 2 && f > e && f
        < s.len() && s[f] == ':' && g > f + 1 && g < s.len() && s[g] == ':' && h > g + 1 {
        Some(cue_time(field_value(s, e, f), field_value(s, f + 1, g), field_value(s, g + 1, h)))
    } else {
        None
    }
}

/// A chapter as plain values: number, title, start, end.
pub type CueChapter = (u32, Seq<char>, u64, u64);

/// The reading state after some lines.
pub struct CueState {
    pub chapters: Seq<CueChapter>,
    pub number: nat,
    pub title: Option<Seq<char>>,
    pub time: Option<u64>,
    pub last_start: u64,
}

/// One line's effect: a TRACK line closes the pending chapter (when it has
/// both a title and a time) and clears both; a TITLE line sets the title; an
/// INDEX line sets the time and counts a chapter.
pub open spec fn cue_step(st: CueState, line: Seq<char>) -> CueState {
    let s1 = if is_track_line(line) {
        if st.title is Some && st.time is Some {
            CueState {
                chapters: st.chapters.push(((st.number - 1) as u32, st.title->0, st.last_start, st.time->0)),
                number: st.number,
                title: None,
                time: None,
                last_start: st.time->0,
            }
        } else {
            CueState { title: None, time: None, ..st }
        }
    } else {
        st
    };
    let s2 = match title_of(line) {
        Some(t) => CueState { title: Some(t), ..s1 },
        None => s1,
    };
    match index_of(line) {
        Some(t) => CueState { time: Some(t), number: s2.number + 1, ..s2 },
        None => s2,
    }
}

/// The state after the first `n` lines.
pub open spec fn cue_run(lines: Seq<Seq<char>>, n: nat) -> CueState
    decreases n,
{
    if n == 0 || n > lines.len() {
        CueState { chapters: Seq::empty(), number: 1, title: None, time: None, last_start: 0 }
    } else {
        cue_step(cue_run(lines, (n - 1) as nat), lines[n - 1])
    }
}

/// The chapters of a cue sheet: those closed by TRACK lines, then the pending one.
pub open spec fn cue_chapters(content: Seq<char>) -> Seq<CueChapter> {
    let lines = split_on(content, '\n');
    let st = cue_run(lines, lines.len());
    if st.title is Some && st.time is Some {
        st.chapters.push(((st.number - 1) as u32, st.title->0, st.last_start, st.time->0))
    } else {
        st.chapters
    }
}

/// A chapter as plain values.
pub open spec fn chapter_values(c: Chapter) -> CueChapter {
    (c.number, c.title@, c.start_time_ms, c.end_time_ms)
}

pub(crate) fn ws_end_exec(v: &Vec<char>, i: usize) -> (r: usize)
    requires
        i <= v@.len(),
    ensures
        r as int == ws_end(v@, i as int),
        i <= r <= v@.len(),
{
    let mut j = i;
    while j < v.len() && is_ws(v[j])
        invariant
            i <= j <= v@.len(),
            ws_end(v@, i as int) == ws_end(v@, j as int),
        decreases v@.len() - j,
    {
        j = j + 1;
    }
    j
}

pub(crate) fn digit_end_exec(v: &Vec<char>, i: usize) -> (r: usize)
    requires
        i <= v@.len(),
    ensures
        r as int == digit_end(v@, i as int),
        i <= r <= v@.len(),
        all_digits(v@.subrange(i as int, r as int)),
{
    let mut j = i;
    while j < v.len() && '0' <= v[j] && v[j] <= '9'
        invariant
            i <= j <= v@.len(),
            digit_end(v@, i as int) == digit_end(v@, j as int),
            all_digits(v@.subrange(i as int, j as int)),
        decreases v@.len() - j,
    {
        j = j + 1;
        assert forall|k: int| 0 <= k < j - i implies '0' <= #[trigger] v@.subrange(i as int, j as int)[k] <= '9' by {
            if k < j - 1 - i {
                assert(v@.subrange(i as int, j as int)[k] == v@.subrange(i as int, j - 1)[k]);
            }
        }
    }
    j
}

pub(crate) fn lit_at(v: &Vec<char>, i: usize, lit: &str) -> (r: bool)
    requires
        i <= v@.len(),
    ensures
        r == occurs_at(v@, lit@, i as int),
        r ==> i + lit@.len() <= v@.len(),
{
    let n = v.len();
    let p = chars_of(lit);
    if p.len() > v.len() - i {
        return false;
    }
    let mut j: usize = 0;
    while j < p.len()
        invariant
            j <= p@.len(),
            p@ == lit@,
            n == v@.len(),
            i + p@.len() <= v@.len(),
            forall|k: int| 0 <= k < j ==> v@[i + k] == p@[k],
        decreases p@.len() - j,
    {
        if v[i + j] != p[j] {
            assert(v@.subrange(i as int, i + p@.len())[j as int] != p@[j as int]);
            return false;
        }
        j = j + 1;
    }
    assert(v@.subrange(i as int, i + p@.len()) =~= p@);
    true
}

fn field_exec(v: &Vec<char>, i: usize, j: usize) -> (r: u64)
    requires
        i <= j <= v@.len(),
        all_digits(v@.subrange(i as int, j as int)),
    ensures
        r == field_value(v@, i as int, j as int),
{
    match crate::chapter_import::digits_exec(v, i, j) {
        Some(x) => x,
        None => 0,
    }
}

fn time_exec(m: u64, s: u64, f: u64) -> (r: u64)
    ensures
        r == cue_time(m as nat, s as nat, f as nat),
{
    let t: u128 = (m as u128) * 60000 + (s as u128) * 1000 + (f as u128) * 1000 / 75;
    if t > u64::MAX as u128 {
        u64::MAX
    } else {
        t as u64
    }
}

fn is_track_exec(v: &Vec<char>) -> (r: bool)
    ensures
        r == is_track_line(v@),
{
    let n = v.len();
    proof {
        reveal_strlit("TRACK");
    }
    let a = ws_end_exec(v, 0);
    if !lit_at(v, a, "TRACK") {
        return false;
    }
    let c = ws_end_exec(v, a + 5);
    if c == a + 5 {
        return false;
    }
    let d = digit_end_exec(v, c);
    if d == c {
        return false;
    }
    let e = ws_end_exec(v, d);
    if e == d {
        return false;
    }
    lit_at(v, e, "AUDIO")
}

fn title_exec(v: &Vec<char>) -> (r: Option<Vec<char>>)
    ensures
        match title_of(v@) {
            Some(t) => r is Some && r->0@ == t,
            None => r is None,
        },
{
    let n = v.len();
    proof {
        reveal_strlit("TITLE");
    }
    let a = ws_end_exec(v, 0);
    if !lit_at(v, a, "TITLE") {
        return None;
    }
    let c = ws_end_exec(v, a + 5);
    if c == a + 5 || c >= v.len() || v[c] != '"' {
        return None;
    }
    match last_index_exec(v, '"') {
        Some(k) => if k > c && k - c >= 2 {
            Some(slice_chars(v, c + 1, k))
        } else {
            None
        },
        None => None,
    }
}

fn index_exec(v: &Vec<char>) -> (r: Option<u64>)
    ensures
        r == index_of(v@),
{
    let n = v.len();
    proof {
        reveal_strlit("INDEX");
        reveal_strlit("01");
    }
    let a = ws_end_exec(v, 0);
    if !lit_at(v, a, "INDEX") {
        return None;
    }
    let c = ws_end_exec(v, a + 5);
    if c == a + 5 || !lit_at(v, c, "01") {
        return None;
    }
    let e = ws_end_exec(v, c + 2);
    if e == c + 2 {
        return None;
    }
    let f = digit_end_exec(v, e);
    if f == e || f >= v.len() || v[f] != ':' {
        return None;
    }
    let g = digit_end_exec(v, f + 1);
    if g == f + 1 || g >= v.len() || v[g] != ':' {
        return None;
    }
    let h = digit_end_exec(v, g + 1);
    if h == g + 1 {
        return None;
    }
    Some(time_exec(field_exec(v, e, f), field_exec(v, f + 1, g), field_exec(v, g + 1, h)))
}

/// The chapters of the cue sheet `content` (see [`cue_chapters`]).
pub fn parse_cue(content: &str) -> (r: Vec<Chapter>)
    requires
        content@.len() + 2 < u32::MAX,
    ensures
        r@.map_values(|c: Chapter| chapter_values(c)) == cue_chapters(content@),
{
    let v = chars_of(content);
    let lines = split_chars(&v, '\n');
    let ghost ls = lines@.map_values(|p: Vec<char>| p@);
    proof {
        crate::text::lemma_split_len(content@, '\n');
    }
    let mut chapters: Vec<Chapter> = Vec::new();
    let mut number: u32 = 1;
    let mut title: Option<Vec<char>> = None;
    let mut time: Option<u64> = None;
    let mut last_start: u64 = 0;
    let mut i: usize = 0;
    while i < lines.len()
        invariant
            i <= lines@.len(),
            ls == lines@.map_values(|p: Vec<char>| p@),
            ls == split_on(content@, '\n'),
            lines@.len() <= content@.len() + 1,
            content@.len() + 2 < u32::MAX,
            1 <= number <= i + 1,
            ({
                let st = cue_run(ls, i as nat);
                &&& chapters@.map_values(|c: Chapter| chapter_values(c)) == st.chapters
                &&& st.number == number
                &&& st.time == time
                &&& st.last_start == last_start
                &&& match title {
                    Some(t) => st.title == Some(t@),
                    None => st.title is None,
                }
            }),
        decreases lines@.len() - i,
    {
        let line = &lines[i];
        assert(ls[i as int] == line@);
        let ghost before = chapters@;
        if is_track_exec(line) {
            if title.is_some() && time.is_some() {
                let t = match &title {
                    Some(t) => string_of(t),
                    None => String::new(),
                };
                let end = match time {
                    Some(x) => x,
                    None => 0,
                };
                chapters.push(Chapter::new(number - 1, t, last_start, end));
                assert(chapters@.map_values(|c: Chapter| chapter_values(c)) =~= before.map_values(
                    |c: Chapter| chapter_values(c),
                ).push(((number - 1) as u32, title->0@, last_start, end)));
                last_start = end;
            }
            title = None;
            time = None;
        }
        match title_exec(line) {
            Some(t) => {
                title = Some(t);
            },
            None => {},
        }
        match index_exec(line) {
            Some(t) => {
                time = Some(t);
                number = number + 1;
            },
            None => {},
        }
        i = i + 1;
    }
    if title.is_some() && time.is_some() {
        let ghost before = chapters@;
        let t = match &title {
            Some(t) => string_of(t),
            None => String::new(),
        };
        let end = match time {
            Some(x) => x,
            None => 0,
        };
        chapters.push(Chapter::new(number - 1, t, last_start, end));
        assert(chapters@.map_values(|c: Chapter| chapter_values(c)) =~= before.map_values(
            |c: Chapter| chapter_values(c),
        ).push(((number - 1) as u32, title->0@, last_start, end)));
    }
    chapters
}

} // verus!
