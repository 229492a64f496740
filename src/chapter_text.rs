//! Chapter text files: telling their layout apart, and reading the layout
//! with a timestamp and a title on each line.

use vstd::prelude::*;
use crate::chapter_import::{parse_simple_format, simple_result_ok, ChapterError, TextFormat};
use crate::chapters::Chapter;
use crate::cue::{chapter_values, digit_end, digit_end_exec, lit_at, ws_end, ws_end_exec, CueChapter};
use crate::chapter_import::{all_digits, digits_value};
use crate::path::slice_chars;
use crate::text::{chars_of, occurs_at, split_chars, split_on, string_of, trim_chars, trim_of};

verus! {

/// An ASCII digit.
pub open spec fn is_digit(c: char) -> bool {
    '0' <= c <= '9'
}

/// Where the one- or two-digit hour field at the start of `s` ends (0 when there is none).
pub open spec fn hour_end(s: Seq<char>) -> int {
    if s.len() >= 1 && is_digit(s[0]) {
        if s.len() >= 2 && is_digit(s[1]) {
            2
        } else {
            1
        }
    } else {
        0
    }
}

/// `s` starts with `h:mm:ss`, `h` being one or two digits.
pub open spec fn starts_with_stamp(s: Seq<char>) -> bool {
    let h = hour_end(s);
    h >= 1 && s.len() >= h + 6 && s[h] == ':' && is_digit(s[h + 1]) && is_digit(s[h + 2]) && s[h + 3]
        == ':' && is_digit(s[h + 4]) && is_digit(s[h + 5])
}

/// The value of two digits.
pub open spec fn two_digits(a: char, b: char) -> nat {
    ((a as nat - '0' as nat) * 10 + (b as nat - '0' as nat)) as nat
}

/// The start in milliseconds and the title of a trimmed line `h:mm:ss title`,
/// where an optional dash or colon may stand between the time and the title.
pub open spec fn stamp_of(s: Seq<char>) -> Option<(nat, Seq<char>)> {
    let h = hour_end(s);
    let p = h + 6;
    let a = ws_end(s, p);
    if !starts_with_stamp(s) || a >= s.len() {
        None
    } else {
        let hours = digits_value(s.subrange(0, h));
        let minutes = two_digits(s[h + 1], s[h + 2]);
        let seconds = two_digits(s[h + 4], s[h + 5]);
        let b = ws_end(s, a + 1);
        let t = if (s[a] == '-' || s[a] == ':') && b < s.len() {
            s.subrange(b, s.len() as int)
        } else {
            s.subrange(a, s.len() as int)
        };
        Some(((hours * 3600 + minutes * 60 + seconds) * 1000, trim_of(t)))
    }
}

/// The chapters read from the first `n` lines: each line that holds a stamp
/// makes a chapter numbered after its line, which ends where the next one starts.
pub open spec fn stamped_run(lines: Seq<Seq<char>>, n: nat) -> Seq<CueChapter>
    decreases n,
{
    if n == 0 || n > lines.len() {
        Seq::empty()
    } else {
        let prev = stamped_run(lines, (n - 1) as nat);
        match stamp_of(trim_of(lines[n - 1])) {
            Some((start, title)) => {
                let closed = if prev.len() > 0 {
                    prev.update(
                        prev.len() - 1,
                        (prev.last().0, prev.last().1, prev.last().2, start as u64),
                    )
                } else {
                    prev
                };
                closed.push((n as u32, title, start as u64, 0u64))
            },
            None => prev,
        }
    }
}

/// The chapters of a timestamped chapter text.
pub open spec fn stamped_chapters(content: Seq<char>) -> Seq<CueChapter> {
    let lines = split_on(content, '\n');
    stamped_run(lines, lines.len())
}

fn two_digits_exec(a: char, b: char) -> (r: u64)
    requires
        is_digit(a),
        is_digit(b),
    ensures
        r == two_digits(a, b),
{
    ((a as u32 - '0' as u32) * 10 + (b as u32 - '0' as u32)) as u64
}

fn stamp_exec(s: &Vec<char>) -> (r: Option<(u64, Vec<char>)>)
    ensures
        match stamp_of(s@) {
            Some((start, title)) => r matches Some((x, t)) && x == start && t@ == title,
            None => r is None,
        },
{
    let n = s.len();
    let h: usize = if n >= 1 && '0' <= s[0] && s[0] <= '9' {
        if n >= 2 && '0' <= s[1] && s[1] <= '9' {
            2
        } else {
            1
        }
    } else {
        0
    };
    if h == 0 || n < h + 6 {
        return None;
    }
    if !(s[h] == ':' && '0' <= s[h + 1] && s[h + 1] <= '9' && '0' <= s[h + 2] && s[h + 2] <= '9' && s[h
        + 3] == ':' && '0' <= s[h + 4] && s[h + 4] <= '9' && '0' <= s[h + 5] && s[h + 5] <= '9') {
        return None;
    }
    let a = ws_end_exec(s, h + 6);
    if a >= n {
        return None;
    }
    let hours: u64 = if h == 1 {
        (s[0] as u32 - '0' as u32) as u64
    } else {
        two_digits_exec(s[0], s[1])
    };
    proof {
        reveal_with_fuel(digits_value, 3);
        assert(s@.subrange(0, h as int).drop_last() =~= s@.subrange(0, h - 1));
        if h == 2 {
            assert(s@.subrange(0, 1).drop_last() =~= Seq::<char>::empty());
        } else {
            assert(s@.subrange(0, 0) =~= Seq::<char>::empty());
        }
    }
    let minutes = two_digits_exec(s[h + 1], s[h + 2]);
    let seconds = two_digits_exec(s[h + 4], s[h + 5]);
    let b = ws_end_exec(s, a + 1);
    let t = if (s[a] == '-' || s[a] == ':') && b < n {
        slice_chars(s, b, n)
    } else {
        slice_chars(s, a, n)
    };
    let title = trim_chars(&t);
    Some(((hours * 3600 + minutes * 60 + seconds) * 1000, title))
}

/// `r` is what reading `content` as timestamped lines gives (see [`stamped_chapters`]).
pub open spec fn stamped_result_ok(content: Seq<char>, r: Result<Vec<Chapter>, ChapterError>) -> bool {
    &&& stamped_chapters(content).len() == 0 <==> r is Err
    &&& r matches Err(e) ==> e == ChapterError::NoTimestampedChapters
    &&& r matches Ok(cs) ==> cs@.map_values(|c: Chapter| chapter_values(c)) == stamped_chapters(content)
}

/// Chapters from a text with `h:mm:ss title` lines (see [`stamped_chapters`]);
/// lines without a stamp are skipped. A text without stamped lines is refused.
pub fn parse_timestamped_format(content: &str) -> (r: Result<Vec<Chapter>, ChapterError>)
    requires
        content@.len() + 2 < u32::MAX,
    ensures
        stamped_result_ok(content@, r),
{
    let v = chars_of(content);
    let lines = split_chars(&v, '\n');
    let ghost ls = lines@.map_values(|p: Vec<char>| p@);
    proof {
        crate::text::lemma_split_len(content@, '\n');
    }
    let mut chapters: Vec<Chapter> = Vec::new();
    let mut i: usize = 0;
    while i < lines.len()
        invariant
            i <= lines@.len(),
            ls == lines@.map_values(|p: Vec<char>| p@),
            ls == split_on(content@, '\n'),
            lines@.len() <= content@.len() + 1,
            content@.len() + 2 < u32::MAX,
            chapters@.map_values(|c: Chapter| chapter_values(c)) == stamped_run(ls, i as nat),
        decreases lines@.len() - i,
    {
        let line = trim_chars(&lines[i]);
        assert(ls[i as int] == lines@[i as int]@);
        match stamp_exec(&line) {
            Some((start, title)) => {
                let ghost before = chapters@.map_values(|c: Chapter| chapter_values(c));
                if chapters.len() > 0 {
                    let last = chapters.pop().unwrap();
                    let closed = Chapter::new(last.number, last.title, last.start_time_ms, start);
                    chapters.push(closed);
                    assert(chapters@.map_values(|c: Chapter| chapter_values(c)) =~= before.update(
                        before.len() - 1,
                        (before.last().0, before.last().1, before.last().2, start),
                    ));
                }
                let ghost mid = chapters@.map_values(|c: Chapter| chapter_values(c));
                chapters.push(Chapter::new((i + 1) as u32, string_of(&title), start, 0));
                assert(chapters@.map_values(|c: Chapter| chapter_values(c)) =~= mid.push(
                    ((i + 1) as u32, title@, start, 0u64),
                ));
            },
            None => {},
        }
        i = i + 1;
    }
    if chapters.len() == 0 {
        return Err(ChapterError::NoTimestampedChapters);
    }
    Ok(chapters)
}

/// A muxer chapter line `CHAPTER<n>=hh:mm:ss` starts at position `i` of `s`.
pub open spec fn mp4box_stamp_at(s: Seq<char>, i: int) -> bool {
    let d = digit_end(s, i + 7);
    occurs_at(s, "CHAPTER"@, i) && d > i + 7 && d + 9 <= s.len() && s[d] == '=' && is_digit(s[d + 1])
        && is_digit(s[d + 2]) && s[d + 3] == ':' && is_digit(s[d + 4]) && is_digit(s[d + 5]) && s[d + 6]
        == ':' && is_digit(s[d + 7]) && is_digit(s[d + 8])
}

/// The layout of a chapter text: muxer lines anywhere make it the muxer's
/// layout; else a stamp at the start of the first line, once trimmed, makes it
/// timestamped; else it is one title per line.
pub open spec fn text_format_of(content: Seq<char>) -> TextFormat {
    if exists|i: int| 0 <= i < content.len() && mp4box_stamp_at(content, i) {
        TextFormat::Mp4Box
    } else if starts_with_stamp(trim_of(split_on(content, '\n')[0])) {
        TextFormat::Timestamped
    } else {
        TextFormat::Simple
    }
}

fn mp4box_stamp_exec(s: &Vec<char>, i: usize) -> (r: bool)
    requires
        i <= s@.len(),
    ensures
        r == mp4box_stamp_at(s@, i as int),
{
    proof {
        reveal_strlit("CHAPTER");
    }
    let n = s.len();
    if !lit_at(s, i, "CHAPTER") {
        return false;
    }
    let d = digit_end_exec(s, i + 7);
    if d == i + 7 || n - d < 9 {
        return false;
    }
    s[d] == '=' && '0' <= s[d + 1] && s[d + 1] <= '9' && '0' <= s[d + 2] && s[d + 2] <= '9' && s[d + 3]
        == ':' && '0' <= s[d + 4] && s[d + 4] <= '9' && '0' <= s[d + 5] && s[d + 5] <= '9' && s[d + 6]
        == ':' && '0' <= s[d + 7] && s[d + 7] <= '9' && '0' <= s[d + 8] && s[d + 8] <= '9'
}

/// Tells the layout of a chapter text (see [`text_format_of`]).
pub fn detect_text_format(content: &str) -> (r: TextFormat)
    ensures
        r == text_format_of(content@),
{
    let v = chars_of(content);
    let mut i: usize = 0;
    while i < v.len()
        invariant
            i <= v@.len(),
            v@ == content@,
            forall|k: int| 0 <= k < i ==> !mp4box_stamp_at(v@, k),
        decreases v@.len() - i,
    {
        if mp4box_stamp_exec(&v, i) {
            return TextFormat::Mp4Box;
        }
        i = i + 1;
    }
    let lines = split_chars(&v, '\n');
    proof {
        crate::text::lemma_split_nonempty(content@, '\n');
    }
    assert(lines@.map_values(|p: Vec<char>| p@)[0] == lines@[0]@);
    let first = trim_chars(&lines[0]);
    let n = first.len();
    let h: usize = if n >= 1 && '0' <= first[0] && first[0] <= '9' {
        if n >= 2 && '0' <= first[1] && first[1] <= '9' {
            2
        } else {
            1
        }
    } else {
        0
    };
    if h >= 1 && n >= h + 6 && first[h] == ':' && '0' <= first[h + 1] && first[h + 1] <= '9' && '0'
        <= first[h + 2] && first[h + 2] <= '9' && first[h + 3] == ':' && '0' <= first[h + 4] && first[h
        + 4] <= '9' && '0' <= first[h + 5] && first[h + 5] <= '9' {
        TextFormat::Timestamped
    } else {
        TextFormat::Simple
    }
}

/// A timed muxer line `CHAPTER<n>=hh:mm:ss.mmm` starts at position `i`.
pub open spec fn box_time_at(s: Seq<char>, i: int) -> bool {
    let d = digit_end(s, i + 7);
    &&& mp4box_stamp_at(s, i)
    &&& d + 13 <= s.len()
    &&& s[d + 9] == '.'
    &&& is_digit(s[d + 10]) && is_digit(s[d + 11]) && is_digit(s[d + 12])
}

/// A named muxer line `CHAPTER<n>NAME=<name>` starts at position `i`.
pub open spec fn box_name_at(s: Seq<char>, i: int) -> bool {
    let d = digit_end(s, i + 7);
    occurs_at(s, "CHAPTER"@, i) && d > i + 7 && occurs_at(s, "NAME="@, d) && d + 5 < s.len()
}

/// The leftmost position from `i` on where `p` holds, or -1.
pub open spec fn leftmost(s: Seq<char>, i: int, p: spec_fn(Seq<char>, int) -> bool) -> int
    decreases s.len() - i,
{
    if i < 0 || i >= s.len() {
        -1
    } else if p(s, i) {
        i
    } else {
        leftmost(s, i + 1, p)
    }
}

/// The chapter number written at `i` of a muxer line, if it fits in 32 bits.
pub open spec fn box_number(s: Seq<char>, i: int) -> Option<u32> {
    let v = digits_value(s.subrange(i + 7, digit_end(s, i + 7)));
    if v <= u32::MAX {
        Some(v as u32)
    } else {
        None
    }
}

/// Three digits' value.
pub open spec fn three_digits(a: char, b: char, c: char) -> nat {
    (two_digits(a, b) * 10 + (c as nat - '0' as nat)) as nat
}

/// The start in milliseconds of the timed muxer line at `i`.
pub open spec fn box_start(s: Seq<char>, i: int) -> u64 {
    let d = digit_end(s, i + 7);
    ((two_digits(s[d + 1], s[d + 2]) * 3600 + two_digits(s[d + 4], s[d + 5]) * 60 + two_digits(
        s[d + 7],
        s[d + 8],
    )) * 1000 + three_digits(s[d + 10], s[d + 11], s[d + 12])) as u64
}

/// The timed and named entries of the first `n` lines, in line order; `None`
/// when a chapter number does not fit in 32 bits.
pub open spec fn box_entries(lines: Seq<Seq<char>>, n: nat) -> Option<(Seq<(u32, u64)>, Seq<(u32, Seq<char>)>)>
    decreases n,
{
    if n == 0 || n > lines.len() {
        Some((Seq::empty(), Seq::empty()))
    } else {
        match box_entries(lines, (n - 1) as nat) {
            None => None,
            Some((ts, ns)) => {
                let s = lines[n - 1];
                let tp = leftmost(s, 0, |s: Seq<char>, i: int| box_time_at(s, i));
                let np = leftmost(s, 0, |s: Seq<char>, i: int| box_name_at(s, i));
                if tp >= 0 && box_number(s, tp) is None {
                    None
                } else if np >= 0 && box_number(s, np) is None {
                    None
                } else {
                    let ts2 = if tp >= 0 {
                        ts.push((box_number(s, tp)->0, box_start(s, tp)))
                    } else {
                        ts
                    };
                    let ns2 = if np >= 0 {
                        ns.push(
                            (
                                box_number(s, np)->0,
                                trim_of(s.subrange(digit_end(s, np + 7) + 5, s.len() as int)),
                            ),
                        )
                    } else {
                        ns
                    };
                    Some((ts2, ns2))
                }
            },
        }
    }
}

/// The value of the last entry with key `k`, if any.
pub open spec fn last_entry<V>(es: Seq<(u32, V)>, k: u32) -> Option<V>
    decreases es.len(),
{
    if es.len() == 0 {
        None
    } else if es.last().0 == k {
        Some(es.last().1)
    } else {
        last_entry(es.drop_last(), k)
    }
}

/// The chapters of a muxer chapter text, given its entries: one per distinct
/// timed number, in increasing number order, starting at the last time given
/// for it, named by the last name given for it ("Chapter <n>" without one),
/// and ending where the next starts (the last at zero).
pub open spec fn box_chapters_ok(ts: Seq<(u32, u64)>, ns: Seq<(u32, Seq<char>)>, r: Seq<CueChapter>) -> bool {
    &&& forall|i: int, j: int| 0 <= i < j < r.len() ==> r[i].0 < r[j].0
    &&& forall|i: int| 0 <= i < r.len() ==> last_entry(ts, #[trigger] r[i].0) is Some
    &&& forall|k: u32| last_entry(ts, k) is Some ==> exists|i: int| 0 <= i < r.len() && r[i].0 == k
    &&& forall|i: int|
        0 <= i < r.len() ==> {
            &&& (#[trigger] r[i]).2 == last_entry(ts, r[i].0)->0
            &&& r[i].1 == match last_entry(ns, r[i].0) {
                Some(t) => t,
                None => "Chapter "@ + crate::text::decimal(r[i].0 as nat),
            }
            &&& r[i].3 == if i + 1 < r.len() {
                r[i + 1].2
            } else {
                0u64
            }
        }
}


proof fn lemma_leftmost(s: Seq<char>, i: int, p: spec_fn(Seq<char>, int) -> bool)
    ensures
        leftmost(s, i, p) >= 0 ==> p(s, leftmost(s, i, p)) && i <= leftmost(s, i, p) < s.len(),
        leftmost(s, i, p) >= -1,
    decreases s.len() - i,
{
    if 0 <= i < s.len() && !p(s, i) {
        lemma_leftmost(s, i + 1, p);
    }
}

proof fn lemma_entries_stay_none(lines: Seq<Seq<char>>, i: nat, n: nat)
    requires
        i <= n <= lines.len(),
        box_entries(lines, i) is None,
    ensures
        box_entries(lines, n) is None,
    decreases n - i,
{
    if i < n {
        lemma_entries_stay_none(lines, i, (n - 1) as nat);
    }
}

proof fn lemma_last_entry_some<V>(es: Seq<(u32, V)>, k: u32)
    ensures
        last_entry(es, k) is Some <==> exists|i: int| 0 <= i < es.len() && es[i].0 == k,
    decreases es.len(),
{
    if es.len() > 0 {
        lemma_last_entry_some(es.drop_last(), k);
        if exists|i: int| 0 <= i < es.len() && es[i].0 == k {
            let i = choose|i: int| 0 <= i < es.len() && es[i].0 == k;
            if i < es.len() - 1 {
                assert(es.drop_last()[i] == es[i]);
            }
        }
        if exists|i: int| 0 <= i < es.drop_last().len() && es.drop_last()[i].0 == k {
            let i = choose|i: int| 0 <= i < es.drop_last().len() && es.drop_last()[i].0 == k;
            assert(es[i] == es.drop_last()[i]);
        }
    }
}

fn time_line_at(s: &Vec<char>, i: usize) -> (r: bool)
    requires
        i <= s@.len(),
    ensures
        r == box_time_at(s@, i as int),
{
    if !mp4box_stamp_exec(s, i) {
        return false;
    }
    let n = s.len();
    let d = digit_end_exec(s, i + 7);
    if n - d < 13 {
        return false;
    }
    s[d + 9] == '.' && '0' <= s[d + 10] && s[d + 10] <= '9' && '0' <= s[d + 11] && s[d + 11] <= '9'
        && '0' <= s[d + 12] && s[d + 12] <= '9'
}

fn name_line_at(s: &Vec<char>, i: usize) -> (r: bool)
    requires
        i <= s@.len(),
    ensures
        r == box_name_at(s@, i as int),
{
    proof {
        reveal_strlit("CHAPTER");
        reveal_strlit("NAME=");
    }
    let n = s.len();
    if !lit_at(s, i, "CHAPTER") {
        return false;
    }
    let d = digit_end_exec(s, i + 7);
    d > i + 7 && lit_at(s, d, "NAME=") && n - d > 5
}

fn leftmost_time(s: &Vec<char>) -> (r: Option<usize>)
    ensures
        leftmost(s@, 0, |s: Seq<char>, i: int| box_time_at(s, i)) == match r {
            Some(i) => i as int,
            None => -1,
        },
{
    let mut i: usize = 0;
    while i < s.len()
        invariant
            i <= s@.len(),
            leftmost(s@, 0, |s: Seq<char>, i: int| box_time_at(s, i)) == leftmost(
                s@,
                i as int,
                |s: Seq<char>, i: int| box_time_at(s, i),
            ),
        decreases s@.len() - i,
    {
        if time_line_at(s, i) {
            return Some(i);
        }
        i = i + 1;
    }
    None
}

fn leftmost_name(s: &Vec<char>) -> (r: Option<usize>)
    ensures
        leftmost(s@, 0, |s: Seq<char>, i: int| box_name_at(s, i)) == match r {
            Some(i) => i as int,
            None => -1,
        },
{
    let mut i: usize = 0;
    while i < s.len()
        invariant
            i <= s@.len(),
            leftmost(s@, 0, |s: Seq<char>, i: int| box_name_at(s, i)) == leftmost(
                s@,
                i as int,
                |s: Seq<char>, i: int| box_name_at(s, i),
            ),
        decreases s@.len() - i,
    {
        if name_line_at(s, i) {
            return Some(i);
        }
        i = i + 1;
    }
    None
}

fn number_at(s: &Vec<char>, i: usize) -> (r: Option<u32>)
    requires
        i + 7 <= s@.len(),
    ensures
        r == box_number(s@, i as int),
{
    let n = s.len();
    let d = digit_end_exec(s, i + 7);
    match crate::chapter_import::digits_exec(s, i + 7, d) {
        Some(v) => if v <= u32::MAX as u64 {
            Some(v as u32)
        } else {
            None
        },
        None => None,
    }
}

fn start_at(s: &Vec<char>, i: usize) -> (r: u64)
    requires
        box_time_at(s@, i as int),
    ensures
        r == box_start(s@, i as int),
{
    proof {
        reveal_strlit("CHAPTER");
    }
    let n = s.len();
    let d = digit_end_exec(s, i + 7);
    let h = two_digits_exec(s[d + 1], s[d + 2]);
    let m = two_digits_exec(s[d + 4], s[d + 5]);
    let sec = two_digits_exec(s[d + 7], s[d + 8]);
    let ms = two_digits_exec(s[d + 10], s[d + 11]) * 10 + (s[d + 12] as u32 - '0' as u32) as u64;
    (h * 3600 + m * 60 + sec) * 1000 + ms
}

/// The texts of the name entries.
pub open spec fn name_views(ns: Seq<(u32, String)>) -> Seq<(u32, Seq<char>)> {
    ns.map_values(|e: (u32, String)| (e.0, e.1@))
}

fn last_time(ts: &Vec<(u32, u64)>, k: u32) -> (r: Option<u64>)
    ensures
        r == last_entry(ts@, k),
{
    let mut i: usize = ts.len();
    assert(ts@.subrange(0, ts@.len() as int) =~= ts@);
    while i > 0
        invariant
            i <= ts@.len(),
            last_entry(ts@, k) == last_entry(ts@.subrange(0, i as int), k),
        decreases i,
    {
        assert(ts@.subrange(0, i as int).drop_last() =~= ts@.subrange(0, i - 1));
        if ts[i - 1].0 == k {
            return Some(ts[i - 1].1);
        }
        i = i - 1;
    }
    None
}

fn last_name(ns: &Vec<(u32, String)>, k: u32) -> (r: Option<String>)
    ensures
        match last_entry(name_views(ns@), k) {
            Some(t) => r is Some && r->0@ == t,
            None => r is None,
        },
{
    let ghost vs = name_views(ns@);
    let mut i: usize = ns.len();
    assert(vs.subrange(0, ns@.len() as int) =~= vs);
    while i > 0
        invariant
            i <= ns@.len(),
            vs == name_views(ns@),
            last_entry(vs, k) == last_entry(vs.subrange(0, i as int), k),
        decreases i,
    {
        assert(vs.subrange(0, i as int).drop_last() =~= vs.subrange(0, i - 1));
        assert(vs[i - 1] == (ns@[i - 1].0, ns@[i - 1].1@));
        if ns[i - 1].0 == k {
            return Some(ns[i - 1].1.clone());
        }
        i = i - 1;
    }
    None
}

/// The smallest timed number from `floor` on.
fn next_number(ts: &Vec<(u32, u64)>, floor: u64) -> (r: Option<u32>)
    ensures
        match r {
            Some(k) => k >= floor && (exists|i: int| 0 <= i < ts@.len() && ts@[i].0 == k) && forall|i: int|
                0 <= i < ts@.len() && ts@[i].0 >= floor ==> ts@[i].0 >= k,
            None => forall|i: int| 0 <= i < ts@.len() ==> ts@[i].0 < floor,
        },
{
    let mut best: Option<u32> = None;
    let mut i: usize = 0;
    while i < ts.len()
        invariant
            i <= ts@.len(),
            match best {
                Some(k) => k >= floor && (exists|j: int| 0 <= j < i && ts@[j].0 == k) && forall|j: int|
                    0 <= j < i && ts@[j].0 >= floor ==> ts@[j].0 >= k,
                None => forall|j: int| 0 <= j < i ==> ts@[j].0 < floor,
            },
        decreases ts@.len() - i,
    {
        let k = ts[i].0;
        if k as u64 >= floor {
            match best {
                Some(b) => if k < b {
                    best = Some(k);
                },
                None => {
                    best = Some(k);
                },
            }
        }
        i = i + 1;
    }
    best
}

/// `r` is what reading `content` in the muxer's layout gives (see [`box_chapters_ok`]).
pub open spec fn box_result_ok(content: Seq<char>, r: Result<Vec<Chapter>, ChapterError>) -> bool {
    let lines = split_on(content, '\n');
    match box_entries(lines, lines.len()) {
        None => r == Err::<Vec<Chapter>, ChapterError>(ChapterError::InvalidChapterNumber),
        Some((ts, ns)) => if ts.len() == 0 {
            r == Err::<Vec<Chapter>, ChapterError>(ChapterError::NoMp4BoxChapters)
        } else {
            r is Ok && box_chapters_ok(ts, ns, r->Ok_0@.map_values(|c: Chapter| chapter_values(c)))
        },
    }
}

/// Chapters from a muxer chapter text (see [`box_chapters_ok`]): refused when
/// a chapter number does not fit in 32 bits, or when no line is timed.
pub fn parse_mp4box_format(content: &str) -> (r: Result<Vec<Chapter>, ChapterError>)
    ensures
        box_result_ok(content@, r),
{
    let v = chars_of(content);
    let lines = split_chars(&v, '\n');
    let ghost ls = lines@.map_values(|p: Vec<char>| p@);
    let mut ts: Vec<(u32, u64)> = Vec::new();
    let mut ns: Vec<(u32, String)> = Vec::new();
    let mut i: usize = 0;
    while i < lines.len()
        invariant
            i <= lines@.len(),
            ls == lines@.map_values(|p: Vec<char>| p@),
            ls == split_on(content@, '\n'),
            box_entries(ls, i as nat) == Some((ts@, name_views(ns@))),
        decreases lines@.len() - i,
    {
        let line = &lines[i];
        assert(ls[i as int] == line@);
        let tp = leftmost_time(line);
        let np = leftmost_name(line);
        proof {
            reveal_strlit("CHAPTER");
            lemma_leftmost(line@, 0, |s: Seq<char>, i: int| box_time_at(s, i));
            lemma_leftmost(line@, 0, |s: Seq<char>, i: int| box_name_at(s, i));
        }
        let tnum = match tp {
            Some(p) => {
                let k = number_at(line, p);
                if k.is_none() {
                    proof {
                        lemma_entries_stay_none(ls, (i + 1) as nat, ls.len());
                    }
                    return Err(ChapterError::InvalidChapterNumber);
                }
                k
            },
            None => None,
        };
        let nnum = match np {
            Some(p) => {
                let k = number_at(line, p);
                if k.is_none() {
                    proof {
                        lemma_entries_stay_none(ls, (i + 1) as nat, ls.len());
                    }
                    return Err(ChapterError::InvalidChapterNumber);
                }
                k
            },
            None => None,
        };
        match (tp, tnum) {
            (Some(p), Some(k)) => {
                ts.push((k, start_at(line, p)));
            },
            _ => {},
        }
        match (np, nnum) {
            (Some(p), Some(k)) => {
                let ghost before = ns@;
                let n = line.len();
                let d = digit_end_exec(line, p + 7);
                let raw = slice_chars(line, d + 5, n);
                let name = trim_chars(&raw);
                ns.push((k, string_of(&name)));
                assert(name_views(ns@) =~= name_views(before).push((k, name@)));
            },
            _ => {},
        }
        i = i + 1;
    }
    if ts.len() == 0 {
        return Err(ChapterError::NoMp4BoxChapters);
    }
    let ghost tsv = ts@;
    let ghost nsv = name_views(ns@);
    let mut found: Vec<Chapter> = Vec::new();
    let mut floor: u64 = 0;
    let mut done = false;
    while !done
        invariant
            tsv == ts@,
            nsv == name_views(ns@),
            box_entries(ls, ls.len()) == Some((tsv, nsv)),
            tsv.len() > 0,
            floor <= u32::MAX as u64 + 1,
            forall|a: int, b: int| 0 <= a < b < found@.len() ==> found@[a].number < found@[b].number,
            forall|a: int| 0 <= a < found@.len() ==> (#[trigger] found@[a]).number < floor,
            forall|a: int| 0 <= a < found@.len() ==> last_entry(tsv, (#[trigger] found@[a]).number) is Some,
            forall|k: u32| k < floor && last_entry(tsv, k) is Some ==> exists|a: int|
                0 <= a < found@.len() && found@[a].number == k,
            done ==> forall|k: u32| last_entry(tsv, k) is Some ==> k < floor,
            forall|a: int|
                0 <= a < found@.len() ==> {
                    &&& (#[trigger] found@[a]).start_time_ms == last_entry(tsv, found@[a].number)->0
                    &&& found@[a].title@ == match last_entry(nsv, found@[a].number) {
                        Some(t) => t,
                        None => "Chapter "@ + crate::text::decimal(found@[a].number as nat),
                    }
                },
        decreases u32::MAX as u64 + 2 - floor + if done { 0u64 } else { 1u64 },
    {
        match next_number(&ts, floor) {
            None => {
                proof {
                    assert forall|k: u32| last_entry(tsv, k) is Some implies k < floor by {
                        lemma_last_entry_some(tsv, k);
                    }
                }
                done = true;
            },
            Some(k) => {
                proof {
                    lemma_last_entry_some(tsv, k);
                    assert forall|j: u32| floor <= j < k implies last_entry(tsv, j) is None by {
                        lemma_last_entry_some(tsv, j);
                    }
                }
                let start = match last_time(&ts, k) {
                    Some(x) => x,
                    None => 0,
                };
                let title = match last_name(&ns, k) {
                    Some(t) => t,
                    None => {
                        let mut w: Vec<char> = Vec::new();
                        crate::text::push_str(&mut w, "Chapter ");
                        crate::text::push_decimal(&mut w, k as u64);
                        string_of(&w)
                    },
                };
                let ghost before = found@;
                found.push(Chapter::new(k, title, start, 0));
                proof {
                    assert forall|j: u32| j < k + 1 && last_entry(tsv, j) is Some implies exists|a: int|
                        0 <= a < found@.len() && found@[a].number == j by {
                        if j == k {
                            assert(found@[found@.len() - 1].number == k);
                        } else {
                            let a = choose|a: int| 0 <= a < before.len() && before[a].number == j;
                            assert(found@[a] == before[a]);
                        }
                    }
                }
                floor = k as u64 + 1;
            },
        }
    }
    let ghost sel = found@;
    let mut out: Vec<Chapter> = Vec::new();
    let mut j: usize = 0;
    while j < found.len()
        invariant
            j <= found@.len(),
            sel == found@,
            tsv == ts@,
            nsv == name_views(ns@),
            box_entries(ls, ls.len()) == Some((tsv, nsv)),
            tsv.len() > 0,
            forall|a: int, b: int| 0 <= a < b < sel.len() ==> sel[a].number < sel[b].number,
            forall|a: int| 0 <= a < sel.len() ==> last_entry(tsv, (#[trigger] sel[a]).number) is Some,
            forall|k: u32| last_entry(tsv, k) is Some ==> exists|a: int|
                0 <= a < sel.len() && sel[a].number == k,
            forall|a: int|
                0 <= a < sel.len() ==> {
                    &&& (#[trigger] sel[a]).start_time_ms == last_entry(tsv, sel[a].number)->0
                    &&& sel[a].title@ == match last_entry(nsv, sel[a].number) {
                        Some(t) => t,
                        None => "Chapter "@ + crate::text::decimal(sel[a].number as nat),
                    }
                },
            out@.len() == j,
            forall|a: int| 0 <= a < j ==> {
                &&& (#[trigger] out@[a]).number == sel[a].number
                &&& out@[a].title == sel[a].title
                &&& out@[a].start_time_ms == sel[a].start_time_ms
                &&& out@[a].end_time_ms == if a + 1 < sel.len() {
                    sel[a + 1].start_time_ms
                } else {
                    0u64
                }
            },
        decreases found@.len() - j,
    {
        let end = if j + 1 < found.len() {
            found[j + 1].start_time_ms
        } else {
            0
        };
        out.push(Chapter::new(found[j].number, found[j].title.clone(), found[j].start_time_ms, end));
        j = j + 1;
    }
    proof {
        let rv = out@.map_values(|c: Chapter| chapter_values(c));
        assert forall|a: int| 0 <= a < rv.len() implies rv[a] == (
            sel[a].number,
            sel[a].title@,
            sel[a].start_time_ms,
            if a + 1 < sel.len() {
                sel[a + 1].start_time_ms
            } else {
                0u64
            },
        ) by {}
        assert forall|k: u32| last_entry(tsv, k) is Some implies exists|a: int|
            0 <= a < rv.len() && rv[a].0 == k by {
            let a = choose|a: int| 0 <= a < sel.len() && sel[a].number == k;
            assert(rv[a].0 == k);
        }
        assert(box_chapters_ok(tsv, nsv, rv));
    }
    Ok(out)
}

/// Chapters from a chapter text of any of the three layouts, told apart by
/// [`detect_text_format`].
pub fn parse_text_chapters(content: &str) -> (r: Result<Vec<Chapter>, ChapterError>)
    requires
        content@.len() + 2 < u32::MAX,
    ensures
        text_format_of(content@) == TextFormat::Simple ==> simple_result_ok(content@, r),
        text_format_of(content@) == TextFormat::Timestamped ==> stamped_result_ok(content@, r),
        text_format_of(content@) == TextFormat::Mp4Box ==> box_result_ok(content@, r),
{
    match detect_text_format(content) {
        TextFormat::Simple => parse_simple_format(content),
        TextFormat::Timestamped => parse_timestamped_format(content),
        TextFormat::Mp4Box => parse_mp4box_format(content),
    }
}

} // verus!
