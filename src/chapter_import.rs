//! Importing chapter names and merging them with existing chapters.

use vstd::prelude::*;
use crate::chapters::Chapter;
use crate::text::{chars_of, decimal, push_decimal, push_str, split_chars, split_on, string_of, trim_chars, trim_of};

verus! {

/// Where imported chapters come from.
#[derive(Debug, Clone)]
pub enum ChapterSource {
    /// The online chapter service, by ASIN.
    Audnex { asin: String },
    /// A text file.
    TextFile { path: String },
    /// The table of contents of an EPUB file.
    Epub { path: String },
    /// The chapters already in the output file.
    Existing,
}

/// How imported chapters are combined with existing ones.
#[derive(Debug, Clone, Copy, PartialEq, Eq, Structural)]
pub enum ChapterMergeStrategy {
    /// Keep the existing timestamps, take the new names.
    KeepTimestamps,
    /// Take the new chapters as they are.
    ReplaceAll,
    /// Refuse when the counts differ, else keep timestamps.
    SkipOnMismatch,
    /// Decided per file by the user; merged as with kept timestamps here.
    Interactive,
}

impl ChapterMergeStrategy {
    /// A sentence describing the strategy.
    pub fn description(&self) -> (r: &'static str)
        ensures
            r@ == match *self {
                ChapterMergeStrategy::KeepTimestamps => "Keep existing timestamps, update names only"@,
                ChapterMergeStrategy::ReplaceAll => "Replace all chapters (timestamps + names)"@,
                ChapterMergeStrategy::SkipOnMismatch => "Skip if chapter counts don't match"@,
                ChapterMergeStrategy::Interactive => "Ask for each file"@,
            },
    {
        match self {
            ChapterMergeStrategy::KeepTimestamps => "Keep existing timestamps, update names only",
            ChapterMergeStrategy::ReplaceAll => "Replace all chapters (timestamps + names)",
            ChapterMergeStrategy::SkipOnMismatch => "Skip if chapter counts don't match",
            ChapterMergeStrategy::Interactive => "Ask for each file",
        }
    }
}

/// The chapter counts of two lists and whether they agree.
#[derive(Debug, Clone, Copy, PartialEq, Eq, Structural)]
pub struct ChapterComparison {
    pub existing_count: usize,
    pub new_count: usize,
    pub matches: bool,
}

impl ChapterComparison {
    /// Compares the lengths of `existing` and `new`.
    pub fn new(existing: &Vec<Chapter>, new: &Vec<Chapter>) -> (r: ChapterComparison)
        ensures
            r.existing_count == existing@.len(),
            r.new_count == new@.len(),
            r.matches == (existing@.len() == new@.len()),
    {
        ChapterComparison {
            existing_count: existing.len(),
            new_count: new.len(),
            matches: existing.len() == new.len(),
        }
    }
}

/// The layouts of a chapter text file.
#[derive(Debug, Clone, Copy, PartialEq, Eq, Structural)]
pub enum TextFormat {
    /// One title per line.
    Simple,
    /// A timestamp and a title per line.
    Timestamped,
    /// The muxer's CHAPTERn= / CHAPTERnNAME= lines.
    Mp4Box,
}

/// Why chapters could not be imported or merged.
#[derive(Debug, Clone, Copy, PartialEq, Eq, Structural)]
pub enum ChapterError {
    /// The counts differ and the strategy refuses that.
    CountMismatch { existing: usize, new: usize },
    /// The text held no chapter.
    NoChapters,
    /// The text held no line with a timestamp.
    NoTimestampedChapters,
    /// A chapter number does not fit in 32 bits.
    InvalidChapterNumber,
    /// The text held no timed muxer line.
    NoMp4BoxChapters,
}

/// The message for a chapter error.
pub open spec fn chapter_error_text(e: ChapterError) -> Seq<char> {
    match e {
        ChapterError::CountMismatch { existing, new } => "Chapter count mismatch: existing has "@
            + decimal(existing as nat) + ", new has "@ + decimal(new as nat) + ". Skipping update."@,
        ChapterError::NoChapters => "No chapters found in file"@,
        ChapterError::NoTimestampedChapters => "No valid timestamped chapters found"@,
        ChapterError::InvalidChapterNumber => "Invalid chapter number"@,
        ChapterError::NoMp4BoxChapters => "No chapters found in MP4Box format"@,
    }
}

impl ChapterError {
    /// The message for this error.
    pub fn message(&self) -> (r: String)
        ensures
            r@ == chapter_error_text(*self),
    {
        match self {
            ChapterError::CountMismatch { existing, new } => {
                let mut v: Vec<char> = Vec::new();
                push_str(&mut v, "Chapter count mismatch: existing has ");
                push_decimal(&mut v, *existing as u64);
                push_str(&mut v, ", new has ");
                push_decimal(&mut v, *new as u64);
                push_str(&mut v, ". Skipping update.");
                assert(v@ =~= chapter_error_text(*self));
                string_of(&v)
            },
            ChapterError::NoChapters => "No chapters found in file".to_owned(),
            ChapterError::NoTimestampedChapters => "No valid timestamped chapters found".to_owned(),
            ChapterError::InvalidChapterNumber => "Invalid chapter number".to_owned(),
            ChapterError::NoMp4BoxChapters => "No chapters found in MP4Box format".to_owned(),
        }
    }
}

/// The merge keeping timestamps: for each position both lists have, the
/// existing chapter's number and times with the new title; then the existing
/// chapters beyond the new list, unchanged.
pub open spec fn keep_timestamps_ok(existing: Seq<Chapter>, new: Seq<Chapter>, r: Seq<Chapter>) -> bool {
    &&& r.len() == existing.len()
    &&& forall|i: int|
        0 <= i < r.len() ==> if i < new.len() {
            &&& (#[trigger] r[i]).number == existing[i].number
            &&& r[i].title == new[i].title
            &&& r[i].start_time_ms == existing[i].start_time_ms
            &&& r[i].end_time_ms == existing[i].end_time_ms
        } else {
            r[i] == existing[i]
        }
}

/// Keeps the existing timestamps and takes the new names (see [`keep_timestamps_ok`]).
pub fn merge_keep_timestamps(existing: &Vec<Chapter>, new: &Vec<Chapter>) -> (r: Vec<Chapter>)
    ensures
        keep_timestamps_ok(existing@, new@, r@),
{
    let mut merged: Vec<Chapter> = Vec::new();
    let mut i: usize = 0;
    while i < existing.len()
        invariant
            i <= existing@.len(),
            merged@.len() == i,
            forall|k: int|
                0 <= k < i ==> if k < new@.len() {
                    &&& (#[trigger] merged@[k]).number == existing@[k].number
                    &&& merged@[k].title == new@[k].title
                    &&& merged@[k].start_time_ms == existing@[k].start_time_ms
                    &&& merged@[k].end_time_ms == existing@[k].end_time_ms
                } else {
                    merged@[k] == existing@[k]
                },
        decreases existing@.len() - i,
    {
        let old_ch = &existing[i];
        if i < new.len() {
            merged.push(
                Chapter::new(
                    old_ch.number,
                    new[i].title.clone(),
                    old_ch.start_time_ms,
                    old_ch.end_time_ms,
                ),
            );
        } else {
            merged.push(old_ch.duplicate());
        }
        i = i + 1;
    }
    merged
}

fn copy_chapters(v: &Vec<Chapter>) -> (r: Vec<Chapter>)
    ensures
        r@ == v@,
{
    let mut out: Vec<Chapter> = Vec::new();
    let mut i: usize = 0;
    while i < v.len()
        invariant
            i <= v@.len(),
            out@ =~= v@.subrange(0, i as int),
        decreases v@.len() - i,
    {
        out.push(v[i].duplicate());
        i = i + 1;
    }
    out
}

/// Merges `new` chapters into `existing` ones by `strategy`: replace takes the
/// new list; skip-on-mismatch refuses differing counts; otherwise timestamps
/// are kept and names taken.
pub fn merge_chapters(existing: &Vec<Chapter>, new: &Vec<Chapter>, strategy: ChapterMergeStrategy) -> (r:
    Result<Vec<Chapter>, ChapterError>)
    ensures
        strategy == ChapterMergeStrategy::ReplaceAll ==> r is Ok && r->Ok_0@ == new@,
        strategy == ChapterMergeStrategy::SkipOnMismatch && existing@.len() != new@.len() ==> r
            == Err::<Vec<Chapter>, ChapterError>(
            ChapterError::CountMismatch { existing: existing@.len() as usize, new: new@.len() as usize },
        ),
        strategy != ChapterMergeStrategy::ReplaceAll && !(strategy
            == ChapterMergeStrategy::SkipOnMismatch && existing@.len() != new@.len()) ==> r is Ok
            && keep_timestamps_ok(existing@, new@, r->Ok_0@),
{
    let comparison = ChapterComparison::new(existing, new);
    match strategy {
        ChapterMergeStrategy::SkipOnMismatch => {
            if !comparison.matches {
                return Err(
                    ChapterError::CountMismatch {
                        existing: comparison.existing_count,
                        new: comparison.new_count,
                    },
                );
            }
            Ok(merge_keep_timestamps(existing, new))
        },
        ChapterMergeStrategy::KeepTimestamps => Ok(merge_keep_timestamps(existing, new)),
        ChapterMergeStrategy::ReplaceAll => Ok(copy_chapters(new)),
        ChapterMergeStrategy::Interactive => Ok(merge_keep_timestamps(existing, new)),
    }
}

/// The non-blank lines of `lines` from position `i` on, trimmed.
pub open spec fn titles_from(lines: Seq<Seq<char>>, i: nat) -> Seq<Seq<char>>
    decreases lines.len() - i,
{
    if i >= lines.len() {
        Seq::empty()
    } else if trim_of(lines[i as int]).len() == 0 {
        titles_from(lines, i + 1)
    } else {
        seq![trim_of(lines[i as int])] + titles_from(lines, i + 1)
    }
}

/// The chapter titles of a text with one title per line: its non-blank lines, trimmed.
pub open spec fn simple_titles(content: Seq<char>) -> Seq<Seq<char>> {
    titles_from(split_on(content, '\n'), 0)
}

/// `r` is what reading `content` as one title per line gives: chapter `i`
/// numbered `i + 1` with the `i`-th title and no times, or the refusal of a
/// text without titles.
pub open spec fn simple_result_ok(content: Seq<char>, r: Result<Vec<Chapter>, ChapterError>) -> bool {
    &&& simple_titles(content).len() == 0 <==> r is Err
    &&& r matches Err(e) ==> e == ChapterError::NoChapters
    &&& r matches Ok(cs) ==> cs@.len() == simple_titles(content).len() && forall|i: int|
        0 <= i < cs@.len() ==> {
            &&& (#[trigger] cs@[i]).number == i + 1
            &&& cs@[i].title@ == simple_titles(content)[i]
            &&& cs@[i].start_time_ms == 0
            &&& cs@[i].end_time_ms == 0
        }
}

/// Chapters from a text with one title per line: chapter `i` is numbered
/// `i + 1` and has no times. A text without titles is refused.
pub fn parse_simple_format(content: &str) -> (r: Result<Vec<Chapter>, ChapterError>)
    requires
        content@.len() < u32::MAX,
    ensures
        simple_result_ok(content@, r),
{
    let v = chars_of(content);
    let lines = split_chars(&v, '\n');
    let ghost ls = lines@.map_values(|p: Vec<char>| p@);
    let mut chapters: Vec<Chapter> = Vec::new();
    let mut i: usize = 0;
    proof {
        lemma_titles_len(ls, 0);
        crate::text::lemma_split_len(content@, '\n');
    }
    while i < lines.len()
        invariant
            i <= lines@.len(),
            ls == lines@.map_values(|p: Vec<char>| p@),
            ls == split_on(content@, '\n'),
            lines@.len() <= content@.len() + 1,
            content@.len() < u32::MAX,
            titles_from(ls, 0) == chapters@.map_values(|c: Chapter| c.title@) + titles_from(ls, i as nat),
            chapters@.len() <= i,
            forall|k: int|
                0 <= k < chapters@.len() ==> {
                    &&& (#[trigger] chapters@[k]).number == k + 1
                    &&& chapters@[k].start_time_ms == 0
                    &&& chapters@[k].end_time_ms == 0
                },
        decreases lines@.len() - i,
    {
        let t = trim_chars(&lines[i]);
        if t.len() > 0 {
            let ghost before = chapters@;
            let n = chapters.len() as u32 + 1;
            chapters.push(Chapter::new(n, string_of(&t), 0, 0));
            assert(chapters@.map_values(|c: Chapter| c.title@) =~= before.map_values(|c: Chapter| c.title@).push(t@));
            assert(titles_from(ls, i as nat) == seq![t@] + titles_from(ls, (i + 1) as nat));
            assert(titles_from(ls, 0) =~= chapters@.map_values(|c: Chapter| c.title@) + titles_from(ls, (i + 1) as nat));
        }
        i = i + 1;
    }
    assert(titles_from(ls, i as nat) =~= Seq::<Seq<char>>::empty());
    assert(titles_from(ls, 0) =~= chapters@.map_values(|c: Chapter| c.title@));
    if chapters.len() == 0 {
        return Err(ChapterError::NoChapters);
    }
    Ok(chapters)
}

proof fn lemma_titles_len(lines: Seq<Seq<char>>, i: nat)
    ensures
        titles_from(lines, i).len() <= if i <= lines.len() { lines.len() - i } else { 0 },
    decreases lines.len() - i,
{
    if i < lines.len() {
        lemma_titles_len(lines, i + 1);
    }
}

/// The value of a string of decimal digits.
pub open spec fn digits_value(d: Seq<char>) -> nat
    decreases d.len(),
{
    if d.len() == 0 {
        0
    } else {
        digits_value(d.drop_last()) * 10 + (d.last() as nat - '0' as nat) as nat
    }
}

/// All characters are ASCII digits.
pub open spec fn all_digits(d: Seq<char>) -> bool {
    forall|i: int| 0 <= i < d.len() ==> '0' <= #[trigger] d[i] <= '9'
}

/// The part of a seconds text before its last dot (all of it without a dot).
pub open spec fn whole_part(s: Seq<char>) -> Seq<char> {
    let dot = crate::path::last_index(s, '.');
    if dot < 0 {
        s
    } else {
        s.subrange(0, dot)
    }
}

/// The part of a seconds text after its last dot (empty without a dot).
pub open spec fn frac_part(s: Seq<char>) -> Seq<char> {
    let dot = crate::path::last_index(s, '.');
    if dot < 0 {
        Seq::empty()
    } else {
        s.subrange(dot + 1, s.len() as int)
    }
}

/// The first three fraction digits, padded with zeros.
pub open spec fn first3(frac: Seq<char>) -> Seq<char> {
    if frac.len() >= 3 {
        frac.subrange(0, 3)
    } else {
        frac + Seq::new((3 - frac.len()) as nat, |i: int| '0')
    }
}

/// The milliseconds of a decimal seconds text `W` or `W.F`: whole seconds
/// times 1000 plus the first three fraction digits; `None` for any other text,
/// or when the value does not fit in 64 bits.
pub open spec fn ffprobe_time_spec(s: Seq<char>) -> Option<nat> {
    let whole = whole_part(s);
    let frac = frac_part(s);
    if s.len() == 0 || !all_digits(whole) || !all_digits(frac) || (whole.len() == 0 && frac.len() == 0) {
        None
    } else {
        let v = digits_value(whole) * 1000 + digits_value(first3(frac));
        if v > u64::MAX {
            None
        } else {
            Some(v)
        }
    }
}

pub(crate) fn all_digits_exec(d: &Vec<char>, from: usize, to: usize) -> (r: bool)
    requires
        from <= to <= d@.len(),
    ensures
        r == all_digits(d@.subrange(from as int, to as int)),
{
    let mut i: usize = from;
    while i < to
        invariant
            from <= i <= to,
            to <= d@.len(),
            all_digits(d@.subrange(from as int, i as int)),
        decreases to - i,
    {
        if d[i] < '0' || d[i] > '9' {
            assert(d@.subrange(from as int, to as int)[i - from] == d@[i as int]);
            return false;
        }
        i = i + 1;
        assert forall|k: int| 0 <= k < i - from implies '0' <= #[trigger] d@.subrange(from as int, i as int)[k] <= '9' by {
            if k < i - 1 - from {
                assert(d@.subrange(from as int, i as int)[k] == d@.subrange(from as int, i - 1)[k]);
            }
        }
    }
    true
}

proof fn lemma_digits_prefix(d: Seq<char>, n: nat)
    requires
        n <= d.len(),
    ensures
        digits_value(d.subrange(0, n as int)) <= digits_value(d),
    decreases d.len(),
{
    if n < d.len() {
        assert(d.drop_last().subrange(0, n as int) =~= d.subrange(0, n as int));
        lemma_digits_prefix(d.drop_last(), n);
        let x = digits_value(d.drop_last());
        let y = (d.last() as nat - '0' as nat) as nat;
        assert(x <= x * 10 + y) by (nonlinear_arith);
    } else {
        assert(d.subrange(0, n as int) =~= d);
    }
}

pub(crate) fn digits_exec(d: &Vec<char>, from: usize, to: usize) -> (r: Option<u64>)
    requires
        from <= to <= d@.len(),
        all_digits(d@.subrange(from as int, to as int)),
    ensures
        match r {
            Some(v) => v == digits_value(d@.subrange(from as int, to as int)),
            None => digits_value(d@.subrange(from as int, to as int)) > u64::MAX,
        },
{
    let ghost whole = d@.subrange(from as int, to as int);
    let mut v: u64 = 0;
    let mut i: usize = from;
    while i < to
        invariant
            from <= i <= to,
            to <= d@.len(),
            whole == d@.subrange(from as int, to as int),
            all_digits(whole),
            v == digits_value(d@.subrange(from as int, i as int)),
        decreases to - i,
    {
        let c = d[i];
        assert(d@.subrange(from as int, i + 1).drop_last() =~= d@.subrange(from as int, i as int));
        assert(whole[i - from] == c);
        let digit = (c as u32 - '0' as u32) as u64;
        assert(digit == (c as nat - '0' as nat));
        if v > (u64::MAX - digit) / 10 {
            proof {
                assert(v * 10 + digit > u64::MAX) by (nonlinear_arith)
                    requires
                        v > (u64::MAX - digit) / 10,
                        digit <= 9,
                ;
                assert(whole.subrange(0, i + 1 - from) =~= d@.subrange(from as int, i + 1));
                lemma_digits_prefix(whole, (i + 1 - from) as nat);
            }
            return None;
        }
        assert(v * 10 + digit <= u64::MAX) by (nonlinear_arith)
            requires
                v <= (u64::MAX - digit) / 10,
                digit <= 9,
        ;
        v = v * 10 + digit;
        i = i + 1;
    }
    Some(v)
}

fn first3_value(s: &Vec<char>, fstart: usize) -> (r: u64)
    requires
        fstart <= s@.len(),
        all_digits(s@.subrange(fstart as int, s@.len() as int)),
    ensures
        r == digits_value(first3(s@.subrange(fstart as int, s@.len() as int))),
        r <= 999,
{
    proof {
        reveal_with_fuel(power10, 4);
        reveal_with_fuel(digits_value, 4);
    }
    let n = s.len();
    let ghost frac = s@.subrange(fstart as int, n as int);
    let ghost frac3 = first3(frac);
    let flen = n - fstart;
    if flen >= 3 {
        proof {
            assert(s@.subrange(fstart as int, fstart + 3) =~= frac3);
            assert forall|k: int| 0 <= k < 3 implies '0' <= #[trigger] frac3[k] <= '9' by {
                assert(frac3[k] == frac[k]);
            }
            lemma_digits_small(frac3);
        }
        match digits_exec(s, fstart, fstart + 3) {
            Some(x) => x,
            None => 0,
        }
    } else {
        proof {
            lemma_digits_small(frac);
        }
        let f = match digits_exec(s, fstart, n) {
            Some(f) => f,
            None => 0,
        };
        if flen == 2 {
            assert(frac3.drop_last() =~= frac);
            f * 10
        } else if flen == 1 {
            assert(frac3.drop_last().drop_last() =~= frac);
            assert(frac3.drop_last().last() == '0');
            f * 100
        } else {
            assert(frac3.drop_last().drop_last().drop_last() =~= Seq::<char>::empty());
            assert(frac3.drop_last().drop_last().last() == '0');
            assert(frac3.drop_last().last() == '0');
            0
        }
    }
}

/// Reads a decimal seconds text as milliseconds (see [`ffprobe_time_spec`]).
pub fn parse_ffprobe_time(time_str: &str) -> (r: Option<u64>)
    ensures
        match ffprobe_time_spec(time_str@) {
            Some(v) => r == Some(v as u64),
            None => r is None,
        },
{
    let s = chars_of(time_str);
    let n = s.len();
    if n == 0 {
        return None;
    }
    let (wend, fstart): (usize, usize) = match crate::path::last_index_exec(&s, '.') {
        Some(k) => (k, k + 1),
        None => (n, n),
    };
    assert(s@.subrange(0, n as int) =~= s@);
    assert(s@.subrange(n as int, n as int) =~= Seq::<char>::empty());
    assert(whole_part(s@) == s@.subrange(0, wend as int));
    assert(frac_part(s@) == s@.subrange(fstart as int, n as int));
    if wend == 0 && fstart == n {
        return None;
    }
    if !all_digits_exec(&s, 0, wend) || !all_digits_exec(&s, fstart, n) {
        return None;
    }
    let w = match digits_exec(&s, 0, wend) {
        Some(w) => w,
        None => {
            return None;
        },
    };
    let f3 = first3_value(&s, fstart);
    if w > (u64::MAX - f3) / 1000 {
        assert(w * 1000 + f3 > u64::MAX) by (nonlinear_arith)
            requires
                w > (u64::MAX - f3) / 1000,
                f3 <= 999,
        ;
        return None;
    }
    assert(w * 1000 + f3 <= u64::MAX) by (nonlinear_arith)
        requires
            w <= (u64::MAX - f3) / 1000,
            f3 <= 999,
    ;
    Some(w * 1000 + f3)
}

proof fn lemma_digits_small(d: Seq<char>)
    requires
        d.len() <= 3,
        all_digits(d),
    ensures
        digits_value(d) < power10(d.len()),
    decreases d.len(),
{
    if d.len() > 0 {
        assert forall|i: int| 0 <= i < d.drop_last().len() implies '0' <= #[trigger] d.drop_last()[i] <= '9' by {
            assert(d.drop_last()[i] == d[i]);
        }
        lemma_digits_small(d.drop_last());
        assert(d[d.len() - 1] == d.last());
        let x = digits_value(d.drop_last());
        let p = power10(d.drop_last().len());
        let y = (d.last() as nat - '0' as nat) as nat;
        assert(x * 10 + y < p * 10) by (nonlinear_arith)
            requires
                x < p,
                y <= 9,
        ;
    }
}

/// Ten to the power `n`.
pub open spec fn power10(n: nat) -> nat
    decreases n,
{
    if n == 0 {
        1
    } else {
        10 * power10((n - 1) as nat)
    }
}

} // verus!
