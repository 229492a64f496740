//! Chapters: their text form for the muxer, and chapters made from track durations.

use vstd::prelude::*;
use crate::path::{file_name, file_name_of, stem, stem_of};
use crate::text::{decimal, padded, push_decimal, push_padded, push_str, string_of};

verus! {

/// One chapter of a book.
#[derive(Debug, Clone)]
pub struct Chapter {
    /// Chapter number, from 1.
    pub number: u32,
    /// Chapter title.
    pub title: String,
    /// Start, in milliseconds.
    pub start_time_ms: u64,
    /// End, in milliseconds.
    pub end_time_ms: u64,
}

/// `ms` as `HH:MM:SS.mmm`, each field zero-padded (hours may take more digits).
pub open spec fn time_text(ms: nat) -> Seq<char> {
    let total = ms / 1000;
    padded(total / 3600, 2) + ":"@ + padded((total % 3600) / 60, 2) + ":"@ + padded(total % 60, 2)
        + "."@ + padded(ms % 1000, 3)
}

/// Formats `ms` as `HH:MM:SS.mmm`.
pub fn format_time_ms(ms: u64) -> (r: String)
    ensures
        r@ == time_text(ms as nat),
{
    let total = ms / 1000;
    let mut v: Vec<char> = Vec::new();
    push_padded(&mut v, total / 3600, 2);
    push_str(&mut v, ":");
    push_padded(&mut v, (total % 3600) / 60, 2);
    push_str(&mut v, ":");
    push_padded(&mut v, total % 60, 2);
    push_str(&mut v, ".");
    push_padded(&mut v, ms % 1000, 3);
    assert(v@ =~= time_text(ms as nat));
    string_of(&v)
}

/// The two muxer lines of a chapter: its start and its name.
pub open spec fn mp4box_text(number: u32, title: Seq<char>, start_ms: u64) -> Seq<char> {
    "CHAPTER"@ + decimal(number as nat) + "="@ + time_text(start_ms as nat) + "\nCHAPTER"@
        + decimal(number as nat) + "NAME="@ + title + "\n"@
}

impl Chapter {
    /// A chapter with the given fields.
    pub fn new(number: u32, title: String, start_time_ms: u64, end_time_ms: u64) -> (r: Chapter)
        ensures
            r.number == number,
            r.title == title,
            r.start_time_ms == start_time_ms,
            r.end_time_ms == end_time_ms,
    {
        Chapter { number, title, start_time_ms, end_time_ms }
    }

    /// The length of the chapter; it must not end before it starts.
    pub fn duration_ms(&self) -> (r: u64)
        requires
            self.start_time_ms <= self.end_time_ms,
        ensures
            r == self.end_time_ms - self.start_time_ms,
    {
        self.end_time_ms - self.start_time_ms
    }

    /// The chapter in the muxer's chapter-file form.
    pub fn to_mp4box_format(&self) -> (r: String)
        ensures
            r@ == mp4box_text(self.number, self.title@, self.start_time_ms),
    {
        let mut v: Vec<char> = Vec::new();
        push_str(&mut v, "CHAPTER");
        push_decimal(&mut v, self.number as u64);
        push_str(&mut v, "=");
        let t = format_time_ms(self.start_time_ms);
        push_str(&mut v, t.as_str());
        push_str(&mut v, "\nCHAPTER");
        push_decimal(&mut v, self.number as u64);
        push_str(&mut v, "NAME=");
        push_str(&mut v, self.title.as_str());
        push_str(&mut v, "\n");
        assert(v@ =~= mp4box_text(self.number, self.title@, self.start_time_ms));
        string_of(&v)
    }

    /// A copy of this chapter.
    pub fn duplicate(&self) -> (r: Chapter)
        ensures
            r == *self,
    {
        Chapter {
            number: self.number,
            title: self.title.clone(),
            start_time_ms: self.start_time_ms,
            end_time_ms: self.end_time_ms,
        }
    }
}

/// The sum of the first `n` durations.
pub open spec fn sum_first(ds: Seq<u64>, n: nat) -> nat
    decreases n,
{
    if n == 0 || n > ds.len() {
        0
    } else {
        sum_first(ds, (n - 1) as nat) + ds[n - 1] as nat
    }
}

/// The title of the chapter made from file `path`, number `i + 1`: the file's
/// stem, or "Chapter <i + 1>" when the path has no file name.
pub open spec fn file_chapter_title(path: Seq<char>, i: nat) -> Seq<char> {
    if file_name_of(path).len() == 0 {
        "Chapter "@ + decimal(i + 1)
    } else {
        stem_of(file_name_of(path))
    }
}

/// The chapters of a book made of one chapter per file: chapter `i` is
/// numbered `i + 1`, titled after the file, and runs from the sum of the
/// durations before it to that sum plus its own duration.
pub open spec fn file_chapters_ok(paths: Seq<String>, ds: Seq<u64>, r: Seq<Chapter>) -> bool {
    &&& r.len() == if paths.len() < ds.len() { paths.len() } else { ds.len() }
    &&& forall|i: int|
        0 <= i < r.len() ==> {
            &&& (#[trigger] r[i]).number == i + 1
            &&& r[i].title@ == file_chapter_title(paths[i]@, i as nat)
            &&& r[i].start_time_ms == sum_first(ds, i as nat)
            &&& r[i].end_time_ms == sum_first(ds, (i + 1) as nat)
        }
}

/// Sums of more leading durations are no smaller.
pub proof fn lemma_sum_first_grows(ds: Seq<u64>, i: nat, j: nat)
    requires
        i <= j <= ds.len(),
    ensures
        sum_first(ds, i) <= sum_first(ds, j),
    decreases j,
{
    if i < j {
        lemma_sum_first_grows(ds, i, (j - 1) as nat);
    }
}

fn chapter_title(path: &str, i: usize) -> (r: String)
    requires
        i < u64::MAX,
    ensures
        r@ == file_chapter_title(path@, i as nat),
{
    let n = file_name(path);
    if n.as_str().is_empty() {
        let mut v: Vec<char> = Vec::new();
        push_str(&mut v, "Chapter ");
        push_decimal(&mut v, i as u64 + 1);
        string_of(&v)
    } else {
        stem(n.as_str())
    }
}

/// One chapter per file, back to back, from the files' durations in milliseconds.
pub fn generate_chapters_from_files(files: &Vec<String>, durations_ms: &Vec<u64>) -> (r: Vec<Chapter>)
    requires
        files@.len() < u32::MAX,
        sum_first(durations_ms@, durations_ms@.len()) <= u64::MAX,
    ensures
        file_chapters_ok(files@, durations_ms@, r@),
{
    let n = if files.len() < durations_ms.len() {
        files.len()
    } else {
        durations_ms.len()
    };
    let mut chapters: Vec<Chapter> = Vec::new();
    let mut current: u64 = 0;
    let mut i: usize = 0;
    while i < n
        invariant
            i <= n,
            n <= files@.len(),
            n <= durations_ms@.len(),
            n == if files@.len() < durations_ms@.len() { files@.len() } else { durations_ms@.len() },
            files@.len() < u32::MAX,
            sum_first(durations_ms@, durations_ms@.len()) <= u64::MAX,
            current == sum_first(durations_ms@, i as nat),
            chapters@.len() == i,
            forall|k: int|
                0 <= k < i ==> {
                    &&& (#[trigger] chapters@[k]).number == k + 1
                    &&& chapters@[k].title@ == file_chapter_title(files@[k]@, k as nat)
                    &&& chapters@[k].start_time_ms == sum_first(durations_ms@, k as nat)
                    &&& chapters@[k].end_time_ms == sum_first(durations_ms@, (k + 1) as nat)
                },
        decreases n - i,
    {
        proof {
            lemma_sum_first_grows(durations_ms@, (i + 1) as nat, durations_ms@.len());
        }
        let d = durations_ms[i];
        let title = chapter_title(files[i].as_str(), i);
        let end = current + d;
        chapters.push(Chapter::new((i + 1) as u32, title, current, end));
        current = end;
        i = i + 1;
    }
    chapters
}

} // verus!
