//! Per-book processing decisions: target quality, copy eligibility, assembly
//! strategy, per-book concurrency, chapter source and working names.

use vstd::prelude::*;
use crate::book::{best_of, copy_eligible, qualities, BookFolder};
use crate::chapters::{file_chapters_ok, generate_chapters_from_files, sum_first, Chapter};
use crate::encoder::AacEncoder;
use crate::ffmpeg::FFmpeg;
use crate::quality::{applied, QualityProfile};
use crate::text::{padded, push_padded, push_str, string_of, text_is};
use crate::track::Track;

verus! {

/// How a book's tracks are assembled into one output file.
#[derive(Debug, Clone, Copy, PartialEq, Eq, Structural)]
pub enum Strategy {
    /// One track: copy or transcode it alone.
    SingleFile,
    /// Several compatible tracks: join them by copying.
    DirectConcatCopy,
    /// Encode each track on its own, under a per-book cap, then join by copying.
    ParallelTranscode,
    /// Join and transcode in one run of the audio tool.
    SerialTranscode,
}

/// The strategy for `n` tracks: the first rule that applies wins.
pub open spec fn strategy_of(n: nat, eligible: bool, parallel: bool) -> Strategy {
    if n == 1 {
        Strategy::SingleFile
    } else if eligible && n > 1 {
        Strategy::DirectConcatCopy
    } else if parallel && n > 1 {
        Strategy::ParallelTranscode
    } else {
        Strategy::SerialTranscode
    }
}

/// Chooses the assembly strategy (see [`strategy_of`]).
pub fn select_strategy(track_count: usize, copy_eligible: bool, parallel_enabled: bool) -> (r: Strategy)
    ensures
        r == strategy_of(track_count as nat, copy_eligible, parallel_enabled),
{
    if track_count == 1 {
        Strategy::SingleFile
    } else if copy_eligible && track_count > 1 {
        Strategy::DirectConcatCopy
    } else if parallel_enabled && track_count > 1 {
        Strategy::ParallelTranscode
    } else {
        Strategy::SerialTranscode
    }
}

/// `v` clamped into `[lo, hi]`.
pub open spec fn clamp(v: int, lo: int, hi: int) -> int {
    if v < lo {
        lo
    } else if v > hi {
        hi
    } else {
        v
    }
}

/// Clamps `v` into `[lo, hi]`.
pub fn clamp_usize(v: usize, lo: usize, hi: usize) -> (r: usize)
    requires
        lo <= hi,
    ensures
        r == clamp(v as int, lo as int, hi as int),
{
    if v < lo {
        lo
    } else if v > hi {
        hi
    } else {
        v
    }
}

/// What goes wrong while planning a book.
#[derive(Debug, Clone, Copy, PartialEq, Eq, Structural)]
pub enum ProcessError {
    /// The book has no tracks.
    NoTracks,
    /// The tracks' durations add up to more than can be counted in milliseconds.
    DurationOverflow,
}

/// Converts books with fixed options and an injected tool location and encoder.
#[derive(Debug, Clone)]
pub struct Processor {
    /// Where the audio tool is.
    pub ffmpeg: FFmpeg,
    /// Keep the per-book working directory afterwards.
    pub keep_temp: bool,
    /// Encoder to transcode with.
    pub encoder: AacEncoder,
    /// Encode tracks in parallel when they must be transcoded.
    pub enable_parallel_encoding: bool,
    /// Cap on tracks of one book encoded at once, within [1, 32].
    pub max_concurrent_files: usize,
    /// Quality preset to apply, if any.
    pub quality_preset: Option<String>,
}

/// The decisions taken for one book before any outside work.
#[derive(Debug, Clone)]
pub struct BookPlan {
    /// The quality to produce.
    pub quality: QualityProfile,
    /// Whether the tracks can be copied without re-encoding.
    pub use_copy: bool,
    /// How the tracks are assembled.
    pub strategy: Strategy,
    /// Cap on tracks encoded at once under the parallel strategy.
    pub file_limit: usize,
    /// File name of the output.
    pub output_filename: String,
    /// Name of the book's private working directory.
    pub temp_dir_name: String,
}

/// Where a book's chapters come from.
#[derive(Debug, Clone)]
pub enum ChapterPlan {
    /// No chapters.
    Nothing,
    /// One chapter per track, already made.
    FromFiles(Vec<Chapter>),
    /// The cue sheet at this path.
    FromCue(String),
}

/// What `sanitize_filename::sanitize` makes of a file name.
pub uninterp spec fn sanitized_of(s: Seq<char>) -> Seq<char>;

/// A character that `sanitize_filename::sanitize` never leaves in a name: one
/// of `/ ? < > \ : * | "`, or a control character (U+0000 to U+001F, U+0080
/// to U+009F).
pub open spec fn unsafe_name_char(c: char) -> bool {
    let u = c as u32;
    c == '/' || c == '?' || c == '<' || c == '>' || c == '\\' || c == ':' || c == '*' || c == '|'
        || c == '"' || u <= 0x1F || (0x80 <= u <= 0x9F)
}

/// Relies on `sanitize_filename::sanitize`: the result depends on the name
/// alone (the Windows rules are fixed when the crate is built), and the
/// characters illegal in a file name and the control characters are removed.
#[verifier::external_body]
fn sanitize_name(name: &str) -> (r: String)
    ensures
        r@ == sanitized_of(name@),
        forall|i: int| 0 <= i < r@.len() ==> !unsafe_name_char(#[trigger] r@[i]),
{
    sanitize_filename::sanitize(name)
}

/// The working directory name of a book: a fixed prefix and the sanitized
/// book name; it holds no slash after the prefix.
pub fn temp_dir_name(book_name: &str) -> (r: String)
    ensures
        r@ == "audiobook-forge-"@ + sanitized_of(book_name@),
        r@.len() >= 16,
        r@.subrange(0, 16) == "audiobook-forge-"@,
        forall|i: int| 16 <= i < r@.len() ==> r@[i] != '/',
{
    let clean = sanitize_name(book_name);
    let mut r = "audiobook-forge-".to_owned();
    proof {
        reveal_strlit("audiobook-forge-");
    }
    r.append(clean.as_str());
    assert(r@.subrange(0, 16) =~= "audiobook-forge-"@);
    assert forall|i: int| 16 <= i < r@.len() implies r@[i] != '/' by {
        assert(r@[i] == clean@[i - 16]);
        assert(!unsafe_name_char(clean@[i - 16]));
    }
    r
}

/// The name of the intermediate file for track `i`: "encoded_", `i` padded to
/// four digits, ".m4a".
pub fn intermediate_name(i: usize) -> (r: String)
    ensures
        r@ == "encoded_"@ + padded(i as nat, 4) + ".m4a"@,
{
    let mut v: Vec<char> = Vec::new();
    push_str(&mut v, "encoded_");
    push_padded(&mut v, i as u64, 4);
    push_str(&mut v, ".m4a");
    string_of(&v)
}

/// The file paths of the tracks.
pub open spec fn track_paths(ts: Seq<Track>) -> Seq<String> {
    Seq::new(ts.len(), |i: int| ts[i].file_path)
}

/// The durations of the tracks.
pub open spec fn track_durations(ts: Seq<Track>) -> Seq<u64> {
    Seq::new(ts.len(), |i: int| ts[i].quality.duration_ms)
}

fn collect_paths(ts: &Vec<Track>) -> (r: Vec<String>)
    ensures
        r@ == track_paths(ts@),
{
    let mut r: Vec<String> = Vec::new();
    let mut i: usize = 0;
    while i < ts.len()
        invariant
            i <= ts@.len(),
            r@ =~= track_paths(ts@).subrange(0, i as int),
        decreases ts@.len() - i,
    {
        r.push(ts[i].file_path.clone());
        i = i + 1;
    }
    r
}

fn collect_durations(ts: &Vec<Track>) -> (r: Vec<u64>)
    ensures
        r@ == track_durations(ts@),
{
    let mut r: Vec<u64> = Vec::new();
    let mut i: usize = 0;
    while i < ts.len()
        invariant
            i <= ts@.len(),
            r@ =~= track_durations(ts@).subrange(0, i as int),
        decreases ts@.len() - i,
    {
        r.push(ts[i].quality.duration_ms);
        i = i + 1;
    }
    r
}

/// The sum of all durations, if it fits in 64 bits.
fn checked_total(ds: &Vec<u64>) -> (r: Option<u64>)
    ensures
        match r {
            Some(t) => t == sum_first(ds@, ds@.len()),
            None => sum_first(ds@, ds@.len()) > u64::MAX,
        },
{
    let mut total: u64 = 0;
    let mut i: usize = 0;
    while i < ds.len()
        invariant
            i <= ds@.len(),
            total == sum_first(ds@, i as nat),
        decreases ds@.len() - i,
    {
        if total > u64::MAX - ds[i] {
            proof {
                crate::chapters::lemma_sum_first_grows(ds@, (i + 1) as nat, ds@.len());
            }
            return None;
        }
        total = total + ds[i];
        i = i + 1;
    }
    Some(total)
}


/// The chapter source a policy token and a book lead to: "cue" uses the cue
/// sheet if there is one; "none" gives no chapters; any other token, "files"
/// and "auto" among them, makes one chapter per track when there are several,
/// and else uses the cue sheet if there is one.
pub open spec fn chapter_plan_ok(book: BookFolder, source: Seq<char>, r: ChapterPlan) -> bool {
    if source == "cue"@ || source == "none"@ || book.tracks@.len() <= 1 {
        match r {
            ChapterPlan::FromCue(p) => source != "none"@ && book.cue_file == Some(p),
            ChapterPlan::Nothing => source == "none"@ || book.cue_file is None,
            ChapterPlan::FromFiles(_) => false,
        }
    } else {
        match r {
            ChapterPlan::FromFiles(cs) => file_chapters_ok(
                track_paths(book.tracks@),
                track_durations(book.tracks@),
                cs@,
            ),
            _ => false,
        }
    }
}

impl Processor {
    /// A processor with default options: no kept working files, parallel
    /// encoding on, at most 8 tracks at once, no preset.
    pub fn new(ffmpeg: FFmpeg, encoder: AacEncoder) -> (r: Processor)
        ensures
            r.ffmpeg == ffmpeg,
            r.encoder == encoder,
            !r.keep_temp,
            r.enable_parallel_encoding,
            r.max_concurrent_files == 8,
            r.quality_preset is None,
    {
        Processor {
            ffmpeg,
            keep_temp: false,
            encoder,
            enable_parallel_encoding: true,
            max_concurrent_files: 8,
            quality_preset: None,
        }
    }

    /// A processor with the given options; the per-book cap is clamped into [1, 32].
    pub fn with_options(
        ffmpeg: FFmpeg,
        keep_temp: bool,
        encoder: AacEncoder,
        enable_parallel_encoding: bool,
        max_concurrent_files: usize,
        quality_preset: Option<String>,
    ) -> (r: Processor)
        ensures
            r.ffmpeg == ffmpeg,
            r.keep_temp == keep_temp,
            r.encoder == encoder,
            r.enable_parallel_encoding == enable_parallel_encoding,
            r.max_concurrent_files == clamp(max_concurrent_files as int, 1, 32),
            r.quality_preset == quality_preset,
    {
        Processor {
            ffmpeg,
            keep_temp,
            encoder,
            enable_parallel_encoding,
            max_concurrent_files: clamp_usize(max_concurrent_files, 1, 32),
            quality_preset,
        }
    }

    /// The decisions for `book`: the best track profile with the preset
    /// applied, copy eligibility, the strategy, the per-book cap
    /// `min(max_concurrent_files, track count)`, and the output and working
    /// names. A book without tracks is refused.
    pub fn plan_book(&self, book: &BookFolder) -> (r: Result<BookPlan, ProcessError>)
        ensures
            r is Err <==> book.tracks@.len() == 0,
            r matches Err(e) ==> e == ProcessError::NoTracks,
            r matches Ok(p) ==> {
                &&& p.quality@ == applied(
                    best_of(qualities(book.tracks@), true),
                    match self.quality_preset {
                        Some(s) => Some(s@),
                        None => None,
                    },
                )
                &&& p.use_copy == copy_eligible(book.tracks@)
                &&& p.strategy == strategy_of(
                    book.tracks@.len(),
                    copy_eligible(book.tracks@),
                    self.enable_parallel_encoding,
                )
                &&& p.file_limit == if self.max_concurrent_files < book.tracks@.len() {
                    self.max_concurrent_files as int
                } else {
                    book.tracks@.len() as int
                }
                &&& p.output_filename@ == book.name@ + ".m4b"@
                &&& p.temp_dir_name@ == "audiobook-forge-"@ + sanitized_of(book.name@)
            },
    {
        let best = match book.get_best_quality_profile(true) {
            Some(q) => q,
            None => {
                return Err(ProcessError::NoTracks);
            },
        };
        let quality = match &self.quality_preset {
            Some(p) => best.apply_preset(Some(p.as_str())),
            None => best.apply_preset(None),
        };
        let use_copy = book.can_use_concat_copy();
        let n = book.tracks.len();
        let strategy = select_strategy(n, use_copy, self.enable_parallel_encoding);
        let file_limit = if self.max_concurrent_files < n {
            self.max_concurrent_files
        } else {
            n
        };
        Ok(
            BookPlan {
                quality,
                use_copy,
                strategy,
                file_limit,
                output_filename: book.get_output_filename(),
                temp_dir_name: temp_dir_name(book.name.as_str()),
            },
        )
    }

    /// Where the chapters of `book` come from under the policy token
    /// `chapter_source` (see [`chapter_plan_ok`]); refused only when the
    /// track durations overflow.
    pub fn generate_chapters(&self, book: &BookFolder, chapter_source: &str) -> (r: Result<
        ChapterPlan,
        ProcessError,
    >)
        ensures
            r is Err <==> !(chapter_source@ == "cue"@ || chapter_source@ == "none"@
                || book.tracks@.len() <= 1) && (sum_first(
                track_durations(book.tracks@),
                book.tracks@.len(),
            ) > u64::MAX || book.tracks@.len() >= u32::MAX),
            r matches Err(e) ==> e == ProcessError::DurationOverflow,
            r matches Ok(p) ==> chapter_plan_ok(*book, chapter_source@, p),
    {
        let is_cue = text_is(chapter_source, "cue");
        let is_none = text_is(chapter_source, "none");
        if is_none {
            return Ok(ChapterPlan::Nothing);
        }
        if is_cue || book.tracks.len() <= 1 {
            return match &book.cue_file {
                Some(p) => Ok(ChapterPlan::FromCue(p.clone())),
                None => Ok(ChapterPlan::Nothing),
            };
        }
        let paths = collect_paths(&book.tracks);
        let durations = collect_durations(&book.tracks);
        if book.tracks.len() >= 4294967295 {
            return Err(ProcessError::DurationOverflow);
        }
        match checked_total(&durations) {
            Some(_) => Ok(ChapterPlan::FromFiles(generate_chapters_from_files(&paths, &durations))),
            None => Err(ProcessError::DurationOverflow),
        }
    }
}

/// The per-book cap never exceeds the number of tracks nor the configured cap,
/// and is at least one when both are.
pub proof fn lemma_file_limit(max_files: int, tracks: int)
    requires
        max_files >= 1,
        tracks >= 1,
    ensures
        ({
            let l = if max_files < tracks {
                max_files
            } else {
                tracks
            };
            1 <= l && l <= max_files && l <= tracks
        }),
{
}

} // verus!
