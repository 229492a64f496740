//! Audiobook folders and their classification into processing cases.

use vstd::prelude::*;
use crate::path::{file_name, file_name_of};
use crate::quality::{better, compatible, QualityProfile, QualitySpec};
use crate::text::{lower_of, to_lower};
use crate::track::Track;
use crate::chapters::sum_first;
use crate::processor::track_durations;

verus! {

/// The processing case of a folder.
#[derive(Debug, Clone, Copy, PartialEq, Eq, Structural)]
pub enum BookCase {
    /// Several convertible source files.
    A,
    /// Exactly one convertible source file.
    B,
    /// A finished output file is already present.
    C,
    /// Nothing to work on.
    D,
}

/// The case of a folder holding `sources` convertible files and `outputs`
/// finished files: finished output wins, then several sources, then one.
pub open spec fn case_of(sources: nat, outputs: nat) -> BookCase {
    if outputs > 0 {
        BookCase::C
    } else if sources > 1 {
        BookCase::A
    } else if sources == 1 {
        BookCase::B
    } else {
        BookCase::D
    }
}

/// Computes [`case_of`] from the two bucket sizes.
pub fn classify_counts(source_count: usize, output_count: usize) -> (r: BookCase)
    ensures
        r == case_of(source_count as nat, output_count as nat),
{
    if output_count > 0 {
        BookCase::C
    } else if source_count > 1 {
        BookCase::A
    } else if source_count == 1 {
        BookCase::B
    } else {
        BookCase::D
    }
}

/// The classification table: no files gives D, one source B, several sources
/// A, and any finished output C whatever the number of sources.
pub proof fn lemma_classify_table(n: nat, m: nat)
    ensures
        case_of(0, 0) == BookCase::D,
        case_of(1, 0) == BookCase::B,
        n >= 2 ==> case_of(n, 0) == BookCase::A,
        m >= 1 ==> case_of(n, m) == BookCase::C,
{
}

/// The letter of a case.
pub open spec fn case_letter(c: BookCase) -> Seq<char> {
    match c {
        BookCase::A => "A"@,
        BookCase::B => "B"@,
        BookCase::C => "C"@,
        BookCase::D => "D"@,
    }
}

impl BookCase {
    /// The case letter.
    pub fn as_str(&self) -> (r: &'static str)
        ensures
            r@ == case_letter(*self),
    {
        match self {
            BookCase::A => "A",
            BookCase::B => "B",
            BookCase::C => "C",
            BookCase::D => "D",
        }
    }

    /// "Case " followed by the case letter.
    pub fn label(&self) -> (r: String)
        ensures
            r@ == "Case "@ + case_letter(*self),
    {
        let mut s = "Case ".to_owned();
        s.append(self.as_str());
        s
    }
}

/// An audiobook folder: its path, name, case, and the files found in it.
#[derive(Debug, Clone)]
pub struct BookFolder {
    /// Path of the folder.
    pub folder_path: String,
    /// Folder name, used as the book title.
    pub name: String,
    /// Processing case.
    pub case: BookCase,
    /// Analysed tracks, in natural order.
    pub tracks: Vec<Track>,
    /// Convertible source files (mp3 and m4a).
    pub mp3_files: Vec<String>,
    /// Finished output files (m4b).
    pub m4b_files: Vec<String>,
    /// Cover image, if one was found.
    pub cover_file: Option<String>,
    /// Cue sheet, if one was found.
    pub cue_file: Option<String>,
    /// ASIN detected from the folder name or tags.
    pub detected_asin: Option<String>,
}

/// The folder name used for a folder path: its final component, or "unknown".
pub open spec fn folder_name(p: Seq<char>) -> Seq<char> {
    let n = file_name_of(p);
    if n.len() == 0 {
        "unknown"@
    } else {
        n
    }
}

/// The quality profiles of the tracks, in order.
pub open spec fn qualities(ts: Seq<Track>) -> Seq<QualitySpec> {
    Seq::new(ts.len(), |i: int| ts[i].quality@)
}

/// The best profile of a non-empty list: a later profile replaces the best so
/// far only when it is strictly better, so ties keep the earliest.
pub open spec fn best_of(qs: Seq<QualitySpec>, prefer_stereo: bool) -> QualitySpec
    decreases qs.len(),
{
    if qs.len() <= 1 {
        qs[0]
    } else {
        let b = best_of(qs.drop_last(), prefer_stereo);
        if better(qs.last(), b, prefer_stereo) {
            qs.last()
        } else {
            b
        }
    }
}

/// The codec, lowercased, is one that cannot be copied into the output container.
pub open spec fn codec_forces_encode(lowered: Seq<char>) -> bool {
    lowered == "mp3"@ || lowered == "mp3float"@
}

/// The tracks can be joined by copying: there is at least one, its codec can
/// be copied, and every track is concat-compatible with the first.
pub open spec fn copy_eligible(ts: Seq<Track>) -> bool {
    &&& ts.len() > 0
    &&& !codec_forces_encode(lower_of(ts[0].quality.codec@))
    &&& forall|i: int| 1 <= i < ts.len() ==> compatible(ts[0].quality@, #[trigger] ts[i].quality@)
}

/// The artist a track offers for the book: its album artist, else its artist.
pub open spec fn track_artist(t: Track) -> Option<String> {
    if t.album_artist is Some {
        t.album_artist
    } else {
        t.artist
    }
}

/// The first artist offered by the tracks from position `i` on.
pub open spec fn first_artist(ts: Seq<Track>, i: nat) -> Option<String>
    decreases ts.len() - i,
{
    if i >= ts.len() {
        None
    } else if track_artist(ts[i as int]) is Some {
        track_artist(ts[i as int])
    } else {
        first_artist(ts, i + 1)
    }
}

/// The first album title among the tracks from position `i` on.
pub open spec fn first_album(ts: Seq<Track>, i: nat) -> Option<String>
    decreases ts.len() - i,
{
    if i >= ts.len() {
        None
    } else if ts[i as int].album is Some {
        ts[i as int].album
    } else {
        first_album(ts, i + 1)
    }
}

/// The first year among the tracks from position `i` on.
pub open spec fn first_year(ts: Seq<Track>, i: nat) -> Option<u32>
    decreases ts.len() - i,
{
    if i >= ts.len() {
        None
    } else if ts[i as int].year is Some {
        ts[i as int].year
    } else {
        first_year(ts, i + 1)
    }
}

/// The first genre among the tracks from position `i` on.
pub open spec fn first_genre(ts: Seq<Track>, i: nat) -> Option<String>
    decreases ts.len() - i,
{
    if i >= ts.len() {
        None
    } else if ts[i as int].genre is Some {
        ts[i as int].genre
    } else {
        first_genre(ts, i + 1)
    }
}

/// Whether `tracks` can be concatenated by copying (see [`copy_eligible`]).
pub fn tracks_copy_eligible(tracks: &Vec<Track>) -> (r: bool)
    ensures
        r == copy_eligible(tracks@),
{
    if tracks.len() == 0 {
        return false;
    }
    let first_codec = to_lower(tracks[0].quality.codec.as_str());
    if first_codec == "mp3".to_owned() || first_codec == "mp3float".to_owned() {
        return false;
    }
    let mut i: usize = 1;
    while i < tracks.len()
        invariant
            1 <= i <= tracks@.len(),
            forall|j: int| 1 <= j < i ==> compatible(tracks@[0].quality@, #[trigger] tracks@[j].quality@),
        decreases tracks@.len() - i,
    {
        if !tracks[0].quality.is_compatible_for_concat(&tracks[i].quality) {
            return false;
        }
        i = i + 1;
    }
    true
}

fn clone_opt(o: &Option<String>) -> (r: Option<String>)
    ensures
        r == *o,
{
    match o {
        Some(s) => Some(s.clone()),
        None => None,
    }
}

impl BookFolder {
    /// An empty folder record of case D for `folder_path`.
    pub fn new(folder_path: String) -> (r: BookFolder)
        ensures
            r.folder_path == folder_path,
            r.name@ == folder_name(folder_path@),
            r.case == BookCase::D,
            r.tracks@.len() == 0 && r.mp3_files@.len() == 0 && r.m4b_files@.len() == 0,
            r.cover_file is None && r.cue_file is None && r.detected_asin is None,
    {
        let n = file_name(folder_path.as_str());
        let name = if n.as_str().is_empty() {
            "unknown".to_owned()
        } else {
            n
        };
        BookFolder {
            folder_path,
            name,
            case: BookCase::D,
            tracks: Vec::new(),
            mp3_files: Vec::new(),
            m4b_files: Vec::new(),
            cover_file: None,
            cue_file: None,
            detected_asin: None,
        }
    }

    /// Recomputes the case from the numbers of source and output files.
    pub fn classify(&mut self)
        ensures
            final(self).case == case_of(old(self).mp3_files@.len(), old(self).m4b_files@.len()),
            final(self).folder_path == old(self).folder_path,
            final(self).name == old(self).name,
            final(self).tracks == old(self).tracks,
            final(self).mp3_files == old(self).mp3_files,
            final(self).m4b_files == old(self).m4b_files,
            final(self).cover_file == old(self).cover_file,
            final(self).cue_file == old(self).cue_file,
            final(self).detected_asin == old(self).detected_asin,
    {
        self.case = classify_counts(self.mp3_files.len(), self.m4b_files.len());
    }

    /// The best quality profile among the tracks, `None` when there are none.
    pub fn get_best_quality_profile(&self, prefer_stereo: bool) -> (r: Option<QualityProfile>)
        ensures
            self.tracks@.len() == 0 ==> r is None,
            self.tracks@.len() > 0 ==> r is Some && r->0@ == best_of(
                qualities(self.tracks@),
                prefer_stereo,
            ),
    {
        if self.tracks.len() == 0 {
            return None;
        }
        let ghost qs = qualities(self.tracks@);
        let mut best = self.tracks[0].quality.duplicate();
        let mut i: usize = 1;
        assert(qs.subrange(0, 1).len() == 1);
        while i < self.tracks.len()
            invariant
                1 <= i <= self.tracks@.len(),
                qs == qualities(self.tracks@),
                best@ == best_of(qs.subrange(0, i as int), prefer_stereo),
            decreases self.tracks@.len() - i,
        {
            let ghost prev = qs.subrange(0, i as int);
            assert(qs.subrange(0, i + 1).drop_last() =~= prev);
            assert(qs.subrange(0, i + 1).last() == self.tracks@[i as int].quality@);
            if self.tracks[i].quality.is_better_than(&best, prefer_stereo) {
                best = self.tracks[i].quality.duplicate();
            }
            i = i + 1;
        }
        assert(qs.subrange(0, i as int) =~= qs);
        Some(best)
    }

    /// Whether the tracks can be concatenated by copying (see [`copy_eligible`]).
    pub fn can_use_concat_copy(&self) -> (r: bool)
        ensures
            r == copy_eligible(self.tracks@),
    {
        tracks_copy_eligible(&self.tracks)
    }

    /// The sum of the track durations, in milliseconds.
    pub fn get_total_duration(&self) -> (r: u128)
        ensures
            r == sum_first(track_durations(self.tracks@), self.tracks@.len()),
    {
        let ghost ds = track_durations(self.tracks@);
        let mut total: u128 = 0;
        let mut i: usize = 0;
        while i < self.tracks.len()
            invariant
                i <= self.tracks@.len(),
                ds == track_durations(self.tracks@),
                total == sum_first(ds, i as nat),
                total <= i * (u64::MAX as int),
            decreases self.tracks@.len() - i,
        {
            assert(total + self.tracks@[i as int].quality.duration_ms <= (i + 1) * (u64::MAX as int)) by (nonlinear_arith)
                requires
                    total <= i * (u64::MAX as int),
                    self.tracks@[i as int].quality.duration_ms <= u64::MAX,
            ;
            assert((i + 1) * (u64::MAX as int) <= u128::MAX) by (nonlinear_arith)
                requires
                    i < usize::MAX,
                    usize::MAX <= u64::MAX,
            ;
            total = total + self.tracks[i].quality.duration_ms as u128;
            i = i + 1;
        }
        total
    }

    /// A rough output size in bytes: the best bitrate (kbps) times the total
    /// duration, over eight; zero without tracks; values stop at `u64::MAX`.
    pub fn estimate_output_size(&self) -> (r: u64)
        ensures
            self.tracks@.len() == 0 ==> r == 0,
            self.tracks@.len() > 0 ==> r == ({
                let v = best_of(qualities(self.tracks@), true).bitrate * sum_first(
                    track_durations(self.tracks@),
                    self.tracks@.len(),
                ) / 8;
                if v > u64::MAX {
                    u64::MAX as int
                } else {
                    v
                }
            }),
    {
        let best = match self.get_best_quality_profile(true) {
            Some(q) => q,
            None => {
                return 0;
            },
        };
        let total = self.get_total_duration();
        let b = best.bitrate as u128;
        if b > 0 && total > u128::MAX / b {
            assert(b * total > u128::MAX) by (nonlinear_arith)
                requires
                    b > 0,
                    total > u128::MAX / b,
            ;
            assert(b * total / 8 > u64::MAX) by (nonlinear_arith)
                requires
                    b * total > u128::MAX,
            ;
            return u64::MAX;
        }
        assert(b * total <= u128::MAX) by (nonlinear_arith)
            requires
                b == 0 || total <= u128::MAX / b,
        ;
        let v = b * total / 8;
        if v > u64::MAX as u128 {
            u64::MAX
        } else {
            v as u64
        }
    }

    /// The output file name: the folder name with ".m4b" appended.
    pub fn get_output_filename(&self) -> (r: String)
        ensures
            r@ == self.name@ + ".m4b"@,
    {
        let mut s = self.name.clone();
        s.append(".m4b");
        s
    }

    /// Whether the folder is to be converted (case A or B).
    pub fn is_processable(&self) -> (r: bool)
        ensures
            r == (self.case == BookCase::A || self.case == BookCase::B),
    {
        match self.case {
            BookCase::A | BookCase::B => true,
            _ => false,
        }
    }

    /// The first album artist, or else artist, found among the tracks.
    pub fn get_album_artist(&self) -> (r: Option<String>)
        ensures
            r == first_artist(self.tracks@, 0),
    {
        let mut i: usize = 0;
        while i < self.tracks.len()
            invariant
                i <= self.tracks@.len(),
                first_artist(self.tracks@, 0) == first_artist(self.tracks@, i as nat),
            decreases self.tracks@.len() - i,
        {
            let t = &self.tracks[i];
            if t.album_artist.is_some() {
                return clone_opt(&t.album_artist);
            }
            if t.artist.is_some() {
                return clone_opt(&t.artist);
            }
            i = i + 1;
        }
        None
    }

    /// The first album title found among the tracks, else the folder name.
    pub fn get_album_title(&self) -> (r: Option<String>)
        ensures
            r == (match first_album(self.tracks@, 0) {
                Some(a) => Some(a),
                None => Some(self.name),
            }),
    {
        let mut i: usize = 0;
        while i < self.tracks.len()
            invariant
                i <= self.tracks@.len(),
                first_album(self.tracks@, 0) == first_album(self.tracks@, i as nat),
            decreases self.tracks@.len() - i,
        {
            if self.tracks[i].album.is_some() {
                return clone_opt(&self.tracks[i].album);
            }
            i = i + 1;
        }
        Some(self.name.clone())
    }

    /// The first year found among the tracks.
    pub fn get_year(&self) -> (r: Option<u32>)
        ensures
            r == first_year(self.tracks@, 0),
    {
        let mut i: usize = 0;
        while i < self.tracks.len()
            invariant
                i <= self.tracks@.len(),
                first_year(self.tracks@, 0) == first_year(self.tracks@, i as nat),
            decreases self.tracks@.len() - i,
        {
            if self.tracks[i].year.is_some() {
                return self.tracks[i].year;
            }
            i = i + 1;
        }
        None
    }

    /// The first genre found among the tracks.
    pub fn get_genre(&self) -> (r: Option<String>)
        ensures
            r == first_genre(self.tracks@, 0),
    {
        let mut i: usize = 0;
        while i < self.tracks.len()
            invariant
                i <= self.tracks@.len(),
                first_genre(self.tracks@, 0) == first_genre(self.tracks@, i as nat),
            decreases self.tracks@.len() - i,
        {
            if self.tracks[i].genre.is_some() {
                return clone_opt(&self.tracks[i].genre);
            }
            i = i + 1;
        }
        None
    }
}

} // verus!
