//! Settings for analysing the tracks of a book.

use vstd::prelude::*;
use crate::book::{copy_eligible, tracks_copy_eligible, BookFolder};
use crate::chapters::sum_first;
use crate::ffmpeg::FFmpeg;
use crate::processor::track_durations;
use crate::processor::{clamp, clamp_usize};

verus! {

/// Probes the tracks of a book, several at a time.
#[derive(Debug, Clone)]
pub struct Analyzer {
    /// Where the prober is.
    pub ffmpeg: FFmpeg,
    /// Tracks probed at once, within [1, 16].
    pub parallel_workers: usize,
}

impl Analyzer {
    /// An analyzer probing eight tracks at once.
    pub fn new(ffmpeg: FFmpeg) -> (r: Analyzer)
        ensures
            r.ffmpeg == ffmpeg,
            r.parallel_workers == 8,
    {
        Analyzer { ffmpeg, parallel_workers: 8 }
    }

    /// An analyzer probing `workers` tracks at once, clamped into [1, 16].
    pub fn with_workers(ffmpeg: FFmpeg, workers: usize) -> (r: Analyzer)
        ensures
            r.ffmpeg == ffmpeg,
            r.parallel_workers == clamp(workers as int, 1, 16),
    {
        Analyzer { ffmpeg, parallel_workers: clamp_usize(workers, 1, 16) }
    }

    /// The total duration of the tracks of `book`, in milliseconds.
    pub fn get_total_duration(&self, book: &BookFolder) -> (r: u128)
        ensures
            r == sum_first(track_durations(book.tracks@), book.tracks@.len()),
    {
        book.get_total_duration()
    }

    /// Whether the tracks of `book` can be joined without re-encoding (see [`copy_eligible`]).
    pub fn can_use_copy_mode(&self, book: &BookFolder) -> (r: bool)
        ensures
            r == copy_eligible(book.tracks@),
    {
        tracks_copy_eligible(&book.tracks)
    }
}

} // verus!
