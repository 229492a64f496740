//! Progress of a batch: counts of finished and failed books, bytes written,
//! and time estimates in human-readable form.

use vstd::prelude::*;
use std::time::Instant;
use crate::text::{decimal, padded, push_decimal, push_padded, push_str, string_of};

verus! {

#[verifier::external_type_specification]
#[verifier::external_body]
pub struct ExInstant(Instant);

/// Relies on `Instant::now`: the current instant; nothing is known of its value.
#[verifier::external_body]
fn now() -> (r: Instant) {
    Instant::now()
}

/// Relies on `Instant::elapsed`: whole seconds since `start`; nothing is known of its value.
#[verifier::external_body]
fn seconds_since(start: &Instant) -> (r: u64) {
    start.elapsed().as_secs()
}

/// The stage a book is in.
#[derive(Debug, Clone, Copy, PartialEq, Eq, Structural)]
pub enum ProcessingStage {
    Scanning,
    Analyzing,
    Processing,
    Chapters,
    Metadata,
    Complete,
}

impl ProcessingStage {
    /// The stage's name.
    pub fn name(&self) -> (r: &'static str)
        ensures
            r@ == match *self {
                ProcessingStage::Scanning => "Scanning"@,
                ProcessingStage::Analyzing => "Analyzing"@,
                ProcessingStage::Processing => "Processing"@,
                ProcessingStage::Chapters => "Chapters"@,
                ProcessingStage::Metadata => "Metadata"@,
                ProcessingStage::Complete => "Complete"@,
            },
    {
        match self {
            ProcessingStage::Scanning => "Scanning",
            ProcessingStage::Analyzing => "Analyzing",
            ProcessingStage::Processing => "Processing",
            ProcessingStage::Chapters => "Chapters",
            ProcessingStage::Metadata => "Metadata",
            ProcessingStage::Complete => "Complete",
        }
    }
}

/// Progress of one book.
#[derive(Debug)]
pub struct BookProgress {
    /// Book name.
    pub name: String,
    /// Current stage.
    pub stage: ProcessingStage,
    /// Percentage done, from 0 to 100.
    pub progress: u32,
    /// When processing started.
    pub start_time: Instant,
    /// Estimated seconds left, when known.
    pub eta_seconds: Option<u64>,
}

/// The seconds left when `elapsed` seconds gave `percent` percent of the work
/// (reported values stop at `u64::MAX`).
pub open spec fn book_eta(elapsed: nat, percent: nat) -> nat {
    (elapsed * 100 / percent - elapsed) as nat
}

impl BookProgress {
    /// A book at the scanning stage, nothing done, started now.
    pub fn new(name: String) -> (r: BookProgress)
        ensures
            r.name == name,
            r.stage == ProcessingStage::Scanning,
            r.progress == 0,
            r.eta_seconds is None,
    {
        BookProgress { name, stage: ProcessingStage::Scanning, progress: 0, start_time: now(), eta_seconds: None }
    }

    /// Moves to `stage`.
    pub fn set_stage(&mut self, stage: ProcessingStage)
        ensures
            final(self).stage == stage,
            final(self).name == old(self).name,
            final(self).progress == old(self).progress,
            final(self).eta_seconds == old(self).eta_seconds,
    {
        self.stage = stage;
    }

    /// Sets the percentage done, at most 100.
    pub fn set_progress(&mut self, progress: u32)
        ensures
            final(self).progress == if progress > 100 { 100 } else { progress },
            final(self).name == old(self).name,
            final(self).stage == old(self).stage,
            final(self).eta_seconds == old(self).eta_seconds,
    {
        self.progress = if progress > 100 {
            100
        } else {
            progress
        };
    }

    /// Estimates the time left from `elapsed` seconds for the work done so
    /// far; nothing changes before any work is done.
    pub fn update_eta_at(&mut self, elapsed: u64)
        requires
            old(self).progress <= 100,
        ensures
            old(self).progress == 0 ==> final(self).eta_seconds == old(self).eta_seconds,
            old(self).progress > 0 ==> final(self).eta_seconds == Some(
                if book_eta(elapsed as nat, old(self).progress as nat) > u64::MAX {
                    u64::MAX
                } else {
                    book_eta(elapsed as nat, old(self).progress as nat) as u64
                },
            ),
            final(self).progress == old(self).progress,
            final(self).name == old(self).name,
            final(self).stage == old(self).stage,
    {
        if self.progress > 0 {
            let total = (elapsed as u128) * 100 / (self.progress as u128);
            assert(total >= elapsed) by (nonlinear_arith)
                requires
                    total == (elapsed as int) * 100 / (self.progress as int),
                    1 <= self.progress <= 100,
            ;
            let left = total - elapsed as u128;
            self.eta_seconds = Some(
                if left > u64::MAX as u128 {
                    u64::MAX
                } else {
                    left as u64
                },
            );
        }
    }

    /// Estimates the time left now.
    pub fn update_eta(&mut self)
        requires
            old(self).progress <= 100,
        ensures
            old(self).progress == 0 ==> final(self).eta_seconds == old(self).eta_seconds,
            old(self).progress > 0 ==> final(self).eta_seconds is Some,
            final(self).progress == old(self).progress,
    {
        let elapsed = seconds_since(&self.start_time);
        self.update_eta_at(elapsed);
    }

    /// Whole seconds since the start.
    pub fn elapsed_seconds(&self) -> (r: u64) {
        seconds_since(&self.start_time)
    }
}

/// Progress of a batch of books.
#[derive(Debug)]
pub struct BatchProgress {
    /// Number of books in the batch.
    pub total_books: usize,
    /// Books completed.
    pub completed: usize,
    /// Books failed.
    pub failed: usize,
    /// Bytes written.
    pub bytes_processed: u64,
    /// When the batch started.
    pub start_time: Instant,
}

/// `secs` as "<h>h <mm>m <ss>s", "<m>m <ss>s" or "<s>s", whichever is the
/// shortest that shows the largest non-zero unit.
pub open spec fn hms_text(secs: nat) -> Seq<char> {
    let h = secs / 3600;
    let m = (secs % 3600) / 60;
    let s = secs % 60;
    if h > 0 {
        decimal(h) + "h "@ + padded(m, 2) + "m "@ + padded(s, 2) + "s"@
    } else if m > 0 {
        decimal(m) + "m "@ + padded(s, 2) + "s"@
    } else {
        decimal(s) + "s"@
    }
}

/// Formats a number of seconds (see [`hms_text`]).
pub fn format_hms(secs: u64) -> (r: String)
    ensures
        r@ == hms_text(secs as nat),
{
    let h = secs / 3600;
    let m = (secs % 3600) / 60;
    let s = secs % 60;
    let mut v: Vec<char> = Vec::new();
    if h > 0 {
        push_decimal(&mut v, h);
        push_str(&mut v, "h ");
        push_padded(&mut v, m, 2);
        push_str(&mut v, "m ");
        push_padded(&mut v, s, 2);
        push_str(&mut v, "s");
    } else if m > 0 {
        push_decimal(&mut v, m);
        push_str(&mut v, "m ");
        push_padded(&mut v, s, 2);
        push_str(&mut v, "s");
    } else {
        push_decimal(&mut v, s);
        push_str(&mut v, "s");
    }
    assert(v@ =~= hms_text(secs as nat));
    string_of(&v)
}

/// The estimated seconds left after `elapsed` seconds: the average time of a
/// completed book times the books neither completed nor failed; none before
/// any book has completed. (Reported values stop at `u64::MAX`.)
pub open spec fn eta_spec(total: nat, completed: nat, failed: nat, elapsed: nat) -> Option<nat> {
    if completed == 0 {
        None
    } else {
        let remaining: nat = if completed + failed < total {
            (total - completed - failed) as nat
        } else {
            0
        };
        Some((elapsed * remaining / completed) as nat)
    }
}

impl BatchProgress {
    /// A batch of `total_books` books, none finished, started now.
    pub fn new(total_books: usize) -> (r: BatchProgress)
        ensures
            r.total_books() == total_books,
            r.completed_count() == 0,
            r.failed_count() == 0,
            r.total_bytes() == 0,
    {
        BatchProgress { total_books, completed: 0, failed: 0, bytes_processed: 0, start_time: now() }
    }

    /// Number of books in the batch.
    pub open spec fn total_books_spec(&self) -> usize {
        self.total_books
    }

    /// Counts one more completed book.
    pub fn mark_completed(&mut self)
        ensures
            final(self).completed_count() == if old(self).completed_count() == usize::MAX {
                0
            } else {
                (old(self).completed_count() + 1) as usize
            },
            final(self).failed_count() == old(self).failed_count(),
            final(self).total_bytes() == old(self).total_bytes(),
            final(self).total_books() == old(self).total_books(),
    {
        self.completed = if self.completed == usize::MAX {
            0
        } else {
            self.completed + 1
        };
    }

    /// Counts one more failed book.
    pub fn mark_failed(&mut self)
        ensures
            final(self).failed_count() == if old(self).failed_count() == usize::MAX {
                0
            } else {
                (old(self).failed_count() + 1) as usize
            },
            final(self).completed_count() == old(self).completed_count(),
            final(self).total_bytes() == old(self).total_bytes(),
            final(self).total_books() == old(self).total_books(),
    {
        self.failed = if self.failed == usize::MAX {
            0
        } else {
            self.failed + 1
        };
    }

    /// Adds `bytes` to the bytes written, wrapping around at 2^64.
    pub fn add_bytes(&mut self, bytes: u64)
        ensures
            final(self).total_bytes() == (old(self).total_bytes() as int + bytes as int) % 0x1_0000_0000_0000_0000,
            final(self).completed_count() == old(self).completed_count(),
            final(self).failed_count() == old(self).failed_count(),
            final(self).total_books() == old(self).total_books(),
    {
        self.bytes_processed = if bytes <= u64::MAX - self.bytes_processed {
            self.bytes_processed + bytes
        } else {
            bytes - (u64::MAX - self.bytes_processed) - 1
        };
    }

    /// Number of completed books.
    #[verifier::when_used_as_spec(completed_spec)]
    pub fn completed_count(&self) -> (r: usize)
        ensures
            r == self.completed,
    {
        self.completed
    }

    /// Number of completed books.
    pub open spec fn completed_spec(&self) -> usize {
        self.completed
    }

    /// Number of failed books.
    #[verifier::when_used_as_spec(failed_spec)]
    pub fn failed_count(&self) -> (r: usize)
        ensures
            r == self.failed,
    {
        self.failed
    }

    /// Number of failed books.
    pub open spec fn failed_spec(&self) -> usize {
        self.failed
    }

    /// Bytes written so far.
    #[verifier::when_used_as_spec(bytes_spec)]
    pub fn total_bytes(&self) -> (r: u64)
        ensures
            r == self.bytes_processed,
    {
        self.bytes_processed
    }

    /// Bytes written so far.
    pub open spec fn bytes_spec(&self) -> u64 {
        self.bytes_processed
    }

    /// Number of books in the batch.
    #[verifier::when_used_as_spec(total_books_spec)]
    pub fn total_books(&self) -> (r: usize)
        ensures
            r == self.total_books,
    {
        self.total_books
    }

    /// The estimated seconds left, `elapsed` seconds after the start (see [`eta_spec`]).
    pub fn eta_seconds_at(&self, elapsed: u64) -> (r: Option<u64>)
        ensures
            match eta_spec(self.total_books as nat, self.completed as nat, self.failed as nat, elapsed as nat) {
                Some(e) => r == Some(if e > u64::MAX { u64::MAX } else { e as u64 }),
                None => r is None,
            },
    {
        if self.completed == 0 {
            return None;
        }
        let remaining: u128 = if (self.completed as u128) + (self.failed as u128) < (self.total_books as u128) {
            (self.total_books - self.completed - self.failed) as u128
        } else {
            0
        };
        let e = elapsed as u128;
        assert(e * remaining <= u64::MAX as u128 * usize::MAX as u128) by (nonlinear_arith)
            requires
                e <= u64::MAX,
                remaining <= usize::MAX,
        ;
        let prod = e * remaining;
        let q = prod / (self.completed as u128);
        if q > u64::MAX as u128 {
            Some(u64::MAX)
        } else {
            Some(q as u64)
        }
    }

    /// The estimated seconds left now.
    pub fn eta_seconds(&self) -> (r: Option<u64>)
        ensures
            self.completed == 0 <==> r is None,
    {
        self.eta_seconds_at(seconds_since(&self.start_time))
    }

    /// The estimate `eta` in words: "calculating..." when there is none or it is zero.
    pub fn format_eta_of(eta: Option<u64>) -> (r: String)
        ensures
            match eta {
                Some(s) => if s > 0 {
                    r@ == hms_text(s as nat)
                } else {
                    r@ == "calculating..."@
                },
                None => r@ == "calculating..."@,
            },
    {
        match eta {
            Some(s) => if s > 0 {
                format_hms(s)
            } else {
                "calculating...".to_owned()
            },
            None => "calculating...".to_owned(),
        }
    }

    /// The time left now, in words.
    pub fn format_eta(&self) -> (r: String)
        ensures
            self.completed == 0 ==> r@ == "calculating..."@,
    {
        Self::format_eta_of(self.eta_seconds())
    }

    /// The time since the start, in words.
    pub fn format_elapsed(&self) -> (r: String)
        ensures
            exists|s: nat| r@ == hms_text(s),
    {
        format_hms(seconds_since(&self.start_time))
    }

    /// The percentage of books completed or failed, rounded down (zero for an
    /// empty batch; reported values stop at `u64::MAX`).
    pub fn overall_progress(&self) -> (r: u64)
        ensures
            self.total_books == 0 ==> r == 0,
            self.total_books > 0 ==> r == if (self.completed + self.failed) * 100 / self.total_books as int
                > u64::MAX {
                u64::MAX as int
            } else {
                (self.completed + self.failed) * 100 / self.total_books as int
            },
    {
        if self.total_books == 0 {
            return 0;
        }
        let done = (self.completed as u128) + (self.failed as u128);
        let pct = done * 100 / (self.total_books as u128);
        if pct > u64::MAX as u128 {
            u64::MAX
        } else {
            pct as u64
        }
    }

    /// Whether every book has completed or failed.
    pub fn is_complete(&self) -> (r: bool)
        ensures
            r == (self.completed + self.failed >= self.total_books),
    {
        (self.completed as u128) + (self.failed as u128) >= (self.total_books as u128)
    }
}

} // verus!
