//! Batch scheduling: settings, the record of which books have been started and
//! finished under the concurrency cap, and one terminal result per book.

use vstd::prelude::*;
use crate::pool::Dispatcher;
use crate::processor::{clamp, clamp_usize};
use crate::result::ProcessingResult;
use crate::retry::RetryConfig;
use crate::chapter_import::{all_digits, all_digits_exec, digits_exec, digits_value};
use crate::text::{chars_of, text_is};

verus! {

/// Settings for converting many books.
#[derive(Debug, Clone)]
pub struct BatchProcessor {
    /// Books scheduled at once, within [1, 16].
    pub workers: usize,
    /// Keep working files afterwards.
    pub keep_temp: bool,
    /// Use the hardware encoder.
    pub use_apple_silicon: bool,
    /// Encode the tracks of one book in parallel.
    pub enable_parallel_encoding: bool,
    /// Books encoding at once across the batch, within [1, 16].
    pub max_concurrent_encodes: usize,
    /// Retry policy wrapped around each book.
    pub retry_config: RetryConfig,
}

/// Relies on `num_cpus::get`: the number of usable CPUs, documented to be at least one.
#[verifier::external_body]
fn cpu_count() -> (r: usize)
    ensures
        r >= 1,
{
    num_cpus::get()
}

/// Half the CPUs, at least one and at most eight.
pub open spec fn recommended_for(cpus: int) -> int {
    clamp(cpus / 2, 1, 8)
}

impl BatchProcessor {
    /// Default settings with `workers` clamped into [1, 16] and two encodes at once.
    pub fn new(workers: usize) -> (r: BatchProcessor)
        ensures
            r.workers == clamp(workers as int, 1, 16),
            !r.keep_temp,
            !r.use_apple_silicon,
            r.enable_parallel_encoding,
            r.max_concurrent_encodes == 2,
            r.retry_config == (RetryConfig {
                max_retries: 2,
                initial_delay_ms: 1000,
                max_delay_ms: 30000,
                backoff_multiplier: 2,
            }),
    {
        BatchProcessor {
            workers: clamp_usize(workers, 1, 16),
            keep_temp: false,
            use_apple_silicon: false,
            enable_parallel_encoding: true,
            max_concurrent_encodes: 2,
            retry_config: RetryConfig::new(),
        }
    }

    /// The given settings, with both counts clamped into [1, 16].
    pub fn with_options(
        workers: usize,
        keep_temp: bool,
        use_apple_silicon: bool,
        enable_parallel_encoding: bool,
        max_concurrent_encodes: usize,
        retry_config: RetryConfig,
    ) -> (r: BatchProcessor)
        ensures
            r.workers == clamp(workers as int, 1, 16),
            r.keep_temp == keep_temp,
            r.use_apple_silicon == use_apple_silicon,
            r.enable_parallel_encoding == enable_parallel_encoding,
            r.max_concurrent_encodes == clamp(max_concurrent_encodes as int, 1, 16),
            r.retry_config == retry_config,
    {
        BatchProcessor {
            workers: clamp_usize(workers, 1, 16),
            keep_temp,
            use_apple_silicon,
            enable_parallel_encoding,
            max_concurrent_encodes: clamp_usize(max_concurrent_encodes, 1, 16),
            retry_config,
        }
    }

    /// The worker count recommended for `cpus` CPUs (see [`recommended_for`]).
    pub fn recommended_workers_for(cpus: usize) -> (r: usize)
        ensures
            r == recommended_for(cpus as int),
    {
        clamp_usize(cpus / 2, 1, 8)
    }

    /// The number of CPUs this machine offers, at least one.
    pub fn available_cpus() -> (r: usize)
        ensures
            r >= 1,
    {
        cpu_count()
    }

    /// The worker count recommended for this machine, between one and eight.
    pub fn recommended_workers() -> (r: usize)
        ensures
            1 <= r <= 8,
    {
        Self::recommended_workers_for(cpu_count())
    }

    /// How many books may encode at once: the smaller of the two counts.
    pub fn effective_limit(&self) -> (r: usize)
        requires
            self.workers >= 1,
            self.max_concurrent_encodes >= 1,
        ensures
            r >= 1,
            r <= self.workers,
            r <= self.max_concurrent_encodes,
            r == self.workers || r == self.max_concurrent_encodes,
    {
        if self.workers < self.max_concurrent_encodes {
            self.workers
        } else {
            self.max_concurrent_encodes
        }
    }

    /// A run over `book_count` books under this batch's concurrency cap.
    pub fn start_run(&self, book_count: usize) -> (r: BatchRun)
        requires
            self.workers >= 1,
            self.max_concurrent_encodes >= 1,
        ensures
            r.wf(),
            r.dispatcher.total == book_count,
            r.dispatcher.limit == if self.workers < self.max_concurrent_encodes {
                self.workers
            } else {
                self.max_concurrent_encodes
            },
            r.dispatcher.started == 0,
    {
        BatchRun::new(book_count, self.effective_limit())
    }
}

/// The terminal result of a book whose retried processing ended with `outcome`:
/// the processor's result on success, else a failure naming the last error.
pub open spec fn outcome_ok(name: Seq<char>, outcome: Result<ProcessingResult, String>, r: ProcessingResult) -> bool {
    match outcome {
        Ok(res) => r == res,
        Err(e) => {
            &&& r.book_name@ == name
            &&& !r.success
            &&& r.error_message is Some
            &&& r.error_message->0@ == "All retries failed: "@ + e@
            &&& r.processing_time_ms == 0
            &&& r.output_path is None
        },
    }
}

/// Turns the final outcome of a book's retried processing into its result.
pub fn book_outcome(book_name: &str, outcome: Result<ProcessingResult, String>) -> (r: ProcessingResult)
    ensures
        outcome_ok(book_name@, outcome, r),
{
    match outcome {
        Ok(res) => res,
        Err(e) => {
            let mut m = "All retries failed: ".to_owned();
            m.append(e.as_str());
            ProcessingResult::new(book_name.to_owned()).failure(m, 0)
        },
    }
}

/// A batch in progress: which books have been started, and the one result of
/// each finished book, in book order.
pub struct BatchRun {
    /// Started, running and finished counts under the cap.
    pub dispatcher: Dispatcher,
    /// The result of each book, once it has one.
    pub results: Vec<Option<ProcessingResult>>,
}

/// The number of filled slots.
pub open spec fn filled(rs: Seq<Option<ProcessingResult>>) -> nat
    decreases rs.len(),
{
    if rs.len() == 0 {
        0
    } else {
        filled(rs.drop_last()) + if rs.last() is Some {
            1nat
        } else {
            0nat
        }
    }
}

proof fn lemma_filled_bound(rs: Seq<Option<ProcessingResult>>)
    ensures
        filled(rs) <= rs.len(),
        filled(rs) == rs.len() ==> forall|i: int| 0 <= i < rs.len() ==> (#[trigger] rs[i]) is Some,
    decreases rs.len(),
{
    if rs.len() > 0 {
        lemma_filled_bound(rs.drop_last());
        if filled(rs) == rs.len() {
            assert forall|i: int| 0 <= i < rs.len() implies (#[trigger] rs[i]) is Some by {
                if i < rs.len() - 1 {
                    assert(rs.drop_last()[i] == rs[i]);
                }
            }
        }
    }
}

proof fn lemma_filled_update(rs: Seq<Option<ProcessingResult>>, i: int, v: ProcessingResult)
    requires
        0 <= i < rs.len(),
        rs[i] is None,
    ensures
        filled(rs.update(i, Some(v))) == filled(rs) + 1,
    decreases rs.len(),
{
    let us = rs.update(i, Some(v));
    if i == rs.len() - 1 {
        assert(us.drop_last() =~= rs.drop_last());
    } else {
        assert(us.drop_last() =~= rs.drop_last().update(i, Some(v)));
        lemma_filled_update(rs.drop_last(), i, v);
    }
}

impl BatchRun {
    /// One slot per book; only started books have results; finished books are
    /// exactly those with a result.
    pub open spec fn wf(&self) -> bool {
        &&& self.dispatcher.wf()
        &&& self.results@.len() == self.dispatcher.total
        &&& forall|i: int|
            self.dispatcher.started <= i < self.results@.len() ==> (#[trigger] self.results@[i]) is None
        &&& filled(self.results@) == self.dispatcher.finished
    }

    /// A run over `total` books with at most `limit` at once.
    pub fn new(total: usize, limit: usize) -> (r: BatchRun)
        requires
            limit >= 1,
        ensures
            r.wf(),
            r.dispatcher == (Dispatcher { total, limit, started: 0, running: 0, finished: 0 }),
            forall|i: int| 0 <= i < r.results@.len() ==> (#[trigger] r.results@[i]) is None,
    {
        let mut results: Vec<Option<ProcessingResult>> = Vec::new();
        let mut i: usize = 0;
        while i < total
            invariant
                i <= total,
                results@.len() == i,
                forall|k: int| 0 <= k < i ==> (#[trigger] results@[k]) is None,
                filled(results@) == 0,
            decreases total - i,
        {
            let ghost before = results@;
            results.push(None);
            assert(results@.drop_last() =~= before);
            i = i + 1;
        }
        BatchRun { dispatcher: Dispatcher::new(total, limit), results }
    }

    /// Starts the next book if the cap allows, returning its index.
    pub fn start_next(&mut self) -> (r: Option<usize>)
        requires
            old(self).wf(),
        ensures
            final(self).wf(),
            final(self).results == old(self).results,
            final(self).dispatcher.limit == old(self).dispatcher.limit,
            final(self).dispatcher.total == old(self).dispatcher.total,
            r matches Some(i) ==> i == old(self).dispatcher.started && old(self).results@[i as int] is None,
            r is None ==> !(old(self).dispatcher.running < old(self).dispatcher.limit
                && old(self).dispatcher.started < old(self).dispatcher.total),
    {
        self.dispatcher.start_next()
    }

    /// Records the one result of book `index`, which was started and has none yet.
    pub fn record(&mut self, index: usize, result: ProcessingResult)
        requires
            old(self).wf(),
            index < old(self).dispatcher.started,
            old(self).results@[index as int] is None,
        ensures
            final(self).wf(),
            final(self).results@ == old(self).results@.update(index as int, Some(result)),
            final(self).dispatcher.finished == old(self).dispatcher.finished + 1,
            final(self).dispatcher.started == old(self).dispatcher.started,
            final(self).dispatcher.total == old(self).dispatcher.total,
    {
        proof {
            lemma_filled_update(self.results@, index as int, result);
            lemma_filled_bound(self.results@.update(index as int, Some(result)));
            lemma_not_all_filled(self.results@, self.dispatcher.started as int, index as int);
        }
        self.results.set(index, Some(result));
        self.dispatcher.finish_one();
    }

    /// Whether every book has its result.
    pub fn is_complete(&self) -> (r: bool)
        requires
            self.wf(),
        ensures
            r == (self.dispatcher.finished == self.dispatcher.total),
            r ==> forall|i: int| 0 <= i < self.results@.len() ==> (#[trigger] self.results@[i]) is Some,
    {
        proof {
            lemma_filled_bound(self.results@);
        }
        self.dispatcher.all_done()
    }
}

/// Fewer slots than `started` are filled when one below `started` is empty.
proof fn lemma_not_all_filled(rs: Seq<Option<ProcessingResult>>, started: int, hole: int)
    requires
        0 <= hole < started <= rs.len(),
        rs[hole] is None,
        forall|i: int| started <= i < rs.len() ==> (#[trigger] rs[i]) is None,
    ensures
        filled(rs) < started,
    decreases rs.len(),
{
    if rs.len() > started {
        assert(rs.last() is None);
        assert forall|i: int| started <= i < rs.drop_last().len() implies (#[trigger] rs.drop_last()[i]) is None by {
            assert(rs.drop_last()[i] == rs[i]);
        }
        assert(rs.drop_last()[hole] == rs[hole]);
        lemma_not_all_filled(rs.drop_last(), started, hole);
    } else {
        lemma_hole(rs, hole);
    }
}

proof fn lemma_hole(rs: Seq<Option<ProcessingResult>>, hole: int)
    requires
        0 <= hole < rs.len(),
        rs[hole] is None,
    ensures
        filled(rs) < rs.len(),
    decreases rs.len(),
{
    lemma_filled_bound(rs.drop_last());
    if hole < rs.len() - 1 {
        assert(rs.drop_last()[hole] == rs[hole]);
        lemma_hole(rs.drop_last(), hole);
    }
}

/// The number of successful results.
pub open spec fn successes(rs: Seq<ProcessingResult>) -> nat
    decreases rs.len(),
{
    if rs.len() == 0 {
        0
    } else {
        successes(rs.drop_last()) + if rs.last().success {
            1nat
        } else {
            0nat
        }
    }
}

/// Counts the successful results.
pub fn count_successes(rs: &Vec<ProcessingResult>) -> (r: usize)
    ensures
        r == successes(rs@),
{
    let mut n: usize = 0;
    let mut i: usize = 0;
    while i < rs.len()
        invariant
            i <= rs@.len(),
            n == successes(rs@.subrange(0, i as int)),
            n <= i,
        decreases rs@.len() - i,
    {
        assert(rs@.subrange(0, i + 1).drop_last() =~= rs@.subrange(0, i as int));
        if rs[i].success {
            n = n + 1;
        }
        i = i + 1;
    }
    assert(rs@.subrange(0, i as int) =~= rs@);
    n
}


/// The value of a concurrency setting: "auto" means the CPU count; a decimal
/// number is clamped into `[1, max]`; anything else gives `fallback`, clamped too.
pub open spec fn setting_spec(text: Seq<char>, cpus: usize, fallback: usize, max: usize) -> int {
    if text == "auto"@ {
        cpus as int
    } else if text.len() > 0 && all_digits(text) && digits_value(text) <= usize::MAX {
        clamp(digits_value(text) as int, 1, max as int)
    } else {
        clamp(fallback as int, 1, max as int)
    }
}

/// Reads a concurrency setting (see [`setting_spec`]).
pub fn concurrency_setting(text: &str, cpus: usize, fallback: usize, max: usize) -> (r: usize)
    requires
        max >= 1,
    ensures
        r == setting_spec(text@, cpus, fallback, max),
{
    if text_is(text, "auto") {
        return cpus;
    }
    let v = chars_of(text);
    let n = v.len();
    assert(v@.subrange(0, n as int) =~= text@);
    if n > 0 && all_digits_exec(&v, 0, n) {
        match digits_exec(&v, 0, n) {
            Some(x) => if x <= usize::MAX as u64 {
                return clamp_usize(x as usize, 1, max);
            },
            None => {},
        }
    }
    clamp_usize(fallback, 1, max)
}

} // verus!
