//! Retry policy: backoff delays, error classification, and the retry decision
//! taken after each attempt.

use vstd::prelude::*;
use crate::text::{contains, lower_of, to_lower, chars_of, contains_exec};

verus! {

/// How often and how patiently a failed operation is retried.
#[derive(Debug, Clone, Copy, PartialEq, Eq, Structural)]
pub struct RetryConfig {
    /// Retries after the first attempt; at most `max_retries + 1` attempts in all.
    pub max_retries: usize,
    /// Delay before the first retry, in milliseconds.
    pub initial_delay_ms: u64,
    /// Upper bound on any later delay, in milliseconds.
    pub max_delay_ms: u64,
    /// Factor by which the delay grows with each attempt.
    pub backoff_multiplier: u64,
}

/// `b` raised to the power `e`.
pub open spec fn power(b: int, e: nat) -> int
    decreases e,
{
    if e == 0 {
        1
    } else {
        b * power(b, (e - 1) as nat)
    }
}

/// The delay before retrying after attempt `k` fails: the initial delay for
/// `k == 0`, else `min(max_delay, initial_delay * multiplier^k)`.
pub open spec fn delay_spec(c: RetryConfig, k: nat) -> int {
    if k == 0 {
        c.initial_delay_ms as int
    } else {
        let grown = c.initial_delay_ms * power(c.backoff_multiplier as int, k);
        if grown > c.max_delay_ms {
            c.max_delay_ms as int
        } else {
            grown
        }
    }
}

proof fn lemma_power_nonneg(b: int, e: nat)
    requires
        b >= 0,
    ensures
        power(b, e) >= 0,
    decreases e,
{
    if e > 0 {
        lemma_power_nonneg(b, (e - 1) as nat);
        assert(b * power(b, (e - 1) as nat) >= 0) by (nonlinear_arith)
            requires
                b >= 0,
                power(b, (e - 1) as nat) >= 0,
        ;
    }
}

proof fn lemma_power_grows(b: int, i: nat, j: nat)
    requires
        b >= 1,
        i <= j,
    ensures
        power(b, i) <= power(b, j),
    decreases j,
{
    if i < j {
        lemma_power_grows(b, i, (j - 1) as nat);
        lemma_power_nonneg(b, (j - 1) as nat);
        assert(power(b, (j - 1) as nat) <= b * power(b, (j - 1) as nat)) by (nonlinear_arith)
            requires
                b >= 1,
                power(b, (j - 1) as nat) >= 0,
        ;
    }
}

proof fn lemma_scaled_grows(a: int, b: int, i: nat, j: nat)
    requires
        a >= 0,
        b >= 1,
        i <= j,
    ensures
        a * power(b, i) <= a * power(b, j),
{
    lemma_power_grows(b, i, j);
    let pi = power(b, i);
    let pj = power(b, j);
    assert(a * pi <= a * pj) by (nonlinear_arith)
        requires
            a >= 0,
            pi <= pj,
    ;
}

impl RetryConfig {
    /// Two retries, starting at one second, capped at thirty, doubling.
    pub fn new() -> (r: RetryConfig)
        ensures
            r == (RetryConfig {
                max_retries: 2,
                initial_delay_ms: 1000,
                max_delay_ms: 30000,
                backoff_multiplier: 2,
            }),
    {
        RetryConfig { max_retries: 2, initial_delay_ms: 1000, max_delay_ms: 30000, backoff_multiplier: 2 }
    }

    /// A configuration with the given settings.
    pub fn with_settings(
        max_retries: usize,
        initial_delay_ms: u64,
        max_delay_ms: u64,
        backoff_multiplier: u64,
    ) -> (r: RetryConfig)
        ensures
            r == (RetryConfig { max_retries, initial_delay_ms, max_delay_ms, backoff_multiplier }),
    {
        RetryConfig { max_retries, initial_delay_ms, max_delay_ms, backoff_multiplier }
    }

    /// A single attempt, no retries.
    pub fn no_retry() -> (r: RetryConfig)
        ensures
            r == (RetryConfig {
                max_retries: 0,
                initial_delay_ms: 0,
                max_delay_ms: 0,
                backoff_multiplier: 1,
            }),
    {
        RetryConfig { max_retries: 0, initial_delay_ms: 0, max_delay_ms: 0, backoff_multiplier: 1 }
    }

    /// The delay in milliseconds before retrying after attempt `attempt` failed.
    pub fn calculate_delay(&self, attempt: usize) -> (r: u64)
        ensures
            r as int == delay_spec(*self, attempt as nat),
    {
        if attempt == 0 {
            return self.initial_delay_ms;
        }
        let cap = self.max_delay_ms as u128;
        let m = self.backoff_multiplier as u128;
        let mut p: u128 = self.initial_delay_ms as u128;
        let mut i: usize = 0;
        while i < attempt
            invariant
                0 <= i <= attempt,
                attempt >= 1,
                cap == self.max_delay_ms,
                m == self.backoff_multiplier,
                p == self.initial_delay_ms * power(m as int, i as nat),
                p <= u64::MAX,
                i >= 1 ==> p <= cap,
            decreases attempt - i,
        {
            assert(p * m <= u64::MAX * u64::MAX) by (nonlinear_arith)
                requires
                    p <= u64::MAX,
                    m <= u64::MAX,
            ;
            let ghost before = p;
            p = p * m;
            i = i + 1;
            assert(p == self.initial_delay_ms * power(m as int, i as nat)) by (nonlinear_arith)
                requires
                    before == self.initial_delay_ms * power(m as int, (i - 1) as nat),
                    p == before * m,
                    power(m as int, i as nat) == m * power(m as int, (i - 1) as nat),
            ;
            if p > cap {
                proof {
                    if m == 0 {
                        assert(p == 0) by (nonlinear_arith)
                            requires
                                p == before * m,
                                m == 0,
                        ;
                    }
                    lemma_scaled_grows(
                        self.initial_delay_ms as int,
                        m as int,
                        i as nat,
                        attempt as nat,
                    );
                }
                return self.max_delay_ms;
            }
        }
        p as u64
    }
}

/// The delay never shrinks from one attempt to the next, provided the delay
/// grows by a factor of at least one and the initial delay is within the cap.
pub proof fn lemma_delay_nondecreasing(c: RetryConfig, k: nat)
    requires
        c.backoff_multiplier >= 1,
        c.initial_delay_ms <= c.max_delay_ms,
    ensures
        delay_spec(c, k) <= delay_spec(c, k + 1),
{
    lemma_scaled_grows(c.initial_delay_ms as int, c.backoff_multiplier as int, k, k + 1);
    lemma_scaled_grows(c.initial_delay_ms as int, c.backoff_multiplier as int, 0, k + 1);
}

/// Whether a failure is worth retrying.
#[derive(Debug, Clone, Copy, PartialEq, Eq, Structural)]
pub enum ErrorType {
    /// Worth retrying: a timeout, a dropped connection, an exhausted resource.
    Transient,
    /// Not worth retrying: a missing file, a refused permission, bad input.
    Permanent,
}

/// The (lowercased) message names a failure that retrying cannot cure.
pub open spec fn has_permanent_marker(m: Seq<char>) -> bool {
    contains(m, "file not found"@) || contains(m, "permission denied"@) || contains(m, "invalid"@)
        || contains(m, "unsupported"@) || contains(m, "corrupted"@)
}

/// The (lowercased) message names a failure that may pass by itself.
pub open spec fn has_transient_marker(m: Seq<char>) -> bool {
    contains(m, "timeout"@) || contains(m, "connection"@) || contains(m, "temporarily unavailable"@)
        || contains(m, "too many open files"@)
}

/// The class of an error message: permanent markers are looked for first,
/// then transient ones; a message with neither counts as transient.
pub open spec fn classify_spec(message: Seq<char>) -> ErrorType {
    let m = lower_of(message);
    if has_permanent_marker(m) {
        ErrorType::Permanent
    } else if has_transient_marker(m) {
        ErrorType::Transient
    } else {
        ErrorType::Transient
    }
}

/// A message naming a missing file or a refused permission, in any case, is
/// permanent; one naming a timeout or a connection and no permanent marker is
/// transient; one with no marker at all is transient.
pub proof fn lemma_classify_markers(message: Seq<char>)
    ensures
        contains(lower_of(message), "file not found"@) ==> classify_spec(message) == ErrorType::Permanent,
        contains(lower_of(message), "permission denied"@) ==> classify_spec(message)
            == ErrorType::Permanent,
        !has_permanent_marker(lower_of(message)) ==> classify_spec(message) == ErrorType::Transient,
{
}

fn has_marker(m: &Vec<char>, marker: &str) -> (r: bool)
    ensures
        r == contains(m@, marker@),
{
    let p = chars_of(marker);
    contains_exec(m, &p)
}

/// Classifies an error message, ignoring case (see [`classify_spec`]).
pub fn classify_error(message: &str) -> (r: ErrorType)
    ensures
        r == classify_spec(message@),
{
    let lowered = to_lower(message);
    let m = chars_of(lowered.as_str());
    if has_marker(&m, "file not found") || has_marker(&m, "permission denied") || has_marker(
        &m,
        "invalid",
    ) || has_marker(&m, "unsupported") || has_marker(&m, "corrupted") {
        return ErrorType::Permanent;
    }
    if has_marker(&m, "timeout") || has_marker(&m, "connection") || has_marker(
        &m,
        "temporarily unavailable",
    ) || has_marker(&m, "too many open files") {
        return ErrorType::Transient;
    }
    ErrorType::Transient
}

/// What to do after an attempt.
#[derive(Debug, Clone, Copy, PartialEq, Eq, Structural)]
pub enum RetryStep {
    /// The attempt succeeded: hand its result back.
    Done,
    /// The attempt failed and no further attempt is made: hand its error back.
    GiveUp,
    /// Wait this many milliseconds, then make another attempt.
    RetryAfter(u64),
}

/// The step after attempt number `attempt` (counting from zero) ended with
/// `outcome`: `None` for success, else the class of its error.
pub open spec fn step_spec(c: RetryConfig, attempt: nat, outcome: Option<ErrorType>) -> RetryStep {
    match outcome {
        None => RetryStep::Done,
        Some(ErrorType::Permanent) => RetryStep::GiveUp,
        Some(ErrorType::Transient) => if attempt < c.max_retries {
            RetryStep::RetryAfter(delay_spec(c, attempt) as u64)
        } else {
            RetryStep::GiveUp
        },
    }
}

/// Decides the step after attempt number `attempt` ended with `outcome`.
pub fn next_step(config: &RetryConfig, attempt: usize, outcome: Option<ErrorType>) -> (r: RetryStep)
    ensures
        r == step_spec(*config, attempt as nat, outcome),
{
    match outcome {
        None => RetryStep::Done,
        Some(ErrorType::Permanent) => RetryStep::GiveUp,
        Some(ErrorType::Transient) => if attempt < config.max_retries {
            RetryStep::RetryAfter(config.calculate_delay(attempt))
        } else {
            RetryStep::GiveUp
        },
    }
}

/// How many attempts a policy makes when the attempts from number `from` on
/// end with `outcomes[from]`, `outcomes[from + 1]`, ...
pub open spec fn attempts_from(c: RetryConfig, outcomes: Seq<Option<ErrorType>>, from: nat) -> nat
    decreases outcomes.len() - from,
{
    if from >= outcomes.len() {
        0
    } else {
        match step_spec(c, from, outcomes[from as int]) {
            RetryStep::RetryAfter(_) => 1 + attempts_from(c, outcomes, from + 1),
            _ => 1,
        }
    }
}

/// Whether the policy ends in success on these outcomes.
pub open spec fn succeeds_from(c: RetryConfig, outcomes: Seq<Option<ErrorType>>, from: nat) -> bool
    decreases outcomes.len() - from,
{
    if from >= outcomes.len() {
        false
    } else {
        match step_spec(c, from, outcomes[from as int]) {
            RetryStep::Done => true,
            RetryStep::RetryAfter(_) => succeeds_from(c, outcomes, from + 1),
            RetryStep::GiveUp => false,
        }
    }
}

/// A policy never makes more than `max_retries + 1` attempts; an operation
/// whose every attempt fails transiently is tried exactly that often; a
/// permanent error on the first attempt stops at once, without success.
pub proof fn lemma_retry_bounds(c: RetryConfig, outcomes: Seq<Option<ErrorType>>, from: nat)
    requires
        from <= c.max_retries,
    ensures
        attempts_from(c, outcomes, from) <= c.max_retries + 1 - from,
        outcomes.len() >= c.max_retries + 1 && (forall|i: int|
            0 <= i < outcomes.len() ==> outcomes[i] == Some(ErrorType::Transient))
            ==> attempts_from(c, outcomes, from) == c.max_retries + 1 - from
            && !succeeds_from(c, outcomes, from),
        from < outcomes.len() && outcomes[from as int] == Some(ErrorType::Permanent)
            ==> attempts_from(c, outcomes, from) == 1 && !succeeds_from(c, outcomes, from),
    decreases outcomes.len() - from,
{
    if from < outcomes.len() {
        if from < c.max_retries {
            lemma_retry_bounds(c, outcomes, from + 1);
        } else {
            assert(step_spec(c, from, outcomes[from as int]) is Done || step_spec(
                c,
                from,
                outcomes[from as int],
            ) is GiveUp);
        }
    }
}

} // verus!
