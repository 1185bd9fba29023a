//! Retry with capped exponential backoff for operations that may hit a
//! locked / busy embedded database.
//!
//! The executor itself alternates between running an operation, sleeping, and
//! deciding; the deciding part lives here as a small state machine
//! ([`RetryState`]) whose every step is specified, while the caller performs
//! the operation and the sleep.

use vstd::prelude::*;

verus! {

/// Immutable retry configuration: number of tries (not retries), first
/// backoff delay and the cap on any single delay, in milliseconds.
#[derive(Clone, Copy, Debug)]
pub struct RetryConfig {
    pub max_attempts: u32,
    pub base_delay_ms: u64,
    pub max_delay_ms: u64,
}

impl Default for RetryConfig {
    fn default() -> (r: Self)
        ensures
            r.max_attempts == 5,
            r.base_delay_ms == 100,
            r.max_delay_ms == 5000,
    {
        RetryConfig { max_attempts: 5, base_delay_ms: 100, max_delay_ms: 5000 }
    }
}

pub open spec fn pow2(n: nat) -> nat
    decreases n,
{
    if n == 0 {
        1
    } else {
        2 * pow2((n - 1) as nat)
    }
}

/// The delay before the retry that follows attempt `attempt` (0-based):
/// `min(base_delay * 2^attempt, max_delay)`.
pub open spec fn backoff_delay(config: RetryConfig, attempt: nat) -> int {
    let raw = config.base_delay_ms * pow2(attempt);
    if raw <= config.max_delay_ms {
        raw
    } else {
        config.max_delay_ms as int
    }
}

proof fn lemma_pow2_monotone(a: nat, b: nat)
    requires
        a <= b,
    ensures
        1 <= pow2(a) <= pow2(b),
    decreases b,
{
    if b > 0 {
        if a < b {
            lemma_pow2_monotone(a, (b - 1) as nat);
        } else {
            lemma_pow2_monotone((a - 1) as nat, (b - 1) as nat);
        }
    }
}

/// Computes [`backoff_delay`] without overflow, whatever the attempt number.
pub fn backoff_delay_ms(config: &RetryConfig, attempt: u32) -> (r: u64)
    ensures
        r == backoff_delay(*config, attempt as nat),
{
    let base = config.base_delay_ms;
    let cap = config.max_delay_ms;
    proof {
        lemma_pow2_monotone(0, attempt as nat);
        let p = pow2(attempt as nat);
        assert(base * p >= base) by (nonlinear_arith)
            requires
                p >= 1,
        ;
    }
    if base >= cap {
        return cap;
    }
    if base == 0 {
        return 0;
    }
    let mut d: u64 = base;
    let mut i: u32 = 0;
    assert(pow2(0) == 1);
    while i < attempt
        invariant
            base == config.base_delay_ms,
            cap == config.max_delay_ms,
            i <= attempt,
            d <= cap,
            d == base * pow2(i as nat),
        decreases attempt - i,
    {
        assert(pow2((i + 1) as nat) == 2 * pow2(i as nat));
        if d > cap / 2 {
            proof {
                lemma_pow2_monotone((i + 1) as nat, attempt as nat);
                let p = pow2((i + 1) as nat);
                let q = pow2(attempt as nat);
                assert(base * p <= base * q) by (nonlinear_arith)
                    requires
                        p <= q,
                ;
                assert(base * p == 2 * d) by (nonlinear_arith)
                    requires
                        p == 2 * pow2(i as nat),
                        d == base * pow2(i as nat),
                ;
            }
            return cap;
        }
        proof {
            assert(base * pow2((i + 1) as nat) == 2 * d) by (nonlinear_arith)
                requires
                    pow2((i + 1) as nat) == 2 * pow2(i as nat),
                    d == base * pow2(i as nat),
            ;
        }
        d = d * 2;
        i = i + 1;
    }
    d
}


/// Whether `needle` occurs as a contiguous part of `hay`.
pub open spec fn occurs_in(needle: Seq<char>, hay: Seq<char>) -> bool {
    exists|i: int|
        0 <= i && i + needle.len() <= hay.len() && #[trigger] hay.subrange(i, i + needle.len())
            == needle
}

/// The text of an error, once lower-cased, marks a lock / busy condition of
/// the database engine: it reports that the database is locked, or it says
/// "busy" (which covers the engine's `SQLITE_BUSY` code too).
pub open spec fn is_contention_text(lowered: Seq<char>) -> bool {
    occurs_in("database is locked"@, lowered) || occurs_in("busy"@, lowered)
}

/// What `str::to_lowercase` returns for a text.
pub uninterp spec fn lower_of(s: Seq<char>) -> Seq<char>;

/// Relies on `str::to_lowercase`: its result depends on the text alone.
#[verifier::external_body]
fn lowercase(s: &str) -> (r: String)
    ensures
        r@ == lower_of(s@),
{
    s.to_lowercase()
}

/// Relies on `str::contains` with a `&str` pattern: true exactly when the
/// pattern matches a contiguous part of the text.
#[verifier::external_body]
fn text_contains(hay: &str, needle: &str) -> (r: bool)
    ensures
        r == occurs_in(needle@, hay@),
{
    hay.contains(needle)
}

/// Classifies an already lower-cased error text.
pub fn is_contention_lowered(lowered: &str) -> (r: bool)
    ensures
        r == is_contention_text(lowered@),
{
    text_contains(lowered, "database is locked") || text_contains(lowered, "busy")
}

/// An error is retryable exactly when its text, compared case-insensitively,
/// reports that the database is locked or busy; every other error is fatal.
pub fn is_retryable_error(message: &str) -> (r: bool)
    ensures
        r == is_contention_text(lower_of(message@)),
{
    let lowered = lowercase(message);
    is_contention_lowered(lowered.as_str())
}

/// What the executor does after a failed attempt.
#[derive(Clone, Copy, Debug, PartialEq, Eq, Structural)]
pub enum RetryDecision {
    /// Sleep this long, then run the operation again.
    Retry { delay_ms: u64 },
    /// The error is not a contention error: hand it to the caller now.
    Fatal,
    /// The error is a contention error but no attempt is left: hand it over.
    Exhausted,
}

/// The decision after attempt `attempt` (0-based) failed, and the attempt
/// number the executor continues with.
pub open spec fn decide(config: RetryConfig, attempt: nat, retryable: bool) -> (RetryDecision, nat) {
    if !retryable {
        (RetryDecision::Fatal, attempt)
    } else if attempt + 1 >= config.max_attempts {
        (RetryDecision::Exhausted, attempt)
    } else {
        (RetryDecision::Retry { delay_ms: backoff_delay(config, attempt) as u64 }, attempt + 1)
    }
}

/// Progress of one run of the retry executor: the 0-based number of the
/// attempt under way, which is also the number of sleeps so far.
#[derive(Clone, Copy, Debug)]
pub struct RetryState {
    pub attempt: u32,
}

impl RetryState {
    /// A run that has made no attempt yet.
    pub fn new() -> (r: Self)
        ensures
            r.attempt == 0,
    {
        RetryState { attempt: 0 }
    }

    /// Whether the policy allows the attempt under way to run at all. Only a
    /// policy of zero attempts refuses the first one.
    pub fn may_attempt(&self, config: &RetryConfig) -> (r: bool)
        ensures
            r == (self.attempt < config.max_attempts),
    {
        self.attempt < config.max_attempts
    }

    /// Records that the attempt under way failed with `message`, and says
    /// what to do next.
    pub fn on_failure(&mut self, config: &RetryConfig, message: &str) -> (r: RetryDecision)
        requires
            old(self).attempt < config.max_attempts,
        ensures
            (r, final(self).attempt as nat) == decide(
                *config,
                old(self).attempt as nat,
                is_contention_text(lower_of(message@)),
            ),
            final(self).attempt < config.max_attempts,
    {
        let retryable = is_retryable_error(message);
        self.on_classified_failure(config, retryable)
    }

    /// [`RetryState::on_failure`] for an error already classified.
    pub fn on_classified_failure(&mut self, config: &RetryConfig, retryable: bool) -> (r:
        RetryDecision)
        requires
            old(self).attempt < config.max_attempts,
        ensures
            (r, final(self).attempt as nat) == decide(*config, old(self).attempt as nat, retryable),
            final(self).attempt < config.max_attempts,
    {
        if !retryable {
            RetryDecision::Fatal
        } else if self.attempt + 1 >= config.max_attempts {
            RetryDecision::Exhausted
        } else {
            let delay_ms = backoff_delay_ms(config, self.attempt);
            self.attempt = self.attempt + 1;
            RetryDecision::Retry { delay_ms }
        }
    }
}

/// Retries that the command helper allows after the first try.
pub const COMMAND_MAX_RETRIES: u32 = 3;

/// The command helper's fixed pause between tries.
pub const COMMAND_RETRY_DELAY_MS: u64 = 100;

/// For the helper that runs the role and user commands: after a failed try
/// preceded by `retries` retries, the pause before the next one, or `None`
/// when the error goes to the caller. Only a contention error (`retryable`,
/// as [`is_retryable_error`] decides) is tried again; any other error is fatal.
pub fn command_retry_delay(retries: u32, retryable: bool) -> (r: Option<u64>)
    ensures
        r == if !retryable || retries >= COMMAND_MAX_RETRIES {
            None
        } else {
            Some(COMMAND_RETRY_DELAY_MS)
        },
{
    if !retryable || retries >= COMMAND_MAX_RETRIES {
        None
    } else {
        Some(COMMAND_RETRY_DELAY_MS)
    }
}

/// How one attempt of the operation ended.
pub enum AttemptOutcome {
    Success,
    Failure { retryable: bool },
}

/// How a whole run of the executor ended.
pub enum RunEnd {
    /// The policy allowed no attempt.
    NoAttempt,
    Succeeded,
    Fatal,
    Exhausted,
}

/// The observable course of a run: attempts made, delays slept, and the end.
pub struct RetryTrace {
    pub attempts: nat,
    pub delays: Seq<u64>,
    pub end: RunEnd,
}

/// The course of a run from attempt `attempt` on, when attempt `i` ends as
/// `outcomes[i]`: a loop that runs attempts while [`RetryState::may_attempt`]
/// holds and follows each decision of [`RetryState::on_classified_failure`].
pub open spec fn run_from(config: RetryConfig, attempt: nat, outcomes: Seq<AttemptOutcome>) -> RetryTrace
    decreases config.max_attempts - attempt,
{
    if attempt >= config.max_attempts {
        RetryTrace { attempts: attempt, delays: seq![], end: RunEnd::NoAttempt }
    } else {
        match outcomes[attempt as int] {
            AttemptOutcome::Success => RetryTrace {
                attempts: attempt + 1,
                delays: seq![],
                end: RunEnd::Succeeded,
            },
            AttemptOutcome::Failure { retryable } => {
                let (d, next) = decide(config, attempt, retryable);
                match d {
                    RetryDecision::Retry { delay_ms } => {
                        let rest = run_from(config, next, outcomes);
                        RetryTrace {
                            attempts: rest.attempts,
                            delays: seq![delay_ms] + rest.delays,
                            end: rest.end,
                        }
                    },
                    RetryDecision::Fatal => RetryTrace {
                        attempts: attempt + 1,
                        delays: seq![],
                        end: RunEnd::Fatal,
                    },
                    RetryDecision::Exhausted => RetryTrace {
                        attempts: attempt + 1,
                        delays: seq![],
                        end: RunEnd::Exhausted,
                    },
                }
            },
        }
    }
}

pub open spec fn run(config: RetryConfig, outcomes: Seq<AttemptOutcome>) -> RetryTrace {
    run_from(config, 0, outcomes)
}

proof fn lemma_run_from_bounds(config: RetryConfig, attempt: nat, outcomes: Seq<AttemptOutcome>)
    requires
        attempt < config.max_attempts,
    ensures
        attempt < run_from(config, attempt, outcomes).attempts <= config.max_attempts,
        run_from(config, attempt, outcomes).delays.len() + attempt + 1 == run_from(
            config,
            attempt,
            outcomes,
        ).attempts,
        forall|k: int|
            0 <= k < run_from(config, attempt, outcomes).delays.len() ==> #[trigger] run_from(
                config,
                attempt,
                outcomes,
            ).delays[k] == backoff_delay(config, (attempt + k) as nat),
        !(run_from(config, attempt, outcomes).end is NoAttempt),
    decreases config.max_attempts - attempt,
{
    if let AttemptOutcome::Failure { retryable } = outcomes[attempt as int] {
        if retryable && attempt + 1 < config.max_attempts {
            lemma_run_from_bounds(config, attempt + 1, outcomes);
            let rest = run_from(config, attempt + 1, outcomes);
            let t = run_from(config, attempt, outcomes);
            assert forall|k: int| 0 <= k < t.delays.len() implies #[trigger] t.delays[k]
                == backoff_delay(config, (attempt + k) as nat) by {
                if k > 0 {
                    assert(t.delays[k] == rest.delays[k - 1]);
                } else {
                    let b = backoff_delay(config, attempt);
                    assert(0 <= b <= config.max_delay_ms) by {
                        lemma_pow2_monotone(0, attempt);
                        assert(config.base_delay_ms * pow2(attempt) >= 0) by (nonlinear_arith);
                    }
                }
            }
        }
    }
}

/// Under any policy that allows at least one attempt, and whatever each
/// attempt returns, a run makes at least one and at most `max_attempts`
/// attempts, sleeps exactly once less than it attempts, and sleeps before
/// retry `k + 1` exactly `min(base_delay * 2^k, max_delay)`.
pub proof fn law_attempts_bounded(config: RetryConfig, outcomes: Seq<AttemptOutcome>)
    requires
        config.max_attempts >= 1,
    ensures
        1 <= run(config, outcomes).attempts <= config.max_attempts,
        run(config, outcomes).delays.len() == run(config, outcomes).attempts - 1,
        forall|k: int|
            0 <= k < run(config, outcomes).delays.len() ==> #[trigger] run(config, outcomes).delays[k]
                == backoff_delay(config, k as nat),
{
    lemma_run_from_bounds(config, 0, outcomes);
}

/// A fatal error on the first attempt ends the run at once: one attempt, no
/// sleep, the error handed to the caller.
pub proof fn law_fatal_first_attempt(config: RetryConfig, outcomes: Seq<AttemptOutcome>)
    requires
        config.max_attempts >= 1,
        outcomes.len() >= 1,
        outcomes[0] == (AttemptOutcome::Failure { retryable: false }),
    ensures
        run(config, outcomes).attempts == 1,
        run(config, outcomes).delays.len() == 0,
        run(config, outcomes).end is Fatal,
{
}

/// A policy of zero attempts runs nothing and sleeps never.
pub proof fn law_no_attempt(config: RetryConfig, outcomes: Seq<AttemptOutcome>)
    requires
        config.max_attempts == 0,
    ensures
        run(config, outcomes).attempts == 0,
        run(config, outcomes).delays.len() == 0,
        run(config, outcomes).end is NoAttempt,
{
}

} // verus!
