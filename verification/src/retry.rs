//! Retry Engine: exponential-backoff planning around any fallible
//! operation, and the advisory classifier for transient errors. The
//! engine knows nothing of what the operation does; it only decides,
//! after each failure, whether to sleep and go again or to give up.

use vstd::prelude::*;
use vstd::string::*;
use crate::text::{contains_sub, dec_str, str_contains, usize_to_string};

verus! {

/// Backoff discipline: at least one attempt; after each failure the
/// delay grows by `backoff_multiplier_percent`/100 and never exceeds
/// `max_delay_ms`.
#[derive(Clone, Copy, Debug)]
pub struct RetryConfig {
    pub max_attempts: u32,
    pub initial_delay_ms: u64,
    pub max_delay_ms: u64,
    /// Growth factor in hundredths: 200 stands for doubling.
    pub backoff_multiplier_percent: u64,
}

impl RetryConfig {
    /// At least one attempt, and a factor that really grows the delay.
    pub open spec fn well_formed(self) -> bool {
        self.max_attempts >= 1 && self.backoff_multiplier_percent > 100
    }
}

impl Default for RetryConfig {
    /// Three attempts, 100 ms to start, doubling, capped at 30 s.
    fn default() -> (r: Self)
        ensures
            r.max_attempts == 3,
            r.initial_delay_ms == 100,
            r.max_delay_ms == 30000,
            r.backoff_multiplier_percent == 200,
            r.well_formed(),
    {
        RetryConfig {
            max_attempts: 3,
            initial_delay_ms: 100,
            max_delay_ms: 30000,
            backoff_multiplier_percent: 200,
        }
    }
}

/// The delay that follows `d` in the schedule: grown by the multiplier,
/// capped at the configured maximum.
pub open spec fn next_delay_spec(c: RetryConfig, d: u64) -> u64 {
    let grown = d * c.backoff_multiplier_percent / 100;
    if grown > c.max_delay_ms {
        c.max_delay_ms
    } else {
        grown as u64
    }
}

/// The delay slept after the `k+1`-th failed attempt.
pub open spec fn delay_at(c: RetryConfig, k: nat) -> u64
    decreases k,
{
    if k == 0 {
        c.initial_delay_ms
    } else {
        next_delay_spec(c, delay_at(c, (k - 1) as nat))
    }
}

/// Law: every delay after the first stays at or under the configured
/// cap, whatever the multiplier does.
pub proof fn lemma_delay_capped(c: RetryConfig, k: nat)
    requires
        k >= 1,
    ensures
        delay_at(c, k) <= c.max_delay_ms,
{
}

/// Grows a delay one step: multiplies and caps.
pub fn next_delay(c: &RetryConfig, d: u64) -> (r: u64)
    ensures
        r == next_delay_spec(*c, d),
{
    proof {
        vstd::arithmetic::mul::lemma_mul_upper_bound(
            d as int,
            u64::MAX as int,
            c.backoff_multiplier_percent as int,
            u64::MAX as int,
        );
    }
    let grown: u128 = (d as u128) * (c.backoff_multiplier_percent as u128) / 100;
    if grown > c.max_delay_ms as u128 {
        c.max_delay_ms
    } else {
        grown as u64
    }
}

/// One retry run in progress: `attempt` numbers the attempt whose
/// outcome is awaited, starting at 1; `delay_ms` is the sleep that
/// follows that attempt if it fails and attempts remain.
pub struct RetrySession {
    pub config: RetryConfig,
    pub attempt: u32,
    pub delay_ms: u64,
}

/// What to do after a failed attempt.
pub enum RetryDecision {
    /// Sleep this many milliseconds, then invoke the operation again.
    RetryAfter(u64),
    /// Every attempt is spent; fail, naming how many attempts were made.
    GiveUp(u32),
}

impl RetrySession {
    /// Starts a run: the first attempt is next, at the initial delay.
    pub fn new(config: RetryConfig) -> (r: RetrySession)
        ensures
            r.config == config,
            r.attempt == 1,
            r.delay_ms == config.initial_delay_ms,
    {
        let delay_ms = config.initial_delay_ms;
        RetrySession { config, attempt: 1, delay_ms }
    }

    /// A success returns immediately to the caller: no further attempt,
    /// no further delay. This is the engine's reaction to a failure:
    /// while attempts remain, sleep the current delay and grow it;
    /// otherwise give up.
    pub fn on_failure(&mut self) -> (r: RetryDecision)
        ensures
            old(self).attempt < old(self).config.max_attempts ==> {
                &&& r == RetryDecision::RetryAfter(old(self).delay_ms)
                &&& final(self).attempt == old(self).attempt + 1
                &&& final(self).delay_ms == next_delay_spec(old(self).config, old(self).delay_ms)
                &&& final(self).config == old(self).config
            },
            old(self).attempt >= old(self).config.max_attempts ==> {
                &&& r == RetryDecision::GiveUp(old(self).config.max_attempts)
                &&& final(self).attempt == old(self).attempt
                &&& final(self).delay_ms == old(self).delay_ms
                &&& final(self).config == old(self).config
            },
    {
        if self.attempt < self.config.max_attempts {
            let current = self.delay_ms;
            self.attempt = self.attempt + 1;
            self.delay_ms = next_delay(&self.config, current);
            RetryDecision::RetryAfter(current)
        } else {
            RetryDecision::GiveUp(self.config.max_attempts)
        }
    }
}

/// The aggregate error after a run is exhausted: the attempt count and
/// the last underlying error's text. Earlier attempts' errors are not
/// retained, only the last.
pub fn exhausted_message(attempts: u32, last_error: &str) -> (r: String)
    ensures
        r@ == "Operation failed after "@ + dec_str(attempts as nat) + " attempts. Last error: "@
            + last_error@,
{
    let mut r = "Operation failed after ".to_owned();
    r.append(usize_to_string(attempts as usize).as_str());
    r.append(" attempts. Last error: ");
    r.append(last_error);
    r
}

// ---------------------------------------------------------------------------
// The run, abstractly
// ---------------------------------------------------------------------------

/// How many times the engine invokes an operation whose attempt
/// outcomes are `succeeds` (`succeeds[k]` holds when attempt `k+1`
/// succeeds; a missing entry counts as failure), allowed `max`
/// attempts: it stops at the first success and never runs more often
/// than `max`.
pub open spec fn attempts_used(succeeds: Seq<bool>, max: nat) -> nat
    decreases max,
{
    if max == 0 {
        0
    } else if succeeds.len() > 0 && succeeds.first() {
        1
    } else if max == 1 {
        1
    } else {
        1 + attempts_used(succeeds.drop_first(), (max - 1) as nat)
    }
}

/// Whether such a run ends in success.
pub open spec fn run_succeeds(succeeds: Seq<bool>, max: nat) -> bool
    decreases max,
{
    if max == 0 {
        false
    } else if succeeds.len() > 0 && succeeds.first() {
        true
    } else if max == 1 {
        false
    } else {
        run_succeeds(succeeds.drop_first(), (max - 1) as nat)
    }
}

/// The delays such a run sleeps, in order: one after every failed
/// attempt that is not the last allowed one.
pub open spec fn slept_delays(c: RetryConfig, succeeds: Seq<bool>, max: nat) -> Seq<u64> {
    let used = attempts_used(succeeds, max);
    if used == 0 {
        Seq::empty()
    } else {
        Seq::new((used - 1) as nat, |i: int| delay_at(c, i as nat))
    }
}

/// Law: with three attempts, 100 ms initial delay, doubling and a 5 s
/// cap, an operation that always fails is invoked exactly three times,
/// the sleeps between attempts last 100 ms then 200 ms, and the run
/// ends in failure.
pub proof fn lemma_always_failing_run()
    ensures
        ({
            let c = RetryConfig {
                max_attempts: 3,
                initial_delay_ms: 100,
                max_delay_ms: 5000,
                backoff_multiplier_percent: 200,
            };
            let none = Seq::<bool>::new(3, |i: int| false);
            &&& attempts_used(none, 3) == 3
            &&& !run_succeeds(none, 3)
            &&& slept_delays(c, none, 3) =~= seq![100u64, 200u64]
        }),
{
    let c = RetryConfig {
        max_attempts: 3,
        initial_delay_ms: 100,
        max_delay_ms: 5000,
        backoff_multiplier_percent: 200,
    };
    let f3 = Seq::<bool>::new(3, |i: int| false);
    let f2 = Seq::<bool>::new(2, |i: int| false);
    let f1 = Seq::<bool>::new(1, |i: int| false);
    assert(f3.drop_first() =~= f2);
    assert(f2.drop_first() =~= f1);
    assert(attempts_used(f1, 1) == 1);
    assert(attempts_used(f2, 2) == 2);
    assert(attempts_used(f3, 3) == 3);
    assert(!run_succeeds(f1, 1));
    assert(!run_succeeds(f2, 2));
    assert(!run_succeeds(f3, 3));
    assert(delay_at(c, 0) == 100);
    assert(delay_at(c, 1) == next_delay_spec(c, 100));
    assert(next_delay_spec(c, 100) == 200);
    assert(slept_delays(c, f3, 3) =~= seq![100u64, 200u64]);
}

/// Law: an operation that fails once and then succeeds is invoked
/// exactly twice, sleeps exactly once, for the initial delay, and the
/// run returns the success.
pub proof fn lemma_fail_once_then_succeed(c: RetryConfig)
    requires
        c.max_attempts >= 2,
    ensures
        attempts_used(seq![false, true], c.max_attempts as nat) == 2,
        run_succeeds(seq![false, true], c.max_attempts as nat),
        slept_delays(c, seq![false, true], c.max_attempts as nat) =~= seq![c.initial_delay_ms],
{
    let outcomes = seq![false, true];
    assert(outcomes.drop_first() =~= seq![true]);
    assert(attempts_used(seq![true], (c.max_attempts - 1) as nat) == 1);
    assert(run_succeeds(seq![true], (c.max_attempts - 1) as nat));
    assert(delay_at(c, 0) == c.initial_delay_ms);
    assert(slept_delays(c, outcomes, c.max_attempts as nat) =~= seq![c.initial_delay_ms]);
}

// ---------------------------------------------------------------------------
// Transient-error classification
// ---------------------------------------------------------------------------

/// The lower-case form `str::to_lowercase` gives a text.
pub uninterp spec fn lower_of(s: Seq<char>) -> Seq<char>;

/// Relies on str::to_lowercase: the result depends on the characters
/// alone.
#[verifier::external_body]
fn lowercase(s: &str) -> (r: String)
    ensures
        r@ == lower_of(s@),
{
    s.to_lowercase()
}

/// The transient-condition markers: timeouts, connection and network
/// trouble, and the rate-limit or bad-gateway statuses.
pub open spec fn retryable_text(s: Seq<char>) -> bool {
    contains_sub(s, "timeout"@) || contains_sub(s, "connection"@) || contains_sub(s, "network"@)
        || contains_sub(s, "temporary"@) || contains_sub(s, "503"@) || contains_sub(s, "502"@)
        || contains_sub(s, "504"@) || contains_sub(s, "429"@)
}

/// Decides retryability of an already lower-cased error text.
pub fn is_retryable_lower(error_lower: &str) -> (r: bool)
    ensures
        r == retryable_text(error_lower@),
{
    str_contains(error_lower, "timeout") || str_contains(error_lower, "connection")
        || str_contains(error_lower, "network") || str_contains(error_lower, "temporary")
        || str_contains(error_lower, "503") || str_contains(error_lower, "502") || str_contains(
        error_lower,
        "504",
    ) || str_contains(error_lower, "429")
}

/// Advisory classifier: whether an error's text names a transient
/// condition, compared case-insensitively. The engine itself never
/// consults this; callers do, to decide whether to retry at all.
pub fn is_retryable_error(error: &str) -> (r: bool)
    ensures
        r == retryable_text(lower_of(error@)),
{
    let lower = lowercase(error);
    is_retryable_lower(lower.as_str())
}

} // verus!
