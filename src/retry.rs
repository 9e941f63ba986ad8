use reqwest_retry::policies::ExponentialBackoff;
use reqwest_retry::{RetryDecision, RetryPolicy as _};
use std::time::SystemTime;
use vstd::prelude::*;

verus! {

#[verifier::external_type_specification]
#[verifier::external_body]
pub struct ExSystemTime(SystemTime);

/// Retries granted after a first attempt that failed in transport.
pub const DEFAULT_MAX_RETRIES: u32 = 3;

/// Wait before the first retry at most, in milliseconds (the backoff's
/// minimum interval, one second).
pub const BASE_DELAY_MS: u64 = 1000;

/// Longest wait between two attempts, in milliseconds (thirty minutes).
pub const MAX_DELAY_MS: u64 = 1_800_000;

/// The longest wait before retry number `n + 1`: the base delay doubled
/// `n` times, capped at the longest wait.
pub open spec fn backoff_cap_ms(n: nat) -> nat
    decreases n,
{
    if n == 0 {
        BASE_DELAY_MS as nat
    } else {
        let d = 2 * backoff_cap_ms((n - 1) as nat);
        if d < MAX_DELAY_MS {
            d
        } else {
            MAX_DELAY_MS as nat
        }
    }
}

proof fn lemma_cap_in_range(n: nat)
    ensures
        0 < backoff_cap_ms(n) <= MAX_DELAY_MS,
    decreases n,
{
    if n > 0 {
        lemma_cap_in_range((n - 1) as nat);
    }
}

proof fn lemma_cap_stays_at_max(i: nat, j: nat)
    requires
        i <= j,
        backoff_cap_ms(i) == MAX_DELAY_MS,
    ensures
        backoff_cap_ms(j) == MAX_DELAY_MS,
    decreases j - i,
{
    if i < j {
        lemma_cap_stays_at_max(i, (j - 1) as nat);
    }
}

/// The bound on the backoff waits is positive, never shrinks from one retry
/// to the next, doubles while under the longest wait, and never exceeds it.
pub proof fn lemma_backoff_grows(n: nat)
    ensures
        0 < backoff_cap_ms(n) <= backoff_cap_ms(n + 1) <= MAX_DELAY_MS,
        backoff_cap_ms(n + 1) == if 2 * backoff_cap_ms(n) < MAX_DELAY_MS {
            2 * backoff_cap_ms(n)
        } else {
            MAX_DELAY_MS as nat
        },
{
    lemma_cap_in_range(n);
    lemma_cap_in_range(n + 1);
}

/// Bounded exponential backoff: how many retries follow a transport failure.
#[derive(Debug, Clone, Copy)]
pub struct RetryPolicy {
    pub max_retries: u32,
}

/// The bound on the wait before retry number `n + 1`, in milliseconds.
pub fn backoff_cap(n: u32) -> (r: u64)
    ensures
        r == backoff_cap_ms(n as nat),
{
    let mut c: u64 = BASE_DELAY_MS;
    let mut i: u32 = 0;
    while i < n && c < MAX_DELAY_MS
        invariant
            i <= n,
            c == backoff_cap_ms(i as nat),
            c <= MAX_DELAY_MS,
        decreases n - i,
    {
        c = if 2 * c < MAX_DELAY_MS {
            2 * c
        } else {
            MAX_DELAY_MS
        };
        i = i + 1;
    }
    proof {
        if i < n {
            lemma_cap_stays_at_max(i as nat, n as nat);
        }
    }
    c
}

impl RetryPolicy {
    /// The policy of the moderation client: three retries.
    pub fn new() -> (r: RetryPolicy)
        ensures
            r.max_retries == DEFAULT_MAX_RETRIES,
    {
        RetryPolicy { max_retries: DEFAULT_MAX_RETRIES }
    }

    pub fn with_max_retries(max_retries: u32) -> (r: RetryPolicy)
        ensures
            r.max_retries == max_retries,
    {
        RetryPolicy { max_retries }
    }

    /// How long to wait, in milliseconds, before the next attempt after
    /// `n_past_retries` retries have failed, or `None` once the budget is
    /// spent. The wait is the exponential backoff's (jittered), held to its
    /// bound.
    pub fn next_wait(&self, n_past_retries: u32) -> (r: Option<u64>)
        ensures
            r is None <==> n_past_retries >= self.max_retries,
            r matches Some(w) ==> w <= backoff_cap_ms(n_past_retries as nat),
    {
        match backoff_decision(self.max_retries, n_past_retries) {
            Some(t) => {
                let measured = millis_until(t);
                let cap = backoff_cap(n_past_retries);
                Some(
                    if measured < cap {
                        measured
                    } else {
                        cap
                    },
                )
            },
            None => None,
        }
    }
}

/// Relies on reqwest_retry's `ExponentialBackoff`, built by
/// `ExponentialBackoffBuilder::build_with_max_retries(max_retries)`, and on its
/// `RetryPolicy::should_retry`, which answers `DoNotRetry` exactly when
/// `max_retries <= n_past_retries`, and otherwise `Retry` at a time after now.
#[verifier::external_body]
fn backoff_decision(max_retries: u32, n_past_retries: u32) -> (r: Option<SystemTime>)
    ensures
        r is None <==> n_past_retries >= max_retries,
{
    let policy = ExponentialBackoff::builder().build_with_max_retries(max_retries);
    match policy.should_retry(SystemTime::now(), n_past_retries) {
        RetryDecision::Retry { execute_after } => Some(execute_after),
        RetryDecision::DoNotRetry => None,
    }
}

/// Relies on `SystemTime::duration_since` from `SystemTime::now()`: the
/// milliseconds from now until `t`, zero where `t` has passed. It depends on
/// the clock, so nothing is stated of it.
#[verifier::external_body]
fn millis_until(t: SystemTime) -> u64 {
    match t.duration_since(SystemTime::now()) {
        Ok(d) => u64::try_from(d.as_millis()).unwrap_or(u64::MAX),
        Err(_) => 0,
    }
}

} // verus!
