//! Retry policy and pacing of batched model calls.

use crate::text::{contains_seq, str_contains};
use crate::time::Duration;
use vstd::arithmetic::power2::{lemma_pow2_unfold, pow2};
use vstd::prelude::*;

verus! {

/// How the calls of a batch are paced.
#[derive(Debug, Clone, Copy, PartialEq, Eq)]
pub enum SchedulingStrategy {
    /// All calls at once.
    Parallel,
    /// One call after the other.
    Sequential,
    /// Groups of calls with a pause between groups.
    Grouped { group_size: usize },
    /// Pacing that follows the responses of the service.
    Adaptive,
}

impl Default for SchedulingStrategy {
    fn default() -> (s: SchedulingStrategy)
        ensures
            s is Parallel,
    {
        SchedulingStrategy::Parallel
    }
}

/// Settings of a batch scheduler.
#[derive(Debug, Clone, Copy)]
pub struct BatchSchedulerConfig {
    /// Pacing of the calls.
    pub strategy: SchedulingStrategy,
    /// Maximum number of calls open together.
    pub max_concurrent: usize,
    /// Delay before the first retry, in milliseconds; it doubles with every
    /// further attempt.
    pub retry_backoff_ms: u64,
    /// Maximum number of retries of one call.
    pub max_retries: usize,
    /// Timeout of one call.
    pub request_timeout: Duration,
}

impl BatchSchedulerConfig {
    /// The default settings: parallel, ten calls, 100 ms backoff, three
    /// retries, 30 s timeout.
    pub open spec fn spec_default() -> BatchSchedulerConfig {
        BatchSchedulerConfig {
            strategy: SchedulingStrategy::Parallel,
            max_concurrent: 10,
            retry_backoff_ms: 100,
            max_retries: 3,
            request_timeout: Duration::spec_from_secs(30),
        }
    }
}

impl Default for BatchSchedulerConfig {
    fn default() -> (c: BatchSchedulerConfig)
        ensures
            c == BatchSchedulerConfig::spec_default(),
    {
        BatchSchedulerConfig {
            strategy: SchedulingStrategy::Parallel,
            max_concurrent: 10,
            retry_backoff_ms: 100,
            max_retries: 3,
            request_timeout: Duration::from_secs(30),
        }
    }
}

/// `base` doubled `times` times: `base * 2^times`.
pub open spec fn doubled(base: nat, times: nat) -> nat
    decreases times,
{
    if times == 0 {
        base
    } else {
        2 * doubled(base, (times - 1) as nat)
    }
}

/// Doubling is multiplication by a power of two.
pub proof fn lemma_doubled_is_power(base: nat, times: nat)
    ensures
        doubled(base, times) == base * pow2(times),
    decreases times,
{
    if times == 0 {
        vstd::arithmetic::power2::lemma2_to64();
    } else {
        lemma_doubled_is_power(base, (times - 1) as nat);
        lemma_pow2_unfold(times);
        assert(2 * (base * pow2((times - 1) as nat)) == base * (2 * pow2((times - 1) as nat)))
            by (nonlinear_arith);
    }
}

/// More doublings never give less.
pub proof fn lemma_doubled_grows(base: nat, a: nat, b: nat)
    requires
        a <= b,
    ensures
        doubled(base, a) <= doubled(base, b),
    decreases b,
{
    if a < b {
        lemma_doubled_grows(base, a, (b - 1) as nat);
    }
}

/// The delay before retry number `attempt`, in milliseconds: the backoff
/// doubled `attempt` times, capped at the largest `u64`.
pub open spec fn retry_delay_millis(base: u64, attempt: nat) -> nat {
    if doubled(base as nat, attempt) > u64::MAX {
        u64::MAX as nat
    } else {
        doubled(base as nat, attempt)
    }
}

/// An error text names a failure that is worth a retry: a rate limit, a
/// timeout, or a service that is unavailable for the moment.
pub open spec fn is_transient(error: Seq<char>) -> bool {
    ||| contains_seq(error, "429"@)
    ||| contains_seq(error, "timeout"@)
    ||| contains_seq(error, "temporarily unavailable"@)
    ||| contains_seq(error, "service unavailable"@)
}

/// Decides delays and retries of batched calls.
#[derive(Debug, Clone, Copy)]
pub struct BatchScheduler {
    config: BatchSchedulerConfig,
}

impl BatchScheduler {
    /// The settings.
    pub closed spec fn settings(&self) -> BatchSchedulerConfig {
        self.config
    }

    /// A scheduler under `config`.
    pub fn new(config: BatchSchedulerConfig) -> (s: BatchScheduler)
        ensures
            s.settings() == config,
    {
        BatchScheduler { config }
    }

    /// A scheduler under the default settings.
    pub fn with_defaults() -> (s: BatchScheduler)
        ensures
            s.settings() == BatchSchedulerConfig::spec_default(),
    {
        BatchScheduler {
            config: BatchSchedulerConfig {
                strategy: SchedulingStrategy::Parallel,
                max_concurrent: 10,
                retry_backoff_ms: 100,
                max_retries: 3,
                request_timeout: Duration::from_secs(30),
            },
        }
    }

    /// The settings.
    pub fn config(&self) -> (c: &BatchSchedulerConfig)
        ensures
            *c == self.settings(),
    {
        &self.config
    }

    /// Replaces the settings.
    pub fn set_config(&mut self, config: BatchSchedulerConfig)
        ensures
            final(self).settings() == config,
    {
        self.config = config;
    }

    /// The delay before retry number `attempt`: exponential backoff,
    /// `retry_backoff_ms * 2^attempt` milliseconds, capped at the largest
    /// `u64`.
    pub fn retry_delay(&self, attempt: usize) -> (d: Duration)
        ensures
            d == Duration::spec_from_millis(
                retry_delay_millis(self.settings().retry_backoff_ms, attempt as nat) as u64,
            ),
            d.total_millis() == retry_delay_millis(self.settings().retry_backoff_ms, attempt as nat),
            d.whole_secs() == retry_delay_millis(self.settings().retry_backoff_ms, attempt as nat)
                / 1000,
            d.subsec_nanos() == (retry_delay_millis(
                self.settings().retry_backoff_ms,
                attempt as nat,
            ) % 1000) * 1_000_000,
    {
        let base = self.config.retry_backoff_ms;
        let mut delay: u64 = base;
        let mut i: usize = 0;
        while i < attempt && delay != 0 && delay != u64::MAX
            invariant
                i <= attempt,
                delay == retry_delay_millis(base, i as nat),
            decreases attempt - i,
        {
            delay = if delay > u64::MAX / 2 {
                u64::MAX
            } else {
                delay * 2
            };
            i += 1;
        }
        proof {
            if i < attempt {
                lemma_doubled_grows(base as nat, 0, i as nat);
                lemma_doubled_grows(base as nat, i as nat, attempt as nat);
                if delay == 0 {
                    lemma_doubled_zero(attempt as nat);
                }
            }
        }
        Duration::from_millis(delay)
    }

    /// Whether a call that failed with `error` on attempt number `attempt`
    /// is to be retried: retries are left and the failure is transient.
    pub fn should_retry(&self, attempt: usize, error: &str) -> (b: bool)
        ensures
            b == (attempt < self.settings().max_retries && is_transient(error@)),
    {
        if attempt >= self.config.max_retries {
            return false;
        }
        str_contains(error, "429") || str_contains(error, "timeout") || str_contains(
            error,
            "temporarily unavailable",
        ) || str_contains(error, "service unavailable")
    }
}

proof fn lemma_doubled_zero(times: nat)
    ensures
        doubled(0, times) == 0,
    decreases times,
{
    if times > 0 {
        lemma_doubled_zero((times - 1) as nat);
    }
}

impl Default for BatchScheduler {
    fn default() -> (s: BatchScheduler)
        ensures
            s.settings() == BatchSchedulerConfig::spec_default(),
    {
        BatchScheduler::with_defaults()
    }
}

} // verus!
