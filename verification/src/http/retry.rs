//! The retry policy of REST requests: which failures are retried, how often,
//! and how long to wait before each new attempt.

use vstd::prelude::*;

use crate::http::error::OandaHttpError;

verus! {

/// Settings of the retry policy of REST requests.
#[derive(Clone, Copy, Debug, PartialEq, Eq, Structural)]
pub struct RetryConfig {
    /// How many times a failed request is tried again at most.
    pub max_retries: u32,
    /// The wait before the first retry, in milliseconds.
    pub initial_delay_ms: u64,
    /// No wait is longer than this, in milliseconds.
    pub max_delay_ms: u64,
    /// Each wait is this many times the previous one (up to `max_delay_ms`).
    pub backoff_factor: u64,
    /// Up to this much random delay may be added to a wait, in milliseconds.
    pub jitter_ms: u64,
    /// A single attempt is abandoned after this long, in milliseconds.
    pub operation_timeout_ms: Option<u64>,
    /// When `true`, the first retry happens without waiting.
    pub immediate_first: bool,
    /// No retry starts once this much time has passed since the first
    /// attempt, in milliseconds.
    pub max_elapsed_ms: Option<u64>,
}

/// The smaller of `a` and `b`.
pub open spec fn spec_min(a: int, b: int) -> int {
    if a <= b {
        a
    } else {
        b
    }
}

/// The exponential backoff before retry number `retry` (counted from 0),
/// ignoring `immediate_first`: `initial * factor^retry`, capped at `max`.
pub open spec fn spec_backoff(initial: int, factor: int, max: int, retry: nat) -> int
    decreases retry,
{
    if retry == 0 {
        spec_min(initial, max)
    } else {
        spec_min(spec_backoff(initial, factor, max, (retry - 1) as nat) * factor, max)
    }
}

/// The retry configuration of the OANDA REST client: the given limits or
/// their defaults (3 retries, 1 000 ms initial and 10 000 ms maximum wait),
/// doubling waits with up to 1 000 ms jitter, a 60 s attempt timeout, a
/// waiting first retry, and 180 s overall.
pub open spec fn spec_oanda_retry_config(
    max_retries: Option<u32>,
    retry_delay_ms: Option<u64>,
    retry_delay_max_ms: Option<u64>,
) -> RetryConfig {
    RetryConfig {
        max_retries: match max_retries {
            Some(n) => n,
            None => 3,
        },
        initial_delay_ms: match retry_delay_ms {
            Some(ms) => ms,
            None => 1_000,
        },
        max_delay_ms: match retry_delay_max_ms {
            Some(ms) => ms,
            None => 10_000,
        },
        backoff_factor: 2,
        jitter_ms: 1_000,
        operation_timeout_ms: Some(60_000),
        immediate_first: false,
        max_elapsed_ms: Some(180_000),
    }
}

/// Every limit that is given is used as it is, whatever its value (a
/// `max_retries` of `Some(0)` disables retries); only a missing limit takes
/// its default: 3 retries, 1 000 ms initial and 10 000 ms maximum wait. The
/// other settings are fixed: doubling waits, 1 000 ms jitter, a 60 000 ms
/// attempt timeout, a waiting first retry, and 180 000 ms overall.
pub proof fn lemma_oanda_retry_config_settings(
    max_retries: Option<u32>,
    retry_delay_ms: Option<u64>,
    retry_delay_max_ms: Option<u64>,
)
    ensures
        ({
            let config = spec_oanda_retry_config(max_retries, retry_delay_ms, retry_delay_max_ms);
            &&& max_retries matches Some(n) ==> config.max_retries == n
            &&& max_retries is None ==> config.max_retries == 3
            &&& retry_delay_ms matches Some(ms) ==> config.initial_delay_ms == ms
            &&& retry_delay_ms is None ==> config.initial_delay_ms == 1_000
            &&& retry_delay_max_ms matches Some(ms) ==> config.max_delay_ms == ms
            &&& retry_delay_max_ms is None ==> config.max_delay_ms == 10_000
            &&& config.backoff_factor == 2
            &&& config.jitter_ms == 1_000
            &&& config.operation_timeout_ms == Some(60_000u64)
            &&& !config.immediate_first
            &&& config.max_elapsed_ms == Some(180_000u64)
        }),
{
}

/// Builds the retry configuration of the OANDA REST client.
pub fn oanda_retry_config(
    max_retries: Option<u32>,
    retry_delay_ms: Option<u64>,
    retry_delay_max_ms: Option<u64>,
) -> (config: RetryConfig)
    ensures
        config == spec_oanda_retry_config(max_retries, retry_delay_ms, retry_delay_max_ms),
{
    RetryConfig {
        max_retries: match max_retries {
            Some(n) => n,
            None => 3,
        },
        initial_delay_ms: match retry_delay_ms {
            Some(ms) => ms,
            None => 1_000,
        },
        max_delay_ms: match retry_delay_max_ms {
            Some(ms) => ms,
            None => 10_000,
        },
        backoff_factor: 2,
        jitter_ms: 1_000,
        operation_timeout_ms: Some(60_000),
        immediate_first: false,
        max_elapsed_ms: Some(180_000),
    }
}

impl RetryConfig {
    /// The wait before retry number `retry` (counted from 0), in milliseconds.
    pub open spec fn spec_delay(self, retry: nat) -> int {
        if self.immediate_first && retry == 0 {
            0
        } else {
            spec_backoff(
                self.initial_delay_ms as int,
                self.backoff_factor as int,
                self.max_delay_ms as int,
                retry,
            )
        }
    }

    /// Whether a request that failed with `error`, after `retries_done`
    /// retries and `elapsed_ms` milliseconds, is tried again.
    pub open spec fn spec_may_retry(self, retries_done: u32, elapsed_ms: u64, error: OandaHttpError) -> bool {
        &&& error.spec_should_retry()
        &&& retries_done < self.max_retries
        &&& match self.max_elapsed_ms {
            Some(limit) => elapsed_ms < limit,
            None => true,
        }
    }

    /// Returns the wait before retry number `retry` (counted from 0), in
    /// milliseconds, without jitter.
    pub fn delay_ms(&self, retry: u32) -> (delay: u64)
        ensures
            delay == self.spec_delay(retry as nat),
    {
        if self.immediate_first && retry == 0 {
            return 0;
        }
        let initial = self.initial_delay_ms;
        let factor = self.backoff_factor;
        let max = self.max_delay_ms;
        let mut delay: u64 = if initial <= max {
            initial
        } else {
            max
        };
        let mut step: u32 = 0;
        while step < retry
            invariant
                step <= retry,
                initial == self.initial_delay_ms,
                factor == self.backoff_factor,
                max == self.max_delay_ms,
                delay == spec_backoff(initial as int, factor as int, max as int, step as nat),
                delay <= max,
            decreases retry - step,
        {
            let next: u64 = if factor != 0 && delay > max / factor {
                max
            } else {
                assert(delay * factor <= max) by (nonlinear_arith)
                    requires
                        factor == 0 || delay <= max / factor,
                ;
                delay * factor
            };
            assert(next == spec_backoff(initial as int, factor as int, max as int, (step + 1) as nat))
                by {
                assert(spec_backoff(initial as int, factor as int, max as int, (step + 1) as nat)
                    == spec_min(delay * factor, max as int));
                if factor != 0 && delay > max / factor {
                    assert(delay * factor > max) by (nonlinear_arith)
                        requires
                            factor != 0,
                            delay > max / factor,
                    ;
                }
            }
            if next == delay {
                proof {
                    lemma_backoff_fixed_point(
                        initial as int,
                        factor as int,
                        max as int,
                        (step + 1) as nat,
                        retry as nat,
                    );
                }
                return delay;
            }
            delay = next;
            step += 1;
        }
        delay
    }

    /// Decides what to do after an attempt failed with `error`, following
    /// `retries_done` retries and `elapsed_ms` milliseconds since the first
    /// attempt: `Some(wait)` to retry after waiting `wait` milliseconds, or
    /// `None` to give up with `error`.
    pub fn retry_decision(&self, retries_done: u32, elapsed_ms: u64, error: &OandaHttpError) -> (decision: Option<u64>)
        ensures
            decision is Some <==> self.spec_may_retry(retries_done, elapsed_ms, *error),
            decision matches Some(wait) ==> wait == self.spec_delay(retries_done as nat),
    {
        let within_time = match self.max_elapsed_ms {
            Some(limit) => elapsed_ms < limit,
            None => true,
        };
        if error.should_retry() && retries_done < self.max_retries && within_time {
            Some(self.delay_ms(retries_done))
        } else {
            None
        }
    }
}

impl RetryConfig {
    /// With a backoff factor of at least 1, no wait is longer than
    /// `max_delay_ms`, and the waits never shrink from one retry to the next.
    pub proof fn lemma_delays_bounded_and_nondecreasing(self, retry: nat)
        requires
            self.backoff_factor >= 1,
        ensures
            0 <= self.spec_delay(retry) <= self.max_delay_ms,
            self.spec_delay(retry) <= self.spec_delay(retry + 1),
    {
        lemma_backoff_bounded_and_monotone(
            self.initial_delay_ms as int,
            self.backoff_factor as int,
            self.max_delay_ms as int,
            retry,
        );
        lemma_backoff_bounded_and_monotone(
            self.initial_delay_ms as int,
            self.backoff_factor as int,
            self.max_delay_ms as int,
            retry + 1,
        );
    }

    /// Once `max_retries` retries have been made, no failure is retried: a
    /// request is attempted at most `max_retries + 1` times.
    pub proof fn lemma_no_retry_beyond_limit(self, retries_done: u32, elapsed_ms: u64, error: OandaHttpError)
        requires
            retries_done >= self.max_retries,
        ensures
            !self.spec_may_retry(retries_done, elapsed_ms, error),
    {
    }

    /// A failure that is not worth retrying (missing credentials, a client
    /// error status, an undecodable body) is never retried.
    pub proof fn lemma_permanent_errors_not_retried(self, retries_done: u32, elapsed_ms: u64, error: OandaHttpError)
        requires
            !error.spec_should_retry(),
        ensures
            !self.spec_may_retry(retries_done, elapsed_ms, error),
    {
    }
}

/// Once a wait repeats the one before, it stays the same for every later retry.
pub proof fn lemma_backoff_fixed_point(initial: int, factor: int, max: int, k: nat, m: nat)
    requires
        spec_backoff(initial, factor, max, k) == spec_backoff(initial, factor, max, (k - 1) as nat),
        1 <= k <= m,
    ensures
        spec_backoff(initial, factor, max, m) == spec_backoff(initial, factor, max, (k - 1) as nat),
    decreases m - k,
{
    if m > k {
        lemma_backoff_fixed_point(initial, factor, max, k, (m - 1) as nat);
        assert(spec_backoff(initial, factor, max, m) == spec_min(
            spec_backoff(initial, factor, max, (m - 1) as nat) * factor,
            max,
        ));
        assert(spec_backoff(initial, factor, max, (m - 1) as nat) == spec_backoff(
            initial,
            factor,
            max,
            (k - 1) as nat,
        ));
    }
}

/// No wait is longer than `max` (for a non-negative `max`), and with a
/// factor of at least 1 the waits never shrink from one retry to the next.
pub proof fn lemma_backoff_bounded_and_monotone(initial: int, factor: int, max: int, retry: nat)
    requires
        0 <= initial,
        0 <= max,
        1 <= factor,
    ensures
        0 <= spec_backoff(initial, factor, max, retry) <= max,
        spec_backoff(initial, factor, max, retry) <= spec_backoff(initial, factor, max, retry + 1),
    decreases retry,
{
    let d = spec_backoff(initial, factor, max, retry);
    if retry > 0 {
        lemma_backoff_bounded_and_monotone(initial, factor, max, (retry - 1) as nat);
    }
    assert(d <= d * factor) by (nonlinear_arith)
        requires
            0 <= d,
            1 <= factor,
    ;
}

} // verus!
