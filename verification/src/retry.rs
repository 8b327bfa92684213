//! Retry policy: which errors are retried and how long to wait between tries.

use vstd::prelude::*;
use crate::error::DlsiteError;

verus! {

/// Configuration for automatic retries with exponential backoff.
///
/// Delays are in milliseconds. The first retry waits `initial_delay_ms`;
/// each later retry waits the previous delay times the multiplier, rounded
/// down to the millisecond; every delay is capped at `max_delay_ms`.
#[derive(Clone, Debug, PartialEq, Eq, Structural)]
pub struct RetryConfig {
    /// Number of retries after the first attempt.
    pub max_retries: u32,
    /// Delay before the first retry, in milliseconds.
    pub initial_delay_ms: u64,
    /// Upper bound of every delay, in milliseconds.
    pub max_delay_ms: u64,
    /// Factor by which the delay grows from one retry to the next, in
    /// thousandths: 2000 doubles it, 1500 multiplies it by 1.5.
    pub backoff_multiplier_milli: u64,
}

impl RetryConfig {
    /// The default policy: 3 retries, 500 ms doubling up to 10 s.
    pub open spec fn default_spec() -> RetryConfig {
        RetryConfig { max_retries: 3, initial_delay_ms: 500, max_delay_ms: 10_000, backoff_multiplier_milli: 2000 }
    }
}

impl Default for RetryConfig {
    fn default() -> (r: Self)
        ensures
            r == RetryConfig::default_spec(),
    {
        RetryConfig { max_retries: 3, initial_delay_ms: 500, max_delay_ms: 10_000, backoff_multiplier_milli: 2000 }
    }
}

/// The smaller of two naturals.
pub open spec fn min_nat(a: nat, b: nat) -> nat {
    if a <= b {
        a
    } else {
        b
    }
}

/// The delay before retry `attempt`: `initial` capped at `cap` for the
/// first, then each the previous delay times `factor_milli` thousandths,
/// rounded down and capped at `cap`.
pub open spec fn delay_at(initial: nat, factor_milli: nat, cap: nat, attempt: nat) -> nat
    decreases attempt,
{
    if attempt == 0 {
        min_nat(initial, cap)
    } else {
        min_nat(delay_at(initial, factor_milli, cap, (attempt - 1) as nat) * factor_milli / 1000, cap)
    }
}

/// Whether an error of one of the listed kinds is worth retrying: rate
/// limits, timeouts, and HTTP statuses 429 and 5xx. Transport errors are
/// decided by the HTTP library (timeouts and failed connections).
pub open spec fn retryable_kind(err: DlsiteError) -> bool {
    match err {
        DlsiteError::HttpStatus(s) => s >= 500 || s == 429,
        DlsiteError::RateLimit(_) => true,
        DlsiteError::Timeout => true,
        _ => false,
    }
}

/// `reqwest::Error::is_timeout`; nothing is stated of the answer.
#[verifier::external_body]
fn transport_timed_out(e: &reqwest::Error) -> bool {
    e.is_timeout()
}

/// `reqwest::Error::is_connect`; nothing is stated of the answer.
#[verifier::external_body]
fn transport_connect_failed(e: &reqwest::Error) -> bool {
    e.is_connect()
}

impl RetryConfig {
    /// The delay before retry `attempt`, in milliseconds.
    pub open spec fn spec_delay(&self, attempt: nat) -> nat {
        delay_at(self.initial_delay_ms as nat, self.backoff_multiplier_milli as nat, self.max_delay_ms as nat, attempt)
    }

    proof fn lemma_delay_step_grows(&self, a: nat)
        requires
            self.backoff_multiplier_milli >= 1000,
        ensures
            self.spec_delay(a) <= self.spec_delay(a + 1),
            self.spec_delay(a) <= self.max_delay_ms,
    {
        let d = self.spec_delay(a);
        let m = self.backoff_multiplier_milli as nat;
        assert(delay_at(self.initial_delay_ms as nat, m, self.max_delay_ms as nat, (a + 1 - 1) as nat) == d);
        assert(d * m / 1000 >= d) by (nonlinear_arith)
            requires
                m >= 1000,
        ;
    }

    /// With a multiplier of at least 1 (1000 thousandths), a later retry
    /// never waits less than an earlier one.
    pub proof fn lemma_delay_grows(&self, a: nat, b: nat)
        requires
            self.backoff_multiplier_milli >= 1000,
            a <= b,
        ensures
            self.spec_delay(a) <= self.spec_delay(b),
        decreases b - a,
    {
        if a < b {
            self.lemma_delay_step_grows(a);
            self.lemma_delay_grows(a + 1, b);
        }
    }

    /// Once a delay has reached 0, or has reached the cap under a multiplier
    /// of at least 1, every later delay is the same.
    proof fn lemma_delay_settles(&self, a: nat, b: nat)
        requires
            a <= b,
            self.spec_delay(a) == 0 || (self.spec_delay(a) == self.max_delay_ms && self.backoff_multiplier_milli >= 1000),
        ensures
            self.spec_delay(b) == self.spec_delay(a),
        decreases b - a,
    {
        if a < b {
            let d = self.spec_delay(a);
            let m = self.backoff_multiplier_milli as nat;
            assert(delay_at(self.initial_delay_ms as nat, m, self.max_delay_ms as nat, (a + 1 - 1) as nat) == d);
            if d == 0 {
                assert(d * m / 1000 == 0) by (nonlinear_arith)
                    requires
                        d == 0,
                ;
            } else {
                assert(d * m / 1000 >= d) by (nonlinear_arith)
                    requires
                        m >= 1000,
                ;
            }
            assert(self.spec_delay(a + 1) == d);
            self.lemma_delay_settles(a + 1, b);
        }
    }

    /// The delay before retry `attempt`, in milliseconds, as
    /// [`RetryConfig::spec_delay`] gives it.
    pub fn calculate_delay(&self, attempt: u32) -> (ms: u64)
        ensures
            ms == self.spec_delay(attempt as nat),
            ms <= self.max_delay_ms,
    {
        let cap = self.max_delay_ms;
        let m = self.backoff_multiplier_milli;
        let mut d: u64 = if self.initial_delay_ms <= cap { self.initial_delay_ms } else { cap };
        let mut i: u32 = 0;
        while i < attempt
            invariant
                i <= attempt,
                cap == self.max_delay_ms,
                m == self.backoff_multiplier_milli,
                d as nat == self.spec_delay(i as nat),
                d <= cap,
            decreases attempt - i,
        {
            if d == 0 || (d == cap && m >= 1000) {
                proof {
                    self.lemma_delay_settles(i as nat, attempt as nat);
                }
                return d;
            }
            assert((d as u128) * (m as u128) <= 0xffff_ffff_ffff_ffffu128 * 0xffff_ffff_ffff_ffffu128)
                by (nonlinear_arith)
                requires
                    d <= 0xffff_ffff_ffff_ffffu64,
                    m <= 0xffff_ffff_ffff_ffffu64,
            ;
            let grown: u128 = (d as u128) * (m as u128) / 1000;
            let next: u64 = if grown <= cap as u128 { grown as u64 } else { cap };
            proof {
                assert(delay_at(self.initial_delay_ms as nat, m as nat, cap as nat, (i + 1 - 1) as nat) == d as nat);
            }
            d = next;
            i = i + 1;
        }
        d
    }

    /// Whether `err` is worth retrying. For errors other than transport
    /// errors this is exactly [`retryable_kind`]; for transport errors it is
    /// decided by `reqwest` (timeouts and failed connections are retried).
    pub fn is_retryable(&self, err: &DlsiteError) -> (r: bool)
        ensures
            !(*err is Reqwest) ==> r == retryable_kind(*err),
    {
        match err {
            DlsiteError::Reqwest(e) => transport_timed_out(e) || transport_connect_failed(e),
            DlsiteError::HttpStatus(s) => *s >= 500 || *s == 429,
            DlsiteError::RateLimit(_) => true,
            DlsiteError::Timeout => true,
            _ => false,
        }
    }
}

} // verus!
