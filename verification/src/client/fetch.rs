//! The decisions of a GET request: where it goes, how long to wait before
//! sending it, and what to do with what came back.

use vstd::prelude::*;
use crate::error::DlsiteError;
use crate::retry::{retryable_kind, RetryConfig};
use crate::text::owned;

verus! {

/// Minimum time between two requests, in milliseconds (2 requests per second).
pub const REQUEST_INTERVAL_MS: u64 = 500;

/// The URL of a request for `path` against `base_url`.
pub fn request_url(base_url: &str, path: &str) -> (url: String)
    ensures
        url@ == base_url@ + path@,
{
    let mut url = owned(base_url);
    url.append(path);
    url
}

/// Milliseconds elapsed since the last request; zero when the clock reads
/// earlier than the last request.
pub open spec fn elapsed_since(now_ms: u64, last_ms: u64) -> nat {
    if now_ms >= last_ms {
        (now_ms - last_ms) as nat
    } else {
        0
    }
}

/// How long to sleep before sending a request at `now_ms` when the previous
/// one left at `last_ms`: the rest of the 500 ms interval, or nothing.
pub fn rate_limit_wait_ms(now_ms: u64, last_ms: u64) -> (wait: u64)
    ensures
        wait as nat == (if elapsed_since(now_ms, last_ms) < REQUEST_INTERVAL_MS as nat {
            (REQUEST_INTERVAL_MS as nat - elapsed_since(now_ms, last_ms)) as nat
        } else {
            0nat
        }),
        elapsed_since(now_ms, last_ms) + wait >= REQUEST_INTERVAL_MS,
        wait <= REQUEST_INTERVAL_MS,
{
    let elapsed = now_ms.saturating_sub(last_ms);
    if elapsed < REQUEST_INTERVAL_MS {
        REQUEST_INTERVAL_MS - elapsed
    } else {
        0
    }
}

/// How long a request at `now_ms` waits when the previous one left at
/// `last_ms`: the rest of the 500 ms interval, or nothing.
pub open spec fn spec_wait(now_ms: u64, last_ms: u64) -> nat {
    if elapsed_since(now_ms, last_ms) < REQUEST_INTERVAL_MS as nat {
        (REQUEST_INTERVAL_MS as nat - elapsed_since(now_ms, last_ms)) as nat
    } else {
        0nat
    }
}

/// The time a request that reads the clock at `now_ms` leaves, after its
/// wait; the client records it as the time of its last request.
pub open spec fn departure(now_ms: u64, last_ms: u64) -> nat {
    let d = now_ms + spec_wait(now_ms, last_ms);
    if d <= u64::MAX { d as nat } else { u64::MAX as nat }
}

/// The rate limit for a request that reads the clock at `now_ms` when the
/// previous request left at `last_ms`: how long to sleep, and the time the
/// request leaves, which is what the client records as its last request.
pub fn rate_limit_step(now_ms: u64, last_ms: u64) -> (r: (u64, u64))
    ensures
        r.0 == spec_wait(now_ms, last_ms),
        r.1 == departure(now_ms, last_ms),
{
    let wait = rate_limit_wait_ms(now_ms, last_ms);
    (wait, now_ms.saturating_add(wait))
}

/// Two requests made one after the other, the second reading the clock no
/// earlier than the first one left, leave at least 500 ms apart: at most
/// two requests per second.
pub proof fn lemma_requests_spaced(last_ms: u64, first_now: u64, second_now: u64)
    requires
        second_now >= departure(first_now, last_ms),
    ensures
        second_now + spec_wait(second_now, departure(first_now, last_ms) as u64)
            >= departure(first_now, last_ms) + REQUEST_INTERVAL_MS,
{
}

/// What one attempt of a request came back with.
pub enum AttemptOutcome {
    /// The server answered with this HTTP status.
    Status(u16),
    /// The request could not be sent or its answer not received.
    SendFailed(DlsiteError),
}

/// What the client does after an attempt.
pub enum NextStep {
    /// The status is a success: read the body and return it.
    ReadBody,
    /// Sleep for `delay_ms` and try again; `error` is what this attempt
    /// failed with.
    Retry {
        /// Milliseconds to sleep before the next attempt.
        delay_ms: u64,
        /// The error of this attempt.
        error: DlsiteError,
    },
    /// Give up with this error.
    Fail(DlsiteError),
}

/// Whether the status is a 2xx success.
pub open spec fn is_success(status: u16) -> bool {
    200 <= status <= 299
}

/// Whether `e` is the rate-limit error a 429 answer stands for.
pub open spec fn is_too_many_requests(e: DlsiteError) -> bool {
    e matches DlsiteError::RateLimit(m) && m@ == "Too many requests, please retry later"@
}

/// Whether `e` is the authentication error for status 401 or 403.
pub open spec fn is_auth_error(status: u16, e: DlsiteError) -> bool {
    &&& e matches DlsiteError::AuthRequired(m)
    &&& (status == 401 ==> m@ == "HTTP 401 Unauthorized"@)
    &&& (status == 403 ==> m@ == "HTTP 403 Forbidden"@)
}

/// Retry `err` after the policy's delay when attempts are left and it is
/// worth retrying; otherwise give up with it.
fn retry_or_fail(config: &RetryConfig, attempt: u32, err: DlsiteError) -> (r: NextStep)
    ensures
        attempt >= config.max_retries ==> r == NextStep::Fail(err),
        !(r is ReadBody),
        r matches NextStep::Fail(e) ==> e == err,
        r matches NextStep::Retry { delay_ms, error } ==> {
            &&& attempt < config.max_retries
            &&& delay_ms == config.spec_delay(attempt as nat)
            &&& error == err
        },
        !(err is Reqwest) ==> (r is Retry <==> attempt < config.max_retries && retryable_kind(err)),
{
    if attempt < config.max_retries && config.is_retryable(&err) {
        NextStep::Retry { delay_ms: config.calculate_delay(attempt), error: err }
    } else {
        NextStep::Fail(err)
    }
}

/// What [`next_step`] decides after attempt `attempt` came back with
/// `outcome`.
pub open spec fn step_decided(config: RetryConfig, attempt: u32, outcome: AttemptOutcome, r: NextStep) -> bool {
    &&& (r matches NextStep::Retry { delay_ms, .. } ==> {
            &&& attempt < config.max_retries
            &&& delay_ms == config.spec_delay(attempt as nat)
        })
    &&& (outcome matches AttemptOutcome::Status(s) ==> {
            &&& (is_success(s) <==> r is ReadBody)
            &&& (s == 429 ==> {
                ||| (r matches NextStep::Retry { error, .. } && attempt < config.max_retries && is_too_many_requests(error))
                ||| (attempt >= config.max_retries && (r matches NextStep::Fail(e) && is_too_many_requests(e)))
            })
            &&& ((s == 401 || s == 403) ==> (r matches NextStep::Fail(e) && is_auth_error(s, e)))
            &&& ((!is_success(s) && s != 429 && s != 401 && s != 403) ==> {
                ||| (r matches NextStep::Retry { error, .. } && attempt < config.max_retries && s >= 500
                    && error == DlsiteError::HttpStatus(s))
                ||| (r == NextStep::Fail(DlsiteError::HttpStatus(s)) && (attempt >= config.max_retries || s < 500))
            })
        })
    &&& (outcome matches AttemptOutcome::SendFailed(err) ==> {
            &&& (r is Fail ==> r == NextStep::Fail(err))
            &&& (r matches NextStep::Retry { error, .. } ==> error == err)
            &&& !(r is ReadBody)
            &&& (attempt >= config.max_retries ==> r == NextStep::Fail(err))
            &&& (!(err is Reqwest) ==> (r is Retry <==> attempt < config.max_retries && retryable_kind(err)))
        })
}

/// A 401 or 403 answer ends the request at once with an authentication
/// error, whatever the retry policy: it is never retried.
pub proof fn lemma_auth_statuses_end_request(config: RetryConfig, attempt: u32, status: u16, r: NextStep)
    requires
        status == 401 || status == 403,
        step_decided(config, attempt, AttemptOutcome::Status(status), r),
    ensures
        r matches NextStep::Fail(e) && is_auth_error(status, e),
        !(r is Retry),
{
}

/// A 429 or 5xx answer is retried while attempts are left.
pub proof fn lemma_retryable_status_retried(config: RetryConfig, attempt: u32, status: u16, r: NextStep)
    requires
        status == 429 || (status >= 500 && !is_success(status)),
        attempt < config.max_retries,
        step_decided(config, attempt, AttemptOutcome::Status(status), r),
    ensures
        r is Retry,
{
}

/// After the last attempt allowed, an answer that is not a success fails
/// the request: 429 with the rate-limit error, 401 and 403 with an
/// authentication error, any other status with that status.
pub proof fn lemma_last_attempt_fails(config: RetryConfig, attempt: u32, status: u16, r: NextStep)
    requires
        attempt >= config.max_retries,
        !is_success(status),
        step_decided(config, attempt, AttemptOutcome::Status(status), r),
    ensures
        status == 429 ==> (r matches NextStep::Fail(e) && is_too_many_requests(e)),
        (status == 401 || status == 403) ==> (r matches NextStep::Fail(e) && is_auth_error(status, e)),
        (status != 429 && status != 401 && status != 403) ==> r == NextStep::Fail(DlsiteError::HttpStatus(status)),
{
}

/// Whether an answer with status `status` to attempt `attempt` is retried:
/// a 429 or a 5xx while attempts are left.
pub open spec fn status_retried(config: RetryConfig, attempt: nat, status: u16) -> bool {
    (status == 429 || (status >= 500 && !is_success(status))) && attempt < config.max_retries
}

/// What [`next_step`] decides of an HTTP status comes down to this: the body
/// is read exactly on a success, a retry comes exactly when
/// [`status_retried`] says so, and every other answer fails the request.
pub proof fn lemma_status_step(config: RetryConfig, attempt: u32, status: u16, r: NextStep)
    requires
        step_decided(config, attempt, AttemptOutcome::Status(status), r),
    ensures
        r is ReadBody <==> is_success(status),
        r is Retry <==> status_retried(config, attempt as nat, status),
        !(r is ReadBody) && !(r is Retry) ==> r is Fail,
{
}

/// A request whose attempt `i` is answered with status `answers[i]`, from
/// attempt `attempt` on: how many attempts it sends in all, and whether it
/// ends by reading a body (otherwise it fails, or runs out of answers).
pub open spec fn run_of(config: RetryConfig, answers: Seq<u16>, attempt: nat) -> (nat, bool)
    decreases answers.len() - attempt,
{
    if attempt >= answers.len() {
        (attempt, false)
    } else if is_success(answers[attempt as int]) {
        (attempt + 1, true)
    } else if status_retried(config, attempt, answers[attempt as int]) {
        run_of(config, answers, attempt + 1)
    } else {
        (attempt + 1, false)
    }
}

proof fn lemma_run_bounded_from(config: RetryConfig, answers: Seq<u16>, attempt: nat)
    requires
        attempt <= config.max_retries,
    ensures
        run_of(config, answers, attempt).0 <= config.max_retries + 1,
    decreases answers.len() - attempt,
{
    if attempt < answers.len() && !is_success(answers[attempt as int])
        && status_retried(config, attempt, answers[attempt as int]) {
        lemma_run_bounded_from(config, answers, attempt + 1);
    }
}

/// No request sends more than `max_retries + 1` attempts, whatever the
/// answers.
pub proof fn lemma_run_bounded(config: RetryConfig, answers: Seq<u16>)
    ensures
        run_of(config, answers, 0).0 <= config.max_retries + 1,
{
    lemma_run_bounded_from(config, answers, 0);
}

proof fn lemma_retries_then_success_from(config: RetryConfig, failing: u16, success: u16, k: nat, attempt: nat)
    requires
        failing == 429 || (failing >= 500 && !is_success(failing)),
        is_success(success),
        attempt <= k,
        attempt <= config.max_retries,
    ensures
        run_of(config, Seq::new(k, |i: int| failing).push(success), attempt) == (if k <= config.max_retries {
            (k + 1, true)
        } else {
            ((config.max_retries + 1) as nat, false)
        }),
    decreases k - attempt,
{
    let answers = Seq::new(k, |i: int| failing).push(success);
    if attempt < k {
        assert(answers[attempt as int] == failing);
        if attempt < config.max_retries {
            lemma_retries_then_success_from(config, failing, success, k, attempt + 1);
        }
    } else {
        assert(answers[attempt as int] == success);
    }
}

/// A request whose first `k` attempts are answered with a 429 or a 5xx and
/// the next with a success reads the body after `k + 1` attempts when
/// `k <= max_retries`, and otherwise fails after `max_retries + 1`.
pub proof fn lemma_retries_then_success(config: RetryConfig, failing: u16, success: u16, k: nat)
    requires
        failing == 429 || (failing >= 500 && !is_success(failing)),
        is_success(success),
    ensures
        run_of(config, Seq::new(k, |i: int| failing).push(success), 0) == (if k <= config.max_retries {
            (k + 1, true)
        } else {
            ((config.max_retries + 1) as nat, false)
        }),
{
    lemma_retries_then_success_from(config, failing, success, k, 0);
}

/// Decide what follows attempt number `attempt` (counting from 0):
/// - 429 is a rate-limit error, retried while attempts are left;
/// - 401 and 403 fail at once with an authentication error;
/// - any other status outside 2xx is an HTTP status error, retried while
///   attempts are left when it is a 5xx;
/// - a 2xx status means the body is read;
/// - a failure to send is retried while attempts are left when the HTTP
///   library reports a timeout or a failed connection.
///
/// A retry waits `config.spec_delay(attempt)`, and no retry is ever planned
/// after attempt `max_retries`, so a request is sent at most
/// `max_retries + 1` times.
pub fn next_step(config: &RetryConfig, attempt: u32, outcome: AttemptOutcome) -> (r: NextStep)
    ensures
        step_decided(*config, attempt, outcome, r),
{
    match outcome {
        AttemptOutcome::Status(status) => {
            if status == 429 {
                let err = DlsiteError::RateLimit(owned("Too many requests, please retry later"));
                retry_or_fail(config, attempt, err)
            } else if status == 401 {
                NextStep::Fail(DlsiteError::AuthRequired(owned("HTTP 401 Unauthorized")))
            } else if status == 403 {
                NextStep::Fail(DlsiteError::AuthRequired(owned("HTTP 403 Forbidden")))
            } else if !(200 <= status && status <= 299) {
                retry_or_fail(config, attempt, DlsiteError::HttpStatus(status))
            } else {
                NextStep::ReadBody
            }
        },
        AttemptOutcome::SendFailed(err) => retry_or_fail(config, attempt, err),
    }
}

/// What [`raw_next_step`] decides after attempt `attempt` of a raw request
/// came back with `outcome`: a 429 or 5xx answer is retried while attempts
/// are left, and any other answer, or the last one, is read whatever its
/// status; a failure to send is handled as by [`next_step`].
pub open spec fn raw_step_decided(config: RetryConfig, attempt: u32, outcome: AttemptOutcome, r: NextStep) -> bool {
    &&& (r matches NextStep::Retry { delay_ms, .. } ==> {
            &&& attempt < config.max_retries
            &&& delay_ms == config.spec_delay(attempt as nat)
        })
    &&& (outcome matches AttemptOutcome::Status(s) ==> {
            &&& (r is Retry <==> ((s == 429 || (s >= 500 && !is_success(s))) && attempt < config.max_retries))
            &&& (!(r is Retry) ==> r is ReadBody)
            &&& (r matches NextStep::Retry { error, .. } ==> (if s == 429 {
                is_too_many_requests(error)
            } else {
                error == DlsiteError::HttpStatus(s)
            }))
        })
    &&& (outcome matches AttemptOutcome::SendFailed(err) ==> {
            &&& (r is Fail ==> r == NextStep::Fail(err))
            &&& (r matches NextStep::Retry { error, .. } ==> error == err)
            &&& !(r is ReadBody)
            &&& (attempt >= config.max_retries ==> r == NextStep::Fail(err))
            &&& (!(err is Reqwest) ==> (r is Retry <==> attempt < config.max_retries && retryable_kind(err)))
        })
}

/// Decide what follows attempt number `attempt` of a raw request, whose
/// answer is handed back whatever its status: 429 and 5xx answers are
/// retried while attempts are left, like failures to send.
pub fn raw_next_step(config: &RetryConfig, attempt: u32, outcome: AttemptOutcome) -> (r: NextStep)
    ensures
        raw_step_decided(*config, attempt, outcome, r),
{
    match outcome {
        AttemptOutcome::Status(status) => {
            if status == 429 {
                let err = DlsiteError::RateLimit(owned("Too many requests, please retry later"));
                match retry_or_fail(config, attempt, err) {
                    NextStep::Fail(_) => NextStep::ReadBody,
                    other => other,
                }
            } else if status >= 500 && !(200 <= status && status <= 299) {
                match retry_or_fail(config, attempt, DlsiteError::HttpStatus(status)) {
                    NextStep::Fail(_) => NextStep::ReadBody,
                    other => other,
                }
            } else {
                NextStep::ReadBody
            }
        },
        AttemptOutcome::SendFailed(err) => retry_or_fail(config, attempt, err),
    }
}

/// The error returned when every attempt was used up: the last error seen,
/// or a parse error "Unknown error" when there was none.
pub fn exhausted(last_error: Option<DlsiteError>) -> (e: DlsiteError)
    ensures
        last_error matches Some(l) ==> e == l,
        last_error is None ==> (e matches DlsiteError::Parse(m) && m@ == "Unknown error"@),
{
    match last_error {
        Some(e) => e,
        None => DlsiteError::Parse(owned("Unknown error")),
    }
}

/// The attempts of one request: how many were sent and whether the request
/// is over. A request is over once an attempt is read or failed for good,
/// and no more than `max_retries + 1` attempts are ever sent.
pub struct RequestSession {
    config: RetryConfig,
    sent: u64,
    finished: bool,
}

impl RequestSession {
    /// The retry policy the request follows.
    pub closed spec fn spec_config(&self) -> RetryConfig {
        self.config
    }

    /// Number of attempts whose outcome was handed in.
    pub closed spec fn spec_sent(&self) -> nat {
        self.sent as nat
    }

    /// Whether the request is over.
    pub closed spec fn spec_finished(&self) -> bool {
        self.finished
    }

    /// An unfinished request may send one more attempt.
    #[verifier::type_invariant]
    spec fn inv(&self) -> bool {
        &&& self.sent <= self.config.max_retries as nat + 1
        &&& (!self.finished ==> self.sent <= self.config.max_retries)
    }

    /// A request about to send its first attempt.
    pub fn new(config: RetryConfig) -> (r: Self)
        ensures
            r.spec_config() == config,
            r.spec_sent() == 0,
            !r.spec_finished(),
    {
        RequestSession { config, sent: 0, finished: false }
    }

    /// Whether the request is over.
    pub fn is_finished(&self) -> (r: bool)
        ensures
            r == self.spec_finished(),
    {
        self.finished
    }

    /// Number of attempts sent so far.
    pub fn sent(&self) -> (r: u64)
        ensures
            r == self.spec_sent(),
    {
        self.sent
    }

    /// Hand in what the attempt of a raw request just sent came back with,
    /// and learn what follows: [`raw_next_step`] for this attempt. As with
    /// [`Self::on_outcome`], the request is over unless the answer is a
    /// retry, and at most `max_retries + 1` attempts are handed in.
    pub fn on_raw_outcome(&mut self, outcome: AttemptOutcome) -> (r: NextStep)
        requires
            !old(self).spec_finished(),
        ensures
            raw_step_decided(old(self).spec_config(), old(self).spec_sent() as u32, outcome, r),
            final(self).spec_config() == old(self).spec_config(),
            final(self).spec_sent() == old(self).spec_sent() + 1,
            final(self).spec_sent() <= old(self).spec_config().max_retries + 1,
            final(self).spec_finished() == !(r is Retry),
    {
        proof {
            use_type_invariant(&*self);
        }
        let attempt = self.sent as u32;
        let r = raw_next_step(&self.config, attempt, outcome);
        let finished = match r {
            NextStep::Retry { .. } => false,
            _ => true,
        };
        self.finished = finished;
        self.sent = self.sent + 1;
        r
    }

    /// Hand in what the attempt just sent came back with, and learn what
    /// follows: [`next_step`] for this attempt. The request is over unless
    /// the answer is a retry, and at most `max_retries + 1` attempts are
    /// ever handed in.
    pub fn on_outcome(&mut self, outcome: AttemptOutcome) -> (r: NextStep)
        requires
            !old(self).spec_finished(),
        ensures
            step_decided(old(self).spec_config(), old(self).spec_sent() as u32, outcome, r),
            final(self).spec_config() == old(self).spec_config(),
            final(self).spec_sent() == old(self).spec_sent() + 1,
            final(self).spec_sent() <= old(self).spec_config().max_retries + 1,
            final(self).spec_finished() == !(r is Retry),
    {
        proof {
            use_type_invariant(&*self);
        }
        let attempt = self.sent as u32;
        let r = next_step(&self.config, attempt, outcome);
        let finished = match r {
            NextStep::Retry { .. } => false,
            _ => true,
        };
        self.finished = finished;
        self.sent = self.sent + 1;
        r
    }
}

} // verus!
