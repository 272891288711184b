//! The retry policy of one logical fetch: how many attempts are made, how
//! long to wait between them, and which error is reported when all of them
//! fail. The caller performs the attempts and the waits; this module decides.

use vstd::prelude::*;
use vstd::string::*;
use vstd::arithmetic::power2::{lemma_pow2_strictly_increases, lemma_pow2_unfold, pow2};
use crate::error::PolymarketError;
use crate::metrics::{bumped, Metrics};

verus! {

/// The wait after the failed attempt number `attempt`, in milliseconds: the
/// base delay doubled `attempt` times.
pub open spec fn backoff_ms(base: nat, attempt: nat) -> nat {
    base * pow2(attempt)
}

/// Every wait of a fetch with `max` attempts fits in 64 bits.
pub open spec fn delays_fit(max: nat, base: nat) -> bool {
    max >= 2 ==> backoff_ms(base, (max - 1) as nat) <= u64::MAX
}

/// The wait after the failed attempt number `attempt` of at most `max`: none
/// after the last one.
pub open spec fn wait_after(max: nat, base: nat, attempt: nat) -> Option<nat> {
    if attempt < max {
        Some(backoff_ms(base, attempt))
    } else {
        None
    }
}

proof fn lemma_backoff_monotonic(base: nat, a: nat, b: nat)
    requires
        a <= b,
    ensures
        backoff_ms(base, a) <= backoff_ms(base, b),
{
    if a < b {
        lemma_pow2_strictly_increases(a, b);
    }
    assert(base * pow2(a) <= base * pow2(b)) by (nonlinear_arith)
        requires
            pow2(a) <= pow2(b),
    ;
}

/// The wait after attempt `attempt`, if it fits in 64 bits.
pub fn checked_backoff(base: u64, attempt: u32) -> (r: Option<u64>)
    ensures
        r == if backoff_ms(base as nat, attempt as nat) <= u64::MAX {
            Some(backoff_ms(base as nat, attempt as nat) as u64)
        } else {
            None
        },
{
    if base == 0 {
        assert(backoff_ms(0, attempt as nat) == 0) by (nonlinear_arith)
            requires
                backoff_ms(0, attempt as nat) == 0 * pow2(attempt as nat),
        ;
        return Some(0);
    }
    let mut d: u64 = base;
    let mut i: u32 = 0;
    proof {
        lemma_pow2_unfold(1);
        vstd::arithmetic::power2::lemma2_to64();
    }
    while i < attempt
        invariant
            i <= attempt,
            base > 0,
            d == backoff_ms(base as nat, i as nat),
        decreases attempt - i,
    {
        proof {
            lemma_pow2_unfold((i + 1) as nat);
            assert(base * (2 * pow2(i as nat)) == 2 * (base * pow2(i as nat))) by (nonlinear_arith);
        }
        match d.checked_mul(2) {
            Some(next) => {
                d = next;
            },
            None => {
                proof {
                    lemma_backoff_monotonic(base as nat, (i + 1) as nat, attempt as nat);
                }
                return None;
            },
        }
        i = i + 1;
    }
    Some(d)
}

/// The error of a policy whose waits do not fit in 64 bits.
pub open spec fn is_range_error(e: PolymarketError) -> bool {
    e matches PolymarketError::ConfigError { message } && message@
        == "Retry delay exceeds the representable range"@
}

/// How a fetch retries.
#[derive(Debug, Clone, Copy)]
pub struct RetryPolicy {
    max_retries: u32,
    base_delay_ms: u64,
}

impl RetryPolicy {
    #[verifier::type_invariant]
    closed spec fn fits(&self) -> bool {
        delays_fit(self.max_retries as nat, self.base_delay_ms as nat)
    }

    /// The largest number of attempts of one fetch.
    pub closed spec fn max_attempts(&self) -> nat {
        self.max_retries as nat
    }

    /// The base delay in milliseconds.
    pub closed spec fn base_delay(&self) -> nat {
        self.base_delay_ms as nat
    }

    /// A policy of at most `max_retries` attempts with waits that start from
    /// `base_delay_ms`; refused as a configuration error where a wait would
    /// not fit in 64 bits.
    pub fn new(max_retries: u32, base_delay_ms: u64) -> (r: Result<RetryPolicy, PolymarketError>)
        ensures
            match r {
                Ok(p) => delays_fit(max_retries as nat, base_delay_ms as nat) && p.max_attempts()
                    == max_retries && p.base_delay() == base_delay_ms,
                Err(e) => !delays_fit(max_retries as nat, base_delay_ms as nat) && is_range_error(e),
            },
    {
        if max_retries >= 2 && checked_backoff(base_delay_ms, max_retries - 1).is_none() {
            Err(PolymarketError::config_error("Retry delay exceeds the representable range"))
        } else {
            Ok(RetryPolicy { max_retries, base_delay_ms })
        }
    }

    /// The largest number of attempts of one fetch.
    pub fn max_retries(&self) -> (n: u32)
        ensures
            n == self.max_attempts(),
    {
        self.max_retries
    }

    /// The base delay in milliseconds.
    pub fn base_delay_ms(&self) -> (d: u64)
        ensures
            d == self.base_delay(),
    {
        self.base_delay_ms
    }

    /// The wait after the failed attempt number `attempt` (counted from 1),
    /// in milliseconds; none after the last attempt.
    pub fn delay_after(&self, attempt: u32) -> (r: Option<u64>)
        ensures
            match r {
                Some(d) => wait_after(self.max_attempts(), self.base_delay(), attempt as nat)
                    == Some(d as nat),
                None => wait_after(self.max_attempts(), self.base_delay(), attempt as nat) is None,
            },
    {
        proof {
            use_type_invariant(self);
        }
        if attempt < self.max_retries {
            proof {
                vstd::arithmetic::power2::lemma2_to64();
                lemma_backoff_monotonic(
                    self.base_delay_ms as nat,
                    attempt as nat,
                    (self.max_retries - 1) as nat,
                );
                assert(self.base_delay_ms * 1 == self.base_delay_ms) by (nonlinear_arith);
            }
            checked_backoff(self.base_delay_ms, attempt)
        } else {
            None
        }
    }
}

/// How one attempt ended.
#[derive(Debug)]
pub enum AttemptOutcome {
    /// A 2xx answer whose body decoded.
    Decoded,
    /// A 2xx answer whose body did not decode: the decoder's words and the body.
    Undecodable { detail: String, body: String },
    /// A 2xx answer whose body could not be read.
    Unreadable { detail: String },
    /// An answer outside 2xx: its status and body.
    Rejected { status: u16, body: String },
    /// No answer: the transport failed.
    Unreachable { detail: String },
}

/// The first 200 characters of a body, or all of it where it is shorter.
pub open spec fn snippet(body: Seq<char>) -> Seq<char> {
    if body.len() <= 200 {
        body
    } else {
        body.take(200)
    }
}

/// The error that a failed attempt is reported as. A decoded answer is no
/// failure and has none.
pub open spec fn failure_of(outcome: AttemptOutcome, e: PolymarketError) -> bool {
    match outcome {
        AttemptOutcome::Decoded => false,
        AttemptOutcome::Undecodable { detail, body } => e matches PolymarketError::DeserializationError {
            message,
        } && message@ == "JSON parsing error: "@ + detail@ + " - Response: "@ + snippet(body@),
        AttemptOutcome::Unreadable { detail } => e matches PolymarketError::NetworkError { message }
            && message@ == "Response reading error: "@ + detail@,
        AttemptOutcome::Rejected { status, body } => e matches PolymarketError::ApiError {
            message,
            status_code,
            request_id,
        } && message@ == "HTTP error: "@ + body@ && status_code == Some(status),
        AttemptOutcome::Unreachable { detail } => e matches PolymarketError::NetworkError { message }
            && message@ == "Request error: "@ + detail@,
    }
}

/// The error of running out of attempts without any of them captured.
pub open spec fn is_exhausted_error(e: PolymarketError) -> bool {
    e matches PolymarketError::NetworkError { message } && message@ == "All retry attempts failed"@
}

/// The step that gives up for want of any attempt.
pub open spec fn is_exhausted_step(step: FetchStep) -> bool {
    step matches FetchStep::GiveUp { error } && is_exhausted_error(error)
}

/// Reports a failed attempt as an error; a decoded answer has none.
pub fn error_of(outcome: &AttemptOutcome) -> (r: Option<PolymarketError>)
    ensures
        match r {
            Some(e) => failure_of(*outcome, e),
            None => outcome is Decoded,
        },
{
    match outcome {
        AttemptOutcome::Decoded => None,
        AttemptOutcome::Undecodable { detail, body } => {
            let len = body.as_str().unicode_len();
            let shown = if len <= 200 {
                body.as_str()
            } else {
                body.as_str().substring_char(0, 200)
            };
            let mut m = String::from_str("JSON parsing error: ");
            m.append(detail.as_str());
            m.append(" - Response: ");
            m.append(shown);
            Some(PolymarketError::deserialization_error(m.as_str()))
        },
        AttemptOutcome::Unreadable { detail } => {
            let mut m = String::from_str("Response reading error: ");
            m.append(detail.as_str());
            Some(PolymarketError::network_error(m.as_str()))
        },
        AttemptOutcome::Rejected { status, body } => {
            let mut m = String::from_str("HTTP error: ");
            m.append(body.as_str());
            Some(PolymarketError::api_error(m.as_str(), Some(*status)))
        },
        AttemptOutcome::Unreachable { detail } => {
            let mut m = String::from_str("Request error: ");
            m.append(detail.as_str());
            Some(PolymarketError::network_error(m.as_str()))
        },
    }
}

/// What the caller of a fetch does next.
#[derive(Debug)]
pub enum FetchStep {
    /// Issue the request now.
    Attempt,
    /// Wait for `delay_ms` milliseconds, then issue the request.
    RetryAfter { delay_ms: u64 },
    /// The fetch succeeded: the decoded answer stands.
    Done,
    /// The fetch failed with `error`.
    GiveUp { error: PolymarketError },
}

/// `step` is what follows `outcome` in the state `fetch`, which counts the
/// attempt that `outcome` ended: a decoded answer ends the fetch; a failure
/// is retried after the wait of the policy, and reported after the last
/// attempt.
pub open spec fn follows(fetch: Fetch, outcome: AttemptOutcome, step: FetchStep) -> bool {
    let wait = wait_after(
        fetch.policy().max_attempts(),
        fetch.policy().base_delay(),
        fetch.attempts_made(),
    );
    match step {
        FetchStep::Attempt => false,
        FetchStep::Done => outcome is Decoded,
        FetchStep::RetryAfter { delay_ms } => !(outcome is Decoded) && wait == Some(delay_ms as nat),
        FetchStep::GiveUp { error } => failure_of(outcome, error) && wait is None,
    }
}

/// The progress of one logical fetch: the attempts that have ended.
#[derive(Debug)]
pub struct Fetch {
    policy: RetryPolicy,
    attempts: u32,
}

impl Fetch {
    #[verifier::type_invariant]
    closed spec fn within_policy(&self) -> bool {
        self.attempts <= self.policy.max_retries
    }

    /// The attempts that have ended.
    pub closed spec fn attempts_made(&self) -> nat {
        self.attempts as nat
    }

    /// The policy of this fetch.
    pub closed spec fn policy(&self) -> RetryPolicy {
        self.policy
    }

    /// The attempts that have ended.
    pub fn attempts(&self) -> (n: u32)
        ensures
            n == self.attempts_made(),
    {
        self.attempts
    }

    /// Starts a fetch and counts it as one request. With no attempt allowed
    /// it fails at once, and is counted as failed.
    pub fn begin(policy: RetryPolicy, metrics: &mut Metrics) -> (r: (Fetch, FetchStep))
        ensures
            is_begin_of(policy, *old(metrics), r.0, r.1, *final(metrics)),
    {
        metrics.increment_api_requests();
        let fetch = Fetch { policy, attempts: 0 };
        if policy.max_retries() == 0 {
            metrics.increment_api_failures();
            (fetch, FetchStep::GiveUp { error: PolymarketError::network_error("All retry attempts failed") })
        } else {
            (fetch, FetchStep::Attempt)
        }
    }

    /// Takes note of how an attempt ended and decides what follows: a
    /// decoded answer ends the fetch; a failure is retried after the wait of
    /// the policy, and after the last attempt it is reported, and the fetch
    /// is counted as failed. An outcome that is handed in after the last
    /// attempt is treated as that of the last attempt.
    pub fn record(&mut self, outcome: &AttemptOutcome, metrics: &mut Metrics) -> (step: FetchStep)
        ensures
            is_record_of(*old(self), *outcome, *old(metrics), *final(self), step, *final(metrics)),
    {
        proof {
            use_type_invariant(&*self);
        }
        let made = if self.attempts < self.policy.max_retries() {
            self.attempts + 1
        } else {
            self.attempts
        };
        *self = Fetch { policy: self.policy, attempts: made };
        match error_of(outcome) {
            None => FetchStep::Done,
            Some(error) => {
                match self.policy.delay_after(made) {
                    Some(delay_ms) => FetchStep::RetryAfter { delay_ms },
                    None => {
                        metrics.increment_api_failures();
                        FetchStep::GiveUp { error }
                    },
                }
            },
        }
    }
}

/// `fetch`, `step` and `after` are what starting a fetch under `policy`
/// gives: no attempt has ended, and the fetch is counted as one request.
/// Where the policy allows an attempt, it is made; where it allows none,
/// the fetch fails at once and is counted as failed.
pub open spec fn is_begin_of(
    policy: RetryPolicy,
    before: Metrics,
    fetch: Fetch,
    step: FetchStep,
    after: Metrics,
) -> bool {
    &&& fetch.policy() == policy
    &&& fetch.attempts_made() == 0
    &&& if policy.max_attempts() > 0 {
        step is Attempt && after == (Metrics {
            api_requests_total: bumped(before.api_requests_total),
            ..before
        })
    } else {
        is_exhausted_step(step) && after == (Metrics {
            api_requests_total: bumped(before.api_requests_total),
            api_requests_failed: bumped(before.api_requests_failed),
            ..before
        })
    }
}

/// `fetch`, `step` and `after` are what taking note of `outcome` gives: the
/// attempt is counted, unless all attempts had been made already; the step
/// follows from the outcome; and a fetch that gives up is counted as failed.
pub open spec fn is_record_of(
    previous: Fetch,
    outcome: AttemptOutcome,
    before: Metrics,
    fetch: Fetch,
    step: FetchStep,
    after: Metrics,
) -> bool {
    &&& fetch.policy() == previous.policy()
    &&& fetch.attempts_made() == if previous.attempts_made() < previous.policy().max_attempts() {
        previous.attempts_made() + 1
    } else {
        previous.attempts_made()
    }
    &&& follows(fetch, outcome, step)
    &&& after == if step is GiveUp {
        Metrics { api_requests_failed: bumped(before.api_requests_failed), ..before }
    } else {
        before
    }
}

/// The attempts and the total wait of a fetch of which every attempt fails,
/// from the state in which `made` attempts have ended.
pub open spec fn failing_run(max: nat, base: nat, made: nat) -> (nat, nat)
    decreases max - made,
{
    if made >= max {
        (made, 0)
    } else {
        match wait_after(max, base, made + 1) {
            Some(wait) => {
                let rest = failing_run(max, base, made + 1);
                (rest.0, wait + rest.1)
            },
            None => (made + 1, 0),
        }
    }
}

proof fn lemma_failing_run_from(max: nat, base: nat, made: nat)
    requires
        made < max,
    ensures
        failing_run(max, base, made).0 == max,
        failing_run(max, base, made).1 + base * pow2(made + 1) == base * pow2(max),
    decreases max - made,
{
    if made + 1 < max {
        lemma_failing_run_from(max, base, made + 1);
        lemma_pow2_unfold(made + 2);
        assert(base * pow2(made + 1) + base * pow2(made + 1) == base * (2 * pow2(made + 1)))
            by (nonlinear_arith);
    }
}

/// A fetch against an endpoint that always fails makes exactly as many
/// attempts as the policy allows, and waits in total for the base delay
/// times `2^1 + 2^2 + ... + 2^(max-1)`, which is `2^max - 2`: there is no
/// wait after the last attempt.
pub proof fn lemma_always_failing_fetch(max: nat, base: nat)
    requires
        max >= 1,
    ensures
        failing_run(max, base, 0).0 == max,
        failing_run(max, base, 0).1 == base * (pow2(max) - 2),
{
    lemma_failing_run_from(max, base, 0);
    vstd::arithmetic::power2::lemma2_to64();
    assert(base * pow2(max) - base * 2 == base * (pow2(max) - 2)) by (nonlinear_arith);
}

} // verus!
