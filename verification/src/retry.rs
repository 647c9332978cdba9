//! The retry engine: how long to wait before another attempt, and what follows
//! each attempt.
//!
//! The engine is a function from the policy, the number of the attempt and what
//! the attempt came to, to the next step: wait and send again, or stop with the
//! payload or with a classified error. Whoever sends the request runs the loop.

use crate::config::RetryConfig;
use crate::datadog::{
    error_body, header_bytes, is_retryable_status, is_retryable_transport_error, parse_retry_after_ms,
    retry_after_ms_spec, retryable_status, truncate_for_error, DatadogError, DatadogErrorView,
    TransportFailure,
};
use crate::json::{decode_success_body, json_model, json_parse, success_document, JsonModel};
use crate::text::{decimal, decimal_string};
use vstd::arithmetic::power2::{lemma2_to64, lemma_pow2_strictly_increases, lemma_pow2_unfold, pow2};
use vstd::math::min;
use vstd::prelude::*;
use vstd::string::StringExecFns;

verus! {

/// The largest exponent of two by which the base delay is multiplied.
pub const MAX_BACKOFF_EXPONENT: u32 = 16;

/// The delay before the retry that follows attempt number `attempt` (counted
/// from zero): the base delay doubled once per earlier attempt, sixteen times at
/// most, and never more than the policy's ceiling.
pub open spec fn backoff_delay(policy: RetryConfig, attempt: u32) -> u64 {
    let exponent = if attempt < MAX_BACKOFF_EXPONENT {
        attempt
    } else {
        MAX_BACKOFF_EXPONENT
    };
    if policy.backoff_ms * pow2(exponent as nat) <= policy.max_backoff_ms {
        (policy.backoff_ms * pow2(exponent as nat)) as u64
    } else {
        policy.max_backoff_ms
    }
}

/// The delay before a retry: what the response asked for, and the computed
/// backoff where it asked for nothing.
pub open spec fn retry_delay(policy: RetryConfig, attempt: u32, retry_after_ms: Option<u64>) -> u64 {
    match retry_after_ms {
        Some(delay) => delay,
        None => backoff_delay(policy, attempt),
    }
}

impl RetryConfig {
    /// The computed delay before the retry that follows attempt number `attempt`.
    pub fn backoff_ms(&self, attempt: u32) -> (delay: u64)
        ensures
            delay == backoff_delay(*self, attempt),
    {
        let exponent: u32 = if attempt < MAX_BACKOFF_EXPONENT {
            attempt
        } else {
            MAX_BACKOFF_EXPONENT
        };
        let mut multiplier: u64 = 1;
        let mut doubled: u32 = 0;
        proof {
            lemma2_to64();
        }
        while doubled < exponent
            invariant
                doubled <= exponent <= 16,
                multiplier == pow2(doubled as nat),
                multiplier <= 65536,
            decreases exponent - doubled,
        {
            proof {
                lemma_pow2_unfold((doubled + 1) as nat);
                lemma_pow2_bounded((doubled + 1) as nat);
            }
            multiplier = multiplier * 2;
            doubled += 1;
        }
        match self.backoff_ms.checked_mul(multiplier) {
            Some(product) => if product <= self.max_backoff_ms {
                product
            } else {
                self.max_backoff_ms
            },
            None => self.max_backoff_ms,
        }
    }

    /// The delay before a retry, given what the response asked for.
    pub fn retry_delay_ms(&self, attempt: u32, retry_after_ms: Option<u64>) -> (delay: u64)
        ensures
            delay == retry_delay(*self, attempt, retry_after_ms),
    {
        match retry_after_ms {
            Some(delay) => delay,
            None => self.backoff_ms(attempt),
        }
    }
}

proof fn lemma_pow2_bounded(e: nat)
    requires
        e <= 16,
    ensures
        pow2(e) <= 65536,
    decreases 16 - e,
{
    lemma2_to64();
    if e < 16 {
        lemma_pow2_bounded(e + 1);
        lemma_pow2_unfold(e + 1);
    }
}

/// What one attempt to send a request came to.
#[derive(Debug, Clone, PartialEq, Eq)]
pub enum AttemptResult {
    /// No response arrived.
    SendFailed(TransportFailure),
    /// A response arrived, and its body could not be read.
    BodyUnreadable { status: u16, message: String },
    /// A response arrived whole. `retry_after` holds the bytes of the first
    /// `Retry-After` header, if there is one.
    Response { status: u16, retry_after: Option<Vec<u8>>, body: String },
}

/// What to do after an attempt.
#[derive(Debug, PartialEq, Eq)]
pub enum Step {
    /// Wait `delay_ms` milliseconds, then send the same request again, as attempt
    /// number `attempt`.
    Retry { delay_ms: u64, attempt: u32 },
    /// The request is over: its payload, or how it failed.
    Finished(Result<serde_json::Value, DatadogError>),
}

/// A [`Step`] with its payload and texts as mathematical values.
pub enum StepView {
    Retry { delay_ms: u64, attempt: u32 },
    Success(JsonModel),
    Failure(DatadogErrorView),
}

impl View for Step {
    type V = StepView;

    open spec fn view(&self) -> StepView {
        match self {
            Step::Retry { delay_ms, attempt } => StepView::Retry {
                delay_ms: *delay_ms,
                attempt: *attempt,
            },
            Step::Finished(Ok(payload)) => StepView::Success(json_model(*payload)),
            Step::Finished(Err(error)) => StepView::Failure(error@),
        }
    }
}

/// The number of attempts made once attempt number `attempt` has failed, in
/// decimal.
pub open spec fn attempts_made(attempt: u32) -> Seq<char> {
    decimal((attempt + 1) as nat)
}

/// What follows a transport failure: another attempt while the failure may pass
/// and retries are left, and an error otherwise.
pub open spec fn send_failed_step(policy: RetryConfig, attempt: u32, failure: TransportFailure) -> StepView {
    if !failure.retryable() {
        StepView::Failure(
            DatadogErrorView::InvalidRequest("Datadog request setup failed: "@ + failure.message@),
        )
    } else if attempt < policy.max_retries {
        StepView::Retry { delay_ms: backoff_delay(policy, attempt), attempt: (attempt + 1) as u32 }
    } else {
        StepView::Failure(
            DatadogErrorView::Retryable {
                status: None,
                message: "Datadog request failed after "@ + attempts_made(attempt)
                    + " attempt(s): "@ + failure.message@,
            },
        )
    }
}

/// What follows a response whose body could not be read.
pub open spec fn body_unreadable_step(
    policy: RetryConfig,
    attempt: u32,
    status: u16,
    message: Seq<char>,
) -> StepView {
    if attempt < policy.max_retries {
        StepView::Retry { delay_ms: backoff_delay(policy, attempt), attempt: (attempt + 1) as u32 }
    } else {
        StepView::Failure(
            DatadogErrorView::Retryable {
                status: Some(status),
                message: "Failed to read Datadog response after "@ + attempts_made(attempt)
                    + " attempt(s): "@ + message,
            },
        )
    }
}

/// What follows a response, by its status: a payload for 200 to 299; an
/// authentication error for 401 and 403; for 429 another attempt where the policy
/// retries rate limits and retries are left, and a rate-limit error otherwise;
/// for 408 and 500 to 599 another attempt while retries are left, and a
/// retryable error otherwise; an API error for every other status.
pub open spec fn response_step(
    policy: RetryConfig,
    attempt: u32,
    status: u16,
    retry_after_ms: Option<u64>,
    body: Seq<char>,
) -> StepView {
    if 200 <= status < 300 {
        StepView::Success(success_document(body, json_parse(body)))
    } else if status == 401 || status == 403 {
        StepView::Failure(DatadogErrorView::Auth { status, body: error_body(body) })
    } else if status == 429 {
        if policy.retry_rate_limit && attempt < policy.max_retries {
            StepView::Retry {
                delay_ms: retry_delay(policy, attempt, retry_after_ms),
                attempt: (attempt + 1) as u32,
            }
        } else {
            StepView::Failure(
                DatadogErrorView::RateLimited { body: error_body(body), retry_after_ms },
            )
        }
    } else if retryable_status(status) {
        if attempt < policy.max_retries {
            StepView::Retry {
                delay_ms: backoff_delay(policy, attempt),
                attempt: (attempt + 1) as u32,
            }
        } else {
            StepView::Failure(
                DatadogErrorView::Retryable {
                    status: Some(status),
                    message: "Datadog API returned "@ + decimal(status as nat) + " after "@
                        + attempts_made(attempt) + " attempt(s): "@ + error_body(body),
                },
            )
        }
    } else {
        StepView::Failure(DatadogErrorView::Api { status, body: error_body(body) })
    }
}

/// What follows attempt number `attempt` (counted from zero) under `policy`.
pub open spec fn next_step_spec(policy: RetryConfig, attempt: u32, result: AttemptResult) -> StepView {
    match result {
        AttemptResult::SendFailed(failure) => send_failed_step(policy, attempt, failure),
        AttemptResult::BodyUnreadable { status, message } => body_unreadable_step(
            policy,
            attempt,
            status,
            message@,
        ),
        AttemptResult::Response { status, retry_after, body } => response_step(
            policy,
            attempt,
            status,
            retry_after_ms_spec(header_bytes(retry_after)),
            body@,
        ),
    }
}

/// The number of attempts made once attempt number `attempt` has failed.
fn attempts_made_text(attempt: u32) -> (text: String)
    ensures
        text@ == attempts_made(attempt),
{
    decimal_string(attempt as u64 + 1)
}

impl RetryConfig {
    /// Decides what follows a response that arrived whole.
    pub fn after_response(
        &self,
        attempt: u32,
        status: u16,
        retry_after_ms: Option<u64>,
        body: &str,
    ) -> (step: Step)
        ensures
            step@ == response_step(*self, attempt, status, retry_after_ms, body@),
    {
        if 200 <= status && status < 300 {
            return Step::Finished(Ok(decode_success_body(body)));
        }
        let kept = truncate_for_error(body);
        if status == 401 || status == 403 {
            return Step::Finished(Err(DatadogError::Auth { status, body: kept }));
        }
        if status == 429 {
            if self.retry_rate_limit && attempt < self.max_retries {
                return Step::Retry {
                    delay_ms: self.retry_delay_ms(attempt, retry_after_ms),
                    attempt: attempt + 1,
                };
            }
            return Step::Finished(Err(DatadogError::RateLimited { body: kept, retry_after_ms }));
        }
        if is_retryable_status(status) {
            if attempt < self.max_retries {
                return Step::Retry { delay_ms: self.backoff_ms(attempt), attempt: attempt + 1 };
            }
            let mut message = "Datadog API returned ".to_owned();
            message.append(decimal_string(status as u64).as_str());
            message.append(" after ");
            message.append(attempts_made_text(attempt).as_str());
            message.append(" attempt(s): ");
            message.append(kept.as_str());
            return Step::Finished(Err(DatadogError::Retryable { status: Some(status), message }));
        }
        Step::Finished(Err(DatadogError::Api { status, body: kept }))
    }

    /// Decides what follows attempt number `attempt`, counted from zero, given
    /// what the attempt came to.
    pub fn next_step(&self, attempt: u32, result: AttemptResult) -> (step: Step)
        ensures
            step@ == next_step_spec(*self, attempt, result),
    {
        match result {
            AttemptResult::SendFailed(failure) => {
                if !is_retryable_transport_error(&failure) {
                    let mut message = "Datadog request setup failed: ".to_owned();
                    message.append(failure.message.as_str());
                    return Step::Finished(Err(DatadogError::InvalidRequest(message)));
                }
                if attempt < self.max_retries {
                    return Step::Retry { delay_ms: self.backoff_ms(attempt), attempt: attempt + 1 };
                }
                let mut message = "Datadog request failed after ".to_owned();
                message.append(attempts_made_text(attempt).as_str());
                message.append(" attempt(s): ");
                message.append(failure.message.as_str());
                Step::Finished(Err(DatadogError::Retryable { status: None, message }))
            },
            AttemptResult::BodyUnreadable { status, message } => {
                if attempt < self.max_retries {
                    return Step::Retry { delay_ms: self.backoff_ms(attempt), attempt: attempt + 1 };
                }
                let mut text = "Failed to read Datadog response after ".to_owned();
                text.append(attempts_made_text(attempt).as_str());
                text.append(" attempt(s): ");
                text.append(message.as_str());
                Step::Finished(Err(DatadogError::Retryable { status: Some(status), message: text }))
            },
            AttemptResult::Response { status, retry_after, body } => {
                let retry_after_ms = parse_retry_after_ms(&retry_after);
                self.after_response(attempt, status, retry_after_ms, body.as_str())
            },
        }
    }
}

/// How a request ends when the attempts from number `attempt` on come to
/// `results`, one after another. `None` where more attempts are asked for than
/// `results` holds.
pub open spec fn outcome_after(policy: RetryConfig, attempt: u32, results: Seq<AttemptResult>) -> Option<
    StepView,
>
    decreases results.len(),
{
    if results.len() == 0 {
        None
    } else {
        match next_step_spec(policy, attempt, results[0]) {
            StepView::Retry { delay_ms, attempt: next } => outcome_after(
                policy,
                next,
                results.drop_first(),
            ),
            finished => Some(finished),
        }
    }
}

/// The first retry waits for the base delay.
pub proof fn law_first_backoff(policy: RetryConfig)
    requires
        policy.wf(),
    ensures
        backoff_delay(policy, 0) == policy.backoff_ms,
{
    lemma2_to64();
    assert(pow2(0) == 1);
    assert(policy.backoff_ms * pow2(0) == policy.backoff_ms);
}

/// The delay before a retry is the base delay times two to the number of
/// earlier attempts, cut off at the policy's ceiling. This holds up to the
/// sixteenth doubling, and beyond it wherever sixteen doublings reach the
/// ceiling.
pub proof fn law_backoff_formula(policy: RetryConfig, attempt: u32)
    requires
        attempt <= MAX_BACKOFF_EXPONENT || policy.backoff_ms * pow2(MAX_BACKOFF_EXPONENT as nat)
            >= policy.max_backoff_ms,
    ensures
        backoff_delay(policy, attempt) == min(
            policy.backoff_ms * pow2(attempt as nat),
            policy.max_backoff_ms as int,
        ),
{
    if attempt > MAX_BACKOFF_EXPONENT {
        lemma_pow2_strictly_increases(MAX_BACKOFF_EXPONENT as nat, attempt as nat);
        assert(policy.backoff_ms * pow2(MAX_BACKOFF_EXPONENT as nat) <= policy.backoff_ms * pow2(
            attempt as nat,
        )) by (nonlinear_arith)
            requires
                pow2(MAX_BACKOFF_EXPONENT as nat) < pow2(attempt as nat),
                policy.backoff_ms >= 0,
        ;
    }
}

/// A later attempt never waits less than an earlier one.
pub proof fn law_backoff_monotonic(policy: RetryConfig, earlier: u32, later: u32)
    requires
        earlier <= later,
    ensures
        backoff_delay(policy, earlier) <= backoff_delay(policy, later),
{
    let low = if earlier < MAX_BACKOFF_EXPONENT {
        earlier
    } else {
        MAX_BACKOFF_EXPONENT
    };
    let high = if later < MAX_BACKOFF_EXPONENT {
        later
    } else {
        MAX_BACKOFF_EXPONENT
    };
    if low < high {
        lemma_pow2_strictly_increases(low as nat, high as nat);
        assert(policy.backoff_ms * pow2(low as nat) <= policy.backoff_ms * pow2(high as nat))
            by (nonlinear_arith)
            requires
                pow2(low as nat) < pow2(high as nat),
                policy.backoff_ms >= 0,
        ;
    }
}

/// Another attempt is asked for only while retries are left, and it bears the
/// next number.
pub proof fn law_retry_only_while_retries_left(
    policy: RetryConfig,
    attempt: u32,
    result: AttemptResult,
)
    ensures
        next_step_spec(policy, attempt, result) matches StepView::Retry { attempt: next, .. }
            ==> attempt < policy.max_retries && next == attempt + 1,
{
}

proof fn lemma_request_ends(policy: RetryConfig, attempt: u32, results: Seq<AttemptResult>)
    requires
        attempt <= policy.max_retries,
        results.len() > policy.max_retries - attempt,
    ensures
        outcome_after(policy, attempt, results) matches Some(step) && !(step is Retry),
    decreases results.len(),
{
    law_retry_only_while_retries_left(policy, attempt, results[0]);
    if next_step_spec(policy, attempt, results[0]) is Retry {
        lemma_request_ends(policy, (attempt + 1) as u32, results.drop_first());
    }
}

/// Every request ends: once one attempt more than the policy allows retries has
/// been made, at the latest, the payload or an error stands.
pub proof fn law_request_ends(policy: RetryConfig, results: Seq<AttemptResult>)
    requires
        results.len() > policy.max_retries,
    ensures
        outcome_after(policy, 0, results) matches Some(step) && !(step is Retry),
{
    lemma_request_ends(policy, 0, results);
}

/// A response with status 401 or 403 ends the request at once with an
/// authentication error: whatever the policy allows, however many attempts were
/// made, and whatever later attempts would have come to.
pub proof fn law_auth_never_retried(
    policy: RetryConfig,
    attempt: u32,
    result: AttemptResult,
    later: Seq<AttemptResult>,
)
    requires
        result matches AttemptResult::Response { status, .. } && (status == 401 || status == 403),
    ensures
        next_step_spec(policy, attempt, result) == StepView::Failure(
            DatadogErrorView::Auth { status: result->Response_status, body: error_body(result->body@) },
        ),
        outcome_after(policy, attempt, seq![result] + later) == Some(
            next_step_spec(policy, attempt, result),
        ),
{
    assert((seq![result] + later)[0] == result);
}

/// Under a policy that does not retry rate limits, a response with status 429
/// ends the request at once with a rate-limit error, however many retries are
/// left.
pub proof fn law_rate_limit_without_retry(
    policy: RetryConfig,
    attempt: u32,
    result: AttemptResult,
    later: Seq<AttemptResult>,
)
    requires
        result matches AttemptResult::Response { status, .. } && status == 429,
        !policy.retry_rate_limit,
    ensures
        next_step_spec(policy, attempt, result) == StepView::Failure(
            DatadogErrorView::RateLimited {
                body: error_body(result->body@),
                retry_after_ms: retry_after_ms_spec(header_bytes(result->retry_after)),
            },
        ),
        outcome_after(policy, attempt, seq![result] + later) == Some(
            next_step_spec(policy, attempt, result),
        ),
{
    assert((seq![result] + later)[0] == result);
}

/// Where a response with status 429 is retried and names a delay, the retry
/// waits for that delay and not for the computed backoff.
pub proof fn law_retry_after_sets_delay(
    policy: RetryConfig,
    attempt: u32,
    result: AttemptResult,
    delay: u64,
)
    requires
        result matches AttemptResult::Response { status, .. } && status == 429,
        retry_after_ms_spec(header_bytes(result->retry_after)) == Some(delay),
        policy.retry_rate_limit,
        attempt < policy.max_retries,
    ensures
        next_step_spec(policy, attempt, result) == (StepView::Retry {
            delay_ms: delay,
            attempt: (attempt + 1) as u32,
        }),
{
}

/// What is reported when the last attempt that the policy allows has met
/// `status` with `body`.
pub open spec fn exhausted_text(policy: RetryConfig, status: u16, body: Seq<char>) -> Seq<char> {
    "Datadog API returned "@ + decimal(status as nat) + " after "@ + decimal(
        (policy.max_retries + 1) as nat,
    ) + " attempt(s): "@ + error_body(body)
}

proof fn lemma_retries_exhausted(policy: RetryConfig, attempt: u32, results: Seq<AttemptResult>)
    requires
        attempt <= policy.max_retries,
        results.len() == policy.max_retries - attempt + 1,
        forall|i: int|
            0 <= i < results.len() ==> (#[trigger] results[i] matches AttemptResult::Response {
                status,
                ..
            } && retryable_status(status)),
    ensures
        outcome_after(policy, attempt, results) == Some(
            StepView::Failure(
                DatadogErrorView::Retryable {
                    status: Some(results.last()->Response_status),
                    message: exhausted_text(
                        policy,
                        results.last()->Response_status,
                        results.last()->body@,
                    ),
                },
            ),
        ),
    decreases results.len(),
{
    let first = results[0];
    if attempt < policy.max_retries {
        let rest = results.drop_first();
        assert forall|i: int| 0 <= i < rest.len() implies (#[trigger] rest[i] matches AttemptResult::Response {
            status,
            ..
        } && retryable_status(status)) by {
            assert(rest[i] == results[i + 1]);
        }
        lemma_retries_exhausted(policy, (attempt + 1) as u32, rest);
        assert(rest.last() == results.last());
    } else {
        assert(results.last() == first);
    }
}

/// Where every attempt meets a status that may pass (408, or 500 to 599), the
/// request ends with the attempt that follows the last retry: with a retryable
/// error that bears that attempt's status and names the number of attempts
/// made, one more than the retries that the policy allows.
pub proof fn law_retries_exhausted(policy: RetryConfig, results: Seq<AttemptResult>)
    requires
        results.len() == policy.max_retries + 1,
        forall|i: int|
            0 <= i < results.len() ==> (#[trigger] results[i] matches AttemptResult::Response {
                status,
                ..
            } && retryable_status(status)),
    ensures
        outcome_after(policy, 0, results) == Some(
            StepView::Failure(
                DatadogErrorView::Retryable {
                    status: Some(results.last()->Response_status),
                    message: exhausted_text(
                        policy,
                        results.last()->Response_status,
                        results.last()->body@,
                    ),
                },
            ),
        ),
{
    lemma_retries_exhausted(policy, 0, results);
}

/// Whether `text` ends with `tail`.
pub open spec fn ends_with(text: Seq<char>, tail: Seq<char>) -> bool {
    tail.len() <= text.len() && text.subrange(text.len() - tail.len(), text.len() as int) == tail
}

/// Every error that a response leads to carries the body in its bounded form:
/// as its body, or at the end of its message.
pub proof fn law_errors_carry_bounded_body(
    policy: RetryConfig,
    attempt: u32,
    status: u16,
    retry_after_ms: Option<u64>,
    body: Seq<char>,
)
    ensures
        match response_step(policy, attempt, status, retry_after_ms, body) {
            StepView::Failure(DatadogErrorView::Auth { body: kept, .. }) => kept == error_body(
                body,
            ),
            StepView::Failure(DatadogErrorView::RateLimited { body: kept, .. }) => kept
                == error_body(body),
            StepView::Failure(DatadogErrorView::Api { body: kept, .. }) => kept == error_body(body),
            StepView::Failure(DatadogErrorView::Retryable { message, .. }) => ends_with(
                message,
                error_body(body),
            ),
            _ => true,
        },
{
    match response_step(policy, attempt, status, retry_after_ms, body) {
        StepView::Failure(DatadogErrorView::Retryable { message, .. }) => {
            let tail = error_body(body);
            assert(message.subrange(message.len() - tail.len(), message.len() as int) =~= tail);
        },
        _ => {},
    }
}

} // verus!
