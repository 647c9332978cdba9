use ddq::config::{Config, RetryConfig};
use ddq::datadog::{
    is_retryable_status, is_retryable_transport_error, parse_retry_after_ms, truncate_for_error,
    DatadogClient, DatadogError, TransportFailure,
};
use ddq::retry::{AttemptResult, Step};

fn policy(max_retries: u32, retry_rate_limit: bool) -> RetryConfig {
    RetryConfig { max_retries, backoff_ms: 250, max_backoff_ms: 5_000, retry_rate_limit }
}

fn response(status: u16, retry_after: Option<&str>, body: &str) -> AttemptResult {
    AttemptResult::Response {
        status,
        retry_after: retry_after.map(|value| value.as_bytes().to_vec()),
        body: body.to_string(),
    }
}

fn failure(timeout: bool, connect: bool, body: bool, request: bool) -> TransportFailure {
    TransportFailure { timeout, connect, body, request, message: "boom".to_string() }
}

fn json(text: &str) -> serde_json::Value {
    serde_json::from_str(text).unwrap()
}

/// Runs the retry loop over the results of the attempts, and returns how the
/// request ended, the delays that were waited for, and the attempts made.
fn drive(
    policy: &RetryConfig,
    results: Vec<AttemptResult>,
) -> (Result<serde_json::Value, DatadogError>, Vec<u64>, usize) {
    let mut attempt: u32 = 0;
    let mut delays = Vec::new();
    let mut made = 0;
    for result in results {
        made += 1;
        match policy.next_step(attempt, result) {
            Step::Retry { delay_ms, attempt: next } => {
                assert_eq!(next, attempt + 1);
                delays.push(delay_ms);
                attempt = next;
            }
            Step::Finished(outcome) => return (outcome, delays, made),
        }
    }
    panic!("the request did not end");
}

#[test]
fn backoff_doubles_up_to_the_ceiling() {
    let policy = policy(10, true);
    assert_eq!(policy.backoff_ms(0), 250);
    assert_eq!(policy.backoff_ms(1), 500);
    assert_eq!(policy.backoff_ms(2), 1_000);
    assert_eq!(policy.backoff_ms(3), 2_000);
    assert_eq!(policy.backoff_ms(4), 4_000);
    assert_eq!(policy.backoff_ms(5), 5_000);
    assert_eq!(policy.backoff_ms(6), 5_000);
    assert_eq!(policy.backoff_ms(u32::MAX), 5_000);
}

#[test]
fn backoff_exponent_is_capped_at_sixteen() {
    let policy =
        RetryConfig { max_retries: 40, backoff_ms: 1, max_backoff_ms: u64::MAX, retry_rate_limit: true };
    assert_eq!(policy.backoff_ms(15), 32_768);
    assert_eq!(policy.backoff_ms(16), 65_536);
    assert_eq!(policy.backoff_ms(17), 65_536);
    assert_eq!(policy.backoff_ms(40), 65_536);
}

#[test]
fn backoff_that_overflows_is_the_ceiling() {
    let policy = RetryConfig {
        max_retries: 3,
        backoff_ms: u64::MAX / 2,
        max_backoff_ms: u64::MAX,
        retry_rate_limit: true,
    };
    assert_eq!(policy.backoff_ms(0), u64::MAX / 2);
    assert_eq!(policy.backoff_ms(1), u64::MAX - 1);
    assert_eq!(policy.backoff_ms(2), u64::MAX);
    assert_eq!(policy.backoff_ms(16), u64::MAX);
}

#[test]
fn backoff_never_decreases() {
    let policy = policy(30, true);
    let mut last = 0;
    for attempt in 0..30 {
        let delay = policy.backoff_ms(attempt);
        assert!(delay >= last);
        assert!(delay <= 5_000);
        last = delay;
    }
}

#[test]
fn retry_delay_prefers_what_the_response_asked_for() {
    let policy = policy(3, true);
    assert_eq!(policy.retry_delay_ms(2, Some(2_000)), 2_000);
    assert_eq!(policy.retry_delay_ms(2, Some(0)), 0);
    assert_eq!(policy.retry_delay_ms(2, None), 1_000);
}

#[test]
fn auth_errors_are_never_retried() {
    let policy = policy(5, true);
    for status in [401u16, 403] {
        let step = policy.next_step(0, response(status, Some("1"), "denied"));
        assert_eq!(
            step,
            Step::Finished(Err(DatadogError::Auth { status, body: "denied".to_string() }))
        );
    }
    let (outcome, delays, made) =
        drive(&policy, vec![response(401, None, "no"), response(200, None, "{}")]);
    assert_eq!(outcome, Err(DatadogError::Auth { status: 401, body: "no".to_string() }));
    assert!(delays.is_empty());
    assert_eq!(made, 1);
}

#[test]
fn rate_limit_without_retry_ends_at_the_first_attempt() {
    let policy = policy(3, false);
    let (outcome, delays, made) =
        drive(&policy, vec![response(429, Some("2"), "slow down"), response(200, None, "{}")]);
    assert_eq!(
        outcome,
        Err(DatadogError::RateLimited {
            body: "slow down".to_string(),
            retry_after_ms: Some(2_000)
        })
    );
    assert!(delays.is_empty());
    assert_eq!(made, 1);
}

#[test]
fn rate_limit_retry_waits_for_retry_after() {
    let policy = policy(1, true);
    assert_eq!(
        policy.next_step(0, response(429, Some("2"), "")),
        Step::Retry { delay_ms: 2_000, attempt: 1 }
    );
    assert_eq!(
        policy.next_step(0, response(429, None, "")),
        Step::Retry { delay_ms: 250, attempt: 1 }
    );
    assert_eq!(
        policy.next_step(0, response(429, Some("Wed, 21 Oct 2015 07:28:00 GMT"), "")),
        Step::Retry { delay_ms: 250, attempt: 1 }
    );
}

#[test]
fn rate_limit_ends_when_retries_are_used_up() {
    let policy = policy(2, true);
    let (outcome, delays, made) = drive(
        &policy,
        vec![
            response(429, Some("1"), "a"),
            response(429, None, "b"),
            response(429, Some("3"), "c"),
            response(200, None, "{}"),
        ],
    );
    assert_eq!(
        outcome,
        Err(DatadogError::RateLimited { body: "c".to_string(), retry_after_ms: Some(3_000) })
    );
    assert_eq!(delays, vec![1_000, 500]);
    assert_eq!(made, 3);
}

#[test]
fn exhausted_retries_on_503_report_the_attempts() {
    let policy = policy(3, true);
    let (outcome, delays, made) = drive(
        &policy,
        vec![
            response(503, None, "down"),
            response(503, None, "down"),
            response(503, None, "down"),
            response(503, None, "still down"),
            response(200, None, "{}"),
        ],
    );
    assert_eq!(
        outcome,
        Err(DatadogError::Retryable {
            status: Some(503),
            message: "Datadog API returned 503 after 4 attempt(s): still down".to_string(),
        })
    );
    assert_eq!(delays, vec![250, 500, 1_000]);
    assert_eq!(made, 4);
}

#[test]
fn retryable_statuses_ignore_retry_after() {
    let policy = policy(3, true);
    assert_eq!(
        policy.next_step(1, response(503, Some("9"), "")),
        Step::Retry { delay_ms: 500, attempt: 2 }
    );
    assert_eq!(
        policy.next_step(0, response(408, Some("9"), "")),
        Step::Retry { delay_ms: 250, attempt: 1 }
    );
}

#[test]
fn zero_retries_fail_at_once() {
    let policy = policy(0, true);
    assert_eq!(
        policy.next_step(0, response(500, None, "x")),
        Step::Finished(Err(DatadogError::Retryable {
            status: Some(500),
            message: "Datadog API returned 500 after 1 attempt(s): x".to_string(),
        }))
    );
    assert_eq!(
        policy.next_step(0, response(429, Some("5"), "x")),
        Step::Finished(Err(DatadogError::RateLimited {
            body: "x".to_string(),
            retry_after_ms: Some(5_000)
        }))
    );
}

#[test]
fn other_statuses_are_api_errors() {
    let policy = policy(3, true);
    for status in [400u16, 404, 409, 422, 300, 302, 199, 100, 600, 999] {
        assert_eq!(
            policy.next_step(0, response(status, Some("1"), "nope")),
            Step::Finished(Err(DatadogError::Api { status, body: "nope".to_string() }))
        );
    }
}

#[test]
fn retryable_statuses_are_408_and_5xx() {
    assert!(is_retryable_status(408));
    assert!(is_retryable_status(500));
    assert!(is_retryable_status(503));
    assert!(is_retryable_status(599));
    assert!(!is_retryable_status(600));
    assert!(!is_retryable_status(499));
    assert!(!is_retryable_status(429));
    assert!(!is_retryable_status(401));
    assert!(!is_retryable_status(200));
}

#[test]
fn success_with_empty_body_is_an_empty_object() {
    let policy = policy(3, true);
    assert_eq!(policy.next_step(0, response(200, None, "")), Step::Finished(Ok(json("{}"))));
    assert_eq!(policy.next_step(3, response(204, None, "")), Step::Finished(Ok(json("{}"))));
}

#[test]
fn success_with_body_of_white_space_is_wrapped_as_raw() {
    let policy = policy(3, true);
    assert_eq!(
        policy.next_step(0, response(200, None, "  ")),
        Step::Finished(Ok(json("{\"raw\":\"  \"}")))
    );
    assert_eq!(
        policy.next_step(0, response(204, None, " \r\n")),
        Step::Finished(Ok(json("{\"raw\":\" \\r\\n\"}")))
    );
}

#[test]
fn success_with_text_body_is_wrapped_as_raw() {
    let policy = policy(3, true);
    assert_eq!(
        policy.next_step(0, response(200, None, "not json")),
        Step::Finished(Ok(json("{\"raw\":\"not json\"}")))
    );
}

#[test]
fn success_with_json_body_is_parsed() {
    let policy = policy(3, true);
    assert_eq!(
        policy.next_step(2, response(299, None, " {\"data\":[1,2.5,null,\"x\"]} ")),
        Step::Finished(Ok(json("{\"data\":[1,2.5,null,\"x\"]}")))
    );
    assert_eq!(policy.next_step(0, response(200, None, "[]")), Step::Finished(Ok(json("[]"))));
}

#[test]
fn transport_failures_are_retried_while_retries_are_left() {
    let policy = policy(2, true);
    let send_failed = || AttemptResult::SendFailed(failure(true, false, false, false));
    let (outcome, delays, made) = drive(&policy, vec![send_failed(), send_failed(), send_failed()]);
    assert_eq!(
        outcome,
        Err(DatadogError::Retryable {
            status: None,
            message: "Datadog request failed after 3 attempt(s): boom".to_string(),
        })
    );
    assert_eq!(delays, vec![250, 500]);
    assert_eq!(made, 3);
}

#[test]
fn transport_failures_that_cannot_pass_are_invalid_requests() {
    let policy = policy(2, true);
    assert_eq!(
        policy.next_step(0, AttemptResult::SendFailed(failure(false, false, false, false))),
        Step::Finished(Err(DatadogError::InvalidRequest(
            "Datadog request setup failed: boom".to_string()
        )))
    );
}

#[test]
fn transport_failure_kinds() {
    assert!(is_retryable_transport_error(&failure(true, false, false, false)));
    assert!(is_retryable_transport_error(&failure(false, true, false, false)));
    assert!(is_retryable_transport_error(&failure(false, false, true, false)));
    assert!(is_retryable_transport_error(&failure(false, false, false, true)));
    assert!(!is_retryable_transport_error(&failure(false, false, false, false)));
}

#[test]
fn unreadable_bodies_are_retried_while_retries_are_left() {
    let policy = policy(1, true);
    let unreadable =
        || AttemptResult::BodyUnreadable { status: 200, message: "reset".to_string() };
    assert_eq!(policy.next_step(0, unreadable()), Step::Retry { delay_ms: 250, attempt: 1 });
    assert_eq!(
        policy.next_step(1, unreadable()),
        Step::Finished(Err(DatadogError::Retryable {
            status: Some(200),
            message: "Failed to read Datadog response after 2 attempt(s): reset".to_string(),
        }))
    );
}

#[test]
fn attempt_count_does_not_overflow() {
    let policy = policy(u32::MAX, true);
    assert_eq!(
        policy.next_step(u32::MAX, response(503, None, "")),
        Step::Finished(Err(DatadogError::Retryable {
            status: Some(503),
            message: "Datadog API returned 503 after 4294967296 attempt(s): ".to_string(),
        }))
    );
}

#[test]
fn retry_after_is_read_as_seconds() {
    let read = |value: &str| parse_retry_after_ms(&Some(value.as_bytes().to_vec()));
    assert_eq!(read("2"), Some(2_000));
    assert_eq!(read(" 7 "), Some(7_000));
    assert_eq!(read("\t7"), Some(7_000));
    assert_eq!(read("+3"), Some(3_000));
    assert_eq!(read("0"), Some(0));
    assert_eq!(read(""), None);
    assert_eq!(read("-1"), None);
    assert_eq!(read("1.5"), None);
    assert_eq!(read("soon"), None);
    assert_eq!(read("Wed, 21 Oct 2015 07:28:00 GMT"), None);
    assert_eq!(read("18446744073709551615"), Some(u64::MAX));
    assert_eq!(read("18446744073709552"), Some(u64::MAX));
    assert_eq!(read("18446744073709551"), Some(18_446_744_073_709_551_000));
    assert_eq!(read("18446744073709551616"), None);
    assert_eq!(parse_retry_after_ms(&None), None);
}

#[test]
fn retry_after_with_other_bytes_is_ignored() {
    assert_eq!(parse_retry_after_ms(&Some(vec![b'2', 0x80])), None);
    assert_eq!(parse_retry_after_ms(&Some(vec![b'2', 0x7f])), None);
    assert_eq!(parse_retry_after_ms(&Some(vec![0x1f, b'2'])), None);
    assert_eq!(parse_retry_after_ms(&Some(vec![0xc3, 0xa9])), None);
    assert_eq!(parse_retry_after_ms(&Some(vec![b'2', b'\n'])), None);
    assert_eq!(parse_retry_after_ms(&Some(vec![b' ', b'2', b'\t'])), Some(2_000));
}

#[test]
fn short_bodies_are_kept_whole() {
    assert_eq!(truncate_for_error(""), "");
    assert_eq!(truncate_for_error("oops"), "oops");
    let exact = "x".repeat(2_048);
    assert_eq!(truncate_for_error(&exact), exact);
}

#[test]
fn long_bodies_are_truncated_with_a_mark() {
    let long = "x".repeat(2_049);
    let kept = truncate_for_error(&long);
    assert_eq!(kept, format!("{}...(truncated)", "x".repeat(2_048)));
    let longer = "y".repeat(100_000);
    assert_eq!(truncate_for_error(&longer), format!("{}...(truncated)", "y".repeat(2_048)));
}

#[test]
fn truncation_keeps_whole_characters() {
    let body = format!("{}\u{e9}tail", "x".repeat(2_047));
    assert_eq!(body.len(), 2_053);
    assert_eq!(truncate_for_error(&body), format!("{}...(truncated)", "x".repeat(2_047)));
    let body = format!("{}\u{e9}tail", "x".repeat(2_046));
    assert_eq!(truncate_for_error(&body), format!("{}\u{e9}...(truncated)", "x".repeat(2_046)));
    let wide = "\u{1f600}".repeat(600);
    assert_eq!(truncate_for_error(&wide), format!("{}...(truncated)", "\u{1f600}".repeat(512)));
}

#[test]
fn every_error_category_carries_the_truncated_body() {
    let policy = policy(0, true);
    let long = "z".repeat(3_000);
    let kept = format!("{}...(truncated)", "z".repeat(2_048));
    assert_eq!(
        policy.next_step(0, response(401, None, &long)),
        Step::Finished(Err(DatadogError::Auth { status: 401, body: kept.clone() }))
    );
    assert_eq!(
        policy.next_step(0, response(429, None, &long)),
        Step::Finished(Err(DatadogError::RateLimited { body: kept.clone(), retry_after_ms: None }))
    );
    assert_eq!(
        policy.next_step(0, response(502, None, &long)),
        Step::Finished(Err(DatadogError::Retryable {
            status: Some(502),
            message: format!("Datadog API returned 502 after 1 attempt(s): {}", kept),
        }))
    );
    assert_eq!(
        policy.next_step(0, response(404, None, &long)),
        Step::Finished(Err(DatadogError::Api { status: 404, body: kept }))
    );
}

#[test]
fn errors_read_as_one_line() {
    assert_eq!(DatadogError::InvalidRequest("bad".to_string()).to_text(), "bad");
    assert_eq!(
        DatadogError::Auth { status: 403, body: "denied".to_string() }.to_text(),
        "Datadog auth error (403): denied"
    );
    assert_eq!(
        DatadogError::RateLimited { body: "slow".to_string(), retry_after_ms: Some(1_500) }
            .to_text(),
        "Datadog rate limited request (429, retry_after_ms=1500): slow"
    );
    assert_eq!(
        DatadogError::RateLimited { body: "slow".to_string(), retry_after_ms: None }.to_text(),
        "Datadog rate limited request (429): slow"
    );
    assert_eq!(
        DatadogError::Retryable { status: Some(503), message: "down".to_string() }.to_text(),
        "Datadog retryable upstream error (503): down"
    );
    assert_eq!(
        DatadogError::Retryable { status: None, message: "timeout".to_string() }.to_text(),
        "Datadog retryable transport error: timeout"
    );
    assert_eq!(
        DatadogError::Api { status: 404, body: "missing".to_string() }.to_text(),
        "Datadog API error (404): missing"
    );
}

#[test]
fn client_decides_by_its_policy() {
    let client = DatadogClient::new(Config {
        api_key: "k".to_string(),
        app_key: "a".to_string(),
        base_url: "https://api.datadoghq.com".to_string(),
        retry: policy(1, true),
        timeout_seconds: 30,
    });
    assert_eq!(client.retry(), policy(1, true));
    assert_eq!(client.backoff_ms(1), 500);
    assert_eq!(
        client.next_step(0, response(503, None, "")),
        Step::Retry { delay_ms: 250, attempt: 1 }
    );
    assert_eq!(
        client.next_step(1, response(503, None, "late")),
        Step::Finished(Err(DatadogError::Retryable {
            status: Some(503),
            message: "Datadog API returned 503 after 2 attempt(s): late".to_string(),
        }))
    );
}
