use nanogpt_core::retry::{
    backoff_delay_ms, decide, should_retry, simulate_retries, AttemptOutcome, ErrorCategory,
    FailureSignal, RetryDecision,
};

#[test]
fn status_classification_matches_the_table() {
    assert_eq!(ErrorCategory::from_status(401), ErrorCategory::Authentication);
    assert_eq!(ErrorCategory::from_status(403), ErrorCategory::Authentication);
    assert_eq!(ErrorCategory::from_status(429), ErrorCategory::RateLimit);
    assert_eq!(ErrorCategory::from_status(400), ErrorCategory::InvalidRequest);
    assert_eq!(ErrorCategory::from_status(404), ErrorCategory::InvalidRequest);
    assert_eq!(ErrorCategory::from_status(499), ErrorCategory::InvalidRequest);
    assert_eq!(ErrorCategory::from_status(500), ErrorCategory::Server);
    assert_eq!(ErrorCategory::from_status(503), ErrorCategory::Server);
    assert_eq!(ErrorCategory::from_status(599), ErrorCategory::Server);
    assert_eq!(ErrorCategory::from_status(200), ErrorCategory::Unknown);
    assert_eq!(ErrorCategory::from_status(302), ErrorCategory::Unknown);
    assert_eq!(ErrorCategory::from_status(600), ErrorCategory::Unknown);
}

#[test]
fn transport_faults_classify_as_network() {
    assert_eq!(ErrorCategory::from_signal(&FailureSignal::Timeout), ErrorCategory::Network);
    assert_eq!(ErrorCategory::from_signal(&FailureSignal::ConnectFailure), ErrorCategory::Network);
    assert_eq!(ErrorCategory::from_signal(&FailureSignal::TransportOther), ErrorCategory::Unknown);
    assert_eq!(
        ErrorCategory::from_signal(&FailureSignal::Status(429)),
        ErrorCategory::RateLimit
    );
}

#[test]
fn only_rate_limit_server_and_network_retry() {
    assert!(should_retry(&ErrorCategory::RateLimit));
    assert!(should_retry(&ErrorCategory::Server));
    assert!(should_retry(&ErrorCategory::Network));
    assert!(!should_retry(&ErrorCategory::Authentication));
    assert!(!should_retry(&ErrorCategory::InvalidRequest));
    assert!(!should_retry(&ErrorCategory::Unknown));
}

#[test]
fn backoff_is_one_two_four_seconds() {
    assert_eq!(backoff_delay_ms(1), 1000);
    assert_eq!(backoff_delay_ms(2), 2000);
    assert_eq!(backoff_delay_ms(3), 4000);
}

#[test]
fn fourth_attempt_is_final_whatever_it_is() {
    assert_eq!(
        decide(3, &AttemptOutcome::Response { status: 503 }),
        RetryDecision::Finish
    );
    assert_eq!(
        decide(0, &AttemptOutcome::Response { status: 503 }),
        RetryDecision::RetryAfter { delay_ms: 1000 }
    );
    assert_eq!(
        decide(1, &AttemptOutcome::TransportError { timeout: true, connect: false }),
        RetryDecision::RetryAfter { delay_ms: 2000 }
    );
    assert_eq!(
        decide(2, &AttemptOutcome::TransportError { timeout: false, connect: true }),
        RetryDecision::RetryAfter { delay_ms: 4000 }
    );
}

#[test]
fn retryable_failures_exhaust_four_attempts_with_backoff() {
    let outcomes = vec![
        AttemptOutcome::Response { status: 429 },
        AttemptOutcome::TransportError { timeout: true, connect: false },
        AttemptOutcome::Response { status: 500 },
        AttemptOutcome::Response { status: 503 },
    ];
    let (sends, delays, last) = simulate_retries(&outcomes);
    assert_eq!(sends, 4);
    assert_eq!(delays, vec![1000, 2000, 4000]);
    assert_eq!(last, AttemptOutcome::Response { status: 503 });
}

#[test]
fn non_retryable_failures_send_exactly_once() {
    for status in [401u16, 403, 404, 400, 200] {
        let outcomes = vec![
            AttemptOutcome::Response { status },
            AttemptOutcome::Response { status: 200 },
        ];
        let (sends, delays, last) = simulate_retries(&outcomes);
        assert_eq!(sends, 1);
        assert!(delays.is_empty());
        assert_eq!(last, AttemptOutcome::Response { status });
    }
    let outcomes = vec![
        AttemptOutcome::TransportError { timeout: false, connect: false },
        AttemptOutcome::Response { status: 200 },
    ];
    let (sends, delays, _) = simulate_retries(&outcomes);
    assert_eq!(sends, 1);
    assert!(delays.is_empty());
}

#[test]
fn three_server_faults_then_success_returns_the_success() {
    let outcomes = vec![
        AttemptOutcome::Response { status: 503 },
        AttemptOutcome::Response { status: 503 },
        AttemptOutcome::Response { status: 503 },
        AttemptOutcome::Response { status: 200 },
    ];
    let (sends, delays, last) = simulate_retries(&outcomes);
    assert_eq!(sends, 4);
    assert_eq!(delays, vec![1000, 2000, 4000]);
    assert_eq!(last, AttemptOutcome::Response { status: 200 });
}
