use pynthora_terminal::retry::{
    exhausted_message, is_retryable_error, is_retryable_lower, next_delay, RetryConfig,
    RetryDecision, RetrySession,
};

fn reference_config() -> RetryConfig {
    RetryConfig {
        max_attempts: 3,
        initial_delay_ms: 100,
        max_delay_ms: 5000,
        backoff_multiplier_percent: 200,
    }
}

#[test]
fn default_config_matches_reference_behavior() {
    let c = RetryConfig::default();
    assert_eq!(c.max_attempts, 3);
    assert_eq!(c.initial_delay_ms, 100);
    assert_eq!(c.max_delay_ms, 30000);
    assert_eq!(c.backoff_multiplier_percent, 200);
}

#[test]
fn always_failing_operation_runs_three_times_with_growing_delays() {
    let mut session = RetrySession::new(reference_config());
    let mut invocations = 0;
    let mut delays = Vec::new();
    loop {
        invocations += 1;
        // The operation fails on every attempt.
        match session.on_failure() {
            RetryDecision::RetryAfter(d) => delays.push(d),
            RetryDecision::GiveUp(attempts) => {
                assert_eq!(attempts, 3);
                break;
            }
        }
    }
    assert_eq!(invocations, 3);
    assert_eq!(delays, vec![100, 200]);
}

#[test]
fn failing_once_then_succeeding_takes_two_invocations_and_one_delay() {
    let outcomes = [false, true, true];
    let mut session = RetrySession::new(reference_config());
    let mut invocations = 0;
    let mut delays = Vec::new();
    let mut succeeded = false;
    loop {
        let ok = outcomes[invocations];
        invocations += 1;
        if ok {
            succeeded = true;
            break;
        }
        match session.on_failure() {
            RetryDecision::RetryAfter(d) => delays.push(d),
            RetryDecision::GiveUp(_) => break,
        }
    }
    assert!(succeeded);
    assert_eq!(invocations, 2);
    assert_eq!(delays, vec![100]);
}

#[test]
fn delay_growth_is_capped() {
    let c = reference_config();
    assert_eq!(next_delay(&c, 100), 200);
    assert_eq!(next_delay(&c, 4000), 5000);
    assert_eq!(next_delay(&c, 5000), 5000);
}

#[test]
fn exhausted_message_names_attempts_and_last_error() {
    let m = exhausted_message(3, "connection reset");
    assert_eq!(m, "Operation failed after 3 attempts. Last error: connection reset");
}

#[test]
fn retryable_classification() {
    assert!(is_retryable_error("Connection TIMEOUT while sending"));
    assert!(is_retryable_error("HTTP 429 Too Many Requests"));
    assert!(is_retryable_error("NETWORK unreachable"));
    assert!(is_retryable_error("temporary failure in name resolution"));
    assert!(is_retryable_error("upstream returned 503"));
    assert!(!is_retryable_error("bad request"));
    assert!(!is_retryable_error("invalid credentials"));
    assert!(is_retryable_lower("gateway gave 502"));
    assert!(!is_retryable_lower("forbidden"));
}
