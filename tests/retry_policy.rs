use otter_data::retry::{
    backoff_delay_ms, command_retry_delay, is_contention_lowered, is_retryable_error,
    RetryConfig, RetryDecision, RetryState,
};

fn run_with_messages(config: &RetryConfig, messages: &[&str]) -> (u32, Vec<u64>, RetryDecision) {
    let mut state = RetryState::new();
    let mut attempts = 0u32;
    let mut delays = Vec::new();
    let mut i = 0usize;
    loop {
        assert!(state.may_attempt(config));
        attempts += 1;
        let decision = state.on_failure(config, messages[i.min(messages.len() - 1)]);
        i += 1;
        match decision {
            RetryDecision::Retry { delay_ms } => delays.push(delay_ms),
            other => return (attempts, delays, other),
        }
    }
}

#[test]
fn default_policy_values() {
    let c = RetryConfig::default();
    assert_eq!(c.max_attempts, 5);
    assert_eq!(c.base_delay_ms, 100);
    assert_eq!(c.max_delay_ms, 5000);
}

#[test]
fn sustained_contention_delay_sequence() {
    let c = RetryConfig { max_attempts: 5, base_delay_ms: 100, max_delay_ms: 5000 };
    let (attempts, delays, end) = run_with_messages(&c, &["database is locked"]);
    assert_eq!(delays, vec![100, 200, 400, 800]);
    assert_eq!(attempts, 5);
    assert_eq!(end, RetryDecision::Exhausted);
}

#[test]
fn fatal_error_on_first_attempt_does_not_sleep() {
    let c = RetryConfig::default();
    let (attempts, delays, end) = run_with_messages(&c, &["no such table: roles"]);
    assert_eq!(attempts, 1);
    assert!(delays.is_empty());
    assert_eq!(end, RetryDecision::Fatal);
}

#[test]
fn attempts_never_exceed_max_and_sleeps_one_less() {
    for max in 1u32..8 {
        let c = RetryConfig { max_attempts: max, base_delay_ms: 10, max_delay_ms: 1000 };
        let (attempts, delays, end) = run_with_messages(&c, &["SQLITE_BUSY"]);
        assert_eq!(attempts, max);
        assert_eq!(delays.len() as u32, attempts - 1);
        assert_eq!(end, RetryDecision::Exhausted);
    }
}

#[test]
fn contention_then_fatal_stops_at_fatal() {
    let c = RetryConfig::default();
    let (attempts, delays, end) =
        run_with_messages(&c, &["database is locked", "database is locked", "disk I/O error"]);
    assert_eq!(attempts, 3);
    assert_eq!(delays, vec![100, 200]);
    assert_eq!(end, RetryDecision::Fatal);
}

#[test]
fn zero_attempt_policy_allows_nothing() {
    let c = RetryConfig { max_attempts: 0, base_delay_ms: 100, max_delay_ms: 5000 };
    assert!(!RetryState::new().may_attempt(&c));
}

#[test]
fn backoff_is_capped() {
    let c = RetryConfig::default();
    assert_eq!(backoff_delay_ms(&c, 0), 100);
    assert_eq!(backoff_delay_ms(&c, 5), 3200);
    assert_eq!(backoff_delay_ms(&c, 6), 5000);
    assert_eq!(backoff_delay_ms(&c, 64), 5000);
    assert_eq!(backoff_delay_ms(&c, u32::MAX), 5000);
    let big = RetryConfig { max_attempts: 5, base_delay_ms: u64::MAX / 2, max_delay_ms: u64::MAX };
    assert_eq!(backoff_delay_ms(&big, 1), u64::MAX - 1);
    assert_eq!(backoff_delay_ms(&big, 2), u64::MAX);
    let zero = RetryConfig { max_attempts: 5, base_delay_ms: 0, max_delay_ms: 10 };
    assert_eq!(backoff_delay_ms(&zero, u32::MAX), 0);
    let low_cap = RetryConfig { max_attempts: 5, base_delay_ms: 300, max_delay_ms: 200 };
    assert_eq!(backoff_delay_ms(&low_cap, 0), 200);
}

#[test]
fn contention_is_recognised_whatever_the_case() {
    assert!(is_retryable_error("database is locked"));
    assert!(is_retryable_error("Error: DATABASE IS LOCKED (code 5)"));
    assert!(is_retryable_error("SQLite failure: SQLITE_BUSY"));
    assert!(is_retryable_error("sqlite_busy"));
    assert!(!is_retryable_error("UNIQUE constraint failed: roles.name"));
    assert!(is_retryable_error("busy"));
    assert!(is_retryable_error("Database is BUSY, try later"));
    assert!(!is_retryable_error("bus error"));
    assert!(!is_retryable_error(""));
}

#[test]
fn lowered_classification_is_case_sensitive() {
    assert!(is_contention_lowered("x database is locked y"));
    assert!(!is_contention_lowered("Database is locked"));
    assert!(!is_contention_lowered("SQLITE_BUSY"));
    assert!(is_contention_lowered("sqlite_busy"));
}

#[test]
fn command_helper_retries_contention_three_times() {
    assert_eq!(command_retry_delay(0, true), Some(100));
    assert_eq!(command_retry_delay(2, true), Some(100));
    assert_eq!(command_retry_delay(3, true), None);
    assert_eq!(command_retry_delay(7, true), None);
}

#[test]
fn command_helper_never_retries_fatal_errors() {
    let fatal = is_retryable_error("UNIQUE constraint failed: roles.name");
    assert_eq!(command_retry_delay(0, fatal), None);
    assert_eq!(command_retry_delay(2, false), None);
    let busy = is_retryable_error("database is locked");
    assert_eq!(command_retry_delay(0, busy), Some(100));
}
