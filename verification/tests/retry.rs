use event_delivery::config::RetryConfig;
use event_delivery::models::EventEnvelope;
use event_delivery::timestamp::Timestamp;
use event_delivery::retry::{RetryCoordinator, RetryDecision};

fn coordinator() -> RetryCoordinator {
    RetryCoordinator::new(RetryConfig { max_retries: 3, base_delay_ms: 1_000, max_delay_ms: 60_000 })
}

fn envelope(attempt_count: u32) -> EventEnvelope {
    let mut e = EventEnvelope::assemble(
        "id-1".to_string(),
        Timestamp::from_parts(2024, 1, 2, 3, 4, 5, 20).unwrap(),
        "t1".to_string(),
        "order.created".to_string(),
        "{}".to_string(),
    );
    e.attempt_count = attempt_count;
    e
}

#[test]
fn backoff_doubles_per_attempt() {
    let c = coordinator();
    assert_eq!(c.backoff_ms(0), 1_000);
    assert_eq!(c.backoff_ms(1), 2_000);
    assert_eq!(c.backoff_ms(2), 4_000);
    assert_eq!(c.backoff_ms(3), 8_000);
    assert_eq!(c.backoff_ms(5), 32_000);
}

#[test]
fn backoff_is_capped_at_the_ceiling() {
    let c = coordinator();
    assert_eq!(c.backoff_ms(6), 60_000);
    assert_eq!(c.backoff_ms(7), 60_000);
    assert_eq!(c.backoff_ms(64), 60_000);
    assert_eq!(c.backoff_ms(u32::MAX), 60_000);
}

#[test]
fn backoff_reaches_the_ceiling_exactly() {
    let c = RetryCoordinator::new(RetryConfig { max_retries: 3, base_delay_ms: 5, max_delay_ms: 40 });
    assert_eq!(c.backoff_ms(2), 20);
    assert_eq!(c.backoff_ms(3), 40);
    assert_eq!(c.backoff_ms(4), 40);
}

#[test]
fn backoff_of_zero_base_is_zero() {
    let c = RetryCoordinator::new(RetryConfig { max_retries: 3, base_delay_ms: 0, max_delay_ms: 40 });
    assert_eq!(c.backoff_ms(0), 0);
    assert_eq!(c.backoff_ms(u32::MAX), 0);
}

#[test]
fn backoff_with_base_above_ceiling_is_the_ceiling() {
    let c = RetryCoordinator::new(RetryConfig { max_retries: 3, base_delay_ms: 50, max_delay_ms: 40 });
    assert_eq!(c.backoff_ms(0), 40);
    assert_eq!(c.backoff_ms(9), 40);
}

#[test]
fn backoff_does_not_overflow() {
    let c = RetryCoordinator::new(RetryConfig {
        max_retries: 3,
        base_delay_ms: u64::MAX / 2 + 1,
        max_delay_ms: u64::MAX,
    });
    assert_eq!(c.backoff_ms(0), u64::MAX / 2 + 1);
    assert_eq!(c.backoff_ms(1), u64::MAX);
    let c = RetryCoordinator::new(RetryConfig { max_retries: 3, base_delay_ms: 1, max_delay_ms: u64::MAX });
    assert_eq!(c.backoff_ms(63), 1u64 << 63);
    assert_eq!(c.backoff_ms(64), u64::MAX);
}

#[test]
fn failure_below_limit_goes_to_retry_with_count_raised() {
    let c = coordinator();
    for k in 0..3u32 {
        let e = envelope(k);
        match c.on_failure(&e, "boom".to_string()) {
            RetryDecision::Retry { envelope: retried, backoff_ms } => {
                assert_eq!(retried.attempt_count, k + 1);
                assert_eq!(retried.id, e.id);
                assert_eq!(retried.payload, e.payload);
                assert_eq!(retried.timestamp, e.timestamp);
                assert_eq!(backoff_ms, 1_000u64 << (k + 1));
            }
            RetryDecision::DeadLetter { .. } => panic!("dead-lettered with retries left"),
        }
        assert_eq!(e.attempt_count, k);
    }
}

#[test]
fn failure_at_limit_goes_to_dead_letter_unchanged() {
    let c = coordinator();
    let e = envelope(3);
    assert_eq!(
        c.on_failure(&e, "boom".to_string()),
        RetryDecision::DeadLetter { envelope: envelope(3), reason: "boom".to_string() }
    );
}

#[test]
fn failure_past_limit_goes_to_dead_letter_unchanged() {
    let c = coordinator();
    assert_eq!(
        c.on_failure(&envelope(9), "late".to_string()),
        RetryDecision::DeadLetter { envelope: envelope(9), reason: "late".to_string() }
    );
}

#[test]
fn zero_retries_dead_letters_at_once() {
    let c = RetryCoordinator::new(RetryConfig { max_retries: 0, base_delay_ms: 1, max_delay_ms: 2 });
    assert!(c.is_exhausted(&envelope(0)));
    assert_eq!(
        c.on_failure(&envelope(0), "x".to_string()),
        RetryDecision::DeadLetter { envelope: envelope(0), reason: "x".to_string() }
    );
}

#[test]
fn exhausted_from_the_limit_on() {
    let c = coordinator();
    assert!(!c.is_exhausted(&envelope(0)));
    assert!(!c.is_exhausted(&envelope(2)));
    assert!(c.is_exhausted(&envelope(3)));
    assert!(c.is_exhausted(&envelope(4)));
}

#[test]
fn retry_at_the_highest_count() {
    let c = RetryCoordinator::new(RetryConfig { max_retries: u32::MAX, base_delay_ms: 1, max_delay_ms: 8 });
    match c.on_failure(&envelope(u32::MAX - 1), "x".to_string()) {
        RetryDecision::Retry { envelope: retried, backoff_ms } => {
            assert_eq!(retried.attempt_count, u32::MAX);
            assert_eq!(backoff_ms, 8);
        }
        RetryDecision::DeadLetter { .. } => panic!("dead-lettered with retries left"),
    }
}
