use event_delivery::config::AppConfig;
use event_delivery::error::{BrokerError, ConfigField, DeliveryError, FatalError};
use event_delivery::models::EventEnvelope;
use event_delivery::timestamp::Timestamp;
use event_delivery::producer::{Delivery, DeliveryReport, DeliveryStep, KafkaProducer, Topic};
use event_delivery::retry::RetryDecision;
use event_delivery::wire::{deserialize, deserialize_dead_letter, serialize};

fn event() -> EventEnvelope {
    EventEnvelope::assemble(
        "id-1".to_string(),
        Timestamp::from_parts(2024, 1, 2, 3, 4, 5, 20).unwrap(),
        "t1".to_string(),
        "order.created".to_string(),
        "{\"total\":12}".to_string(),
    )
}

fn producer() -> KafkaProducer {
    KafkaProducer::new().unwrap()
}

fn report(outcome: Result<u64, DeliveryError>, latency_ms: u64) -> DeliveryReport {
    DeliveryReport {
        tenant_id: "t1".to_string(),
        event_type: "order.created".to_string(),
        topic: "events".to_string(),
        outcome,
        latency_ms,
    }
}

#[test]
fn default_producer_has_default_settings() {
    let p = producer();
    assert_eq!(p.config.events_topic, "events");
    assert_eq!(p.config.retry_topic, "retry");
    assert_eq!(p.config.dlq_topic, "dlq");
    assert_eq!(p.config.delivery_timeout_ms, 120_000);
}

#[test]
fn producer_takes_the_given_settings() {
    let mut c = AppConfig::default();
    c.producer.events_topic = "orders".to_string();
    c.producer.delivery_timeout_ms = 5;
    let p = KafkaProducer::with_config(&c).unwrap();
    assert_eq!(p.config.events_topic, "orders");
    assert_eq!(p.config.delivery_timeout_ms, 5);
    assert_eq!(p.name_of(Topic::Events), "orders");
    assert_eq!(p.name_of(Topic::Retry), "retry");
    assert_eq!(p.name_of(Topic::DeadLetter), "dlq");
}

#[test]
fn producer_needs_every_required_setting() {
    let mut c = AppConfig::default();
    c.producer.dlq_topic = String::new();
    assert_eq!(
        KafkaProducer::with_config(&c).err(),
        Some(FatalError::MissingConfig(ConfigField::DlqTopic))
    );
}

#[test]
fn first_delivery_of_a_publish() {
    let d = producer().publish(&event(), Topic::Retry);
    assert_eq!(d.request.topic, "retry");
    assert_eq!(d.request.key, "t1|order.created");
    assert_eq!(d.request.payload, serialize(&event()));
    assert_eq!(d.request.deadline_ms, 120_000);
    assert_eq!(d.tenant_id, "t1");
    assert_eq!(d.event_type, "order.created");
    assert!(!d.retried);
    assert_eq!(d.elapsed_ms, 0);
}

#[test]
fn send_event_goes_to_the_events_topic() {
    let d = producer().send_event(&event());
    assert_eq!(d, producer().publish(&event(), Topic::Events));
    assert_eq!(d.request.topic, "events");
    assert_eq!(deserialize(&d.request.payload), Some(event()));
}

#[test]
fn dead_letter_carries_the_reason() {
    let d = producer().dead_letter(&event(), "boom");
    assert_eq!(d.request.topic, "dlq");
    assert_eq!(d.request.key, "t1|order.created");
    let letter = deserialize_dead_letter(&d.request.payload).unwrap();
    assert_eq!(letter.envelope, event());
    assert_eq!(letter.reason, "boom");
    assert_eq!(d.request.deadline_ms, 120_000);
    assert!(!d.retried);
}

#[test]
fn republish_follows_the_decision() {
    let p = producer();
    let retry = RetryDecision::Retry { envelope: event(), backoff_ms: 5 };
    assert_eq!(p.republish(&retry), p.publish(&event(), Topic::Retry));
    let dead = RetryDecision::DeadLetter { envelope: event(), reason: "r".to_string() };
    assert_eq!(p.republish(&dead), p.dead_letter(&event(), "r"));
}

#[test]
fn acknowledgement_ends_the_publish() {
    let d = producer().send_event(&event());
    assert_eq!(d.advance(Ok(42), 7), DeliveryStep::Done(report(Ok(42), 7)));
}

#[test]
fn rejection_ends_the_publish_at_once() {
    let d = producer().send_event(&event());
    assert_eq!(
        d.advance(Err(BrokerError::Permanent), 3),
        DeliveryStep::Done(report(Err(DeliveryError::Rejected), 3))
    );
}

#[test]
fn transient_failure_is_retried_with_the_rest_of_the_deadline() {
    let d = producer().send_event(&event());
    let first = producer().send_event(&event());
    match d.advance(Err(BrokerError::Transient), 20_000) {
        DeliveryStep::Retry(again) => {
            assert_eq!(again.request.deadline_ms, 100_000);
            assert_eq!(again.request.topic, first.request.topic);
            assert_eq!(again.request.key, first.request.key);
            assert_eq!(again.request.payload, first.request.payload);
            assert!(again.retried);
            assert_eq!(again.elapsed_ms, 20_000);
        }
        DeliveryStep::Done(_) => panic!("no retry"),
    }
}

#[test]
fn leader_not_available_once_then_success() {
    let d = producer().send_event(&event());
    let again = match d.advance(Err(BrokerError::Transient), 150) {
        DeliveryStep::Retry(again) => again,
        DeliveryStep::Done(_) => panic!("no retry"),
    };
    assert_eq!(again.advance(Ok(9), 50), DeliveryStep::Done(report(Ok(9), 200)));
}

#[test]
fn second_transient_failure_is_unavailable() {
    let d = producer().send_event(&event());
    let again = match d.advance(Err(BrokerError::Transient), 150) {
        DeliveryStep::Retry(again) => again,
        DeliveryStep::Done(_) => panic!("no retry"),
    };
    assert_eq!(
        again.advance(Err(BrokerError::Transient), 50),
        DeliveryStep::Done(report(Err(DeliveryError::Unavailable), 200))
    );
}

#[test]
fn rejection_of_the_retry_is_rejected() {
    let d = producer().send_event(&event());
    let again = match d.advance(Err(BrokerError::Transient), 1) {
        DeliveryStep::Retry(again) => again,
        DeliveryStep::Done(_) => panic!("no retry"),
    };
    assert_eq!(
        again.advance(Err(BrokerError::Permanent), 1),
        DeliveryStep::Done(report(Err(DeliveryError::Rejected), 2))
    );
}

#[test]
fn no_retry_once_the_deadline_is_over() {
    let d = producer().send_event(&event());
    assert_eq!(
        d.advance(Err(BrokerError::Transient), 120_000),
        DeliveryStep::Done(report(Err(DeliveryError::Unavailable), 120_000))
    );
    let d = producer().send_event(&event());
    assert_eq!(
        d.advance(Err(BrokerError::Transient), u32::MAX),
        DeliveryStep::Done(report(Err(DeliveryError::Unavailable), u32::MAX as u64))
    );
    let d = producer().send_event(&event());
    match d.advance(Err(BrokerError::Transient), 119_999) {
        DeliveryStep::Retry(again) => assert_eq!(again.request.deadline_ms, 1),
        DeliveryStep::Done(_) => panic!("no retry"),
    }
}

#[test]
fn latency_stays_at_the_largest_number() {
    let mut d: Delivery = producer().send_event(&event());
    d.elapsed_ms = u64::MAX - 1;
    assert_eq!(d.advance(Ok(1), 5), DeliveryStep::Done(report(Ok(1), u64::MAX)));
}
