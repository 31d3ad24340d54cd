use event_delivery::config::AppConfig;
use event_delivery::error::{BrokerError, ConfigField, DeliveryError, FatalError};
use event_delivery::handlers::{ProducerService, SendStep, Sending};
use event_delivery::models::EventEnvelope;
use event_delivery::timestamp::Timestamp;
use event_delivery::wire::deserialize_dead_letter;

fn event() -> EventEnvelope {
    EventEnvelope::assemble(
        "id-1".to_string(),
        Timestamp::from_parts(2024, 1, 2, 3, 4, 5, 20).unwrap(),
        "t1".to_string(),
        "order.created".to_string(),
        "{}".to_string(),
    )
}

fn service() -> ProducerService {
    ProducerService::new().unwrap()
}

fn sending_of(step: SendStep) -> Sending {
    match step {
        SendStep::Send { sending, .. } => sending,
        SendStep::Done { .. } => panic!("the send is over"),
    }
}

#[test]
fn default_producer_service() {
    let s = service();
    assert_eq!(s.producer.config.events_topic, "events");
    assert_eq!(s.producer.config.delivery_timeout_ms, 120_000);
}

#[test]
fn producer_service_needs_every_required_setting() {
    let mut c = AppConfig::default();
    c.kafka.bootstrap_servers = String::new();
    assert_eq!(
        ProducerService::with_config(&c).err(),
        Some(FatalError::MissingConfig(ConfigField::BootstrapServers))
    );
    c.kafka.bootstrap_servers = "b:1".to_string();
    c.producer.events_topic = "orders".to_string();
    assert_eq!(ProducerService::with_config(&c).unwrap().producer.config.events_topic, "orders");
}

#[test]
fn send_starts_on_the_events_topic() {
    let s = service();
    let sending = s.send_event(event());
    assert_eq!(sending.envelope, event());
    assert_eq!(sending.delivery, s.producer.send_event(&event()));
    assert!(!sending.quarantining);
}

#[test]
fn acknowledged_send_gives_the_offset() {
    let s = service();
    match s.advance(s.send_event(event()), Ok(12), 4) {
        SendStep::Done { result, report } => {
            assert_eq!(result, Ok(12));
            assert_eq!(report.outcome, Ok(12));
            assert_eq!(report.topic, "events");
            assert_eq!(report.latency_ms, 4);
        }
        SendStep::Send { .. } => panic!("the send goes on"),
    }
}

#[test]
fn transient_failure_is_absorbed_by_the_send() {
    let s = service();
    let step = s.advance(s.send_event(event()), Err(BrokerError::Transient), 10);
    match &step {
        SendStep::Send { sending, ended } => {
            assert!(sending.delivery.retried);
            assert!(!sending.quarantining);
            assert_eq!(*ended, None);
        }
        SendStep::Done { .. } => panic!("the send is over"),
    }
    match s.advance(sending_of(step), Ok(3), 10) {
        SendStep::Done { result, report } => {
            assert_eq!(result, Ok(3));
            assert_eq!(report.latency_ms, 20);
        }
        SendStep::Send { .. } => panic!("the send goes on"),
    }
}

#[test]
fn unavailable_broker_is_left_to_the_caller() {
    let s = service();
    let again = sending_of(s.advance(s.send_event(event()), Err(BrokerError::Transient), 10));
    match s.advance(again, Err(BrokerError::Transient), 10) {
        SendStep::Done { result, report } => {
            assert_eq!(result, Err(DeliveryError::Unavailable));
            assert_eq!(report.outcome, Err(DeliveryError::Unavailable));
        }
        SendStep::Send { .. } => panic!("the send goes on"),
    }
}

#[test]
fn rejected_event_is_quarantined() {
    let s = service();
    let step = s.advance(s.send_event(event()), Err(BrokerError::Permanent), 10);
    let sending = match step {
        SendStep::Send { sending, ended } => {
            let report = ended.unwrap();
            assert_eq!(report.outcome, Err(DeliveryError::Rejected));
            assert_eq!(report.topic, "events");
            sending
        }
        SendStep::Done { .. } => panic!("the send is over"),
    };
    assert!(sending.quarantining);
    assert_eq!(sending.delivery.request.topic, "dlq");
    let letter = deserialize_dead_letter(&sending.delivery.request.payload).unwrap();
    assert_eq!(letter.envelope, event());
    assert_eq!(letter.reason, "rejected by the broker");
    match s.advance(sending, Ok(77), 5) {
        SendStep::Done { result, report } => {
            assert_eq!(result, Err(DeliveryError::Rejected));
            assert_eq!(report.topic, "dlq");
            assert_eq!(report.outcome, Ok(77));
        }
        SendStep::Send { .. } => panic!("the send goes on"),
    }
}

#[test]
fn failed_quarantine_still_ends_as_rejected() {
    let s = service();
    let sending = sending_of(s.advance(s.send_event(event()), Err(BrokerError::Permanent), 1));
    match s.advance(sending, Err(BrokerError::Permanent), 1) {
        SendStep::Done { result, report } => {
            assert_eq!(result, Err(DeliveryError::Rejected));
            assert_eq!(report.topic, "dlq");
            assert_eq!(report.outcome, Err(DeliveryError::Rejected));
        }
        SendStep::Send { .. } => panic!("the send goes on"),
    }
    let sending = sending_of(s.advance(s.send_event(event()), Err(BrokerError::Permanent), 1));
    let again = sending_of(s.advance(sending, Err(BrokerError::Transient), 1));
    assert!(again.quarantining);
    match s.advance(again, Err(BrokerError::Transient), 1) {
        SendStep::Done { result, report } => {
            assert_eq!(result, Err(DeliveryError::Rejected));
            assert_eq!(report.outcome, Err(DeliveryError::Unavailable));
        }
        SendStep::Send { .. } => panic!("the send goes on"),
    }
}
