use event_delivery::models::EventEnvelope;
use event_delivery::timestamp::Timestamp;
use event_delivery::router::PartitionRouter;

fn sample() -> EventEnvelope {
    EventEnvelope::assemble(
        "id-1".to_string(),
        Timestamp::from_parts(2023, 11, 14, 22, 13, 20, 5).unwrap(),
        "t1".to_string(),
        "order.created".to_string(),
        "{\"n\":1}".to_string(),
    )
}

#[test]
fn new_envelope_has_version_and_no_attempts() {
    let e = EventEnvelope::new("t1".to_string(), "order.created".to_string(), "{}".to_string());
    assert_eq!(e.tenant_id, "t1");
    assert_eq!(e.event_type, "order.created");
    assert_eq!(e.payload, "{}");
    assert_eq!(e.version, "1.0");
    assert_eq!(e.attempt_count, 0);
}

#[test]
fn new_envelope_id_is_a_random_uuid() {
    let e = EventEnvelope::new("t1".to_string(), "x".to_string(), "{}".to_string());
    let id: Vec<char> = e.id.chars().collect();
    assert_eq!(id.len(), 36);
    for (i, c) in id.iter().enumerate() {
        if i == 8 || i == 13 || i == 18 || i == 23 {
            assert_eq!(*c, '-');
        } else {
            assert!(c.is_ascii_digit() || ('a'..='f').contains(c));
        }
    }
    assert_eq!(id[14], '4');
    assert!(matches!(id[19], '8' | '9' | 'a' | 'b'));
}

#[test]
fn new_envelopes_get_different_ids() {
    let a = EventEnvelope::new("t1".to_string(), "x".to_string(), "{}".to_string());
    let b = EventEnvelope::new("t1".to_string(), "x".to_string(), "{}".to_string());
    assert_ne!(a.id, b.id);
}

#[test]
fn new_envelope_is_stamped_with_the_current_time() {
    let e = EventEnvelope::new("t1".to_string(), "x".to_string(), "{}".to_string());
    let parts = e.timestamp.parts();
    assert!(parts.year >= 2024 && parts.year <= 9999);
    assert!((1..=12).contains(&parts.month));
    assert!((1..=31).contains(&parts.day));
    assert!(parts.hour <= 23 && parts.minute <= 59 && parts.second <= 59);
    assert!(parts.nanos <= 999_999_999);
    let later = EventEnvelope::new("t1".to_string(), "x".to_string(), "{}".to_string());
    assert!(e.timestamp <= later.timestamp);
}

#[test]
fn assemble_takes_every_field_as_given() {
    let e = sample();
    assert_eq!(e.id, "id-1");
    assert_eq!(e.timestamp, Timestamp::from_parts(2023, 11, 14, 22, 13, 20, 5).unwrap());
    assert_eq!(e.tenant_id, "t1");
    assert_eq!(e.event_type, "order.created");
    assert_eq!(e.payload, "{\"n\":1}");
    assert_eq!(e.version, "1.0");
    assert_eq!(e.attempt_count, 0);
}

#[test]
fn partition_key_joins_tenant_and_type() {
    assert_eq!(sample().partition_key(), "t1|order.created");
}

#[test]
fn partition_key_of_empty_fields_is_the_separator() {
    let e = EventEnvelope::assemble(
        "i".to_string(),
        Timestamp::unix_epoch(),
        String::new(),
        String::new(),
        String::new(),
    );
    assert_eq!(e.partition_key(), "|");
    assert!(!e.is_well_formed());
}

#[test]
fn route_gives_the_partition_key() {
    let e = sample();
    assert_eq!(PartitionRouter::route(&e), "t1|order.created");
    assert_eq!(PartitionRouter::route(&e), e.partition_key());
}

#[test]
fn route_depends_on_tenant_and_type_only() {
    let a = sample();
    let mut b = EventEnvelope::new("t1".to_string(), "order.created".to_string(), "[]".to_string());
    b.attempt_count = 7;
    assert_eq!(PartitionRouter::route(&a), PartitionRouter::route(&b));
    let c = EventEnvelope::new("t2".to_string(), "order.created".to_string(), "[]".to_string());
    assert_ne!(PartitionRouter::route(&a), PartitionRouter::route(&c));
}

#[test]
fn route_is_the_same_on_every_call() {
    let e = sample();
    let first = PartitionRouter::route(&e);
    for _ in 0..10 {
        assert_eq!(PartitionRouter::route(&e), first);
    }
}

#[test]
fn well_formed_needs_tenant_and_type() {
    assert!(sample().is_well_formed());
    let mut e = sample();
    e.tenant_id = String::new();
    assert!(!e.is_well_formed());
    let mut e = sample();
    e.event_type = String::new();
    assert!(!e.is_well_formed());
}

#[test]
fn next_attempt_raises_the_count_and_keeps_the_rest() {
    let e = sample();
    let n = e.next_attempt();
    assert_eq!(n.attempt_count, 1);
    assert_eq!(n.id, e.id);
    assert_eq!(n.tenant_id, e.tenant_id);
    assert_eq!(n.event_type, e.event_type);
    assert_eq!(n.payload, e.payload);
    assert_eq!(n.timestamp, e.timestamp);
    assert_eq!(n.version, e.version);
    // The envelope handed in is left as it was.
    assert_eq!(e.attempt_count, 0);
}

#[test]
fn clone_is_equal() {
    let e = sample();
    assert_eq!(e.clone(), e);
}

#[test]
fn json_payloads_are_told_from_other_text() {
    for text in ["{}", "[1,2,3]", "\"x\"", " 1 ", "null", "{\"a\":{\"b\":[true,1.5e3]}}"] {
        let mut e = sample();
        e.payload = text.to_string();
        assert!(e.has_json_payload());
    }
    for text in ["", "{", "nope", "{} x", "{'a':1}", "[1,]", "01"] {
        let mut e = sample();
        e.payload = text.to_string();
        assert!(!e.has_json_payload());
    }
}
