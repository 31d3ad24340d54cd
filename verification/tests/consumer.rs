use event_delivery::config::AppConfig;
use event_delivery::consumer::{
    ConsumeError, ConsumedEvent, FetchRequest, FetchedRecord, KafkaConsumer, Source,
};
use event_delivery::error::{ConfigField, FatalError};
use event_delivery::models::EventEnvelope;
use event_delivery::timestamp::Timestamp;
use event_delivery::wire::serialize;

fn numbered(n: u32) -> EventEnvelope {
    EventEnvelope::assemble(
        format!("id-{}", n),
        Timestamp::from_parts(2024, 1, 2, 3, 4, 5, n).unwrap(),
        "t1".to_string(),
        "order.created".to_string(),
        format!("{{\"n\":{}}}", n),
    )
}

fn record(offset: u64, n: u32) -> FetchedRecord {
    FetchedRecord { offset, bytes: serialize(&numbered(n)) }
}

fn consumer(batch_size: usize) -> KafkaConsumer {
    let mut c = AppConfig::default();
    c.consumer.batch_size = batch_size;
    KafkaConsumer::with_config(&c, Source::Events, 4).unwrap()
}

#[test]
fn default_consumer_reads_the_events_topic() {
    let c = KafkaConsumer::new().unwrap();
    assert_eq!(c.topic, "events");
    assert_eq!(c.partition, 0);
    assert_eq!(c.batch_size, 100);
    assert_eq!(c.poll_timeout_ms, 1_000);
}

#[test]
fn consumer_of_the_retry_topic() {
    let mut config = AppConfig::default();
    config.producer.retry_topic = "again".to_string();
    config.consumer.poll_timeout_ms = 250;
    let c = KafkaConsumer::with_config(&config, Source::Retry, 9).unwrap();
    assert_eq!(c.topic, "again");
    assert_eq!(c.partition, 9);
    assert_eq!(c.poll_timeout_ms, 250);
}

#[test]
fn consumer_needs_every_required_setting() {
    let mut config = AppConfig::default();
    config.consumer.group_id = String::new();
    assert_eq!(
        KafkaConsumer::with_config(&config, Source::Events, 0).err(),
        Some(FatalError::MissingConfig(ConfigField::GroupId))
    );
}

#[test]
fn fetch_asks_for_one_batch() {
    assert_eq!(
        consumer(25).fetch_request(),
        FetchRequest {
            topic: "events".to_string(),
            partition: 4,
            max_items: 25,
            poll_timeout_ms: 1_000
        }
    );
}

#[test]
fn batch_keeps_fetch_order_and_offsets() {
    let fetched = vec![record(10, 1), record(11, 2), record(15, 3)];
    let batch = consumer(100).consume_events(&fetched).unwrap();
    assert_eq!(
        batch,
        vec![
            ConsumedEvent { offset: 10, envelope: numbered(1) },
            ConsumedEvent { offset: 11, envelope: numbered(2) },
            ConsumedEvent { offset: 15, envelope: numbered(3) },
        ]
    );
}

#[test]
fn batch_is_bounded_by_the_batch_size() {
    let fetched = vec![record(1, 1), record(2, 2), record(3, 3)];
    let batch = consumer(2).consume_events(&fetched).unwrap();
    assert_eq!(batch.len(), 2);
    assert_eq!(batch[1], ConsumedEvent { offset: 2, envelope: numbered(2) });
    assert_eq!(consumer(0).consume_events(&fetched), Ok(vec![]));
    assert_eq!(consumer(3).consume_events(&fetched).unwrap().len(), 3);
}

#[test]
fn nothing_fetched_is_an_empty_batch() {
    assert_eq!(consumer(100).consume_events(&vec![]), Ok(vec![]));
}

#[test]
fn first_malformed_record_is_named() {
    let fetched = vec![
        record(1, 1),
        FetchedRecord { offset: 2, bytes: vec![1, 2, 3] },
        FetchedRecord { offset: 3, bytes: vec![] },
    ];
    assert_eq!(
        consumer(100).consume_events(&fetched),
        Err(ConsumeError::Malformed { offset: 2 })
    );
}

#[test]
fn malformed_record_beyond_the_batch_is_not_read() {
    let fetched = vec![record(1, 1), FetchedRecord { offset: 2, bytes: vec![1, 2, 3] }];
    assert_eq!(
        consumer(1).consume_events(&fetched),
        Ok(vec![ConsumedEvent { offset: 1, envelope: numbered(1) }])
    );
}
