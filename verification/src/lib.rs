//! Reliable event delivery on top of a partitioned log broker.
//!
//! The producer path routes an envelope to a partition key and publishes it
//! with one bounded internal retry. The consumer path pulls bounded batches,
//! hands each envelope to a handler, and on failure re-routes it through a
//! retry topic with exponential backoff until it is quarantined in a
//! dead-letter topic. Offsets are committed only once the fate of every
//! envelope of a batch is settled.
//!
//! All broker and handler work happens outside this crate: the services here
//! are state machines that say what to do next and are told what came of it.

pub mod timestamp;
pub mod models;
pub mod error;
pub mod config;
pub mod retry;
pub mod wire;
pub mod producer;
pub mod router;
pub mod consumer;
pub mod processor;
pub mod observability;
pub mod handlers;

pub use config::{
    AppConfig, ConsumerConfig, KafkaConfig, ObservabilityConfig, ProducerConfig, RetryConfig,
};
pub use consumer::{ConsumeError, ConsumedEvent, FetchRequest, FetchedRecord, KafkaConsumer, Source};
pub use error::{BrokerError, ConfigField, DeliveryError, FatalError};
pub use handlers::{ProducerService, SendStep, Sending};
pub use models::{DeadLetter, EventEnvelope};
pub use observability::{Label, Level, LogEntry, Metric, NoopSink, ObservabilitySink};
pub use processor::{Action, ConsumerService, Event, Phase, Resolution, Tally, Transition};
pub use producer::{
    Delivery, DeliveryReport, DeliveryStep, KafkaProducer, PublishRequest, Topic,
};
pub use retry::{RetryCoordinator, RetryDecision};
pub use router::PartitionRouter;
pub use timestamp::{ClockReading, Timestamp};
