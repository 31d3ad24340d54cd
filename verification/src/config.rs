//! Process-wide settings, fixed at startup.

use vstd::prelude::*;
use vstd::string::StringExecFns;
use crate::error::{ConfigField, FatalError};

verus! {

/// All settings of the application.
#[derive(Debug)]
pub struct AppConfig {
    /// How to reach the broker.
    pub kafka: KafkaConfig,
    /// Producer path.
    pub producer: ProducerConfig,
    /// Consumer path.
    pub consumer: ConsumerConfig,
    /// Retry and dead-letter policy.
    pub retry: RetryConfig,
    /// Logs and metrics.
    pub observability: ObservabilityConfig,
}

/// Broker connection settings.
#[derive(Debug)]
pub struct KafkaConfig {
    /// Addresses to contact first.
    pub bootstrap_servers: String,
    /// Security protocol of the connection.
    pub security_protocol: String,
}

/// Producer settings.
#[derive(Debug)]
pub struct ProducerConfig {
    /// Topic that new events are published to.
    pub events_topic: String,
    /// Topic that failed events are re-published to.
    pub retry_topic: String,
    /// Topic that quarantines events whose retries are used up.
    pub dlq_topic: String,
    /// Deadline of one publish call, in milliseconds.
    pub delivery_timeout_ms: u32,
}

/// Consumer settings.
#[derive(Debug)]
pub struct ConsumerConfig {
    /// Consumer group.
    pub group_id: String,
    /// Most envelopes pulled at once.
    pub batch_size: usize,
    /// Whether the broker client commits offsets on its own cadence.
    pub auto_commit: bool,
    /// Longest wait of one fetch, in milliseconds.
    pub poll_timeout_ms: u32,
}

/// Retry settings.
#[derive(Debug, Clone, Copy)]
pub struct RetryConfig {
    /// Failed attempts after which an envelope is dead-lettered.
    pub max_retries: u32,
    /// Delay that the backoff starts from, in milliseconds.
    pub base_delay_ms: u64,
    /// Longest backoff delay, in milliseconds.
    pub max_delay_ms: u64,
}

/// Observability settings.
#[derive(Debug)]
pub struct ObservabilityConfig {
    /// Least severe level that is logged.
    pub log_level: String,
    /// Whether log lines are JSON documents.
    pub json_logs: bool,
    /// Address that metrics are served on.
    pub metrics_addr: String,
}

impl Clone for KafkaConfig {
    fn clone(&self) -> (copy: Self)
        ensures
            copy == *self,
    {
        KafkaConfig {
            bootstrap_servers: self.bootstrap_servers.clone(),
            security_protocol: self.security_protocol.clone(),
        }
    }
}

impl Clone for ProducerConfig {
    fn clone(&self) -> (copy: Self)
        ensures
            copy == *self,
    {
        ProducerConfig {
            events_topic: self.events_topic.clone(),
            retry_topic: self.retry_topic.clone(),
            dlq_topic: self.dlq_topic.clone(),
            delivery_timeout_ms: self.delivery_timeout_ms,
        }
    }
}

impl Clone for ConsumerConfig {
    fn clone(&self) -> (copy: Self)
        ensures
            copy == *self,
    {
        ConsumerConfig {
            group_id: self.group_id.clone(),
            batch_size: self.batch_size,
            auto_commit: self.auto_commit,
            poll_timeout_ms: self.poll_timeout_ms,
        }
    }
}

impl Clone for ObservabilityConfig {
    fn clone(&self) -> (copy: Self)
        ensures
            copy == *self,
    {
        ObservabilityConfig {
            log_level: self.log_level.clone(),
            json_logs: self.json_logs,
            metrics_addr: self.metrics_addr.clone(),
        }
    }
}

impl Clone for AppConfig {
    fn clone(&self) -> (copy: Self)
        ensures
            copy == *self,
    {
        AppConfig {
            kafka: self.kafka.clone(),
            producer: self.producer.clone(),
            consumer: self.consumer.clone(),
            retry: self.retry,
            observability: self.observability.clone(),
        }
    }
}

impl KafkaConfig {
    /// The settings of a broker on this machine, without encryption.
    pub open spec fn is_default(&self) -> bool {
        &&& self.bootstrap_servers@ == "localhost:9092"@
        &&& self.security_protocol@ == "PLAINTEXT"@
    }
}

impl ProducerConfig {
    /// Topics `events`, `retry` and `dlq`, and two minutes for a publish.
    pub open spec fn is_default(&self) -> bool {
        &&& self.events_topic@ == "events"@
        &&& self.retry_topic@ == "retry"@
        &&& self.dlq_topic@ == "dlq"@
        &&& self.delivery_timeout_ms == 120_000
    }
}

impl ConsumerConfig {
    /// Batches of a hundred, committed by the pipeline itself.
    pub open spec fn is_default(&self) -> bool {
        &&& self.group_id@ == "kafka-rust-consumer"@
        &&& self.batch_size == 100
        &&& self.auto_commit == false
        &&& self.poll_timeout_ms == 1_000
    }
}

impl RetryConfig {
    /// Three failures, one second of backoff at first, a minute at most.
    pub open spec fn is_default(&self) -> bool {
        &&& self.max_retries == 3
        &&& self.base_delay_ms == 1_000
        &&& self.max_delay_ms == 60_000
    }
}

impl ObservabilityConfig {
    /// Plain log lines from level `info` up.
    pub open spec fn is_default(&self) -> bool {
        &&& self.log_level@ == "info"@
        &&& self.json_logs == false
        &&& self.metrics_addr@ == "127.0.0.1:9090"@
    }
}

impl Default for AppConfig {
    fn default() -> (config: Self)
        ensures
            config.is_default(),
            config.first_missing() is None,
    {
        proof {
            reveal_strlit("localhost:9092");
            reveal_strlit("events");
            reveal_strlit("retry");
            reveal_strlit("dlq");
            reveal_strlit("kafka-rust-consumer");
        }
        AppConfig {
            kafka: KafkaConfig {
                bootstrap_servers: String::from_str("localhost:9092"),
                security_protocol: String::from_str("PLAINTEXT"),
            },
            producer: ProducerConfig {
                events_topic: String::from_str("events"),
                retry_topic: String::from_str("retry"),
                dlq_topic: String::from_str("dlq"),
                delivery_timeout_ms: 120_000,
            },
            consumer: ConsumerConfig {
                group_id: String::from_str("kafka-rust-consumer"),
                batch_size: 100,
                auto_commit: false,
                poll_timeout_ms: 1_000,
            },
            retry: RetryConfig { max_retries: 3, base_delay_ms: 1_000, max_delay_ms: 60_000 },
            observability: ObservabilityConfig {
                log_level: String::from_str("info"),
                json_logs: false,
                metrics_addr: String::from_str("127.0.0.1:9090"),
            },
        }
    }
}

impl AppConfig {
    /// Every section has its default settings.
    pub open spec fn is_default(&self) -> bool {
        &&& self.kafka.is_default()
        &&& self.producer.is_default()
        &&& self.consumer.is_default()
        &&& self.retry.is_default()
        &&& self.observability.is_default()
    }

    /// The first required setting that is empty, in the order bootstrap
    /// servers, events topic, retry topic, dead-letter topic, group.
    pub open spec fn first_missing(&self) -> Option<ConfigField> {
        if self.kafka.bootstrap_servers@.len() == 0 {
            Some(ConfigField::BootstrapServers)
        } else if self.producer.events_topic@.len() == 0 {
            Some(ConfigField::EventsTopic)
        } else if self.producer.retry_topic@.len() == 0 {
            Some(ConfigField::RetryTopic)
        } else if self.producer.dlq_topic@.len() == 0 {
            Some(ConfigField::DlqTopic)
        } else if self.consumer.group_id@.len() == 0 {
            Some(ConfigField::GroupId)
        } else {
            None
        }
    }

    /// Checks that every required setting is there.
    pub fn validate(&self) -> (checked: Result<(), FatalError>)
        ensures
            checked == match self.first_missing() {
                Some(field) => Err::<(), FatalError>(FatalError::MissingConfig(field)),
                None => Ok::<(), FatalError>(()),
            },
    {
        if self.kafka.bootstrap_servers.as_str().is_empty() {
            Err(FatalError::MissingConfig(ConfigField::BootstrapServers))
        } else if self.producer.events_topic.as_str().is_empty() {
            Err(FatalError::MissingConfig(ConfigField::EventsTopic))
        } else if self.producer.retry_topic.as_str().is_empty() {
            Err(FatalError::MissingConfig(ConfigField::RetryTopic))
        } else if self.producer.dlq_topic.as_str().is_empty() {
            Err(FatalError::MissingConfig(ConfigField::DlqTopic))
        } else if self.consumer.group_id.as_str().is_empty() {
            Err(FatalError::MissingConfig(ConfigField::GroupId))
        } else {
            Ok(())
        }
    }
}

} // verus!
