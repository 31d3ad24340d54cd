//! The consumer side of the broker: turning fetched records into a batch.

use vstd::prelude::*;
use crate::config::AppConfig;
use crate::error::FatalError;
use crate::models::{EnvelopeView, EventEnvelope};
use crate::wire::{decoded, deserialize};

verus! {

/// The topics that a consumer may read. The dead-letter topic is not one
/// of them: nothing replays what was quarantined.
#[derive(Clone, Copy, Debug, PartialEq, Eq, Structural)]
pub enum Source {
    Events,
    Retry,
}

/// One fetch call to the broker.
#[derive(Debug, PartialEq, Eq)]
pub struct FetchRequest {
    /// Name of the topic.
    pub topic: String,
    pub partition: u32,
    /// Most records to return.
    pub max_items: usize,
    /// Longest wait for a first record, in milliseconds.
    pub poll_timeout_ms: u32,
}

/// Mathematical content of a [`FetchRequest`].
pub struct FetchRequestView {
    pub topic: Seq<char>,
    pub partition: u32,
    pub max_items: usize,
    pub poll_timeout_ms: u32,
}

impl View for FetchRequest {
    type V = FetchRequestView;

    open spec fn view(&self) -> FetchRequestView {
        FetchRequestView {
            topic: self.topic@,
            partition: self.partition,
            max_items: self.max_items,
            poll_timeout_ms: self.poll_timeout_ms,
        }
    }
}

/// A record as the broker hands it out.
#[derive(Debug, Clone, PartialEq, Eq)]
pub struct FetchedRecord {
    pub offset: u64,
    pub bytes: Vec<u8>,
}

/// An envelope with the offset it was fetched at.
#[derive(Debug, PartialEq, Eq)]
pub struct ConsumedEvent {
    pub offset: u64,
    pub envelope: EventEnvelope,
}

/// Mathematical content of a [`ConsumedEvent`].
pub struct ConsumedView {
    pub offset: u64,
    pub envelope: EnvelopeView,
}

impl View for ConsumedEvent {
    type V = ConsumedView;

    open spec fn view(&self) -> ConsumedView {
        ConsumedView { offset: self.offset, envelope: self.envelope@ }
    }
}

impl Clone for ConsumedEvent {
    fn clone(&self) -> (copy: Self)
        ensures
            copy == *self,
    {
        ConsumedEvent { offset: self.offset, envelope: self.envelope.clone() }
    }
}

/// Why fetched records did not make a batch.
#[derive(Clone, Copy, Debug, PartialEq, Eq, Structural)]
pub enum ConsumeError {
    /// The record at this offset is not the wire form of an envelope.
    Malformed { offset: u64 },
}

/// The number of records that make the batch: all that were fetched, up to
/// the batch size.
pub open spec fn batch_len(fetched: int, batch_size: int) -> int {
    if fetched <= batch_size {
        fetched
    } else {
        batch_size
    }
}

/// Whether the first `count` records all decode.
pub open spec fn all_decode(fetched: Seq<FetchedRecord>, count: int) -> bool {
    forall|i: int| 0 <= i < count ==> (#[trigger] decoded(fetched[i].bytes@)) is Some
}

/// Whether the record at `index` is the first that does not decode.
pub open spec fn is_first_malformed(fetched: Seq<FetchedRecord>, index: int) -> bool {
    all_decode(fetched, index) && decoded(fetched[index].bytes@) is None
}

/// Whether `batch` is what `fetched` decodes to, record by record and in
/// the same order.
pub open spec fn is_batch_of(batch: Seq<ConsumedEvent>, fetched: Seq<FetchedRecord>) -> bool {
    forall|i: int|
        0 <= i < batch.len() ==> (#[trigger] batch[i]).offset == fetched[i].offset && decoded(
            fetched[i].bytes@,
        ) == Some(batch[i].envelope@)
}

/// Pulls bounded batches from one partition of one topic.
#[derive(Debug, Clone)]
pub struct KafkaConsumer {
    /// Name of the topic.
    pub topic: String,
    pub partition: u32,
    /// Most envelopes in a batch.
    pub batch_size: usize,
    /// Longest wait of one fetch, in milliseconds.
    pub poll_timeout_ms: u32,
}

impl KafkaConsumer {
    /// The name that `config` gives to the topic of `source`.
    pub open spec fn source_topic(config: &AppConfig, source: Source) -> Seq<char> {
        match source {
            Source::Events => config.producer.events_topic@,
            Source::Retry => config.producer.retry_topic@,
        }
    }

    /// A consumer of partition 0 of the events topic, with the default
    /// settings.
    pub fn new() -> (made: Result<Self, FatalError>)
        ensures
            made matches Ok(consumer) && consumer.topic@ == "events"@ && consumer.partition == 0
                && consumer.batch_size == 100 && consumer.poll_timeout_ms == 1_000,
    {
        KafkaConsumer::with_config(&AppConfig::default(), Source::Events, 0)
    }

    /// A consumer of one partition of the events or the retry topic, unless
    /// a required setting is missing.
    pub fn with_config(config: &AppConfig, source: Source, partition: u32) -> (made: Result<
        Self,
        FatalError,
    >)
        ensures
            match made {
                Ok(consumer) => {
                    &&& config.first_missing() is None
                    &&& consumer.topic@ == Self::source_topic(config, source)
                    &&& consumer.partition == partition
                    &&& consumer.batch_size == config.consumer.batch_size
                    &&& consumer.poll_timeout_ms == config.consumer.poll_timeout_ms
                },
                Err(error) => config.first_missing() matches Some(field) && error
                    == FatalError::MissingConfig(field),
            },
    {
        match config.validate() {
            Ok(()) => {
                let topic = match source {
                    Source::Events => config.producer.events_topic.clone(),
                    Source::Retry => config.producer.retry_topic.clone(),
                };
                Ok(
                    KafkaConsumer {
                        topic,
                        partition,
                        batch_size: config.consumer.batch_size,
                        poll_timeout_ms: config.consumer.poll_timeout_ms,
                    },
                )
            },
            Err(error) => Err(error),
        }
    }

    /// The fetch that brings the next batch.
    pub fn fetch_request(&self) -> (request: FetchRequest)
        ensures
            request@ == (FetchRequestView {
                topic: self.topic@,
                partition: self.partition,
                max_items: self.batch_size,
                poll_timeout_ms: self.poll_timeout_ms,
            }),
    {
        FetchRequest {
            topic: self.topic.clone(),
            partition: self.partition,
            max_items: self.batch_size,
            poll_timeout_ms: self.poll_timeout_ms,
        }
    }

    /// Makes a batch of what a fetch returned: the records in fetch order,
    /// each decoded, and no more of them than the batch size.
    ///
    /// If one of these records is not the wire form of an envelope there is
    /// no batch, and the error names the first such record.
    pub fn consume_events(&self, fetched: &Vec<FetchedRecord>) -> (consumed: Result<
        Vec<ConsumedEvent>,
        ConsumeError,
    >)
        ensures
            match consumed {
                Ok(batch) => {
                    &&& batch@.len() == batch_len(fetched@.len() as int, self.batch_size as int)
                    &&& is_batch_of(batch@, fetched@)
                },
                Err(ConsumeError::Malformed { offset }) => exists|i: int|
                    {
                        &&& 0 <= i < batch_len(fetched@.len() as int, self.batch_size as int)
                        &&& #[trigger] is_first_malformed(fetched@, i)
                        &&& offset == fetched@[i].offset
                    },
            },
    {
        let count = if fetched.len() <= self.batch_size {
            fetched.len()
        } else {
            self.batch_size
        };
        let mut batch: Vec<ConsumedEvent> = Vec::new();
        let mut i: usize = 0;
        while i < count
            invariant
                i <= count <= fetched@.len(),
                count == batch_len(fetched@.len() as int, self.batch_size as int),
                batch@.len() == i,
                is_batch_of(batch@, fetched@),
                all_decode(fetched@, i as int),
            decreases count - i,
        {
            let record = &fetched[i];
            match deserialize(record.bytes.as_slice()) {
                Some(envelope) => {
                    batch.push(ConsumedEvent { offset: record.offset, envelope });
                },
                None => {
                    assert(is_first_malformed(fetched@, i as int));
                    return Err(ConsumeError::Malformed { offset: record.offset });
                },
            }
            i = i + 1;
        }
        Ok(batch)
    }
}

} // verus!
