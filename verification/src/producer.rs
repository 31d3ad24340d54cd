//! The producer path: publishing one envelope to one topic.
//!
//! A publish is a short exchange with the broker. [`KafkaProducer::publish`]
//! says what to send first; [`Delivery::advance`] takes the broker's answer
//! and says whether to send once more or how the publish ended. The caller
//! does the sending and the waiting.

use vstd::prelude::*;
use crate::config::{AppConfig, ProducerConfig};
use crate::error::{BrokerError, DeliveryError, FatalError};
use crate::models::{partition_key_of, DeadLetterView, EnvelopeView, EventEnvelope};
use crate::retry::{RetryDecision, RetryDecisionView};
use crate::wire::{dead_letter_bytes, serialize, serialize_dead_letter, wire_bytes};

verus! {

/// The three topics of the pipeline.
#[derive(Clone, Copy, Debug, PartialEq, Eq, Structural)]
pub enum Topic {
    /// New events.
    Events,
    /// Events waiting for another attempt.
    Retry,
    /// Events whose retries are used up.
    DeadLetter,
}

/// One publish call to the broker.
#[derive(Debug, PartialEq, Eq)]
pub struct PublishRequest {
    /// Name of the topic.
    pub topic: String,
    /// Partition key.
    pub key: String,
    /// The envelope in its wire form.
    pub payload: Vec<u8>,
    /// Time that the broker may take to acknowledge, in milliseconds.
    pub deadline_ms: u32,
}

/// Mathematical content of a [`PublishRequest`].
pub struct PublishRequestView {
    pub topic: Seq<char>,
    pub key: Seq<char>,
    pub payload: Seq<u8>,
    pub deadline_ms: u32,
}

impl View for PublishRequest {
    type V = PublishRequestView;

    open spec fn view(&self) -> PublishRequestView {
        PublishRequestView {
            topic: self.topic@,
            key: self.key@,
            payload: self.payload@,
            deadline_ms: self.deadline_ms,
        }
    }
}

/// A publish that is under way.
#[derive(Debug, PartialEq, Eq)]
pub struct Delivery {
    /// What to send to the broker now.
    pub request: PublishRequest,
    /// Tenant of the envelope, for the report.
    pub tenant_id: String,
    /// Event type of the envelope, for the report.
    pub event_type: String,
    /// Whether the one internal retry is spent.
    pub retried: bool,
    /// Time spent on earlier calls, in milliseconds.
    pub elapsed_ms: u64,
}

/// Mathematical content of a [`Delivery`].
pub struct DeliveryView {
    pub request: PublishRequestView,
    pub tenant_id: Seq<char>,
    pub event_type: Seq<char>,
    pub retried: bool,
    pub elapsed_ms: u64,
}

impl View for Delivery {
    type V = DeliveryView;

    open spec fn view(&self) -> DeliveryView {
        DeliveryView {
            request: self.request@,
            tenant_id: self.tenant_id@,
            event_type: self.event_type@,
            retried: self.retried,
            elapsed_ms: self.elapsed_ms,
        }
    }
}

/// How a publish ended: what is logged and measured of it. The payload is
/// not among it.
#[derive(Debug, PartialEq, Eq)]
pub struct DeliveryReport {
    pub tenant_id: String,
    pub event_type: String,
    /// Name of the topic.
    pub topic: String,
    /// The offset that the broker gave, or why there is none.
    pub outcome: Result<u64, DeliveryError>,
    /// Time from the first call to the last answer, in milliseconds.
    pub latency_ms: u64,
}

/// Mathematical content of a [`DeliveryReport`].
pub struct DeliveryReportView {
    pub tenant_id: Seq<char>,
    pub event_type: Seq<char>,
    pub topic: Seq<char>,
    pub outcome: Result<u64, DeliveryError>,
    pub latency_ms: u64,
}

impl View for DeliveryReport {
    type V = DeliveryReportView;

    open spec fn view(&self) -> DeliveryReportView {
        DeliveryReportView {
            tenant_id: self.tenant_id@,
            event_type: self.event_type@,
            topic: self.topic@,
            outcome: self.outcome,
            latency_ms: self.latency_ms,
        }
    }
}

/// What follows the broker's answer.
#[derive(Debug, PartialEq, Eq)]
pub enum DeliveryStep {
    /// Send the request of this delivery.
    Retry(Delivery),
    /// The publish is over.
    Done(DeliveryReport),
}

/// Mathematical content of a [`DeliveryStep`].
pub enum DeliveryStepView {
    Retry(DeliveryView),
    Done(DeliveryReportView),
}

impl View for DeliveryStep {
    type V = DeliveryStepView;

    open spec fn view(&self) -> DeliveryStepView {
        match self {
            DeliveryStep::Retry(delivery) => DeliveryStepView::Retry(delivery@),
            DeliveryStep::Done(report) => DeliveryStepView::Done(report@),
        }
    }
}

/// The time spent after one more call, held at the largest number that
/// fits.
pub open spec fn time_spent(before_ms: u64, call_ms: u32) -> u64 {
    if before_ms + call_ms > u64::MAX {
        u64::MAX
    } else {
        (before_ms + call_ms) as u64
    }
}

/// The report of a delivery that ends with `outcome`.
pub open spec fn report_of(
    delivery: DeliveryView,
    outcome: Result<u64, DeliveryError>,
    call_ms: u32,
) -> DeliveryReportView {
    DeliveryReportView {
        tenant_id: delivery.tenant_id,
        event_type: delivery.event_type,
        topic: delivery.request.topic,
        outcome,
        latency_ms: time_spent(delivery.elapsed_ms, call_ms),
    }
}

/// What follows when the broker answers `answer` to the request of
/// `delivery` after `call_ms` milliseconds.
///
/// An acknowledgement ends the publish with the offset. A lasting refusal
/// ends it as rejected, at once. A passing failure is retried once, with
/// what is left of the deadline, if anything is left; otherwise the publish
/// ends as unavailable.
pub open spec fn advance(
    delivery: DeliveryView,
    answer: Result<u64, BrokerError>,
    call_ms: u32,
) -> DeliveryStepView {
    match answer {
        Ok(offset) => DeliveryStepView::Done(report_of(delivery, Ok(offset), call_ms)),
        Err(BrokerError::Permanent) => DeliveryStepView::Done(
            report_of(delivery, Err(DeliveryError::Rejected), call_ms),
        ),
        Err(BrokerError::Transient) => if !delivery.retried && call_ms
            < delivery.request.deadline_ms {
            DeliveryStepView::Retry(
                DeliveryView {
                    request: PublishRequestView {
                        deadline_ms: (delivery.request.deadline_ms - call_ms) as u32,
                        ..delivery.request
                    },
                    retried: true,
                    elapsed_ms: time_spent(delivery.elapsed_ms, call_ms),
                    ..delivery
                },
            )
        } else {
            DeliveryStepView::Done(report_of(delivery, Err(DeliveryError::Unavailable), call_ms))
        },
    }
}

impl Delivery {
    /// Takes the broker's answer to the request of this delivery, which
    /// came after `call_ms` milliseconds.
    pub fn advance(self, answer: Result<u64, BrokerError>, call_ms: u32) -> (step: DeliveryStep)
        ensures
            step@ == advance(self@, answer, call_ms),
    {
        let spent: u64 = self.elapsed_ms.saturating_add(call_ms as u64);
        let outcome = match answer {
            Ok(offset) => Ok(offset),
            Err(BrokerError::Permanent) => Err(DeliveryError::Rejected),
            Err(BrokerError::Transient) => {
                if !self.retried && call_ms < self.request.deadline_ms {
                    let request = PublishRequest {
                        topic: self.request.topic,
                        key: self.request.key,
                        payload: self.request.payload,
                        deadline_ms: self.request.deadline_ms - call_ms,
                    };
                    return DeliveryStep::Retry(
                        Delivery {
                            request,
                            tenant_id: self.tenant_id,
                            event_type: self.event_type,
                            retried: true,
                            elapsed_ms: spent,
                        },
                    );
                }
                Err(DeliveryError::Unavailable)
            },
        };
        DeliveryStep::Done(
            DeliveryReport {
                tenant_id: self.tenant_id,
                event_type: self.event_type,
                topic: self.request.topic,
                outcome,
                latency_ms: spent,
            },
        )
    }
}

/// The delivery client of the producer path.
#[derive(Debug, Clone)]
pub struct KafkaProducer {
    pub config: ProducerConfig,
}

impl KafkaProducer {
    /// The configured name of a topic.
    pub open spec fn topic_name(&self, topic: Topic) -> Seq<char> {
        match topic {
            Topic::Events => self.config.events_topic@,
            Topic::Retry => self.config.retry_topic@,
            Topic::DeadLetter => self.config.dlq_topic@,
        }
    }

    /// The delivery that publishing `envelope` to `topic` starts with: the
    /// envelope in its wire form, keyed by its partition key, with the whole
    /// delivery deadline and the retry unspent.
    pub open spec fn first_delivery(&self, envelope: EnvelopeView, topic: Topic) -> DeliveryView {
        DeliveryView {
            request: PublishRequestView {
                topic: self.topic_name(topic),
                key: partition_key_of(envelope.tenant_id, envelope.event_type),
                payload: wire_bytes(envelope),
                deadline_ms: self.config.delivery_timeout_ms,
            },
            tenant_id: envelope.tenant_id,
            event_type: envelope.event_type,
            retried: false,
            elapsed_ms: 0,
        }
    }

    /// The delivery that quarantining `envelope` starts with: like a first
    /// delivery to the dead-letter topic, but of the envelope together with
    /// the reason.
    pub open spec fn first_dead_letter(
        &self,
        envelope: EnvelopeView,
        reason: Seq<char>,
    ) -> DeliveryView {
        DeliveryView {
            request: PublishRequestView {
                payload: dead_letter_bytes(DeadLetterView { envelope, reason }),
                ..self.first_delivery(envelope, Topic::DeadLetter).request
            },
            ..self.first_delivery(envelope, Topic::DeadLetter)
        }
    }

    /// The delivery that carrying out `decision` starts with.
    pub open spec fn first_republish(&self, decision: RetryDecisionView) -> DeliveryView {
        match decision {
            RetryDecisionView::Retry { envelope, .. } => self.first_delivery(
                envelope,
                Topic::Retry,
            ),
            RetryDecisionView::DeadLetter { envelope, reason } => self.first_dead_letter(
                envelope,
                reason,
            ),
        }
    }

    /// A producer with the default settings.
    pub fn new() -> (made: Result<Self, FatalError>)
        ensures
            made matches Ok(producer) && producer.config.is_default(),
    {
        KafkaProducer::with_config(&AppConfig::default())
    }

    /// A producer with the given settings, unless a required one is
    /// missing.
    pub fn with_config(config: &AppConfig) -> (made: Result<Self, FatalError>)
        ensures
            match made {
                Ok(producer) => config.first_missing() is None && producer.config
                    == config.producer,
                Err(error) => config.first_missing() matches Some(field) && error
                    == FatalError::MissingConfig(field),
            },
    {
        match config.validate() {
            Ok(()) => Ok(KafkaProducer { config: config.producer.clone() }),
            Err(error) => Err(error),
        }
    }

    /// The name of a topic.
    pub fn name_of(&self, topic: Topic) -> (name: String)
        ensures
            name@ == self.topic_name(topic),
    {
        match topic {
            Topic::Events => self.config.events_topic.clone(),
            Topic::Retry => self.config.retry_topic.clone(),
            Topic::DeadLetter => self.config.dlq_topic.clone(),
        }
    }

    /// Starts publishing `envelope` to `topic`.
    pub fn publish(&self, envelope: &EventEnvelope, topic: Topic) -> (delivery: Delivery)
        ensures
            delivery@ == self.first_delivery(envelope@, topic),
    {
        Delivery {
            request: PublishRequest {
                topic: self.name_of(topic),
                key: envelope.partition_key(),
                payload: serialize(envelope),
                deadline_ms: self.config.delivery_timeout_ms,
            },
            tenant_id: envelope.tenant_id.clone(),
            event_type: envelope.event_type.clone(),
            retried: false,
            elapsed_ms: 0,
        }
    }

    /// Starts publishing `event` to the events topic.
    pub fn send_event(&self, event: &EventEnvelope) -> (delivery: Delivery)
        ensures
            delivery@ == self.first_delivery(event@, Topic::Events),
    {
        self.publish(event, Topic::Events)
    }

    /// Starts publishing `envelope` to the dead-letter topic, tagged with
    /// `reason`.
    pub fn dead_letter(&self, envelope: &EventEnvelope, reason: &str) -> (delivery: Delivery)
        ensures
            delivery@ == self.first_dead_letter(envelope@, reason@),
    {
        Delivery {
            request: PublishRequest {
                topic: self.name_of(Topic::DeadLetter),
                key: envelope.partition_key(),
                payload: serialize_dead_letter(envelope, reason),
                deadline_ms: self.config.delivery_timeout_ms,
            },
            tenant_id: envelope.tenant_id.clone(),
            event_type: envelope.event_type.clone(),
            retried: false,
            elapsed_ms: 0,
        }
    }

    /// Starts the publish that `decision` asks for, once its backoff is
    /// over: to the retry topic, or, with the reason, to the dead-letter
    /// topic.
    pub fn republish(&self, decision: &RetryDecision) -> (delivery: Delivery)
        ensures
            delivery@ == self.first_republish(decision@),
    {
        match decision {
            RetryDecision::Retry { envelope, backoff_ms: _ } => self.publish(envelope, Topic::Retry),
            RetryDecision::DeadLetter { envelope, reason } => self.dead_letter(
                envelope,
                reason.as_str(),
            ),
        }
    }
}

/// A publish ends after at most two answers of the broker: the first ends
/// it or leads to the one retry, and the answer to the retry ends it.
pub proof fn law_publish_ends_within_two_answers(
    delivery: DeliveryView,
    first: Result<u64, BrokerError>,
    first_ms: u32,
    second: Result<u64, BrokerError>,
    second_ms: u32,
)
    ensures
        advance(delivery, first, first_ms) matches DeliveryStepView::Retry(again) ==> {
            &&& !delivery.retried
            &&& first == Err::<u64, BrokerError>(BrokerError::Transient)
            &&& again.retried
            &&& again.request.deadline_ms + first_ms == delivery.request.deadline_ms
            &&& advance(again, second, second_ms) is Done
        },
{
}

/// One passing failure does not show: if the broker fails in a passing way
/// before the deadline and then acknowledges, the publish ends with the
/// offset of the acknowledgement.
pub proof fn law_one_transient_failure_is_absorbed(
    delivery: DeliveryView,
    first_ms: u32,
    offset: u64,
    second_ms: u32,
)
    requires
        !delivery.retried,
        first_ms < delivery.request.deadline_ms,
    ensures
        advance(delivery, Err(BrokerError::Transient), first_ms) matches DeliveryStepView::Retry(
            again,
        ) && advance(again, Ok(offset), second_ms) matches DeliveryStepView::Done(report)
            && report.outcome == Ok::<u64, DeliveryError>(offset) && report.topic
            == delivery.request.topic,
{
}

/// Every publish ends in one of three ways, and the way follows the last
/// answer of the broker: an acknowledgement gives its offset, a lasting
/// refusal gives rejected, a passing failure gives unavailable.
pub proof fn law_outcome_follows_last_answer(
    delivery: DeliveryView,
    answer: Result<u64, BrokerError>,
    call_ms: u32,
)
    ensures
        advance(delivery, answer, call_ms) matches DeliveryStepView::Done(report) ==> {
            &&& report.outcome == match answer {
                Ok(offset) => Ok::<u64, DeliveryError>(offset),
                Err(BrokerError::Permanent) => Err(DeliveryError::Rejected),
                Err(BrokerError::Transient) => Err(DeliveryError::Unavailable),
            }
            &&& report.tenant_id == delivery.tenant_id
            &&& report.event_type == delivery.event_type
            &&& report.topic == delivery.request.topic
        },
        answer == Err::<u64, BrokerError>(BrokerError::Permanent) ==> advance(
            delivery,
            answer,
            call_ms,
        ) is Done,
        answer is Ok ==> advance(delivery, answer, call_ms) is Done,
{
}

} // verus!
