//! The producer service: sending new events.
//!
//! An event goes to the events topic. If the broker rejects it for good it
//! is quarantined in the dead-letter topic, and the caller is told of the
//! rejection. If the broker stays unavailable the caller is told so, and
//! trying again is up to the caller.

use vstd::prelude::*;
use crate::config::AppConfig;
use crate::error::{BrokerError, DeliveryError, FatalError};
use crate::models::{EnvelopeView, EventEnvelope};
use crate::producer::{
    advance, Delivery, DeliveryReport, DeliveryReportView, DeliveryStep, DeliveryStepView,
    DeliveryView, KafkaProducer, Topic,
};

verus! {

/// A send that is under way.
#[derive(Debug, PartialEq, Eq)]
pub struct Sending {
    /// The event being sent.
    pub envelope: EventEnvelope,
    /// The publish under way.
    pub delivery: Delivery,
    /// Whether that publish is the one to the dead-letter topic.
    pub quarantining: bool,
}

/// Mathematical content of a [`Sending`].
pub struct SendingView {
    pub envelope: EnvelopeView,
    pub delivery: DeliveryView,
    pub quarantining: bool,
}

impl View for Sending {
    type V = SendingView;

    open spec fn view(&self) -> SendingView {
        SendingView {
            envelope: self.envelope@,
            delivery: self.delivery@,
            quarantining: self.quarantining,
        }
    }
}

/// What follows the broker's answer.
#[derive(Debug, PartialEq, Eq)]
pub enum SendStep {
    /// Send the request of the delivery of `sending`. If a publish has just
    /// ended, `ended` tells of it.
    Send { sending: Sending, ended: Option<DeliveryReport> },
    /// The send is over. `report` tells of the publish that ended last.
    Done { result: Result<u64, DeliveryError>, report: DeliveryReport },
}

/// Mathematical content of a [`SendStep`].
pub enum SendStepView {
    Send { sending: SendingView, ended: Option<DeliveryReportView> },
    Done { result: Result<u64, DeliveryError>, report: DeliveryReportView },
}

impl View for SendStep {
    type V = SendStepView;

    open spec fn view(&self) -> SendStepView {
        match self {
            SendStep::Send { sending, ended } => SendStepView::Send {
                sending: sending@,
                ended: match ended {
                    Some(report) => Some(report@),
                    None => None,
                },
            },
            SendStep::Done { result, report } => SendStepView::Done {
                result: *result,
                report: report@,
            },
        }
    }
}

/// The reason that tags an event which the broker rejected.
pub open spec fn rejected_reason() -> Seq<char> {
    "rejected by the broker"@
}

/// Sends new events.
#[derive(Debug, Clone)]
pub struct ProducerService {
    pub producer: KafkaProducer,
}

impl ProducerService {
    /// The send that `event` starts with: its first delivery to the events
    /// topic.
    pub open spec fn first_send(&self, event: EnvelopeView) -> SendingView {
        SendingView {
            envelope: event,
            delivery: self.producer.first_delivery(event, Topic::Events),
            quarantining: false,
        }
    }

    /// What follows when the broker answers `answer` to the request of
    /// `sending` after `call_ms` milliseconds.
    ///
    /// While the publish under way goes on, so does the send. When the
    /// publish to the events topic ends, the send ends the same way, unless
    /// the event was rejected: then it is published to the dead-letter
    /// topic, and whatever comes of that, the send ends as rejected.
    pub open spec fn sent(
        &self,
        sending: SendingView,
        answer: Result<u64, BrokerError>,
        call_ms: u32,
    ) -> SendStepView {
        match advance(sending.delivery, answer, call_ms) {
            DeliveryStepView::Retry(delivery) => SendStepView::Send {
                sending: SendingView { delivery, ..sending },
                ended: None,
            },
            DeliveryStepView::Done(report) => if sending.quarantining {
                SendStepView::Done { result: Err(DeliveryError::Rejected), report }
            } else if report.outcome == Err::<u64, DeliveryError>(DeliveryError::Rejected) {
                SendStepView::Send {
                    sending: SendingView {
                        delivery: self.producer.first_dead_letter(
                            sending.envelope,
                            rejected_reason(),
                        ),
                        quarantining: true,
                        ..sending
                    },
                    ended: Some(report),
                }
            } else {
                SendStepView::Done { result: report.outcome, report }
            },
        }
    }

    /// A producer service with the default settings.
    pub fn new() -> (made: Result<Self, FatalError>)
        ensures
            made matches Ok(service) && service.producer.config.is_default(),
    {
        ProducerService::with_config(&AppConfig::default())
    }

    /// A producer service with the given settings, unless a required one is
    /// missing.
    pub fn with_config(config: &AppConfig) -> (made: Result<Self, FatalError>)
        ensures
            match made {
                Ok(service) => config.first_missing() is None && service.producer.config
                    == config.producer,
                Err(error) => config.first_missing() matches Some(field) && error
                    == FatalError::MissingConfig(field),
            },
    {
        match KafkaProducer::with_config(config) {
            Ok(producer) => Ok(ProducerService { producer }),
            Err(error) => Err(error),
        }
    }

    /// Starts sending `event`.
    pub fn send_event(&self, event: EventEnvelope) -> (sending: Sending)
        ensures
            sending@ == self.first_send(event@),
    {
        let delivery = self.producer.send_event(&event);
        Sending { envelope: event, delivery, quarantining: false }
    }

    /// Takes the broker's answer to the request of `sending`, which came
    /// after `call_ms` milliseconds.
    pub fn advance(&self, sending: Sending, answer: Result<u64, BrokerError>, call_ms: u32) -> (step:
        SendStep)
        ensures
            step@ == self.sent(sending@, answer, call_ms),
    {
        let Sending { envelope, delivery, quarantining } = sending;
        match delivery.advance(answer, call_ms) {
            DeliveryStep::Retry(delivery) => SendStep::Send {
                sending: Sending { envelope, delivery, quarantining },
                ended: None,
            },
            DeliveryStep::Done(report) => {
                if quarantining {
                    SendStep::Done { result: Err(DeliveryError::Rejected), report }
                } else {
                    match report.outcome {
                        Err(DeliveryError::Rejected) => {
                            let delivery = self.producer.dead_letter(
                                &envelope,
                                "rejected by the broker",
                            );
                            SendStep::Send {
                                sending: Sending { envelope, delivery, quarantining: true },
                                ended: Some(report),
                            }
                        },
                        outcome => SendStep::Done { result: outcome, report },
                    }
                }
            },
        }
    }
}

/// A send ends with an offset only if the broker acknowledged the publish
/// to the events topic, and then it is the broker's offset.
pub proof fn law_send_succeeds_only_on_acknowledgement(
    service: ProducerService,
    sending: SendingView,
    answer: Result<u64, BrokerError>,
    call_ms: u32,
)
    ensures
        service.sent(sending, answer, call_ms) matches SendStepView::Done { result: Ok(offset), .. }
            ==> !sending.quarantining && answer == Ok::<u64, BrokerError>(offset),
{
}

} // verus!
