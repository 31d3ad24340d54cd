//! The failures that the pipeline tells apart.

use vstd::prelude::*;

verus! {

/// How a publish on the producer path can fail.
#[derive(Clone, Copy, Debug, PartialEq, Eq, Structural)]
pub enum DeliveryError {
    /// The broker kept failing in a passing way, or the deadline ran out.
    /// Trying again later is up to the caller.
    Unavailable,
    /// The broker refused the message for good.
    Rejected,
}

/// What a broker can answer to one publish call that did not succeed.
#[derive(Clone, Copy, Debug, PartialEq, Eq, Structural)]
pub enum BrokerError {
    /// A passing condition: no leader for the partition, a timeout.
    Transient,
    /// A lasting refusal: the message is too large, the topic is invalid.
    Permanent,
}

/// A setting without which the pipeline cannot start.
#[derive(Clone, Copy, Debug, PartialEq, Eq, Structural)]
pub enum ConfigField {
    BootstrapServers,
    EventsTopic,
    RetryTopic,
    DlqTopic,
    GroupId,
}

/// A condition found at startup that ends the process.
#[derive(Clone, Copy, Debug, PartialEq, Eq, Structural)]
pub enum FatalError {
    /// A required setting is empty.
    MissingConfig(ConfigField),
}

} // verus!
