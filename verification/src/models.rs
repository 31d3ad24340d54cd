//! The event envelope: the unit of transport through the pipeline.

use vstd::prelude::*;
use vstd::string::StringExecFns;
use crate::timestamp::{ClockReading, Timestamp, TimestampView};

verus! {

/// Envelope carried for every domain event.
///
/// The payload is the text of a JSON document. The pipeline carries it and
/// never looks inside.
#[derive(Debug, PartialEq, Eq)]
pub struct EventEnvelope {
    /// Unique event identifier, assigned at creation.
    pub id: String,
    /// Tenant that owns the event.
    pub tenant_id: String,
    /// Schema kind of the event.
    pub event_type: String,
    /// JSON text of the event body.
    pub payload: String,
    /// Creation time.
    pub timestamp: Timestamp,
    /// Schema version tag.
    pub version: String,
    /// Number of processing failures so far.
    pub attempt_count: u32,
}

/// Mathematical content of an [`EventEnvelope`].
pub struct EnvelopeView {
    pub id: Seq<char>,
    pub tenant_id: Seq<char>,
    pub event_type: Seq<char>,
    pub payload: Seq<char>,
    pub timestamp: TimestampView,
    pub version: Seq<char>,
    pub attempt_count: u32,
}

impl View for EventEnvelope {
    type V = EnvelopeView;

    open spec fn view(&self) -> EnvelopeView {
        EnvelopeView {
            id: self.id@,
            tenant_id: self.tenant_id@,
            event_type: self.event_type@,
            payload: self.payload@,
            timestamp: self.timestamp@,
            version: self.version@,
            attempt_count: self.attempt_count,
        }
    }
}

/// An envelope in quarantine, with the reason of its last failure.
#[derive(Debug, PartialEq, Eq)]
pub struct DeadLetter {
    pub envelope: EventEnvelope,
    pub reason: String,
}

/// Mathematical content of a [`DeadLetter`].
pub struct DeadLetterView {
    pub envelope: EnvelopeView,
    pub reason: Seq<char>,
}

impl View for DeadLetter {
    type V = DeadLetterView;

    open spec fn view(&self) -> DeadLetterView {
        DeadLetterView { envelope: self.envelope@, reason: self.reason@ }
    }
}

/// The version tag given to every new envelope.
pub open spec fn schema_version() -> Seq<char> {
    seq!['1', '.', '0']
}

/// The partition key of a tenant and an event type: the two joined by `|`.
pub open spec fn partition_key_of(tenant_id: Seq<char>, event_type: Seq<char>) -> Seq<char> {
    tenant_id + seq!['|'] + event_type
}

/// Whether a character is a hexadecimal digit in lower case.
pub open spec fn is_lower_hex(c: char) -> bool {
    ('0' <= c && c <= '9') || ('a' <= c && c <= 'f')
}

/// The text form of a random (version 4) UUID: 36 characters, lower-case
/// hexadecimal digits in groups of 8, 4, 4, 4 and 12 with hyphens between,
/// the third group starting with `4` and the fourth with `8`, `9`, `a` or `b`.
pub open spec fn is_random_uuid_text(s: Seq<char>) -> bool {
    &&& s.len() == 36
    &&& forall|i: int|
        0 <= i < 36 ==> if i == 8 || i == 13 || i == 18 || i == 23 {
            #[trigger] s[i] == '-'
        } else {
            is_lower_hex(s[i])
        }
    &&& s[14] == '4'
    &&& (s[19] == '8' || s[19] == '9' || s[19] == 'a' || s[19] == 'b')
}

/// Whether a text is a JSON document: whether `serde_json` reads it as a
/// `Value`.
pub uninterp spec fn is_json_document(text: Seq<char>) -> bool;

/// Reads `text` with `serde_json::from_str` as a `serde_json::Value` and
/// says whether that went through.
///
/// Trusted: whether the call succeeds depends on the text alone, so that it
/// has a name, `is_json_document`. Nothing else is claimed of it.
#[verifier::external_body]
fn reads_as_json(text: &str) -> (ok: bool)
    ensures
        ok == is_json_document(text@),
{
    match serde_json::from_str::<serde_json::Value>(text) {
        Ok(_) => true,
        Err(_) => false,
    }
}

/// Draws a random identifier with `uuid::Uuid::new_v4` and renders it with
/// the `Display` of `uuid::Uuid`.
///
/// Trusted: the text is the hyphenated lower-case form, with the version and
/// variant digits that `new_v4` sets. Nothing is claimed of the other digits.
#[verifier::external_body]
fn random_uuid_text() -> (id: String)
    ensures
        is_random_uuid_text(id@),
{
    uuid::Uuid::new_v4().to_string()
}

/// Reads the clock with `chrono::Utc::now` and takes the date and the time
/// of day apart with the methods of `chrono::Datelike` and
/// `chrono::Timelike`.
///
/// Trusted: the time read is not before 1970, and each part is in the range
/// that chrono documents for it, the nanoseconds below one second.
/// `Utc::now` panics on a machine whose clock is set before 1970.
#[verifier::external_body]
fn read_utc_clock() -> (reading: ClockReading)
    ensures
        reading.year >= 1970,
        1 <= reading.month <= 12,
        1 <= reading.day <= 31,
        reading.hour <= 23,
        reading.minute <= 59,
        reading.second <= 59,
        reading.nanos <= 999_999_999,
{
    let now = chrono::Utc::now();
    ClockReading {
        year: chrono::Datelike::year(&now),
        month: chrono::Datelike::month(&now),
        day: chrono::Datelike::day(&now),
        hour: chrono::Timelike::hour(&now),
        minute: chrono::Timelike::minute(&now),
        second: chrono::Timelike::second(&now),
        nanos: chrono::Timelike::nanosecond(&now),
    }
}

impl Clone for EventEnvelope {
    fn clone(&self) -> (copy: Self)
        ensures
            copy == *self,
    {
        EventEnvelope {
            id: self.id.clone(),
            tenant_id: self.tenant_id.clone(),
            event_type: self.event_type.clone(),
            payload: self.payload.clone(),
            timestamp: self.timestamp,
            version: self.version.clone(),
            attempt_count: self.attempt_count,
        }
    }
}

impl EventEnvelope {
    /// Both routing fields are present.
    pub open spec fn well_formed(&self) -> bool {
        self.tenant_id@.len() > 0 && self.event_type@.len() > 0
    }

    /// Builds the envelope of a new event from an identifier and a creation
    /// time that the caller supplies.
    pub fn assemble(
        id: String,
        timestamp: Timestamp,
        tenant_id: String,
        event_type: String,
        payload: String,
    ) -> (envelope: Self)
        ensures
            envelope@ == (EnvelopeView {
                id: id@,
                tenant_id: tenant_id@,
                event_type: event_type@,
                payload: payload@,
                timestamp: timestamp@,
                version: schema_version(),
                attempt_count: 0,
            }),
    {
        let version = String::from_str("1.0");
        proof {
            reveal_strlit("1.0");
            assert(version@ =~= schema_version());
        }
        EventEnvelope { id, tenant_id, event_type, payload, timestamp, version, attempt_count: 0 }
    }

    /// Creates the envelope of a new event: a fresh random identifier, the
    /// current time, version `1.0` and no failed attempt. On a machine
    /// whose clock is set past the year 9999 the time is the first instant
    /// of 1970.
    ///
    /// The caller makes sure beforehand that `tenant_id` and `event_type`
    /// are not empty.
    pub fn new(tenant_id: String, event_type: String, payload: String) -> (envelope: Self)
        ensures
            envelope@.tenant_id == tenant_id@,
            envelope@.event_type == event_type@,
            envelope@.payload == payload@,
            envelope@.version == schema_version(),
            envelope@.attempt_count == 0,
            is_random_uuid_text(envelope@.id),
            envelope@.timestamp.valid(),
            envelope@.timestamp.year >= 1970,
    {
        let id = random_uuid_text();
        let timestamp = Timestamp::from_reading(read_utc_clock());
        EventEnvelope::assemble(id, timestamp, tenant_id, event_type, payload)
    }

    /// Whether both routing fields are present.
    pub fn is_well_formed(&self) -> (ok: bool)
        ensures
            ok == self.well_formed(),
    {
        !self.tenant_id.as_str().is_empty() && !self.event_type.as_str().is_empty()
    }

    /// Whether the payload is a JSON document.
    pub fn has_json_payload(&self) -> (ok: bool)
        ensures
            ok == is_json_document(self@.payload),
    {
        reads_as_json(self.payload.as_str())
    }

    /// The key by which the broker picks the partition.
    pub fn partition_key(&self) -> (key: String)
        ensures
            key@ == partition_key_of(self@.tenant_id, self@.event_type),
    {
        let mut key = self.tenant_id.clone();
        key.append("|");
        key.append(self.event_type.as_str());
        proof {
            reveal_strlit("|");
            assert("|"@ =~= seq!['|']);
        }
        key
    }

    /// A copy of this envelope that records one more failed attempt.
    pub fn next_attempt(&self) -> (envelope: Self)
        requires
            self.attempt_count < u32::MAX,
        ensures
            envelope@ == (EnvelopeView {
                attempt_count: (self.attempt_count + 1) as u32,
                ..self@
            }),
    {
        let mut envelope = self.clone();
        envelope.attempt_count = self.attempt_count + 1;
        envelope
    }
}

} // verus!
