//! The wire form of an envelope.
//!
//! An envelope travels as one record of its seven fields, in the order id,
//! tenant, event type, payload, timestamp, version, attempt count. A text
//! field is its UTF-8 length as eight little-endian bytes, then its UTF-8
//! bytes. The timestamp is its ISO-8601 form in UTC, thirty ASCII
//! characters. The attempt count is four little-endian bytes. Nothing
//! follows the last field.
//!
//! A dead letter travels as the reason of its last failure, a text field,
//! and then the envelope.

use vstd::prelude::*;
use vstd::bytes::{
    spec_u32_from_le_bytes, spec_u32_to_le_bytes, spec_u64_from_le_bytes, spec_u64_to_le_bytes,
    u32_from_le_bytes, u32_to_le_bytes, u64_from_le_bytes, u64_to_le_bytes,
    lemma_auto_spec_u32_to_from_le_bytes, lemma_auto_spec_u64_to_from_le_bytes,
};
use vstd::slice::{slice_subrange, slice_to_vec};
use vstd::utf8::{
    decode_utf8, encode_utf8, valid_utf8, decode_utf8_encode_utf8, encode_utf8_decode_utf8,
    encode_utf8_valid_utf8,
};
use vstd::string::StringSliceAdditionalSpecFns;
use crate::models::{DeadLetter, DeadLetterView, EnvelopeView, EventEnvelope};
use crate::timestamp::{
    iso_text, law_only_iso_text_is_read, law_time_reads_back, parsed_time, Timestamp,
    TimestampView,
};

verus! {

/// A text field on the wire: the length of its UTF-8 form, then that form.
pub open spec fn text_frame(text: Seq<char>) -> Seq<u8> {
    spec_u64_to_le_bytes(encode_utf8(text).len() as u64) + encode_utf8(text)
}

/// Whether every text field is short enough for its length to be written
/// down, and the timestamp has every part in its range. This holds of every
/// envelope in memory.
pub open spec fn encodable(v: EnvelopeView) -> bool {
    &&& v.timestamp.valid()
    &&& encode_utf8(v.id).len() <= u64::MAX
    &&& encode_utf8(v.tenant_id).len() <= u64::MAX
    &&& encode_utf8(v.event_type).len() <= u64::MAX
    &&& encode_utf8(v.payload).len() <= u64::MAX
    &&& encode_utf8(v.version).len() <= u64::MAX
}

/// The bytes that stand for an envelope on the wire.
pub open spec fn wire_bytes(v: EnvelopeView) -> Seq<u8> {
    text_frame(v.id) + text_frame(v.tenant_id) + text_frame(v.event_type) + text_frame(v.payload)
        + iso_text(v.timestamp) + text_frame(v.version) + spec_u32_to_le_bytes(
        v.attempt_count,
    )
}

/// The bytes that stand for a dead letter on the wire.
pub open spec fn dead_letter_bytes(letter: DeadLetterView) -> Seq<u8> {
    text_frame(letter.reason) + wire_bytes(letter.envelope)
}

/// The dead letter that a record stands for, if it stands for one.
///
/// [`law_dead_letter_round_trip`] and [`law_only_dead_letters_decode`] say
/// which.
pub closed spec fn decoded_dead_letter(bytes: Seq<u8>) -> Option<DeadLetterView> {
    match parse_text(bytes) {
        None => None,
        Some(reason) => match parse_envelope(reason.rest) {
            None => None,
            Some(envelope) => Some(DeadLetterView { envelope, reason: reason.value }),
        },
    }
}

/// The envelope that a record stands for, if it stands for one.
///
/// [`law_round_trip`] and [`law_only_wire_forms_decode`] say which: `decoded`
/// undoes `wire_bytes`, and gives nothing for any other bytes.
pub closed spec fn decoded(bytes: Seq<u8>) -> Option<EnvelopeView> {
    parse_envelope(bytes)
}

/// A field taken off the front of a record, and the bytes after it.
struct Taken<T> {
    value: T,
    rest: Seq<u8>,
}

spec fn parse_u64(bytes: Seq<u8>) -> Option<Taken<u64>> {
    if bytes.len() < 8 {
        None
    } else {
        Some(
            Taken {
                value: spec_u64_from_le_bytes(bytes.subrange(0, 8)),
                rest: bytes.subrange(8, bytes.len() as int),
            },
        )
    }
}

spec fn parse_u32(bytes: Seq<u8>) -> Option<Taken<u32>> {
    if bytes.len() < 4 {
        None
    } else {
        Some(
            Taken {
                value: spec_u32_from_le_bytes(bytes.subrange(0, 4)),
                rest: bytes.subrange(4, bytes.len() as int),
            },
        )
    }
}

spec fn parse_time(bytes: Seq<u8>) -> Option<Taken<TimestampView>> {
    if bytes.len() < 30 {
        None
    } else {
        match parsed_time(bytes.subrange(0, 30)) {
            None => None,
            Some(time) => Some(Taken { value: time, rest: bytes.subrange(30, bytes.len() as int) }),
        }
    }
}

spec fn parse_text(bytes: Seq<u8>) -> Option<Taken<Seq<char>>> {
    match parse_u64(bytes) {
        None => None,
        Some(len) => {
            if len.value > len.rest.len() || !valid_utf8(len.rest.subrange(0, len.value as int)) {
                None
            } else {
                Some(
                    Taken {
                        value: decode_utf8(len.rest.subrange(0, len.value as int)),
                        rest: len.rest.subrange(len.value as int, len.rest.len() as int),
                    },
                )
            }
        },
    }
}

spec fn parse_envelope(bytes: Seq<u8>) -> Option<EnvelopeView> {
    match parse_text(bytes) {
        None => None,
        Some(id) => match parse_text(id.rest) {
            None => None,
            Some(tenant_id) => match parse_text(tenant_id.rest) {
                None => None,
                Some(event_type) => match parse_text(event_type.rest) {
                    None => None,
                    Some(payload) => match parse_time(payload.rest) {
                        None => None,
                        Some(timestamp) => match parse_text(timestamp.rest) {
                            None => None,
                            Some(version) => match parse_u32(version.rest) {
                                None => None,
                                Some(attempt_count) => if attempt_count.rest.len() == 0 {
                                    Some(
                                        EnvelopeView {
                                            id: id.value,
                                            tenant_id: tenant_id.value,
                                            event_type: event_type.value,
                                            payload: payload.value,
                                            timestamp: timestamp.value,
                                            version: version.value,
                                            attempt_count: attempt_count.value,
                                        },
                                    )
                                } else {
                                    None
                                },
                            },
                        },
                    },
                },
            },
        },
    }
}

/// The wire form with its fields grouped from the right, as the parser
/// takes them off.
spec fn nested_bytes(v: EnvelopeView) -> Seq<u8> {
    text_frame(v.id) + (text_frame(v.tenant_id) + (text_frame(v.event_type) + (text_frame(
        v.payload,
    ) + (iso_text(v.timestamp) + (text_frame(v.version) + (spec_u32_to_le_bytes(v.attempt_count)
        + Seq::<u8>::empty()))))))
}

proof fn lemma_nested_is_flat(v: EnvelopeView)
    ensures
        nested_bytes(v) == wire_bytes(v),
{
    assert(nested_bytes(v) =~= wire_bytes(v));
}

proof fn lemma_u64_front(x: u64, rest: Seq<u8>)
    ensures
        parse_u64(spec_u64_to_le_bytes(x) + rest) == Some(Taken { value: x, rest }),
{
    lemma_auto_spec_u64_to_from_le_bytes();
    let bytes = spec_u64_to_le_bytes(x) + rest;
    assert(bytes.subrange(0, 8) =~= spec_u64_to_le_bytes(x));
    assert(bytes.subrange(8, bytes.len() as int) =~= rest);
}

proof fn lemma_u64_back(bytes: Seq<u8>)
    requires
        parse_u64(bytes) is Some,
    ensures
        bytes == spec_u64_to_le_bytes(parse_u64(bytes).unwrap().value) + parse_u64(bytes).unwrap().rest,
{
    lemma_auto_spec_u64_to_from_le_bytes();
    let head = bytes.subrange(0, 8);
    assert(spec_u64_to_le_bytes(spec_u64_from_le_bytes(head)) == head);
    assert(bytes =~= head + bytes.subrange(8, bytes.len() as int));
}

proof fn lemma_u32_front(x: u32, rest: Seq<u8>)
    ensures
        parse_u32(spec_u32_to_le_bytes(x) + rest) == Some(Taken { value: x, rest }),
{
    lemma_auto_spec_u32_to_from_le_bytes();
    let bytes = spec_u32_to_le_bytes(x) + rest;
    assert(bytes.subrange(0, 4) =~= spec_u32_to_le_bytes(x));
    assert(bytes.subrange(4, bytes.len() as int) =~= rest);
}

proof fn lemma_u32_back(bytes: Seq<u8>)
    requires
        parse_u32(bytes) is Some,
    ensures
        bytes == spec_u32_to_le_bytes(parse_u32(bytes).unwrap().value) + parse_u32(bytes).unwrap().rest,
{
    lemma_auto_spec_u32_to_from_le_bytes();
    let head = bytes.subrange(0, 4);
    assert(spec_u32_to_le_bytes(spec_u32_from_le_bytes(head)) == head);
    assert(bytes =~= head + bytes.subrange(4, bytes.len() as int));
}

proof fn lemma_time_front(time: TimestampView, rest: Seq<u8>)
    requires
        time.valid(),
    ensures
        parse_time(iso_text(time) + rest) == Some(Taken { value: time, rest }),
{
    law_time_reads_back(time);
    let bytes = iso_text(time) + rest;
    assert(bytes.subrange(0, 30) =~= iso_text(time));
    assert(bytes.subrange(30, bytes.len() as int) =~= rest);
}

proof fn lemma_time_back(bytes: Seq<u8>)
    requires
        parse_time(bytes) is Some,
    ensures
        bytes == iso_text(parse_time(bytes).unwrap().value) + parse_time(bytes).unwrap().rest,
        parse_time(bytes).unwrap().value.valid(),
{
    law_only_iso_text_is_read(bytes.subrange(0, 30));
    assert(bytes =~= bytes.subrange(0, 30) + bytes.subrange(30, bytes.len() as int));
}

proof fn lemma_text_front(text: Seq<char>, rest: Seq<u8>)
    requires
        encode_utf8(text).len() <= u64::MAX,
    ensures
        parse_text(text_frame(text) + rest) == Some(Taken { value: text, rest }),
{
    let raw = encode_utf8(text);
    let len = raw.len() as u64;
    let tail = raw + rest;
    assert(text_frame(text) + rest =~= spec_u64_to_le_bytes(len) + tail);
    lemma_u64_front(len, tail);
    assert(tail.subrange(0, len as int) =~= raw);
    assert(tail.subrange(len as int, tail.len() as int) =~= rest);
    encode_utf8_valid_utf8(text);
    encode_utf8_decode_utf8(text);
}

proof fn lemma_text_back(bytes: Seq<u8>)
    requires
        parse_text(bytes) is Some,
    ensures
        bytes == text_frame(parse_text(bytes).unwrap().value) + parse_text(bytes).unwrap().rest,
        encode_utf8(parse_text(bytes).unwrap().value).len() <= u64::MAX,
{
    lemma_u64_back(bytes);
    let len = parse_u64(bytes).unwrap().value;
    let tail = parse_u64(bytes).unwrap().rest;
    let raw = tail.subrange(0, len as int);
    decode_utf8_encode_utf8(raw);
    assert(tail =~= raw + tail.subrange(len as int, tail.len() as int));
    assert(bytes =~= text_frame(decode_utf8(raw)) + tail.subrange(len as int, tail.len() as int));
}

/// Reading back what was written gives the envelope that was written, in
/// every field.
pub proof fn law_round_trip(v: EnvelopeView)
    requires
        encodable(v),
    ensures
        decoded(wire_bytes(v)) == Some(v),
{
    lemma_nested_is_flat(v);
    let r7 = Seq::<u8>::empty();
    let r6 = spec_u32_to_le_bytes(v.attempt_count) + r7;
    let r5 = text_frame(v.version) + r6;
    let r4 = iso_text(v.timestamp) + r5;
    let r3 = text_frame(v.payload) + r4;
    let r2 = text_frame(v.event_type) + r3;
    let r1 = text_frame(v.tenant_id) + r2;
    lemma_text_front(v.id, r1);
    lemma_text_front(v.tenant_id, r2);
    lemma_text_front(v.event_type, r3);
    lemma_text_front(v.payload, r4);
    lemma_time_front(v.timestamp, r5);
    lemma_text_front(v.version, r6);
    lemma_u32_front(v.attempt_count, r7);
}

/// Bytes decode only if they are the wire form of the envelope they decode
/// to: no other record is accepted.
pub proof fn law_only_wire_forms_decode(bytes: Seq<u8>)
    requires
        decoded(bytes) is Some,
    ensures
        wire_bytes(decoded(bytes).unwrap()) == bytes,
        encodable(decoded(bytes).unwrap()),
{
    let v = decoded(bytes).unwrap();
    lemma_nested_is_flat(v);
    lemma_text_back(bytes);
    let r1 = parse_text(bytes).unwrap().rest;
    lemma_text_back(r1);
    let r2 = parse_text(r1).unwrap().rest;
    lemma_text_back(r2);
    let r3 = parse_text(r2).unwrap().rest;
    lemma_text_back(r3);
    let r4 = parse_text(r3).unwrap().rest;
    lemma_time_back(r4);
    let r5 = parse_time(r4).unwrap().rest;
    lemma_text_back(r5);
    let r6 = parse_text(r5).unwrap().rest;
    lemma_u32_back(r6);
    let r7 = parse_u32(r6).unwrap().rest;
    assert(r7 =~= Seq::<u8>::empty());
}

/// Reading back a dead letter gives the envelope and the reason that were
/// written.
pub proof fn law_dead_letter_round_trip(letter: DeadLetterView)
    requires
        encodable(letter.envelope),
        encode_utf8(letter.reason).len() <= u64::MAX,
    ensures
        decoded_dead_letter(dead_letter_bytes(letter)) == Some(letter),
{
    lemma_text_front(letter.reason, wire_bytes(letter.envelope));
    law_round_trip(letter.envelope);
}

/// Bytes decode as a dead letter only if they are the wire form of the
/// dead letter they decode to.
pub proof fn law_only_dead_letters_decode(bytes: Seq<u8>)
    requires
        decoded_dead_letter(bytes) is Some,
    ensures
        dead_letter_bytes(decoded_dead_letter(bytes).unwrap()) == bytes,
        encodable(decoded_dead_letter(bytes).unwrap().envelope),
        encode_utf8(decoded_dead_letter(bytes).unwrap().reason).len() <= u64::MAX,
{
    lemma_text_back(bytes);
    law_only_wire_forms_decode(parse_text(bytes).unwrap().rest);
}

/// Two envelopes with the same wire form are the same envelope.
pub proof fn law_wire_form_tells_envelopes_apart(v: EnvelopeView, w: EnvelopeView)
    requires
        encodable(v),
        encodable(w),
        wire_bytes(v) == wire_bytes(w),
    ensures
        v == w,
{
    law_round_trip(v);
    law_round_trip(w);
}

/// Checks bytes with `String::from_utf8` and makes them a string.
///
/// Trusted: the call succeeds exactly on valid UTF-8, and the string it
/// gives consists of the bytes handed in.
#[verifier::external_body]
fn text_from_utf8(raw: Vec<u8>) -> (text: Option<String>)
    ensures
        text is Some <==> valid_utf8(raw@),
        text matches Some(t) ==> encode_utf8(t@) == raw@,
{
    match String::from_utf8(raw) {
        Ok(text) => Some(text),
        Err(_) => None,
    }
}

fn put_text(out: &mut Vec<u8>, text: &str)
    ensures
        final(out)@ == old(out)@ + text_frame(text@),
        encode_utf8(text@).len() <= u64::MAX,
{
    let raw = text.as_bytes();
    let mut len = u64_to_le_bytes(raw.len() as u64);
    let mut body = slice_to_vec(raw);
    out.append(&mut len);
    out.append(&mut body);
    assert(out@ =~= old(out)@ + text_frame(text@));
}

fn take_u64(bytes: &[u8], at: usize) -> (taken: Option<(u64, usize)>)
    requires
        at <= bytes@.len(),
    ensures
        match taken {
            Some((value, next)) => at <= next <= bytes@.len() && parse_u64(
                bytes@.subrange(at as int, bytes@.len() as int),
            ) == Some(Taken { value, rest: bytes@.subrange(next as int, bytes@.len() as int) }),
            None => parse_u64(bytes@.subrange(at as int, bytes@.len() as int)) is None,
        },
{
    if bytes.len() - at < 8 {
        return None;
    }
    let value = u64_from_le_bytes(slice_subrange(bytes, at, at + 8));
    proof {
        let from = bytes@.subrange(at as int, bytes@.len() as int);
        assert(from.subrange(0, 8) =~= bytes@.subrange(at as int, at + 8));
        assert(from.subrange(8, from.len() as int) =~= bytes@.subrange(
            at + 8,
            bytes@.len() as int,
        ));
    }
    Some((value, at + 8))
}

fn take_u32(bytes: &[u8], at: usize) -> (taken: Option<(u32, usize)>)
    requires
        at <= bytes@.len(),
    ensures
        match taken {
            Some((value, next)) => at <= next <= bytes@.len() && parse_u32(
                bytes@.subrange(at as int, bytes@.len() as int),
            ) == Some(Taken { value, rest: bytes@.subrange(next as int, bytes@.len() as int) }),
            None => parse_u32(bytes@.subrange(at as int, bytes@.len() as int)) is None,
        },
{
    if bytes.len() - at < 4 {
        return None;
    }
    let value = u32_from_le_bytes(slice_subrange(bytes, at, at + 4));
    proof {
        let from = bytes@.subrange(at as int, bytes@.len() as int);
        assert(from.subrange(0, 4) =~= bytes@.subrange(at as int, at + 4));
        assert(from.subrange(4, from.len() as int) =~= bytes@.subrange(
            at + 4,
            bytes@.len() as int,
        ));
    }
    Some((value, at + 4))
}

fn take_time(bytes: &[u8], at: usize) -> (taken: Option<(Timestamp, usize)>)
    requires
        at <= bytes@.len(),
    ensures
        match taken {
            Some((time, next)) => at <= next <= bytes@.len() && parse_time(
                bytes@.subrange(at as int, bytes@.len() as int),
            ) == Some(
                Taken { value: time@, rest: bytes@.subrange(next as int, bytes@.len() as int) },
            ),
            None => parse_time(bytes@.subrange(at as int, bytes@.len() as int)) is None,
        },
{
    if bytes.len() - at < 30 {
        return None;
    }
    proof {
        let from = bytes@.subrange(at as int, bytes@.len() as int);
        assert(from.subrange(0, 30) =~= bytes@.subrange(at as int, at + 30));
        assert(from.subrange(30, from.len() as int) =~= bytes@.subrange(
            at + 30,
            bytes@.len() as int,
        ));
    }
    match Timestamp::from_iso8601(slice_subrange(bytes, at, at + 30)) {
        Some(time) => Some((time, at + 30)),
        None => None,
    }
}

fn take_text(bytes: &[u8], at: usize) -> (taken: Option<(String, usize)>)
    requires
        at <= bytes@.len(),
    ensures
        match taken {
            Some((text, next)) => at <= next <= bytes@.len() && parse_text(
                bytes@.subrange(at as int, bytes@.len() as int),
            ) == Some(
                Taken { value: text@, rest: bytes@.subrange(next as int, bytes@.len() as int) },
            ),
            None => parse_text(bytes@.subrange(at as int, bytes@.len() as int)) is None,
        },
{
    let (len, start) = match take_u64(bytes, at) {
        Some(taken) => taken,
        None => { return None; },
    };
    if len > (bytes.len() - start) as u64 {
        return None;
    }
    let end: usize = start + len as usize;
    let raw = slice_to_vec(slice_subrange(bytes, start, end));
    proof {
        let rest = bytes@.subrange(start as int, bytes@.len() as int);
        assert(rest.subrange(0, len as int) =~= raw@);
        assert(rest.subrange(len as int, rest.len() as int) =~= bytes@.subrange(
            end as int,
            bytes@.len() as int,
        ));
    }
    match text_from_utf8(raw) {
        Some(text) => {
            proof {
                encode_utf8_decode_utf8(text@);
            }
            Some((text, end))
        },
        None => None,
    }
}

/// Writes an envelope in its wire form.
pub fn serialize(envelope: &EventEnvelope) -> (bytes: Vec<u8>)
    ensures
        bytes@ == wire_bytes(envelope@),
        encodable(envelope@),
        decoded(bytes@) == Some(envelope@),
{
    let mut out: Vec<u8> = Vec::new();
    put_text(&mut out, envelope.id.as_str());
    put_text(&mut out, envelope.tenant_id.as_str());
    put_text(&mut out, envelope.event_type.as_str());
    put_text(&mut out, envelope.payload.as_str());
    let mut timestamp = envelope.timestamp.to_iso8601();
    out.append(&mut timestamp);
    put_text(&mut out, envelope.version.as_str());
    let mut attempt_count = u32_to_le_bytes(envelope.attempt_count);
    out.append(&mut attempt_count);
    proof {
        assert(out@ =~= wire_bytes(envelope@));
        law_round_trip(envelope@);
    }
    out
}

/// Reads an envelope from its wire form.
///
/// The result is `Some` exactly when `bytes` is the wire form of an
/// envelope, and then it is that envelope.
pub fn deserialize(bytes: &[u8]) -> (envelope: Option<EventEnvelope>)
    ensures
        match envelope {
            Some(e) => decoded(bytes@) == Some(e@) && wire_bytes(e@) == bytes@,
            None => decoded(bytes@) is None && forall|v: EnvelopeView|
                encodable(v) ==> #[trigger] wire_bytes(v) != bytes@,
        },
{
    proof {
        assert(bytes@.subrange(0, bytes@.len() as int) =~= bytes@);
        if decoded(bytes@) is Some {
            law_only_wire_forms_decode(bytes@);
        }
        assert forall|v: EnvelopeView| encodable(v) && decoded(bytes@) is None implies #[trigger]
        wire_bytes(v) != bytes@ by {
            law_round_trip(v);
        }
    }
    let (id, at) = match take_text(bytes, 0) {
        Some(taken) => taken,
        None => { return None; },
    };
    let (tenant_id, at) = match take_text(bytes, at) {
        Some(taken) => taken,
        None => { return None; },
    };
    let (event_type, at) = match take_text(bytes, at) {
        Some(taken) => taken,
        None => { return None; },
    };
    let (payload, at) = match take_text(bytes, at) {
        Some(taken) => taken,
        None => { return None; },
    };
    let (timestamp, at) = match take_time(bytes, at) {
        Some(taken) => taken,
        None => { return None; },
    };
    let (version, at) = match take_text(bytes, at) {
        Some(taken) => taken,
        None => { return None; },
    };
    let (attempt_count, at) = match take_u32(bytes, at) {
        Some(taken) => taken,
        None => { return None; },
    };
    if at != bytes.len() {
        return None;
    }
    Some(
        EventEnvelope {
            id,
            tenant_id,
            event_type,
            payload,
            timestamp,
            version,
            attempt_count,
        },
    )
}

/// Writes a dead letter in its wire form.
pub fn serialize_dead_letter(envelope: &EventEnvelope, reason: &str) -> (bytes: Vec<u8>)
    ensures
        bytes@ == dead_letter_bytes(DeadLetterView { envelope: envelope@, reason: reason@ }),
        decoded_dead_letter(bytes@) == Some(
            DeadLetterView { envelope: envelope@, reason: reason@ },
        ),
{
    let mut out: Vec<u8> = Vec::new();
    put_text(&mut out, reason);
    let mut body = serialize(envelope);
    out.append(&mut body);
    proof {
        assert(out@ =~= dead_letter_bytes(DeadLetterView { envelope: envelope@, reason: reason@ }));
        law_dead_letter_round_trip(DeadLetterView { envelope: envelope@, reason: reason@ });
    }
    out
}

/// Reads a dead letter from its wire form.
///
/// The result is `Some` exactly when `bytes` is the wire form of a dead
/// letter, and then it is that dead letter.
pub fn deserialize_dead_letter(bytes: &[u8]) -> (letter: Option<DeadLetter>)
    ensures
        match letter {
            Some(l) => decoded_dead_letter(bytes@) == Some(l@) && dead_letter_bytes(l@) == bytes@,
            None => decoded_dead_letter(bytes@) is None,
        },
{
    proof {
        assert(bytes@.subrange(0, bytes@.len() as int) =~= bytes@);
        if decoded_dead_letter(bytes@) is Some {
            law_only_dead_letters_decode(bytes@);
        }
    }
    let (reason, at) = match take_text(bytes, 0) {
        Some(taken) => taken,
        None => { return None; },
    };
    match deserialize(slice_subrange(bytes, at, bytes.len())) {
        Some(envelope) => Some(DeadLetter { envelope, reason }),
        None => None,
    }
}

} // verus!
