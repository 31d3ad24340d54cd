//! Partition routing.

use vstd::prelude::*;
use crate::models::{partition_key_of, EnvelopeView, EventEnvelope};

verus! {

/// Derives the partition key of an envelope. The producer uses it to pick
/// a partition, and it travels as the key of the record, so that whoever
/// re-publishes the envelope routes it the same way.
#[derive(Debug, Clone, Copy)]
pub struct PartitionRouter;

impl PartitionRouter {
    /// The partition key of `envelope`: its tenant and its event type,
    /// joined by `|`. Nothing else of the envelope, and nothing outside it,
    /// has a part in the key.
    pub fn route(envelope: &EventEnvelope) -> (key: String)
        ensures
            key@ == partition_key_of(envelope@.tenant_id, envelope@.event_type),
    {
        envelope.partition_key()
    }
}

/// Envelopes of the same tenant and event type have the same partition key,
/// whatever else they hold, and so keep their order at the broker.
pub proof fn law_same_tenant_and_type_same_key(a: EnvelopeView, b: EnvelopeView)
    requires
        a.tenant_id == b.tenant_id,
        a.event_type == b.event_type,
    ensures
        partition_key_of(a.tenant_id, a.event_type) == partition_key_of(b.tenant_id, b.event_type),
{
}

/// Where no tenant holds a `|`, envelopes with the same partition key have
/// the same tenant and the same event type: no two streams share a key.
pub proof fn law_same_key_same_tenant_and_type(a: EnvelopeView, b: EnvelopeView)
    requires
        !a.tenant_id.contains('|'),
        !b.tenant_id.contains('|'),
        partition_key_of(a.tenant_id, a.event_type) == partition_key_of(b.tenant_id, b.event_type),
    ensures
        a.tenant_id == b.tenant_id,
        a.event_type == b.event_type,
{
    let ka = partition_key_of(a.tenant_id, a.event_type);
    let kb = partition_key_of(b.tenant_id, b.event_type);
    let la = a.tenant_id.len() as int;
    let lb = b.tenant_id.len() as int;
    assert(ka[la] == '|');
    assert(kb[lb] == '|');
    if la < lb {
        assert(kb[la] == b.tenant_id[la]);
        assert(b.tenant_id.contains('|'));
    }
    if lb < la {
        assert(ka[lb] == a.tenant_id[lb]);
        assert(a.tenant_id.contains('|'));
    }
    assert(a.tenant_id =~= ka.subrange(0, la));
    assert(b.tenant_id =~= kb.subrange(0, lb));
    assert(a.event_type =~= ka.subrange(la + 1, ka.len() as int));
    assert(b.event_type =~= kb.subrange(lb + 1, kb.len() as int));
}

} // verus!
