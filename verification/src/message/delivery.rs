//! Delivery of inbox messages: which cached messages are hits, what becomes
//! of each message on the way out, and which deletions go where.
use vstd::prelude::*;
use crate::message::model::{Message, DeleteTask};

verus! {

/// The cached texts paired with their identifiers, and the identifiers the
/// cache missed, for identifiers and lookups read in the same order (pairs
/// beyond the shorter of the two are ignored).
pub open spec fn split_hits(results: Seq<Option<String>>, ids: Seq<u128>) -> (Seq<(String, u128)>, Seq<u128>)
    decreases ids.len(),
{
    if results.len() == 0 || ids.len() == 0 {
        (Seq::empty(), Seq::empty())
    } else {
        let n = if results.len() < ids.len() { results.len() } else { ids.len() };
        let prev = split_hits(results.subrange(0, n - 1), ids.subrange(0, n - 1));
        match results[n - 1] {
            Some(data) => (prev.0.push((data, ids[n - 1])), prev.1),
            None => (prev.0, prev.1.push(ids[n - 1])),
        }
    }
}

/// Splits the cache lookups into hits and misses.
pub fn partition_cache_results(results: Vec<Option<String>>, ids: Vec<u128>) -> (r: (Vec<(String, u128)>, Vec<u128>))
    ensures
        r.0@ == split_hits(results@, ids@).0,
        r.1@ == split_hits(results@, ids@).1,
{
    let n = if results.len() < ids.len() { results.len() } else { ids.len() };
    let mut hits: Vec<(String, u128)> = Vec::new();
    let mut misses: Vec<u128> = Vec::new();
    let mut i: usize = 0;
    while i < n
        invariant
            n <= results.len(),
            n <= ids.len(),
            n == results.len() || n == ids.len(),
            i <= n,
            hits@ == split_hits(results@.subrange(0, i as int), ids@.subrange(0, i as int)).0,
            misses@ == split_hits(results@.subrange(0, i as int), ids@.subrange(0, i as int)).1,
        decreases n - i,
    {
        proof {
            let r1 = results@.subrange(0, i + 1);
            let d1 = ids@.subrange(0, i + 1);
            assert(r1.subrange(0, i as int) =~= results@.subrange(0, i as int));
            assert(d1.subrange(0, i as int) =~= ids@.subrange(0, i as int));
        }
        match &results[i] {
            Some(data) => {
                hits.push((data.clone(), ids[i]));
            },
            None => {
                misses.push(ids[i]);
            },
        }
        i = i + 1;
    }
    proof {
        let rn = results@.subrange(0, n as int);
        let dn = ids@.subrange(0, n as int);
        if n == results.len() {
            assert(rn =~= results@);
        }
        if n == ids.len() {
            assert(dn =~= ids@);
        }
        lemma_split_hits_prefix(results@, ids@);
    }
    (hits, misses)
}

/// Only the common prefix of lookups and identifiers matters.
proof fn lemma_split_hits_prefix(results: Seq<Option<String>>, ids: Seq<u128>)
    ensures
        ({
            let n = if results.len() < ids.len() { results.len() } else { ids.len() };
            split_hits(results, ids) == split_hits(results.subrange(0, n as int), ids.subrange(0, n as int))
        }),
{
    let n = if results.len() < ids.len() { results.len() } else { ids.len() };
    let r = results.subrange(0, n as int);
    let d = ids.subrange(0, n as int);
    if n > 0 {
        assert(r.subrange(0, n - 1) =~= results.subrange(0, n - 1));
        assert(d.subrange(0, n - 1) =~= ids.subrange(0, n - 1));
    }
}

/// What becomes of one message on its way out of the inbox.
#[derive(Debug, Clone, Copy, PartialEq, Eq, Structural)]
pub enum DeliveryOutcome {
    /// Delivered: marked delivered and queued for deletion.
    Deliver,
    /// Its signature failed while it was cached: deleted as invalid.
    DiscardInvalid,
    /// Left in the inbox for a later fetch.
    Hold,
}

/// Decides one message's outcome from its signature check (`signature_ok`),
/// its delivery count (`counted`, `None` when the count failed) and its
/// metrics update (`metrics_ok`, consulted only for a first count).
pub fn delivery_outcome(from_cache: bool, signature_ok: bool, counted: Option<bool>, metrics_ok: bool) -> (o: DeliveryOutcome)
    ensures
        o == DeliveryOutcome::Deliver <==> signature_ok && (counted == Some(false) || (counted == Some(true) && metrics_ok)),
        o == DeliveryOutcome::DiscardInvalid <==> !signature_ok && from_cache,
        o == DeliveryOutcome::Hold <==> (!signature_ok && !from_cache) || (signature_ok && (counted is None
            || (counted == Some(true) && !metrics_ok))),
{
    if !signature_ok {
        if from_cache { DeliveryOutcome::DiscardInvalid } else { DeliveryOutcome::Hold }
    } else {
        match counted {
            None => DeliveryOutcome::Hold,
            Some(true) => if metrics_ok { DeliveryOutcome::Deliver } else { DeliveryOutcome::Hold },
            Some(false) => DeliveryOutcome::Deliver,
        }
    }
}

/// The message marked delivered at `now`.
pub fn mark_delivered(msg: Message, now: i64) -> (m: Message)
    ensures
        m == (Message { is_delivered: true, delivered_at: Some(now), ..msg }),
{
    let mut m = msg;
    m.is_delivered = true;
    m.delivered_at = Some(now);
    m
}

/// The identifiers of the messages, in order.
pub fn message_ids(msgs: &Vec<Message>) -> (ids: Vec<u128>)
    ensures
        ids@ == msgs@.map_values(|m: Message| m.id),
{
    let mut ids: Vec<u128> = Vec::new();
    let mut i: usize = 0;
    while i < msgs.len()
        invariant
            i <= msgs.len(),
            ids@ == msgs@.subrange(0, i as int).map_values(|m: Message| m.id),
        decreases msgs.len() - i,
    {
        ids.push(msgs[i].id);
        i = i + 1;
        assert(ids@ =~= msgs@.subrange(0, i as int).map_values(|m: Message| m.id));
    }
    assert(msgs@.subrange(0, i as int) =~= msgs@);
    ids
}

/// Whether a message's envelope signature is accepted outright, rejected
/// outright, or must be checked.
#[derive(Debug, Clone, Copy, PartialEq, Eq, Structural)]
pub enum EnvelopeCheck {
    Accept,
    Reject,
    Verify,
}

/// The check on the fetch path: no check when proof is not required, a
/// rejection when the signature is missing, else a verification.
pub fn envelope_check_soft(msg: &Message) -> (c: EnvelopeCheck)
    ensures
        c == (if !msg.require_proof_verification {
            EnvelopeCheck::Accept
        } else if msg.signature is None {
            EnvelopeCheck::Reject
        } else {
            EnvelopeCheck::Verify
        }),
{
    if !msg.require_proof_verification {
        EnvelopeCheck::Accept
    } else if msg.signature.is_none() {
        EnvelopeCheck::Reject
    } else {
        EnvelopeCheck::Verify
    }
}

/// The check on the table fallback path: a missing signature is rejected
/// first; an empty signature, or proof not required, is accepted; else the
/// signature is verified.
pub fn envelope_check_static(msg: &Message) -> (c: EnvelopeCheck)
    ensures
        c == (match msg.signature {
            None => EnvelopeCheck::Reject,
            Some(s) => if !msg.require_proof_verification || s@.len() == 0 {
                EnvelopeCheck::Accept
            } else {
                EnvelopeCheck::Verify
            },
        }),
{
    match &msg.signature {
        None => EnvelopeCheck::Reject,
        Some(s) => {
            if !msg.require_proof_verification || s.as_str().unicode_len() == 0 {
                EnvelopeCheck::Accept
            } else {
                EnvelopeCheck::Verify
            }
        },
    }
}

/// The identifiers of the tasks with `is_group_message == group`, in order.
pub open spec fn tasks_of_kind(tasks: Seq<DeleteTask>, group: bool) -> Seq<u128>
    decreases tasks.len(),
{
    if tasks.len() == 0 {
        Seq::empty()
    } else if tasks.last().is_group_message == group {
        tasks_of_kind(tasks.drop_last(), group).push(tasks.last().msg_id)
    } else {
        tasks_of_kind(tasks.drop_last(), group)
    }
}

/// Splits deletions into direct messages, which are deleted, and group
/// messages, which are marked delivered.
pub fn split_delete_tasks(tasks: &Vec<DeleteTask>) -> (r: (Vec<u128>, Vec<u128>))
    ensures
        r.0@ == tasks_of_kind(tasks@, false),
        r.1@ == tasks_of_kind(tasks@, true),
{
    let mut direct: Vec<u128> = Vec::new();
    let mut group: Vec<u128> = Vec::new();
    let mut i: usize = 0;
    while i < tasks.len()
        invariant
            i <= tasks.len(),
            direct@ == tasks_of_kind(tasks@.subrange(0, i as int), false),
            group@ == tasks_of_kind(tasks@.subrange(0, i as int), true),
        decreases tasks.len() - i,
    {
        assert(tasks@.subrange(0, i + 1).drop_last() =~= tasks@.subrange(0, i as int));
        let t = tasks[i];
        if t.is_group_message {
            group.push(t.msg_id);
        } else {
            direct.push(t.msg_id);
        }
        i = i + 1;
    }
    assert(tasks@.subrange(0, i as int) =~= tasks@);
    (direct, group)
}

} // verus!
