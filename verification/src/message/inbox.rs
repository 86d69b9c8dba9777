//! Inbox views: status summaries, grouping by sender, and a sender's pages.
use vstd::prelude::*;
use crate::message::model::{Message, InboxStatus, InboxEntry, GroupedInbox, SenderMessages};

verus! {

// =============================================================================
// Inbox status
// =============================================================================

/// The earliest creation instant among the messages.
pub open spec fn min_created(ms: Seq<Message>) -> Option<i64>
    decreases ms.len(),
{
    if ms.len() == 0 {
        None
    } else {
        match min_created(ms.drop_last()) {
            None => Some(ms.last().created_at),
            Some(t) => if ms.last().created_at < t { Some(ms.last().created_at) } else { Some(t) },
        }
    }
}

/// The latest creation instant among the messages.
pub open spec fn max_created(ms: Seq<Message>) -> Option<i64>
    decreases ms.len(),
{
    if ms.len() == 0 {
        None
    } else {
        match max_created(ms.drop_last()) {
            None => Some(ms.last().created_at),
            Some(t) => if ms.last().created_at > t { Some(ms.last().created_at) } else { Some(t) },
        }
    }
}

/// The total content size of the messages.
pub open spec fn size_sum(ms: Seq<Message>) -> int
    decreases ms.len(),
{
    if ms.len() == 0 {
        0
    } else {
        size_sum(ms.drop_last()) + ms.last().content_size_bytes
    }
}

/// Every running total of the sizes fits in `i64`.
pub open spec fn sizes_fit(ms: Seq<Message>) -> bool {
    forall|k: int| 0 <= k <= ms.len() ==> i64::MIN <= #[trigger] size_sum(ms.subrange(0, k)) <= i64::MAX
}

/// The status of an inbox whose messages are `ms`.
pub open spec fn status_of(ms: Seq<Message>) -> InboxStatus {
    InboxStatus {
        unread_count: ms.len() as usize,
        oldest_unread_at: min_created(ms),
        newest_unread_at: max_created(ms),
        total_size_bytes: size_sum(ms) as i64,
    }
}

/// Law: an inbox's oldest and newest instants are the least and the
/// greatest creation instant of its messages (none for an empty inbox).
pub proof fn lemma_status_bounds(ms: Seq<Message>)
    ensures
        ms.len() == 0 <==> min_created(ms) is None,
        ms.len() == 0 <==> max_created(ms) is None,
        min_created(ms) matches Some(o) ==> (forall|i: int| 0 <= i < ms.len() ==> o <= (#[trigger] ms[i]).created_at)
            && exists|i: int| 0 <= i < ms.len() && (#[trigger] ms[i]).created_at == o,
        max_created(ms) matches Some(n) ==> (forall|i: int| 0 <= i < ms.len() ==> n >= (#[trigger] ms[i]).created_at)
            && exists|i: int| 0 <= i < ms.len() && (#[trigger] ms[i]).created_at == n,
    decreases ms.len(),
{
    if ms.len() > 0 {
        let t = ms.drop_last();
        lemma_status_bounds(t);
        let l = ms.len() - 1;
        assert(ms[l] == ms.last());
        assert forall|i: int| 0 <= i < l implies #[trigger] ms[i] == t[i] by {}
        match min_created(t) {
            None => {},
            Some(o) => {
                let k = choose|i: int| 0 <= i < t.len() && (#[trigger] t[i]).created_at == o;
                assert(ms[k] == t[k]);
            },
        }
        match max_created(t) {
            None => {},
            Some(n) => {
                let k = choose|i: int| 0 <= i < t.len() && (#[trigger] t[i]).created_at == n;
                assert(ms[k] == t[k]);
            },
        }
    }
}

/// The status computed over the messages read from the cache.
pub fn cached_inbox_stats(ms: &Vec<Message>) -> (s: InboxStatus)
    requires
        sizes_fit(ms@),
    ensures
        s == status_of(ms@),
{
    let mut oldest: Option<i64> = None;
    let mut newest: Option<i64> = None;
    let mut total: i64 = 0;
    let mut count: usize = 0;
    let mut i: usize = 0;
    assert(ms@.subrange(0, 0) =~= Seq::<Message>::empty());
    while i < ms.len()
        invariant
            i <= ms.len(),
            sizes_fit(ms@),
            count == i,
            oldest == min_created(ms@.subrange(0, i as int)),
            newest == max_created(ms@.subrange(0, i as int)),
            total == size_sum(ms@.subrange(0, i as int)),
        decreases ms.len() - i,
    {
        let ghost pre = ms@.subrange(0, i as int);
        let ghost cur = ms@.subrange(0, i + 1);
        assert(cur.drop_last() =~= pre);
        assert(cur.last() == ms@[i as int]);
        let m = &ms[i];
        assert(i64::MIN <= size_sum(cur) <= i64::MAX);
        total = total + m.content_size_bytes;
        oldest = match oldest {
            None => Some(m.created_at),
            Some(t) => if m.created_at < t { Some(m.created_at) } else { Some(t) },
        };
        newest = match newest {
            None => Some(m.created_at),
            Some(t) => if m.created_at > t { Some(m.created_at) } else { Some(t) },
        };
        count = count + 1;
        i = i + 1;
    }
    assert(ms@.subrange(0, ms.len() as int) =~= ms@);
    InboxStatus { unread_count: count, oldest_unread_at: oldest, newest_unread_at: newest, total_size_bytes: total }
}

/// Summary figures read from the message table.
#[derive(Debug, Clone, Copy, PartialEq, Eq, Structural)]
pub struct DbInboxStats {
    pub oldest: Option<i64>,
    pub newest: Option<i64>,
    pub total_size: Option<i64>,
    pub count: i64,
}

/// The status of an inbox that is only in the table: empty when nothing is
/// undelivered, else the table's figures.
pub fn table_inbox_status(unread: i64, oldest: Option<i64>, newest: Option<i64>, total_size: Option<i64>) -> (s: InboxStatus)
    requires
        0 <= unread <= usize::MAX,
    ensures
        unread == 0 ==> s == (InboxStatus { unread_count: 0, oldest_unread_at: None, newest_unread_at: None, total_size_bytes: 0 }),
        unread != 0 ==> s == (InboxStatus {
            unread_count: unread as usize,
            oldest_unread_at: oldest,
            newest_unread_at: newest,
            total_size_bytes: match total_size { Some(v) => v, None => 0 },
        }),
{
    if unread == 0 {
        InboxStatus { unread_count: 0, oldest_unread_at: None, newest_unread_at: None, total_size_bytes: 0 }
    } else {
        InboxStatus {
            unread_count: unread as usize,
            oldest_unread_at: oldest,
            newest_unread_at: newest,
            total_size_bytes: match total_size { Some(v) => v, None => 0 },
        }
    }
}

/// The identifiers of `ids` that `found` does not hold, in order.
pub open spec fn not_found(ids: Seq<u128>, found: Seq<u128>) -> Seq<u128>
    decreases ids.len(),
{
    if ids.len() == 0 {
        Seq::empty()
    } else if found.contains(ids.last()) {
        not_found(ids.drop_last(), found)
    } else {
        not_found(ids.drop_last(), found).push(ids.last())
    }
}

/// Whether `found` holds `id`.
fn holds_id(found: &Vec<u128>, id: u128) -> (b: bool)
    ensures
        b == found@.contains(id),
{
    let mut i: usize = 0;
    while i < found.len()
        invariant
            i <= found.len(),
            forall|j: int| 0 <= j < i ==> found@[j] != id,
        decreases found.len() - i,
    {
        if found[i] == id {
            assert(found@[i as int] == id);
            return true;
        }
        i = i + 1;
    }
    false
}

/// The inbox's identifiers whose messages the cache did not give (`found`
/// holds those it gave), in inbox order: their figures are looked up in
/// the table.
pub fn missing_ids(ids: &Vec<u128>, found: &Vec<u128>) -> (res: Vec<u128>)
    ensures
        res@ == not_found(ids@, found@),
{
    let mut res: Vec<u128> = Vec::new();
    let mut i: usize = 0;
    assert(ids@.subrange(0, 0) =~= Seq::<u128>::empty());
    while i < ids.len()
        invariant
            i <= ids.len(),
            res@ == not_found(ids@.subrange(0, i as int), found@),
        decreases ids.len() - i,
    {
        assert(ids@.subrange(0, i + 1).drop_last() =~= ids@.subrange(0, i as int));
        assert(ids@.subrange(0, i + 1).last() == ids@[i as int]);
        if !holds_id(found, ids[i]) {
            res.push(ids[i]);
        }
        i = i + 1;
    }
    assert(ids@.subrange(0, ids.len() as int) =~= ids@);
    res
}

/// The earlier of two optional instants.
pub open spec fn earlier(a: Option<i64>, b: Option<i64>) -> Option<i64> {
    match (a, b) {
        (None, _) => b,
        (Some(x), None) => Some(x),
        (Some(x), Some(y)) => if y < x { Some(y) } else { Some(x) },
    }
}

/// The later of two optional instants.
pub open spec fn later(a: Option<i64>, b: Option<i64>) -> Option<i64> {
    match (a, b) {
        (None, _) => b,
        (Some(x), None) => Some(x),
        (Some(x), Some(y)) => if y > x { Some(y) } else { Some(x) },
    }
}

/// The status after adding the table's figures for the messages the cache
/// did not hold.
pub open spec fn merged_status(s: InboxStatus, db: DbInboxStats) -> InboxStatus {
    InboxStatus {
        unread_count: (s.unread_count + db.count) as usize,
        oldest_unread_at: earlier(s.oldest_unread_at, db.oldest),
        newest_unread_at: later(s.newest_unread_at, db.newest),
        total_size_bytes: (s.total_size_bytes + match db.total_size { Some(v) => v as int, None => 0 }) as i64,
    }
}

/// Law: merging the table's figures into a status adds the counts and the
/// sizes, takes the oldest of the two oldest instants and the newest of the
/// two newest ones (an absent instant leaves the other).
pub proof fn lemma_merged_status(s: InboxStatus, db: DbInboxStats)
    requires
        0 <= db.count,
        s.unread_count + db.count <= usize::MAX,
        i64::MIN <= s.total_size_bytes + match db.total_size { Some(v) => v as int, None => 0 } <= i64::MAX,
    ensures
        ({
            let r = merged_status(s, db);
            &&& r.unread_count == s.unread_count + db.count
            &&& r.total_size_bytes == s.total_size_bytes + match db.total_size { Some(v) => v as int, None => 0 }
            &&& s.oldest_unread_at is Some && db.oldest is Some ==> ({
                let (x, y) = (s.oldest_unread_at->0, db.oldest->0);
                r.oldest_unread_at is Some && r.oldest_unread_at->0 <= x && r.oldest_unread_at->0 <= y
                    && (r.oldest_unread_at->0 == x || r.oldest_unread_at->0 == y)
            })
            &&& s.oldest_unread_at is None ==> r.oldest_unread_at == db.oldest
            &&& db.oldest is None ==> r.oldest_unread_at == s.oldest_unread_at
            &&& s.newest_unread_at is Some && db.newest is Some ==> ({
                let (x, y) = (s.newest_unread_at->0, db.newest->0);
                r.newest_unread_at is Some && r.newest_unread_at->0 >= x && r.newest_unread_at->0 >= y
                    && (r.newest_unread_at->0 == x || r.newest_unread_at->0 == y)
            })
            &&& s.newest_unread_at is None ==> r.newest_unread_at == db.newest
            &&& db.newest is None ==> r.newest_unread_at == s.newest_unread_at
        }),
{
}

/// Adds the table's figures to a status.
pub fn merge_table_stats(s: InboxStatus, db: DbInboxStats) -> (r: InboxStatus)
    requires
        0 <= db.count,
        s.unread_count + db.count <= usize::MAX,
        i64::MIN <= s.total_size_bytes + match db.total_size { Some(v) => v as int, None => 0 } <= i64::MAX,
    ensures
        r == merged_status(s, db),
{
    let size = match db.total_size { Some(v) => v, None => 0 };
    let oldest = match db.oldest {
        Some(t) => Some(match s.oldest_unread_at {
            None => t,
            Some(e) => if t < e { t } else { e },
        }),
        None => s.oldest_unread_at,
    };
    let newest = match db.newest {
        Some(t) => Some(match s.newest_unread_at {
            None => t,
            Some(e) => if t > e { t } else { e },
        }),
        None => s.newest_unread_at,
    };
    InboxStatus {
        unread_count: s.unread_count + db.count as usize,
        oldest_unread_at: oldest,
        newest_unread_at: newest,
        total_size_bytes: s.total_size_bytes + size,
    }
}

// =============================================================================
// Grouping by sender
// =============================================================================

/// Messages `i` and `j` come from the same sender key.
pub open spec fn same_sender(ms: Seq<Message>, i: int, j: int) -> bool {
    ms[i].envelope_public_key@ == ms[j].envelope_public_key@
}

/// Message `i` is its sender's latest: no message of the sender is newer,
/// and none as new comes before it.
pub open spec fn is_latest(ms: Seq<Message>, i: int) -> bool {
    forall|j: int| 0 <= j < ms.len() && #[trigger] same_sender(ms, i, j) ==>
        ms[j].created_at < ms[i].created_at || (ms[j].created_at == ms[i].created_at && i <= j)
}

/// How many messages the sender of message `i` has.
pub open spec fn sender_count(ms: Seq<Message>, i: int) -> nat {
    Set::new(|j: int| 0 <= j < ms.len() && same_sender(ms, i, j)).len()
}

/// Entry `a` goes before entry `b`: newer latest message first, and among
/// equally new ones the one read later first.
pub open spec fn entry_before(ms: Seq<Message>, a: int, b: int) -> bool {
    ms[a].created_at > ms[b].created_at || (ms[a].created_at == ms[b].created_at && a > b)
}

/// The grouping of `ms` into entries given by the indices `idx` of the
/// entries' latest messages: one index per sender, each its sender's latest,
/// in entry order.
pub open spec fn grouping_indices(ms: Seq<Message>, idx: Seq<int>) -> bool {
    &&& forall|k: int| 0 <= k < idx.len() ==> 0 <= #[trigger] idx[k] < ms.len() && is_latest(ms, idx[k])
    &&& forall|i: int| 0 <= i < ms.len() && is_latest(ms, i) ==> exists|k: int| 0 <= k < idx.len() && #[trigger] idx[k] == i
    &&& forall|k: int, l: int| 0 <= k < l < idx.len() ==> entry_before(ms, #[trigger] idx[k], #[trigger] idx[l])
}

fn is_latest_at(ms: &Vec<Message>, i: usize) -> (b: bool)
    requires
        i < ms.len(),
    ensures
        b == is_latest(ms@, i as int),
{
    let mut j: usize = 0;
    while j < ms.len()
        invariant
            i < ms.len(),
            j <= ms.len(),
            forall|k: int| 0 <= k < j && #[trigger] same_sender(ms@, i as int, k) ==>
                ms@[k].created_at < ms@[i as int].created_at || (ms@[k].created_at == ms@[i as int].created_at && i <= k),
        decreases ms.len() - j,
    {
        if ms[j].envelope_public_key == ms[i].envelope_public_key {
            assert(same_sender(ms@, i as int, j as int));
            if !(ms[j].created_at < ms[i].created_at || (ms[j].created_at == ms[i].created_at && i <= j)) {
                return false;
            }
        }
        j = j + 1;
    }
    true
}

fn count_sender(ms: &Vec<Message>, i: usize) -> (n: usize)
    requires
        i < ms.len(),
    ensures
        n == sender_count(ms@, i as int),
{
    let mut n: usize = 0;
    let mut j: usize = 0;
    let ghost mut seen: Set<int> = Set::empty();
    while j < ms.len()
        invariant
            i < ms.len(),
            j <= ms.len(),
            seen == Set::new(|k: int| 0 <= k < j && same_sender(ms@, i as int, k)),
            seen.finite(),
            n == seen.len(),
            n <= j,
        decreases ms.len() - j,
    {
        let ghost old_seen = seen;
        if ms[j].envelope_public_key == ms[i].envelope_public_key {
            proof {
                seen = seen.insert(j as int);
                assert(!old_seen.contains(j as int));
            }
            n = n + 1;
        }
        j = j + 1;
        proof {
            assert(seen =~= Set::new(|k: int| 0 <= k < j && same_sender(ms@, i as int, k)));
        }
    }
    assert(seen =~= Set::new(|k: int| 0 <= k < ms.len() && same_sender(ms@, i as int, k)));
    n
}

/// Inserts index `x` into the ordered `idx`, keeping entry order.
fn insert_ordered(ms: &Vec<Message>, idx: &mut Vec<usize>, x: usize)
    requires
        x < ms.len(),
        forall|k: int| 0 <= k < old(idx).len() ==> #[trigger] old(idx)@[k] < ms.len() && old(idx)@[k] != x,
        forall|k: int, l: int| 0 <= k < l < old(idx).len() ==> entry_before(ms@, #[trigger] old(idx)@[k] as int, #[trigger] old(idx)@[l] as int),
    ensures
        final(idx)@.len() == old(idx)@.len() + 1,
        forall|k: int| 0 <= k < final(idx).len() ==> #[trigger] final(idx)@[k] < ms.len(),
        forall|k: int, l: int| 0 <= k < l < final(idx).len() ==> entry_before(ms@, #[trigger] final(idx)@[k] as int, #[trigger] final(idx)@[l] as int),
        final(idx)@.to_multiset() == old(idx)@.to_multiset().insert(x),
{
    let mut p: usize = 0;
    while p < idx.len() && entry_before_exec(ms, idx[p], x)
        invariant
            x < ms.len(),
            p <= idx.len(),
            forall|k: int| 0 <= k < idx.len() ==> #[trigger] idx@[k] < ms.len() && idx@[k] != x,
            forall|k: int| 0 <= k < p ==> entry_before(ms@, #[trigger] idx@[k] as int, x as int),
        decreases idx.len() - p,
    {
        p = p + 1;
    }
    let ghost before = idx@;
    proof {
        if p < before.len() {
            assert(!entry_before(ms@, before[p as int] as int, x as int));
            assert(entry_before(ms@, x as int, before[p as int] as int));
            assert forall|l: int| p <= l < before.len() implies entry_before(ms@, x as int, #[trigger] before[l] as int) by {
                if l > p {
                    assert(entry_before(ms@, before[p as int] as int, before[l] as int));
                }
            }
        }
    }
    idx.insert(p, x);
    proof {
        assert(idx@ =~= before.subrange(0, p as int).push(x) + before.subrange(p as int, before.len() as int));
        assert forall|k: int, l: int| 0 <= k < l < idx.len() implies entry_before(ms@, #[trigger] idx@[k] as int, #[trigger] idx@[l] as int) by {
            if l < p {
            } else if l == p {
                assert(idx@[l] == x);
            } else if k < p {
                assert(idx@[l] == before[l - 1]);
                assert(entry_before(ms@, before[k] as int, x as int));
                assert(entry_before(ms@, x as int, before[l - 1] as int));
            } else if k == p {
                assert(idx@[k] == x);
                assert(idx@[l] == before[l - 1]);
            } else {
                assert(idx@[k] == before[k - 1]);
                assert(idx@[l] == before[l - 1]);
            }
        }
        vstd::seq_lib::lemma_seq_union_to_multiset_commutative::<usize>(before.subrange(0, p as int), before.subrange(p as int, before.len() as int));
        assert(before =~= before.subrange(0, p as int) + before.subrange(p as int, before.len() as int));
        vstd::seq_lib::lemma_multiset_commutative::<usize>(before.subrange(0, p as int).push(x), before.subrange(p as int, before.len() as int));
        vstd::seq_lib::lemma_multiset_commutative::<usize>(before.subrange(0, p as int), before.subrange(p as int, before.len() as int));
        assert(before.subrange(0, p as int).push(x).to_multiset() =~= before.subrange(0, p as int).to_multiset().insert(x)) by {
            before.subrange(0, p as int).to_multiset_ensures();
        }
    }
}

fn entry_before_exec(ms: &Vec<Message>, a: usize, b: usize) -> (r: bool)
    requires
        a < ms.len(),
        b < ms.len(),
    ensures
        r == entry_before(ms@, a as int, b as int),
{
    ms[a].created_at > ms[b].created_at || (ms[a].created_at == ms[b].created_at && a > b)
}

/// Entry `k` of `entries` describes the sender of message `i`: its key, its
/// latest message and its number of messages.
pub open spec fn entry_describes(ms: Seq<Message>, e: InboxEntry, i: int) -> bool {
    &&& e.sender_pubkey@ == ms[i].envelope_public_key@
    &&& e.last_message == ms[i]
    &&& e.message_count == sender_count(ms, i)
}

/// Groups an inbox's messages by sender key: one entry per sender with its
/// latest message (the first read among equally new ones) and its number of
/// messages, newest entry first (among equally new ones, the one read later
/// first).
pub fn group_by_sender(messages: Vec<Message>) -> (g: GroupedInbox)
    ensures
        g.total_messages == messages@.len(),
        g.sender_count == g.entries@.len(),
        exists|idx: Seq<int>| {
            &&& grouping_indices(messages@, idx)
            &&& idx.len() == g.entries@.len()
            &&& forall|k: int| 0 <= k < idx.len() ==> entry_describes(messages@, #[trigger] g.entries@[k], idx[k])
        },
{
    let ms = &messages;
    let mut idx: Vec<usize> = Vec::new();
    let mut i: usize = 0;
    while i < ms.len()
        invariant
            i <= ms.len(),
            forall|k: int| 0 <= k < idx.len() ==> #[trigger] idx@[k] < i && is_latest(ms@, idx@[k] as int),
            forall|j: int| 0 <= j < i && is_latest(ms@, j) ==> idx@.contains(j as usize),
            forall|k: int, l: int| 0 <= k < l < idx.len() ==> entry_before(ms@, #[trigger] idx@[k] as int, #[trigger] idx@[l] as int),
        decreases ms.len() - i,
    {
        if is_latest_at(ms, i) {
            let ghost before = idx@;
            insert_ordered(ms, &mut idx, i);
            proof {
                idx@.to_multiset_ensures();
                before.to_multiset_ensures();
                assert forall|k: int| 0 <= k < idx.len() implies #[trigger] idx@[k] < i + 1 && is_latest(ms@, idx@[k] as int) by {
                    assert(idx@.to_multiset().count(idx@[k]) > 0);
                    if idx@[k] != i {
                        assert(before.to_multiset().count(idx@[k]) > 0);
                        assert(before.contains(idx@[k]));
                    }
                }
                assert forall|j: int| 0 <= j < i + 1 && is_latest(ms@, j) implies idx@.contains(j as usize) by {
                    if j < i {
                        assert(before.contains(j as usize));
                        assert(before.to_multiset().count(j as usize) > 0);
                        assert(idx@.to_multiset().count(j as usize) > 0);
                    } else {
                        assert(idx@.to_multiset().count(i) > 0);
                    }
                }
            }
        }
        i = i + 1;
    }
    let mut entries: Vec<InboxEntry> = Vec::new();
    let mut k: usize = 0;
    while k < idx.len()
        invariant
            k <= idx.len(),
            forall|q: int| 0 <= q < idx.len() ==> #[trigger] idx@[q] < ms.len(),
            entries@.len() == k,
            forall|q: int| 0 <= q < k ==> entry_describes(ms@, #[trigger] entries@[q], idx@[q] as int),
        decreases idx.len() - k,
    {
        let j = idx[k];
        let e = InboxEntry {
            sender_pubkey: ms[j].envelope_public_key.clone(),
            last_message: ms[j].duplicate(),
            message_count: count_sender(ms, j),
        };
        entries.push(e);
        k = k + 1;
    }
    let ghost gidx = idx@.map_values(|x: usize| x as int);
    proof {
        assert forall|j: int| 0 <= j < ms.len() && is_latest(ms@, j) implies exists|q: int| 0 <= q < gidx.len() && #[trigger] gidx[q] == j by {
            assert(idx@.contains(j as usize));
            let q = choose|q: int| 0 <= q < idx@.len() && idx@[q] == j as usize;
            assert(gidx[q] == j);
        }
        assert(grouping_indices(ms@, gidx));
        assert forall|q: int| 0 <= q < gidx.len() implies entry_describes(ms@, #[trigger] entries@[q], gidx[q]) by {}
    }
    let n = entries.len();
    GroupedInbox { entries, sender_count: n, total_messages: messages.len() }
}

// =============================================================================
// A sender's messages
// =============================================================================

/// What is kept of the cached messages for one sender key.
#[derive(Debug)]
pub struct SenderSelection {
    pub messages: Vec<Message>,
    pub sender_client_id: Option<u128>,
    pub oldest: Option<i64>,
}

/// The messages whose sender key is `key`, in order.
pub open spec fn with_key(ms: Seq<Message>, key: Seq<char>) -> Seq<Message>
    decreases ms.len(),
{
    if ms.len() == 0 {
        Seq::empty()
    } else if ms.last().envelope_public_key@ == key {
        with_key(ms.drop_last(), key).push(ms.last())
    } else {
        with_key(ms.drop_last(), key)
    }
}

/// Keeps the cached messages of sender key `sender_pubkey`, and notes the
/// sender of the first of them and the earliest creation instant.
pub fn select_sender_messages(cached: Vec<Message>, sender_pubkey: &str) -> (sel: SenderSelection)
    ensures
        sel.messages@ == with_key(cached@, sender_pubkey@),
        sel.sender_client_id == (if with_key(cached@, sender_pubkey@).len() > 0 {
            Some(with_key(cached@, sender_pubkey@)[0].sender_client_id)
        } else {
            None::<u128>
        }),
        sel.oldest == min_created(with_key(cached@, sender_pubkey@)),
{
    let key = String::from_str(sender_pubkey);
    let mut out: Vec<Message> = Vec::new();
    let mut sender: Option<u128> = None;
    let mut oldest: Option<i64> = None;
    let mut i: usize = 0;
    assert(cached@.subrange(0, 0) =~= Seq::<Message>::empty());
    while i < cached.len()
        invariant
            i <= cached.len(),
            key@ == sender_pubkey@,
            out@ == with_key(cached@.subrange(0, i as int), sender_pubkey@),
            sender == (if out@.len() > 0 { Some(out@[0].sender_client_id) } else { None::<u128> }),
            oldest == min_created(out@),
        decreases cached.len() - i,
    {
        let ghost cur = cached@.subrange(0, i + 1);
        assert(cur.drop_last() =~= cached@.subrange(0, i as int));
        assert(cur.last() == cached@[i as int]);
        let m = cached[i].duplicate();
        if m.envelope_public_key == key {
            if sender.is_none() {
                sender = Some(m.sender_client_id);
            }
            oldest = match oldest {
                None => Some(m.created_at),
                Some(t) => if m.created_at < t { Some(m.created_at) } else { Some(t) },
            };
            let ghost before = out@;
            out.push(m);
            proof {
                assert(out@.drop_last() =~= before);
            }
        }
        i = i + 1;
    }
    assert(cached@.subrange(0, cached.len() as int) =~= cached@);
    SenderSelection { messages: out, sender_client_id: sender, oldest }
}

/// The messages with their sender key set to `sender_pubkey` (messages read
/// from the table carry no key).
pub fn adopt_sender_key(msgs: Vec<Message>, sender_pubkey: &str) -> (res: Vec<Message>)
    ensures
        res@.len() == msgs@.len(),
        forall|i: int| 0 <= i < msgs@.len() ==> (#[trigger] res@[i]) == (Message { envelope_public_key: res@[i].envelope_public_key, ..msgs@[i] })
            && res@[i].envelope_public_key@ == sender_pubkey@,
{
    let mut res: Vec<Message> = Vec::new();
    let mut i: usize = 0;
    while i < msgs.len()
        invariant
            i <= msgs.len(),
            res@.len() == i,
            forall|j: int| 0 <= j < i ==> (#[trigger] res@[j]) == (Message { envelope_public_key: res@[j].envelope_public_key, ..msgs@[j] })
                && res@[j].envelope_public_key@ == sender_pubkey@,
        decreases msgs.len() - i,
    {
        let mut m = msgs[i].duplicate();
        m.envelope_public_key = String::from_str(sender_pubkey);
        res.push(m);
        i = i + 1;
    }
    res
}

/// Length of the leading run of messages created at or after `t`.
pub open spec fn lead_not_older(s: Seq<Message>, t: i64) -> nat
    decreases s.len(),
{
    if s.len() == 0 {
        0
    } else if s[0].created_at >= t {
        1 + lead_not_older(s.drop_first(), t)
    } else {
        0
    }
}

/// `x` inserted after the leading run of messages at least as new.
pub open spec fn insert_desc(s: Seq<Message>, x: Message) -> Seq<Message> {
    let p = lead_not_older(s, x.created_at) as int;
    s.subrange(0, p).push(x) + s.subrange(p, s.len() as int)
}

/// The messages ordered newest first, equally new ones in the order they
/// came in (a stable sort).
pub open spec fn sort_desc(s: Seq<Message>) -> Seq<Message>
    decreases s.len(),
{
    if s.len() == 0 {
        Seq::empty()
    } else {
        insert_desc(sort_desc(s.drop_last()), s.last())
    }
}

/// Consecutive messages with the same identifier reduced to the first.
pub open spec fn dedup_ids(s: Seq<Message>) -> Seq<Message>
    decreases s.len(),
{
    if s.len() == 0 {
        Seq::empty()
    } else {
        let d = dedup_ids(s.drop_last());
        if d.len() > 0 && d.last().id == s.last().id {
            d
        } else {
            d.push(s.last())
        }
    }
}

proof fn lemma_lead_bound(s: Seq<Message>, t: i64)
    ensures
        lead_not_older(s, t) <= s.len(),
        forall|i: int| 0 <= i < lead_not_older(s, t) ==> (#[trigger] s[i]).created_at >= t,
        lead_not_older(s, t) < s.len() ==> s[lead_not_older(s, t) as int].created_at < t,
    decreases s.len(),
{
    if s.len() > 0 && s[0].created_at >= t {
        lemma_lead_bound(s.drop_first(), t);
        assert forall|i: int| 0 <= i < lead_not_older(s, t) implies (#[trigger] s[i]).created_at >= t by {
            if i > 0 {
                assert(s[i] == s.drop_first()[i - 1]);
            }
        }
    }
}

proof fn lemma_lead_is_first_older(s: Seq<Message>, t: i64, p: int)
    requires
        0 <= p <= s.len(),
        forall|i: int| 0 <= i < p ==> (#[trigger] s[i]).created_at >= t,
        p < s.len() ==> s[p].created_at < t,
    ensures
        lead_not_older(s, t) == p,
    decreases s.len(),
{
    if s.len() > 0 && p > 0 {
        assert forall|i: int| 0 <= i < p - 1 implies (#[trigger] s.drop_first()[i]).created_at >= t by {
            assert(s.drop_first()[i] == s[i + 1]);
        }
        lemma_lead_is_first_older(s.drop_first(), t, p - 1);
    }
}

/// The messages come newest first.
pub open spec fn newest_first(s: Seq<Message>) -> bool {
    forall|i: int, j: int| 0 <= i < j < s.len() ==> s[i].created_at >= s[j].created_at
}

proof fn lemma_insert_desc(s: Seq<Message>, x: Message)
    requires
        newest_first(s),
    ensures
        newest_first(insert_desc(s, x)),
        insert_desc(s, x).len() == s.len() + 1,
        insert_desc(s, x).contains(x),
        forall|m: Message| s.contains(m) ==> insert_desc(s, x).contains(m),
        forall|m: Message| insert_desc(s, x).contains(m) ==> m == x || s.contains(m),
{
    lemma_lead_bound(s, x.created_at);
    let p = lead_not_older(s, x.created_at) as int;
    let r = insert_desc(s, x);
    assert(r.len() == s.len() + 1);
    assert forall|k: int| 0 <= k < r.len() implies #[trigger] r[k] == (if k < p { s[k] } else if k == p { x } else { s[k - 1] }) by {}
    assert forall|i: int, j: int| 0 <= i < j < r.len() implies r[i].created_at >= r[j].created_at by {
        assert(r[i] == (if i < p { s[i] } else if i == p { x } else { s[i - 1] }));
        assert(r[j] == (if j < p { s[j] } else if j == p { x } else { s[j - 1] }));
        if i < p && j > p {
            assert(s[i].created_at >= s[j - 1].created_at);
        } else if i == p && j > p {
            assert(s[p].created_at < x.created_at);
            assert(s[p].created_at >= s[j - 1].created_at || p == j - 1);
        }
    }
    assert(r[p] == x);
    assert forall|m: Message| s.contains(m) implies r.contains(m) by {
        let k = choose|k: int| 0 <= k < s.len() && s[k] == m;
        if k < p {
            assert(r[k] == m);
        } else {
            assert(r[k + 1] == m);
        }
    }
    assert forall|m: Message| r.contains(m) implies m == x || s.contains(m) by {
        let k = choose|k: int| 0 <= k < r.len() && r[k] == m;
        if k < p {
            assert(s[k] == m);
        } else if k > p {
            assert(s[k - 1] == m);
        }
    }
}

proof fn lemma_sort_desc(s: Seq<Message>)
    ensures
        newest_first(sort_desc(s)),
        forall|m: Message| s.contains(m) <==> sort_desc(s).contains(m),
    decreases s.len(),
{
    if s.len() > 0 {
        lemma_sort_desc(s.drop_last());
        lemma_insert_desc(sort_desc(s.drop_last()), s.last());
        assert forall|m: Message| s.contains(m) <==> sort_desc(s).contains(m) by {
            if s.contains(m) {
                let k = choose|k: int| 0 <= k < s.len() && s[k] == m;
                if k < s.len() - 1 {
                    assert(s.drop_last()[k] == m);
                }
            }
            assert(sort_desc(s) == insert_desc(sort_desc(s.drop_last()), s.last()));
            if sort_desc(s).contains(m) && m != s.last() {
                assert(sort_desc(s.drop_last()).contains(m));
                assert(s.drop_last().contains(m));
                let k = choose|k: int| 0 <= k < s.drop_last().len() && s.drop_last()[k] == m;
                assert(s[k] == m);
            }
            if s.contains(m) && m != s.last() {
                let k = choose|k: int| 0 <= k < s.len() && s[k] == m;
                assert(s.drop_last()[k] == m);
                assert(s.drop_last().contains(m));
            }
        }
    }
}

proof fn lemma_dedup_ids(s: Seq<Message>)
    requires
        newest_first(s),
    ensures
        newest_first(dedup_ids(s)),
        forall|m: Message| dedup_ids(s).contains(m) ==> s.contains(m),
        forall|m: Message| s.contains(m) ==> exists|k: int| 0 <= k < dedup_ids(s).len() && (#[trigger] dedup_ids(s)[k]).id == m.id,
        s.len() > 0 ==> dedup_ids(s).len() > 0 && dedup_ids(s).last().id == s.last().id,
    decreases s.len(),
{
    if s.len() > 0 {
        let t = s.drop_last();
        assert forall|i: int, j: int| 0 <= i < j < t.len() implies t[i].created_at >= t[j].created_at by {
            assert(t[i] == s[i] && t[j] == s[j]);
        }
        lemma_dedup_ids(t);
        let d = dedup_ids(t);
        assert forall|m: Message| d.contains(m) implies s.contains(m) && m.created_at >= s.last().created_at by {
            assert(t.contains(m));
            let k = choose|k: int| 0 <= k < t.len() && t[k] == m;
            assert(s[k] == m);
        }
        if d.len() > 0 && d.last().id == s.last().id {
        } else {
            let r = d.push(s.last());
            assert forall|i: int, j: int| 0 <= i < j < r.len() implies r[i].created_at >= r[j].created_at by {
                if j == r.len() - 1 {
                    assert(d.contains(r[i]));
                }
            }
            assert forall|m: Message| r.contains(m) implies s.contains(m) by {
                if m != s.last() {
                    let k = choose|k: int| 0 <= k < r.len() && r[k] == m;
                    assert(d[k] == m);
                    assert(d.contains(m));
                }
            }
        }
        let r = dedup_ids(s);
        assert forall|m: Message| s.contains(m) implies exists|k: int| 0 <= k < r.len() && (#[trigger] r[k]).id == m.id by {
            let k0 = choose|k: int| 0 <= k < s.len() && s[k] == m;
            if k0 == s.len() - 1 {
                assert(r[r.len() - 1].id == m.id);
            } else {
                assert(t[k0] == m);
                assert(t.contains(m));
                let k = choose|k: int| 0 <= k < d.len() && (#[trigger] d[k]).id == m.id;
                assert(r[k] == d[k]);
            }
        }
    }
}

/// Law: a sender's merged messages come newest first; each is one of the
/// cached or stored messages, and every cached or stored message's
/// identifier is among them.
pub proof fn lemma_sender_merged(cached: Seq<Message>, stored: Seq<Message>)
    ensures
        forall|i: int| 0 <= i < sender_merged(cached, stored).len() - 1
            ==> (#[trigger] sender_merged(cached, stored)[i]).created_at >= sender_merged(cached, stored)[i + 1].created_at,
        forall|m: Message| sender_merged(cached, stored).contains(m) ==> cached.contains(m) || stored.contains(m),
        forall|m: Message| (cached.contains(m) || stored.contains(m)) ==> exists|k: int|
            0 <= k < sender_merged(cached, stored).len() && (#[trigger] sender_merged(cached, stored)[k]).id == m.id,
{
    let all = cached + stored;
    lemma_sort_desc(all);
    lemma_dedup_ids(sort_desc(all));
    let r = sender_merged(cached, stored);
    assert forall|i: int| 0 <= i < r.len() - 1 implies (#[trigger] r[i]).created_at >= r[i + 1].created_at by {}
    assert forall|m: Message| r.contains(m) implies cached.contains(m) || stored.contains(m) by {
        assert(all.contains(m));
        let k = choose|k: int| 0 <= k < all.len() && all[k] == m;
        if k < cached.len() {
            assert(cached[k] == m);
        } else {
            assert(stored[k - cached.len()] == m);
        }
    }
    assert forall|m: Message| (cached.contains(m) || stored.contains(m)) implies exists|k: int|
        0 <= k < r.len() && (#[trigger] r[k]).id == m.id by {
        if cached.contains(m) {
            let k = choose|k: int| 0 <= k < cached.len() && cached[k] == m;
            assert(all[k] == m);
        } else {
            let k = choose|k: int| 0 <= k < stored.len() && stored[k] == m;
            assert(all[cached.len() + k] == m);
        }
        assert(all.contains(m));
        assert(sort_desc(all).contains(m));
    }
}

fn sort_newest_first(v: Vec<Message>) -> (res: Vec<Message>)
    ensures
        res@ == sort_desc(v@),
{
    let mut out: Vec<Message> = Vec::new();
    let mut i: usize = 0;
    assert(v@.subrange(0, 0) =~= Seq::<Message>::empty());
    while i < v.len()
        invariant
            i <= v.len(),
            out@ == sort_desc(v@.subrange(0, i as int)),
        decreases v.len() - i,
    {
        let x = v[i].duplicate();
        let mut p: usize = 0;
        while p < out.len() && out[p].created_at >= x.created_at
            invariant
                p <= out.len(),
                forall|j: int| 0 <= j < p ==> (#[trigger] out@[j]).created_at >= x.created_at,
            decreases out.len() - p,
        {
            p = p + 1;
        }
        proof {
            lemma_lead_is_first_older(out@, x.created_at, p as int);
            assert(v@.subrange(0, i + 1).drop_last() =~= v@.subrange(0, i as int));
            assert(v@.subrange(0, i + 1).last() == x);
        }
        let ghost before = out@;
        out.insert(p, x);
        assert(out@ =~= before.subrange(0, p as int).push(x) + before.subrange(p as int, before.len() as int));
        i = i + 1;
    }
    assert(v@.subrange(0, v.len() as int) =~= v@);
    out
}

fn dedup_by_id(v: Vec<Message>) -> (res: Vec<Message>)
    ensures
        res@ == dedup_ids(v@),
{
    let mut out: Vec<Message> = Vec::new();
    let mut i: usize = 0;
    assert(v@.subrange(0, 0) =~= Seq::<Message>::empty());
    while i < v.len()
        invariant
            i <= v.len(),
            out@ == dedup_ids(v@.subrange(0, i as int)),
        decreases v.len() - i,
    {
        proof {
            assert(v@.subrange(0, i + 1).drop_last() =~= v@.subrange(0, i as int));
            assert(v@.subrange(0, i + 1).last() == v@[i as int]);
        }
        let keep = out.len() == 0 || out[out.len() - 1].id != v[i].id;
        if keep {
            out.push(v[i].duplicate());
        }
        i = i + 1;
    }
    assert(v@.subrange(0, v.len() as int) =~= v@);
    out
}

/// The page limit: at most a hundred messages.
pub open spec fn page_limit(limit: usize) -> usize {
    if limit < 100 { limit } else { 100 }
}

/// How many messages to read from the table for a page: one more than the
/// page reaches, to tell whether more follow.
pub fn sender_fetch_limit(offset: usize, limit: usize) -> (n: usize)
    requires
        offset + 101 <= usize::MAX,
    ensures
        n == offset + page_limit(limit) + 1,
{
    let l = if limit < 100 { limit } else { 100 };
    offset + l + 1
}

/// The merged, ordered and de-duplicated messages of a sender.
pub open spec fn sender_merged(cached: Seq<Message>, stored: Seq<Message>) -> Seq<Message> {
    dedup_ids(sort_desc(cached + stored))
}

/// The page of a sender's messages: the cached and stored messages merged,
/// newest first, repeated identifiers reduced to one, then `limit` (at most
/// a hundred) messages from `offset`.
pub fn sender_page(cached: Vec<Message>, stored: Vec<Message>, sender_pubkey: &str, offset: usize, limit: usize) -> (page: SenderMessages)
    ensures
        page.sender_pubkey@ == sender_pubkey@,
        page.total == sender_merged(cached@, stored@).len(),
        page.offset == offset,
        page.messages@ == sender_merged(cached@, stored@).subrange(
            if offset <= page.total { offset as int } else { page.total as int },
            if offset <= page.total && page_limit(limit) <= page.total - offset { (offset + page_limit(limit)) as int } else { page.total as int }),
        page.has_more == (offset + page.messages@.len() < page.total),
{
    let l = if limit < 100 { limit } else { 100 };
    let mut all = cached;
    let mut rest = stored;
    let ghost c0 = all@;
    let ghost s0 = rest@;
    all.append(&mut rest);
    assert(all@ == c0 + s0);
    let sorted = sort_newest_first(all);
    let merged = dedup_by_id(sorted);
    let total = merged.len();
    let start = if offset <= total { offset } else { total };
    let end = if offset <= total && l <= total - offset { offset + l } else { total };
    let mut msgs: Vec<Message> = Vec::new();
    let mut i: usize = start;
    while i < end
        invariant
            start <= i <= end <= merged.len(),
            msgs@ == merged@.subrange(start as int, i as int),
        decreases end - i,
    {
        msgs.push(merged[i].duplicate());
        i = i + 1;
        assert(msgs@ =~= merged@.subrange(start as int, i as int));
    }
    let count = msgs.len();
    SenderMessages {
        sender_pubkey: String::from_str(sender_pubkey),
        messages: msgs,
        total,
        offset,
        has_more: offset + count < total,
    }
}

} // verus!
