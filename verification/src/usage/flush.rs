//! Decisions of the flush cycle that moves hourly application counters
//! from the cache to the usage table.
//!
//! One cycle scans the set of active counter keys.  A key that does not
//! parse is skipped; a key whose window has not closed yet (starts at or
//! after the cutoff) is left for a later cycle; every other key's counters
//! join the batch.  A full batch, and the batch left at the end, is written
//! in chunks of at most `max_batch_size` entries: all-zero counters are not
//! written, entries whose application has no active subscription are
//! dropped, and every other entry becomes one row.  The keys of a chunk are
//! forgotten right after its rows are committed (`flush_step`), so that a
//! failure leaves exactly the uncommitted chunks to a later cycle.
use vstd::prelude::*;
use crate::usage::counters::{
    MetricKey, MetricCounters, MetricGranularity, metric_key_from_text, metric_window,
    field_value, entries_view, or_keep, cost_cents, cost_fits, client_window,
};
use crate::clock::{calendar_of, trunc_to};
use crate::error::VaultlessError;

verus! {

/// The instant before which windows are flushed: a day after `now` when
/// everything is flushed (at shutdown), else the start of `now`'s hour.
pub open spec fn flush_cutoff_spec(now: i64, flush_all: bool) -> int {
    if flush_all {
        now + 86400
    } else {
        metric_window(MetricGranularity::Hour, now) as int
    }
}

/// The cutoff of a flush cycle.
pub fn flush_cutoff(now: i64, flush_all: bool) -> (c: i64)
    requires
        flush_all ==> now <= i64::MAX - 86400,
    ensures
        c == flush_cutoff_spec(now, flush_all),
{
    if flush_all {
        now + 86400
    } else {
        match MetricKey::new(0, now, MetricGranularity::Hour) {
            Ok(k) => k.window,
            Err(_) => now,
        }
    }
}

/// What a cycle does with one scanned key.
#[derive(Debug, Clone, Copy, PartialEq, Eq, Structural)]
pub enum KeyScan {
    /// The text is not a metric key.
    Invalid,
    /// The window has not closed yet.
    NotDue,
    /// The counters are to be read and flushed.
    Due(MetricKey),
}

/// The decision for the key text `s` at `cutoff`.
pub open spec fn key_scan_spec(s: Seq<char>, cutoff: i64) -> KeyScan {
    match metric_key_from_text(s) {
        Err(_) => KeyScan::Invalid,
        Ok(k) => if k.window >= cutoff {
            KeyScan::NotDue
        } else {
            KeyScan::Due(k)
        },
    }
}

/// Decides what to do with one scanned key.
pub fn scan_key(s: String, cutoff: i64) -> (d: KeyScan)
    ensures
        d == key_scan_spec(s@, cutoff),
{
    match MetricKey::try_from(s) {
        Err(_) => KeyScan::Invalid,
        Ok(k) => {
            match k.parse() {
                Some((_, period)) => {
                    if period >= cutoff {
                        KeyScan::NotDue
                    } else {
                        KeyScan::Due(k)
                    }
                },
                None => KeyScan::Invalid,
            }
        },
    }
}

/// One application window's counters, ready to be written.
#[derive(Debug, Clone, Copy, PartialEq, Eq, Structural)]
pub struct BatchEntry {
    pub application_id: u128,
    pub period_start: i64,
    pub counters: MetricCounters,
    pub key: MetricKey,
}

/// Counters read from a hash, starting from zero.
pub open spec fn counters_from(e: Seq<(Seq<char>, i64)>) -> MetricCounters {
    MetricCounters {
        messages_sent: or_keep(field_value(e, "messages_sent"@), 0),
        messages_received: or_keep(field_value(e, "messages_received"@), 0),
        proofs_verified: or_keep(field_value(e, "proofs_verified"@), 0),
        total_bytes_sent: or_keep(field_value(e, "total_bytes_sent"@), 0),
        total_bytes_received: or_keep(field_value(e, "total_bytes_received"@), 0),
        rate_limit_hits: or_keep(field_value(e, "rate_limit_hits"@), 0),
        bytes_proved: or_keep(field_value(e, "bytes_proved"@), 0),
    }
}

/// The batch entry for a due key whose hash holds `values`.
pub fn collect_entry(key: MetricKey, values: &Vec<(String, i64)>) -> (e: BatchEntry)
    ensures
        e == (BatchEntry {
            application_id: key.app_id,
            period_start: key.window,
            counters: counters_from(entries_view(values@)),
            key,
        }),
{
    let mut counters = MetricCounters {
        messages_sent: 0, messages_received: 0, proofs_verified: 0, total_bytes_sent: 0,
        total_bytes_received: 0, rate_limit_hits: 0, bytes_proved: 0,
    };
    counters.merge_from_map(values);
    BatchEntry { application_id: key.app_id, period_start: key.window, counters, key }
}

/// The batch must be written now.
pub fn batch_is_full(len: usize, max_batch_size: usize) -> (b: bool)
    ensures
        b == (len >= max_batch_size),
{
    len >= max_batch_size
}

/// The cycle took more than half the interval between cycles.
pub fn is_falling_behind(duration_secs: u64, flush_interval_secs: u64) -> (b: bool)
    ensures
        b == (duration_secs > flush_interval_secs / 2),
{
    duration_secs > flush_interval_secs / 2
}

// =============================================================================
// Chunking
// =============================================================================

/// Counters with at least one non-zero value.
pub open spec fn nonzero(c: MetricCounters) -> bool {
    !(c.messages_sent == 0 && c.messages_received == 0 && c.proofs_verified == 0
        && c.total_bytes_sent == 0 && c.total_bytes_received == 0 && c.rate_limit_hits == 0
        && c.bytes_proved == 0)
}

/// The entries with non-zero counters, in order.
pub open spec fn keep_nonzero(s: Seq<BatchEntry>) -> Seq<BatchEntry>
    decreases s.len(),
{
    if s.len() == 0 {
        Seq::empty()
    } else if nonzero(s.last().counters) {
        keep_nonzero(s.drop_last()).push(s.last())
    } else {
        keep_nonzero(s.drop_last())
    }
}

/// The `k`-th chunk of `m` entries (the last one may be shorter).
pub open spec fn chunk_at(s: Seq<BatchEntry>, m: nat, k: nat) -> Seq<BatchEntry> {
    let lo: int = (k * m) as int;
    let hi: int = if (k + 1) * m <= s.len() { ((k + 1) * m) as int } else { s.len() as int };
    s.subrange(lo, hi)
}

/// The non-empty filtered chunks among the first `k` chunks.
pub open spec fn plan_upto(s: Seq<BatchEntry>, m: nat, k: nat) -> Seq<Seq<BatchEntry>>
    decreases k,
{
    if k == 0 {
        Seq::empty()
    } else {
        let c = keep_nonzero(chunk_at(s, m, (k - 1) as nat));
        if c.len() == 0 {
            plan_upto(s, m, (k - 1) as nat)
        } else {
            plan_upto(s, m, (k - 1) as nat).push(c)
        }
    }
}

/// Number of chunks of `m` entries that cover `len` entries.
pub open spec fn chunk_count(len: nat, m: nat) -> nat {
    if m == 0 {
        0
    } else {
        ((len + m - 1) / (m as int)) as nat
    }
}

/// The chunks written for a batch: the batch cut into chunks of `m`
/// entries, each without its all-zero counters, empty chunks left out.
pub open spec fn flush_plan(s: Seq<BatchEntry>, m: nat) -> Seq<Seq<BatchEntry>> {
    plan_upto(s, m, chunk_count(s.len(), m))
}

/// All pieces one after the other.
pub open spec fn concat_all<A>(p: Seq<Seq<A>>) -> Seq<A>
    decreases p.len(),
{
    if p.len() == 0 {
        Seq::empty()
    } else {
        concat_all(p.drop_last()) + p.last()
    }
}

proof fn lemma_keep_nonzero_add(a: Seq<BatchEntry>, b: Seq<BatchEntry>)
    ensures
        keep_nonzero(a + b) == keep_nonzero(a) + keep_nonzero(b),
    decreases b.len(),
{
    if b.len() == 0 {
        assert(a + b =~= a);
        assert(keep_nonzero(a) + keep_nonzero(b) =~= keep_nonzero(a));
    } else {
        lemma_keep_nonzero_add(a, b.drop_last());
        assert((a + b).drop_last() =~= a + b.drop_last());
        assert((a + b).last() == b.last());
        if nonzero(b.last().counters) {
            assert(keep_nonzero(a) + keep_nonzero(b.drop_last()).push(b.last())
                =~= (keep_nonzero(a) + keep_nonzero(b.drop_last())).push(b.last()));
        }
    }
}

/// What `k` chunks write, in order, is the non-zero entries among the first
/// `k·m` entries.
proof fn lemma_plan_upto(s: Seq<BatchEntry>, m: nat, k: nat)
    requires
        m > 0,
        k * m <= s.len() + m - 1,
    ensures
        concat_all(plan_upto(s, m, k)) == keep_nonzero(s.subrange(0, if k * m <= s.len() { (k * m) as int } else { s.len() as int })),
    decreases k,
{
    if k == 0 {
        assert(s.subrange(0, 0) =~= Seq::<BatchEntry>::empty());
        assert(keep_nonzero(s.subrange(0, 0)) == Seq::<BatchEntry>::empty());
        assert(plan_upto(s, m, k) == Seq::<Seq<BatchEntry>>::empty());
        assert(concat_all(plan_upto(s, m, k)) == Seq::<BatchEntry>::empty());
        assert(k * m == 0) by (nonlinear_arith)
            requires
                k == 0,
        {
        }
    } else {
        let j = (k - 1) as nat;
        assert(j * m == k * m - m) by (nonlinear_arith)
            requires
                j == k - 1,
        {
        }
        lemma_plan_upto(s, m, j);
        let lo = (j * m) as int;
        let c = chunk_at(s, m, j);
        let hi = if k * m <= s.len() { (k * m) as int } else { s.len() as int };
        assert((j + 1) * m == k * m) by (nonlinear_arith)
            requires
                j == k - 1,
        {
        }
        assert(lo <= s.len());
        assert(c == s.subrange(lo, hi));
        assert(s.subrange(0, hi) =~= s.subrange(0, lo) + s.subrange(lo, hi));
        lemma_keep_nonzero_add(s.subrange(0, lo), s.subrange(lo, hi));
        let p = plan_upto(s, m, j);
        let kc = keep_nonzero(c);
        assert(concat_all(p) == keep_nonzero(s.subrange(0, lo)));
        assert(keep_nonzero(s.subrange(0, hi)) == keep_nonzero(s.subrange(0, lo)) + kc);
        if kc.len() == 0 {
            assert(keep_nonzero(s.subrange(0, lo)) + kc =~= keep_nonzero(s.subrange(0, lo)));
            assert(plan_upto(s, m, k) == p);
        } else {
            assert(plan_upto(s, m, k) == p.push(kc));
            assert(p.push(kc).drop_last() =~= p);
            assert(p.push(kc).last() == kc);
            assert(concat_all(p.push(kc)) == concat_all(p) + kc);
        }
        assert(concat_all(plan_upto(s, m, k)) == keep_nonzero(s.subrange(0, hi)));
    }
}

/// Law: a flush writes every entry with non-zero counters exactly once, in
/// batch order, and nothing else.
pub proof fn lemma_flush_plan_writes_nonzero_once(s: Seq<BatchEntry>, m: nat)
    requires
        m > 0,
    ensures
        concat_all(flush_plan(s, m)) == keep_nonzero(s),
{
    let n = chunk_count(s.len(), m);
    assert(n * m <= s.len() + m - 1 && (n * m >= s.len())) by (nonlinear_arith)
        requires
            m > 0,
            n == (s.len() + m - 1) / (m as int),
    {
    }
    lemma_plan_upto(s, m, n);
    assert(s.subrange(0, s.len() as int) =~= s);
}

/// Cuts the batch into chunks of at most `max_batch_size` entries and drops
/// the all-zero counters; empty chunks are left out.
pub fn flush_chunks(batch: &Vec<BatchEntry>, max_batch_size: usize) -> (res: Vec<Vec<BatchEntry>>)
    requires
        max_batch_size > 0,
    ensures
        res@.map_values(|c: Vec<BatchEntry>| c@) == flush_plan(batch@, max_batch_size as nat),
{
    let m = max_batch_size;
    let mut out: Vec<Vec<BatchEntry>> = Vec::new();
    let mut start: usize = 0;
    let ghost mut k: nat = 0;
    while start < batch.len()
        invariant
            m > 0,
            start <= batch.len(),
            start == (if k * m <= batch.len() { k * m } else { batch.len() as int }),
            k * m <= batch.len() + m - 1,
            k == 0 || (k - 1) * m < batch.len(),
            out@.map_values(|c: Vec<BatchEntry>| c@) == plan_upto(batch@, m as nat, k),
        decreases batch.len() - start,
    {
        assert(start == k * m);
        let end: usize = if batch.len() - start > m { start + m } else { batch.len() };
        let mut chunk: Vec<BatchEntry> = Vec::new();
        let mut i: usize = start;
        while i < end
            invariant
                start <= i <= end <= batch.len(),
                chunk@ == keep_nonzero(batch@.subrange(start as int, i as int)),
            decreases end - i,
        {
            let e = batch[i];
            let c = e.counters;
            let zero = c.is_zero();
            assert(batch@.subrange(start as int, i + 1).drop_last() =~= batch@.subrange(start as int, i as int));
            assert(batch@.subrange(start as int, i + 1).last() == e);
            if !zero {
                chunk.push(e);
            }
            i = i + 1;
        }
        proof {
            assert((k + 1) * m == k * m + m) by (nonlinear_arith);
            assert(chunk_at(batch@, m as nat, k) =~= batch@.subrange(start as int, end as int));
        }
        let ghost before = out@;
        if chunk.len() > 0 {
            out.push(chunk);
            proof {
                assert(out@.map_values(|c: Vec<BatchEntry>| c@) =~= before.map_values(|c: Vec<BatchEntry>| c@).push(chunk@));
            }
        }
        start = end;
        proof {
            assert((k + 1) * m == k * m + m) by (nonlinear_arith);
            k = k + 1;
        }
    }
    proof {
        assert(batch@.len() <= k * m);
        assert(chunk_count(batch@.len(), m as nat) == k) by (nonlinear_arith)
            requires
                m > 0,
                batch@.len() <= k * m,
                k == 0 || (k - 1) * m < batch@.len(),
                k * m <= batch@.len() + m - 1,
        {
        }
    }
    out
}

// =============================================================================
// Commit and release, chunk by chunk
// =============================================================================

/// Where the flush of a batch stands: the batch cut into chunks of at most
/// the batch size (all-zero counters included), and how many chunks, from
/// the first, have had their rows committed and their keys forgotten.
pub struct FlushProgress {
    pub chunks: Vec<Vec<BatchEntry>>,
    pub released: usize,
    pub stopped: bool,
}

/// What happened since the last action.
pub enum FlushEvent {
    /// The flush begins.
    Start,
    /// The rows of chunk `i` were committed.
    ChunkCommitted(usize),
    /// Writing the rows of chunk `i` failed; nothing of it was committed.
    ChunkFailed(usize),
    /// The keys of chunk `i` were forgotten.
    Released(usize),
}

/// What to do next.
pub enum FlushAction {
    /// Write `entries`, the non-zero entries of chunk `chunk`, in one
    /// transaction.
    Write { chunk: usize, entries: Vec<BatchEntry> },
    /// Forget `keys`, the keys of chunk `chunk`: take each out of the set
    /// of active keys and delete its counters.
    Release { chunk: usize, keys: Vec<MetricKey> },
    /// Stop; the keys of the chunks not yet released stay for a later
    /// cycle.
    Stop,
    /// Every chunk was written and its keys forgotten.
    Done,
}

/// The chunks as sequences.
pub open spec fn chunk_views(p: FlushProgress) -> Seq<Seq<BatchEntry>> {
    p.chunks@.map_values(|c: Vec<BatchEntry>| c@)
}

/// The keys of a chunk's entries, in order.
pub open spec fn chunk_keys(c: Seq<BatchEntry>) -> Seq<MetricKey> {
    c.map_values(|e: BatchEntry| e.key)
}

/// The batch `s` cut into chunks of `m` entries, all-zero counters kept.
pub open spec fn batch_chunks(s: Seq<BatchEntry>, m: nat) -> Seq<Seq<BatchEntry>> {
    Seq::new(chunk_count(s.len(), m), |k: int| chunk_at(s, m, k as nat))
}

/// `a` takes up chunk `i`: write its non-zero entries, or, when it has
/// none, forget its keys without a write; past the last chunk, done.
pub open spec fn takes_up(a: FlushAction, chunks: Seq<Seq<BatchEntry>>, i: int) -> bool {
    if i >= chunks.len() {
        a is Done
    } else if keep_nonzero(chunks[i]).len() == 0 {
        a matches FlushAction::Release { chunk, keys } && chunk == i && keys@ == chunk_keys(chunks[i])
    } else {
        a matches FlushAction::Write { chunk, entries } && chunk == i && entries@ == keep_nonzero(chunks[i])
    }
}

/// `q` is `p` stopped: the same chunks, as many released.
pub open spec fn stopped_from(q: FlushProgress, p: FlushProgress) -> bool {
    &&& chunk_views(q) == chunk_views(p)
    &&& q.released == p.released
    &&& q.stopped
}

/// `q` keeps `p`'s chunks and stop mark, with `n` chunks released.
pub open spec fn advanced_to(q: FlushProgress, p: FlushProgress, n: int) -> bool {
    &&& chunk_views(q) == chunk_views(p)
    &&& q.released == n
    &&& q.stopped == p.stopped
}

/// A progress whose released count is within its chunks.
pub open spec fn progress_ok(p: FlushProgress) -> bool {
    p.released <= p.chunks.len()
}

proof fn lemma_chunks_upto(s: Seq<BatchEntry>, m: nat, k: nat)
    requires
        m > 0,
        k * m <= s.len() + m - 1,
    ensures
        concat_all(Seq::new(k, |j: int| chunk_at(s, m, j as nat)))
            == s.subrange(0, if k * m <= s.len() { (k * m) as int } else { s.len() as int }),
    decreases k,
{
    let p = Seq::new(k, |j: int| chunk_at(s, m, j as nat));
    if k == 0 {
        assert(k * m == 0) by (nonlinear_arith)
            requires
                k == 0,
        {
        }
        assert(s.subrange(0, 0) =~= Seq::<BatchEntry>::empty());
    } else {
        let j = (k - 1) as nat;
        assert(j * m == k * m - m) by (nonlinear_arith)
            requires
                j == k - 1,
        {
        }
        assert((j + 1) * m == k * m) by (nonlinear_arith)
            requires
                j == k - 1,
        {
        }
        lemma_chunks_upto(s, m, j);
        let lo = (j * m) as int;
        let hi = if k * m <= s.len() { (k * m) as int } else { s.len() as int };
        assert(p.drop_last() =~= Seq::new(j, |i: int| chunk_at(s, m, i as nat)));
        assert(p.last() == chunk_at(s, m, j));
        assert(chunk_at(s, m, j) == s.subrange(lo, hi));
        assert(s.subrange(0, hi) =~= s.subrange(0, lo) + s.subrange(lo, hi));
    }
}

/// Law: the chunks of a batch hold its entries, each once and in order, so
/// a flush that is done has written or forgotten every key of the batch.
pub proof fn lemma_batch_chunks_cover(s: Seq<BatchEntry>, m: nat)
    requires
        m > 0,
    ensures
        concat_all(batch_chunks(s, m)) == s,
{
    let n = chunk_count(s.len(), m);
    assert(n * m <= s.len() + m - 1 && n * m >= s.len()) by (nonlinear_arith)
        requires
            m > 0,
            n == (s.len() + m - 1) / (m as int),
    {
    }
    lemma_chunks_upto(s, m, n);
    assert(batch_chunks(s, m) =~= Seq::new(n, |j: int| chunk_at(s, m, j as nat)));
    assert(s.subrange(0, s.len() as int) =~= s);
}

/// The start of the flush of `batch` in chunks of `max_batch_size`
/// entries: nothing released yet.
pub fn flush_progress(batch: &Vec<BatchEntry>, max_batch_size: usize) -> (p: FlushProgress)
    requires
        max_batch_size > 0,
    ensures
        chunk_views(p) == batch_chunks(batch@, max_batch_size as nat),
        p.released == 0,
        !p.stopped,
{
    let m = max_batch_size;
    let mut out: Vec<Vec<BatchEntry>> = Vec::new();
    let mut start: usize = 0;
    let ghost mut k: nat = 0;
    while start < batch.len()
        invariant
            m > 0,
            start <= batch.len(),
            start == (if k * m <= batch.len() { k * m } else { batch.len() as int }),
            k * m <= batch.len() + m - 1,
            k == 0 || (k - 1) * m < batch.len(),
            out@.map_values(|c: Vec<BatchEntry>| c@) =~= Seq::new(k, |j: int| chunk_at(batch@, m as nat, j as nat)),
        decreases batch.len() - start,
    {
        assert(start == k * m);
        let end: usize = if batch.len() - start > m { start + m } else { batch.len() };
        let mut chunk: Vec<BatchEntry> = Vec::new();
        let mut i: usize = start;
        while i < end
            invariant
                start <= i <= end <= batch.len(),
                chunk@ =~= batch@.subrange(start as int, i as int),
            decreases end - i,
        {
            chunk.push(batch[i]);
            i = i + 1;
        }
        proof {
            assert((k + 1) * m == k * m + m) by (nonlinear_arith);
            assert(chunk_at(batch@, m as nat, k) =~= batch@.subrange(start as int, end as int));
        }
        let ghost before = out@;
        out.push(chunk);
        proof {
            assert(out@.map_values(|c: Vec<BatchEntry>| c@) =~= before.map_values(|c: Vec<BatchEntry>| c@).push(chunk@));
            assert(Seq::new(k + 1, |j: int| chunk_at(batch@, m as nat, j as nat))
                =~= Seq::new(k, |j: int| chunk_at(batch@, m as nat, j as nat)).push(chunk_at(batch@, m as nat, k)));
        }
        start = end;
        proof {
            assert((k + 1) * m == k * m + m) by (nonlinear_arith);
            k = k + 1;
        }
    }
    proof {
        assert(chunk_count(batch@.len(), m as nat) == k) by (nonlinear_arith)
            requires
                m > 0,
                batch@.len() <= k * m,
                k == 0 || (k - 1) * m < batch@.len(),
                k * m <= batch@.len() + m - 1,
        {
        }
    }
    FlushProgress { chunks: out, released: 0, stopped: false }
}

/// The non-zero entries of a chunk, in order.
fn nonzero_entries(chunk: &Vec<BatchEntry>) -> (res: Vec<BatchEntry>)
    ensures
        res@ == keep_nonzero(chunk@),
{
    let mut out: Vec<BatchEntry> = Vec::new();
    let mut i: usize = 0;
    while i < chunk.len()
        invariant
            i <= chunk.len(),
            out@ == keep_nonzero(chunk@.subrange(0, i as int)),
        decreases chunk.len() - i,
    {
        let e = chunk[i];
        assert(chunk@.subrange(0, i + 1).drop_last() =~= chunk@.subrange(0, i as int));
        assert(chunk@.subrange(0, i + 1).last() == e);
        if !e.counters.is_zero() {
            out.push(e);
        }
        i = i + 1;
    }
    assert(chunk@.subrange(0, i as int) =~= chunk@);
    out
}

/// The keys of a chunk's entries, in order.
fn keys_of(chunk: &Vec<BatchEntry>) -> (res: Vec<MetricKey>)
    ensures
        res@ == chunk_keys(chunk@),
{
    let mut out: Vec<MetricKey> = Vec::new();
    let mut i: usize = 0;
    while i < chunk.len()
        invariant
            i <= chunk.len(),
            out@ =~= chunk_keys(chunk@.subrange(0, i as int)),
        decreases chunk.len() - i,
    {
        out.push(chunk[i].key);
        i = i + 1;
    }
    assert(chunk@.subrange(0, i as int) =~= chunk@);
    out
}

/// The action that takes up chunk `i`.
fn take_up(chunks: &Vec<Vec<BatchEntry>>, i: usize) -> (a: FlushAction)
    ensures
        takes_up(a, chunks@.map_values(|c: Vec<BatchEntry>| c@), i as int),
{
    if i >= chunks.len() {
        return FlushAction::Done;
    }
    let entries = nonzero_entries(&chunks[i]);
    if entries.len() == 0 {
        FlushAction::Release { chunk: i, keys: keys_of(&chunks[i]) }
    } else {
        FlushAction::Write { chunk: i, entries }
    }
}

/// The next step of a batch's flush.  The flush writes chunk after chunk;
/// a chunk's keys are forgotten right after its rows are committed (or at
/// once when it has nothing to write), so a failure leaves exactly the
/// chunks not yet committed to a later cycle.  An event for any other
/// chunk than the one in progress, or after a stop, stops the flush.
pub fn flush_step(p: FlushProgress, ev: FlushEvent) -> (r: (FlushProgress, FlushAction))
    requires
        progress_ok(p),
    ensures
        progress_ok(r.0),
        match ev {
            FlushEvent::Start => if !p.stopped {
                advanced_to(r.0, p, p.released as int) && takes_up(r.1, chunk_views(p), p.released as int)
            } else {
                stopped_from(r.0, p) && r.1 is Stop
            },
            FlushEvent::ChunkCommitted(i) => if !p.stopped && i == p.released && i < p.chunks.len() {
                &&& advanced_to(r.0, p, p.released as int)
                &&& r.1 matches FlushAction::Release { chunk, keys }
                &&& chunk == i
                &&& keys@ == chunk_keys(chunk_views(p)[i as int])
            } else {
                stopped_from(r.0, p) && r.1 is Stop
            },
            FlushEvent::ChunkFailed(i) => stopped_from(r.0, p) && r.1 is Stop,
            FlushEvent::Released(i) => if !p.stopped && i == p.released && i < p.chunks.len() {
                advanced_to(r.0, p, i + 1) && takes_up(r.1, chunk_views(p), i + 1)
            } else {
                stopped_from(r.0, p) && r.1 is Stop
            },
        },
{
    let mut p = p;
    match ev {
        FlushEvent::Start => {
            if p.stopped {
                return (p, FlushAction::Stop);
            }
            let a = take_up(&p.chunks, p.released);
            (p, a)
        },
        FlushEvent::ChunkCommitted(i) => {
            if p.stopped || i != p.released || i >= p.chunks.len() {
                p.stopped = true;
                return (p, FlushAction::Stop);
            }
            let keys = keys_of(&p.chunks[i]);
            (p, FlushAction::Release { chunk: i, keys })
        },
        FlushEvent::ChunkFailed(i) => {
            p.stopped = true;
            (p, FlushAction::Stop)
        },
        FlushEvent::Released(i) => {
            if p.stopped || i != p.released || i >= p.chunks.len() {
                p.stopped = true;
                return (p, FlushAction::Stop);
            }
            p.released = i + 1;
            let a = take_up(&p.chunks, p.released);
            (p, a)
        },
    }
}

// =============================================================================
// Rows
// =============================================================================

/// One row of the usage table.
#[derive(Debug, Clone, Copy, PartialEq, Eq, Structural)]
pub struct UsageRow {
    pub period_start: i64,
    pub period_end: i64,
    pub application_id: u128,
    pub subscription_id: u128,
    pub messages_sent: i64,
    pub messages_received: i64,
    pub proofs_verified: i64,
    pub total_bytes_stored: i64,
    pub total_bytes_sent: i64,
    pub total_bytes_received: i64,
    pub rate_limit_hits: i64,
    pub bytes_proved: i64,
    pub estimated_cost_cents: i64,
}

/// The subscription of `app` among the looked-up pairs
/// `(application, subscription)`: the last pair for it, as collecting the
/// pairs into a map keeps.
pub open spec fn subscription_of(pairs: Seq<(u128, u128)>, app: u128) -> Option<u128>
    decreases pairs.len(),
{
    if pairs.len() == 0 {
        None
    } else if pairs.last().0 == app {
        Some(pairs.last().1)
    } else {
        subscription_of(pairs.drop_last(), app)
    }
}

/// The entry's row values fit in `i64`: the window end, the stored bytes
/// and the cost estimate.
pub open spec fn row_fits(e: BatchEntry) -> bool {
    &&& e.period_start <= i64::MAX - 3600
    &&& cost_fits(e.counters.messages_sent, e.counters.messages_received, e.counters.total_bytes_sent,
        e.counters.total_bytes_received)
}

/// The row written for entry `e` under subscription `sub`: the window is an
/// hour long, the stored bytes are the bytes sent and received.
pub open spec fn row_of(e: BatchEntry, sub: u128) -> UsageRow {
    let c = e.counters;
    UsageRow {
        period_start: e.period_start,
        period_end: (e.period_start + 3600) as i64,
        application_id: e.application_id,
        subscription_id: sub,
        messages_sent: c.messages_sent,
        messages_received: c.messages_received,
        proofs_verified: c.proofs_verified,
        total_bytes_stored: (c.total_bytes_sent + c.total_bytes_received) as i64,
        total_bytes_sent: c.total_bytes_sent,
        total_bytes_received: c.total_bytes_received,
        rate_limit_hits: c.rate_limit_hits,
        bytes_proved: c.bytes_proved,
        estimated_cost_cents: cost_cents(c.messages_sent, c.messages_received, c.total_bytes_sent, c.total_bytes_received) as i64,
    }
}

/// The rows of a chunk: one per entry whose application has a
/// subscription, in order.
pub open spec fn resolved_rows(chunk: Seq<BatchEntry>, pairs: Seq<(u128, u128)>) -> Seq<UsageRow>
    decreases chunk.len(),
{
    if chunk.len() == 0 {
        Seq::empty()
    } else {
        let rest = resolved_rows(chunk.drop_last(), pairs);
        match subscription_of(pairs, chunk.last().application_id) {
            Some(sub) => rest.push(row_of(chunk.last(), sub)),
            None => rest,
        }
    }
}

/// `row` is entry `e`'s row: the application's subscription, the hour from
/// the entry's window start, the entry's counters, and the bytes sent plus
/// the bytes received as stored bytes.
#[verifier::opaque]
pub open spec fn row_for_entry(row: UsageRow, e: BatchEntry, pairs: Seq<(u128, u128)>) -> bool {
    &&& subscription_of(pairs, e.application_id) == Some(row.subscription_id)
    &&& row.application_id == e.application_id
    &&& row.period_start == e.period_start
    &&& row.period_end == e.period_start + 3600
    &&& row.messages_sent == e.counters.messages_sent
    &&& row.messages_received == e.counters.messages_received
    &&& row.proofs_verified == e.counters.proofs_verified
    &&& row.total_bytes_sent == e.counters.total_bytes_sent
    &&& row.total_bytes_received == e.counters.total_bytes_received
    &&& row.total_bytes_stored == e.counters.total_bytes_sent + e.counters.total_bytes_received
    &&& row.rate_limit_hits == e.counters.rate_limit_hits
    &&& row.bytes_proved == e.counters.bytes_proved
}

/// `row` is the row of some entry of `chunk`.
pub open spec fn row_of_some_entry(row: UsageRow, chunk: Seq<BatchEntry>, pairs: Seq<(u128, u128)>) -> bool {
    exists|i: int| 0 <= i < chunk.len() && #[trigger] row_for_entry(row, chunk[i], pairs)
}

/// Law: every row of a chunk is the row of an entry of the chunk whose
/// application has a subscription; every such entry gets a row; no more
/// rows come than entries.
pub proof fn lemma_resolved_rows(chunk: Seq<BatchEntry>, pairs: Seq<(u128, u128)>)
    requires
        forall|i: int| 0 <= i < chunk.len() ==> row_fits(#[trigger] chunk[i]),
    ensures
        resolved_rows(chunk, pairs).len() <= chunk.len(),
        forall|r: int| 0 <= r < resolved_rows(chunk, pairs).len()
            ==> #[trigger] row_of_some_entry(resolved_rows(chunk, pairs)[r], chunk, pairs),
        forall|i: int| 0 <= i < chunk.len() && (#[trigger] subscription_of(pairs, chunk[i].application_id)) is Some
            ==> exists|r: int| 0 <= r < resolved_rows(chunk, pairs).len()
                && #[trigger] row_for_entry(resolved_rows(chunk, pairs)[r], chunk[i], pairs),
    decreases chunk.len(),
{
    if chunk.len() > 0 {
        let t = chunk.drop_last();
        assert forall|i: int| 0 <= i < t.len() implies row_fits(#[trigger] t[i]) by {
            assert(t[i] == chunk[i]);
        }
        lemma_resolved_rows(t, pairs);
        let rest = resolved_rows(t, pairs);
        let rows = resolved_rows(chunk, pairs);
        let l = chunk.len() - 1;
        assert(chunk[l] == chunk.last());
        assert(row_fits(chunk[l]));
        assert(rows.len() == rest.len() || rows.len() == rest.len() + 1);
        assert(forall|r: int| 0 <= r < rest.len() ==> rows[r] == rest[r]);
        assert(rows.len() == rest.len() + 1 ==> row_for_entry(rows[rest.len() as int], chunk[l], pairs)) by {
            reveal(row_for_entry);
        }
        assert((subscription_of(pairs, chunk[l].application_id) is Some) ==> rows.len() == rest.len() + 1);
        assert forall|r: int| 0 <= r < rows.len() implies #[trigger] row_of_some_entry(rows[r], chunk, pairs) by {
            if r < rest.len() {
                assert(rows[r] == rest[r]);
                assert(row_of_some_entry(rest[r], t, pairs));
                let i = choose|i: int| 0 <= i < t.len() && #[trigger] row_for_entry(rest[r], t[i], pairs);
                assert(chunk[i] == t[i]);
                assert(row_for_entry(rows[r], chunk[i], pairs));
            } else {
                assert(row_for_entry(rows[r], chunk[l], pairs));
            }
        }
        assert forall|i: int| 0 <= i < chunk.len() && (#[trigger] subscription_of(pairs, chunk[i].application_id)) is Some
            implies exists|r: int| 0 <= r < rows.len() && #[trigger] row_for_entry(rows[r], chunk[i], pairs) by {
            if i < l {
                assert(t[i] == chunk[i]);
                assert(subscription_of(pairs, t[i].application_id) is Some);
                let r = choose|r: int| 0 <= r < rest.len() && #[trigger] row_for_entry(rest[r], t[i], pairs);
                assert(rows[r] == rest[r]);
                assert(row_for_entry(rows[r], chunk[i], pairs));
            } else {
                assert(row_for_entry(rows[rest.len() as int], chunk[i], pairs));
            }
        }
    } else {
        assert(resolved_rows(chunk, pairs).len() == 0);
    }
}

fn lookup_subscription(pairs: &Vec<(u128, u128)>, app: u128) -> (res: Option<u128>)
    ensures
        res == subscription_of(pairs@, app),
{
    let mut i: usize = pairs.len();
    assert(pairs@.subrange(0, i as int) =~= pairs@);
    while i > 0
        invariant
            i <= pairs.len(),
            subscription_of(pairs@, app) == subscription_of(pairs@.subrange(0, i as int), app),
        decreases i,
    {
        assert(pairs@.subrange(0, i as int).drop_last() =~= pairs@.subrange(0, i - 1));
        let p = pairs[i - 1];
        if p.0 == app {
            return Some(p.1);
        }
        i = i - 1;
    }
    None
}

/// The applications of a chunk's entries, in order.
pub fn application_ids(chunk: &Vec<BatchEntry>) -> (ids: Vec<u128>)
    ensures
        ids@ == chunk@.map_values(|e: BatchEntry| e.application_id),
{
    let mut ids: Vec<u128> = Vec::new();
    let mut i: usize = 0;
    while i < chunk.len()
        invariant
            i <= chunk.len(),
            ids@ == chunk@.subrange(0, i as int).map_values(|e: BatchEntry| e.application_id),
        decreases chunk.len() - i,
    {
        ids.push(chunk[i].application_id);
        i = i + 1;
        assert(ids@ =~= chunk@.subrange(0, i as int).map_values(|e: BatchEntry| e.application_id));
    }
    assert(chunk@.subrange(0, i as int) =~= chunk@);
    ids
}

/// The rows to write for a chunk, given the looked-up subscriptions.
pub fn resolve_rows(chunk: &Vec<BatchEntry>, subscriptions: &Vec<(u128, u128)>) -> (rows: Vec<UsageRow>)
    requires
        forall|i: int| 0 <= i < chunk.len() ==> row_fits(#[trigger] chunk@[i]),
    ensures
        rows@ == resolved_rows(chunk@, subscriptions@),
{
    let mut rows: Vec<UsageRow> = Vec::new();
    let mut i: usize = 0;
    while i < chunk.len()
        invariant
            i <= chunk.len(),
            forall|j: int| 0 <= j < chunk.len() ==> row_fits(#[trigger] chunk@[j]),
            rows@ == resolved_rows(chunk@.subrange(0, i as int), subscriptions@),
        decreases chunk.len() - i,
    {
        let e = chunk[i];
        assert(row_fits(chunk@[i as int]));
        assert(chunk@.subrange(0, i + 1).drop_last() =~= chunk@.subrange(0, i as int));
        assert(chunk@.subrange(0, i + 1).last() == e);
        match lookup_subscription(subscriptions, e.application_id) {
            Some(sub) => {
                let c = e.counters;
                let cost = c.estimate_cost_cents();
                let row = UsageRow {
                    period_start: e.period_start,
                    period_end: e.period_start + 3600,
                    application_id: e.application_id,
                    subscription_id: sub,
                    messages_sent: c.messages_sent,
                    messages_received: c.messages_received,
                    proofs_verified: c.proofs_verified,
                    total_bytes_stored: c.total_bytes_sent + c.total_bytes_received,
                    total_bytes_sent: c.total_bytes_sent,
                    total_bytes_received: c.total_bytes_received,
                    rate_limit_hits: c.rate_limit_hits,
                    bytes_proved: c.bytes_proved,
                    estimated_cost_cents: cost,
                };
                rows.push(row);
            },
            None => {},
        }
        i = i + 1;
    }
    assert(chunk@.subrange(0, i as int) =~= chunk@);
    rows
}

} // verus!
