//! Upkeep of the message cache: rebuilding an inbox list from the message
//! table page by page, purging delivered messages in pipeline chunks, and
//! the decisions of the background writers, deleters and reporters.
use vstd::prelude::*;
use crate::keys::{instant_message_key, words_id_key};
use crate::ident::uuid_text;
use crate::keys::id_chars;
use crate::message::model::{MAX_QUEUE_LEN, DlqReason, MetricsSnapshot};
use crate::text::{chars_of, string_of, append_chars};

verus! {

/// Identifiers read per page while an inbox list is rebuilt.
pub const REBUILD_PAGE_SIZE: i32 = 1000;
/// Seconds the lock that guards a rebuild lives.
pub const REBUILD_LOCK_TTL_SECS: i64 = 5;
/// Most cache deletions sent in one pipeline.
pub const PIPELINE_CHUNK_SIZE: usize = 500;
/// Hours between purges of delivered messages.
pub const PURGE_INTERVAL_HOURS: u64 = 1;
/// Hours a delivered message is kept.
pub const RETENTION_AFTER_DELIVERY_HOURS: i64 = 24;

/// What to do when a rebuild of an empty inbox is asked for.
#[derive(Debug, Clone, Copy, PartialEq, Eq, Structural)]
pub enum RebuildGate {
    /// Another rebuild holds the lock: do nothing.
    Busy,
    /// The list filled up meanwhile: release the lock, do nothing.
    Populated,
    /// Rebuild, then release the lock.
    Rebuild,
}

/// What a rebuild request does, from whether this caller holds the lock
/// and from the list's length.
pub fn rebuild_gate(lock_acquired: bool, list_len: i64) -> (g: RebuildGate)
    ensures
        g == (if !lock_acquired {
            RebuildGate::Busy
        } else if list_len > 0 {
            RebuildGate::Populated
        } else {
            RebuildGate::Rebuild
        }),
{
    if !lock_acquired {
        RebuildGate::Busy
    } else if list_len > 0 {
        RebuildGate::Populated
    } else {
        RebuildGate::Rebuild
    }
}

/// How far a paginated rebuild has come: the offset of the next page and
/// the number of identifiers pushed so far.
#[derive(Debug, Clone, Copy, PartialEq, Eq, Structural)]
pub struct RebuildProgress {
    pub offset: i32,
    pub total_added: usize,
}

impl RebuildProgress {
    /// A rebuild that still reads pages: every page so far was full, so the
    /// offset equals the count pushed, which is below the list's cap.
    pub open spec fn reading(self) -> bool {
        &&& self.offset as int == self.total_added as int
        &&& self.total_added < MAX_QUEUE_LEN
    }
}

/// The next step of a paginated rebuild.
#[derive(Debug, Clone, Copy, PartialEq, Eq, Structural)]
pub enum RebuildStep {
    /// Push the page just read, then read the page at this offset.
    PushAndFetch { offset: i32 },
    /// Push the page just read (if any), then stop; set the list's lifetime
    /// when anything was pushed at all.
    Finish { push: bool, set_ttl: bool },
}

/// A rebuild before its first page.
pub fn rebuild_start() -> (p: RebuildProgress)
    ensures
        p == (RebuildProgress { offset: 0, total_added: 0 }),
        p.reading(),
{
    RebuildProgress { offset: 0, total_added: 0 }
}

/// The step after a page of `page_len` identifiers was read at `p.offset`:
/// an empty page ends the rebuild; otherwise the page is pushed, and the
/// rebuild ends when the list reached its cap or the page was not full.
pub fn rebuild_after_page(p: RebuildProgress, page_len: usize) -> (r: (RebuildProgress, RebuildStep))
    requires
        p.reading(),
        page_len <= REBUILD_PAGE_SIZE,
    ensures
        page_len == 0 ==> r == (p, RebuildStep::Finish { push: false, set_ttl: p.total_added > 0 }),
        page_len > 0 ==> r.0.total_added == p.total_added + page_len,
        page_len > 0 && (p.total_added + page_len >= MAX_QUEUE_LEN || page_len < REBUILD_PAGE_SIZE)
            ==> r.1 == (RebuildStep::Finish { push: true, set_ttl: true }) && r.0.offset == p.offset,
        page_len > 0 && !(p.total_added + page_len >= MAX_QUEUE_LEN || page_len < REBUILD_PAGE_SIZE)
            ==> r.1 == (RebuildStep::PushAndFetch { offset: (p.offset + REBUILD_PAGE_SIZE) as i32 })
                && r.0.offset == p.offset + REBUILD_PAGE_SIZE && r.0.reading(),
{
    if page_len == 0 {
        return (p, RebuildStep::Finish { push: false, set_ttl: p.total_added > 0 });
    }
    let total = p.total_added + page_len;
    if total >= MAX_QUEUE_LEN || page_len < REBUILD_PAGE_SIZE as usize {
        (RebuildProgress { offset: p.offset, total_added: total }, RebuildStep::Finish { push: true, set_ttl: true })
    } else {
        let offset = p.offset + REBUILD_PAGE_SIZE;
        (RebuildProgress { offset, total_added: total }, RebuildStep::PushAndFetch { offset })
    }
}

/// The cache keys of the purged messages, in order, in chunks of
/// [`PIPELINE_CHUNK_SIZE`].
pub open spec fn purge_chunks_spec(ids: Seq<u128>, res: Seq<Seq<Seq<char>>>) -> bool {
    &&& res.len() == (ids.len() + PIPELINE_CHUNK_SIZE - 1) / (PIPELINE_CHUNK_SIZE as int)
    &&& forall|c: int| 0 <= c < res.len() ==> {
        &&& (#[trigger] res[c]).len() == (if ids.len() - c * PIPELINE_CHUNK_SIZE < PIPELINE_CHUNK_SIZE {
            ids.len() - c * PIPELINE_CHUNK_SIZE
        } else {
            PIPELINE_CHUNK_SIZE as int
        })
        &&& forall|i: int| 0 <= i < res[c].len()
            ==> #[trigger] res[c][i] == words_id_key("instant_message"@, "message"@, ids[c * PIPELINE_CHUNK_SIZE + i])
    }
}

/// The cache keys of the messages a purge deletes, cut into pipelines.
pub fn purge_key_chunks(ids: &Vec<u128>) -> (res: Vec<Vec<String>>)
    ensures
        purge_chunks_spec(ids@, res@.map_values(|c: Vec<String>| c@.map_values(|s: String| s@))),
{
    let m = PIPELINE_CHUNK_SIZE;
    let n = ids.len();
    let mut out: Vec<Vec<String>> = Vec::new();
    let mut start: usize = 0;
    while start < n
        invariant
            n == ids.len(),
            m == PIPELINE_CHUNK_SIZE,
            start <= n,
            start == (if out.len() * m <= n { out.len() * m } else { n as int }),
            out.len() * m < n + m,
            out.len() == 0 || (out.len() - 1) * m < n,
            forall|c: int| 0 <= c < out.len() ==> {
                &&& (#[trigger] out@[c])@.len() == (if n - c * m < m { n - c * m } else { m as int })
                &&& forall|i: int| 0 <= i < out@[c]@.len()
                    ==> #[trigger] out@[c]@[i]@ == words_id_key("instant_message"@, "message"@, ids@[c * m + i])
            },
        decreases n - start,
    {
        let end: usize = if n - start > m { start + m } else { n };
        let mut chunk: Vec<String> = Vec::new();
        let mut i: usize = start;
        while i < end
            invariant
                start <= i <= end <= n,
                n == ids.len(),
                chunk@.len() == i - start,
                forall|j: int| 0 <= j < chunk@.len()
                    ==> #[trigger] chunk@[j]@ == words_id_key("instant_message"@, "message"@, ids@[start + j]),
            decreases end - i,
        {
            let key = instant_message_key(ids[i]);
            chunk.push(key);
            i = i + 1;
        }
        let ghost c = out.len() as int;
        out.push(chunk);
        proof {
            assert(out@[c]@.len() == (if n - c * m < m { n - c * m } else { m as int }));
        }
        start = end;
    }
    proof {
        let k = out.len() as int;
        assert(k == (n + m - 1) / (m as int)) by (nonlinear_arith)
            requires
                k * m >= n,
                k * m < n + m,
                k == 0 || (k - 1) * m < n,
                m == 500;

        let r = out@.map_values(|c: Vec<String>| c@.map_values(|s: String| s@));
        assert forall|c: int| 0 <= c < r.len() implies {
            &&& (#[trigger] r[c]).len() == (if n - c * m < m { n - c * m } else { m as int })
            &&& forall|i: int| 0 <= i < r[c].len()
                ==> #[trigger] r[c][i] == words_id_key("instant_message"@, "message"@, ids@[c * m + i])
        } by {
            assert(r[c] == out@[c]@.map_values(|s: String| s@));
            assert forall|i: int| 0 <= i < r[c].len()
                implies #[trigger] r[c][i] == words_id_key("instant_message"@, "message"@, ids@[c * m + i]) by {
                assert(r[c][i] == out@[c]@[i]@);
            }
        }
    }
    out
}

/// Sent messages written to the table in one batch, at most.
pub const MAX_BATCH_SIZE: usize = 2000;
/// Seconds between writes of the pending sent messages.
pub const FLUSH_INTERVAL_SECS: u64 = 60;
/// Deletions carried out in one batch, at most.
pub const MAX_DELETE_BATCH: usize = 1000;
/// Seconds between batches of deletions.
pub const CLEANUP_INTERVAL_SECS: u64 = 10;
/// Seconds a dead-letter entry kept in the cache lives (seven days).
pub const DLQ_CACHE_TTL_SECS: u64 = 604800;
/// Failed metric updates above which the reporter raises an alert.
pub const METRICS_FAILURE_ALERT: usize = 100;

/// What wakes a background batch writer.
#[derive(Debug, Clone, Copy, PartialEq, Eq, Structural)]
pub enum BatchEvent {
    /// Its timer fired.
    Tick,
    /// An item joined its buffer.
    Received,
    /// Its queue closed: the service is stopping.
    Closed,
}

/// Whether a batch writer writes its buffer of `buffered` items now: on a
/// timer tick or at shutdown when anything is buffered, and as soon as the
/// buffer holds `max_batch` items.
pub fn batch_due(event: BatchEvent, buffered: usize, max_batch: usize) -> (b: bool)
    ensures
        b == match event {
            BatchEvent::Tick => buffered > 0,
            BatchEvent::Received => buffered >= max_batch,
            BatchEvent::Closed => buffered > 0,
        },
{
    match event {
        BatchEvent::Tick => buffered > 0,
        BatchEvent::Received => buffered >= max_batch,
        BatchEvent::Closed => buffered > 0,
    }
}

/// The alerts a metrics reading raises.
#[derive(Debug, Clone, Copy, PartialEq, Eq, Structural)]
pub struct MetricsAlerts {
    /// Deletions were lost because the table's pool was gone.
    pub db_pool_dropped: bool,
    /// Metric updates fail often: billing is affected.
    pub metrics_failing: bool,
}

/// The alerts of a metrics reading.
pub fn metrics_alerts(s: MetricsSnapshot) -> (a: MetricsAlerts)
    ensures
        a == (MetricsAlerts {
            db_pool_dropped: s.db_pool_dropped_deletes > 0,
            metrics_failing: s.failed_metrics_increments > METRICS_FAILURE_ALERT,
        }),
{
    MetricsAlerts {
        db_pool_dropped: s.db_pool_dropped_deletes > 0,
        metrics_failing: s.failed_metrics_increments > METRICS_FAILURE_ALERT,
    }
}

/// The name under which a dead-letter reason is stored.
pub open spec fn dlq_reason_name(r: DlqReason) -> Seq<char> {
    match r {
        DlqReason::SignatureVerificationFailed => "SignatureVerificationFailed"@,
        DlqReason::MetricsIncrementFailed => "MetricsIncrementFailed"@,
        DlqReason::DeserializationFailed => "DeserializationFailed"@,
        DlqReason::DatabaseWriteFailed => "DatabaseWriteFailed"@,
        DlqReason::MaxRetriesExceeded => "MaxRetriesExceeded"@,
    }
}

impl DlqReason {
    /// The name under which the reason is stored.
    pub fn name(&self) -> (s: String)
        ensures
            s@ == dlq_reason_name(*self),
    {
        let t = match self {
            DlqReason::SignatureVerificationFailed => "SignatureVerificationFailed",
            DlqReason::MetricsIncrementFailed => "MetricsIncrementFailed",
            DlqReason::DeserializationFailed => "DeserializationFailed",
            DlqReason::DatabaseWriteFailed => "DatabaseWriteFailed",
            DlqReason::MaxRetriesExceeded => "MaxRetriesExceeded",
        };
        String::from_str(t)
    }
}

/// The cache key of a dead-letter entry kept when the table refused it:
/// `dlq:message:<id>`.
pub fn dlq_cache_key(msg_id: u128) -> (k: String)
    ensures
        k@ == "dlq:message:"@ + uuid_text(msg_id),
{
    let mut c = chars_of("dlq:message:");
    append_chars(&mut c, &id_chars(msg_id));
    string_of(&c)
}

} // verus!
