//! Instant messages and the values the messaging service reports.
//!
//! Instants of messages are microseconds since 1970-01-01T00:00:00 UTC.
use vstd::prelude::*;

verus! {

/// Messages expire this many days after they are sent.
pub const DEFAULT_MESSAGE_EXPIRY_DAYS: i64 = 7;
/// Most messages read from an inbox at once.
pub const MAX_INBOX_FETCH: usize = 100;
/// Most entries an inbox list is rebuilt with.
pub const MAX_QUEUE_LEN: usize = 10000;
/// Seconds a cached message or inbox lives.
pub const CACHE_TTL_SECS: u64 = 600;
/// Microseconds per second.
pub const MICROS_PER_SEC: i64 = 1_000_000;

/// A peer-to-peer instant message.
#[derive(Debug)]
pub struct Message {
    pub id: u128,
    pub ciphertext: String,
    pub nonce: u128,
    pub content_type: Option<String>,
    pub content_size_bytes: i64,
    pub application_id: u128,
    pub created_at: i64,
    pub expires_at: i64,
    pub accessed_at: Option<i64>,
    pub access_count: i64,
    pub is_delivered: bool,
    pub delivered_at: Option<i64>,
    pub max_access_count: Option<i64>,
    pub require_proof_verification: bool,
    pub sender_client_id: u128,
    pub recipient_client_id: u128,
    pub group_id: Option<u128>,
    pub is_group_message: bool,
    pub encryption_algorithm: Option<String>,
    pub algorithm_version: Option<i16>,
    pub session_id: Option<String>,
    pub signature: Option<String>,
    pub envelope_public_key: String,
    pub file_id: Option<u128>,
}

fn copy_opt_string(s: &Option<String>) -> (r: Option<String>)
    ensures
        r == *s,
{
    match s {
        Some(x) => Some(x.clone()),
        None => None,
    }
}

impl Message {
    /// An identical copy of the message.
    pub fn duplicate(&self) -> (r: Message)
        ensures
            r == *self,
    {
        Message {
            id: self.id,
            ciphertext: self.ciphertext.clone(),
            nonce: self.nonce,
            content_type: copy_opt_string(&self.content_type),
            content_size_bytes: self.content_size_bytes,
            application_id: self.application_id,
            created_at: self.created_at,
            expires_at: self.expires_at,
            accessed_at: self.accessed_at,
            access_count: self.access_count,
            is_delivered: self.is_delivered,
            delivered_at: self.delivered_at,
            max_access_count: self.max_access_count,
            require_proof_verification: self.require_proof_verification,
            sender_client_id: self.sender_client_id,
            recipient_client_id: self.recipient_client_id,
            group_id: self.group_id,
            is_group_message: self.is_group_message,
            encryption_algorithm: copy_opt_string(&self.encryption_algorithm),
            algorithm_version: self.algorithm_version,
            session_id: copy_opt_string(&self.session_id),
            signature: copy_opt_string(&self.signature),
            envelope_public_key: self.envelope_public_key.clone(),
            file_id: self.file_id,
        }
    }
}

/// A deletion waiting for the background deleter.
#[derive(Debug, Clone, Copy, PartialEq, Eq, Structural)]
pub struct DeleteTask {
    pub msg_id: u128,
    pub is_group_message: bool,
}

/// Why a message went to the dead-letter queue.
#[derive(Debug, Clone, Copy, PartialEq, Eq, Structural)]
pub enum DlqReason {
    SignatureVerificationFailed,
    MetricsIncrementFailed,
    DeserializationFailed,
    DatabaseWriteFailed,
    MaxRetriesExceeded,
}

/// Service-wide failure counters.
#[derive(Debug, Clone, Copy, PartialEq, Eq, Structural)]
pub struct SystemMetrics {
    pub failed_verifications: usize,
    pub failed_metrics_increments: usize,
    pub emergency_writes: usize,
    pub dlq_entries: usize,
    pub db_pool_dropped_deletes: usize,
}

/// A reading of the failure counters.
#[derive(Debug, Clone, Copy, PartialEq, Eq, Structural)]
pub struct MetricsSnapshot {
    pub failed_verifications: usize,
    pub failed_metrics_increments: usize,
    pub emergency_writes: usize,
    pub dlq_entries: usize,
    pub db_pool_dropped_deletes: usize,
}

impl SystemMetrics {
    /// All counters at zero.
    pub fn new() -> (m: SystemMetrics)
        ensures
            m == (SystemMetrics {
                failed_verifications: 0,
                failed_metrics_increments: 0,
                emergency_writes: 0,
                dlq_entries: 0,
                db_pool_dropped_deletes: 0,
            }),
    {
        SystemMetrics {
            failed_verifications: 0,
            failed_metrics_increments: 0,
            emergency_writes: 0,
            dlq_entries: 0,
            db_pool_dropped_deletes: 0,
        }
    }

    /// The current counter values.
    pub fn get_snapshot(&self) -> (s: MetricsSnapshot)
        ensures
            s == (MetricsSnapshot {
                failed_verifications: self.failed_verifications,
                failed_metrics_increments: self.failed_metrics_increments,
                emergency_writes: self.emergency_writes,
                dlq_entries: self.dlq_entries,
                db_pool_dropped_deletes: self.db_pool_dropped_deletes,
            }),
    {
        MetricsSnapshot {
            failed_verifications: self.failed_verifications,
            failed_metrics_increments: self.failed_metrics_increments,
            emergency_writes: self.emergency_writes,
            dlq_entries: self.dlq_entries,
            db_pool_dropped_deletes: self.db_pool_dropped_deletes,
        }
    }
}

/// The service's health: channel capacities, failure counters and circuit
/// breaker states.
#[derive(Debug)]
pub struct HealthStatus {
    pub flusher_channel_capacity: usize,
    pub flusher_channel_available: usize,
    pub deleter_channel_capacity: usize,
    pub deleter_channel_available: usize,
    pub dlq_channel_capacity: usize,
    pub dlq_channel_available: usize,
    pub failed_verifications: usize,
    pub failed_metrics_increments: usize,
    pub emergency_writes: usize,
    pub dlq_entries: usize,
    pub db_pool_dropped_deletes: usize,
    pub db_pool_available: bool,
    pub redis_circuit_state: String,
    pub db_circuit_state: String,
}

/// Free and maximum slots of a bounded channel.
#[derive(Debug, Clone, Copy, PartialEq, Eq, Structural)]
pub struct ChannelLoad {
    pub capacity: usize,
    pub max_capacity: usize,
}

/// The health report from the channels' loads, the failure counters and the
/// other readings.  A channel's "available" figure is its maximum capacity
/// less its free capacity (the slots in use).
pub fn health_status(flusher: ChannelLoad, deleter: ChannelLoad, dlq: ChannelLoad, metrics: &SystemMetrics,
    db_pool_available: bool, redis_circuit_state: String, db_circuit_state: String) -> (h: HealthStatus)
    requires
        flusher.capacity <= flusher.max_capacity,
        deleter.capacity <= deleter.max_capacity,
        dlq.capacity <= dlq.max_capacity,
    ensures
        h.flusher_channel_capacity == flusher.capacity,
        h.flusher_channel_available == flusher.max_capacity - flusher.capacity,
        h.deleter_channel_capacity == deleter.capacity,
        h.deleter_channel_available == deleter.max_capacity - deleter.capacity,
        h.dlq_channel_capacity == dlq.capacity,
        h.dlq_channel_available == dlq.max_capacity - dlq.capacity,
        h.failed_verifications == metrics.failed_verifications,
        h.failed_metrics_increments == metrics.failed_metrics_increments,
        h.emergency_writes == metrics.emergency_writes,
        h.dlq_entries == metrics.dlq_entries,
        h.db_pool_dropped_deletes == metrics.db_pool_dropped_deletes,
        h.db_pool_available == db_pool_available,
        h.redis_circuit_state == redis_circuit_state,
        h.db_circuit_state == db_circuit_state,
{
    let s = metrics.get_snapshot();
    HealthStatus {
        flusher_channel_capacity: flusher.capacity,
        flusher_channel_available: flusher.max_capacity - flusher.capacity,
        deleter_channel_capacity: deleter.capacity,
        deleter_channel_available: deleter.max_capacity - deleter.capacity,
        dlq_channel_capacity: dlq.capacity,
        dlq_channel_available: dlq.max_capacity - dlq.capacity,
        failed_verifications: s.failed_verifications,
        failed_metrics_increments: s.failed_metrics_increments,
        emergency_writes: s.emergency_writes,
        dlq_entries: s.dlq_entries,
        db_pool_dropped_deletes: s.db_pool_dropped_deletes,
        db_pool_available,
        redis_circuit_state,
        db_circuit_state,
    }
}

/// Summary of a recipient's undelivered messages.
#[derive(Debug, Clone, Copy, PartialEq, Eq, Structural)]
pub struct InboxStatus {
    pub unread_count: usize,
    pub oldest_unread_at: Option<i64>,
    pub newest_unread_at: Option<i64>,
    pub total_size_bytes: i64,
}

/// The latest message of one sender, and how many the sender has waiting.
#[derive(Debug)]
pub struct InboxEntry {
    pub sender_pubkey: String,
    pub last_message: Message,
    pub message_count: usize,
}

/// An inbox grouped by sender.
#[derive(Debug)]
pub struct GroupedInbox {
    pub entries: Vec<InboxEntry>,
    pub sender_count: usize,
    pub total_messages: usize,
}

/// One page of a sender's messages.
#[derive(Debug)]
pub struct SenderMessages {
    pub sender_pubkey: String,
    pub messages: Vec<Message>,
    pub total: usize,
    pub offset: usize,
    pub has_more: bool,
}

} // verus!
