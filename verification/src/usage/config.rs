//! Settings of the usage metering system and the names of its shared sets.
use vstd::prelude::*;
use crate::text::{chars_of, views};
use crate::keys::{key_text, cache_key};

verus! {

/// Default largest number of keys flushed in one transaction.
pub const DEFAULT_MAX_BATCH_SIZE: usize = 1000;

/// Default lifetime of a metric hash, in seconds (two hours).
pub const DEFAULT_METRIC_TTL_SECS: u64 = 7200;

/// Default time between flush cycles, in seconds (five minutes).
pub const DEFAULT_FLUSH_INTERVAL_SECS: u64 = 300;

/// Time allowed for one cache operation, in seconds.
pub const REDIS_OPERATION_TIMEOUT_SECS: u64 = 30;

/// The field that marks a metric hash as being processed.
pub open spec fn processing_flag_text() -> Seq<char> {
    "_processing"@
}

/// The field that marks a metric hash as being processed.
pub fn processing_flag() -> (res: String)
    ensures
        res@ == processing_flag_text(),
{
    String::from_str("_processing")
}

/// The set that tracks the active application metric keys.
pub fn active_keys_set() -> (res: String)
    ensures
        res@ == key_text(seq!["metric"@, "app"@, "active_keys"@]),
{
    let mut parts: Vec<Vec<char>> = Vec::new();
    parts.push(chars_of("metric"));
    parts.push(chars_of("app"));
    parts.push(chars_of("active_keys"));
    assert(views(parts@) =~= seq!["metric"@, "app"@, "active_keys"@]);
    cache_key(parts)
}

/// The set that tracks the active client metric keys.
pub fn active_client_keys_set() -> (res: String)
    ensures
        res@ == key_text(seq!["metric"@, "client"@, "active_keys"@]),
{
    let mut parts: Vec<Vec<char>> = Vec::new();
    parts.push(chars_of("metric"));
    parts.push(chars_of("client"));
    parts.push(chars_of("active_keys"));
    assert(views(parts@) =~= seq!["metric"@, "client"@, "active_keys"@]);
    cache_key(parts)
}

/// Configuration of metric collection and flushing.
#[derive(Clone, Copy, Debug)]
pub struct MetricsConfig {
    /// Largest number of keys flushed in one transaction.
    pub max_batch_size: usize,
    /// Lifetime of a metric hash, in seconds.
    pub metric_ttl_secs: u64,
    /// Time between flush cycles, in seconds.
    pub flush_interval_secs: u64,
    /// Time allowed for one cache operation, in seconds.
    pub redis_operation_timeout_secs: u64,
}

impl Default for MetricsConfig {
    fn default() -> (c: MetricsConfig)
        ensures
            c.max_batch_size == DEFAULT_MAX_BATCH_SIZE,
            c.metric_ttl_secs == DEFAULT_METRIC_TTL_SECS,
            c.flush_interval_secs == DEFAULT_FLUSH_INTERVAL_SECS,
            c.redis_operation_timeout_secs == REDIS_OPERATION_TIMEOUT_SECS,
    {
        MetricsConfig {
            max_batch_size: DEFAULT_MAX_BATCH_SIZE,
            metric_ttl_secs: DEFAULT_METRIC_TTL_SECS,
            flush_interval_secs: DEFAULT_FLUSH_INTERVAL_SECS,
            redis_operation_timeout_secs: REDIS_OPERATION_TIMEOUT_SECS,
        }
    }
}

/// Configuration of the application-level counting engine.
#[derive(Clone, Copy, Debug)]
pub struct UsageEngineConfig {
    /// Lifetime of an idempotency key, in seconds.
    pub counted_ttl_secs: i64,
    /// Lifetime of a monthly quota key, in seconds.
    pub monthly_ttl_secs: i64,
    /// Lifetime of an hourly metric key, in seconds.
    pub hourly_ttl_secs: i64,
    /// Time allowed for one cache operation, in seconds.
    pub operation_timeout_secs: u64,
    /// Largest number of keys flushed at once.
    pub max_batch_size: usize,
}

impl Default for UsageEngineConfig {
    fn default() -> (c: UsageEngineConfig)
        ensures
            c.counted_ttl_secs == 3600,
            c.monthly_ttl_secs == 35 * 24 * 60 * 60,
            c.hourly_ttl_secs == 7200,
            c.operation_timeout_secs == 5,
            c.max_batch_size == 100,
    {
        UsageEngineConfig {
            counted_ttl_secs: 3600,
            monthly_ttl_secs: 35 * 24 * 60 * 60,
            hourly_ttl_secs: 7200,
            operation_timeout_secs: 5,
            max_batch_size: 100,
        }
    }
}

/// Configuration of the client-level counting engine.
#[derive(Clone, Copy, Debug)]
pub struct ClientUsageEngineConfig {
    /// Lifetime of an idempotency key, in seconds.
    pub counted_ttl_secs: i64,
    /// Lifetime of an hourly metric key, in seconds.
    pub hourly_ttl_secs: i64,
    /// Time allowed for one cache operation, in seconds.
    pub operation_timeout_secs: u64,
}

impl Default for ClientUsageEngineConfig {
    fn default() -> (c: ClientUsageEngineConfig)
        ensures
            c.counted_ttl_secs == 3600,
            c.hourly_ttl_secs == 7200,
            c.operation_timeout_secs == 5,
    {
        ClientUsageEngineConfig { counted_ttl_secs: 3600, hourly_ttl_secs: 7200, operation_timeout_secs: 5 }
    }
}

/// All-time usage totals of an application.
#[derive(Clone, Copy, Debug, PartialEq, Eq, Structural)]
pub struct UsageAggregate {
    pub total_messages_sent: i64,
    pub total_messages_received: i64,
    pub total_proofs_verified: i64,
    pub total_bytes_stored: i64,
    pub total_bytes_sent: i64,
    pub total_bytes_received: i64,
    pub total_rate_limit_hits: i64,
    pub total_estimated_cost_cents: i64,
}

/// The aggregate with every total zero.
pub open spec fn zero_aggregate() -> UsageAggregate {
    UsageAggregate {
        total_messages_sent: 0,
        total_messages_received: 0,
        total_proofs_verified: 0,
        total_bytes_stored: 0,
        total_bytes_sent: 0,
        total_bytes_received: 0,
        total_rate_limit_hits: 0,
        total_estimated_cost_cents: 0,
    }
}

impl Default for UsageAggregate {
    fn default() -> (a: UsageAggregate)
        ensures
            a == zero_aggregate(),
    {
        UsageAggregate {
            total_messages_sent: 0,
            total_messages_received: 0,
            total_proofs_verified: 0,
            total_bytes_stored: 0,
            total_bytes_sent: 0,
            total_bytes_received: 0,
            total_rate_limit_hits: 0,
            total_estimated_cost_cents: 0,
        }
    }
}

/// All-time usage totals of one client within an application.
#[derive(Clone, Copy, Debug, PartialEq, Eq, Structural)]
pub struct ClientUsageAggregate {
    pub total_messages_sent: i64,
    pub total_messages_received: i64,
    pub total_proofs_verified: i64,
    pub total_bytes_stored: i64,
    pub total_bytes_sent: i64,
    pub total_bytes_received: i64,
    pub total_rate_limit_hits: i64,
    pub total_estimated_cost_cents: i64,
}

impl Default for ClientUsageAggregate {
    fn default() -> (a: ClientUsageAggregate)
        ensures
            a.total_messages_sent == 0,
            a.total_messages_received == 0,
            a.total_proofs_verified == 0,
            a.total_bytes_stored == 0,
            a.total_bytes_sent == 0,
            a.total_bytes_received == 0,
            a.total_rate_limit_hits == 0,
            a.total_estimated_cost_cents == 0,
    {
        ClientUsageAggregate {
            total_messages_sent: 0,
            total_messages_received: 0,
            total_proofs_verified: 0,
            total_bytes_stored: 0,
            total_bytes_sent: 0,
            total_bytes_received: 0,
            total_rate_limit_hits: 0,
            total_estimated_cost_cents: 0,
        }
    }
}

} // verus!
