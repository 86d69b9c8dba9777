//! Billing-critical counting of usage events.
//!
//! Each event is counted by one atomic cache script.  The script is handed
//! an idempotency key (so that an event is counted once), the counter keys
//! it increments, and the lifetimes and sizes it needs; it answers `1` when
//! it counted the event and anything else when the event had been counted
//! before.  This module decides what each script is handed and what its
//! answer means; running the script is left to the caller.
use vstd::prelude::*;
use crate::clock::{calendar_of, calendar_fields, now_seconds};
use crate::keys::{key_text, cache_key, id_chars, counted_key, client_counted_key, word_id_key, words_id_key};
use crate::ident::uuid_text;
use crate::text::{chars_of, pad_text, push_padded, views};
use crate::usage::counters::{
    MetricKey, ClientMetricKey, MetricGranularity, metric_key_text, client_metric_key_text, metric_window,
    client_window,
};
use crate::usage::config::{UsageEngineConfig, ClientUsageEngineConfig};

verus! {

// =============================================================================
// Keys
// =============================================================================

/// The year and month of `now` as `YYYYMM` (empty for an instant the
/// calendar does not represent).
pub open spec fn year_month_text(now: i64) -> Seq<char> {
    match calendar_of(now) {
        Some(f) => pad_text(f.0 as int, 4) + pad_text(f.1 as int, 2),
        None => Seq::empty(),
    }
}

/// The monthly quota key of an application in the month of `now`.
pub open spec fn app_monthly_key_text(application_id: u128, now: i64) -> Seq<char> {
    key_text(seq!["metric"@, "app"@, uuid_text(application_id), "monthly"@, year_month_text(now)])
}

/// The hourly metric key of an application for the hour holding `hour`.
pub open spec fn app_hourly_key_text(application_id: u128, hour: i64) -> Seq<char> {
    metric_key_text(
        MetricKey {
            app_id: application_id,
            granularity: MetricGranularity::Hour,
            window: metric_window(MetricGranularity::Hour, hour),
        },
    )
}

/// The hourly metric key of a client for the hour holding `hour`.
pub open spec fn client_hourly_key_text(application_id: u128, client_id: u128, hour: i64) -> Seq<char> {
    client_metric_key_text(
        ClientMetricKey {
            app_id: application_id,
            client_id,
            granularity: MetricGranularity::Hour,
            window: client_window(MetricGranularity::Hour, hour),
        },
    )
}

/// The monthly quota key of an application in the month of `now`.
pub fn app_monthly_key_at(application_id: u128, now: i64) -> (res: String)
    ensures
        res@ == app_monthly_key_text(application_id, now),
{
    let mut year_month: Vec<char> = Vec::new();
    match calendar_fields(now) {
        Some(f) => {
            push_padded(&mut year_month, f.0 as i64, 4);
            push_padded(&mut year_month, f.1 as i64, 2);
        },
        None => {},
    }
    assert(year_month@ =~= year_month_text(now));
    let mut parts: Vec<Vec<char>> = Vec::new();
    parts.push(chars_of("metric"));
    parts.push(chars_of("app"));
    parts.push(id_chars(application_id));
    parts.push(chars_of("monthly"));
    parts.push(year_month);
    assert(views(parts@) =~= seq!["metric"@, "app"@, uuid_text(application_id), "monthly"@, year_month_text(now)]);
    cache_key(parts)
}

/// The monthly quota key of an application in the current month.
pub fn app_monthly_key(application_id: u128) -> (res: String)
    ensures
        exists|now: i64| res@ == app_monthly_key_text(application_id, now),
{
    app_monthly_key_at(application_id, now_seconds())
}

/// The hourly metric key of an application for the hour holding `hour`.
pub fn app_hourly_key(application_id: u128, hour: i64) -> (res: String)
    ensures
        res@ == app_hourly_key_text(application_id, hour),
{
    match MetricKey::new(application_id, hour, MetricGranularity::Hour) {
        Ok(k) => k.as_str(),
        Err(_) => String::new(),
    }
}

/// The hourly metric key of a client for the hour holding `hour`.
pub fn client_hourly_key(application_id: u128, client_id: u128, hour: i64) -> (res: String)
    ensures
        res@ == client_hourly_key_text(application_id, client_id, hour),
{
    match ClientMetricKey::new(application_id, client_id, hour, MetricGranularity::Hour) {
        Ok(k) => k.as_str(),
        Err(_) => String::new(),
    }
}

// =============================================================================
// Events
// =============================================================================

/// A message sent by a session of an application.
#[derive(Clone, Debug)]
pub struct RecordMessageSentInput {
    pub message_id: u128,
    pub application_id: u128,
    pub session_id: String,
    pub content_size_bytes: i64,
}

impl RecordMessageSentInput {
    pub fn new(message_id: u128, application_id: u128, session_id: String, content_size_bytes: i64) -> (r: Self)
        ensures
            r.message_id == message_id,
            r.application_id == application_id,
            r.session_id == session_id,
            r.content_size_bytes == content_size_bytes,
    {
        RecordMessageSentInput { message_id, application_id, session_id, content_size_bytes }
    }
}

/// A message received by a session of an application.
#[derive(Clone, Debug)]
pub struct RecordMessageReceivedInput {
    pub message_id: u128,
    pub application_id: u128,
    pub session_id: String,
    pub content_size_bytes: i64,
}

impl RecordMessageReceivedInput {
    pub fn new(message_id: u128, application_id: u128, session_id: String, content_size_bytes: i64) -> (r: Self)
        ensures
            r.message_id == message_id,
            r.application_id == application_id,
            r.session_id == session_id,
            r.content_size_bytes == content_size_bytes,
    {
        RecordMessageReceivedInput { message_id, application_id, session_id, content_size_bytes }
    }
}

/// A proof verified for a message of an application.
#[derive(Clone, Debug)]
pub struct RecordProofVerifiedInput {
    pub message_id: u128,
    pub application_id: u128,
    pub session_id: String,
}

impl RecordProofVerifiedInput {
    pub fn new(message_id: u128, application_id: u128, session_id: String) -> (r: Self)
        ensures
            r.message_id == message_id,
            r.application_id == application_id,
            r.session_id == session_id,
    {
        RecordProofVerifiedInput { message_id, application_id, session_id }
    }
}

/// A request of an application refused by the rate limiter.
#[derive(Clone, Copy, Debug)]
pub struct RecordRateLimitHitInput {
    pub message_id: u128,
    pub application_id: u128,
}

impl RecordRateLimitHitInput {
    pub fn new(message_id: u128, application_id: u128) -> (r: Self)
        ensures
            r.message_id == message_id,
            r.application_id == application_id,
    {
        RecordRateLimitHitInput { message_id, application_id }
    }
}

/// A message sent by a client.
#[derive(Clone, Copy, Debug)]
pub struct RecordClientMessageSentInput {
    pub message_id: u128,
    pub application_id: u128,
    pub client_id: u128,
    pub content_size_bytes: i64,
}

/// A message received by a client.
#[derive(Clone, Copy, Debug)]
pub struct RecordClientMessageReceivedInput {
    pub message_id: u128,
    pub application_id: u128,
    pub client_id: u128,
    pub content_size_bytes: i64,
}

/// A proof verified for a client, identified by the proof event.
#[derive(Clone, Copy, Debug)]
pub struct RecordClientProofVerifiedInput {
    pub proof_id: u128,
    pub application_id: u128,
    pub client_id: u128,
}

/// A request of a client refused by the rate limiter, identified by the
/// request.
#[derive(Clone, Copy, Debug)]
pub struct RecordClientRateLimitHitInput {
    pub request_id: u128,
    pub application_id: u128,
    pub client_id: u128,
}

// =============================================================================
// Script calls
// =============================================================================

/// What one counting script is handed: its keys and its integer arguments,
/// in order.
#[derive(Clone, Debug)]
pub struct ScriptCall {
    pub keys: Vec<String>,
    pub args: Vec<i64>,
}

/// The texts of a call's keys.
pub open spec fn key_texts(c: ScriptCall) -> Seq<Seq<char>> {
    c.keys@.map_values(|k: String| k@)
}

fn call_of(keys: Vec<String>, args: Vec<i64>) -> (c: ScriptCall)
    ensures
        c.keys@ == keys@,
        c.args@ == args@,
{
    ScriptCall { keys, args }
}

/// The call that counts a sent message at the instant `now`: keys of the
/// message's idempotency marker, the application's monthly quota and its
/// hourly metrics; arguments the three lifetimes and the message's size.
pub fn message_sent_call(input: &RecordMessageSentInput, config: &UsageEngineConfig, now: i64) -> (c: ScriptCall)
    ensures
        key_texts(c) == seq![
            word_id_key("counted"@, input.message_id),
            app_monthly_key_text(input.application_id, now),
            app_hourly_key_text(input.application_id, now),
        ],
        c.args@ == seq![config.counted_ttl_secs, config.monthly_ttl_secs, config.hourly_ttl_secs, input.content_size_bytes],
{
    let mut keys: Vec<String> = Vec::new();
    keys.push(counted_key(input.message_id));
    keys.push(app_monthly_key_at(input.application_id, now));
    keys.push(app_hourly_key(input.application_id, now));
    let mut args: Vec<i64> = Vec::new();
    args.push(config.counted_ttl_secs);
    args.push(config.monthly_ttl_secs);
    args.push(config.hourly_ttl_secs);
    args.push(input.content_size_bytes);
    let c = call_of(keys, args);
    assert(key_texts(c) =~= seq![
        word_id_key("counted"@, input.message_id),
        app_monthly_key_text(input.application_id, now),
        app_hourly_key_text(input.application_id, now),
    ]);
    assert(c.args@ =~= seq![config.counted_ttl_secs, config.monthly_ttl_secs, config.hourly_ttl_secs, input.content_size_bytes]);
    c
}

/// The call that counts a received message at the instant `now`: keys of
/// the idempotency marker and the application's hourly metrics; arguments
/// the two lifetimes and the message's size.
pub fn message_received_call(input: &RecordMessageReceivedInput, config: &UsageEngineConfig, now: i64) -> (c: ScriptCall)
    ensures
        key_texts(c) == seq![word_id_key("counted"@, input.message_id), app_hourly_key_text(input.application_id, now)],
        c.args@ == seq![config.counted_ttl_secs, config.hourly_ttl_secs, input.content_size_bytes],
{
    let mut keys: Vec<String> = Vec::new();
    keys.push(counted_key(input.message_id));
    keys.push(app_hourly_key(input.application_id, now));
    let mut args: Vec<i64> = Vec::new();
    args.push(config.counted_ttl_secs);
    args.push(config.hourly_ttl_secs);
    args.push(input.content_size_bytes);
    let c = call_of(keys, args);
    assert(key_texts(c) =~= seq![word_id_key("counted"@, input.message_id), app_hourly_key_text(input.application_id, now)]);
    assert(c.args@ =~= seq![config.counted_ttl_secs, config.hourly_ttl_secs, input.content_size_bytes]);
    c
}

/// The call that counts a verified proof at the instant `now`: keys of the
/// idempotency marker and the application's hourly metrics; arguments the
/// two lifetimes.
pub fn proof_verified_call(input: &RecordProofVerifiedInput, config: &UsageEngineConfig, now: i64) -> (c: ScriptCall)
    ensures
        key_texts(c) == seq![word_id_key("counted"@, input.message_id), app_hourly_key_text(input.application_id, now)],
        c.args@ == seq![config.counted_ttl_secs, config.hourly_ttl_secs],
{
    let mut keys: Vec<String> = Vec::new();
    keys.push(counted_key(input.message_id));
    keys.push(app_hourly_key(input.application_id, now));
    let mut args: Vec<i64> = Vec::new();
    args.push(config.counted_ttl_secs);
    args.push(config.hourly_ttl_secs);
    let c = call_of(keys, args);
    assert(key_texts(c) =~= seq![word_id_key("counted"@, input.message_id), app_hourly_key_text(input.application_id, now)]);
    assert(c.args@ =~= seq![config.counted_ttl_secs, config.hourly_ttl_secs]);
    c
}

/// The call that counts a rate-limit hit at the instant `now`: keys of the
/// idempotency marker and the application's hourly metrics; arguments the
/// two lifetimes.
pub fn rate_limit_hit_call(input: &RecordRateLimitHitInput, config: &UsageEngineConfig, now: i64) -> (c: ScriptCall)
    ensures
        key_texts(c) == seq![word_id_key("counted"@, input.message_id), app_hourly_key_text(input.application_id, now)],
        c.args@ == seq![config.counted_ttl_secs, config.hourly_ttl_secs],
{
    let mut keys: Vec<String> = Vec::new();
    keys.push(counted_key(input.message_id));
    keys.push(app_hourly_key(input.application_id, now));
    let mut args: Vec<i64> = Vec::new();
    args.push(config.counted_ttl_secs);
    args.push(config.hourly_ttl_secs);
    let c = call_of(keys, args);
    assert(key_texts(c) =~= seq![word_id_key("counted"@, input.message_id), app_hourly_key_text(input.application_id, now)]);
    assert(c.args@ =~= seq![config.counted_ttl_secs, config.hourly_ttl_secs]);
    c
}

/// The call that counts an event of a client at the instant `now`: keys of
/// the event's client idempotency marker and the client's hourly metrics;
/// arguments the two lifetimes, then the size where the event has one.
fn client_call(
    event_id: u128,
    application_id: u128,
    client_id: u128,
    config: &ClientUsageEngineConfig,
    size: Option<i64>,
    now: i64,
) -> (c: ScriptCall)
    ensures
        key_texts(c) == seq![
            words_id_key("counted"@, "client"@, event_id),
            client_hourly_key_text(application_id, client_id, now),
        ],
        c.args@ == (match size {
            Some(n) => seq![config.counted_ttl_secs, config.hourly_ttl_secs, n],
            None => seq![config.counted_ttl_secs, config.hourly_ttl_secs],
        }),
{
    let mut keys: Vec<String> = Vec::new();
    keys.push(client_counted_key(event_id));
    keys.push(client_hourly_key(application_id, client_id, now));
    let mut args: Vec<i64> = Vec::new();
    args.push(config.counted_ttl_secs);
    args.push(config.hourly_ttl_secs);
    match size {
        Some(n) => args.push(n),
        None => {},
    }
    let c = call_of(keys, args);
    assert(key_texts(c) =~= seq![
        words_id_key("counted"@, "client"@, event_id),
        client_hourly_key_text(application_id, client_id, now),
    ]);
    assert(c.args@ =~= (match size {
        Some(n) => seq![config.counted_ttl_secs, config.hourly_ttl_secs, n],
        None => seq![config.counted_ttl_secs, config.hourly_ttl_secs],
    }));
    c
}

/// The call that counts a message sent by a client at the instant `now`.
pub fn client_message_sent_call(input: &RecordClientMessageSentInput, config: &ClientUsageEngineConfig, now: i64) -> (c: ScriptCall)
    ensures
        key_texts(c) == seq![
            words_id_key("counted"@, "client"@, input.message_id),
            client_hourly_key_text(input.application_id, input.client_id, now),
        ],
        c.args@ == seq![config.counted_ttl_secs, config.hourly_ttl_secs, input.content_size_bytes],
{
    client_call(input.message_id, input.application_id, input.client_id, config, Some(input.content_size_bytes), now)
}

/// The call that counts a message received by a client at the instant `now`.
pub fn client_message_received_call(
    input: &RecordClientMessageReceivedInput,
    config: &ClientUsageEngineConfig,
    now: i64,
) -> (c: ScriptCall)
    ensures
        key_texts(c) == seq![
            words_id_key("counted"@, "client"@, input.message_id),
            client_hourly_key_text(input.application_id, input.client_id, now),
        ],
        c.args@ == seq![config.counted_ttl_secs, config.hourly_ttl_secs, input.content_size_bytes],
{
    client_call(input.message_id, input.application_id, input.client_id, config, Some(input.content_size_bytes), now)
}

/// The call that counts a proof verified for a client at the instant `now`.
pub fn client_proof_verified_call(
    input: &RecordClientProofVerifiedInput,
    config: &ClientUsageEngineConfig,
    now: i64,
) -> (c: ScriptCall)
    ensures
        key_texts(c) == seq![
            words_id_key("counted"@, "client"@, input.proof_id),
            client_hourly_key_text(input.application_id, input.client_id, now),
        ],
        c.args@ == seq![config.counted_ttl_secs, config.hourly_ttl_secs],
{
    client_call(input.proof_id, input.application_id, input.client_id, config, None, now)
}

/// The call that counts a rate-limit hit of a client at the instant `now`.
pub fn client_rate_limit_hit_call(
    input: &RecordClientRateLimitHitInput,
    config: &ClientUsageEngineConfig,
    now: i64,
) -> (c: ScriptCall)
    ensures
        key_texts(c) == seq![
            words_id_key("counted"@, "client"@, input.request_id),
            client_hourly_key_text(input.application_id, input.client_id, now),
        ],
        c.args@ == seq![config.counted_ttl_secs, config.hourly_ttl_secs],
{
    client_call(input.request_id, input.application_id, input.client_id, config, None, now)
}

/// Whether a script's answer says the event was counted now: only the
/// answer `1` does.
pub fn was_counted(reply: i64) -> (counted: bool)
    ensures
        counted <==> reply == 1,
{
    reply == 1
}

// =============================================================================
// Several events at once
// =============================================================================

/// Which of the events handed over together were counted.
#[derive(Clone, Copy, Debug, PartialEq, Eq, Structural)]
pub struct MultiRecordResult {
    pub message_sent_counted: bool,
    pub message_received_counted: bool,
    pub proof_verified_counted: bool,
    pub any_counted: bool,
}

/// The summary of three events' outcomes, an event not handed over counting
/// as not counted.
pub fn multi_record_result(sent: Option<bool>, received: Option<bool>, proved: Option<bool>) -> (r: MultiRecordResult)
    ensures
        r.message_sent_counted == (sent == Some(true)),
        r.message_received_counted == (received == Some(true)),
        r.proof_verified_counted == (proved == Some(true)),
        r.any_counted == (r.message_sent_counted || r.message_received_counted || r.proof_verified_counted),
{
    let s = match sent {
        Some(b) => b,
        None => false,
    };
    let r = match received {
        Some(b) => b,
        None => false,
    };
    let p = match proved {
        Some(b) => b,
        None => false,
    };
    MultiRecordResult { message_sent_counted: s, message_received_counted: r, proof_verified_counted: p, any_counted: s || r || p }
}

} // verus!
