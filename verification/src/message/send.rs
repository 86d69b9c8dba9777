//! Sending an instant message: the message written, the keys the atomic
//! send script works on, and what the script's answer means.
use vstd::prelude::*;
use crate::message::model::{Message, DEFAULT_MESSAGE_EXPIRY_DAYS, MICROS_PER_SEC};
use crate::keys::{key_text, cache_key, id_chars};
use crate::ident::{uuid_text, uuid_string};
use crate::text::{chars_of, string_of, append_chars, parse_i64, i64_text, views};
use crate::clock::{utc_text, format_utc};
use crate::usage::counters::{minute_window, get_minute_window};
use crate::usage::client::{ClientMetricKey, MetricGranularity, client_key_text};
use crate::error::VaultlessError;

verus! {

/// Monthly message quota of an application.
pub const DEFAULT_MONTHLY_QUOTA: i64 = 100_000;
/// Monthly message quota of a client.
pub const DEFAULT_CLIENT_MONTHLY_QUOTA: i64 = 10_000;
/// Messages per minute an application may send.
pub const DEFAULT_APP_RATE_LIMIT: i64 = 1000;
/// Messages per minute a client may send.
pub const DEFAULT_CLIENT_RATE_LIMIT: i64 = 100;

/// The script's answer.
#[derive(Debug)]
pub struct SendMessageResult {
    pub status: String,
    pub counted: i64,
    pub remaining_quota: i64,
    pub error_details: Option<String>,
}

/// The value of an optional numeric answer field: its `i64` value, or zero
/// when it is absent or not a number.
pub open spec fn numeric_field(v: Seq<String>, i: int) -> i64 {
    if i < v.len() {
        match i64_text(v[i]@) {
            Some(x) => x,
            None => 0,
        }
    } else {
        0
    }
}

fn numeric_at(v: &Vec<String>, i: usize) -> (x: i64)
    ensures
        x == numeric_field(v@, i as int),
{
    if i < v.len() {
        match parse_i64(&chars_of(v[i].as_str())) {
            Some(x) => x,
            None => 0,
        }
    } else {
        0
    }
}

/// Reads the script's answer: status, whether the message was counted,
/// remaining quota and error details, in that order.
pub fn parse_send_result(values: &Vec<String>) -> (r: SendMessageResult)
    ensures
        r.status@ == (if values@.len() > 0 { values@[0]@ } else { "ERROR"@ }),
        r.counted == numeric_field(values@, 1),
        r.remaining_quota == numeric_field(values@, 2),
        match r.error_details {
            Some(d) => values@.len() > 3 && d == values@[3],
            None => values@.len() <= 3,
        },
{
    let status = if values.len() > 0 { values[0].clone() } else { String::from_str("ERROR") };
    let counted = numeric_at(values, 1);
    let remaining_quota = numeric_at(values, 2);
    let error_details = if values.len() > 3 { Some(values[3].clone()) } else { None };
    SendMessageResult { status, counted, remaining_quota, error_details }
}

/// What to do after a send the script accepted.
#[derive(Debug, Clone, Copy, PartialEq, Eq, Structural)]
pub enum SendDecision {
    /// Sent now: queue the message for persistence.
    Persist,
    /// Sent before: nothing more to do.
    AlreadySent,
}

/// The error text carried by a refusal: the script's details, or the
/// default text.
pub open spec fn details_or(d: Option<String>, default: Seq<char>) -> Seq<char> {
    match d {
        Some(s) => s@,
        None => default,
    }
}

fn details_or_exec(d: Option<String>, default: &str) -> (s: String)
    ensures
        s@ == details_or(d, default@),
{
    match d {
        Some(s) => s,
        None => String::from_str(default),
    }
}

/// Interprets the script's status.
pub fn interpret_send_status(result: SendMessageResult) -> (r: Result<SendDecision, VaultlessError>)
    ensures
        result.status@ == "OK"@ ==> r == Ok::<SendDecision, VaultlessError>(SendDecision::Persist),
        result.status@ == "DUPLICATE"@ ==> r == Ok::<SendDecision, VaultlessError>(SendDecision::AlreadySent),
        result.status@ == "QUOTA_EXCEEDED"@ ==> (r matches Err(VaultlessError::QuotaExceeded(m))
            && m@ == details_or(result.error_details, "Monthly quota limit reached"@)),
        result.status@ == "RATE_LIMIT_EXCEEDED"@ ==> (r matches Err(VaultlessError::RateLimitExceeded(m))
            && m@ == details_or(result.error_details, "Per-minute rate limit exceeded"@)),
        result.status@ == "ERROR"@ ==> (r matches Err(VaultlessError::Internal(m))
            && m@ == details_or(result.error_details, "Redis operation failed"@)),
        (result.status@ != "OK"@ && result.status@ != "DUPLICATE"@ && result.status@ != "QUOTA_EXCEEDED"@
            && result.status@ != "RATE_LIMIT_EXCEEDED"@ && result.status@ != "ERROR"@)
            ==> (r matches Err(VaultlessError::Internal(m)) && m@ == "Unknown send status: "@ + result.status@),
{
    proof {
        reveal_strlit("OK");
        reveal_strlit("DUPLICATE");
        reveal_strlit("QUOTA_EXCEEDED");
        reveal_strlit("RATE_LIMIT_EXCEEDED");
        reveal_strlit("ERROR");
        assert("OK"@.len() == 2);
        assert("DUPLICATE"@.len() == 9);
        assert("QUOTA_EXCEEDED"@.len() == 14);
        assert("RATE_LIMIT_EXCEEDED"@.len() == 19);
        assert("ERROR"@.len() == 5);
        assert("QUOTA_EXCEEDED"@ != "ERROR"@);
        assert("RATE_LIMIT_EXCEEDED"@ != "ERROR"@);
    }
    let st = chars_of(result.status.as_str());
    if crate::text::chars_eq(&st, &chars_of("OK")) {
        Ok(SendDecision::Persist)
    } else if crate::text::chars_eq(&st, &chars_of("DUPLICATE")) {
        Ok(SendDecision::AlreadySent)
    } else if crate::text::chars_eq(&st, &chars_of("QUOTA_EXCEEDED")) {
        Err(VaultlessError::QuotaExceeded(details_or_exec(result.error_details, "Monthly quota limit reached")))
    } else if crate::text::chars_eq(&st, &chars_of("RATE_LIMIT_EXCEEDED")) {
        Err(VaultlessError::RateLimitExceeded(details_or_exec(result.error_details, "Per-minute rate limit exceeded")))
    } else if crate::text::chars_eq(&st, &chars_of("ERROR")) {
        Err(VaultlessError::Internal(details_or_exec(result.error_details, "Redis operation failed")))
    } else {
        let mut m = chars_of("Unknown send status: ");
        append_chars(&mut m, &st);
        Err(VaultlessError::Internal(string_of(&m)))
    }
}

/// The refusal of a message whose envelope signature does not verify.
pub fn signature_failure(msg_id: u128) -> (e: VaultlessError)
    ensures
        e matches VaultlessError::SignatureVerificationFailed(m)
            && m@ == "Message "@ + uuid_text(msg_id) + " failed signature verification"@,
{
    let mut m = chars_of("Message ");
    append_chars(&mut m, &id_chars(msg_id));
    append_chars(&mut m, &chars_of(" failed signature verification"));
    VaultlessError::SignatureVerificationFailed(string_of(&m))
}

/// What a sender supplies for a message.
#[derive(Debug)]
pub struct OutgoingMessage {
    pub sender_client_id: u128,
    pub recipient_client_id: u128,
    pub ciphertext: String,
    pub nonce: u128,
    pub content_size_bytes: i64,
    pub application_id: u128,
    pub session_id: String,
    pub signature: Option<String>,
    pub envelope_public_key: String,
    pub require_proof_verification: bool,
    pub encryption_algorithm: Option<String>,
    pub algorithm_version: Option<i16>,
}

/// Microseconds in the default lifetime of a message.
pub open spec fn expiry_micros() -> int {
    DEFAULT_MESSAGE_EXPIRY_DAYS * 86400 * MICROS_PER_SEC
}

/// The message to send: fresh, undelivered, never accessed, expiring seven
/// days after it is created.
pub fn outgoing_message(input: OutgoingMessage, msg_id: u128, created_at: i64) -> (m: Message)
    requires
        created_at + expiry_micros() <= i64::MAX,
    ensures
        m.id == msg_id,
        m.ciphertext == input.ciphertext,
        m.nonce == input.nonce,
        m.content_type is None,
        m.content_size_bytes == input.content_size_bytes,
        m.application_id == input.application_id,
        m.created_at == created_at,
        m.expires_at == created_at + expiry_micros(),
        m.accessed_at is None,
        m.access_count == 0,
        !m.is_delivered,
        m.delivered_at is None,
        m.max_access_count is None,
        m.require_proof_verification == input.require_proof_verification,
        m.sender_client_id == input.sender_client_id,
        m.recipient_client_id == input.recipient_client_id,
        m.group_id is None,
        !m.is_group_message,
        m.encryption_algorithm == input.encryption_algorithm,
        m.algorithm_version == input.algorithm_version,
        m.session_id == Some(input.session_id),
        m.signature == input.signature,
        m.envelope_public_key == input.envelope_public_key,
        m.file_id is None,
{
    Message {
        id: msg_id,
        ciphertext: input.ciphertext,
        nonce: input.nonce,
        content_type: None,
        content_size_bytes: input.content_size_bytes,
        application_id: input.application_id,
        created_at,
        expires_at: created_at + DEFAULT_MESSAGE_EXPIRY_DAYS * 86400 * MICROS_PER_SEC,
        accessed_at: None,
        access_count: 0,
        is_delivered: false,
        delivered_at: None,
        max_access_count: None,
        require_proof_verification: input.require_proof_verification,
        sender_client_id: input.sender_client_id,
        recipient_client_id: input.recipient_client_id,
        group_id: None,
        is_group_message: false,
        encryption_algorithm: input.encryption_algorithm,
        algorithm_version: input.algorithm_version,
        session_id: Some(input.session_id),
        signature: input.signature,
        envelope_public_key: input.envelope_public_key,
        file_id: None,
    }
}

/// The eleven keys of the send script, in the order it takes them, for a
/// message sent at `now` (seconds): the application's monthly quota, the
/// application's and the sender's per-minute counters, the session's sent,
/// bytes-sent and proved counters, the message's idempotency marker, the
/// pending-message stream, the sender's monthly quota, the sender's hourly
/// counters and the set of active client counters.
pub open spec fn send_keys_spec(application_id: u128, sender_client_id: u128, msg_id: u128, session_id: Seq<char>, now: i64) -> Seq<Seq<char>> {
    let stamp = utc_text(minute_window(now), "%Y_%m_%d_%H_%M"@);
    seq![
        key_text(seq!["quota"@, "app"@, uuid_text(application_id), "monthly"@]),
        key_text(seq!["metric"@, "app"@, uuid_text(application_id), "minute"@, stamp]),
        key_text(seq!["metric"@, "client"@, uuid_text(sender_client_id), "minute"@, stamp]),
        key_text(seq!["metric"@, "session"@, session_id, "sent"@]),
        key_text(seq!["metric"@, "session"@, session_id, "bytes_sent"@]),
        key_text(seq!["metric"@, "session"@, session_id, "proved"@]),
        key_text(seq!["counted"@, "msg"@, uuid_text(msg_id)]),
        key_text(seq!["stream"@, "instant_message"@, "pending"@]),
        key_text(seq!["quota"@, "client"@, uuid_text(sender_client_id), "monthly"@]),
        client_key_text(application_id, sender_client_id, now, MetricGranularity::Hour),
        key_text(seq!["metric"@, "client"@, "active_keys"@]),
    ]
}

fn key4(a: &str, b: &str, c: Vec<char>, d: &str) -> (s: String)
    ensures
        s@ == key_text(seq![a@, b@, c@, d@]),
{
    let mut parts: Vec<Vec<char>> = Vec::new();
    let ghost cv = c@;
    parts.push(chars_of(a));
    parts.push(chars_of(b));
    parts.push(c);
    parts.push(chars_of(d));
    assert(views(parts@) =~= seq![a@, b@, cv, d@]);
    cache_key(parts)
}

fn key5(a: &str, b: &str, c: Vec<char>, d: &str, e: Vec<char>) -> (s: String)
    ensures
        s@ == key_text(seq![a@, b@, c@, d@, e@]),
{
    let mut parts: Vec<Vec<char>> = Vec::new();
    let ghost cv = c@;
    let ghost ev = e@;
    parts.push(chars_of(a));
    parts.push(chars_of(b));
    parts.push(c);
    parts.push(chars_of(d));
    parts.push(e);
    assert(views(parts@) =~= seq![a@, b@, cv, d@, ev]);
    cache_key(parts)
}

fn key3(a: &str, b: &str, c: Vec<char>) -> (s: String)
    ensures
        s@ == key_text(seq![a@, b@, c@]),
{
    let mut parts: Vec<Vec<char>> = Vec::new();
    let ghost cv = c@;
    parts.push(chars_of(a));
    parts.push(chars_of(b));
    parts.push(c);
    assert(views(parts@) =~= seq![a@, b@, cv]);
    cache_key(parts)
}

/// The keys of the send script.
pub fn send_script_keys(application_id: u128, sender_client_id: u128, msg_id: u128, session_id: &str, now: i64) -> (keys: Vec<String>)
    ensures
        keys@.map_values(|k: String| k@) == send_keys_spec(application_id, sender_client_id, msg_id, session_id@, now),
{
    let window = get_minute_window(now);
    let stamp_s = format_utc(window, "%Y_%m_%d_%H_%M");
    let stamp = chars_of(stamp_s.as_str());
    let mut keys: Vec<String> = Vec::new();
    keys.push(key4("quota", "app", id_chars(application_id), "monthly"));
    keys.push(key5("metric", "app", id_chars(application_id), "minute", chars_of(stamp_s.as_str())));
    keys.push(key5("metric", "client", id_chars(sender_client_id), "minute", stamp));
    keys.push(key4("metric", "session", chars_of(session_id), "sent"));
    keys.push(key4("metric", "session", chars_of(session_id), "bytes_sent"));
    keys.push(key4("metric", "session", chars_of(session_id), "proved"));
    keys.push(key3("counted", "msg", id_chars(msg_id)));
    keys.push(key3("stream", "instant_message", chars_of("pending")));
    keys.push(key4("quota", "client", id_chars(sender_client_id), "monthly"));
    let ck = ClientMetricKey::new(application_id, sender_client_id, now, MetricGranularity::Hour);
    let client_key = match ck {
        Ok(k) => k.0,
        Err(_) => String::new(),
    };
    keys.push(client_key);
    keys.push(key3("metric", "client", chars_of("active_keys")));
    assert(keys@.map_values(|k: String| k@) =~= send_keys_spec(application_id, sender_client_id, msg_id, session_id@, now));
    keys
}

} // verus!
