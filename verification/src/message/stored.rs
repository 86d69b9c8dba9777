//! Stored end-to-end encrypted messages: creation rules, access rules and
//! pages.
//!
//! Instants are microseconds since 1970-01-01T00:00:00 UTC.
use vstd::prelude::*;
use vstd::utf8::encode_utf8;
use crate::error::VaultlessError;
use crate::ident::{uuid_text, uuid_string};
use crate::keys::id_chars;
use crate::text::{chars_of, string_of, append_chars};
use crate::clock::{utc_text, format_utc};
use crate::message::model::MICROS_PER_SEC;

verus! {

/// Content type of messages created without one.
pub const DEFAULT_CONTENT_TYPE: &'static str = "application/octet-stream";
/// Monthly quota of an API key that has none recorded.
pub const DEFAULT_QUOTA_LIMIT: i64 = 10000;

/// A stored message.
#[derive(Debug)]
pub struct Message {
    pub id: u128,
    pub ciphertext: String,
    pub nonce: String,
    pub content_type: String,
    pub content_size_bytes: i32,
    pub api_key_id: u128,
    pub created_at: i64,
    pub expires_at: i64,
    pub accessed_at: Option<i64>,
    pub access_count: i32,
    pub is_delivered: bool,
    pub delivered_at: Option<i64>,
    pub max_access_count: Option<i32>,
    pub require_proof_verification: bool,
    pub sender_client_id: Option<u128>,
    pub recipient_client_id: u128,
    pub group_id: Option<u128>,
    pub is_group_message: bool,
}

/// What a client sends to create a message.
#[derive(Debug)]
pub struct CreateMessage {
    pub recipient_client_id: u128,
    pub ciphertext: String,
    pub nonce: String,
    pub content_type: Option<String>,
    pub content_size_bytes: i32,
    pub api_key_id: u128,
    pub ttl_seconds: Option<i32>,
    pub max_access_count: Option<i32>,
    pub require_proof_verification: bool,
    pub sender_client_id: Option<u128>,
    pub group_id: Option<u128>,
    pub is_group_message: bool,
}

/// What may be shown of a message without its content.
#[derive(Debug)]
pub struct MessageMetadata {
    pub id: u128,
    pub content_type: String,
    pub content_size_bytes: i32,
    pub created_at: i64,
    pub expires_at: i64,
    pub access_count: i32,
    pub max_access_count: Option<i32>,
    pub require_proof_verification: bool,
}

/// One page of messages, newest first.
#[derive(Debug)]
pub struct PaginatedMessages {
    pub messages: Vec<Message>,
    pub next_cursor: Option<i64>,
    pub has_more: bool,
}

/// Which creation rule a request breaks first, if any: the ciphertext must
/// not be empty, the nonce must have 1 to 32 characters and the size must
/// be positive; then the size must equal the ciphertext's UTF-8 length,
/// and a time to live must not be negative.
pub open spec fn create_violation(input: CreateMessage) -> Option<Seq<char>> {
    if input.ciphertext@.len() < 1 {
        Some("ciphertext: length must be at least 1"@)
    } else if input.nonce@.len() < 1 || input.nonce@.len() > 32 {
        Some("nonce: length must be between 1 and 32"@)
    } else if input.content_size_bytes < 1 {
        Some("content_size_bytes: must be at least 1"@)
    } else if input.content_size_bytes as usize != encode_utf8(input.ciphertext@).len() as usize {
        Some("Size mismatch"@)
    } else if input.ttl_seconds matches Some(t) && t < 0 {
        Some("TTL must be non-negative"@)
    } else {
        None
    }
}

/// Checks a creation request.
pub fn validate_create(input: &CreateMessage) -> (r: Result<(), VaultlessError>)
    ensures
        match create_violation(*input) {
            None => r is Ok,
            Some(m) => r matches Err(VaultlessError::Validation(e)) && e@ == m,
        },
{
    let ct = input.ciphertext.as_str();
    let nl = input.nonce.as_str().unicode_len();
    if ct.unicode_len() < 1 {
        return Err(VaultlessError::Validation(String::from_str("ciphertext: length must be at least 1")));
    }
    if nl < 1 || nl > 32 {
        return Err(VaultlessError::Validation(String::from_str("nonce: length must be between 1 and 32")));
    }
    if input.content_size_bytes < 1 {
        return Err(VaultlessError::Validation(String::from_str("content_size_bytes: must be at least 1")));
    }
    if input.content_size_bytes as usize != ct.len() {
        return Err(VaultlessError::Validation(String::from_str("Size mismatch")));
    }
    match input.ttl_seconds {
        Some(t) => {
            if t < 0 {
                return Err(VaultlessError::Validation(String::from_str("TTL must be non-negative")));
            }
        },
        None => {},
    }
    Ok(())
}

/// Refuses when the month's count has reached the quota; an unknown limit
/// is `DEFAULT_QUOTA_LIMIT` and an unknown count zero.
pub fn check_quota(current: Option<i64>, limit: Option<i64>) -> (r: Result<(), VaultlessError>)
    ensures
        ({
            let c = match current { Some(x) => x, None => 0 };
            let l = match limit { Some(x) => x, None => DEFAULT_QUOTA_LIMIT };
            &&& c >= l ==> (r matches Err(VaultlessError::QuotaExceeded(m)) && m@ == "Monthly message quota exceeded"@)
            &&& c < l ==> r is Ok
        }),
{
    let c = match current { Some(x) => x, None => 0 };
    let l = match limit { Some(x) => x, None => DEFAULT_QUOTA_LIMIT };
    if c >= l {
        Err(VaultlessError::QuotaExceeded(String::from_str("Monthly message quota exceeded")))
    } else {
        Ok(())
    }
}

/// Seconds a new message lives: its own time to live, else the key's
/// retention (read as an `i32`, as the key's column is narrowed).
pub open spec fn ttl_for(ttl: Option<i32>, retention_seconds: i64) -> i32 {
    match ttl {
        Some(t) => t,
        None => retention_seconds as i32,
    }
}

/// When a message created at `now` expires.
pub fn expires_at_for(ttl: Option<i32>, retention_seconds: i64, now: i64) -> (t: i64)
    requires
        i64::MIN + 2_147_483_648 * 1_000_000 <= now <= i64::MAX - 2_147_483_647 * 1_000_000,
    ensures
        t == now + ttl_for(ttl, retention_seconds) * MICROS_PER_SEC,
{
    let secs: i32 = match ttl {
        Some(t) => t,
        None => retention_seconds as i32,
    };
    let d: i64 = (secs as i64) * MICROS_PER_SEC;
    now + d
}

/// The key of an API key's usage count for the month of `now_secs`, and the
/// key of its quota: `usage:<key>:<YYYY-MM>` and `quota:<key>`.
pub fn quota_keys(api_key_id: u128, now_secs: i64) -> (r: (String, String))
    ensures
        r.0@ == "usage:"@ + uuid_text(api_key_id) + ":"@ + utc_text(now_secs, "%Y-%m"@),
        r.1@ == "quota:"@ + uuid_text(api_key_id),
{
    let month = format_utc(now_secs, "%Y-%m");
    let mut u = chars_of("usage:");
    append_chars(&mut u, &id_chars(api_key_id));
    append_chars(&mut u, &chars_of(":"));
    append_chars(&mut u, &chars_of(month.as_str()));
    let mut q = chars_of("quota:");
    append_chars(&mut q, &id_chars(api_key_id));
    (string_of(&u), string_of(&q))
}

/// The content type stored for a request.
pub fn content_type_for(content_type: &Option<String>) -> (s: String)
    ensures
        s@ == (match content_type { Some(c) => c@, None => DEFAULT_CONTENT_TYPE@ }),
{
    match content_type {
        Some(c) => c.clone(),
        None => String::from_str(DEFAULT_CONTENT_TYPE),
    }
}

impl Message {
    /// Refuses access to an expired message (expiry before `now`) or to one
    /// whose access limit is reached.
    pub fn validate_access_at(&self, now: i64) -> (r: Result<(), VaultlessError>)
        ensures
            self.expires_at < now ==> r == Err::<(), VaultlessError>(VaultlessError::MessageExpired),
            self.expires_at >= now && (self.max_access_count matches Some(m) && self.access_count >= m)
                ==> r == Err::<(), VaultlessError>(VaultlessError::MessageAccessLimitReached),
            self.expires_at >= now && !(self.max_access_count matches Some(m) && self.access_count >= m) ==> r is Ok,
    {
        if self.expires_at < now {
            return Err(VaultlessError::MessageExpired);
        }
        match self.max_access_count {
            Some(m) => {
                if self.access_count >= m {
                    return Err(VaultlessError::MessageAccessLimitReached);
                }
            },
            None => {},
        }
        Ok(())
    }

    /// Accepts any non-empty proof.
    pub fn verify_proof(&self, provided_proof: &str) -> (r: Result<(), VaultlessError>)
        ensures
            provided_proof@.len() == 0 ==> (r matches Err(VaultlessError::InvalidProof(m)) && m@ == "Invalid proof"@),
            provided_proof@.len() > 0 ==> r is Ok,
    {
        if provided_proof.unicode_len() == 0 {
            return Err(VaultlessError::InvalidProof(String::from_str("Invalid proof")));
        }
        Ok(())
    }

    /// The message after one more access at `now`: counted, stamped, and
    /// delivered when the access limit is reached.
    pub fn record_access(self, now: i64) -> (m: Message)
        requires
            self.access_count < i32::MAX,
        ensures
            ({
                let reached = self.max_access_count matches Some(mx) && self.access_count + 1 >= mx;
                m == (Message {
                    access_count: (self.access_count + 1) as i32,
                    accessed_at: Some(now),
                    is_delivered: if reached { true } else { self.is_delivered },
                    delivered_at: if reached { Some(now) } else { self.delivered_at },
                    ..self
                })
            }),
    {
        let mut m = self;
        let reached = match m.max_access_count {
            Some(mx) => m.access_count + 1 >= mx,
            None => false,
        };
        m.access_count = m.access_count + 1;
        m.accessed_at = Some(now);
        if reached {
            m.is_delivered = true;
            m.delivered_at = Some(now);
        }
        m
    }

    /// The non-sensitive fields.
    pub fn metadata(&self) -> (md: MessageMetadata)
        ensures
            md.id == self.id,
            md.content_type == self.content_type,
            md.content_size_bytes == self.content_size_bytes,
            md.created_at == self.created_at,
            md.expires_at == self.expires_at,
            md.access_count == self.access_count,
            md.max_access_count == self.max_access_count,
            md.require_proof_verification == self.require_proof_verification,
    {
        MessageMetadata {
            id: self.id,
            content_type: self.content_type.clone(),
            content_size_bytes: self.content_size_bytes,
            created_at: self.created_at,
            expires_at: self.expires_at,
            access_count: self.access_count,
            max_access_count: self.max_access_count,
            require_proof_verification: self.require_proof_verification,
        }
    }
}

/// A requested page size brought into 1..=100.
pub open spec fn clamp_limit(limit: i64) -> i64 {
    if limit < 1 { 1 } else if limit > 100 { 100 } else { limit }
}

/// The page size used for a request.
pub fn page_size(limit: i64) -> (l: i64)
    ensures
        l == clamp_limit(limit),
{
    if limit < 1 { 1 } else if limit > 100 { 100 } else { limit }
}

/// A page from the messages read with page size `limit`: when the page is
/// full the next cursor is its last message's creation instant, and more
/// may follow.
pub fn page_of(messages: Vec<Message>, limit: i64) -> (p: PaginatedMessages)
    ensures
        p.messages == messages,
        p.next_cursor == (if messages@.len() == limit && messages@.len() > 0 { Some(messages@.last().created_at) } else { None::<i64> }),
        p.has_more == (p.next_cursor is Some),
{
    let next = if messages.len() > 0 && (messages.len() as u128) == (limit as u128) && limit >= 0 {
        Some(messages[messages.len() - 1].created_at)
    } else {
        None
    };
    let has_more = next.is_some();
    PaginatedMessages { messages, next_cursor: next, has_more }
}

} // verus!
