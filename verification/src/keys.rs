//! Cache key construction.
//!
//! Every key lives under the `vaultless` namespace: the namespace and the
//! key's parts joined with `:`, so that the parts `a`, `b` give the key
//! `vaultless:a:b`.
use vstd::prelude::*;
use crate::text::{chars_of, string_of, join_chars, join_text, views, append_chars};
use crate::ident::{uuid_text, uuid_string};

verus! {

/// The text of the key made of `parts`.
pub open spec fn key_text(parts: Seq<Seq<char>>) -> Seq<char> {
    join_text(seq!["vaultless"@].add(parts), ':')
}

/// The key made of the given parts.
pub fn cache_key(parts: Vec<Vec<char>>) -> (res: String)
    ensures
        res@ == key_text(views(parts@)),
{
    let mut all: Vec<Vec<char>> = Vec::new();
    all.push(chars_of("vaultless"));
    let mut i: usize = 0;
    while i < parts.len()
        invariant
            i <= parts.len(),
            views(all@) == seq!["vaultless"@].add(views(parts@).subrange(0, i as int)),
        decreases parts.len() - i,
    {
        let mut p: Vec<char> = Vec::new();
        append_chars(&mut p, &parts[i]);
        assert(p@ =~= parts@[i as int]@);
        let ghost before = all@;
        all.push(p);
        proof {
            assert(all@ =~= before.push(p));
            assert(views(all@) =~= views(before).push(p@));
            assert(views(parts@).subrange(0, i + 1) =~= views(parts@).subrange(0, i as int).push(
                parts@[i as int]@,
            ));
        }
        i = i + 1;
        assert(views(all@) =~= seq!["vaultless"@].add(views(parts@).subrange(0, i as int)));
    }
    assert(views(parts@).subrange(0, parts.len() as int) =~= views(parts@));
    let joined = join_chars(&all, ':');
    string_of(&joined)
}

/// The characters of an identifier's canonical text.
pub fn id_chars(id: u128) -> (res: Vec<char>)
    ensures
        res@ == uuid_text(id),
        crate::ident::uuid_parsed(res@) == Some(id),
{
    let s = uuid_string(id);
    chars_of(s.as_str())
}

/// The key `vaultless:<a>:<id>`.
pub open spec fn word_id_key(a: Seq<char>, id: u128) -> Seq<char> {
    key_text(seq![a, uuid_text(id)])
}

/// The key `vaultless:<a>:<b>:<id>`.
pub open spec fn words_id_key(a: Seq<char>, b: Seq<char>, id: u128) -> Seq<char> {
    key_text(seq![a, b, uuid_text(id)])
}

fn two_words_and_id(a: &str, b: &str, id: u128) -> (res: String)
    ensures
        res@ == words_id_key(a@, b@, id),
{
    let mut parts: Vec<Vec<char>> = Vec::new();
    parts.push(chars_of(a));
    parts.push(chars_of(b));
    parts.push(id_chars(id));
    assert(views(parts@) =~= seq![a@, b@, uuid_text(id)]);
    cache_key(parts)
}

/// Key of a cached instant message.
pub fn instant_message_key(msg_id: u128) -> (res: String)
    ensures
        res@ == words_id_key("instant_message"@, "message"@, msg_id),
{
    two_words_and_id("instant_message", "message", msg_id)
}

/// Key of a recipient's inbox list.
pub fn instant_inbox_key(client_id: u128) -> (res: String)
    ensures
        res@ == words_id_key("instant_message"@, "inbox"@, client_id),
{
    two_words_and_id("instant_message", "inbox", client_id)
}

/// Key of a read receipt waiting for its message to be persisted.
pub fn instant_pending_read_key(msg_id: u128) -> (res: String)
    ensures
        res@ == words_id_key("instant_message"@, "pending_read"@, msg_id),
{
    two_words_and_id("instant_message", "pending_read", msg_id)
}

/// Key of the lock held while an inbox is rebuilt.
pub fn instant_rebuild_lock_key(client_id: u128) -> (res: String)
    ensures
        res@ == words_id_key("instant_message"@, "rebuild_lock"@, client_id),
{
    two_words_and_id("instant_message", "rebuild_lock", client_id)
}

/// Key marking that a message's sending was counted.
pub fn instant_sent_counted_key(msg_id: u128) -> (res: String)
    ensures
        res@ == words_id_key("instant_message"@, "sent_counted"@, msg_id),
{
    two_words_and_id("instant_message", "sent_counted", msg_id)
}

/// Key marking that a message's delivery was counted.
pub fn instant_delivered_counted_key(msg_id: u128) -> (res: String)
    ensures
        res@ == words_id_key("instant_message"@, "delivered_counted"@, msg_id),
{
    two_words_and_id("instant_message", "delivered_counted", msg_id)
}

/// Key of a device's presence marker.
pub fn iot_presence_key(client_id: u128) -> (res: String)
    ensures
        res@ == words_id_key("iot"@, "presence"@, client_id),
{
    two_words_and_id("iot", "presence", client_id)
}

/// Key of a device's latest telemetry.
pub fn iot_telemetry_key(device_client_id: u128) -> (res: String)
    ensures
        res@ == words_id_key("iot"@, "telemetry"@, device_client_id),
{
    two_words_and_id("iot", "telemetry", device_client_id)
}

/// Key of a device's pending command.
pub fn iot_command_key(device_client_id: u128) -> (res: String)
    ensures
        res@ == words_id_key("iot"@, "command"@, device_client_id),
{
    two_words_and_id("iot", "command", device_client_id)
}

/// Key of the lock that keeps a command from being delivered twice.
pub fn iot_command_lock_key(device_client_id: u128) -> (res: String)
    ensures
        res@ == words_id_key("iot"@, "cmd_lock"@, device_client_id),
{
    two_words_and_id("iot", "cmd_lock", device_client_id)
}

/// Idempotency key of an application-level message count.
pub fn counted_key(message_id: u128) -> (res: String)
    ensures
        res@ == word_id_key("counted"@, message_id),
{
    let mut parts: Vec<Vec<char>> = Vec::new();
    parts.push(chars_of("counted"));
    parts.push(id_chars(message_id));
    assert(views(parts@) =~= seq!["counted"@, uuid_text(message_id)]);
    cache_key(parts)
}

/// Idempotency key of a client-level count.
pub fn client_counted_key(id: u128) -> (res: String)
    ensures
        res@ == words_id_key("counted"@, "client"@, id),
{
    two_words_and_id("counted", "client", id)
}

/// The set of active session keys: `session:active`, outside the
/// `vaultless` namespace.
pub fn active_sessions_set() -> (res: String)
    ensures
        res@ == "session:active"@,
{
    String::from_str("session:active")
}

/// Key of a client's cached subscription to an application.
pub fn client_subscription_cache_key(client_id: u128, application_id: u128) -> (res: String)
    ensures
        res@ == key_text(seq!["client_subscription"@, uuid_text(client_id), uuid_text(application_id)]),
{
    let mut parts: Vec<Vec<char>> = Vec::new();
    parts.push(chars_of("client_subscription"));
    parts.push(id_chars(client_id));
    parts.push(id_chars(application_id));
    assert(views(parts@) =~= seq!["client_subscription"@, uuid_text(client_id), uuid_text(application_id)]);
    cache_key(parts)
}

/// Key of a revoked session's marker.
pub fn revoked_session_key(jti: &str) -> (res: String)
    ensures
        res@ == key_text(seq!["revoked_session"@, jti@]),
{
    let mut parts: Vec<Vec<char>> = Vec::new();
    parts.push(chars_of("revoked_session"));
    parts.push(chars_of(jti));
    assert(views(parts@) =~= seq!["revoked_session"@, jti@]);
    cache_key(parts)
}

} // verus!
