//! Messages to and from IoT devices.
//!
//! A device's telemetry is kept only as its latest message, for a few
//! minutes; a command to a device is kept until fetched or a minute has
//! passed, and is only accepted while the device is online (it has sent a
//! heartbeat within the presence window).  Instants are microseconds.
use vstd::prelude::*;
use crate::message::model::{Message, MICROS_PER_SEC};
use crate::ident::{uuid_text, uuid_string};
use crate::error::VaultlessError;

verus! {

/// Seconds a device stays online after a heartbeat.
pub const IOT_PRESENCE_TTL_SECS: u64 = 30;
/// Seconds a device's telemetry is kept.
pub const IOT_TELEMETRY_TTL_SECS: u64 = 300;
/// Seconds a command waits to be fetched.
pub const IOT_COMMAND_TTL_SECS: u64 = 60;

/// The encrypted content of a device message.
#[derive(Debug)]
pub struct IotPayload {
    pub ciphertext: String,
    pub nonce: u128,
    pub content_size_bytes: i64,
    pub application_id: u128,
    pub envelope_public_key: String,
}

/// The fields every device message shares: created at `created_at`,
/// expiring `ttl_secs` later, never accessed or delivered, not signed and
/// not part of a group.
pub open spec fn device_message(
    m: Message,
    p: IotPayload,
    msg_id: u128,
    sender: u128,
    recipient: u128,
    content_type: Seq<char>,
    created_at: i64,
    ttl_secs: int,
) -> bool {
    &&& m.id == msg_id
    &&& m.ciphertext == p.ciphertext
    &&& m.nonce == p.nonce
    &&& m.content_type matches Some(t) && t@ == content_type
    &&& m.content_size_bytes == p.content_size_bytes
    &&& m.application_id == p.application_id
    &&& m.created_at == created_at
    &&& m.expires_at == created_at + ttl_secs * MICROS_PER_SEC
    &&& m.accessed_at is None
    &&& m.access_count == 0
    &&& !m.is_delivered
    &&& m.delivered_at is None
    &&& !m.require_proof_verification
    &&& m.sender_client_id == sender
    &&& m.recipient_client_id == recipient
    &&& m.group_id is None
    &&& !m.is_group_message
    &&& m.encryption_algorithm is None
    &&& m.algorithm_version is None
    &&& m.session_id is None
    &&& m.signature is None
    &&& m.envelope_public_key == p.envelope_public_key
    &&& m.file_id is None
}

/// The telemetry message of `device` for `recipient`, created at
/// `created_at`: kept for the telemetry window and readable any number of
/// times.
pub fn telemetry_message(device: u128, recipient: u128, payload: IotPayload, msg_id: u128, created_at: i64) -> (m: Message)
    requires
        created_at + IOT_TELEMETRY_TTL_SECS * MICROS_PER_SEC <= i64::MAX,
    ensures
        device_message(m, payload, msg_id, device, recipient, "application/iot-telemetry"@, created_at, IOT_TELEMETRY_TTL_SECS as int),
        m.max_access_count is None,
{
    Message {
        id: msg_id,
        ciphertext: payload.ciphertext,
        nonce: payload.nonce,
        content_type: Some(String::from_str("application/iot-telemetry")),
        content_size_bytes: payload.content_size_bytes,
        application_id: payload.application_id,
        created_at,
        expires_at: created_at + 300 * MICROS_PER_SEC,
        accessed_at: None,
        access_count: 0,
        is_delivered: false,
        delivered_at: None,
        max_access_count: None,
        require_proof_verification: false,
        sender_client_id: device,
        recipient_client_id: recipient,
        group_id: None,
        is_group_message: false,
        encryption_algorithm: None,
        algorithm_version: None,
        session_id: None,
        signature: None,
        envelope_public_key: payload.envelope_public_key,
        file_id: None,
    }
}

/// The command from `sender` to `device`, created at `created_at`: kept for
/// the command window and delivered once.
pub fn command_message(sender: u128, device: u128, payload: IotPayload, msg_id: u128, created_at: i64) -> (m: Message)
    requires
        created_at + IOT_COMMAND_TTL_SECS * MICROS_PER_SEC <= i64::MAX,
    ensures
        device_message(m, payload, msg_id, sender, device, "application/iot-command"@, created_at, IOT_COMMAND_TTL_SECS as int),
        m.max_access_count == Some(1i64),
{
    Message {
        id: msg_id,
        ciphertext: payload.ciphertext,
        nonce: payload.nonce,
        content_type: Some(String::from_str("application/iot-command")),
        content_size_bytes: payload.content_size_bytes,
        application_id: payload.application_id,
        created_at,
        expires_at: created_at + 60 * MICROS_PER_SEC,
        accessed_at: None,
        access_count: 0,
        is_delivered: false,
        delivered_at: None,
        max_access_count: Some(1),
        require_proof_verification: false,
        sender_client_id: sender,
        recipient_client_id: device,
        group_id: None,
        is_group_message: false,
        encryption_algorithm: None,
        algorithm_version: None,
        session_id: None,
        signature: None,
        envelope_public_key: payload.envelope_public_key,
        file_id: None,
    }
}

/// The refusal of a command to a device that is not online.
pub fn device_offline(device: u128) -> (e: VaultlessError)
    ensures
        e matches VaultlessError::DeviceOffline(t) && t@ == uuid_text(device),
{
    VaultlessError::DeviceOffline(uuid_string(device))
}

/// The outcome of a command: the script answers `1` when it stored the
/// command and `0` when the device had gone offline meanwhile.
pub fn command_outcome(device: u128, msg_id: u128, reply: i32) -> (r: Result<u128, VaultlessError>)
    ensures
        reply == 0 ==> (r matches Err(VaultlessError::DeviceOffline(t)) && t@ == uuid_text(device)),
        reply != 0 ==> r == Ok::<u128, VaultlessError>(msg_id),
{
    if reply == 0 {
        Err(device_offline(device))
    } else {
        Ok(msg_id)
    }
}

} // verus!
