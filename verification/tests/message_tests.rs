use vaultless_core::error::VaultlessError;
use vaultless_core::message::delivery::{
    delivery_outcome, envelope_check_soft, envelope_check_static, mark_delivered, message_ids,
    partition_cache_results, split_delete_tasks, DeliveryOutcome, EnvelopeCheck,
};
use vaultless_core::message::inbox::{group_by_sender, missing_ids, sender_fetch_limit, sender_page};
use vaultless_core::message::iot::{command_message, command_outcome, telemetry_message, IotPayload};
use vaultless_core::message::model::{DeleteTask, DlqReason, Message, MetricsSnapshot};
use vaultless_core::message::retry::{backoff_with_jitter, retry_delay_ms, MAX_RETRIES};
use vaultless_core::message::upkeep::{
    batch_due, dlq_cache_key, metrics_alerts, purge_key_chunks, rebuild_after_page, rebuild_gate, rebuild_start,
    BatchEvent, MetricsAlerts, RebuildGate, RebuildProgress, RebuildStep,
};
use vaultless_core::message::send::{
    interpret_send_status, outgoing_message, parse_send_result, send_script_keys, signature_failure, OutgoingMessage,
    SendDecision, SendMessageResult,
};
use vaultless_core::message::stored::{
    check_quota, content_type_for, expires_at_for, page_size, quota_keys, validate_create, CreateMessage,
};

const APP: u128 = 0x0123_4567_89ab_4def_8123_456789abcdef;
const APP_TEXT: &str = "01234567-89ab-4def-8123-456789abcdef";
const SENDER: u128 = 0xfedc_ba98_7654_4321_8fed_cba987654321;
const SENDER_TEXT: &str = "fedcba98-7654-4321-8fed-cba987654321";
/// 2023-11-14T22:13:20Z, in microseconds.
const NOW: i64 = 1_700_000_000_000_000;

fn message(id: u128, sender_key: &str, created_at: i64) -> Message {
    Message {
        id,
        ciphertext: "c".to_string(),
        nonce: 1,
        content_type: None,
        content_size_bytes: 1,
        application_id: APP,
        created_at,
        expires_at: created_at + 1,
        accessed_at: None,
        access_count: 0,
        is_delivered: false,
        delivered_at: None,
        max_access_count: None,
        require_proof_verification: false,
        sender_client_id: SENDER,
        recipient_client_id: 2,
        group_id: None,
        is_group_message: false,
        encryption_algorithm: None,
        algorithm_version: None,
        session_id: None,
        signature: None,
        envelope_public_key: sender_key.to_string(),
        file_id: None,
    }
}

fn result(status: &str, details: Option<&str>) -> SendMessageResult {
    SendMessageResult {
        status: status.to_string(),
        counted: 1,
        remaining_quota: 5,
        error_details: details.map(|d| d.to_string()),
    }
}

#[test]
fn send_script_answer_is_read_in_order() {
    let r = parse_send_result(&vec!["OK".to_string(), "1".to_string(), "x".to_string()]);
    assert_eq!((r.status.as_str(), r.counted, r.remaining_quota, r.error_details), ("OK", 1, 0, None));
    let e = parse_send_result(&vec![]);
    assert_eq!(e.status, "ERROR");
    let d = parse_send_result(&vec!["ERROR".into(), "0".into(), "-3".into(), "boom".into()]);
    assert_eq!((d.remaining_quota, d.error_details), (-3, Some("boom".to_string())));
}

#[test]
fn send_statuses() {
    assert_eq!(interpret_send_status(result("OK", None)).unwrap(), SendDecision::Persist);
    assert_eq!(interpret_send_status(result("DUPLICATE", None)).unwrap(), SendDecision::AlreadySent);
    assert_eq!(
        interpret_send_status(result("QUOTA_EXCEEDED", None)).unwrap_err(),
        VaultlessError::QuotaExceeded("Monthly quota limit reached".to_string())
    );
    assert_eq!(
        interpret_send_status(result("RATE_LIMIT_EXCEEDED", Some("slow down"))).unwrap_err(),
        VaultlessError::RateLimitExceeded("slow down".to_string())
    );
    assert_eq!(
        interpret_send_status(result("ERROR", None)).unwrap_err(),
        VaultlessError::Internal("Redis operation failed".to_string())
    );
    assert_eq!(
        interpret_send_status(result("WHAT", None)).unwrap_err(),
        VaultlessError::Internal("Unknown send status: WHAT".to_string())
    );
    assert_eq!(
        signature_failure(APP),
        VaultlessError::SignatureVerificationFailed(format!("Message {APP_TEXT} failed signature verification"))
    );
}

#[test]
fn outgoing_message_expires_in_seven_days() {
    let input = OutgoingMessage {
        sender_client_id: SENDER,
        recipient_client_id: 9,
        ciphertext: "abc".to_string(),
        nonce: 3,
        content_size_bytes: 3,
        application_id: APP,
        session_id: "sess".to_string(),
        signature: None,
        envelope_public_key: "pk".to_string(),
        require_proof_verification: true,
        encryption_algorithm: None,
        algorithm_version: Some(2),
    };
    let m = outgoing_message(input, 42, NOW);
    assert_eq!(m.id, 42);
    assert_eq!(m.expires_at, NOW + 7 * 86_400 * 1_000_000);
    assert_eq!(m.session_id, Some("sess".to_string()));
    assert!(!m.is_delivered && m.require_proof_verification);
}

#[test]
fn send_script_keys_in_order() {
    let keys = send_script_keys(APP, SENDER, 7, "s1", NOW / 1_000_000);
    assert_eq!(keys.len(), 11);
    assert_eq!(keys[0], format!("vaultless:quota:app:{APP_TEXT}:monthly"));
    assert_eq!(keys[1], format!("vaultless:metric:app:{APP_TEXT}:minute:2023_11_14_22_13"));
    assert_eq!(keys[3], "vaultless:metric:session:s1:sent");
    assert_eq!(keys[8], format!("vaultless:quota:client:{SENDER_TEXT}:monthly"));
    assert_eq!(keys[10], "vaultless:metric:client:active_keys");
}

#[test]
fn cache_results_split_into_hits_and_misses() {
    let (hits, misses) = partition_cache_results(vec![Some("a".to_string()), None, Some("c".to_string())], vec![1, 2, 3]);
    assert_eq!(hits, vec![("a".to_string(), 1), ("c".to_string(), 3)]);
    assert_eq!(misses, vec![2]);
}

#[test]
fn delivery_decisions() {
    assert_eq!(delivery_outcome(true, false, Some(true), true), DeliveryOutcome::DiscardInvalid);
    assert_eq!(delivery_outcome(false, false, Some(true), true), DeliveryOutcome::Hold);
    assert_eq!(delivery_outcome(true, true, None, true), DeliveryOutcome::Hold);
    assert_eq!(delivery_outcome(true, true, Some(true), false), DeliveryOutcome::Hold);
    assert_eq!(delivery_outcome(true, true, Some(true), true), DeliveryOutcome::Deliver);
    assert_eq!(delivery_outcome(true, true, Some(false), false), DeliveryOutcome::Deliver);
    let m = mark_delivered(message(5, "k", NOW), NOW + 1);
    assert!(m.is_delivered);
    assert_eq!(m.delivered_at, Some(NOW + 1));
    assert_eq!(message_ids(&vec![message(5, "k", 0), message(6, "k", 0)]), vec![5, 6]);
}

#[test]
fn envelope_checks() {
    let mut m = message(1, "k", 0);
    assert_eq!(envelope_check_soft(&m), EnvelopeCheck::Accept);
    assert_eq!(envelope_check_static(&m), EnvelopeCheck::Reject);
    m.require_proof_verification = true;
    assert_eq!(envelope_check_soft(&m), EnvelopeCheck::Reject);
    m.signature = Some(String::new());
    assert_eq!(envelope_check_static(&m), EnvelopeCheck::Accept);
    m.signature = Some("sig".to_string());
    assert_eq!(envelope_check_soft(&m), EnvelopeCheck::Verify);
    assert_eq!(envelope_check_static(&m), EnvelopeCheck::Verify);
}

#[test]
fn delete_tasks_split_by_kind() {
    let tasks = vec![
        DeleteTask { msg_id: 1, is_group_message: false },
        DeleteTask { msg_id: 2, is_group_message: true },
        DeleteTask { msg_id: 3, is_group_message: false },
    ];
    assert_eq!(split_delete_tasks(&tasks), (vec![1, 3], vec![2]));
}

#[test]
fn inbox_grouping_and_pages() {
    let ms = vec![message(1, "alice", 10), message(2, "bob", 30), message(3, "alice", 20)];
    let g = group_by_sender(ms);
    assert_eq!((g.total_messages, g.sender_count), (3, 2));
    assert_eq!(g.entries[0].sender_pubkey, "bob");
    assert_eq!(g.entries[1].last_message.id, 3);
    assert_eq!(g.entries[1].message_count, 2);
    assert_eq!(missing_ids(&vec![1, 2, 3, 4], &vec![1]), vec![2, 3, 4]);
    assert_eq!(missing_ids(&vec![1, 2], &vec![2]), vec![1]);
    assert_eq!(missing_ids(&vec![1], &vec![1, 5]), Vec::<u128>::new());
    assert_eq!(sender_fetch_limit(10, 500), 111);
    let page = sender_page(vec![message(1, "a", 10), message(2, "a", 30)], vec![message(2, "a", 30), message(3, "a", 20)], "a", 1, 1);
    assert_eq!(page.total, 3);
    assert_eq!(page.messages.len(), 1);
    assert_eq!(page.messages[0].id, 3);
    assert!(page.has_more);
}

#[test]
fn stored_message_rules() {
    let ok = CreateMessage {
        recipient_client_id: 1,
        ciphertext: "héllo".to_string(),
        nonce: "n".to_string(),
        content_type: None,
        content_size_bytes: 6,
        api_key_id: APP,
        ttl_seconds: Some(5),
        max_access_count: None,
        require_proof_verification: false,
        sender_client_id: None,
        group_id: None,
        is_group_message: false,
    };
    assert!(validate_create(&ok).is_ok());
    let bad = CreateMessage { content_size_bytes: 5, ..ok };
    assert_eq!(validate_create(&bad).unwrap_err(), VaultlessError::Validation("Size mismatch".to_string()));
    assert_eq!(
        check_quota(Some(10_000), None).unwrap_err(),
        VaultlessError::QuotaExceeded("Monthly message quota exceeded".to_string())
    );
    assert!(check_quota(Some(9), Some(10)).is_ok());
    assert_eq!(expires_at_for(None, 60, NOW), NOW + 60_000_000);
    assert_eq!(expires_at_for(Some(1), 60, NOW), NOW + 1_000_000);
    let (usage, quota) = quota_keys(APP, NOW / 1_000_000);
    assert_eq!(usage, format!("usage:{APP_TEXT}:2023-11"));
    assert_eq!(quota, format!("quota:{APP_TEXT}"));
    assert_eq!(content_type_for(&None), "application/octet-stream");
    assert_eq!(page_size(0), 1);
    assert_eq!(page_size(1000), 100);
}

#[test]
fn iot_messages() {
    let payload = || IotPayload {
        ciphertext: "t".to_string(),
        nonce: 1,
        content_size_bytes: 1,
        application_id: APP,
        envelope_public_key: "pk".to_string(),
    };
    let t = telemetry_message(5, 6, payload(), 7, NOW);
    assert_eq!(t.content_type, Some("application/iot-telemetry".to_string()));
    assert_eq!(t.expires_at, NOW + 300_000_000);
    assert_eq!(t.max_access_count, None);
    let c = command_message(6, 5, payload(), 8, NOW);
    assert_eq!(c.expires_at, NOW + 60_000_000);
    assert_eq!(c.max_access_count, Some(1));
    assert_eq!(c.recipient_client_id, 5);
    assert_eq!(command_outcome(APP, 8, 1).unwrap(), 8);
    assert_eq!(command_outcome(APP, 8, 0).unwrap_err(), VaultlessError::DeviceOffline(APP_TEXT.to_string()));
}

#[test]
fn retries_back_off_with_jitter() {
    assert_eq!(backoff_with_jitter(0, 0), Some(50));
    assert_eq!(backoff_with_jitter(0, 24), Some(74));
    assert_eq!(backoff_with_jitter(1, 10), Some(110));
    assert_eq!(backoff_with_jitter(MAX_RETRIES - 1, 0), None);
    assert_eq!(backoff_with_jitter(u32::MAX, 7), None);
    for _ in 0..20 {
        let d0 = retry_delay_ms(0).unwrap();
        assert!((50..75).contains(&d0));
        let d1 = retry_delay_ms(1).unwrap();
        assert!((100..150).contains(&d1));
    }
    assert_eq!(retry_delay_ms(2), None);
}

#[test]
fn inbox_rebuild_pages() {
    assert_eq!(rebuild_gate(false, 0), RebuildGate::Busy);
    assert_eq!(rebuild_gate(true, 3), RebuildGate::Populated);
    assert_eq!(rebuild_gate(true, 0), RebuildGate::Rebuild);

    let p = rebuild_start();
    assert_eq!(rebuild_after_page(p, 0), (p, RebuildStep::Finish { push: false, set_ttl: false }));
    let (p1, s1) = rebuild_after_page(p, 1000);
    assert_eq!(s1, RebuildStep::PushAndFetch { offset: 1000 });
    assert_eq!(p1, RebuildProgress { offset: 1000, total_added: 1000 });
    let (p2, s2) = rebuild_after_page(p1, 10);
    assert_eq!(s2, RebuildStep::Finish { push: true, set_ttl: true });
    assert_eq!(p2.total_added, 1010);
    assert_eq!(rebuild_after_page(p1, 0).1, RebuildStep::Finish { push: false, set_ttl: true });
    // Ten full pages reach the cap.
    let mut q = rebuild_start();
    let mut pages = 0;
    loop {
        let (next, step) = rebuild_after_page(q, 1000);
        pages += 1;
        q = next;
        if let RebuildStep::Finish { .. } = step {
            break;
        }
    }
    assert_eq!(pages, 10);
    assert_eq!(q.total_added, 10_000);
}

#[test]
fn purge_keys_come_in_pipelines() {
    assert!(purge_key_chunks(&vec![]).is_empty());
    let ids: Vec<u128> = (1..=1001u128).collect();
    let chunks = purge_key_chunks(&ids);
    assert_eq!(chunks.len(), 3);
    assert_eq!(chunks[0].len(), 500);
    assert_eq!(chunks[1].len(), 500);
    assert_eq!(chunks[2].len(), 1);
    assert_eq!(chunks[0][0], "vaultless:instant_message:message:00000000-0000-0000-0000-000000000001");
    assert_eq!(chunks[2][0], "vaultless:instant_message:message:00000000-0000-0000-0000-0000000003e9");
}

#[test]
fn background_writers_and_reports() {
    assert!(!batch_due(BatchEvent::Tick, 0, 2000));
    assert!(batch_due(BatchEvent::Tick, 1, 2000));
    assert!(!batch_due(BatchEvent::Received, 1999, 2000));
    assert!(batch_due(BatchEvent::Received, 2000, 2000));
    assert!(batch_due(BatchEvent::Closed, 3, 2000));
    assert!(!batch_due(BatchEvent::Closed, 0, 2000));
    let quiet = MetricsSnapshot {
        failed_verifications: 9,
        failed_metrics_increments: 100,
        emergency_writes: 0,
        dlq_entries: 0,
        db_pool_dropped_deletes: 0,
    };
    assert_eq!(metrics_alerts(quiet), MetricsAlerts { db_pool_dropped: false, metrics_failing: false });
    let loud = MetricsSnapshot { failed_metrics_increments: 101, db_pool_dropped_deletes: 1, ..quiet };
    assert_eq!(metrics_alerts(loud), MetricsAlerts { db_pool_dropped: true, metrics_failing: true });
    assert_eq!(DlqReason::DatabaseWriteFailed.name(), "DatabaseWriteFailed");
    assert_eq!(DlqReason::MaxRetriesExceeded.name(), "MaxRetriesExceeded");
    assert_eq!(dlq_cache_key(APP), format!("dlq:message:{APP_TEXT}"));
}
