use vaultless_core::error::VaultlessError;
use vaultless_core::keys::instant_sent_counted_key;
use vaultless_core::message::model::{health_status, ChannelLoad, SystemMetrics};
use vaultless_core::message::stored::{page_of, Message as StoredMessage};
use vaultless_core::notification::{
    default_page, default_page_size, default_severity, quota_notice_pending, validate_notification,
    CreateNotification, NotificationEventTracker, NotificationSeverity, NotificationType,
};
use vaultless_core::pricing::{
    default_plan, split_plan_rows, AppPlanRow, ApplicationPricingPlan, ClientSubscription, ClientSubscriptionCacheEntry, PricingMode,
    PricingPlan, PricingSnapshot, SubscriptionStatus,
};
use vaultless_core::session::health::PubSubHealth;
use vaultless_core::usage::config::ClientUsageEngineConfig;
use vaultless_core::usage::engine::{
    client_message_received_call, client_rate_limit_hit_call, RecordClientMessageReceivedInput,
    RecordClientRateLimitHitInput,
};

const ID: u128 = 0x0123_4567_89ab_4def_8123_456789abcdef;
const ID_TEXT: &str = "01234567-89ab-4def-8123-456789abcdef";
const OTHER: u128 = 0xfedc_ba98_7654_4321_8fed_cba987654321;
const OTHER_TEXT: &str = "fedcba98-7654-4321-8fed-cba987654321";
/// 2023-11-14T22:13:20Z, in microseconds.
const NOW: i64 = 1_700_000_000_000_000;

fn stored(access_count: i32, max_access_count: Option<i32>, expires_at: i64) -> StoredMessage {
    StoredMessage {
        id: ID,
        ciphertext: "c".to_string(),
        nonce: "n".to_string(),
        content_type: "text/plain".to_string(),
        content_size_bytes: 1,
        api_key_id: OTHER,
        created_at: NOW - 10,
        expires_at,
        accessed_at: None,
        access_count,
        is_delivered: false,
        delivered_at: None,
        max_access_count,
        require_proof_verification: false,
        sender_client_id: None,
        recipient_client_id: OTHER,
        group_id: None,
        is_group_message: false,
    }
}

fn notification(title: &str, message: &str, action_url: Option<&str>) -> CreateNotification {
    CreateNotification {
        user_id: ID,
        title: title.to_string(),
        message: message.to_string(),
        notification_type: NotificationType::SystemUpdate,
        severity: default_severity(),
        action_url: action_url.map(|s| s.to_string()),
        metadata: None,
        expires_at: None,
    }
}

#[test]
fn notification_defaults_and_rules() {
    assert_eq!(default_severity(), NotificationSeverity::Info);
    assert_eq!(default_page(), 1);
    assert_eq!(default_page_size(), 20);
    assert!(validate_notification(&notification("t", "m", Some("/x"))).is_ok());
    assert_eq!(
        validate_notification(&notification("", "m", None)).unwrap_err(),
        VaultlessError::Validation("title: length must be between 1 and 255".to_string())
    );
    assert_eq!(
        validate_notification(&notification("t", &"m".repeat(5001), None)).unwrap_err(),
        VaultlessError::Validation("message: length must be between 1 and 5000".to_string())
    );
    assert_eq!(
        validate_notification(&notification("t", "m", Some(&"u".repeat(501)))).unwrap_err(),
        VaultlessError::Validation("action_url: length must be at most 500".to_string())
    );
    assert!(validate_notification(&notification(&"é".repeat(255), "m", None)).is_ok());
    let k = NotificationEventTracker::quota_exceeded_key(ID, "20231114");
    assert_eq!(k, format!("vaultless:notify:quota_exceeded:{ID_TEXT}:20231114"));
    assert_eq!(NotificationEventTracker::api_key_of(&k), Some(ID));
    assert!(quota_notice_pending(&Some("1".to_string())));
    assert!(!quota_notice_pending(&Some("sent".to_string())));
    assert!(!quota_notice_pending(&None));
}

fn snapshot() -> PricingSnapshot {
    PricingSnapshot {
        id: 1,
        plan_id: 2,
        plan_name: "basic".to_string(),
        pricing_mode: PricingMode::Postpaid,
        price_per_message_cents: Some(2),
        price_per_gb_cents: None,
        price_per_proof_cents: None,
        prepaid_amount_cents: None,
        platform_fee_percent: None,
        currency: Some("USD".to_string()),
    }
}

#[test]
fn subscriptions_and_plans() {
    let plan = PricingPlan {
        id: 9,
        developer_id: 8,
        name: "p".to_string(),
        pricing_mode: PricingMode::Prepaid,
        price_per_message_cents: Some(1),
        price_per_gb_cents: Some(2),
        price_per_proof_cents: None,
        prepaid_amount_cents: Some(500),
        created_at: 0,
    };
    let s1 = plan.to_snapshot();
    let s2 = plan.to_snapshot();
    assert_eq!((s1.plan_id, s1.plan_name.as_str(), s1.currency.as_deref()), (9, "p", Some("USD")));
    assert_eq!((s1.price_per_gb_cents, s1.prepaid_amount_cents, s1.platform_fee_percent), (Some(2), Some(500), None));
    assert_ne!(s1.id, s2.id);

    let mut sub = ClientSubscription {
        id: ID,
        client_id: OTHER,
        application_id: 3,
        pricing_plan_id: 2,
        status: SubscriptionStatus::Cancelled,
        started_at: 0,
        ended_at: None,
        pricing_snapshot: snapshot(),
        created_at: 0,
    };
    assert!(sub.is_cancelled());
    assert!(ClientSubscriptionCacheEntry::from_subscription(&sub).is_none());
    sub.status = SubscriptionStatus::Active;
    assert!(!sub.is_cancelled());
    let entry = ClientSubscriptionCacheEntry::from_subscription(&sub).unwrap();
    assert_eq!((entry.id, entry.client_id, entry.plan_id), (ID, OTHER, 2));
    assert!(entry.is_active);

    let row = |app: u128, default: bool| AppPlanRow {
        application_id: app,
        pricing_plan_id: 2,
        is_default: default,
        attached_at: 5,
        plan_id: 2,
        developer_id: 8,
        name: "basic".to_string(),
        plan_pricing_mode: PricingMode::Free,
        price_per_message_cents: None,
        price_per_gb_cents: None,
        price_per_proof_cents: Some(4),
        prepaid_amount_cents: None,
        plan_created_at: 1,
    };
    let pairs = split_plan_rows(vec![row(10, true), row(11, false)]);
    assert_eq!(pairs.len(), 2);
    assert_eq!(pairs[0].0, ApplicationPricingPlan { application_id: 10, pricing_plan_id: 2, is_default: true, attached_at: 5 });
    assert_eq!(pairs[1].0.application_id, 11);
    assert!(!pairs[1].0.is_default);
    assert_eq!((pairs[1].1.id, pairs[1].1.name.as_str(), pairs[1].1.price_per_proof_cents), (2, "basic", Some(4)));
    assert!(split_plan_rows(vec![]).is_empty());

    let chosen = default_plan(split_plan_rows(vec![row(10, false), row(11, true), row(12, true)])).unwrap();
    assert_eq!(chosen.0.application_id, 11);
    assert!(default_plan(split_plan_rows(vec![row(10, false)])).is_none());
    assert!(default_plan(vec![]).is_none());
}

#[test]
fn stored_message_access() {
    let m = stored(0, Some(2), NOW + 100);
    assert!(m.validate_access_at(NOW).is_ok());
    assert_eq!(m.validate_access_at(NOW + 101), Err(VaultlessError::MessageExpired));
    assert_eq!(stored(2, Some(2), NOW + 100).validate_access_at(NOW), Err(VaultlessError::MessageAccessLimitReached));
    assert!(stored(9, None, NOW + 100).validate_access_at(NOW).is_ok());
    assert_eq!(m.verify_proof(""), Err(VaultlessError::InvalidProof("Invalid proof".to_string())));
    assert!(m.verify_proof("p").is_ok());
    let once = m.record_access(NOW);
    assert_eq!((once.access_count, once.accessed_at, once.is_delivered), (1, Some(NOW), false));
    let twice = once.record_access(NOW + 1);
    assert_eq!((twice.access_count, twice.is_delivered, twice.delivered_at), (2, true, Some(NOW + 1)));
    let page = page_of(vec![stored(0, None, 0), stored(0, None, 0)], 2);
    assert_eq!(page.next_cursor, Some(NOW - 10));
    assert!(page.has_more);
    let short = page_of(vec![stored(0, None, 0)], 2);
    assert_eq!(short.next_cursor, None);
    assert!(!short.has_more);
}

#[test]
fn health_reports() {
    let metrics = SystemMetrics {
        failed_verifications: 1,
        failed_metrics_increments: 2,
        emergency_writes: 3,
        dlq_entries: 4,
        db_pool_dropped_deletes: 5,
    };
    let h = health_status(
        ChannelLoad { capacity: 7, max_capacity: 10 },
        ChannelLoad { capacity: 10, max_capacity: 10 },
        ChannelLoad { capacity: 0, max_capacity: 4 },
        &metrics,
        true,
        "Closed".to_string(),
        "Open".to_string(),
    );
    assert_eq!((h.flusher_channel_capacity, h.flusher_channel_available), (7, 3));
    assert_eq!(h.deleter_channel_available, 0);
    assert_eq!(h.dlq_channel_available, 4);
    assert_eq!((h.failed_verifications, h.dlq_entries, h.db_pool_dropped_deletes), (1, 4, 5));
    assert!(h.db_pool_available);
    assert_eq!((h.redis_circuit_state.as_str(), h.db_circuit_state.as_str()), ("Closed", "Open"));

    let p = PubSubHealth::new();
    p.mark_connected();
    p.record_message();
    assert_eq!(p.stats().messages_received, 1);
    assert!(p.stats().connected);
    p.mark_disconnected();
    assert!(!p.stats().connected);
    assert_eq!(p.stats().messages_received, 1);
}

#[test]
fn client_calls_for_received_and_refused() {
    let config = ClientUsageEngineConfig::default();
    let t: i64 = 1_700_000_000;
    let r = client_message_received_call(
        &RecordClientMessageReceivedInput { message_id: OTHER, application_id: ID, client_id: OTHER, content_size_bytes: 12 },
        &config,
        t,
    );
    assert_eq!(r.keys[0], format!("vaultless:counted:client:{OTHER_TEXT}"));
    assert_eq!(r.keys[1], format!("vaultless:metric:client:{ID_TEXT}:{OTHER_TEXT}:hour:2023_11_14_22"));
    assert_eq!(r.args, vec![config.counted_ttl_secs, config.hourly_ttl_secs, 12]);
    let h = client_rate_limit_hit_call(
        &RecordClientRateLimitHitInput { request_id: ID, application_id: ID, client_id: OTHER },
        &config,
        t,
    );
    assert_eq!(h.keys[0], format!("vaultless:counted:client:{ID_TEXT}"));
    assert_eq!(h.args, vec![config.counted_ttl_secs, config.hourly_ttl_secs]);
    assert_eq!(
        instant_sent_counted_key(ID),
        format!("vaultless:instant_message:sent_counted:{ID_TEXT}")
    );
}
