use vaultless_core::session_keys::{session_metric_key, session_metric_pattern};
use vaultless_core::error::VaultlessError;
use vaultless_core::keys::{
    active_sessions_set, client_subscription_cache_key, instant_inbox_key, iot_command_lock_key, revoked_session_key,
};
use vaultless_core::message_proof::{CreateProof, MessageProof, VerifyProofRequest};
use vaultless_core::notification::{
    api_key_expiry_severity, date_str_at, filter_clause, page_offset, rate_limit_severity, should_run_daily,
    total_pages, validate_query, NotificationEventTracker, NotificationJobConfig, NotificationQuery,
    NotificationSeverity, NotificationType,
};
use vaultless_core::pricing::{
    calculate_revenue, ClientSubscriptionCacheEntry, PricingMode, PricingPlan, PricingSnapshot, RevenueSnapshot,
};
use vaultless_core::session::health::{health_verdict, now_epoch_ns, PubSubHealth};
use vaultless_core::session::hybrid::{fast_plan, fast_verdict, revocation_ttl, session_revoked, FastPlan};
use vaultless_core::session_keys::{
    extract_session_id_from_key, nonzero_counters, validate_same_application, ClientAppRef, SessionFlushCycle,
    SessionKeyAction,
};
use vaultless_core::user::{
    hash_new_password, is_login_rate_limited, login_error, login_plan, prepare_registration, reset_request_answer,
    rotated_expiry, AccountState, LoginPlan, User, MICROS_PER_DAY,
};
use vaultless_core::webhook::{first_unknown_update, plan_webhook_sync, webhook_not_found, WebhookRecord};

const ID: u128 = 0x0123_4567_89ab_4def_8123_456789abcdef;
const ID_TEXT: &str = "01234567-89ab-4def-8123-456789abcdef";
const OTHER: u128 = 0xfedc_ba98_7654_4321_8fed_cba987654321;
const OTHER_TEXT: &str = "fedcba98-7654-4321-8fed-cba987654321";

#[test]
fn keys_live_under_the_namespace() {
    assert_eq!(instant_inbox_key(ID), format!("vaultless:instant_message:inbox:{ID_TEXT}"));
    assert_eq!(iot_command_lock_key(ID), format!("vaultless:iot:cmd_lock:{ID_TEXT}"));
    assert_eq!(active_sessions_set(), "session:active");
    assert_eq!(client_subscription_cache_key(ID, OTHER), format!("vaultless:client_subscription:{ID_TEXT}:{OTHER_TEXT}"));
    assert_eq!(revoked_session_key("j1"), "vaultless:revoked_session:j1");
}

#[test]
fn notification_listing() {
    let q = NotificationQuery { is_read: Some(false), notification_type: None, severity: Some(NotificationSeverity::Warning), page: 3, page_size: 20 };
    assert!(validate_query(&q).is_ok());
    assert_eq!(page_offset(&q), 40);
    let (clause, next) = filter_clause(&q);
    assert_eq!(clause, "user_id = $1 AND (expires_at IS NULL OR expires_at > NOW()) AND is_read = $2 AND severity = $3");
    assert_eq!(next, 4);
    assert_eq!(total_pages(41, 20), 3);
    assert_eq!(total_pages(0, 20), 0);
    let bad = NotificationQuery { page: 0, ..q };
    assert_eq!(validate_query(&bad).unwrap_err(), VaultlessError::Validation("page: must be at least 1".to_string()));
    let big = NotificationQuery { page_size: 101, ..q };
    assert_eq!(
        validate_query(&big).unwrap_err(),
        VaultlessError::Validation("page_size: must be between 1 and 100".to_string())
    );
    assert_eq!(NotificationType::SystemUpdate.to_string(), "system_update");
}

#[test]
fn notification_severities_and_tracking() {
    assert_eq!(api_key_expiry_severity(3), NotificationSeverity::Critical);
    assert_eq!(api_key_expiry_severity(7), NotificationSeverity::Warning);
    assert_eq!(api_key_expiry_severity(8), NotificationSeverity::Info);
    assert_eq!(rate_limit_severity(100), NotificationSeverity::Critical);
    assert_eq!(rate_limit_severity(50), NotificationSeverity::Warning);
    assert_eq!(rate_limit_severity(49), NotificationSeverity::Info);
    assert_eq!(date_str_at(1_700_000_000), "20231114");
    let k = NotificationEventTracker::quota_warning_key(ID, "20231114", 80);
    assert_eq!(k, format!("vaultless:notify:quota_warning:{ID_TEXT}:20231114:80"));
    assert_eq!(NotificationEventTracker::api_key_of(&k), Some(ID));
    assert!(NotificationEventTracker::already_sent(false));
    assert!(!should_run_daily(Some(5), 5, 10, 9));
    assert!(should_run_daily(Some(4), 5, 9, 9));
    assert!(!should_run_daily(None, 5, 8, 9));
    assert_eq!(NotificationJobConfig::default().daily_summary_hour, 9);
}

fn snapshot() -> PricingSnapshot {
    PricingSnapshot {
        id: 1,
        plan_id: 2,
        plan_name: "basic".to_string(),
        pricing_mode: PricingMode::Postpaid,
        price_per_message_cents: Some(2),
        price_per_gb_cents: Some(100),
        price_per_proof_cents: None,
        prepaid_amount_cents: None,
        platform_fee_percent: None,
        currency: Some("USD".to_string()),
    }
}

#[test]
fn revenue_by_source() {
    let gb: i64 = 1 << 30;
    let r = calculate_revenue(10, 5, 7, 3 * gb + 1, gb, gb - 1, &snapshot());
    assert_eq!(
        r,
        RevenueSnapshot {
            message_revenue_cents: 30,
            storage_revenue_cents: 300,
            bandwidth_revenue_cents: 100,
            proof_revenue_cents: 0,
            total_revenue_cents: 430,
        }
    );
    assert_eq!(RevenueSnapshot::zero().total_revenue_cents, 0);
    let plan = PricingPlan {
        id: 9,
        developer_id: 8,
        name: "p".to_string(),
        pricing_mode: PricingMode::Free,
        price_per_message_cents: None,
        price_per_gb_cents: None,
        price_per_proof_cents: None,
        prepaid_amount_cents: Some(5),
        created_at: 0,
    };
    let s = plan.to_snapshot_with_id(77);
    assert_eq!((s.id, s.plan_id, s.currency.as_deref(), s.prepaid_amount_cents), (77, 9, Some("USD"), Some(5)));
}

#[test]
fn cache_entry_reads_back_from_its_hash() {
    let e = ClientSubscriptionCacheEntry {
        id: ID,
        client_id: OTHER,
        application_id: 3,
        plan_id: 4,
        plan_name: "gold".to_string(),
        pricing_mode: PricingMode::Prepaid,
        price_per_message_cents: Some(-2),
        price_per_gb_cents: None,
        price_per_proof_cents: Some(7),
        prepaid_amount_cents: None,
        platform_fee_percent: Some("2.5".to_string()),
        currency: Some("EUR".to_string()),
        is_active: true,
        started_at: 1_700_000_000_000_000,
        ended_at: Some(1_700_000_100_000_000),
    };
    let args = e.to_redis_args();
    assert_eq!(args.len(), 30);
    assert_eq!(args[0], "id");
    assert_eq!(args[1], ID_TEXT);
    let pairs: Vec<(String, String)> = args.chunks(2).map(|c| (c[0].clone(), c[1].clone())).collect();
    let back = ClientSubscriptionCacheEntry::from_redis_at(&pairs, 0).unwrap();
    assert_eq!((back.id, back.client_id, back.application_id, back.plan_id), (ID, OTHER, 3, 4));
    assert_eq!(back.plan_name, "gold");
    assert_eq!(back.pricing_mode, PricingMode::Prepaid);
    assert_eq!((back.price_per_message_cents, back.price_per_gb_cents, back.price_per_proof_cents), (Some(-2), None, Some(7)));
    assert_eq!(back.platform_fee_percent.as_deref(), Some("2.5"));
    assert_eq!(back.currency.as_deref(), Some("EUR"));
    assert!(back.is_active);
    assert_eq!((back.started_at, back.ended_at), (e.started_at, e.ended_at));
    assert!(ClientSubscriptionCacheEntry::from_redis_at(&vec![], 0).is_none());
}

#[test]
fn session_health_and_fast_path() {
    assert!(!health_verdict(false, 0, 1000, 5));
    assert!(health_verdict(true, 0, 1000, 5));
    assert!(health_verdict(true, 10, 1000, 1009));
    assert!(!health_verdict(true, 10, 1000, 1010));
    assert!(health_verdict(true, 10, 1000, 3));
    let h = PubSubHealth::new();
    let shared = h.clone();
    assert!(!h.is_healthy(1_000_000_000));
    h.mark_connected();
    assert!(shared.stats().connected);
    assert!(shared.is_healthy(1_000_000_000));
    shared.record_message();
    assert_eq!(h.stats().messages_received, 1);
    assert!(h.is_healthy(60_000_000_000));
    assert!(!h.is_healthy(0));
    h.record_reconnect();
    assert_eq!(shared.stats().reconnect_attempts, 1);
    h.mark_disconnected();
    assert!(!shared.is_healthy(60_000_000_000));
    assert_eq!(fast_plan(Some(true), true, false), FastPlan::CheckRevocation);
    assert_eq!(fast_plan(Some(false), false, false), FastPlan::Answer { valid: false });
    assert_eq!(fast_plan(None, false, true), FastPlan::CheckRevocation);
    let v = fast_verdict(Some(true), true);
    assert!(!v.accept && v.invalidate);
    let n = fast_verdict(None, false);
    assert!(n.accept && !n.invalidate && n.cache_valid == Some(true));
    assert_eq!(revocation_ttl(0), 1);
    assert_eq!(revocation_ttl(30), 30);
    assert_eq!(session_revoked(), VaultlessError::Unauthorized("Session revoked".to_string()));
}

#[test]
fn session_counter_flushing() {
    assert_eq!(extract_session_id_from_key("vaultless:session:metric:abc:sent"), "abc");
    assert_eq!(extract_session_id_from_key("other:key"), "");
    let mut cycle = SessionFlushCycle::new(2);
    assert!(matches!(cycle.on_key("vaultless:session:metric:abc:sent"), SessionKeyAction::ReadCounters(ref s) if s == "abc"));
    assert!(matches!(cycle.on_key("vaultless:session:metric:abc:bytes_sent"), SessionKeyAction::Skip));
    assert!(!cycle.on_counters("abc".to_string(), Some((1, 0, 0, 0, 0))));
    assert!(!cycle.on_counters("def".to_string(), Some((0, 0, 0, 0, 0))));
    assert!(cycle.on_counters("ghi".to_string(), Some((0, 0, 0, 0, 9))));
    assert_eq!(cycle.batch.len(), 2);
    assert_eq!(nonzero_counters(0, 0, 0, 0, 0), None);
    assert_eq!(nonzero_counters(0, 1, 0, 0, 0), Some((0, 1, 0, 0, 0)));
}

#[test]
fn clients_must_share_an_application() {
    let a = ClientAppRef { id: 1, application_id: 10 };
    let b = ClientAppRef { id: 2, application_id: 10 };
    let c = ClientAppRef { id: 3, application_id: 11 };
    assert_eq!(validate_same_application(&vec![a, b], 1, 2), Ok(10));
    assert_eq!(
        validate_same_application(&vec![a], 1, 2),
        Err(VaultlessError::NotFound("One or both clients not found".to_string()))
    );
    assert!(validate_same_application(&vec![a, c], 1, 3).is_err());
}

#[test]
fn webhook_sync_plan() {
    let p = plan_webhook_sync(&vec![1, 2, 3], &vec![Some(2), None, Some(9), None]);
    assert_eq!(p.to_create, vec![1, 3]);
    assert_eq!(p.to_update, vec![(2, 0), (9, 2)]);
    assert_eq!(p.to_delete, vec![1, 3]);
    assert_eq!(first_unknown_update(&p.to_update, &vec![1, 2, 3]), Some(9));
    assert_eq!(
        webhook_not_found(ID, OTHER),
        VaultlessError::NotFound(format!("Webhook {ID_TEXT} not found for application {OTHER_TEXT}"))
    );
    assert_eq!(WebhookRecord::signing_secret_from(&[0xab; 32]), format!("whsec_{}", "ab".repeat(32)));
}

#[test]
fn proofs() {
    let ok = CreateProof {
        message_id: 1,
        content_hash: "a".repeat(64),
        signature: "s".to_string(),
        public_key: "k".to_string(),
        algorithm: None,
        hash_algorithm: Some("BLAKE3".to_string()),
        proof_metadata: None,
    };
    assert!(ok.validate().is_ok());
    assert_eq!(ok.algorithm_or_default(), "Ed25519");
    assert_eq!(ok.hash_algorithm_or_default(), "BLAKE3");
    let no_sig = CreateProof { signature: String::new(), ..ok };
    assert_eq!(
        no_sig.validate().unwrap_err(),
        VaultlessError::Validation("signature: length must be at least 1".to_string())
    );
    let proof = MessageProof {
        id: 5,
        message_id: 1,
        content_hash: "h".to_string(),
        signature: "s".to_string(),
        public_key: "k".to_string(),
        algorithm: "Ed25519".to_string(),
        hash_algorithm: "SHA-256".to_string(),
        created_at: 0,
        verified_at: None,
        verification_count: 0,
        proof_metadata: None,
    };
    let same = VerifyProofRequest { message_id: 1, content_hash: "h".to_string(), signature: "s".to_string(), public_key: "k".to_string() };
    assert!(proof.matches_request(&same).is_ok());
    let other = VerifyProofRequest { signature: "x".to_string(), ..same };
    assert_eq!(proof.matches_request(&other).unwrap_err(), VaultlessError::InvalidProof("Invalid proof".to_string()));
    let r = proof.verification_result(1, 99);
    assert_eq!((r.is_valid, r.message_id, r.verified_at, r.proof_id), (true, 1, 99, 5));
}

#[test]
fn login_course() {
    let active = AccountState { is_active: true, email_verified: true, verification_expires_at: None };
    assert_eq!(login_plan(None, true, 0), LoginPlan::RejectUnknownUser);
    assert_eq!(login_plan(Some(active), false, 0), LoginPlan::RejectBadPassword);
    assert_eq!(login_plan(Some(AccountState { is_active: false, ..active }), true, 0), LoginPlan::RejectInactive);
    assert_eq!(
        login_plan(Some(AccountState { email_verified: false, verification_expires_at: Some(5), ..active }), true, 6),
        LoginPlan::RequireVerification { regenerate_token: true }
    );
    assert_eq!(login_plan(Some(active), true, 0), LoginPlan::Accept);
    assert_eq!(
        login_error(LoginPlan::RejectBadPassword, None),
        Some(VaultlessError::Unauthorized("Invalid email or password".to_string()))
    );
    assert!(is_login_rate_limited(5));
    assert!(!is_login_rate_limited(4));
    assert_eq!(rotated_expiry(10 * MICROS_PER_DAY + 5, 0), 10 * MICROS_PER_DAY);
    assert_eq!(rotated_expiry(0, 0), MICROS_PER_DAY);
    assert_eq!(reset_request_answer(0, "t".to_string()), None);
    assert_eq!(reset_request_answer(1, "t".to_string()), Some("t".to_string()));
}

#[test]
fn registered_password_logs_in() {
    let n = prepare_registration("a@b.c".to_string(), "correct horse", Some("A".to_string()), 0).unwrap();
    assert_eq!(n.email, "a@b.c");
    assert_eq!(n.email_verification_token.len(), 43);
    assert_eq!(n.email_verification_expires_at, MICROS_PER_DAY);
    let user = vaultless_core::user::registered_user(n, ID, 0);
    assert_eq!(user.verify_password("correct horse"), Ok(true));
    assert_eq!(user.verify_password("wrong"), Ok(false));
    let h = hash_new_password("pw2").unwrap();
    let u2 = User { password_hash: h, ..user };
    assert_eq!(u2.verify_password("pw2"), Ok(true));
}

#[test]
fn health_clock_reads_nanoseconds_since_the_epoch() {
    let ns = now_epoch_ns();
    assert!(ns > 1_700_000_000_000_000_000);
}

#[test]
fn session_counter_keys_name_their_session() {
    let k = session_metric_key("abc123", "bytes_sent");
    assert_eq!(k, "vaultless:session:metric:abc123:bytes_sent");
    assert_eq!(extract_session_id_from_key(&k), "abc123");
    assert_eq!(session_metric_pattern(), "vaultless:session:metric:*");
}
