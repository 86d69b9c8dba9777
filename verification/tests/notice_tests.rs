use vaultless_core::notices::{
    api_key_expiring_notice, quota_exceeded_notice, rate_limit_summary_notice, security_alert_notice, welcome_notice,
};
use vaultless_core::notification::{NotificationSeverity, NotificationType, MICROS_PER_DAY};

const USER: u128 = 42;
const APP: u128 = 0x0123_4567_89ab_4def_8123_456789abcdef;
const APP_TEXT: &str = "01234567-89ab-4def-8123-456789abcdef";
const NOW: i64 = 1_700_000_000_000_000;

#[test]
fn api_key_expiring() {
    let n = api_key_expiring_notice(USER, "vk_", 5, NOW);
    assert_eq!(n.title, "API Key Expiring Soon");
    assert_eq!(n.message, "Your API key (vk_) will expire in 5 days. Please rotate it to avoid service interruption.");
    assert_eq!(n.notification_type, NotificationType::ApiKeyExpiring);
    assert_eq!(n.severity, NotificationSeverity::Warning);
    assert_eq!(n.action_url.as_deref(), Some("/dashboard/keys"));
    assert_eq!(n.metadata.as_deref(), Some(r#"{"days_until_expiry":5,"key_prefix":"vk_"}"#));
    assert_eq!(n.expires_at, Some(NOW + 5 * MICROS_PER_DAY));
    assert_eq!(api_key_expiring_notice(USER, "k", 2, NOW).severity, NotificationSeverity::Critical);
}

#[test]
fn rate_limit_summary() {
    let n = rate_limit_summary_notice(USER, "Chat", APP, 120, NOW);
    assert_eq!(n.title, "Rate Limit Alert: Chat");
    assert_eq!(
        n.message,
        "Your application 'Chat' hit the rate limit 120 times today. Consider upgrading your plan or optimizing your request patterns."
    );
    assert_eq!(n.severity, NotificationSeverity::Critical);
    assert_eq!(
        n.metadata.as_deref(),
        Some(format!(r#"{{"app_id":"{APP_TEXT}","app_name":"Chat","event_type":"rate_limit_summary","rate_limit_hits":120}}"#).as_str())
    );
    assert_eq!(n.expires_at, Some(NOW + 7 * MICROS_PER_DAY));
}

#[test]
fn quota_exceeded_security_and_welcome() {
    let q = quota_exceeded_notice(USER, "Chat", APP, NOW);
    assert_eq!(q.title, "Quota Exceeded: Chat");
    assert_eq!(q.notification_type, NotificationType::QuotaExceeded);
    assert_eq!(q.action_url.as_deref(), Some("/dashboard/upgrade"));
    assert_eq!(q.expires_at, Some(NOW + 30 * MICROS_PER_DAY));
    let s = security_alert_notice(USER, "New login", "From a new device", NOW);
    assert_eq!((s.title.as_str(), s.severity, s.metadata), ("New login", NotificationSeverity::Critical, None));
    let w = welcome_notice(USER, NOW);
    assert_eq!(w.metadata.as_deref(), Some(r#"{"welcome":true}"#));
    assert_eq!(w.action_url.as_deref(), Some("/dashboard/applications/new"));
}
