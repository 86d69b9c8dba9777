use vaultless_core::notification::{
    NotificationBuilder, NotificationSeverity, NotificationType,
};

#[test]
fn test_notification_type_display() {
    assert_eq!(NotificationType::QuotaWarning.to_string(), "quota_warning");
    assert_eq!(NotificationType::SecurityAlert.to_string(), "security_alert");
}

#[test]
fn test_notification_severity_display() {
    assert_eq!(NotificationSeverity::Info.to_string(), "info");
    assert_eq!(NotificationSeverity::Critical.to_string(), "critical");
}

#[test]
fn test_notification_builder() {
    let user_id: u128 = 0x1234_5678_9abc_4def_8123_456789abcdef;
    let notification = NotificationBuilder::new(
        user_id,
        "Test Title",
        "Test Message",
        NotificationType::SystemUpdate,
    )
    .severity(NotificationSeverity::Warning)
    .action_url("/test")
    .metadata(r#"{"key":"value"}"#.to_string())
    .expires_in_days(7)
    .build();

    assert_eq!(notification.user_id, user_id);
    assert_eq!(notification.title, "Test Title");
    assert_eq!(notification.message, "Test Message");
    assert_eq!(notification.notification_type, NotificationType::SystemUpdate);
    assert_eq!(notification.severity, NotificationSeverity::Warning);
    assert_eq!(notification.action_url, Some("/test".to_string()));
    assert!(notification.metadata.is_some());
    assert!(notification.expires_at.is_some());
}
