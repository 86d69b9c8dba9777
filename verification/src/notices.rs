//! The notices the platform sends its users: their kind, severity, text,
//! link, metadata and lifetime.
//!
//! Instants are microseconds since 1970-01-01T00:00:00 UTC.
use vstd::prelude::*;
use crate::ident::{uuid_text, uuid_string};
use crate::notification::{
    CreateNotification, NotificationBuilder, NotificationSeverity, NotificationType, MICROS_PER_DAY,
    api_key_expiry_severity, rate_limit_severity,
};
use crate::text::{chars_of, string_of, append_chars, pad_text, push_padded};

verus! {

// =============================================================================
// Metadata
// =============================================================================

/// A plain JSON value.
#[derive(Clone, Debug)]
pub enum JsonScalar {
    Text(String),
    Int(i64),
    Bool(bool),
}

/// A plain JSON value, as a mathematical value.
pub enum JsonScalarView {
    Text(Seq<char>),
    Int(i64),
    Bool(bool),
}

impl View for JsonScalar {
    type V = JsonScalarView;

    open spec fn view(&self) -> JsonScalarView {
        match self {
            JsonScalar::Text(s) => JsonScalarView::Text(s@),
            JsonScalar::Int(n) => JsonScalarView::Int(*n),
            JsonScalar::Bool(b) => JsonScalarView::Bool(*b),
        }
    }
}

/// The text `serde_json` gives for the object with these fields.
pub uninterp spec fn json_object_text(fields: Seq<(Seq<char>, JsonScalarView)>) -> Seq<char>;

/// The fields as mathematical values.
pub open spec fn fields_view(fields: Seq<(String, JsonScalar)>) -> Seq<(Seq<char>, JsonScalarView)> {
    fields.map_values(|f: (String, JsonScalar)| (f.0@, f.1@))
}

/// Renders a JSON object.
///
/// Builds a `serde_json::Map` from the fields and renders it with
/// `to_string`.  The text is a function of the fields (the map orders its
/// keys), which the contract names.
#[verifier::external_body]
fn json_object(fields: &Vec<(String, JsonScalar)>) -> (s: String)
    ensures
        s@ == json_object_text(fields_view(fields@)),
{
    let mut m = serde_json::Map::new();
    for (k, v) in fields {
        let value = match v {
            JsonScalar::Text(t) => serde_json::Value::from(t.clone()),
            JsonScalar::Int(n) => serde_json::Value::from(*n),
            JsonScalar::Bool(b) => serde_json::Value::from(*b),
        };
        m.insert(k.clone(), value);
    }
    serde_json::Value::Object(m).to_string()
}

fn text_field(name: &str, value: String) -> (f: (String, JsonScalar))
    ensures
        f.0@ == name@,
        f.1@ == JsonScalarView::Text(value@),
{
    (String::from_str(name), JsonScalar::Text(value))
}

// =============================================================================
// Notices
// =============================================================================

/// `a` followed by the decimal text of `n` and then `b`.
fn around_number(a: &str, n: i64, b: &str) -> (s: String)
    ensures
        s@ == a@ + pad_text(n as int, 0) + b@,
{
    let mut out = chars_of(a);
    push_padded(&mut out, n, 0);
    append_chars(&mut out, &chars_of(b));
    string_of(&out)
}

/// `a` followed by `x` and then `b`.
fn around(a: &str, x: &str, b: &str) -> (s: String)
    ensures
        s@ == a@ + x@ + b@,
{
    let mut out = chars_of(a);
    append_chars(&mut out, &chars_of(x));
    append_chars(&mut out, &chars_of(b));
    string_of(&out)
}

/// The instants a notice created at `now` can expire at without leaving
/// the range of instants: up to a year ahead.
pub open spec fn notice_time_ok(now: i64) -> bool {
    now <= i64::MAX - 366 * MICROS_PER_DAY
}

/// Notice that an API key expires in `days_until_expiry` days: more
/// severe the sooner, linking to the keys page, and kept until the key
/// expires.
pub fn api_key_expiring_notice(user_id: u128, key_prefix: &str, days_until_expiry: i64, now: i64) -> (n: CreateNotification)
    requires
        -100_000_000 <= days_until_expiry <= 100_000_000,
        i64::MIN <= now + days_until_expiry * MICROS_PER_DAY <= i64::MAX,
    ensures
        n.user_id == user_id,
        n.title@ == "API Key Expiring Soon"@,
        n.message@ == "Your API key ("@ + key_prefix@ + ") will expire in "@ + pad_text(days_until_expiry as int, 0)
            + " days. Please rotate it to avoid service interruption."@,
        n.notification_type == NotificationType::ApiKeyExpiring,
        n.severity == (if days_until_expiry <= 3 {
            NotificationSeverity::Critical
        } else if days_until_expiry <= 7 {
            NotificationSeverity::Warning
        } else {
            NotificationSeverity::Info
        }),
        n.action_url matches Some(u) && u@ == "/dashboard/keys"@,
        n.metadata matches Some(m) && m@ == json_object_text(seq![
            ("key_prefix"@, JsonScalarView::Text(key_prefix@)),
            ("days_until_expiry"@, JsonScalarView::Int(days_until_expiry)),
        ]),
        n.expires_at == Some((now + days_until_expiry * MICROS_PER_DAY) as i64),
{
    let mut start = chars_of("Your API key (");
    append_chars(&mut start, &chars_of(key_prefix));
    append_chars(&mut start, &chars_of(") will expire in "));
    let message = around_number(string_of(&start).as_str(), days_until_expiry,
        " days. Please rotate it to avoid service interruption.");
    let mut fields: Vec<(String, JsonScalar)> = Vec::new();
    fields.push(text_field("key_prefix", String::from_str(key_prefix)));
    fields.push((String::from_str("days_until_expiry"), JsonScalar::Int(days_until_expiry)));
    assert(fields_view(fields@) =~= seq![
        ("key_prefix"@, JsonScalarView::Text(key_prefix@)),
        ("days_until_expiry"@, JsonScalarView::Int(days_until_expiry)),
    ]);
    let metadata = json_object(&fields);
    NotificationBuilder::new(user_id, "API Key Expiring Soon", message.as_str(), NotificationType::ApiKeyExpiring)
        .severity(api_key_expiry_severity(days_until_expiry))
        .action_url("/dashboard/keys")
        .metadata(metadata)
        .expires_in_days_at(days_until_expiry, now)
        .build()
}

/// The daily summary of an application's rate-limit hits: more severe the
/// more hits, linking to the applications page, kept for a week.
pub fn rate_limit_summary_notice(user_id: u128, app_name: &str, app_id: u128, hit_count: i64, now: i64) -> (n: CreateNotification)
    requires
        notice_time_ok(now),
    ensures
        n.user_id == user_id,
        n.title@ == "Rate Limit Alert: "@ + app_name@,
        n.message@ == "Your application '"@ + app_name@ + "' hit the rate limit "@ + pad_text(hit_count as int, 0)
            + " times today. Consider upgrading your plan or optimizing your request patterns."@,
        n.notification_type == NotificationType::SecurityAlert,
        n.severity == (if hit_count >= 100 {
            NotificationSeverity::Critical
        } else if hit_count >= 50 {
            NotificationSeverity::Warning
        } else {
            NotificationSeverity::Info
        }),
        n.action_url matches Some(u) && u@ == "/dashboard/applications"@,
        n.metadata matches Some(m) && m@ == json_object_text(seq![
            ("app_name"@, JsonScalarView::Text(app_name@)),
            ("app_id"@, JsonScalarView::Text(uuid_text(app_id))),
            ("rate_limit_hits"@, JsonScalarView::Int(hit_count)),
            ("event_type"@, JsonScalarView::Text("rate_limit_summary"@)),
        ]),
        n.expires_at == Some((now + 7 * MICROS_PER_DAY) as i64),
{
    let title = around("Rate Limit Alert: ", app_name, "");
    let lead = around("Your application '", app_name, "' hit the rate limit ");
    let message = around_number(lead.as_str(), hit_count,
        " times today. Consider upgrading your plan or optimizing your request patterns.");
    proof {
        reveal_strlit("");
        assert("Rate Limit Alert: "@ + app_name@ + ""@ =~= "Rate Limit Alert: "@ + app_name@);
    }
    let mut fields: Vec<(String, JsonScalar)> = Vec::new();
    fields.push(text_field("app_name", String::from_str(app_name)));
    fields.push(text_field("app_id", uuid_string(app_id)));
    fields.push((String::from_str("rate_limit_hits"), JsonScalar::Int(hit_count)));
    fields.push(text_field("event_type", String::from_str("rate_limit_summary")));
    assert(fields_view(fields@) =~= seq![
        ("app_name"@, JsonScalarView::Text(app_name@)),
        ("app_id"@, JsonScalarView::Text(uuid_text(app_id))),
        ("rate_limit_hits"@, JsonScalarView::Int(hit_count)),
        ("event_type"@, JsonScalarView::Text("rate_limit_summary"@)),
    ]);
    let metadata = json_object(&fields);
    NotificationBuilder::new(user_id, title.as_str(), message.as_str(), NotificationType::SecurityAlert)
        .severity(rate_limit_severity(hit_count))
        .action_url("/dashboard/applications")
        .metadata(metadata)
        .expires_in_days_at(7, now)
        .build()
}

/// Notice that an application exceeded its monthly quota: critical,
/// linking to the upgrade page, kept for thirty days.
pub fn quota_exceeded_notice(user_id: u128, app_name: &str, app_id: u128, now: i64) -> (n: CreateNotification)
    requires
        notice_time_ok(now),
    ensures
        n.user_id == user_id,
        n.title@ == "Quota Exceeded: "@ + app_name@,
        n.message@ == "Your application '"@ + app_name@
            + "' has exceeded its monthly message quota. API requests are being rejected. Please upgrade your plan to restore service."@,
        n.notification_type == NotificationType::QuotaExceeded,
        n.severity == NotificationSeverity::Critical,
        n.action_url matches Some(u) && u@ == "/dashboard/upgrade"@,
        n.metadata matches Some(m) && m@ == json_object_text(seq![
            ("app_name"@, JsonScalarView::Text(app_name@)),
            ("app_id"@, JsonScalarView::Text(uuid_text(app_id))),
            ("event_type"@, JsonScalarView::Text("quota_exceeded"@)),
        ]),
        n.expires_at == Some((now + 30 * MICROS_PER_DAY) as i64),
{
    let title = around("Quota Exceeded: ", app_name, "");
    let message = around("Your application '", app_name,
        "' has exceeded its monthly message quota. API requests are being rejected. Please upgrade your plan to restore service.");
    proof {
        reveal_strlit("");
        assert("Quota Exceeded: "@ + app_name@ + ""@ =~= "Quota Exceeded: "@ + app_name@);
    }
    let mut fields: Vec<(String, JsonScalar)> = Vec::new();
    fields.push(text_field("app_name", String::from_str(app_name)));
    fields.push(text_field("app_id", uuid_string(app_id)));
    fields.push(text_field("event_type", String::from_str("quota_exceeded")));
    assert(fields_view(fields@) =~= seq![
        ("app_name"@, JsonScalarView::Text(app_name@)),
        ("app_id"@, JsonScalarView::Text(uuid_text(app_id))),
        ("event_type"@, JsonScalarView::Text("quota_exceeded"@)),
    ]);
    let metadata = json_object(&fields);
    NotificationBuilder::new(user_id, title.as_str(), message.as_str(), NotificationType::QuotaExceeded)
        .severity(NotificationSeverity::Critical)
        .action_url("/dashboard/upgrade")
        .metadata(metadata)
        .expires_in_days_at(30, now)
        .build()
}

/// A security alert: critical, linking to the security page, kept for
/// thirty days.
pub fn security_alert_notice(user_id: u128, title: &str, message: &str, now: i64) -> (n: CreateNotification)
    requires
        notice_time_ok(now),
    ensures
        n.user_id == user_id,
        n.title@ == title@,
        n.message@ == message@,
        n.notification_type == NotificationType::SecurityAlert,
        n.severity == NotificationSeverity::Critical,
        n.action_url matches Some(u) && u@ == "/dashboard/security"@,
        n.metadata is None,
        n.expires_at == Some((now + 30 * MICROS_PER_DAY) as i64),
{
    NotificationBuilder::new(user_id, title, message, NotificationType::SecurityAlert)
        .severity(NotificationSeverity::Critical)
        .action_url("/dashboard/security")
        .expires_in_days_at(30, now)
        .build()
}

/// The welcome notice of a new user, linking to the page that creates an
/// application, kept for thirty days.
pub fn welcome_notice(user_id: u128, now: i64) -> (n: CreateNotification)
    requires
        notice_time_ok(now),
    ensures
        n.user_id == user_id,
        n.title@ == "Welcome to Vaultless!"@,
        n.message@ == "Get started by creating your first application and API key."@,
        n.notification_type == NotificationType::SystemUpdate,
        n.severity == NotificationSeverity::Info,
        n.action_url matches Some(u) && u@ == "/dashboard/applications/new"@,
        n.metadata matches Some(m) && m@ == json_object_text(seq![("welcome"@, JsonScalarView::Bool(true))]),
        n.expires_at == Some((now + 30 * MICROS_PER_DAY) as i64),
{
    let mut fields: Vec<(String, JsonScalar)> = Vec::new();
    fields.push((String::from_str("welcome"), JsonScalar::Bool(true)));
    assert(fields_view(fields@) =~= seq![("welcome"@, JsonScalarView::Bool(true))]);
    let metadata = json_object(&fields);
    NotificationBuilder::new(
        user_id,
        "Welcome to Vaultless!",
        "Get started by creating your first application and API key.",
        NotificationType::SystemUpdate,
    )
        .severity(NotificationSeverity::Info)
        .action_url("/dashboard/applications/new")
        .metadata(metadata)
        .expires_in_days_at(30, now)
        .build()
}

} // verus!
