//! User notifications: kinds, content rules, paging, and the daily job's
//! decisions.
//!
//! Instants are microseconds since 1970-01-01T00:00:00 UTC unless a name
//! says seconds.
use vstd::prelude::*;
use crate::error::VaultlessError;
use crate::text::{chars_of, string_of, append_chars, split_chars, split_text, views, pad_text, push_padded};
use crate::ident::{uuid_text, uuid_parsed, parse_uuid};
use crate::keys::{key_text, cache_key, id_chars};
use crate::clock::{calendar_of, calendar_fields};

verus! {

/// Microseconds in a day.
pub const MICROS_PER_DAY: i64 = 86_400_000_000;

/// Kind of notification.
#[derive(Debug, Clone, Copy, PartialEq, Eq, Structural)]
pub enum NotificationType {
    QuotaWarning,
    QuotaExceeded,
    BillingAlert,
    SecurityAlert,
    SystemUpdate,
    MarketingOffer,
    ApiKeyExpiring,
    UsageReport,
}

/// The snake-case name of a notification kind.
pub open spec fn kind_name(t: NotificationType) -> Seq<char> {
    match t {
        NotificationType::QuotaWarning => "quota_warning"@,
        NotificationType::QuotaExceeded => "quota_exceeded"@,
        NotificationType::BillingAlert => "billing_alert"@,
        NotificationType::SecurityAlert => "security_alert"@,
        NotificationType::SystemUpdate => "system_update"@,
        NotificationType::MarketingOffer => "marketing_offer"@,
        NotificationType::ApiKeyExpiring => "api_key_expiring"@,
        NotificationType::UsageReport => "usage_report"@,
    }
}

impl NotificationType {
    /// The kind's snake-case name.
    pub fn to_string(&self) -> (s: String)
        ensures
            s@ == kind_name(*self),
    {
        let t = match self {
            NotificationType::QuotaWarning => "quota_warning",
            NotificationType::QuotaExceeded => "quota_exceeded",
            NotificationType::BillingAlert => "billing_alert",
            NotificationType::SecurityAlert => "security_alert",
            NotificationType::SystemUpdate => "system_update",
            NotificationType::MarketingOffer => "marketing_offer",
            NotificationType::ApiKeyExpiring => "api_key_expiring",
            NotificationType::UsageReport => "usage_report",
        };
        String::from_str(t)
    }
}

/// How urgent a notification is.
#[derive(Debug, Clone, Copy, PartialEq, Eq, Structural)]
pub enum NotificationSeverity {
    Info,
    Warning,
    Critical,
}

/// The lower-case name of a severity.
pub open spec fn severity_name(s: NotificationSeverity) -> Seq<char> {
    match s {
        NotificationSeverity::Info => "info"@,
        NotificationSeverity::Warning => "warning"@,
        NotificationSeverity::Critical => "critical"@,
    }
}

impl NotificationSeverity {
    /// The severity's lower-case name.
    pub fn to_string(&self) -> (s: String)
        ensures
            s@ == severity_name(*self),
    {
        let t = match self {
            NotificationSeverity::Info => "info",
            NotificationSeverity::Warning => "warning",
            NotificationSeverity::Critical => "critical",
        };
        String::from_str(t)
    }
}

/// A stored notification.
#[derive(Debug)]
pub struct Notification {
    pub id: u128,
    pub user_id: u128,
    pub title: String,
    pub message: String,
    pub notification_type: NotificationType,
    pub severity: NotificationSeverity,
    pub action_url: Option<String>,
    /// Metadata as JSON text.
    pub metadata: Option<String>,
    pub is_read: bool,
    pub read_at: Option<i64>,
    pub created_at: i64,
    pub updated_at: i64,
    pub expires_at: Option<i64>,
}

/// A request to create a notification.
#[derive(Debug)]
pub struct CreateNotification {
    pub user_id: u128,
    pub title: String,
    pub message: String,
    pub notification_type: NotificationType,
    pub severity: NotificationSeverity,
    pub action_url: Option<String>,
    /// Metadata as JSON text.
    pub metadata: Option<String>,
    pub expires_at: Option<i64>,
}

/// A request to update a notification.
#[derive(Debug, Clone, Copy, PartialEq, Eq, Structural)]
pub struct UpdateNotification {
    pub is_read: Option<bool>,
}

/// Filters and page of a notification listing.
#[derive(Debug, Clone, Copy, PartialEq, Eq, Structural)]
pub struct NotificationQuery {
    pub is_read: Option<bool>,
    pub notification_type: Option<NotificationType>,
    pub severity: Option<NotificationSeverity>,
    pub page: i64,
    pub page_size: i64,
}

/// A page of notifications.
#[derive(Debug)]
pub struct PaginatedNotifications {
    pub data: Vec<Notification>,
    pub total_count: i64,
    pub page: i64,
    pub page_size: i64,
    pub total_pages: i64,
    pub unread_count: i64,
}

/// Counts of one kind and severity.
#[derive(Debug, Clone, Copy, PartialEq, Eq, Structural)]
pub struct NotificationSummary {
    pub notification_type: NotificationType,
    pub severity: NotificationSeverity,
    pub total_count: i64,
    pub unread_count: i64,
    pub latest_notification: Option<i64>,
}

/// The number of unread notifications.
#[derive(Debug, Clone, Copy, PartialEq, Eq, Structural)]
pub struct UnreadCountResponse {
    pub unread_count: i64,
}

/// Severity of a notification created without one.
pub fn default_severity() -> (s: NotificationSeverity)
    ensures
        s == NotificationSeverity::Info,
{
    NotificationSeverity::Info
}

/// Page of a listing that names none.
pub fn default_page() -> (p: i64)
    ensures
        p == 1,
{
    1
}

/// Page size of a listing that names none.
pub fn default_page_size() -> (p: i64)
    ensures
        p == 20,
{
    20
}

// =============================================================================
// Content rules and paging
// =============================================================================

/// The first rule a creation request breaks, if any: a title of 1 to 255
/// characters, a message of 1 to 5000, an action link of at most 500.
pub open spec fn notification_violation(n: CreateNotification) -> Option<Seq<char>> {
    if n.title@.len() < 1 || n.title@.len() > 255 {
        Some("title: length must be between 1 and 255"@)
    } else if n.message@.len() < 1 || n.message@.len() > 5000 {
        Some("message: length must be between 1 and 5000"@)
    } else if n.action_url matches Some(u) && u@.len() > 500 {
        Some("action_url: length must be at most 500"@)
    } else {
        None
    }
}

/// Checks a creation request.
pub fn validate_notification(n: &CreateNotification) -> (r: Result<(), VaultlessError>)
    ensures
        match notification_violation(*n) {
            None => r is Ok,
            Some(m) => r matches Err(VaultlessError::Validation(e)) && e@ == m,
        },
{
    let tl = n.title.as_str().unicode_len();
    let ml = n.message.as_str().unicode_len();
    if tl < 1 || tl > 255 {
        return Err(VaultlessError::Validation(String::from_str("title: length must be between 1 and 255")));
    }
    if ml < 1 || ml > 5000 {
        return Err(VaultlessError::Validation(String::from_str("message: length must be between 1 and 5000")));
    }
    match &n.action_url {
        Some(u) => {
            if u.as_str().unicode_len() > 500 {
                return Err(VaultlessError::Validation(String::from_str("action_url: length must be at most 500")));
            }
        },
        None => {},
    }
    Ok(())
}

/// The first rule a listing breaks, if any: the page is at least 1 and the
/// page size between 1 and 100.
pub fn validate_query(q: &NotificationQuery) -> (r: Result<(), VaultlessError>)
    ensures
        q.page < 1 ==> (r matches Err(VaultlessError::Validation(m)) && m@ == "page: must be at least 1"@),
        q.page >= 1 && (q.page_size < 1 || q.page_size > 100)
            ==> (r matches Err(VaultlessError::Validation(m)) && m@ == "page_size: must be between 1 and 100"@),
        q.page >= 1 && 1 <= q.page_size <= 100 ==> r is Ok,
{
    if q.page < 1 {
        return Err(VaultlessError::Validation(String::from_str("page: must be at least 1")));
    }
    if q.page_size < 1 || q.page_size > 100 {
        return Err(VaultlessError::Validation(String::from_str("page_size: must be between 1 and 100")));
    }
    Ok(())
}

/// Rows skipped before a page.
pub fn page_offset(q: &NotificationQuery) -> (o: i64)
    requires
        1 <= q.page,
        1 <= q.page_size,
        (q.page - 1) * q.page_size <= i64::MAX,
    ensures
        o == (q.page - 1) * q.page_size,
{
    assert(0 <= (q.page - 1) * q.page_size) by (nonlinear_arith)
        requires
            1 <= q.page,
            1 <= q.page_size,
    {
    }
    (q.page - 1) * q.page_size
}

/// Number of pages: the total divided by the page size, rounded up.
pub fn total_pages(total_count: i64, page_size: i64) -> (n: i64)
    requires
        0 <= total_count,
        1 <= page_size,
    ensures
        n == (total_count as int + page_size as int - 1) / (page_size as int),
        n * page_size >= total_count,
        (n - 1) * page_size < total_count || n == 0,
{
    let q = total_count / page_size;
    let r = total_count % page_size;
    assert(r != 0 ==> q < i64::MAX) by (nonlinear_arith)
        requires
            0 <= total_count,
            1 <= page_size,
            q == total_count / page_size,
            r == total_count % page_size,
    {
        if r != 0 {
            assert(page_size > 1);
            assert(q * page_size <= total_count);
        }
    }
    let n = if r == 0 { q } else { q + 1 };
    proof {
        let ti = total_count as int;
        let pi = page_size as int;
        let ni = n as int;
        let qi = q as int;
        let ri = r as int;
        vstd::arithmetic::div_mod::lemma_fundamental_div_mod(ti, pi);
        assert(ti == pi * qi + ri);
        assert(pi * qi == qi * pi) by (nonlinear_arith);
        assert((ni - 1) * pi == ni * pi - pi) by (nonlinear_arith);
        if ri == 0 {
            vstd::arithmetic::div_mod::lemma_fundamental_div_mod_converse(ti + pi - 1, pi, qi, pi - 1);
            assert(ni * pi == qi * pi);
        } else {
            vstd::arithmetic::div_mod::lemma_fundamental_div_mod_converse(ti + pi - 1, pi, qi + 1, ri - 1);
            assert(ni * pi == qi * pi + pi) by (nonlinear_arith)
                requires ni == qi + 1;
        }
    }
    n
}

/// The filter of a listing as SQL conditions joined with `AND`, with the
/// positional parameters numbered from 2 in the order read status, kind,
/// severity; and the number of the next parameter.
pub open spec fn filter_conditions(q: NotificationQuery) -> (Seq<Seq<char>>, int) {
    let base = seq!["user_id = $1"@, "(expires_at IS NULL OR expires_at > NOW())"@];
    let (c1, i1) = if q.is_read is Some { (base.push("is_read = $"@ + crate::text::digits_of(2)), 3int) } else { (base, 2int) };
    let (c2, i2) = if q.notification_type is Some {
        (c1.push("notification_type = $"@ + crate::text::digits_of(i1 as nat)), i1 + 1)
    } else {
        (c1, i1)
    };
    let (c3, i3) = if q.severity is Some {
        (c2.push("severity = $"@ + crate::text::digits_of(i2 as nat)), i2 + 1)
    } else {
        (c2, i2)
    };
    (c3, i3)
}

/// Joins pieces with ` AND `.
pub open spec fn and_join(ps: Seq<Seq<char>>) -> Seq<char>
    decreases ps.len(),
{
    if ps.len() == 0 {
        Seq::empty()
    } else if ps.len() == 1 {
        ps[0]
    } else {
        and_join(ps.drop_last()) + " AND "@ + ps.last()
    }
}

fn numbered(prefix: &str, n: u64) -> (s: Vec<char>)
    ensures
        s@ == prefix@ + crate::text::digits_of(n as nat),
{
    let mut s = chars_of(prefix);
    crate::text::push_digits(&mut s, n);
    s
}

/// The listing's `WHERE` clause and the number of its next parameter.
pub fn filter_clause(q: &NotificationQuery) -> (r: (String, u64))
    ensures
        r.0@ == and_join(filter_conditions(*q).0),
        r.1 == filter_conditions(*q).1,
{
    let mut conds: Vec<Vec<char>> = Vec::new();
    conds.push(chars_of("user_id = $1"));
    conds.push(chars_of("(expires_at IS NULL OR expires_at > NOW())"));
    let mut idx: u64 = 2;
    if q.is_read.is_some() {
        conds.push(numbered("is_read = $", idx));
        idx = idx + 1;
    }
    if q.notification_type.is_some() {
        conds.push(numbered("notification_type = $", idx));
        idx = idx + 1;
    }
    if q.severity.is_some() {
        conds.push(numbered("severity = $", idx));
        idx = idx + 1;
    }
    assert(views(conds@) =~= filter_conditions(*q).0);
    let mut out: Vec<char> = Vec::new();
    let mut i: usize = 0;
    while i < conds.len()
        invariant
            i <= conds.len(),
            out@ == and_join(views(conds@).subrange(0, i as int)),
        decreases conds.len() - i,
    {
        let ghost pre = views(conds@).subrange(0, i as int);
        if i > 0 {
            append_chars(&mut out, &chars_of(" AND "));
        }
        append_chars(&mut out, &conds[i]);
        i = i + 1;
        proof {
            let cur = views(conds@).subrange(0, i as int);
            assert(cur.drop_last() =~= pre);
            assert(cur.last() == conds@[i - 1]@);
            if i == 1 {
                assert(out@ =~= cur[0]);
            } else {
                assert(out@ =~= and_join(pre) + " AND "@ + cur.last());
            }
        }
    }
    assert(views(conds@).subrange(0, conds.len() as int) =~= views(conds@));
    (string_of(&out), idx)
}

// =============================================================================
// Builder
// =============================================================================

/// Builds a creation request step by step.
#[derive(Debug)]
pub struct NotificationBuilder {
    pub user_id: u128,
    pub title: String,
    pub message: String,
    pub notification_type: NotificationType,
    pub severity: NotificationSeverity,
    pub action_url: Option<String>,
    pub metadata: Option<String>,
    pub expires_at: Option<i64>,
}

/// The instant `days` days after `now` (microseconds).
pub open spec fn expiry_after(now: i64, days: i64) -> int {
    now + days * MICROS_PER_DAY
}

/// The request with its expiry set `days` days after the clock reading
/// `now`, or unchanged when that instant is out of range.
pub open spec fn with_expiry_after(b: NotificationBuilder, days: i64, now: i64) -> NotificationBuilder {
    if i64::MIN <= expiry_after(now, days) <= i64::MAX {
        NotificationBuilder { expires_at: Some(expiry_after(now, days) as i64), ..b }
    } else {
        b
    }
}

impl NotificationBuilder {
    /// A request with informational severity and nothing optional.
    pub fn new(user_id: u128, title: &str, message: &str, notification_type: NotificationType) -> (b: NotificationBuilder)
        ensures
            b.user_id == user_id,
            b.title@ == title@,
            b.message@ == message@,
            b.notification_type == notification_type,
            b.severity == NotificationSeverity::Info,
            b.action_url is None,
            b.metadata is None,
            b.expires_at is None,
    {
        NotificationBuilder {
            user_id,
            title: String::from_str(title),
            message: String::from_str(message),
            notification_type,
            severity: NotificationSeverity::Info,
            action_url: None,
            metadata: None,
            expires_at: None,
        }
    }

    /// Sets the severity.
    pub fn severity(self, severity: NotificationSeverity) -> (b: NotificationBuilder)
        ensures
            b == (NotificationBuilder { severity, ..self }),
    {
        let mut b = self;
        b.severity = severity;
        b
    }

    /// Sets the action link.
    pub fn action_url(self, url: &str) -> (b: NotificationBuilder)
        ensures
            b.action_url matches Some(u) && u@ == url@,
            b == (NotificationBuilder { action_url: b.action_url, ..self }),
    {
        let mut b = self;
        b.action_url = Some(String::from_str(url));
        b
    }

    /// Sets the metadata (JSON text).
    pub fn metadata(self, metadata: String) -> (b: NotificationBuilder)
        ensures
            b == (NotificationBuilder { metadata: Some(metadata), ..self }),
    {
        let mut b = self;
        b.metadata = Some(metadata);
        b
    }

    /// Sets the expiry.
    pub fn expires_at(self, expires_at: i64) -> (b: NotificationBuilder)
        ensures
            b == (NotificationBuilder { expires_at: Some(expires_at), ..self }),
    {
        let mut b = self;
        b.expires_at = Some(expires_at);
        b
    }

    /// Sets the expiry `days` days after `now`.
    pub fn expires_in_days_at(self, days: i64, now: i64) -> (b: NotificationBuilder)
        requires
            i64::MIN <= now + days * MICROS_PER_DAY <= i64::MAX,
            -100_000_000 <= days <= 100_000_000,
        ensures
            b == (NotificationBuilder { expires_at: Some((now + days * MICROS_PER_DAY) as i64), ..self }),
    {
        let mut b = self;
        b.expires_at = Some(now + days * MICROS_PER_DAY);
        b
    }

    /// Sets the expiry `days` days from now.  When the clock reads so near
    /// the end of the range of instants that the expiry would not fit, the
    /// request is left as it was; that cannot happen for up to ten million
    /// days either way, since the clock stays within chrono's range.
    pub fn expires_in_days(self, days: i64) -> (b: NotificationBuilder)
        requires
            -100_000_000 <= days <= 100_000_000,
        ensures
            b == (NotificationBuilder { expires_at: b.expires_at, ..self }),
            exists|now: i64| b == #[trigger] with_expiry_after(self, days, now),
            -10_000_000 <= days <= 10_000_000 ==> exists|now: i64|
                i64::MIN <= #[trigger] expiry_after(now, days) <= i64::MAX
                && b.expires_at == Some(expiry_after(now, days) as i64),
    {
        let now = crate::clock::now_micros();
        let ghost before = self;
        let shift: i64 = days * MICROS_PER_DAY;
        if (shift >= 0 && now <= i64::MAX - shift) || (shift < 0 && now >= i64::MIN - shift) {
            assert(expiry_after(now, days) == now + days * MICROS_PER_DAY);
            let b = self.expires_in_days_at(days, now);
            assert(b == with_expiry_after(before, days, now));
            b
        } else {
            assert(self == with_expiry_after(before, days, now));
            self
        }
    }

    /// The creation request.
    pub fn build(self) -> (n: CreateNotification)
        ensures
            n == (CreateNotification {
                user_id: self.user_id,
                title: self.title,
                message: self.message,
                notification_type: self.notification_type,
                severity: self.severity,
                action_url: self.action_url,
                metadata: self.metadata,
                expires_at: self.expires_at,
            }),
    {
        CreateNotification {
            user_id: self.user_id,
            title: self.title,
            message: self.message,
            notification_type: self.notification_type,
            severity: self.severity,
            action_url: self.action_url,
            metadata: self.metadata,
            expires_at: self.expires_at,
        }
    }
}

/// Severity of an expiring-key notice: critical within three days, a
/// warning within seven, else informational.
pub fn api_key_expiry_severity(days_until_expiry: i64) -> (s: NotificationSeverity)
    ensures
        s == (if days_until_expiry <= 3 {
            NotificationSeverity::Critical
        } else if days_until_expiry <= 7 {
            NotificationSeverity::Warning
        } else {
            NotificationSeverity::Info
        }),
{
    if days_until_expiry <= 3 {
        NotificationSeverity::Critical
    } else if days_until_expiry <= 7 {
        NotificationSeverity::Warning
    } else {
        NotificationSeverity::Info
    }
}

/// Severity of a rate-limit summary: critical from a hundred hits, a
/// warning from fifty, else informational.
pub fn rate_limit_severity(hit_count: i64) -> (s: NotificationSeverity)
    ensures
        s == (if hit_count >= 100 {
            NotificationSeverity::Critical
        } else if hit_count >= 50 {
            NotificationSeverity::Warning
        } else {
            NotificationSeverity::Info
        }),
{
    if hit_count >= 100 {
        NotificationSeverity::Critical
    } else if hit_count >= 50 {
        NotificationSeverity::Warning
    } else {
        NotificationSeverity::Info
    }
}

// =============================================================================
// Daily tracking
// =============================================================================

/// Seconds a tracking key lives (25 hours).
pub const KEY_TTL_SECS: i64 = 90000;

/// The day of `now_secs` as `YYYYMMDD` (empty when chrono has no calendar
/// fields for it).
pub open spec fn date_text(now_secs: i64) -> Seq<char> {
    match calendar_of(now_secs) {
        Some(f) => pad_text(f.0 as int, 4) + pad_text(f.1 as int, 2) + pad_text(f.2 as int, 2),
        None => Seq::empty(),
    }
}

/// The day of `now_secs` as `YYYYMMDD`.
pub fn date_str_at(now_secs: i64) -> (s: String)
    ensures
        s@ == date_text(now_secs),
{
    match calendar_fields(now_secs) {
        Some(f) => {
            let mut out: Vec<char> = Vec::new();
            push_padded(&mut out, f.0 as i64, 4);
            push_padded(&mut out, f.1 as i64, 2);
            push_padded(&mut out, f.2 as i64, 2);
            string_of(&out)
        },
        None => String::new(),
    }
}

/// Keys and dates of the daily notification tracking.
pub struct NotificationEventTracker;

impl NotificationEventTracker {
    /// Today's date as `YYYYMMDD`.
    pub fn today_date_str() -> (s: String)
        ensures
            exists|t: i64| s@ == date_text(t),
    {
        let now = crate::clock::now_seconds();
        date_str_at(now)
    }

    /// Key of an API key's rate-limit hits on a day.
    pub fn rate_limit_key(api_key_id: u128, date: &str) -> (k: String)
        ensures
            k@ == key_text(seq!["notify"@, "rate_limit"@, uuid_text(api_key_id), date@]),
    {
        let mut parts: Vec<Vec<char>> = Vec::new();
        parts.push(chars_of("notify"));
        parts.push(chars_of("rate_limit"));
        parts.push(id_chars(api_key_id));
        parts.push(chars_of(date));
        assert(views(parts@) =~= seq!["notify"@, "rate_limit"@, uuid_text(api_key_id), date@]);
        cache_key(parts)
    }

    /// Key marking that a quota-exceeded notice was sent on a day.
    pub fn quota_exceeded_key(api_key_id: u128, date: &str) -> (k: String)
        ensures
            k@ == key_text(seq!["notify"@, "quota_exceeded"@, uuid_text(api_key_id), date@]),
    {
        let mut parts: Vec<Vec<char>> = Vec::new();
        parts.push(chars_of("notify"));
        parts.push(chars_of("quota_exceeded"));
        parts.push(id_chars(api_key_id));
        parts.push(chars_of(date));
        assert(views(parts@) =~= seq!["notify"@, "quota_exceeded"@, uuid_text(api_key_id), date@]);
        cache_key(parts)
    }

    /// Key marking that a quota warning at a threshold was sent on a day.
    pub fn quota_warning_key(api_key_id: u128, date: &str, threshold: u8) -> (k: String)
        ensures
            k@ == key_text(seq!["notify"@, "quota_warning"@, uuid_text(api_key_id), date@, crate::text::digits_of(threshold as nat)]),
    {
        let mut parts: Vec<Vec<char>> = Vec::new();
        parts.push(chars_of("notify"));
        parts.push(chars_of("quota_warning"));
        parts.push(id_chars(api_key_id));
        parts.push(chars_of(date));
        let mut t: Vec<char> = Vec::new();
        crate::text::push_digits(&mut t, threshold as u64);
        parts.push(t);
        assert(views(parts@) =~= seq!["notify"@, "quota_warning"@, uuid_text(api_key_id), date@, crate::text::digits_of(threshold as nat)]);
        cache_key(parts)
    }

    /// Whether a notice was already sent, from whether marking it now set
    /// the marker.
    pub fn already_sent(was_set: bool) -> (b: bool)
        ensures
            b == !was_set,
    {
        !was_set
    }

    /// The API key a tracking key names: its fourth `:`-separated piece,
    /// when that parses as an identifier.
    pub fn api_key_of(key: &str) -> (r: Option<u128>)
        ensures
            r == (if split_text(key@, ':').len() > 3 { uuid_parsed(split_text(key@, ':')[3]) } else { None::<u128> }),
    {
        let parts = split_chars(&chars_of(key), ':');
        if parts.len() > 3 {
            let p = string_of(&parts[3]);
            parse_uuid(p.as_str())
        } else {
            None
        }
    }
}

/// A quota-exceeded marker that is set but not yet marked sent.
pub fn quota_notice_pending(value: &Option<String>) -> (b: bool)
    ensures
        b == (value matches Some(v) && v@ == "1"@),
{
    match value {
        Some(v) => crate::text::chars_eq(&chars_of(v.as_str()), &chars_of("1")),
        None => false,
    }
}

/// Configuration of the notification job.
#[derive(Debug, Clone, Copy, PartialEq, Eq, Structural)]
pub struct NotificationJobConfig {
    /// Seconds between checks.
    pub check_interval_secs: u64,
    /// Hour of the day (UTC) from which the daily summary runs.
    pub daily_summary_hour: u32,
}

impl Default for NotificationJobConfig {
    fn default() -> (c: NotificationJobConfig)
        ensures
            c == (NotificationJobConfig { check_interval_secs: 3600, daily_summary_hour: 9 }),
    {
        NotificationJobConfig { check_interval_secs: 3600, daily_summary_hour: 9 }
    }
}

/// Whether the daily summary runs now: once the summary hour is reached, on
/// a day after the last run (or when it never ran).  Days are counted from
/// the epoch.
pub fn should_run_daily(last_daily_run: Option<i64>, today: i64, hour: u32, daily_summary_hour: u32) -> (b: bool)
    ensures
        b == (match last_daily_run {
            None => hour >= daily_summary_hour,
            Some(last) => last < today && hour >= daily_summary_hour,
        }),
{
    match last_daily_run {
        None => hour >= daily_summary_hour,
        Some(last) => last < today && hour >= daily_summary_hour,
    }
}

} // verus!
