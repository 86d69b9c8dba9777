//! Pricing plans, client subscriptions and revenue.
//!
//! Instants are microseconds since 1970-01-01T00:00:00 UTC.
use vstd::prelude::*;
use crate::error::VaultlessError;
use crate::text::{chars_of, string_of, chars_eq, parse_i64, i64_text, push_padded, pad_text};
use crate::ident::{uuid_text, uuid_parsed, parse_uuid, uuid_string, new_random_id};
use crate::clock::{rfc3339_text, rfc3339_instant, write_rfc3339, read_rfc3339, now_micros};

verus! {

/// How a plan charges.
#[derive(Debug, Clone, Copy, PartialEq, Eq, Structural)]
pub enum PricingMode {
    Postpaid,
    Prepaid,
    Free,
}

/// State of a client's subscription.
#[derive(Debug, Clone, Copy, PartialEq, Eq, Structural)]
pub enum SubscriptionStatus {
    Active,
    Paused,
    Cancelled,
}

/// State of a billing period.
#[derive(Debug, Clone, Copy, PartialEq, Eq, Structural)]
pub enum BillingPeriodStatus {
    Open,
    Closed,
    Invoiced,
}

/// State of an invoice.
#[derive(Debug, Clone, Copy, PartialEq, Eq, Structural)]
pub enum InvoiceStatus {
    Pending,
    Finalized,
    Paid,
    Failed,
}

/// A subscription status change.
#[derive(Debug, Clone, Copy, PartialEq, Eq, Structural)]
pub struct UpdateSubscriptionStatus {
    pub status: SubscriptionStatus,
}

/// Closing a billing period.
#[derive(Debug, Clone, Copy, PartialEq, Eq, Structural)]
pub struct CloseBillingPeriod {
    pub status: BillingPeriodStatus,
}

/// An invoice status change.
#[derive(Debug, Clone, Copy, PartialEq, Eq, Structural)]
pub struct UpdateInvoiceStatus {
    pub status: InvoiceStatus,
}

/// One page of items.
#[derive(Debug)]
pub struct Paginated<T> {
    pub items: Vec<T>,
    pub total_count: i64,
    pub page: i64,
    pub page_size: i64,
    pub total_pages: i64,
}

/// The prices frozen into a subscription.
#[derive(Debug)]
pub struct PricingSnapshot {
    pub id: u128,
    pub plan_id: u128,
    pub plan_name: String,
    pub pricing_mode: PricingMode,
    pub price_per_message_cents: Option<i64>,
    pub price_per_gb_cents: Option<i64>,
    pub price_per_proof_cents: Option<i64>,
    pub prepaid_amount_cents: Option<i64>,
    /// The platform fee as decimal text.
    pub platform_fee_percent: Option<String>,
    pub currency: Option<String>,
}

/// Revenue of a client, by source.
#[derive(Debug, Clone, Copy, PartialEq, Eq, Structural)]
pub struct RevenueSnapshot {
    pub message_revenue_cents: i64,
    pub storage_revenue_cents: i64,
    pub bandwidth_revenue_cents: i64,
    pub proof_revenue_cents: i64,
    pub total_revenue_cents: i64,
}

impl RevenueSnapshot {
    /// No revenue.
    pub fn zero() -> (r: RevenueSnapshot)
        ensures
            r == (RevenueSnapshot {
                message_revenue_cents: 0,
                storage_revenue_cents: 0,
                bandwidth_revenue_cents: 0,
                proof_revenue_cents: 0,
                total_revenue_cents: 0,
            }),
    {
        RevenueSnapshot {
            message_revenue_cents: 0,
            storage_revenue_cents: 0,
            bandwidth_revenue_cents: 0,
            proof_revenue_cents: 0,
            total_revenue_cents: 0,
        }
    }
}

/// Bytes in a gigabyte (2^30).
pub const BYTES_PER_GB: i64 = 1073741824;

/// `rate · base`, or zero without a rate.
pub open spec fn charge(rate: Option<i64>, base: int) -> int {
    match rate {
        Some(r) => base * r,
        None => 0,
    }
}

/// The revenue of a usage under a price list: messages sent and received at
/// the message price, whole gigabytes stored and whole gigabytes
/// transferred each at the gigabyte price, proofs at the proof price.
pub open spec fn revenue_of(sent: i64, received: i64, proofs: i64, stored: i64, bytes_sent: i64, bytes_received: i64,
    p: PricingSnapshot) -> RevenueSnapshot {
    let m = charge(p.price_per_message_cents, sent + received);
    let s = charge(p.price_per_gb_cents, crate::clock::trunc_div(stored as int, BYTES_PER_GB as int));
    let b = charge(p.price_per_gb_cents, crate::clock::trunc_div(bytes_sent + bytes_received, BYTES_PER_GB as int));
    let pr = charge(p.price_per_proof_cents, proofs as int);
    RevenueSnapshot {
        message_revenue_cents: m as i64,
        storage_revenue_cents: s as i64,
        bandwidth_revenue_cents: b as i64,
        proof_revenue_cents: pr as i64,
        total_revenue_cents: (m + s + b + pr) as i64,
    }
}

/// Every amount the revenue computation forms fits in `i64`.
pub open spec fn revenue_fits(sent: i64, received: i64, proofs: i64, stored: i64, bytes_sent: i64, bytes_received: i64,
    p: PricingSnapshot) -> bool {
    let m = charge(p.price_per_message_cents, sent + received);
    let s = charge(p.price_per_gb_cents, crate::clock::trunc_div(stored as int, BYTES_PER_GB as int));
    let b = charge(p.price_per_gb_cents, crate::clock::trunc_div(bytes_sent + bytes_received, BYTES_PER_GB as int));
    let pr = charge(p.price_per_proof_cents, proofs as int);
    &&& i64::MIN <= sent + received <= i64::MAX
    &&& i64::MIN <= bytes_sent + bytes_received <= i64::MAX
    &&& i64::MIN <= m <= i64::MAX
    &&& i64::MIN <= s <= i64::MAX
    &&& i64::MIN <= b <= i64::MAX
    &&& i64::MIN <= pr <= i64::MAX
    &&& i64::MIN <= m + s <= i64::MAX
    &&& i64::MIN <= m + s + b <= i64::MAX
    &&& i64::MIN <= m + s + b + pr <= i64::MAX
}

fn charge_exec(rate: Option<i64>, base: i64) -> (c: i64)
    requires
        i64::MIN <= charge(rate, base as int) <= i64::MAX,
    ensures
        c == charge(rate, base as int),
{
    match rate {
        Some(r) => base * r,
        None => 0,
    }
}

/// Law: the revenue of a usage is the sum of its four parts, and each part
/// is its quantity times its price (nothing without a price): messages sent
/// and received at the message price, whole gigabytes stored and whole
/// gigabytes moved at the gigabyte price, proofs at the proof price.
pub proof fn lemma_revenue_adds_up(sent: i64, received: i64, proofs: i64, stored: i64, bytes_sent: i64,
    bytes_received: i64, p: PricingSnapshot)
    requires
        revenue_fits(sent, received, proofs, stored, bytes_sent, bytes_received, p),
    ensures
        ({
            let r = revenue_of(sent, received, proofs, stored, bytes_sent, bytes_received, p);
            &&& r.total_revenue_cents == r.message_revenue_cents + r.storage_revenue_cents
                + r.bandwidth_revenue_cents + r.proof_revenue_cents
            &&& r.proof_revenue_cents == (match p.price_per_proof_cents {
                Some(c) => proofs * c,
                None => 0,
            })
            &&& r.message_revenue_cents == (match p.price_per_message_cents {
                Some(c) => (sent + received) * c,
                None => 0,
            })
            &&& r.storage_revenue_cents == (match p.price_per_gb_cents {
                Some(c) => (if stored >= 0 { stored as int / (BYTES_PER_GB as int) } else { -((-stored) / (BYTES_PER_GB as int)) }) * c,
                None => 0,
            })
            &&& r.bandwidth_revenue_cents == (match p.price_per_gb_cents {
                Some(c) => (if bytes_sent + bytes_received >= 0 { (bytes_sent + bytes_received) / (BYTES_PER_GB as int) }
                    else { -((-(bytes_sent + bytes_received)) / (BYTES_PER_GB as int)) }) * c,
                None => 0,
            })
        }),
{
}

/// The revenue of a usage under a price list.
pub fn calculate_revenue(messages_sent: i64, messages_received: i64, proofs_verified: i64, total_bytes_stored: i64,
    total_bytes_sent: i64, total_bytes_received: i64, pricing: &PricingSnapshot) -> (r: RevenueSnapshot)
    requires
        revenue_fits(messages_sent, messages_received, proofs_verified, total_bytes_stored, total_bytes_sent,
            total_bytes_received, *pricing),
    ensures
        r == revenue_of(messages_sent, messages_received, proofs_verified, total_bytes_stored, total_bytes_sent,
            total_bytes_received, *pricing),
{
    let total_messages = messages_sent + messages_received;
    let m = charge_exec(pricing.price_per_message_cents, total_messages);
    let gb_stored = total_bytes_stored / BYTES_PER_GB;
    assert(gb_stored == crate::clock::trunc_div(total_bytes_stored as int, BYTES_PER_GB as int));
    let s = charge_exec(pricing.price_per_gb_cents, gb_stored);
    let total_bytes = total_bytes_sent + total_bytes_received;
    let gb_moved = total_bytes / BYTES_PER_GB;
    assert(gb_moved == crate::clock::trunc_div(total_bytes as int, BYTES_PER_GB as int));
    let b = charge_exec(pricing.price_per_gb_cents, gb_moved);
    let pr = charge_exec(pricing.price_per_proof_cents, proofs_verified);
    RevenueSnapshot {
        message_revenue_cents: m,
        storage_revenue_cents: s,
        bandwidth_revenue_cents: b,
        proof_revenue_cents: pr,
        total_revenue_cents: m + s + b + pr,
    }
}

// =============================================================================
// Plans
// =============================================================================

/// A developer's pricing plan.
#[derive(Debug)]
pub struct PricingPlan {
    pub id: u128,
    pub developer_id: u128,
    pub name: String,
    pub pricing_mode: PricingMode,
    pub price_per_message_cents: Option<i64>,
    pub price_per_gb_cents: Option<i64>,
    pub price_per_proof_cents: Option<i64>,
    pub prepaid_amount_cents: Option<i64>,
    pub created_at: i64,
}

impl PricingPlan {
    /// The plan's prices frozen under the snapshot identifier `id`, in US
    /// dollars with no platform fee.
    pub fn to_snapshot_with_id(&self, id: u128) -> (s: PricingSnapshot)
        ensures
            s.id == id,
            s.plan_id == self.id,
            s.plan_name == self.name,
            s.pricing_mode == self.pricing_mode,
            s.price_per_message_cents == self.price_per_message_cents,
            s.price_per_gb_cents == self.price_per_gb_cents,
            s.price_per_proof_cents == self.price_per_proof_cents,
            s.prepaid_amount_cents == self.prepaid_amount_cents,
            s.platform_fee_percent is None,
            s.currency matches Some(c) && c@ == "USD"@,
    {
        PricingSnapshot {
            id,
            plan_id: self.id,
            plan_name: self.name.clone(),
            pricing_mode: self.pricing_mode,
            price_per_message_cents: self.price_per_message_cents,
            price_per_gb_cents: self.price_per_gb_cents,
            price_per_proof_cents: self.price_per_proof_cents,
            prepaid_amount_cents: self.prepaid_amount_cents,
            platform_fee_percent: None,
            currency: Some(String::from_str("USD")),
        }
    }

    /// The plan's prices frozen under a fresh snapshot identifier.
    pub fn to_snapshot(&self) -> (s: PricingSnapshot)
        ensures
            s.plan_id == self.id,
            s.plan_name == self.name,
            s.pricing_mode == self.pricing_mode,
            s.price_per_message_cents == self.price_per_message_cents,
            s.price_per_gb_cents == self.price_per_gb_cents,
            s.price_per_proof_cents == self.price_per_proof_cents,
            s.prepaid_amount_cents == self.prepaid_amount_cents,
            s.platform_fee_percent is None,
            s.currency matches Some(c) && c@ == "USD"@,
    {
        let id = new_random_id();
        self.to_snapshot_with_id(id)
    }
}

// =============================================================================
// Subscriptions and their cache entries
// =============================================================================

/// A client's subscription to an application's plan.
#[derive(Debug)]
pub struct ClientSubscription {
    pub id: u128,
    pub client_id: u128,
    pub application_id: u128,
    pub pricing_plan_id: u128,
    pub status: SubscriptionStatus,
    pub started_at: i64,
    pub ended_at: Option<i64>,
    pub pricing_snapshot: PricingSnapshot,
    pub created_at: i64,
}

impl ClientSubscription {
    /// Active and not ended.
    pub fn is_active(&self) -> (b: bool)
        ensures
            b == (self.status == SubscriptionStatus::Active && self.ended_at is None),
    {
        self.status == SubscriptionStatus::Active && self.ended_at.is_none()
    }

    /// Cancelled.
    pub fn is_cancelled(&self) -> (b: bool)
        ensures
            b == (self.status == SubscriptionStatus::Cancelled),
    {
        self.status == SubscriptionStatus::Cancelled
    }
}

/// What the cache keeps of an active subscription.
#[derive(Debug)]
pub struct ClientSubscriptionCacheEntry {
    pub id: u128,
    pub client_id: u128,
    pub application_id: u128,
    pub plan_id: u128,
    pub plan_name: String,
    pub pricing_mode: PricingMode,
    pub price_per_message_cents: Option<i64>,
    pub price_per_gb_cents: Option<i64>,
    pub price_per_proof_cents: Option<i64>,
    pub prepaid_amount_cents: Option<i64>,
    /// The platform fee as decimal text.
    pub platform_fee_percent: Option<String>,
    pub currency: Option<String>,
    pub is_active: bool,
    pub started_at: i64,
    pub ended_at: Option<i64>,
}

/// Seconds a cache entry lives.
pub const CACHE_ENTRY_TTL_SECONDS: i64 = 3600;

/// The name of a pricing mode in the cache.
pub open spec fn mode_text(m: PricingMode) -> Seq<char> {
    match m {
        PricingMode::Postpaid => "postpaid"@,
        PricingMode::Prepaid => "prepaid"@,
        PricingMode::Free => "free"@,
    }
}

/// The pricing mode a cached name denotes (anything unknown is free).
pub open spec fn mode_of_text(t: Seq<char>) -> PricingMode {
    if t == "postpaid"@ {
        PricingMode::Postpaid
    } else if t == "prepaid"@ {
        PricingMode::Prepaid
    } else {
        PricingMode::Free
    }
}

/// Optional text: the text, or empty.
pub open spec fn opt_text(o: Option<String>) -> Seq<char> {
    match o {
        Some(s) => s@,
        None => Seq::empty(),
    }
}

/// Optional number: its decimal text, or empty.
pub open spec fn opt_num_text(o: Option<i64>) -> Seq<char> {
    match o {
        Some(v) => pad_text(v as int, 0),
        None => Seq::empty(),
    }
}

/// The field names of a cache entry, in the order they are written.
pub open spec fn entry_field_names() -> Seq<Seq<char>> {
    seq!["id"@, "client_id"@, "application_id"@, "plan_id"@, "plan_name"@, "pricing_mode"@, "price_per_message"@,
        "price_per_gb"@, "price_per_proof"@, "prepaid_amount"@, "platform_fee_percent"@, "currency"@, "is_active"@,
        "started_at"@, "ended_at"@]
}

/// The values written for a cache entry, field by field.
pub open spec fn entry_field_values(e: ClientSubscriptionCacheEntry) -> Seq<Seq<char>> {
    seq![uuid_text(e.id), uuid_text(e.client_id), uuid_text(e.application_id), uuid_text(e.plan_id), e.plan_name@,
        mode_text(e.pricing_mode), opt_num_text(e.price_per_message_cents), opt_num_text(e.price_per_gb_cents),
        opt_num_text(e.price_per_proof_cents), opt_num_text(e.prepaid_amount_cents), opt_text(e.platform_fee_percent),
        opt_text(e.currency), if e.is_active { "1"@ } else { "0"@ }, rfc3339_text(e.started_at),
        match e.ended_at { Some(t) => rfc3339_text(t), None => Seq::empty() }]
}

fn opt_num_string(o: Option<i64>) -> (s: String)
    ensures
        s@ == opt_num_text(o),
{
    match o {
        Some(v) => {
            let mut out: Vec<char> = Vec::new();
            push_padded(&mut out, v, 0);
            string_of(&out)
        },
        None => String::new(),
    }
}

fn opt_string(o: &Option<String>) -> (s: String)
    ensures
        s@ == opt_text(*o),
{
    match o {
        Some(x) => x.clone(),
        None => String::new(),
    }
}

impl ClientSubscriptionCacheEntry {
    /// The arguments of the hash write: each field name followed by its
    /// value.
    pub fn to_redis_args(&self) -> (args: Vec<String>)
        ensures
            args@.len() == 30,
            forall|i: int| 0 <= i < 15 ==> (#[trigger] args@[2 * i])@ == entry_field_names()[i]
                && args@[2 * i + 1]@ == entry_field_values(*self)[i],
    {
        let mut args: Vec<String> = Vec::new();
        args.push(String::from_str("id"));
        args.push(uuid_string(self.id));
        args.push(String::from_str("client_id"));
        args.push(uuid_string(self.client_id));
        args.push(String::from_str("application_id"));
        args.push(uuid_string(self.application_id));
        args.push(String::from_str("plan_id"));
        args.push(uuid_string(self.plan_id));
        args.push(String::from_str("plan_name"));
        args.push(self.plan_name.clone());
        args.push(String::from_str("pricing_mode"));
        args.push(match self.pricing_mode {
            PricingMode::Postpaid => String::from_str("postpaid"),
            PricingMode::Prepaid => String::from_str("prepaid"),
            PricingMode::Free => String::from_str("free"),
        });
        args.push(String::from_str("price_per_message"));
        args.push(opt_num_string(self.price_per_message_cents));
        args.push(String::from_str("price_per_gb"));
        args.push(opt_num_string(self.price_per_gb_cents));
        args.push(String::from_str("price_per_proof"));
        args.push(opt_num_string(self.price_per_proof_cents));
        args.push(String::from_str("prepaid_amount"));
        args.push(opt_num_string(self.prepaid_amount_cents));
        args.push(String::from_str("platform_fee_percent"));
        args.push(opt_string(&self.platform_fee_percent));
        args.push(String::from_str("currency"));
        args.push(opt_string(&self.currency));
        args.push(String::from_str("is_active"));
        args.push(if self.is_active { String::from_str("1") } else { String::from_str("0") });
        args.push(String::from_str("started_at"));
        args.push(write_rfc3339(self.started_at));
        args.push(String::from_str("ended_at"));
        args.push(match self.ended_at {
            Some(t) => write_rfc3339(t),
            None => String::new(),
        });
        proof {
            assert forall|i: int| 0 <= i < 15 implies (#[trigger] args@[2 * i])@ == entry_field_names()[i]
                && args@[2 * i + 1]@ == entry_field_values(*self)[i] by {
            }
        }
        args
    }
}

/// The value of field `name` in a hash read as a list of pairs: the last
/// pair with that name (a hash holds each name at most once).
pub open spec fn field_text(vals: Seq<(Seq<char>, Seq<char>)>, name: Seq<char>) -> Option<Seq<char>>
    decreases vals.len(),
{
    if vals.len() == 0 {
        None
    } else if vals.last().0 == name {
        Some(vals.last().1)
    } else {
        field_text(vals.drop_last(), name)
    }
}

/// The pairs of a hash read back, as texts.
pub open spec fn pairs_view(vals: Seq<(String, String)>) -> Seq<(Seq<char>, Seq<char>)> {
    vals.map_values(|p: (String, String)| (p.0@, p.1@))
}

/// A cache entry with its texts as character sequences.
pub struct EntryView {
    pub id: u128,
    pub client_id: u128,
    pub application_id: u128,
    pub plan_id: u128,
    pub plan_name: Seq<char>,
    pub pricing_mode: PricingMode,
    pub price_per_message_cents: Option<i64>,
    pub price_per_gb_cents: Option<i64>,
    pub price_per_proof_cents: Option<i64>,
    pub prepaid_amount_cents: Option<i64>,
    pub platform_fee_percent: Option<Seq<char>>,
    pub currency: Option<Seq<char>>,
    pub is_active: bool,
    pub started_at: i64,
    pub ended_at: Option<i64>,
}

/// The entry of an active subscription, as texts.
pub open spec fn subscription_entry(s: ClientSubscription) -> EntryView {
    EntryView {
        id: s.id,
        client_id: s.client_id,
        application_id: s.application_id,
        plan_id: s.pricing_snapshot.plan_id,
        plan_name: s.pricing_snapshot.plan_name@,
        pricing_mode: s.pricing_snapshot.pricing_mode,
        price_per_message_cents: s.pricing_snapshot.price_per_message_cents,
        price_per_gb_cents: s.pricing_snapshot.price_per_gb_cents,
        price_per_proof_cents: s.pricing_snapshot.price_per_proof_cents,
        prepaid_amount_cents: s.pricing_snapshot.prepaid_amount_cents,
        platform_fee_percent: match s.pricing_snapshot.platform_fee_percent { Some(f) => Some(f@), None => None },
        currency: match s.pricing_snapshot.currency { Some(c) => Some(c@), None => None },
        is_active: true,
        started_at: s.started_at,
        ended_at: s.ended_at,
    }
}

/// A subscription is not cached at `now`: it is not active, or has an end
/// at or after `now`.
pub open spec fn refused_at(s: ClientSubscription, now: i64) -> bool {
    s.status != SubscriptionStatus::Active || (s.ended_at matches Some(t) && t >= now)
}

/// The entry as texts.
pub open spec fn entry_view(e: ClientSubscriptionCacheEntry) -> EntryView {
    EntryView {
        id: e.id,
        client_id: e.client_id,
        application_id: e.application_id,
        plan_id: e.plan_id,
        plan_name: e.plan_name@,
        pricing_mode: e.pricing_mode,
        price_per_message_cents: e.price_per_message_cents,
        price_per_gb_cents: e.price_per_gb_cents,
        price_per_proof_cents: e.price_per_proof_cents,
        prepaid_amount_cents: e.prepaid_amount_cents,
        platform_fee_percent: match e.platform_fee_percent { Some(f) => Some(f@), None => None },
        currency: match e.currency { Some(c) => Some(c@), None => None },
        is_active: e.is_active,
        started_at: e.started_at,
        ended_at: e.ended_at,
    }
}

/// Whether `rust_decimal` reads the text as a decimal number.
pub uninterp spec fn decimal_readable(t: Seq<char>) -> bool;

/// Does `Decimal::from_str` accept the text?
///
/// Calls `rust_decimal::Decimal::from_str(t).is_ok()`; the contract names
/// the answer.
#[verifier::external_body]
pub(crate) fn decimal_text_ok(t: &str) -> (b: bool)
    ensures
        b == decimal_readable(t@),
        t@.len() == 0 ==> !b,
{
    <rust_decimal::Decimal as core::str::FromStr>::from_str(t).is_ok()
}

/// An optional number read from optional text.
pub open spec fn num_of(t: Option<Seq<char>>) -> Option<i64> {
    match t {
        Some(x) => i64_text(x),
        None => None,
    }
}

/// What `from_redis` reads from a hash, with `now` standing for an
/// unreadable start instant: `None` when an identifier, the plan name or the
/// start is missing or an identifier does not parse.
pub open spec fn entry_from_view(v: Seq<(Seq<char>, Seq<char>)>, now: i64) -> Option<EntryView> {
    match (field_text(v, "id"@), field_text(v, "client_id"@), field_text(v, "application_id"@), field_text(v, "plan_id"@)) {
        (Some(a), Some(b), Some(c), Some(d)) => match (uuid_parsed(a), uuid_parsed(b), uuid_parsed(c), uuid_parsed(d)) {
            (Some(id), Some(client_id), Some(application_id), Some(plan_id)) => match field_text(v, "plan_name"@) {
                None => None,
                Some(plan_name) => match field_text(v, "started_at"@) {
                    None => None,
                    Some(st) => Some(EntryView {
                        id,
                        client_id,
                        application_id,
                        plan_id,
                        plan_name,
                        pricing_mode: match field_text(v, "pricing_mode"@) { Some(m) => mode_of_text(m), None => PricingMode::Free },
                        price_per_message_cents: num_of(field_text(v, "price_per_message"@)),
                        price_per_gb_cents: num_of(field_text(v, "price_per_gb"@)),
                        price_per_proof_cents: num_of(field_text(v, "price_per_proof"@)),
                        prepaid_amount_cents: num_of(field_text(v, "prepaid_amount"@)),
                        platform_fee_percent: match field_text(v, "platform_fee_percent"@) {
                            Some(f) => if decimal_readable(f) { Some(f) } else { None },
                            None => None,
                        },
                        currency: field_text(v, "currency"@),
                        is_active: field_text(v, "is_active"@) == Some("1"@),
                        started_at: match rfc3339_instant(st) { Some(t) => t, None => now },
                        ended_at: match field_text(v, "ended_at"@) { Some(e) => rfc3339_instant(e), None => None },
                    }),
                },
            },
            _ => None,
        },
        _ => None,
    }
}

fn field_lookup(vals: &Vec<(String, String)>, name: &str) -> (r: Option<String>)
    ensures
        match r {
            Some(s) => field_text(pairs_view(vals@), name@) == Some(s@),
            None => field_text(pairs_view(vals@), name@) is None,
        },
{
    let target = chars_of(name);
    let mut i: usize = vals.len();
    assert(pairs_view(vals@).subrange(0, i as int) =~= pairs_view(vals@));
    while i > 0
        invariant
            i <= vals.len(),
            target@ == name@,
            field_text(pairs_view(vals@), name@) == field_text(pairs_view(vals@).subrange(0, i as int), name@),
        decreases i,
    {
        assert(pairs_view(vals@).subrange(0, i as int).drop_last() =~= pairs_view(vals@).subrange(0, i - 1));
        let p = &vals[i - 1];
        if chars_eq(&chars_of(p.0.as_str()), &target) {
            return Some(p.1.clone());
        }
        i = i - 1;
    }
    None
}

fn uuid_field(vals: &Vec<(String, String)>, name: &str) -> (r: Option<u128>)
    ensures
        r == (match field_text(pairs_view(vals@), name@) { Some(t) => uuid_parsed(t), None => None }),
{
    match field_lookup(vals, name) {
        Some(t) => parse_uuid(t.as_str()),
        None => None,
    }
}

fn num_field(vals: &Vec<(String, String)>, name: &str) -> (r: Option<i64>)
    ensures
        r == num_of(field_text(pairs_view(vals@), name@)),
{
    match field_lookup(vals, name) {
        Some(t) => parse_i64(&chars_of(t.as_str())),
        None => None,
    }
}

impl ClientSubscriptionCacheEntry {
    /// Reads an entry from its hash, taking `now` for an unreadable start.
    pub fn from_redis_at(vals: &Vec<(String, String)>, now: i64) -> (r: Option<ClientSubscriptionCacheEntry>)
        ensures
            match r {
                Some(e) => entry_from_view(pairs_view(vals@), now) == Some(entry_view(e)),
                None => entry_from_view(pairs_view(vals@), now) is None,
            },
    {
        let id = uuid_field(vals, "id")?;
        let client_id = uuid_field(vals, "client_id")?;
        let application_id = uuid_field(vals, "application_id")?;
        let plan_id = uuid_field(vals, "plan_id")?;
        let plan_name = field_lookup(vals, "plan_name")?;
        let started = field_lookup(vals, "started_at")?;
        let pricing_mode = match field_lookup(vals, "pricing_mode") {
            Some(m) => {
                let mc = chars_of(m.as_str());
                if chars_eq(&mc, &chars_of("postpaid")) {
                    PricingMode::Postpaid
                } else if chars_eq(&mc, &chars_of("prepaid")) {
                    PricingMode::Prepaid
                } else {
                    PricingMode::Free
                }
            },
            None => PricingMode::Free,
        };
        let platform_fee_percent = match field_lookup(vals, "platform_fee_percent") {
            Some(f) => if decimal_text_ok(f.as_str()) { Some(f) } else { None },
            None => None,
        };
        let is_active = match field_lookup(vals, "is_active") {
            Some(a) => chars_eq(&chars_of(a.as_str()), &chars_of("1")),
            None => false,
        };
        let started_at = match read_rfc3339(started.as_str()) {
            Some(t) => t,
            None => now,
        };
        let ended_at = match field_lookup(vals, "ended_at") {
            Some(e) => read_rfc3339(e.as_str()),
            None => None,
        };
        let e = ClientSubscriptionCacheEntry {
            id,
            client_id,
            application_id,
            plan_id,
            plan_name,
            pricing_mode,
            price_per_message_cents: num_field(vals, "price_per_message"),
            price_per_gb_cents: num_field(vals, "price_per_gb"),
            price_per_proof_cents: num_field(vals, "price_per_proof"),
            prepaid_amount_cents: num_field(vals, "prepaid_amount"),
            platform_fee_percent,
            currency: field_lookup(vals, "currency"),
            is_active,
            started_at,
            ended_at,
        };
        proof {
            reveal_strlit("postpaid");
            reveal_strlit("prepaid");
            reveal_strlit("1");
        }
        assert(entry_from_view(pairs_view(vals@), now) == Some(entry_view(e)));
        Some(e)
    }

    /// Reads an entry from its hash (an unreadable start reads as now).
    pub fn from_redis(vals: &Vec<(String, String)>) -> (r: Option<ClientSubscriptionCacheEntry>)
        ensures
            exists|t: i64| match r {
                Some(e) => entry_from_view(pairs_view(vals@), t) == Some(entry_view(e)),
                None => entry_from_view(pairs_view(vals@), t) is None,
            },
    {
        let now = now_micros();
        ClientSubscriptionCacheEntry::from_redis_at(vals, now)
    }

    /// The entry cached for a subscription at `now`: none when it has an
    /// end at or after now, or when it is not active.
    pub fn from_subscription_at(subscription: &ClientSubscription, now: i64) -> (r: Option<ClientSubscriptionCacheEntry>)
        ensures
            (subscription.ended_at matches Some(t) && t >= now) ==> r is None,
            subscription.status != SubscriptionStatus::Active ==> r is None,
            !(subscription.ended_at matches Some(t) && t >= now) && subscription.status == SubscriptionStatus::Active
                ==> (r matches Some(e) && entry_view(e) == (EntryView {
                    id: subscription.id,
                    client_id: subscription.client_id,
                    application_id: subscription.application_id,
                    plan_id: subscription.pricing_snapshot.plan_id,
                    plan_name: subscription.pricing_snapshot.plan_name@,
                    pricing_mode: subscription.pricing_snapshot.pricing_mode,
                    price_per_message_cents: subscription.pricing_snapshot.price_per_message_cents,
                    price_per_gb_cents: subscription.pricing_snapshot.price_per_gb_cents,
                    price_per_proof_cents: subscription.pricing_snapshot.price_per_proof_cents,
                    prepaid_amount_cents: subscription.pricing_snapshot.prepaid_amount_cents,
                    platform_fee_percent: match subscription.pricing_snapshot.platform_fee_percent { Some(f) => Some(f@), None => None },
                    currency: match subscription.pricing_snapshot.currency { Some(c) => Some(c@), None => None },
                    is_active: true,
                    started_at: subscription.started_at,
                    ended_at: subscription.ended_at,
                })),
    {
        match subscription.ended_at {
            Some(t) => {
                if t >= now {
                    return None;
                }
            },
            None => {},
        }
        if subscription.status != SubscriptionStatus::Active {
            return None;
        }
        let snap = &subscription.pricing_snapshot;
        Some(ClientSubscriptionCacheEntry {
            id: subscription.id,
            client_id: subscription.client_id,
            application_id: subscription.application_id,
            plan_id: snap.plan_id,
            plan_name: snap.plan_name.clone(),
            pricing_mode: snap.pricing_mode,
            price_per_message_cents: snap.price_per_message_cents,
            price_per_gb_cents: snap.price_per_gb_cents,
            price_per_proof_cents: snap.price_per_proof_cents,
            prepaid_amount_cents: snap.prepaid_amount_cents,
            platform_fee_percent: opt_copy(&snap.platform_fee_percent),
            currency: opt_copy(&snap.currency),
            is_active: true,
            started_at: subscription.started_at,
            ended_at: subscription.ended_at,
        })
    }

    /// The entry cached for a subscription now: none when it is not active
    /// or has an end at or after the clock's reading, else its entry.
    pub fn from_subscription(subscription: &ClientSubscription) -> (r: Option<ClientSubscriptionCacheEntry>)
        ensures
            subscription.status != SubscriptionStatus::Active ==> r is None,
            subscription.status == SubscriptionStatus::Active && subscription.ended_at is None
                ==> (r matches Some(e) && entry_view(e) == subscription_entry(*subscription)),
            subscription.ended_at == Some(i64::MAX) ==> r is None,
            r matches Some(e) ==> entry_view(e) == subscription_entry(*subscription),
            exists|now: i64| #[trigger] refused_at(*subscription, now) == (r is None),
    {
        let now = now_micros();
        let r = ClientSubscriptionCacheEntry::from_subscription_at(subscription, now);
        assert(refused_at(*subscription, now) == (r is None));
        r
    }
}

fn opt_copy(o: &Option<String>) -> (r: Option<String>)
    ensures
        r == *o,
{
    match o {
        Some(s) => Some(s.clone()),
        None => None,
    }
}

/// The pairs `to_redis_args` writes, as texts.
pub open spec fn written_pairs(e: ClientSubscriptionCacheEntry) -> Seq<(Seq<char>, Seq<char>)> {
    Seq::new(15, |i: int| (entry_field_names()[i], entry_field_values(e)[i]))
}

proof fn lemma_field_names_distinct()
    ensures
        forall|i: int, j: int| 0 <= i < 15 && 0 <= j < 15 && i != j ==> entry_field_names()[i] != entry_field_names()[j],
{
    reveal_strlit("id");
    reveal_strlit("client_id");
    reveal_strlit("application_id");
    reveal_strlit("plan_id");
    reveal_strlit("plan_name");
    reveal_strlit("pricing_mode");
    reveal_strlit("price_per_message");
    reveal_strlit("price_per_gb");
    reveal_strlit("price_per_proof");
    reveal_strlit("prepaid_amount");
    reveal_strlit("platform_fee_percent");
    reveal_strlit("currency");
    reveal_strlit("is_active");
    reveal_strlit("started_at");
    reveal_strlit("ended_at");
    let n = entry_field_names();
    assert forall|i: int, j: int| 0 <= i < 15 && 0 <= j < 15 && i != j implies n[i] != n[j] by {
        if n[i] == n[j] {
            assert(n[i].len() == n[j].len());
            assert(n[i][0] == n[j][0]);
            assert(n[i][n[i].len() - 1] == n[j][n[j].len() - 1]);
            if n[i].len() > 5 {
                assert(n[i][5] == n[j][5]);
            }
        }
    }
}

proof fn lemma_field_text_distinct(v: Seq<(Seq<char>, Seq<char>)>, k: int)
    requires
        0 <= k < v.len(),
        forall|i: int, j: int| 0 <= i < v.len() && 0 <= j < v.len() && i != j ==> v[i].0 != v[j].0,
    ensures
        field_text(v, v[k].0) == Some(v[k].1),
    decreases v.len(),
{
    if k < v.len() - 1 {
        let w = v.drop_last();
        assert forall|i: int, j: int| 0 <= i < w.len() && 0 <= j < w.len() && i != j implies w[i].0 != w[j].0 by {
            assert(w[i] == v[i] && w[j] == v[j]);
        }
        lemma_field_text_distinct(w, k);
        assert(v.last().0 != v[k].0);
    }
}

/// Law: reading back the hash written for a cache entry gives the entry.
///
/// Stated for an entry with a currency (an absent currency is written as
/// empty text and reads back as an empty currency) and a readable fee,
/// given that `parse_uuid` reads identifiers' texts back and `read_rfc3339`
/// reads the written instants back.
pub proof fn lemma_cache_entry_round_trip(e: ClientSubscriptionCacheEntry, now: i64)
    requires
        e.currency is Some,
        e.platform_fee_percent matches Some(f) ==> decimal_readable(f@),
        uuid_parsed(uuid_text(e.id)) == Some(e.id),
        uuid_parsed(uuid_text(e.client_id)) == Some(e.client_id),
        uuid_parsed(uuid_text(e.application_id)) == Some(e.application_id),
        uuid_parsed(uuid_text(e.plan_id)) == Some(e.plan_id),
        rfc3339_instant(rfc3339_text(e.started_at)) == Some(e.started_at),
        e.ended_at matches Some(t) ==> rfc3339_instant(rfc3339_text(t)) == Some(t),
        rfc3339_instant(Seq::<char>::empty()) is None,
        !decimal_readable(Seq::<char>::empty()),
    ensures
        entry_from_view(written_pairs(e), now) == Some(entry_view(e)),
{
    let v = written_pairs(e);
    lemma_field_names_distinct();
    assert forall|i: int, j: int| 0 <= i < v.len() && 0 <= j < v.len() && i != j implies v[i].0 != v[j].0 by {}
    assert forall|k: int| 0 <= k < 15 implies field_text(v, #[trigger] entry_field_names()[k]) == Some(entry_field_values(e)[k]) by {
        lemma_field_text_distinct(v, k);
    }
    reveal_strlit("postpaid");
    reveal_strlit("prepaid");
    reveal_strlit("free");
    reveal_strlit("1");
    reveal_strlit("0");
    assert("postpaid"@.len() == 8 && "prepaid"@.len() == 7 && "free"@.len() == 4);
    assert("0"@[0] == '0' && "1"@[0] == '1' && "0"@ != "1"@);
    assert(mode_of_text(mode_text(e.pricing_mode)) == e.pricing_mode);
    assert forall|o: Option<i64>| num_of(Some(#[trigger] opt_num_text(o))) == o || o is None by {
        if let Some(x) = o {
            crate::text::lemma_pad_text_signed(x as int, 0);
        }
    }
    assert(num_of(Some(opt_num_text(e.price_per_message_cents))) == e.price_per_message_cents);
    assert(num_of(Some(opt_num_text(e.price_per_gb_cents))) == e.price_per_gb_cents);
    assert(num_of(Some(opt_num_text(e.price_per_proof_cents))) == e.price_per_proof_cents);
    assert(num_of(Some(opt_num_text(e.prepaid_amount_cents))) == e.prepaid_amount_cents);
    let names = entry_field_names();
    let vals = entry_field_values(e);
    assert(field_text(v, "id"@) == Some(vals[0]));
    assert(field_text(v, "client_id"@) == Some(vals[1]));
    assert(field_text(v, "application_id"@) == Some(vals[2]));
    assert(field_text(v, "plan_id"@) == Some(vals[3]));
    assert(field_text(v, "plan_name"@) == Some(vals[4]));
    assert(field_text(v, "pricing_mode"@) == Some(vals[5]));
    assert(field_text(v, "price_per_message"@) == Some(vals[6]));
    assert(field_text(v, "price_per_gb"@) == Some(vals[7]));
    assert(field_text(v, "price_per_proof"@) == Some(vals[8]));
    assert(field_text(v, "prepaid_amount"@) == Some(vals[9]));
    assert(field_text(v, "platform_fee_percent"@) == Some(vals[10]));
    assert(field_text(v, "currency"@) == Some(vals[11]));
    assert(field_text(v, "is_active"@) == Some(vals[12]));
    assert(field_text(v, "started_at"@) == Some(vals[13]));
    assert(field_text(v, "ended_at"@) == Some(vals[14]));
    let got = entry_from_view(v, now);
    assert(got is Some);
    let g = got->0;
    let w = entry_view(e);
    assert(g.id == w.id);
    assert(g.plan_name == w.plan_name);
    assert(g.pricing_mode == w.pricing_mode);
    assert(g.price_per_message_cents == w.price_per_message_cents);
    assert(g.platform_fee_percent == w.platform_fee_percent);
    assert(g.currency == w.currency);
    assert(g.is_active == w.is_active);
    assert(g.started_at == w.started_at);
    assert(g.ended_at == w.ended_at);
}


/// A cached entry is trusted when it says active and its end, if any, lies
/// before `now`.
pub open spec fn cache_entry_usable(e: ClientSubscriptionCacheEntry, now: i64) -> bool {
    e.is_active && match e.ended_at {
        Some(t) => t < now,
        None => true,
    }
}

impl ClientSubscriptionCacheEntry {
    /// The subscription a cached entry stands for at `now`, with the given
    /// snapshot identifier; none when the entry is not to be trusted (the
    /// cache then answers that there is no active subscription).
    pub fn subscription_at(self, now: i64, snapshot_id: u128) -> (r: Option<ClientSubscription>)
        ensures
            !cache_entry_usable(self, now) ==> r is None,
            cache_entry_usable(self, now) ==> (r matches Some(s) && {
                &&& s.id == self.id
                &&& s.client_id == self.client_id
                &&& s.application_id == self.application_id
                &&& s.pricing_plan_id == self.plan_id
                &&& s.status == SubscriptionStatus::Active
                &&& s.started_at == self.started_at
                &&& s.ended_at == self.ended_at
                &&& s.created_at == now
                &&& s.pricing_snapshot.id == snapshot_id
                &&& s.pricing_snapshot.plan_id == self.plan_id
                &&& s.pricing_snapshot.plan_name == self.plan_name
                &&& s.pricing_snapshot.pricing_mode == self.pricing_mode
                &&& s.pricing_snapshot.price_per_message_cents == self.price_per_message_cents
                &&& s.pricing_snapshot.price_per_gb_cents == self.price_per_gb_cents
                &&& s.pricing_snapshot.price_per_proof_cents == self.price_per_proof_cents
                &&& s.pricing_snapshot.prepaid_amount_cents == self.prepaid_amount_cents
                &&& s.pricing_snapshot.platform_fee_percent == self.platform_fee_percent
                &&& s.pricing_snapshot.currency == self.currency
            }),
    {
        let usable = self.is_active && match self.ended_at {
            Some(t) => t < now,
            None => true,
        };
        if !usable {
            return None;
        }
        Some(ClientSubscription {
            id: self.id,
            client_id: self.client_id,
            application_id: self.application_id,
            pricing_plan_id: self.plan_id,
            status: SubscriptionStatus::Active,
            started_at: self.started_at,
            ended_at: self.ended_at,
            pricing_snapshot: PricingSnapshot {
                id: snapshot_id,
                plan_id: self.plan_id,
                plan_name: self.plan_name,
                pricing_mode: self.pricing_mode,
                price_per_message_cents: self.price_per_message_cents,
                price_per_gb_cents: self.price_per_gb_cents,
                price_per_proof_cents: self.price_per_proof_cents,
                prepaid_amount_cents: self.prepaid_amount_cents,
                platform_fee_percent: self.platform_fee_percent,
                currency: self.currency,
            },
            created_at: now,
        })
    }

    /// The subscription a cached entry stands for now, under a fresh
    /// snapshot identifier.
    pub fn subscription(self) -> (r: Option<ClientSubscription>)
        ensures
            exists|now: i64| #[trigger] cache_entry_usable(self, now) == (r is Some),
            r matches Some(s) ==> {
                &&& s.id == self.id
                &&& s.client_id == self.client_id
                &&& s.application_id == self.application_id
                &&& s.pricing_plan_id == self.plan_id
                &&& s.status == SubscriptionStatus::Active
                &&& s.pricing_snapshot.plan_name == self.plan_name
            },
    {
        let now = now_micros();
        let id = new_random_id();
        self.subscription_at(now, id)
    }
}


// =============================================================================
// Plans attached to applications
// =============================================================================

/// A plan attached to an application.
#[derive(Debug, Clone, Copy, PartialEq, Eq, Structural)]
pub struct ApplicationPricingPlan {
    pub application_id: u128,
    pub pricing_plan_id: u128,
    pub is_default: bool,
    pub attached_at: i64,
}

/// One row of an application's attached plans joined with the plans.
#[derive(Debug)]
pub struct AppPlanRow {
    pub application_id: u128,
    pub pricing_plan_id: u128,
    pub is_default: bool,
    pub attached_at: i64,
    pub plan_id: u128,
    pub developer_id: u128,
    pub name: String,
    pub plan_pricing_mode: PricingMode,
    pub price_per_message_cents: Option<i64>,
    pub price_per_gb_cents: Option<i64>,
    pub price_per_proof_cents: Option<i64>,
    pub prepaid_amount_cents: Option<i64>,
    pub plan_created_at: i64,
}

/// The attachment and the plan a joined row holds.
pub open spec fn row_parts(r: AppPlanRow, a: ApplicationPricingPlan, p: PricingPlan) -> bool {
    &&& a == (ApplicationPricingPlan {
        application_id: r.application_id,
        pricing_plan_id: r.pricing_plan_id,
        is_default: r.is_default,
        attached_at: r.attached_at,
    })
    &&& p.id == r.plan_id
    &&& p.developer_id == r.developer_id
    &&& p.name == r.name
    &&& p.pricing_mode == r.plan_pricing_mode
    &&& p.price_per_message_cents == r.price_per_message_cents
    &&& p.price_per_gb_cents == r.price_per_gb_cents
    &&& p.price_per_proof_cents == r.price_per_proof_cents
    &&& p.prepaid_amount_cents == r.prepaid_amount_cents
    &&& p.created_at == r.plan_created_at
}

/// Splits the joined rows into attachments and plans, in order.
pub fn split_plan_rows(rows: Vec<AppPlanRow>) -> (r: Vec<(ApplicationPricingPlan, PricingPlan)>)
    ensures
        r@.len() == rows@.len(),
        forall|i: int| 0 <= i < rows@.len() ==> #[trigger] row_parts(rows@[i], r@[i].0, r@[i].1),
{
    let mut out: Vec<(ApplicationPricingPlan, PricingPlan)> = Vec::new();
    let mut i: usize = 0;
    let n = rows.len();
    let ghost t = rows@;
    let mut rest = rows;
    while i < n
        invariant
            i <= n,
            n == t.len(),
            rest@ == t.subrange(i as int, n as int),
            out@.len() == i,
            forall|j: int| 0 <= j < i ==> #[trigger] row_parts(t[j], out@[j].0, out@[j].1),
        decreases n - i,
    {
        let row = rest.remove(0);
        assert(row == t[i as int]);
        let a = ApplicationPricingPlan {
            application_id: row.application_id,
            pricing_plan_id: row.pricing_plan_id,
            is_default: row.is_default,
            attached_at: row.attached_at,
        };
        let p = PricingPlan {
            id: row.plan_id,
            developer_id: row.developer_id,
            name: row.name,
            pricing_mode: row.plan_pricing_mode,
            price_per_message_cents: row.price_per_message_cents,
            price_per_gb_cents: row.price_per_gb_cents,
            price_per_proof_cents: row.price_per_proof_cents,
            prepaid_amount_cents: row.prepaid_amount_cents,
            created_at: row.plan_created_at,
        };
        let ghost before = out@;
        out.push((a, p));
        proof {
            assert forall|j: int| 0 <= j < i + 1 implies #[trigger] row_parts(t[j], out@[j].0, out@[j].1) by {
                if j < i {
                    assert(out@[j] == before[j]);
                }
            }
        }
        i = i + 1;
    }
    out
}

/// Where the first attached plan marked default stands, if any.
fn first_default_index(plans: &Vec<(ApplicationPricingPlan, PricingPlan)>) -> (r: Option<usize>)
    ensures
        match r {
            Some(i) => i < plans@.len() && plans@[i as int].0.is_default
                && forall|j: int| 0 <= j < i ==> !(#[trigger] plans@[j]).0.is_default,
            None => forall|j: int| 0 <= j < plans@.len() ==> !(#[trigger] plans@[j]).0.is_default,
        },
{
    let mut i: usize = 0;
    while i < plans.len()
        invariant
            i <= plans.len(),
            forall|j: int| 0 <= j < i ==> !(#[trigger] plans@[j]).0.is_default,
        decreases plans.len() - i,
    {
        if plans[i].0.is_default {
            return Some(i);
        }
        i = i + 1;
    }
    None
}

/// The first attached plan marked default, in the given order.
pub fn default_plan(plans: Vec<(ApplicationPricingPlan, PricingPlan)>) -> (r: Option<(ApplicationPricingPlan, PricingPlan)>)
    ensures
        match r {
            Some(p) => exists|i: int| {
                &&& 0 <= i < plans@.len()
                &&& #[trigger] plans@[i] == p
                &&& p.0.is_default
                &&& forall|j: int| 0 <= j < i ==> !(#[trigger] plans@[j]).0.is_default
            },
            None => forall|j: int| 0 <= j < plans@.len() ==> !(#[trigger] plans@[j]).0.is_default,
        },
{
    let ghost all = plans@;
    let mut rest = plans;
    match first_default_index(&rest) {
        Some(i) => {
            let p = rest.remove(i);
            assert(all[i as int] == p);
            Some(p)
        },
        None => None,
    }
}

} // verus!
