//! Usage metering per API key, by the hour.
//!
//! Each API key's counters for one hour live in a hash named
//! `metric:hash:<api key>:<YYYYMMDDHH>`, the hour being the UTC hour its
//! counts fall in.  A flush cycle reads every closed hour, writes its
//! non-zero counters as one row and forgets the hash.
use vstd::prelude::*;
use crate::clock::{
    calendar_of, instant_of, calendar_fields, instant_from_fields, utc_text, format_utc, four_digit_year, now_seconds,
    valid_instant, lemma_hour_start_same_day, hour_in_range,
};
use crate::error::VaultlessError;
use crate::ident::{uuid_text, uuid_parsed, parse_uuid, uuid_string, lemma_uuid_text_shape};
use crate::text::{
    chars_of, string_of, append_chars, append_str, pad_text, i32_text, u32_text, parse_i32, parse_u32,
    chars_ascii, ascii_text, chars_starts_with, sub_chars, split_chars, split_text, views,
};
use crate::usage::counters::{field_value, entries_view, lookup_field, wrapping_inc};

verus! {

// =============================================================================
// Configuration and monitoring
// =============================================================================

/// Configuration of per-key metering.
#[derive(Clone, Copy, Debug)]
pub struct MetricsConfig {
    pub max_batch_size: usize,
    pub metric_ttl_secs: i64,
    pub flush_interval_secs: u64,
    pub redis_operation_timeout_secs: u64,
}

impl Default for MetricsConfig {
    fn default() -> (c: MetricsConfig)
        ensures
            c.max_batch_size == 1000,
            c.metric_ttl_secs == 7200,
            c.flush_interval_secs == 300,
            c.redis_operation_timeout_secs == 30,
    {
        MetricsConfig { max_batch_size: 1000, metric_ttl_secs: 7200, flush_interval_secs: 300, redis_operation_timeout_secs: 30 }
    }
}

/// Counters that monitor the per-key flusher.
#[derive(Clone, Copy, Debug, PartialEq, Eq, Structural)]
pub struct FlusherMetrics {
    pub keys_processed: u64,
    pub errors: u64,
    pub batches_processed: u64,
    pub total_flush_duration_ms: u64,
}

impl Default for FlusherMetrics {
    fn default() -> (m: FlusherMetrics)
        ensures
            m == (FlusherMetrics { keys_processed: 0, errors: 0, batches_processed: 0, total_flush_duration_ms: 0 }),
    {
        FlusherMetrics { keys_processed: 0, errors: 0, batches_processed: 0, total_flush_duration_ms: 0 }
    }
}

impl FlusherMetrics {
    /// All counters at zero.
    pub fn new() -> (m: FlusherMetrics)
        ensures
            m == (FlusherMetrics { keys_processed: 0, errors: 0, batches_processed: 0, total_flush_duration_ms: 0 }),
    {
        FlusherMetrics::default()
    }

    /// Counts one error.
    pub fn record_error(&mut self)
        ensures
            *final(self) == (FlusherMetrics { errors: wrapping_inc(old(self).errors), ..*old(self) }),
    {
        self.errors = if self.errors == u64::MAX { 0 } else { self.errors + 1 };
    }
}

/// All-time usage totals of an API key.
#[derive(Clone, Copy, Debug, PartialEq, Eq, Structural)]
pub struct UsageAggregate {
    pub total_messages_sent: i64,
    pub total_messages_received: i64,
    pub total_proofs_verified: i64,
    pub total_bytes_stored: i64,
    pub total_bytes_sent: i64,
    pub total_bytes_received: i64,
    pub total_rate_limit_hits: i64,
    pub total_estimated_cost_cents: i64,
}

/// Refuses an API key whose text is empty or longer than 256 bytes.
pub fn validate_api_key_text(api_key: &str) -> (r: Result<(), VaultlessError>)
    ensures
        r is Ok <==> 0 < api_key.len() <= 256,
        r matches Err(e) ==> (e matches VaultlessError::InvalidInput(m) && m@ == "Invalid key hash length"@),
{
    let n = api_key.len();
    if n == 0 || n > 256 {
        Err(VaultlessError::InvalidInput(String::from_str("Invalid key hash length")))
    } else {
        Ok(())
    }
}

// =============================================================================
// Hours
// =============================================================================

/// The start of the UTC hour holding `t` (an instant in seconds): the same
/// date and hour with zero minutes and seconds.  Should the calendar fail,
/// the start of the day, or `t` itself, stands in.
pub open spec fn period_start(t: i64) -> i64 {
    match calendar_of(t) {
        Some(f) => match instant_of(f.0, f.1, f.2, f.3, 0, 0) {
            Some(x) => x,
            None => match instant_of(f.0, f.1, f.2, 0, 0, 0) {
                Some(x) => x,
                None => t,
            },
        },
        None => t,
    }
}

/// The start of the UTC hour holding `now`: the same date and hour with
/// zero minutes and seconds, which is `now` rounded down to a multiple of
/// an hour, and whose own hour start is itself.
pub fn get_period_start(now: i64) -> (r: i64)
    ensures
        r == period_start(now),
        hour_in_range(now) ==> {
            &&& calendar_of(now) matches Some(f) && calendar_of(r) == Some((f.0, f.1, f.2, f.3, 0u32, 0u32))
                && instant_of(f.0, f.1, f.2, f.3, 0, 0) == Some(r) && 1 <= f.1 <= 12 && 1 <= f.2 <= 31 && f.3 < 24
            &&& r == now as int - now as int % 3600
            &&& r <= now < r + 3600
            &&& period_start(r) == r
        },
{
    match calendar_fields(now) {
        Some(f) => {
            proof {
                if hour_in_range(now) {
                    let h: int = now as int - now as int % 3600;
                    lemma_hour_start_same_day(now as int);
                    assert(f.3 < 24) by (nonlinear_arith)
                        requires
                            f.3 == (now as int % 86400) / 3600,
                            0 <= now as int % 86400 < 86400,
                    {
                    }
                    assert(valid_instant(h));
                    assert(calendar_of(h as i64) == Some((f.0, f.1, f.2, f.3, 0u32, 0u32)));
                }
            }
            match instant_from_fields(f.0, f.1, f.2, f.3, 0, 0) {
                Some(x) => x,
                None => match instant_from_fields(f.0, f.1, f.2, 0, 0, 0) {
                    Some(x) => x,
                    None => now,
                },
            }
        },
        None => now,
    }
}

/// The instant of the hour whose fields were read from a key.
///
/// Calls `NaiveDateTime::parse_from_str` on the text
/// `format!("{:04}-{:02}-{:02} {:02}:00:00", ..)` with the pattern
/// `%Y-%m-%d %H:%M:%S`, and takes `and_utc().timestamp()`.  chrono's
/// parser reads a year with a sign at any length and one without in four
/// digits, and month, day and hour in two, and checks the date: so the
/// text of a year up to 9999 reads back as exactly the calendar date and
/// hour (when they exist), and a longer year fails.
#[verifier::external_body]
fn hour_from_fields(year: i32, month: u32, day: u32, hour: u32) -> (r: Option<i64>)
    ensures
        r == (if year <= 9999 {
            instant_of(year, month, day, hour, 0, 0)
        } else {
            None
        }),
{
    chrono::NaiveDateTime::parse_from_str(
        &format!("{:04}-{:02}-{:02} {:02}:00:00", year, month, day, hour),
        "%Y-%m-%d %H:%M:%S",
    ).ok().map(|dt| dt.and_utc().timestamp())
}

// =============================================================================
// Keys
// =============================================================================

/// The text every per-key hash name starts with.
pub open spec fn hash_prefix() -> Seq<char> {
    "metric:hash:"@
}

/// The name of the hash of `api_key_id` for the hour starting at `start`.
pub open spec fn per_key_text(api_key_id: u128, start: i64) -> Seq<char> {
    hash_prefix() + uuid_text(api_key_id) + ":"@ + utc_text(start, "%Y%m%d%H"@)
}

/// The hour, as an instant, that ten characters `YYYYMMDDHH` name.
pub open spec fn stamp_hour(ts: Seq<char>) -> Option<i64> {
    if !ascii_text(ts) || ts.len() != 10 {
        None
    } else {
        match (
            i32_text(ts.subrange(0, 4)),
            u32_text(ts.subrange(4, 6)),
            u32_text(ts.subrange(6, 8)),
            u32_text(ts.subrange(8, 10)),
        ) {
            (Some(y), Some(mo), Some(d), Some(h)) => if y <= 9999 {
                instant_of(y, mo, d, h, 0, 0)
            } else {
                None
            },
            _ => None,
        }
    }
}

/// What a per-key hash name denotes: the API key and the start of the
/// hour, when the text after the prefix is an identifier and a stamp
/// separated by one `:`.
pub open spec fn per_key_parse(s: Seq<char>) -> Option<(u128, i64)> {
    if !hash_prefix().is_prefix_of(s) {
        None
    } else {
        let parts = split_text(s.subrange(hash_prefix().len() as int, s.len() as int), ':');
        if parts.len() != 2 {
            None
        } else {
            match (uuid_parsed(parts[0]), stamp_hour(parts[1])) {
                (Some(id), Some(t)) => Some((id, t)),
                _ => None,
            }
        }
    }
}

/// The name of a per-key counter hash.
#[derive(Clone, Debug)]
pub struct MetricKey(pub String);

/// Why no key can be made for `api_key_id` and the hour of `period` at the
/// instant `now`, if none can: the hour must have started, and the key
/// must not be nil.
pub open spec fn key_refusal(api_key_id: u128, period: i64, now: i64) -> Option<Seq<char>> {
    if period_start(period) > now {
        Some("Future periods not allowed for metric keys"@)
    } else if api_key_id == 0 {
        Some("Nil UUID not allowed for metric keys"@)
    } else {
        None
    }
}

impl MetricKey {
    /// The key of `api_key_id` for the hour holding `period`, at the
    /// instant `now` (seconds).
    pub fn new_at(api_key_id: u128, period: i64, now: i64) -> (r: Result<MetricKey, VaultlessError>)
        ensures
            match key_refusal(api_key_id, period, now) {
                Some(m) => r matches Err(VaultlessError::InvalidInput(e)) && e@ == m,
                None => r matches Ok(k) && k.0@ == per_key_text(api_key_id, period_start(period)),
            },
            key_refusal(api_key_id, period, now) is None && hour_in_range(period)
                && (calendar_of(period) matches Some(f) && 0 <= f.0 <= 9999)
                ==> (r matches Ok(k) && per_key_parse(k.0@) == Some((api_key_id, period_start(period)))),
    {
        let start = get_period_start(period);
        if start > now {
            return Err(VaultlessError::InvalidInput(String::from_str("Future periods not allowed for metric keys")));
        }
        if api_key_id == 0 {
            return Err(VaultlessError::InvalidInput(String::from_str("Nil UUID not allowed for metric keys")));
        }
        let mut out = chars_of("metric:hash:");
        append_chars(&mut out, &chars_of(uuid_string(api_key_id).as_str()));
        append_str(&mut out, ":");
        let stamp = format_utc(start, "%Y%m%d%H");
        append_chars(&mut out, &chars_of(stamp.as_str()));
        proof {
            if hour_in_range(period) && (calendar_of(period) matches Some(f) && 0 <= f.0 <= 9999) {
                reveal_strlit("%Y%m%d%H");
                let f = calendar_of(start)->0;
                assert(four_digit_year(f));
                lemma_per_key_round_trip(api_key_id, start, f);
            }
        }
        Ok(MetricKey(string_of(&out)))
    }

    /// The key of `api_key_id` for the hour holding `period`, checked
    /// against the current time.
    pub fn new(api_key_id: u128, period: i64) -> (r: Result<MetricKey, VaultlessError>)
        ensures
            exists|now: i64|
                match #[trigger] key_refusal(api_key_id, period, now) {
                    Some(m) => r matches Err(VaultlessError::InvalidInput(e)) && e@ == m,
                    None => r matches Ok(k) && k.0@ == per_key_text(api_key_id, period_start(period)),
                },
    {
        let now = now_seconds();
        let r = MetricKey::new_at(api_key_id, period, now);
        assert(match key_refusal(api_key_id, period, now) {
            Some(m) => r matches Err(VaultlessError::InvalidInput(e)) && e@ == m,
            None => r matches Ok(k) && k.0@ == per_key_text(api_key_id, period_start(period)),
        });
        r
    }

    /// The key's text.
    pub fn as_str(&self) -> (s: &str)
        ensures
            s@ == self.0@,
    {
        self.0.as_str()
    }

    /// The API key and hour the name denotes.
    pub fn parse(&self) -> (r: Option<(u128, i64)>)
        ensures
            r == per_key_parse(self.0@),
    {
        let s = chars_of(self.0.as_str());
        let prefix = chars_of("metric:hash:");
        if !chars_starts_with(&s, &prefix) {
            return None;
        }
        let rest = sub_chars(&s, prefix.len(), s.len());
        let parts = split_chars(&rest, ':');
        if parts.len() != 2 {
            return None;
        }
        let id = parse_uuid(string_of(&parts[0]).as_str());
        let ts = &parts[1];
        let hour = if !chars_ascii(ts) || ts.len() != 10 {
            None
        } else {
            match (
                parse_i32(&sub_chars(ts, 0, 4)),
                parse_u32(&sub_chars(ts, 4, 6)),
                parse_u32(&sub_chars(ts, 6, 8)),
                parse_u32(&sub_chars(ts, 8, 10)),
            ) {
                (Some(y), Some(mo), Some(d), Some(h)) => hour_from_fields(y, mo, d, h),
                _ => None,
            }
        };
        match (id, hour) {
            (Some(i), Some(t)) => Some((i, t)),
            _ => None,
        }
    }

    /// Accepts a text that starts with `metric:hash:` and parses.
    pub fn try_from(s: String) -> (r: Result<MetricKey, VaultlessError>)
        ensures
            !hash_prefix().is_prefix_of(s@) ==> (r matches Err(VaultlessError::InvalidInput(m)) && m@ == "Invalid metric key format"@),
            hash_prefix().is_prefix_of(s@) && per_key_parse(s@) is None ==> (r matches Err(VaultlessError::InvalidInput(m))
                && m@ == "Failed to parse metric key components"@),
            per_key_parse(s@) is Some ==> (r matches Ok(k) && k.0@ == s@),
    {
        let cs = chars_of(s.as_str());
        let prefix = chars_of("metric:hash:");
        if !chars_starts_with(&cs, &prefix) {
            return Err(VaultlessError::InvalidInput(String::from_str("Invalid metric key format")));
        }
        let key = MetricKey(s);
        if key.parse().is_none() {
            return Err(VaultlessError::InvalidInput(String::from_str("Failed to parse metric key components")));
        }
        Ok(key)
    }
}


// =============================================================================
// Reading a name back
// =============================================================================

/// The stamp `YYYYMMDDHH` of calendar fields.
pub open spec fn hour_stamp(f: (i32, u32, u32, u32, u32, u32)) -> Seq<char> {
    pad_text(f.0 as int, 4) + pad_text(f.1 as int, 2) + pad_text(f.2 as int, 2) + pad_text(f.3 as int, 2)
}

proof fn lemma_hour_stamp_reads_back(f: (i32, u32, u32, u32, u32, u32))
    requires
        0 <= f.0 <= 9999,
        1 <= f.1 <= 12,
        1 <= f.2 <= 31,
        f.3 < 24,
    ensures
        hour_stamp(f).len() == 10,
        ascii_text(hour_stamp(f)),
        crate::text::free_of(hour_stamp(f), ':'),
        stamp_hour(hour_stamp(f)) == instant_of(f.0, f.1, f.2, f.3, 0, 0),
{
    let y = pad_text(f.0 as int, 4);
    let mo = pad_text(f.1 as int, 2);
    let d = pad_text(f.2 as int, 2);
    let h = pad_text(f.3 as int, 2);
    crate::text::lemma_pad_text_len(f.0 as int, 4);
    crate::text::lemma_pad_text_len(f.1 as int, 2);
    crate::text::lemma_pad_text_len(f.2 as int, 2);
    crate::text::lemma_pad_text_len(f.3 as int, 2);
    crate::text::lemma_pad_text_free(f.0 as int, 4, ':');
    crate::text::lemma_pad_text_free(f.1 as int, 2, ':');
    crate::text::lemma_pad_text_free(f.2 as int, 2, ':');
    crate::text::lemma_pad_text_free(f.3 as int, 2, ':');
    crate::text::lemma_pad_text_signed(f.0 as int, 4);
    crate::text::lemma_pad_text_unsigned(f.1 as nat, 2);
    crate::text::lemma_pad_text_unsigned(f.2 as nat, 2);
    crate::text::lemma_pad_text_unsigned(f.3 as nat, 2);
    let st = hour_stamp(f);
    assert(st.len() == 10);
    assert forall|i: int| 0 <= i < st.len() implies (#[trigger] st[i] as u32) < 128 && st[i] != ':' by {
        if i < 4 {
            assert(st[i] == y[i]);
        } else if i < 6 {
            assert(st[i] == mo[i - 4]);
        } else if i < 8 {
            assert(st[i] == d[i - 6]);
        } else {
            assert(st[i] == h[i - 8]);
        }
    }
    assert(st.subrange(0, 4) =~= y);
    assert(st.subrange(4, 6) =~= mo);
    assert(st.subrange(6, 8) =~= d);
    assert(st.subrange(8, 10) =~= h);
    assert(i32_text(y) == Some(f.0));
    assert(u32_text(mo) == Some(f.1));
    assert(u32_text(d) == Some(f.2));
    assert(u32_text(h) == Some(f.3));
}

/// A per-key hash name reads back as its API key and hour.
///
/// Stated for an hour start `start` whose calendar fields `f` have a year
/// of four digits, given what `calendar_fields`, `instant_from_fields` and
/// `format_utc` state of those fields, and given that `parse_uuid` reads
/// the canonical text of the API key back.
pub proof fn lemma_per_key_round_trip(api_key_id: u128, start: i64, f: (i32, u32, u32, u32, u32, u32))
    requires
        calendar_of(start) == Some(f),
        0 <= f.0 <= 9999,
        1 <= f.1 <= 12,
        1 <= f.2 <= 31,
        f.3 < 24,
        instant_of(f.0, f.1, f.2, f.3, 0, 0) == Some(start),
        utc_text(start, "%Y%m%d%H"@) == hour_stamp(f),
        uuid_parsed(uuid_text(api_key_id)) == Some(api_key_id),
    ensures
        per_key_parse(per_key_text(api_key_id, start)) == Some((api_key_id, start)),
{
    reveal_strlit("metric:hash:");
    reveal_strlit(":");
    let u = uuid_text(api_key_id);
    let st = hour_stamp(f);
    let s = per_key_text(api_key_id, start);
    lemma_hour_stamp_reads_back(f);
    lemma_uuid_text_shape(api_key_id);
    assert(hash_prefix().len() == 12);
    assert(s.subrange(0, 12) =~= hash_prefix());
    assert(hash_prefix().is_prefix_of(s));
    let rest = s.subrange(12, s.len() as int);
    assert(rest =~= u.push(':') + st);
    let parts = seq![u, st];
    assert(parts.drop_last() =~= seq![u]);
    assert(crate::text::join_text(seq![u], ':') == u);
    assert(crate::text::join_text(parts, ':') =~= u.push(':') + st);
    assert forall|i: int| 0 <= i < parts.len() implies crate::text::free_of(#[trigger] parts[i], ':') by {
    }
    crate::text::lemma_split_join(parts, ':');
    assert(split_text(rest, ':') == parts);
}


// =============================================================================
// Counters and flushing
// =============================================================================

/// Counters of an API key for one hour.
#[derive(Clone, Copy, Debug, PartialEq, Eq, Structural)]
pub struct MetricCounters {
    pub messages_sent: i64,
    pub messages_received: i64,
    pub proofs_verified: i64,
    pub total_bytes_sent: i64,
    pub total_bytes_received: i64,
    pub rate_limit_hits: i64,
}

/// All counters at zero.
pub open spec fn zero_counters() -> MetricCounters {
    MetricCounters {
        messages_sent: 0,
        messages_received: 0,
        proofs_verified: 0,
        total_bytes_sent: 0,
        total_bytes_received: 0,
        rate_limit_hits: 0,
    }
}

/// `v` plus the value of field `name` in the hash, zero when absent.
pub open spec fn plus_field(v: i64, e: Seq<(Seq<char>, i64)>, name: Seq<char>) -> int {
    v + match field_value(e, name) {
        Some(x) => x as int,
        None => 0int,
    }
}

/// Every sum `merge_from_map` forms fits in `i64`.
pub open spec fn merge_fits(c: MetricCounters, e: Seq<(Seq<char>, i64)>) -> bool {
    &&& i64::MIN <= plus_field(c.messages_sent, e, "messages_sent"@) <= i64::MAX
    &&& i64::MIN <= plus_field(c.messages_received, e, "messages_received"@) <= i64::MAX
    &&& i64::MIN <= plus_field(c.proofs_verified, e, "proofs_verified"@) <= i64::MAX
    &&& i64::MIN <= plus_field(c.total_bytes_sent, e, "total_bytes_sent"@) <= i64::MAX
    &&& i64::MIN <= plus_field(c.total_bytes_received, e, "total_bytes_received"@) <= i64::MAX
    &&& i64::MIN <= plus_field(c.rate_limit_hits, e, "rate_limit_hits"@) <= i64::MAX
}

/// The counters `c` with the hash's counters added.
pub open spec fn merged(c: MetricCounters, e: Seq<(Seq<char>, i64)>) -> MetricCounters {
    MetricCounters {
        messages_sent: plus_field(c.messages_sent, e, "messages_sent"@) as i64,
        messages_received: plus_field(c.messages_received, e, "messages_received"@) as i64,
        proofs_verified: plus_field(c.proofs_verified, e, "proofs_verified"@) as i64,
        total_bytes_sent: plus_field(c.total_bytes_sent, e, "total_bytes_sent"@) as i64,
        total_bytes_received: plus_field(c.total_bytes_received, e, "total_bytes_received"@) as i64,
        rate_limit_hits: plus_field(c.rate_limit_hits, e, "rate_limit_hits"@) as i64,
    }
}

/// The value a hash holds for `name`, zero when it holds none.
pub open spec fn hash_value(e: Seq<(Seq<char>, i64)>, name: Seq<char>) -> int {
    match field_value(e, name) {
        Some(x) => x as int,
        None => 0,
    }
}

/// Law: merging a hash adds to each counter the hash's value for the field
/// of the same name (zero when absent), rate-limit hits included; merging
/// two hashes one after the other adds both; an empty hash changes nothing.
pub proof fn lemma_merged_adds_fields(c: MetricCounters, e: Seq<(Seq<char>, i64)>, e2: Seq<(Seq<char>, i64)>)
    requires
        merge_fits(c, e),
    ensures
        merged(c, e).messages_sent == c.messages_sent + hash_value(e, "messages_sent"@),
        merged(c, e).messages_received == c.messages_received + hash_value(e, "messages_received"@),
        merged(c, e).proofs_verified == c.proofs_verified + hash_value(e, "proofs_verified"@),
        merged(c, e).total_bytes_sent == c.total_bytes_sent + hash_value(e, "total_bytes_sent"@),
        merged(c, e).total_bytes_received == c.total_bytes_received + hash_value(e, "total_bytes_received"@),
        merged(c, e).rate_limit_hits == c.rate_limit_hits + hash_value(e, "rate_limit_hits"@),
        merge_fits(merged(c, e), e2) ==> merged(merged(c, e), e2).rate_limit_hits == c.rate_limit_hits
            + hash_value(e, "rate_limit_hits"@) + hash_value(e2, "rate_limit_hits"@),
        merge_fits(merged(c, e), e2) ==> merged(merged(c, e), e2).messages_sent == c.messages_sent
            + hash_value(e, "messages_sent"@) + hash_value(e2, "messages_sent"@),
        merged(c, Seq::empty()) == c,
{
}

fn add_field(v: i64, map: &Vec<(String, i64)>, name: &str) -> (r: i64)
    requires
        i64::MIN <= plus_field(v, entries_view(map@), name@) <= i64::MAX,
    ensures
        r == plus_field(v, entries_view(map@), name@),
{
    match lookup_field(map, name) {
        Some(x) => v + x,
        None => v,
    }
}

impl MetricCounters {
    /// All counters at zero.
    pub fn zero() -> (c: MetricCounters)
        ensures
            c == zero_counters(),
    {
        MetricCounters {
            messages_sent: 0,
            messages_received: 0,
            proofs_verified: 0,
            total_bytes_sent: 0,
            total_bytes_received: 0,
            rate_limit_hits: 0,
        }
    }

    /// Are all counters zero?
    pub fn is_zero(&self) -> (b: bool)
        ensures
            b == (*self == zero_counters()),
    {
        self.messages_sent == 0 && self.messages_received == 0 && self.proofs_verified == 0
            && self.total_bytes_sent == 0 && self.total_bytes_received == 0 && self.rate_limit_hits == 0
    }

    /// Adds the hash's counters (absent fields add zero).
    pub fn merge_from_map(&mut self, map: &Vec<(String, i64)>)
        requires
            merge_fits(*old(self), entries_view(map@)),
        ensures
            *final(self) == merged(*old(self), entries_view(map@)),
    {
        self.messages_sent = add_field(self.messages_sent, map, "messages_sent");
        self.messages_received = add_field(self.messages_received, map, "messages_received");
        self.proofs_verified = add_field(self.proofs_verified, map, "proofs_verified");
        self.total_bytes_sent = add_field(self.total_bytes_sent, map, "total_bytes_sent");
        self.total_bytes_received = add_field(self.total_bytes_received, map, "total_bytes_received");
        self.rate_limit_hits = add_field(self.rate_limit_hits, map, "rate_limit_hits");
    }
}

/// The instant before which hours are flushed: a day after `now` at
/// shutdown, else the start of `now`'s hour.
pub open spec fn cutoff_at(now: i64, flush_all: bool) -> int {
    if flush_all {
        now + 86400
    } else {
        period_start(now) as int
    }
}

/// The cutoff of a flush cycle.
pub fn flush_cutoff(now: i64, flush_all: bool) -> (c: i64)
    requires
        flush_all ==> now <= i64::MAX - 86400,
    ensures
        c == cutoff_at(now, flush_all),
{
    if flush_all {
        now + 86400
    } else {
        get_period_start(now)
    }
}

/// What a cycle does with one scanned name.
#[derive(Clone, Debug)]
pub enum PerKeyScan {
    /// Not a per-key hash name.
    Invalid,
    /// The hour has not closed yet.
    NotDue,
    /// The hash is to be read and flushed.
    Due { api_key_id: u128, period_start: i64, key: MetricKey },
}

/// Decides what to do with the scanned name `s` at `cutoff`.
pub fn scan_per_key(s: String, cutoff: i64) -> (d: PerKeyScan)
    ensures
        match per_key_parse(s@) {
            None => d is Invalid,
            Some((id, t)) => if t >= cutoff {
                d is NotDue
            } else {
                d matches PerKeyScan::Due { api_key_id, period_start, key } && api_key_id == id && period_start == t
                    && key.0@ == s@
            },
        },
{
    match MetricKey::try_from(s) {
        Err(_) => PerKeyScan::Invalid,
        Ok(key) => match key.parse() {
            None => PerKeyScan::Invalid,
            Some((api_key_id, period_start)) => {
                if period_start >= cutoff {
                    PerKeyScan::NotDue
                } else {
                    PerKeyScan::Due { api_key_id, period_start, key }
                }
            },
        },
    }
}

/// One hour of an API key's counters, ready to be written.
#[derive(Clone, Debug)]
pub struct PerKeyEntry {
    pub api_key_id: u128,
    pub period_start: i64,
    pub counters: MetricCounters,
    pub key: MetricKey,
}

/// The entry for a due hash whose fields are `values`.
pub fn collect_entry(api_key_id: u128, period_start: i64, key: MetricKey, values: &Vec<(String, i64)>) -> (e: PerKeyEntry)
    requires
        merge_fits(zero_counters(), entries_view(values@)),
    ensures
        e.api_key_id == api_key_id,
        e.period_start == period_start,
        e.counters == merged(zero_counters(), entries_view(values@)),
        e.key.0@ == key.0@,
{
    let mut counters = MetricCounters::zero();
    counters.merge_from_map(values);
    PerKeyEntry { api_key_id, period_start, counters, key }
}

/// The entries of a chunk whose counters are not all zero, in order.
pub open spec fn nonzero_entries(s: Seq<PerKeyEntry>) -> Seq<PerKeyEntry>
    decreases s.len(),
{
    if s.len() == 0 {
        Seq::empty()
    } else if s.last().counters == zero_counters() {
        nonzero_entries(s.drop_last())
    } else {
        nonzero_entries(s.drop_last()).push(s.last())
    }
}

/// `a` holds the API key, hour and counters of `b`.
pub open spec fn same_entry(a: PerKeyEntry, b: PerKeyEntry) -> bool {
    a.api_key_id == b.api_key_id && a.period_start == b.period_start && a.counters == b.counters
}

/// The entries of a chunk worth writing.
pub fn nonzero_chunk(chunk: &Vec<PerKeyEntry>) -> (r: Vec<PerKeyEntry>)
    ensures
        r@.len() == nonzero_entries(chunk@).len(),
        forall|i: int| 0 <= i < r@.len() ==> #[trigger] same_entry(r@[i], nonzero_entries(chunk@)[i]),
{
    let mut r: Vec<PerKeyEntry> = Vec::new();
    let mut i: usize = 0;
    while i < chunk.len()
        invariant
            i <= chunk@.len(),
            r@.len() == nonzero_entries(chunk@.subrange(0, i as int)).len(),
            forall|j: int| 0 <= j < r@.len() ==> #[trigger] same_entry(r@[j], nonzero_entries(chunk@.subrange(0, i as int))[j]),
        decreases chunk@.len() - i,
    {
        let e = &chunk[i];
        assert(chunk@.subrange(0, i + 1).drop_last() =~= chunk@.subrange(0, i as int));
        assert(chunk@.subrange(0, i + 1).last() == chunk@[i as int]);
        if !e.counters.is_zero() {
            let copy = PerKeyEntry {
                api_key_id: e.api_key_id,
                period_start: e.period_start,
                counters: e.counters,
                key: MetricKey(e.key.0.clone()),
            };
            let ghost before = r@;
            r.push(copy);
            proof {
                let n = nonzero_entries(chunk@.subrange(0, i + 1));
                assert forall|j: int| 0 <= j < r@.len() implies #[trigger] same_entry(r@[j], n[j]) by {
                    if j < before.len() {
                        assert(r@[j] == before[j]);
                    }
                }
            }
        }
        i = i + 1;
    }
    assert(chunk@.subrange(0, chunk@.len() as int) =~= chunk@);
    r
}

/// One row of hourly usage of an API key.
#[derive(Clone, Copy, Debug, PartialEq, Eq, Structural)]
pub struct PerKeyUsageRow {
    pub api_key_id: u128,
    pub period_start: i64,
    pub period_end: i64,
    pub messages_sent: i64,
    pub messages_received: i64,
    pub proofs_verified: i64,
    pub total_bytes_stored: i64,
    pub total_bytes_sent: i64,
    pub total_bytes_received: i64,
    pub rate_limit_hits: i64,
    pub estimated_cost_cents: i64,
}

/// The row written for an entry: the hour ends an hour after it starts,
/// and the bytes stored are the bytes sent and received.
pub fn usage_row(e: &PerKeyEntry, estimated_cost_cents: i64) -> (r: PerKeyUsageRow)
    requires
        e.period_start <= i64::MAX - 3600,
        i64::MIN <= e.counters.total_bytes_sent + e.counters.total_bytes_received <= i64::MAX,
    ensures
        r == (PerKeyUsageRow {
            api_key_id: e.api_key_id,
            period_start: e.period_start,
            period_end: (e.period_start + 3600) as i64,
            messages_sent: e.counters.messages_sent,
            messages_received: e.counters.messages_received,
            proofs_verified: e.counters.proofs_verified,
            total_bytes_stored: (e.counters.total_bytes_sent + e.counters.total_bytes_received) as i64,
            total_bytes_sent: e.counters.total_bytes_sent,
            total_bytes_received: e.counters.total_bytes_received,
            rate_limit_hits: e.counters.rate_limit_hits,
            estimated_cost_cents,
        }),
{
    PerKeyUsageRow {
        api_key_id: e.api_key_id,
        period_start: e.period_start,
        period_end: e.period_start + 3600,
        messages_sent: e.counters.messages_sent,
        messages_received: e.counters.messages_received,
        proofs_verified: e.counters.proofs_verified,
        total_bytes_stored: e.counters.total_bytes_sent + e.counters.total_bytes_received,
        total_bytes_sent: e.counters.total_bytes_sent,
        total_bytes_received: e.counters.total_bytes_received,
        rate_limit_hits: e.counters.rate_limit_hits,
        estimated_cost_cents,
    }
}

} // verus!
