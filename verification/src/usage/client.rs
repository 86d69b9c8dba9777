//! Client usage counters and their compact cache keys.
//!
//! A client key reads
//! `vaultless:metric:client_hour:<app>:<client>:<YYYYMMDDHH>` or
//! `vaultless:metric:client_minute:<app>:<client>:<YYYYMMDDHHMM>`: the
//! window start's UTC calendar fields, zero-padded and concatenated.
use vstd::prelude::*;
use crate::text::{
    pad_text, split_text, i32_text, u32_text, ascii_text, chars_of, string_of, split_chars,
    views, parse_i32, parse_u32, push_padded, append_chars, chars_starts_with, chars_ascii,
    sub_chars, free_of, lemma_pad_text_free, lemma_pad_text_signed, lemma_pad_text_unsigned,
    lemma_split_join, signed_text_value, unsigned_text_value, lemma_pad_text_len,
};
use crate::clock::{
    calendar_of, instant_of, calendar_fields, instant_from_fields, hour_in_range, valid_instant,
    lemma_hour_start_same_day,
};
use crate::keys::{key_text, cache_key, id_chars};
use crate::ident::{uuid_text, uuid_parsed, parse_uuid, lemma_uuid_text_shape};
use crate::error::VaultlessError;
use crate::usage::counters::{field_value, entries_view, lookup_field, wrapping_inc};

verus! {

// =============================================================================
// Windows
// =============================================================================

/// The instant with `now`'s UTC date and hour, minute and second zero.
pub open spec fn client_hour_window(now: i64) -> i64 {
    match calendar_of(now) {
        Some(f) => match instant_of(f.0, f.1, f.2, f.3, 0, 0) {
            Some(t) => t,
            None => now,
        },
        None => now,
    }
}

/// The start of the current hour.
pub fn get_hour_window(now: i64) -> (w: i64)
    ensures
        w == client_hour_window(now),
        hour_in_range(now) ==> {
            &&& calendar_of(now) matches Some(f) && calendar_of(w) == Some((f.0, f.1, f.2, f.3, 0u32, 0u32))
                && instant_of(f.0, f.1, f.2, f.3, 0, 0) == Some(w)
            &&& w == now as int - now as int % 3600
        },
{
    match calendar_fields(now) {
        Some(f) => {
            proof {
                if hour_in_range(now) {
                    let h: int = now as int - now as int % 3600;
                    lemma_hour_start_same_day(now as int);
                    assert(valid_instant(h));
                    assert(calendar_of(h as i64) == Some((f.0, f.1, f.2, f.3, 0u32, 0u32)));
                }
            }
            match instant_from_fields(f.0, f.1, f.2, f.3, 0, 0) {
                Some(t) => t,
                None => now,
            }
        },
        None => now,
    }
}

/// The start of the current minute.
pub fn get_minute_window(now: i64) -> (w: i64)
    ensures
        w == crate::usage::counters::minute_window(now),
        hour_in_range(now) ==> {
            &&& calendar_of(now) matches Some(f) && calendar_of(w) == Some((f.0, f.1, f.2, f.3, f.4, 0u32))
                && instant_of(f.0, f.1, f.2, f.3, f.4, 0) == Some(w)
            &&& w == now as int - now as int % 60
        },
{
    crate::usage::counters::get_minute_window(now)
}

// =============================================================================
// Keys
// =============================================================================

/// Time granularity of client counters.
#[derive(Debug, Clone, Copy, PartialEq, Eq, Structural)]
pub enum MetricGranularity {
    Hour,
    Minute,
}

/// Word naming a client granularity inside keys.
pub open spec fn client_granularity_word(g: MetricGranularity) -> Seq<char> {
    match g {
        MetricGranularity::Hour => "client_hour"@,
        MetricGranularity::Minute => "client_minute"@,
    }
}

/// The window start for granularity `g`.
pub open spec fn client_period_start(g: MetricGranularity, now: i64) -> i64 {
    match g {
        MetricGranularity::Hour => client_hour_window(now),
        MetricGranularity::Minute => crate::usage::counters::minute_window(now),
    }
}

/// The concatenated zero-padded calendar fields of the window start.
pub open spec fn stamp_text(g: MetricGranularity, f: (i32, u32, u32, u32, u32, u32)) -> Seq<char> {
    let base = pad_text(f.0 as int, 4) + pad_text(f.1 as int, 2) + pad_text(f.2 as int, 2) + pad_text(f.3 as int, 2);
    match g {
        MetricGranularity::Hour => base,
        MetricGranularity::Minute => base + pad_text(f.4 as int, 2),
    }
}

/// The stamp of instant `t` (empty when chrono has no calendar fields for
/// it).
pub open spec fn stamp_at(g: MetricGranularity, t: i64) -> Seq<char> {
    match calendar_of(t) {
        Some(f) => stamp_text(g, f),
        None => Seq::empty(),
    }
}

/// The text of the key of client `client_id` in application `app_id` for
/// the window of `g` holding `now`.
pub open spec fn client_key_text(app_id: u128, client_id: u128, now: i64, g: MetricGranularity) -> Seq<char> {
    key_text(seq!["metric"@, client_granularity_word(g), uuid_text(app_id), uuid_text(client_id),
        stamp_at(g, client_period_start(g, now))])
}

/// The instant a stamp denotes: ten characters `YYYYMMDDHH` or twelve
/// `YYYYMMDDHHMM`, the year read as an `i32` and the other fields as `u32`.
pub open spec fn stamp_instant(ts: Seq<char>) -> Option<i64> {
    if !ascii_text(ts) || (ts.len() != 10 && ts.len() != 12) {
        None
    } else {
        let y = i32_text(ts.subrange(0, 4));
        let mo = u32_text(ts.subrange(4, 6));
        let d = u32_text(ts.subrange(6, 8));
        let h = u32_text(ts.subrange(8, 10));
        let mi = if ts.len() == 12 { u32_text(ts.subrange(10, 12)) } else { Some(0u32) };
        match (y, mo, d, h, mi) {
            (Some(y), Some(mo), Some(d), Some(h), Some(mi)) => instant_of(y, mo, d, h, mi, 0),
            _ => None,
        }
    }
}

/// The key text after the namespace and granularity word, when it starts
/// with one of the two client prefixes followed by `:`.
pub open spec fn client_key_rest(s: Seq<char>) -> Option<Seq<char>> {
    let ph = "vaultless:metric:client_hour:"@;
    let pm = "vaultless:metric:client_minute:"@;
    if ph.len() <= s.len() && s.subrange(0, ph.len() as int) == ph {
        Some(s.subrange(ph.len() as int, s.len() as int))
    } else if pm.len() <= s.len() && s.subrange(0, pm.len() as int) == pm {
        Some(s.subrange(pm.len() as int, s.len() as int))
    } else {
        None
    }
}

/// What `ClientMetricKey::parse` gives for the key text `s`.
pub open spec fn client_key_parse(s: Seq<char>) -> Option<(u128, u128, i64)> {
    match client_key_rest(s) {
        None => None,
        Some(r) => {
            let parts = split_text(r, ':');
            if parts.len() != 3 {
                None
            } else {
                match (uuid_parsed(parts[0]), uuid_parsed(parts[1]), stamp_instant(parts[2])) {
                    (Some(a), Some(c), Some(t)) => Some((a, c, t)),
                    _ => None,
                }
            }
        },
    }
}

/// A client metric key, held as its text.
#[derive(Debug)]
pub struct ClientMetricKey(pub String);

fn push_u32(out: &mut Vec<char>, n: u32, width: usize)
    ensures
        final(out)@ == old(out)@ + pad_text(n as int, width as nat),
{
    push_padded(out, n as i64, width);
}

fn parse_stamp(ts: &Vec<char>) -> (res: Option<i64>)
    ensures
        res == stamp_instant(ts@),
{
    if !chars_ascii(ts) || (ts.len() != 10 && ts.len() != 12) {
        return None;
    }
    let y = parse_i32(&sub_chars(ts, 0, 4));
    let mo = parse_u32(&sub_chars(ts, 4, 6));
    let d = parse_u32(&sub_chars(ts, 6, 8));
    let h = parse_u32(&sub_chars(ts, 8, 10));
    let mi = if ts.len() == 12 { parse_u32(&sub_chars(ts, 10, 12)) } else { Some(0u32) };
    match (y, mo, d, h, mi) {
        (Some(y), Some(mo), Some(d), Some(h), Some(mi)) => instant_from_fields(y, mo, d, h, mi, 0),
        _ => None,
    }
}

impl ClientMetricKey {
    /// The key of client `client_id` in application `application_id` for
    /// the window of `granularity` holding `now`.
    pub fn new(application_id: u128, client_id: u128, now: i64, granularity: MetricGranularity) -> (res: Result<ClientMetricKey, VaultlessError>)
        ensures
            res matches Ok(k) && k.0@ == client_key_text(application_id, client_id, now, granularity),
            hour_in_range(now) ==> client_period_start(granularity, now) == now as int - now as int % (match granularity {
                MetricGranularity::Hour => 3600int,
                MetricGranularity::Minute => 60int,
            }),
            hour_in_range(now) && (calendar_of(now) matches Some(f) && -999 <= f.0 <= 9999) ==> (res matches Ok(k)
                && client_key_parse(k.0@) == Some((application_id, client_id, client_period_start(granularity, now)))),
    {
        let period_start = match granularity {
            MetricGranularity::Hour => get_hour_window(now),
            MetricGranularity::Minute => get_minute_window(now),
        };
        let mut buf: Vec<char> = Vec::new();
        match calendar_fields(period_start) {
            None => {},
            Some(f) => {
                push_padded(&mut buf, f.0 as i64, 4);
                push_u32(&mut buf, f.1, 2);
                push_u32(&mut buf, f.2, 2);
                push_u32(&mut buf, f.3, 2);
                match granularity {
                    MetricGranularity::Hour => {},
                    MetricGranularity::Minute => {
                        push_u32(&mut buf, f.4, 2);
                    },
                }
            },
        }
        let word = match granularity {
            MetricGranularity::Hour => "client_hour",
            MetricGranularity::Minute => "client_minute",
        };
        let mut parts: Vec<Vec<char>> = Vec::new();
        parts.push(chars_of("metric"));
        parts.push(chars_of(word));
        parts.push(id_chars(application_id));
        parts.push(id_chars(client_id));
        parts.push(buf);
        proof {
            match calendar_of(period_start) {
                Some(f) => {
                    let base = pad_text(f.0 as int, 4) + pad_text(f.1 as int, 2) + pad_text(f.2 as int, 2) + pad_text(f.3 as int, 2);
                    assert(stamp_text(granularity, f) == (match granularity {
                        MetricGranularity::Hour => base,
                        MetricGranularity::Minute => base + pad_text(f.4 as int, 2),
                    }));
                },
                None => {},
            }
        }
        assert(views(parts@) =~= seq!["metric"@, client_granularity_word(granularity), uuid_text(application_id),
            uuid_text(client_id), stamp_at(granularity, client_period_start(granularity, now))]);
        proof {
            if hour_in_range(now) && (calendar_of(now) matches Some(f) && -999 <= f.0 <= 9999) {
                let f = calendar_of(period_start)->0;
                lemma_client_key_round_trip(application_id, client_id, now, granularity, f);
            }
        }
        Ok(ClientMetricKey(cache_key(parts)))
    }

    /// The key's text.
    pub fn as_str(&self) -> (res: &str)
        ensures
            res@ == self.0@,
    {
        self.0.as_str()
    }

    /// The application, client and window start the key names.
    pub fn parse(&self) -> (res: Option<(u128, u128, i64)>)
        ensures
            res == client_key_parse(self.0@),
    {
        let s = chars_of(self.0.as_str());
        let ph = chars_of("vaultless:metric:client_hour:");
        let pm = chars_of("vaultless:metric:client_minute:");
        let rest = if chars_starts_with(&s, &ph) {
            sub_chars(&s, ph.len(), s.len())
        } else if chars_starts_with(&s, &pm) {
            sub_chars(&s, pm.len(), s.len())
        } else {
            return None;
        };
        let parts = split_chars(&rest, ':');
        if parts.len() != 3 {
            return None;
        }
        let a_text = string_of(&parts[0]);
        let c_text = string_of(&parts[1]);
        let a = parse_uuid(a_text.as_str());
        let c = parse_uuid(c_text.as_str());
        let t = parse_stamp(&parts[2]);
        match (a, c, t) {
            (Some(a), Some(c), Some(t)) => Some((a, c, t)),
            _ => None,
        }
    }

    /// Accepts a text that starts with `vaultless:metric:client` and parses.
    pub fn try_from(s: String) -> (res: Result<ClientMetricKey, VaultlessError>)
        ensures
            (res is Ok) <==> (client_key_prefixed(s@) && client_key_parse(s@) is Some),
            res matches Ok(k) ==> k.0@ == s@,
            !client_key_prefixed(s@) ==> (res matches Err(VaultlessError::InvalidInput(m)) && m@ == "Invalid client metric key format"@),
            client_key_prefixed(s@) && client_key_parse(s@) is None
                ==> (res matches Err(VaultlessError::InvalidInput(m)) && m@ == "Failed to parse client metric key"@),
    {
        let cs = chars_of(s.as_str());
        let prefix = chars_of("vaultless:metric:client");
        if !chars_starts_with(&cs, &prefix) {
            return Err(VaultlessError::InvalidInput(string_of(&chars_of("Invalid client metric key format"))));
        }
        let key = ClientMetricKey(s);
        if key.parse().is_none() {
            return Err(VaultlessError::InvalidInput(string_of(&chars_of("Failed to parse client metric key"))));
        }
        Ok(key)
    }
}

/// `s` starts with `vaultless:metric:client`.
pub open spec fn client_key_prefixed(s: Seq<char>) -> bool {
    let p = "vaultless:metric:client"@;
    p.len() <= s.len() && s.subrange(0, p.len() as int) == p
}

// =============================================================================
// Counters
// =============================================================================

/// Counters of a client for one window.
#[derive(Debug, Clone, Copy, PartialEq, Eq, Structural, Default)]
pub struct ClientMetricCounters {
    pub messages_sent: i64,
    pub messages_received: i64,
    pub proofs_verified: i64,
    pub total_bytes_sent: i64,
    pub total_bytes_received: i64,
    pub rate_limit_hits: i64,
}

/// `v` plus the field's value in the hash (zero when absent).
pub open spec fn plus_field(v: i64, entries: Seq<(Seq<char>, i64)>, name: Seq<char>) -> int {
    v + match field_value(entries, name) {
        Some(x) => x as int,
        None => 0,
    }
}

/// Every sum `merge_from_map` forms fits in `i64`.
pub open spec fn merge_fits(c: ClientMetricCounters, e: Seq<(Seq<char>, i64)>) -> bool {
    &&& i64::MIN <= plus_field(c.messages_sent, e, "messages_sent"@) <= i64::MAX
    &&& i64::MIN <= plus_field(c.messages_received, e, "messages_received"@) <= i64::MAX
    &&& i64::MIN <= plus_field(c.proofs_verified, e, "proofs_verified"@) <= i64::MAX
    &&& i64::MIN <= plus_field(c.total_bytes_sent, e, "total_bytes_sent"@) <= i64::MAX
    &&& i64::MIN <= plus_field(c.total_bytes_received, e, "total_bytes_received"@) <= i64::MAX
    &&& i64::MIN <= plus_field(c.rate_limit_hits, e, "rate_limit_hits"@) <= i64::MAX
}

/// The value a hash holds under `name`, zero when absent.
pub open spec fn hash_value(entries: Seq<(Seq<char>, i64)>, name: Seq<char>) -> int {
    match field_value(entries, name) {
        Some(x) => x as int,
        None => 0,
    }
}

/// The counters `c` with the hash `e` added, field by field.
pub open spec fn merged(c: ClientMetricCounters, e: Seq<(Seq<char>, i64)>) -> ClientMetricCounters {
    ClientMetricCounters {
        messages_sent: plus_field(c.messages_sent, e, "messages_sent"@) as i64,
        messages_received: plus_field(c.messages_received, e, "messages_received"@) as i64,
        proofs_verified: plus_field(c.proofs_verified, e, "proofs_verified"@) as i64,
        total_bytes_sent: plus_field(c.total_bytes_sent, e, "total_bytes_sent"@) as i64,
        total_bytes_received: plus_field(c.total_bytes_received, e, "total_bytes_received"@) as i64,
        rate_limit_hits: plus_field(c.rate_limit_hits, e, "rate_limit_hits"@) as i64,
    }
}

/// Law: merging two hashes one after the other adds, field by field, what
/// the two hold together (the key-wise sum of the hashes); merging an empty
/// hash changes nothing.
pub proof fn lemma_client_merges_add_up(c: ClientMetricCounters, m1: Seq<(Seq<char>, i64)>, m2: Seq<(Seq<char>, i64)>)
    requires
        merge_fits(c, m1),
        merge_fits(merged(c, m1), m2),
    ensures
        merged(merged(c, m1), m2).messages_sent == c.messages_sent + hash_value(m1, "messages_sent"@) + hash_value(m2, "messages_sent"@),
        merged(merged(c, m1), m2).messages_received == c.messages_received + hash_value(m1, "messages_received"@)
            + hash_value(m2, "messages_received"@),
        merged(merged(c, m1), m2).proofs_verified == c.proofs_verified + hash_value(m1, "proofs_verified"@)
            + hash_value(m2, "proofs_verified"@),
        merged(merged(c, m1), m2).total_bytes_sent == c.total_bytes_sent + hash_value(m1, "total_bytes_sent"@)
            + hash_value(m2, "total_bytes_sent"@),
        merged(merged(c, m1), m2).total_bytes_received == c.total_bytes_received + hash_value(m1, "total_bytes_received"@)
            + hash_value(m2, "total_bytes_received"@),
        merged(merged(c, m1), m2).rate_limit_hits == c.rate_limit_hits + hash_value(m1, "rate_limit_hits"@)
            + hash_value(m2, "rate_limit_hits"@),
        merged(c, Seq::empty()) == c,
{
}

fn add_field(v: i64, map: &Vec<(String, i64)>, name: &str) -> (r: i64)
    requires
        i64::MIN <= plus_field(v, entries_view(map@), name@) <= i64::MAX,
    ensures
        r == plus_field(v, entries_view(map@), name@),
{
    match lookup_field(map, name) {
        Some(x) => v + x,
        None => v,
    }
}

impl ClientMetricCounters {
    /// Are all counters zero?
    pub fn is_zero(&self) -> (b: bool)
        ensures
            b == (self.messages_sent == 0 && self.messages_received == 0 && self.proofs_verified == 0
                && self.total_bytes_sent == 0 && self.total_bytes_received == 0
                && self.rate_limit_hits == 0),
    {
        self.messages_sent == 0 && self.messages_received == 0 && self.proofs_verified == 0
            && self.total_bytes_sent == 0 && self.total_bytes_received == 0
            && self.rate_limit_hits == 0
    }

    /// Adds the hash's counters to these counters (absent fields add zero).
    /// The hash comes as its list of fields; where a name were listed
    /// twice, the later value counts, as a map built from the list would
    /// keep it.
    pub fn merge_from_map(&mut self, map: &Vec<(String, i64)>)
        requires
            merge_fits(*old(self), entries_view(map@)),
        ensures
            final(self).messages_sent == plus_field(old(self).messages_sent, entries_view(map@), "messages_sent"@),
            final(self).messages_received == plus_field(old(self).messages_received, entries_view(map@), "messages_received"@),
            final(self).proofs_verified == plus_field(old(self).proofs_verified, entries_view(map@), "proofs_verified"@),
            final(self).total_bytes_sent == plus_field(old(self).total_bytes_sent, entries_view(map@), "total_bytes_sent"@),
            final(self).total_bytes_received == plus_field(old(self).total_bytes_received, entries_view(map@), "total_bytes_received"@),
            final(self).rate_limit_hits == plus_field(old(self).rate_limit_hits, entries_view(map@), "rate_limit_hits"@),
            *final(self) == merged(*old(self), entries_view(map@)),
    {
        self.messages_sent = add_field(self.messages_sent, map, "messages_sent");
        self.messages_received = add_field(self.messages_received, map, "messages_received");
        self.proofs_verified = add_field(self.proofs_verified, map, "proofs_verified");
        self.total_bytes_sent = add_field(self.total_bytes_sent, map, "total_bytes_sent");
        self.total_bytes_received = add_field(self.total_bytes_received, map, "total_bytes_received");
        self.rate_limit_hits = add_field(self.rate_limit_hits, map, "rate_limit_hits");
    }
}

/// Counters that monitor the client flusher.
#[derive(Debug, Clone, Copy, PartialEq, Eq, Structural)]
pub struct ClientFlusherMetrics {
    pub keys_processed: u64,
    pub errors: u64,
    pub batches_processed: u64,
    pub total_flush_duration_ms: u64,
}

impl ClientFlusherMetrics {
    /// All counters at zero.
    pub fn new() -> (m: ClientFlusherMetrics)
        ensures
            m == (ClientFlusherMetrics { keys_processed: 0, errors: 0, batches_processed: 0, total_flush_duration_ms: 0 }),
    {
        ClientFlusherMetrics { keys_processed: 0, errors: 0, batches_processed: 0, total_flush_duration_ms: 0 }
    }

    /// Counts one error.
    pub fn record_error(&mut self)
        ensures
            final(self).errors == wrapping_inc(old(self).errors),
            final(self).keys_processed == old(self).keys_processed,
            final(self).batches_processed == old(self).batches_processed,
            final(self).total_flush_duration_ms == old(self).total_flush_duration_ms,
    {
        self.errors = if self.errors == u64::MAX { 0 } else { self.errors + 1 };
    }
}

impl Default for ClientFlusherMetrics {
    fn default() -> (m: ClientFlusherMetrics)
        ensures
            m == (ClientFlusherMetrics { keys_processed: 0, errors: 0, batches_processed: 0, total_flush_duration_ms: 0 }),
    {
        ClientFlusherMetrics::new()
    }
}

/// The rest of a client key after its prefix is the application, client
/// and stamp joined with `:`.
proof fn lemma_client_key_rest(g: MetricGranularity, ua: Seq<char>, uc: Seq<char>, st: Seq<char>)
    ensures
        client_key_rest(key_text(seq!["metric"@, client_granularity_word(g), ua, uc, st]))
            == Some(crate::text::join_text(seq![ua, uc, st], ':')),
{
    reveal_strlit("vaultless");
    reveal_strlit("metric");
    reveal_strlit("client_hour");
    reveal_strlit("client_minute");
    reveal_strlit("vaultless:metric:client_hour:");
    reveal_strlit("vaultless:metric:client_minute:");
    let word = client_granularity_word(g);
    let head = seq!["vaultless"@, "metric"@, word];
    let tail = seq![ua, uc, st];
    assert(seq!["vaultless"@].add(seq!["metric"@, word, ua, uc, st]) =~= head + tail);
    crate::text::lemma_join_append(head, tail, ':');
    let key = key_text(seq!["metric"@, word, ua, uc, st]);
    reveal_with_fuel(crate::text::join_text, 4);
    let prefix = crate::text::join_text(head, ':').push(':');
    assert(key == prefix + crate::text::join_text(tail, ':'));
    if g == MetricGranularity::Hour {
        assert(prefix =~= "vaultless:metric:client_hour:"@);
    } else {
        assert(prefix =~= "vaultless:metric:client_minute:"@);
        let ph = "vaultless:metric:client_hour:"@;
        assert(key.subrange(0, ph.len() as int) != ph) by {
            assert(key[24] == prefix[24]);
            assert(prefix[24] == 'm');
            assert(ph[24] == 'h');
            assert(key.subrange(0, ph.len() as int)[24] == key[24]);
        }
    }
    assert(key.subrange(0, prefix.len() as int) =~= prefix);
    assert(key.subrange(prefix.len() as int, key.len() as int) =~= crate::text::join_text(tail, ':'));
}

/// The stamp of calendar fields with a year of at most four digits reads
/// back as the instant of those fields.
proof fn lemma_stamp_reads_back(g: MetricGranularity, f: (i32, u32, u32, u32, u32, u32))
    requires
        -999 <= f.0 <= 9999,
        f.1 < 100,
        f.2 < 100,
        f.3 < 100,
        f.4 < 100,
        g == MetricGranularity::Hour ==> f.4 == 0,
    ensures
        stamp_instant(stamp_text(g, f)) == instant_of(f.0, f.1, f.2, f.3, f.4, 0),
        free_of(stamp_text(g, f), ':'),
{
    let st = stamp_text(g, f);
    lemma_pad_text_len(f.0 as int, 4);
    lemma_pad_text_len(f.1 as int, 2);
    lemma_pad_text_len(f.2 as int, 2);
    lemma_pad_text_len(f.3 as int, 2);
    lemma_pad_text_len(f.4 as int, 2);
    lemma_pad_text_free(f.0 as int, 4, ':');
    lemma_pad_text_free(f.1 as int, 2, ':');
    lemma_pad_text_free(f.2 as int, 2, ':');
    lemma_pad_text_free(f.3 as int, 2, ':');
    lemma_pad_text_free(f.4 as int, 2, ':');
    lemma_pad_text_signed(f.0 as int, 4);
    lemma_pad_text_unsigned(f.1 as nat, 2);
    lemma_pad_text_unsigned(f.2 as nat, 2);
    lemma_pad_text_unsigned(f.3 as nat, 2);
    lemma_pad_text_unsigned(f.4 as nat, 2);
    let y = pad_text(f.0 as int, 4);
    let mo = pad_text(f.1 as int, 2);
    let d = pad_text(f.2 as int, 2);
    let h = pad_text(f.3 as int, 2);
    let mi = pad_text(f.4 as int, 2);
    assert(st.subrange(0, 4) =~= y);
    assert(st.subrange(4, 6) =~= mo);
    assert(st.subrange(6, 8) =~= d);
    assert(st.subrange(8, 10) =~= h);
    if g == MetricGranularity::Minute {
        assert(st.subrange(10, 12) =~= mi);
    }
    assert forall|i: int| 0 <= i < st.len() implies (#[trigger] st[i] as u32) < 128 && st[i] != ':' by {
        if i < 4 {
            assert(st[i] == y[i]);
        } else if i < 6 {
            assert(st[i] == mo[i - 4]);
        } else if i < 8 {
            assert(st[i] == d[i - 6]);
        } else if i < 10 {
            assert(st[i] == h[i - 8]);
        } else {
            assert(st[i] == mi[i - 10]);
        }
    }
    assert(ascii_text(st));
}

/// Reading back a key made by `ClientMetricKey::new` gives its
/// application, client and window start.
///
/// Stated for a window start `w` whose calendar fields `f` (as
/// `calendar_fields` states them) have a year of at most four digits, given
/// that `instant_from_fields` gives `w` back for `f` and that `parse_uuid`
/// reads the canonical texts back.
pub proof fn lemma_client_key_round_trip(app_id: u128, client_id: u128, now: i64, g: MetricGranularity,
    f: (i32, u32, u32, u32, u32, u32))
    requires
        calendar_of(client_period_start(g, now)) == Some(f),
        -999 <= f.0 <= 9999,
        1 <= f.1 <= 12,
        1 <= f.2 <= 31,
        f.3 < 24,
        f.4 < 60,
        g == MetricGranularity::Hour ==> f.4 == 0,
        instant_of(f.0, f.1, f.2, f.3, f.4, 0) == Some(client_period_start(g, now)),
        uuid_parsed(uuid_text(app_id)) == Some(app_id),
        uuid_parsed(uuid_text(client_id)) == Some(client_id),
    ensures
        client_key_parse(client_key_text(app_id, client_id, now, g)) == Some((app_id, client_id, client_period_start(g, now))),
{
    let w = client_period_start(g, now);
    let ua = uuid_text(app_id);
    let uc = uuid_text(client_id);
    let st = stamp_at(g, w);
    assert(st == stamp_text(g, f));
    lemma_client_key_rest(g, ua, uc, st);
    lemma_stamp_reads_back(g, f);
    lemma_uuid_text_shape(app_id);
    lemma_uuid_text_shape(client_id);
    let tail = seq![ua, uc, st];
    assert forall|i: int| 0 <= i < tail.len() implies free_of(#[trigger] tail[i], ':') by {}
    lemma_split_join(tail, ':');
}
} // verus!
