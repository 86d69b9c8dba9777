//! Decisions of restoring hourly application counters into the cache from
//! the usage table after the cache lost them.
//!
//! With no active key in the cache, every row of the last 48 hours is
//! written back.  Otherwise, for each application the latest window still
//! in the cache is found, and only newer rows are written back.
use vstd::prelude::*;
use crate::usage::counters::{MetricKey, MetricGranularity, metric_key_from_text, metric_window, metric_key_text, lemma_metric_key_round_trip};
use crate::clock::{calendar_of, instant_of};
use crate::ident::{uuid_parsed, uuid_text};
use crate::usage::client::{ClientMetricKey, client_key_prefixed, client_key_parse, client_key_text};
use crate::usage::client::MetricGranularity as ClientGranularity;
use crate::text::{chars_of, string_of};
use crate::error::VaultlessError;

verus! {

/// How far back the fallback restore reaches, in seconds (48 hours).
pub const LOOKBACK_SECS: i64 = 172800;

/// Which restore to run.
#[derive(Debug, Clone, Copy, PartialEq, Eq, Structural)]
pub enum RestoreMode {
    /// The cache holds no active key: restore the lookback period.
    Lookback,
    /// Restore, per application, the windows after its latest cached one.
    AfterLatest,
}

/// The restore to run given the number of active keys.
pub fn restore_mode(active_keys: usize) -> (m: RestoreMode)
    ensures
        m == (if active_keys == 0 { RestoreMode::Lookback } else { RestoreMode::AfterLatest }),
{
    if active_keys == 0 {
        RestoreMode::Lookback
    } else {
        RestoreMode::AfterLatest
    }
}

/// The latest window per application among the keys that parse.
pub open spec fn latest_periods(keys: Seq<Seq<char>>) -> Map<u128, i64>
    decreases keys.len(),
{
    if keys.len() == 0 {
        Map::empty()
    } else {
        let m = latest_periods(keys.drop_last());
        match metric_key_from_text(keys.last()) {
            Err(_) => m,
            Ok(k) => if m.contains_key(k.app_id) && m[k.app_id] >= k.window {
                m
            } else {
                m.insert(k.app_id, k.window)
            },
        }
    }
}

/// Key `i` of `keys` parses as application `a`'s key for window `w`.
pub open spec fn parses_as(keys: Seq<Seq<char>>, i: int, a: u128, w: i64) -> bool {
    metric_key_from_text(keys[i]) matches Ok(k) && k.app_id == a && k.window == w
}

/// Law: an application has a latest window exactly when some key parses as
/// one of its keys, and that window is the greatest window among its keys.
pub proof fn lemma_latest_periods(keys: Seq<Seq<char>>, a: u128)
    ensures
        latest_periods(keys).contains_key(a) <==> exists|i: int, w: i64| 0 <= i < keys.len() && #[trigger] parses_as(keys, i, a, w),
        latest_periods(keys).contains_key(a) ==> (forall|i: int, w: i64| 0 <= i < keys.len() && #[trigger] parses_as(keys, i, a, w)
            ==> w <= latest_periods(keys)[a]),
        latest_periods(keys).contains_key(a) ==> exists|i: int| 0 <= i < keys.len()
            && #[trigger] parses_as(keys, i, a, latest_periods(keys)[a]),
    decreases keys.len(),
{
    if keys.len() > 0 {
        let t = keys.drop_last();
        lemma_latest_periods(t, a);
        let l = keys.len() - 1;
        assert forall|i: int, w: i64| 0 <= i < l implies parses_as(keys, i, a, w) == parses_as(t, i, a, w) by {
            assert(keys[i] == t[i]);
        }
        let m = latest_periods(t);
        let r = latest_periods(keys);
        if m.contains_key(a) {
            let i0 = choose|i: int| 0 <= i < t.len() && #[trigger] parses_as(t, i, a, m[a]);
            assert(parses_as(keys, i0, a, m[a]));
            if r.contains_key(a) && r[a] == m[a] {
                assert(parses_as(keys, i0, a, r[a]));
            }
        }
        match metric_key_from_text(keys.last()) {
            Err(_) => {
                assert forall|i: int, w: i64| 0 <= i < keys.len() && #[trigger] parses_as(keys, i, a, w) implies i < l
                    && parses_as(t, i, a, w) by {}
            },
            Ok(k) => {
                assert(parses_as(keys, l, a, k.window) <==> k.app_id == a);
                if k.app_id == a {
                    assert(parses_as(keys, l, a, k.window));
                    if !(m.contains_key(a) && m[a] >= k.window) {
                        assert(r[a] == k.window);
                        assert(parses_as(keys, l, a, r[a]));
                    }
                }
                assert forall|i: int, w: i64| 0 <= i < keys.len() && #[trigger] parses_as(keys, i, a, w) implies (i < l
                    && parses_as(t, i, a, w)) || (i == l && k.app_id == a && w == k.window) by {}
            },
        }
    }
}

/// The map that a list of pairs with distinct first components denotes.
pub open spec fn pairs_map<K>(v: Seq<(K, i64)>) -> Map<K, i64> {
    Map::new(|a: K| exists|i: int| 0 <= i < v.len() && v[i].0 == a,
        |a: K| v[choose|i: int| 0 <= i < v.len() && v[i].0 == a].1)
}

/// No first component appears twice.
pub open spec fn distinct_keys<K>(v: Seq<(K, i64)>) -> bool {
    forall|i: int, j: int| 0 <= i < j < v.len() ==> v[i].0 != v[j].0
}

/// A pair of a list with distinct keys is what the map holds for its key.
proof fn lemma_pairs_at<K>(v: Seq<(K, i64)>, j: int)
    requires
        distinct_keys(v),
        0 <= j < v.len(),
    ensures
        pairs_map(v).contains_key(v[j].0),
        pairs_map(v)[v[j].0] == v[j].1,
{
    let c = choose|x: int| 0 <= x < v.len() && v[x].0 == v[j].0;
    assert(0 <= c < v.len() && v[c].0 == v[j].0);
    assert(c == j);
}

/// Overwriting the pair of a key updates the map at that key.
proof fn lemma_pairs_set<K>(before: Seq<(K, i64)>, j: int, w: i64)
    requires
        distinct_keys(before),
        0 <= j < before.len(),
    ensures
        distinct_keys(before.update(j, (before[j].0, w))),
        pairs_map(before.update(j, (before[j].0, w))) == pairs_map(before).insert(before[j].0, w),
{
    let k = before[j].0;
    let out = before.update(j, (k, w));
    assert forall|a: K| #![auto] pairs_map(out).contains_key(a) == pairs_map(before).insert(k, w).contains_key(a) by {
        if a != k {
            if pairs_map(before).contains_key(a) {
                let c = choose|x: int| 0 <= x < before.len() && before[x].0 == a;
                assert(out[c].0 == a);
            }
            if pairs_map(out).contains_key(a) {
                let c = choose|x: int| 0 <= x < out.len() && out[x].0 == a;
                assert(before[c].0 == a);
            }
        } else {
            assert(out[j].0 == a);
        }
    }
    assert forall|a: K| #![auto] pairs_map(out).contains_key(a) implies pairs_map(out)[a] == pairs_map(before).insert(k, w)[a] by {
        let c = choose|x: int| 0 <= x < out.len() && out[x].0 == a;
        if a != k {
            assert(c != j);
            assert(before[c].0 == a);
            lemma_pairs_at(before, c);
        } else {
            assert(c == j);
        }
    }
    assert(pairs_map(out) =~= pairs_map(before).insert(k, w));
}

/// Appending a pair for a new key adds that key to the map.
proof fn lemma_pairs_push<K>(before: Seq<(K, i64)>, k: K, w: i64)
    requires
        distinct_keys(before),
        forall|j: int| 0 <= j < before.len() ==> before[j].0 != k,
    ensures
        distinct_keys(before.push((k, w))),
        pairs_map(before.push((k, w))) == pairs_map(before).insert(k, w),
{
    let out = before.push((k, w));
    assert forall|a: K| #![auto] pairs_map(out).contains_key(a) == pairs_map(before).insert(k, w).contains_key(a) by {
        if pairs_map(before).contains_key(a) {
            let c = choose|x: int| 0 <= x < before.len() && before[x].0 == a;
            assert(out[c].0 == a);
        }
        if a == k {
            assert(out[before.len() as int].0 == a);
        }
        if pairs_map(out).contains_key(a) && a != k {
            let c = choose|x: int| 0 <= x < out.len() && out[x].0 == a;
            assert(before[c].0 == a);
        }
    }
    assert forall|a: K| #![auto] pairs_map(out).contains_key(a) implies pairs_map(out)[a] == pairs_map(before).insert(k, w)[a] by {
        let c = choose|x: int| 0 <= x < out.len() && out[x].0 == a;
        if a != k {
            let c2 = choose|x: int| 0 <= x < before.len() && before[x].0 == a;
            assert(out[c2].0 == a);
            assert(c == c2);
            lemma_pairs_at(before, c2);
        } else {
            assert(c == before.len() as int);
        }
    }
    assert(pairs_map(out) =~= pairs_map(before).insert(k, w));
}

/// Where `key` stands among the pairs, if it does.
fn find_app(v: &Vec<(u128, i64)>, key: u128) -> (res: Option<usize>)
    ensures
        match res {
            Some(i) => i < v.len() && v@[i as int].0 == key,
            None => forall|j: int| 0 <= j < v.len() ==> v@[j].0 != key,
        },
{
    let mut i: usize = 0;
    while i < v.len()
        invariant
            i <= v.len(),
            forall|j: int| 0 <= j < i ==> v@[j].0 != key,
        decreases v.len() - i,
    {
        if v[i].0 == key {
            return Some(i);
        }
        i = i + 1;
    }
    None
}

/// Records window `w` for key `key` unless a later or equal one is held.
fn keep_latest_app(out: &mut Vec<(u128, i64)>, key: u128, w: i64)
    requires
        distinct_keys(old(out)@),
    ensures
        distinct_keys(final(out)@),
        pairs_map(final(out)@) == (if pairs_map(old(out)@).contains_key(key) && pairs_map(old(out)@)[key] >= w {
            pairs_map(old(out)@)
        } else {
            pairs_map(old(out)@).insert(key, w)
        }),
{
    let ghost before = out@;
    match find_app(out, key) {
        Some(i) => {
            proof { lemma_pairs_at(before, i as int); }
            if w > out[i].1 {
                out.set(i, (key, w));
                proof { lemma_pairs_set(before, i as int, w); }
            }
        },
        None => {
            proof {
                if pairs_map(before).contains_key(key) {
                    let c = choose|x: int| 0 <= x < before.len() && before[x].0 == key;
                    assert(before[c].0 == key);
                }
                lemma_pairs_push(before, key, w);
            }
            out.push((key, w));
        },
    }
}

/// The latest cached window of each application, one pair per application
/// in the order applications first appear.
pub fn latest_period_per_app(keys: &Vec<String>) -> (res: Vec<(u128, i64)>)
    ensures
        distinct_keys(res@),
        pairs_map(res@) == latest_periods(keys@.map_values(|s: String| s@)),
{
    let ghost kv = keys@.map_values(|s: String| s@);
    let mut out: Vec<(u128, i64)> = Vec::new();
    let mut i: usize = 0;
    assert(pairs_map(out@) =~= Map::<u128, i64>::empty());
    assert(kv.subrange(0, 0) =~= Seq::<Seq<char>>::empty());
    while i < keys.len()
        invariant
            i <= keys.len(),
            kv == keys@.map_values(|s: String| s@),
            distinct_keys(out@),
            pairs_map(out@) == latest_periods(kv.subrange(0, i as int)),
        decreases keys.len() - i,
    {
        assert(kv.subrange(0, i + 1).drop_last() =~= kv.subrange(0, i as int));
        assert(kv.subrange(0, i + 1).last() == keys@[i as int]@);
        let text = string_of(&chars_of(keys[i].as_str()));
        match MetricKey::try_from(text) {
            Err(_) => {},
            Ok(k) => {
                keep_latest_app(&mut out, k.app_id, k.window);
            },
        }
        i = i + 1;
    }
    assert(kv.subrange(0, keys.len() as int) =~= kv);
    out
}

/// The cache writes for one stored row: the hour key of the row's window
/// and the six counters to set.
#[derive(Debug)]
pub struct RestoreWrite {
    pub key: String,
    pub fields: Vec<(String, i64)>,
}

/// Field names of a restored hash, in the order they are written.
pub open spec fn restore_field_names() -> Seq<Seq<char>> {
    seq!["messages_sent"@, "messages_received"@, "proofs_verified"@, "total_bytes_sent"@,
        "total_bytes_received"@, "rate_limit_hits"@]
}

/// The writes that put a stored row's counters back in the cache; `values`
/// are the row's messages sent, messages received, proofs verified, bytes
/// sent, bytes received and rate-limit hits.
pub fn restore_write(application_id: u128, period_start: i64, values: [i64; 6]) -> (w: Result<RestoreWrite, VaultlessError>)
    ensures
        w matches Ok(rw) && {
            &&& rw.key@ == metric_key_text(MetricKey { app_id: application_id, granularity: MetricGranularity::Hour,
                window: metric_window(MetricGranularity::Hour, period_start) })
            &&& rw.fields@.len() == 6
            &&& forall|i: int| 0 <= i < 6 ==> (#[trigger] rw.fields@[i]).0@ == restore_field_names()[i]
                && rw.fields@[i].1 == values[i]
        },
{
    let key = match MetricKey::new(application_id, period_start, MetricGranularity::Hour) {
        Ok(k) => k,
        Err(e) => {
            return Err(e);
        },
    };
    let mut fields: Vec<(String, i64)> = Vec::new();
    fields.push((string_of(&chars_of("messages_sent")), values[0]));
    fields.push((string_of(&chars_of("messages_received")), values[1]));
    fields.push((string_of(&chars_of("proofs_verified")), values[2]));
    fields.push((string_of(&chars_of("total_bytes_sent")), values[3]));
    fields.push((string_of(&chars_of("total_bytes_received")), values[4]));
    fields.push((string_of(&chars_of("rate_limit_hits")), values[5]));
    Ok(RestoreWrite { key: key.as_str(), fields })
}

/// The hourly key a restore writes for a stored row of `application_id`
/// whose window starts at `period_start`.
pub open spec fn restored_key(application_id: u128, period_start: i64) -> MetricKey {
    MetricKey {
        app_id: application_id,
        granularity: MetricGranularity::Hour,
        window: metric_window(MetricGranularity::Hour, period_start),
    }
}

/// A key written back by a restore counts toward its application's latest
/// cached window: added to any tracked keys, it makes its window the latest
/// unless a later or equal one is tracked already, and changes nothing for
/// other applications.
///
/// Stated for a window whose calendar fields `f` (as `calendar_fields`
/// states them) start an hour, given that `instant_from_fields` gives the
/// window back for `f` and that `parse_uuid` reads the canonical text of the
/// application back.
pub proof fn lemma_restored_key_counts_as_latest(keys: Seq<Seq<char>>, application_id: u128, period_start: i64,
    f: (i32, u32, u32, u32, u32, u32))
    requires
        calendar_of(restored_key(application_id, period_start).window) == Some(f),
        1 <= f.1 <= 12,
        1 <= f.2 <= 31,
        f.3 < 24,
        f.4 == 0,
        f.5 == 0,
        restored_key(application_id, period_start).window as int % 3600 == 0,
        instant_of(f.0, f.1, f.2, f.3, f.4, f.5) == Some(restored_key(application_id, period_start).window),
        uuid_parsed(uuid_text(application_id)) == Some(application_id),
    ensures
        ({
            let k = restored_key(application_id, period_start);
            let before = latest_periods(keys);
            latest_periods(keys.push(metric_key_text(k))) == (if before.contains_key(application_id)
                && before[application_id] >= k.window {
                before
            } else {
                before.insert(application_id, k.window)
            })
        }),
{
    let k = restored_key(application_id, period_start);
    lemma_metric_key_round_trip(k, f);
    let all = keys.push(metric_key_text(k));
    assert(all.drop_last() =~= keys);
    assert(all.last() == metric_key_text(k));
}

/// The latest window per application and client among the keys that parse
/// as client keys.
pub open spec fn latest_client_periods(keys: Seq<Seq<char>>) -> Map<(u128, u128), i64>
    decreases keys.len(),
{
    if keys.len() == 0 {
        Map::empty()
    } else {
        let m = latest_client_periods(keys.drop_last());
        let s = keys.last();
        if client_key_prefixed(s) && client_key_parse(s) is Some {
            let (a, c, t) = client_key_parse(s).unwrap();
            if m.contains_key((a, c)) && m[(a, c)] >= t {
                m
            } else {
                m.insert((a, c), t)
            }
        } else {
            m
        }
    }
}

/// Where the pair `key` stands among the pairs, if it does.
fn find_client(v: &Vec<((u128, u128), i64)>, key: (u128, u128)) -> (res: Option<usize>)
    ensures
        match res {
            Some(i) => i < v.len() && v@[i as int].0 == key,
            None => forall|j: int| 0 <= j < v.len() ==> v@[j].0 != key,
        },
{
    let mut i: usize = 0;
    while i < v.len()
        invariant
            i <= v.len(),
            forall|j: int| 0 <= j < i ==> v@[j].0 != key,
        decreases v.len() - i,
    {
        if v[i].0.0 == key.0 && v[i].0.1 == key.1 {
            return Some(i);
        }
        i = i + 1;
    }
    None
}

/// Records window `w` for the pair `key` unless a later or equal one is held.
fn keep_latest_client(out: &mut Vec<((u128, u128), i64)>, key: (u128, u128), w: i64)
    requires
        distinct_keys(old(out)@),
    ensures
        distinct_keys(final(out)@),
        pairs_map(final(out)@) == (if pairs_map(old(out)@).contains_key(key) && pairs_map(old(out)@)[key] >= w {
            pairs_map(old(out)@)
        } else {
            pairs_map(old(out)@).insert(key, w)
        }),
{
    let ghost before = out@;
    match find_client(out, key) {
        Some(i) => {
            proof { lemma_pairs_at(before, i as int); }
            if w > out[i].1 {
                out.set(i, (key, w));
                proof { lemma_pairs_set(before, i as int, w); }
            }
        },
        None => {
            proof {
                if pairs_map(before).contains_key(key) {
                    let c = choose|x: int| 0 <= x < before.len() && before[x].0 == key;
                    assert(before[c].0 == key);
                }
                lemma_pairs_push(before, key, w);
            }
            out.push((key, w));
        },
    }
}

/// The latest cached window of each application and client, one pair per
/// application and client in the order they first appear.
pub fn latest_period_per_client(keys: &Vec<String>) -> (res: Vec<((u128, u128), i64)>)
    ensures
        distinct_keys(res@),
        pairs_map(res@) == latest_client_periods(keys@.map_values(|s: String| s@)),
{
    let ghost kv = keys@.map_values(|s: String| s@);
    let mut out: Vec<((u128, u128), i64)> = Vec::new();
    let mut i: usize = 0;
    assert(pairs_map(out@) =~= Map::<(u128, u128), i64>::empty());
    assert(kv.subrange(0, 0) =~= Seq::<Seq<char>>::empty());
    while i < keys.len()
        invariant
            i <= keys.len(),
            kv == keys@.map_values(|s: String| s@),
            distinct_keys(out@),
            pairs_map(out@) == latest_client_periods(kv.subrange(0, i as int)),
        decreases keys.len() - i,
    {
        assert(kv.subrange(0, i + 1).drop_last() =~= kv.subrange(0, i as int));
        assert(kv.subrange(0, i + 1).last() == keys@[i as int]@);
        let text = string_of(&chars_of(keys[i].as_str()));
        match ClientMetricKey::try_from(text) {
            Err(_) => {},
            Ok(k) => {
                match k.parse() {
                    Some((a, c, t)) => keep_latest_client(&mut out, (a, c), t),
                    None => {},
                }
            },
        }
        i = i + 1;
    }
    assert(kv.subrange(0, keys.len() as int) =~= kv);
    out
}

/// The writes that put a stored client row's counters back in the cache;
/// `values` are as for [`restore_write`].
pub fn client_restore_write(application_id: u128, client_id: u128, period_start: i64, values: [i64; 6]) -> (w: Result<RestoreWrite, VaultlessError>)
    ensures
        w matches Ok(rw) && {
            &&& rw.key@ == client_key_text(application_id, client_id, period_start, ClientGranularity::Hour)
            &&& rw.fields@.len() == 6
            &&& forall|i: int| 0 <= i < 6 ==> (#[trigger] rw.fields@[i]).0@ == restore_field_names()[i]
                && rw.fields@[i].1 == values[i]
        },
{
    let key = match ClientMetricKey::new(application_id, client_id, period_start, ClientGranularity::Hour) {
        Ok(k) => k,
        Err(e) => {
            return Err(e);
        },
    };
    let mut fields: Vec<(String, i64)> = Vec::new();
    fields.push((string_of(&chars_of("messages_sent")), values[0]));
    fields.push((string_of(&chars_of("messages_received")), values[1]));
    fields.push((string_of(&chars_of("proofs_verified")), values[2]));
    fields.push((string_of(&chars_of("total_bytes_sent")), values[3]));
    fields.push((string_of(&chars_of("total_bytes_received")), values[4]));
    fields.push((string_of(&chars_of("rate_limit_hits")), values[5]));
    Ok(RestoreWrite { key: key.0, fields })
}

} // verus!
