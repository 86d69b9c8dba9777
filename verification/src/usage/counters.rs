//! Application- and client-level metric counters and their cache keys.
//!
//! A metric key names one counter hash: the application (and client), the
//! granularity and the start of the time window it counts, rendered as
//! `vaultless:metric:app:<app>:<granularity>:<window>` or
//! `vaultless:metric:client:<app>:<client>:<granularity>:<window>`, where the
//! window is the UTC calendar date and time joined with `_`
//! (`YYYY_MM_DD_HH_MM` for minutes, `YYYY_MM_DD_HH` for hours, ...).
use vstd::prelude::*;
use crate::text::{
    pad_text, join_text, split_text, i32_text, lower_is, chars_of, string_of, split_chars,
    join_chars, views, parse_i32, lower_eq, push_padded, append_chars, int_parse_error,
    int_parse_error_text, free_of, lemma_pad_text_free, lemma_pad_text_signed, lemma_split_join,
    lemma_join_free, signed_text_value, chars_eq,
};
use crate::clock::{
    calendar_of, instant_of, trunc_to, calendar_fields, instant_from_fields, truncate_to, hour_in_range,
    valid_instant, lemma_minute_start_same_day,
};
use vstd::arithmetic::div_mod::{lemma_fundamental_div_mod, lemma_mod_mod};
use crate::keys::{key_text, cache_key, id_chars};
use crate::ident::{uuid_text, uuid_parsed, parse_uuid, lemma_uuid_text_shape};
use crate::error::VaultlessError;

verus! {

// =============================================================================
// Granularity
// =============================================================================

/// Granularity levels for metric aggregation.
#[derive(Debug, Clone, Copy, PartialEq, Eq, Structural, Hash)]
pub enum MetricGranularity {
    Minute,
    Hour,
    Day,
    Month,
}

/// The word naming a granularity inside keys.
pub open spec fn granularity_word(g: MetricGranularity) -> Seq<char> {
    match g {
        MetricGranularity::Minute => "minute"@,
        MetricGranularity::Hour => "hour"@,
        MetricGranularity::Day => "day"@,
        MetricGranularity::Month => "month"@,
    }
}

/// Hours a counter of this granularity is kept, per unit of retention.
pub open spec fn ttl_hours(g: MetricGranularity) -> i64 {
    match g {
        MetricGranularity::Minute => 1,
        MetricGranularity::Hour => 2,
        MetricGranularity::Day => 48,
        MetricGranularity::Month => 720,
    }
}

/// The window text for calendar fields `f`: zero-padded year (4), month,
/// day, hour and minute (2 each), as many as the granularity needs, joined
/// with `_`.
pub open spec fn suffix_text(g: MetricGranularity, f: (i32, u32, u32, u32, u32, u32)) -> Seq<char> {
    let y = pad_text(f.0 as int, 4);
    let mo = pad_text(f.1 as int, 2);
    let d = pad_text(f.2 as int, 2);
    let h = pad_text(f.3 as int, 2);
    let mi = pad_text(f.4 as int, 2);
    match g {
        MetricGranularity::Minute => join_text(seq![y, mo, d, h, mi], '_'),
        MetricGranularity::Hour => join_text(seq![y, mo, d, h], '_'),
        MetricGranularity::Day => join_text(seq![y, mo, d], '_'),
        MetricGranularity::Month => join_text(seq![y, mo], '_'),
    }
}

/// The window text of the instant `dt` (empty for an instant without
/// calendar fields).
pub open spec fn suffix_at(g: MetricGranularity, dt: i64) -> Seq<char> {
    match calendar_of(dt) {
        Some(f) => suffix_text(g, f),
        None => Seq::empty(),
    }
}

/// What `MetricGranularity::from_str` gives for `s`.
pub open spec fn granularity_from_text(s: Seq<char>) -> Result<MetricGranularity, Seq<char>> {
    if lower_is(s, "minute"@) || lower_is(s, "min"@) {
        Ok(MetricGranularity::Minute)
    } else if lower_is(s, "hour"@) || lower_is(s, "hr"@) {
        Ok(MetricGranularity::Hour)
    } else if lower_is(s, "day"@) || lower_is(s, "d"@) {
        Ok(MetricGranularity::Day)
    } else if lower_is(s, "month"@) || lower_is(s, "mon"@) {
        Ok(MetricGranularity::Month)
    } else {
        Err("Unknown metric granularity: "@ + s)
    }
}

fn push_padded_u32(out: &mut Vec<char>, n: u32, width: usize)
    ensures
        final(out)@ == old(out)@ + pad_text(n as int, width as nat),
{
    push_padded(out, n as i64, width);
}

impl MetricGranularity {
    /// The window text of `dt` for this granularity.
    pub fn key_suffix(&self, dt: i64) -> (res: String)
        ensures
            res@ == suffix_at(*self, dt),
            calendar_of(dt) matches Some(f) ==> {
                &&& 1 <= f.1 <= 12
                &&& 1 <= f.2 <= 31
                &&& f.3 == (dt as int % 86400) / 3600
                &&& f.4 == (dt as int % 3600) / 60
                &&& f.5 == dt as int % 60
                &&& instant_of(f.0, f.1, f.2, f.3, f.4, f.5) == Some(dt)
            },
    {
        match calendar_fields(dt) {
            None => String::new(),
            Some(f) => {
                let mut parts: Vec<Vec<char>> = Vec::new();
                let mut y: Vec<char> = Vec::new();
                push_padded(&mut y, f.0 as i64, 4);
                parts.push(y);
                let mut mo: Vec<char> = Vec::new();
                push_padded_u32(&mut mo, f.1, 2);
                parts.push(mo);
                match self {
                    MetricGranularity::Month => {},
                    _ => {
                        let mut d: Vec<char> = Vec::new();
                        push_padded_u32(&mut d, f.2, 2);
                        parts.push(d);
                        match self {
                            MetricGranularity::Day => {},
                            _ => {
                                let mut h: Vec<char> = Vec::new();
                                push_padded_u32(&mut h, f.3, 2);
                                parts.push(h);
                                match self {
                                    MetricGranularity::Hour => {},
                                    _ => {
                                        let mut mi: Vec<char> = Vec::new();
                                        push_padded_u32(&mut mi, f.4, 2);
                                        parts.push(mi);
                                    },
                                }
                            },
                        }
                    },
                }
                let joined = join_chars(&parts, '_');
                proof {
                    let y = pad_text(f.0 as int, 4);
                    let mo = pad_text(f.1 as int, 2);
                    let d = pad_text(f.2 as int, 2);
                    let h = pad_text(f.3 as int, 2);
                    let mi = pad_text(f.4 as int, 2);
                    match *self {
                        MetricGranularity::Minute => assert(views(parts@) =~= seq![y, mo, d, h, mi]),
                        MetricGranularity::Hour => assert(views(parts@) =~= seq![y, mo, d, h]),
                        MetricGranularity::Day => assert(views(parts@) =~= seq![y, mo, d]),
                        MetricGranularity::Month => assert(views(parts@) =~= seq![y, mo]),
                    }
                }
                string_of(&joined)
            },
        }
    }

    /// Hours of retention per unit for this granularity.
    pub fn ttl_multiplier_hours(&self) -> (h: i64)
        ensures
            h == ttl_hours(*self),
    {
        match self {
            MetricGranularity::Minute => 1,
            MetricGranularity::Hour => 2,
            MetricGranularity::Day => 48,
            MetricGranularity::Month => 720,
        }
    }

    /// The word naming this granularity inside keys.
    pub fn key_prefix(&self) -> (res: &'static str)
        ensures
            res@ == granularity_word(*self),
    {
        match self {
            MetricGranularity::Minute => "minute",
            MetricGranularity::Hour => "hour",
            MetricGranularity::Day => "day",
            MetricGranularity::Month => "month",
        }
    }

    /// Reads a granularity name, case-insensitively: `minute`/`min`,
    /// `hour`/`hr`, `day`/`d`, `month`/`mon`.
    pub fn from_str(s: &str) -> (res: Result<MetricGranularity, String>)
        ensures
            match (res, granularity_from_text(s@)) {
                (Ok(a), Ok(b)) => a == b,
                (Err(m), Err(t)) => m@ == t,
                _ => false,
            },
    {
        let cs = chars_of(s);
        if lower_eq(&cs, "minute") || lower_eq(&cs, "min") {
            Ok(MetricGranularity::Minute)
        } else if lower_eq(&cs, "hour") || lower_eq(&cs, "hr") {
            Ok(MetricGranularity::Hour)
        } else if lower_eq(&cs, "day") || lower_eq(&cs, "d") {
            Ok(MetricGranularity::Day)
        } else if lower_eq(&cs, "month") || lower_eq(&cs, "mon") {
            Ok(MetricGranularity::Month)
        } else {
            let mut m = chars_of("Unknown metric granularity: ");
            append_chars(&mut m, &cs);
            Err(string_of(&m))
        }
    }
}

// =============================================================================
// Windows
// =============================================================================

/// `x` when chrono represents it as an instant, else `fallback`.
pub open spec fn representable_or(x: int, fallback: i64) -> i64 {
    if i64::MIN <= x <= i64::MAX && calendar_of(x as i64) is Some {
        x as i64
    } else {
        fallback
    }
}

/// The start of the window of granularity `g` that holds `dt`: rounded down
/// to the minute, hour or day of the timestamp, or the first instant of the
/// UTC calendar month.
pub open spec fn metric_window(g: MetricGranularity, dt: i64) -> i64 {
    match g {
        MetricGranularity::Minute => representable_or(trunc_to(dt as int, 60), dt),
        MetricGranularity::Hour => representable_or(trunc_to(dt as int, 3600), dt),
        MetricGranularity::Day => representable_or(trunc_to(dt as int, 86400), dt),
        MetricGranularity::Month => match calendar_of(dt) {
            Some(f) => match instant_of(f.0, f.1, 1, 0, 0, 0) {
                Some(t) => t,
                None => dt,
            },
            None => dt,
        },
    }
}

/// `dt` rounded down to a multiple of `step` when chrono represents that
/// instant, else `dt`.
fn round_window(dt: i64, step: i64) -> (w: i64)
    requires
        0 < step <= 86400,
    ensures
        w == representable_or(trunc_to(dt as int, step as int), dt),
        valid_instant(trunc_to(dt as int, step as int)) ==> w == trunc_to(dt as int, step as int) && calendar_of(w) is Some,
{
    let t = truncate_to(dt, step);
    match calendar_fields(t) {
        Some(_) => t,
        None => dt,
    }
}

fn window_for(g: MetricGranularity, dt: i64) -> (w: i64)
    ensures
        w == metric_window(g, dt),
        (g == MetricGranularity::Minute || g == MetricGranularity::Hour) && hour_in_range(dt)
            ==> window_starts(g, w) && calendar_of(w) is Some,
{
    proof {
        if (g == MetricGranularity::Minute || g == MetricGranularity::Hour) && hour_in_range(dt) {
            let step: int = if g == MetricGranularity::Minute { 60 } else { 3600 };
            crate::clock::lemma_trunc_to_bounds(dt as int, step);
            assert(valid_instant(trunc_to(dt as int, step)));
            vstd::arithmetic::div_mod::lemma_mod_multiples_basic(crate::clock::trunc_div(dt as int, step), step);
        }
    }
    match g {
        MetricGranularity::Minute => round_window(dt, 60),
        MetricGranularity::Hour => round_window(dt, 3600),
        MetricGranularity::Day => round_window(dt, 86400),
        MetricGranularity::Month => match calendar_fields(dt) {
            Some(f) => match instant_from_fields(f.0, f.1, 1, 0, 0, 0) {
                Some(t) => t,
                None => dt,
            },
            None => dt,
        },
    }
}

/// The hour window that holds `now`: `now` rounded down to the hour.
pub fn get_hour_window(now: i64) -> (w: i64)
    ensures
        w == representable_or(trunc_to(now as int, 3600), now),
{
    round_window(now, 3600)
}

/// The minute window that holds `now`: the UTC calendar date, hour and
/// minute of `now` with zero seconds.
pub open spec fn minute_window(now: i64) -> i64 {
    match calendar_of(now) {
        Some(f) => match instant_of(f.0, f.1, f.2, f.3, f.4, 0) {
            Some(t) => t,
            None => now,
        },
        None => now,
    }
}

/// The minute window that holds `now`.
pub fn get_minute_window(now: i64) -> (w: i64)
    ensures
        w == minute_window(now),
        hour_in_range(now) ==> {
            &&& calendar_of(now) matches Some(f) && calendar_of(w) == Some((f.0, f.1, f.2, f.3, f.4, 0u32))
                && instant_of(f.0, f.1, f.2, f.3, f.4, 0) == Some(w)
            &&& w == now as int - now as int % 60
        },
{
    match calendar_fields(now) {
        Some(f) => {
            proof {
                if hour_in_range(now) {
                    let m: int = now as int - now as int % 60;
                    lemma_minute_start_same_day(now as int);
                    assert(valid_instant(m));
                    assert(calendar_of(m as i64) == Some((f.0, f.1, f.2, f.3, f.4, 0u32)));
                }
            }
            match instant_from_fields(f.0, f.1, f.2, f.3, f.4, 0) {
                Some(t) => t,
                None => now,
            }
        },
        None => now,
    }
}

// =============================================================================
// Window text parsing
// =============================================================================

/// Parses every piece as an `i32`, stopping at the first failure.
pub open spec fn parse_i32_all(ps: Seq<Seq<char>>) -> Result<Seq<i32>, Seq<char>>
    decreases ps.len(),
{
    if ps.len() == 0 {
        Ok(Seq::empty())
    } else {
        match parse_i32_all(ps.drop_last()) {
            Err(e) => Err(e),
            Ok(r) => match i32_text(ps.last()) {
                Some(v) => Ok(r.push(v)),
                None => Err(int_parse_error_text(ps.last())),
            },
        }
    }
}

fn parse_pieces(ps: &Vec<Vec<char>>) -> (res: Result<Vec<i32>, String>)
    ensures
        match (res, parse_i32_all(views(ps@))) {
            (Ok(a), Ok(b)) => a@ == b,
            (Err(m), Err(t)) => m@ == t,
            _ => false,
        },
{
    let mut out: Vec<i32> = Vec::new();
    let mut i: usize = 0;
    while i < ps.len()
        invariant
            i <= ps.len(),
            parse_i32_all(views(ps@).subrange(0, i as int)) == Ok::<Seq<i32>, Seq<char>>(out@),
        decreases ps.len() - i,
    {
        let ghost pre = views(ps@).subrange(0, i as int);
        let ghost cur = views(ps@).subrange(0, i + 1);
        assert(cur.drop_last() =~= pre);
        assert(cur.last() == ps@[i as int]@);
        match parse_i32(&ps[i]) {
            Some(v) => {
                out.push(v);
                i = i + 1;
            },
            None => {
                let piece = string_of(&ps[i]);
                let m = int_parse_error(piece.as_str());
                proof {
                    lemma_parse_all_prefix_err(views(ps@), i as int + 1);
                }
                return Err(m);
            },
        }
    }
    assert(views(ps@).subrange(0, ps.len() as int) =~= views(ps@));
    Ok(out)
}

/// A failure on a prefix is the failure of the whole sequence.
pub proof fn lemma_parse_all_prefix_err(ps: Seq<Seq<char>>, k: int)
    requires
        0 <= k <= ps.len(),
        parse_i32_all(ps.subrange(0, k)) is Err,
    ensures
        parse_i32_all(ps) == parse_i32_all(ps.subrange(0, k)),
    decreases ps.len() - k,
{
    if k < ps.len() {
        let q = ps.subrange(0, k + 1);
        assert(q.drop_last() =~= ps.subrange(0, k));
        lemma_parse_all_prefix_err(ps, k + 1);
    } else {
        assert(ps.subrange(0, k) =~= ps);
    }
}

/// What the window part of an application key denotes for granularity `g`.
pub open spec fn window_from_text(g: MetricGranularity, w: Seq<char>) -> Result<i64, Seq<char>> {
    match g {
        MetricGranularity::Minute => match parse_i32_all(split_text(w, '_')) {
            Err(e) => Err(e),
            Ok(n) => if n.len() != 5 {
                Err("Invalid minute window"@)
            } else {
                match instant_of(n[0], n[1] as u32, n[2] as u32, n[3] as u32, n[4] as u32, 0) {
                    Some(t) => Ok(t),
                    None => Err("Invalid datetime"@),
                }
            },
        },
        MetricGranularity::Hour => match parse_i32_all(split_text(w, '_')) {
            Err(e) => Err(e),
            Ok(n) => if n.len() != 4 {
                Err("Invalid hour window"@)
            } else {
                match instant_of(n[0], n[1] as u32, n[2] as u32, n[3] as u32, 0, 0) {
                    Some(t) => Ok(t),
                    None => Err("Invalid datetime"@),
                }
            },
        },
        _ => Err("Unsupported granularity for parsing"@),
    }
}

fn parse_window(g: MetricGranularity, w: &Vec<char>) -> (res: Result<i64, String>)
    ensures
        match (res, window_from_text(g, w@)) {
            (Ok(a), Ok(b)) => a == b,
            (Err(m), Err(t)) => m@ == t,
            _ => false,
        },
{
    match g {
        MetricGranularity::Minute => {
            let pieces = split_chars(w, '_');
            match parse_pieces(&pieces) {
                Err(m) => Err(m),
                Ok(n) => {
                    if n.len() != 5 {
                        Err(string_of(&chars_of("Invalid minute window")))
                    } else {
                        match instant_from_fields(n[0], n[1] as u32, n[2] as u32, n[3] as u32, n[4] as u32, 0) {
                            Some(t) => Ok(t),
                            None => Err(string_of(&chars_of("Invalid datetime"))),
                        }
                    }
                },
            }
        },
        MetricGranularity::Hour => {
            let pieces = split_chars(w, '_');
            match parse_pieces(&pieces) {
                Err(m) => Err(m),
                Ok(n) => {
                    if n.len() != 4 {
                        Err(string_of(&chars_of("Invalid hour window")))
                    } else {
                        match instant_from_fields(n[0], n[1] as u32, n[2] as u32, n[3] as u32, 0, 0) {
                            Some(t) => Ok(t),
                            None => Err(string_of(&chars_of("Invalid datetime"))),
                        }
                    }
                },
            }
        },
        _ => Err(string_of(&chars_of("Unsupported granularity for parsing"))),
    }
}

// =============================================================================
// Application metric key
// =============================================================================

/// Key of an application's counters for one window.
#[derive(Debug, Clone, Copy, PartialEq, Eq, Structural)]
pub struct MetricKey {
    pub app_id: u128,
    pub granularity: MetricGranularity,
    pub window: i64,
}

/// The text of an application metric key.
pub open spec fn metric_key_text(k: MetricKey) -> Seq<char> {
    key_text(seq!["metric"@, "app"@, uuid_text(k.app_id), granularity_word(k.granularity), suffix_at(k.granularity, k.window)])
}

/// The `:`-separated pieces of a key's text, without the leading
/// `vaultless` namespace where the text has one.
pub open spec fn key_pieces(s: Seq<char>) -> Seq<Seq<char>> {
    let parts = split_text(s, ':');
    if parts.len() > 0 && parts[0] == "vaultless"@ {
        parts.drop_first()
    } else {
        parts
    }
}

/// What `MetricKey::try_from` gives for the text `s`, of the form
/// `metric:app:{app_id}:{granularity}:{window}` (or the same under the
/// namespace): the third piece is the application, the fourth the
/// granularity and the rest, joined again, the window.
pub open spec fn metric_key_from_text(s: Seq<char>) -> Result<MetricKey, Seq<char>> {
    let parts = key_pieces(s);
    if parts.len() < 5 {
        Err("Invalid metric key format: "@ + s)
    } else {
        match uuid_parsed(parts[2]) {
            None => Err("Invalid app_id"@),
            Some(app) => match granularity_from_text(parts[3]) {
                Err(e) => Err(e),
                Ok(g) => match window_from_text(g, join_text(parts.subrange(4, parts.len() as int), ':')) {
                    Err(e) => Err(e),
                    Ok(w) => Ok(MetricKey { app_id: app, granularity: g, window: metric_window(g, w) }),
                },
            },
        }
    }
}

/// The pieces `from..` of `v`, as a new vector.
fn tail_pieces(v: &Vec<Vec<char>>, from: usize) -> (res: Vec<Vec<char>>)
    requires
        from <= v.len(),
    ensures
        views(res@) == views(v@).subrange(from as int, v.len() as int),
{
    let mut out: Vec<Vec<char>> = Vec::new();
    let mut i: usize = from;
    while i < v.len()
        invariant
            from <= i <= v.len(),
            views(out@) == views(v@).subrange(from as int, i as int),
        decreases v.len() - i,
    {
        let mut p: Vec<char> = Vec::new();
        append_chars(&mut p, &v[i]);
        let ghost before = out@;
        out.push(p);
        proof {
            assert(out@ =~= before.push(p));
            assert(views(out@) =~= views(before).push(p@));
            assert(p@ =~= v@[i as int]@);
        }
        i = i + 1;
        assert(views(out@) =~= views(v@).subrange(from as int, i as int));
    }
    out
}

/// The pieces of a key's text, as `key_pieces` describes them.
fn pieces_of_key(cs: &Vec<char>) -> (res: Vec<Vec<char>>)
    ensures
        views(res@) == key_pieces(cs@),
{
    let parts = split_chars(cs, ':');
    if parts.len() > 0 && chars_eq(&parts[0], &chars_of("vaultless")) {
        let rest = tail_pieces(&parts, 1);
        proof {
            assert(views(parts@)[0] == parts@[0]@);
            assert(views(parts@).subrange(1, parts.len() as int) =~= views(parts@).drop_first());
        }
        rest
    } else {
        proof {
            if parts.len() > 0 {
                assert(views(parts@)[0] == parts@[0]@);
            }
        }
        parts
    }
}

/// `Err(Internal(m))` with `m` the given text.
pub open spec fn internal_matches<T>(r: Result<T, VaultlessError>, expected: Result<T, Seq<char>>) -> bool {
    match (r, expected) {
        (Ok(a), Ok(b)) => a == b,
        (Err(VaultlessError::Internal(m)), Err(t)) => m@ == t,
        _ => false,
    }
}

/// A minute window starts a minute and an hour window starts an hour.
pub open spec fn window_starts(g: MetricGranularity, w: i64) -> bool {
    match g {
        MetricGranularity::Minute => w as int % 60 == 0,
        MetricGranularity::Hour => w as int % 3600 == 0,
        _ => false,
    }
}

impl MetricKey {
    /// The key of application `app_id`'s window of granularity
    /// `granularity` that holds `dt`.
    pub fn new(app_id: u128, dt: i64, granularity: MetricGranularity) -> (res: Result<MetricKey, VaultlessError>)
        ensures
            res == Ok::<MetricKey, VaultlessError>(MetricKey { app_id, granularity, window: metric_window(granularity, dt) }),
            (granularity == MetricGranularity::Minute || granularity == MetricGranularity::Hour) && hour_in_range(dt)
                ==> (res matches Ok(k) && window_starts(granularity, k.window) && calendar_of(k.window) is Some),
    {
        let window = window_for(granularity, dt);
        Ok(MetricKey { app_id, granularity, window })
    }

    /// The key's text.  A minute or hour key whose window starts its
    /// minute or hour (as every key `new` makes for an instant within
    /// `valid_instant` does) reads back from its text, for years of at most
    /// four digits.
    pub fn as_str(&self) -> (res: String)
        ensures
            res@ == metric_key_text(*self),
            window_starts(self.granularity, self.window)
                && (calendar_of(self.window) matches Some(f) && -999 <= f.0 <= 9999)
                ==> metric_key_from_text(res@) == Ok::<MetricKey, Seq<char>>(*self),
    {
        let suffix = self.granularity.key_suffix(self.window);
        let mut parts: Vec<Vec<char>> = Vec::new();
        parts.push(chars_of("metric"));
        parts.push(chars_of("app"));
        parts.push(id_chars(self.app_id));
        parts.push(chars_of(self.granularity.key_prefix()));
        parts.push(chars_of(suffix.as_str()));
        assert(views(parts@) =~= seq!["metric"@, "app"@, uuid_text(self.app_id), granularity_word(self.granularity), suffix_at(self.granularity, self.window)]);
        proof {
            if window_starts(self.granularity, self.window)
                && (calendar_of(self.window) matches Some(f) && -999 <= f.0 <= 9999) {
                let f = calendar_of(self.window)->0;
                let w = self.window as int;
                lemma_fundamental_div_mod(w, 86400);
                lemma_fundamental_div_mod(w, 3600);
                lemma_mod_mod(w, 3600, 24);
                lemma_mod_mod(w, 60, 60);
                assert(f.3 < 24) by (nonlinear_arith)
                    requires
                        f.3 == (w % 86400) / 3600,
                        0 <= w % 86400 < 86400,
                {
                }
                assert(f.4 < 60) by (nonlinear_arith)
                    requires
                        f.4 == (w % 3600) / 60,
                        0 <= w % 3600 < 3600,
                {
                }
                lemma_metric_key_round_trip(*self, f);
            }
        }
        cache_key(parts)
    }

    /// Reads a key from its text.
    pub fn try_from(s: String) -> (res: Result<MetricKey, VaultlessError>)
        ensures
            internal_matches(res, metric_key_from_text(s@)),
    {
        let cs = chars_of(s.as_str());
        let parts = pieces_of_key(&cs);
        if parts.len() < 5 {
            let mut m = chars_of("Invalid metric key format: ");
            append_chars(&mut m, &cs);
            return Err(VaultlessError::Internal(string_of(&m)));
        }
        let id_text = string_of(&parts[2]);
        let app_id = match parse_uuid(id_text.as_str()) {
            Some(a) => a,
            None => {
                return Err(VaultlessError::Internal(string_of(&chars_of("Invalid app_id"))));
            },
        };
        let g_text = string_of(&parts[3]);
        let granularity = match MetricGranularity::from_str(g_text.as_str()) {
            Ok(g) => g,
            Err(e) => {
                return Err(VaultlessError::Internal(e));
            },
        };
        let rest = tail_pieces(&parts, 4);
        let window_text = join_chars(&rest, ':');
        match parse_window(granularity, &window_text) {
            Err(m) => Err(VaultlessError::Internal(m)),
            Ok(w) => MetricKey::new(app_id, w, granularity),
        }
    }

    /// The application and window start of the key.
    pub fn parse(&self) -> (res: Option<(u128, i64)>)
        ensures
            res == Some((self.app_id, self.window)),
    {
        Some((self.app_id, self.window))
    }
}


// =============================================================================
// Client metric key
// =============================================================================

/// Key of a client's counters within an application, for one window.
#[derive(Debug, Clone, Copy, PartialEq, Eq, Structural, Hash)]
pub struct ClientMetricKey {
    pub app_id: u128,
    pub client_id: u128,
    pub granularity: MetricGranularity,
    pub window: i64,
}

/// The window of a client key: rounded down to the minute or hour; other
/// granularities keep `dt`.
pub open spec fn client_window(g: MetricGranularity, dt: i64) -> i64 {
    match g {
        MetricGranularity::Minute => representable_or(trunc_to(dt as int, 60), dt),
        MetricGranularity::Hour => representable_or(trunc_to(dt as int, 3600), dt),
        _ => dt,
    }
}

/// The text of a client metric key.
pub open spec fn client_metric_key_text(k: ClientMetricKey) -> Seq<char> {
    key_text(seq!["metric"@, "client"@, uuid_text(k.app_id), uuid_text(k.client_id),
        granularity_word(k.granularity), suffix_at(k.granularity, k.window)])
}

/// What the window part of a client key denotes: only hour windows are
/// read.
pub open spec fn client_window_from_text(g: MetricGranularity, w: Seq<char>) -> Result<i64, Seq<char>> {
    match g {
        MetricGranularity::Hour => window_from_text(g, w),
        _ => Err("Unsupported granularity for client metric parsing"@),
    }
}

/// What `ClientMetricKey::try_from` gives for the text `s`, of the form
/// `metric:client:{app_id}:{client_id}:{granularity}:{window}` (or the same
/// under the namespace).
pub open spec fn client_metric_key_from_text(s: Seq<char>) -> Result<ClientMetricKey, Seq<char>> {
    let parts = key_pieces(s);
    if parts.len() < 6 {
        Err("Invalid client metric key format: "@ + s)
    } else {
        match uuid_parsed(parts[2]) {
            None => Err("Invalid app_id"@),
            Some(app) => match uuid_parsed(parts[3]) {
                None => Err("Invalid client_id"@),
                Some(client) => match granularity_from_text(parts[4]) {
                    Err(e) => Err(e),
                    Ok(g) => match client_window_from_text(g, join_text(parts.subrange(5, parts.len() as int), ':')) {
                        Err(e) => Err(e),
                        Ok(w) => Ok(ClientMetricKey { app_id: app, client_id: client, granularity: g, window: client_window(g, w) }),
                    },
                },
            },
        }
    }
}

impl ClientMetricKey {
    /// The key of client `client_id`'s window in application `app_id`.
    pub fn new(app_id: u128, client_id: u128, dt: i64, granularity: MetricGranularity) -> (res: Result<ClientMetricKey, VaultlessError>)
        ensures
            res == Ok::<ClientMetricKey, VaultlessError>(ClientMetricKey { app_id, client_id, granularity, window: client_window(granularity, dt) }),
    {
        let window = match granularity {
            MetricGranularity::Minute => round_window(dt, 60),
            MetricGranularity::Hour => round_window(dt, 3600),
            _ => dt,
        };
        Ok(ClientMetricKey { app_id, client_id, granularity, window })
    }

    /// The key's text.
    pub fn as_str(&self) -> (res: String)
        ensures
            res@ == client_metric_key_text(*self),
    {
        let suffix = self.granularity.key_suffix(self.window);
        let mut parts: Vec<Vec<char>> = Vec::new();
        parts.push(chars_of("metric"));
        parts.push(chars_of("client"));
        parts.push(id_chars(self.app_id));
        parts.push(id_chars(self.client_id));
        parts.push(chars_of(self.granularity.key_prefix()));
        parts.push(chars_of(suffix.as_str()));
        assert(views(parts@) =~= seq!["metric"@, "client"@, uuid_text(self.app_id), uuid_text(self.client_id),
            granularity_word(self.granularity), suffix_at(self.granularity, self.window)]);
        cache_key(parts)
    }

    /// Reads a client key from its text.
    pub fn try_from(s: String) -> (res: Result<ClientMetricKey, VaultlessError>)
        ensures
            internal_matches(res, client_metric_key_from_text(s@)),
    {
        let cs = chars_of(s.as_str());
        let parts = pieces_of_key(&cs);
        if parts.len() < 6 {
            let mut m = chars_of("Invalid client metric key format: ");
            append_chars(&mut m, &cs);
            return Err(VaultlessError::Internal(string_of(&m)));
        }
        let app_text = string_of(&parts[2]);
        let app_id = match parse_uuid(app_text.as_str()) {
            Some(a) => a,
            None => {
                return Err(VaultlessError::Internal(string_of(&chars_of("Invalid app_id"))));
            },
        };
        let client_text = string_of(&parts[3]);
        let client_id = match parse_uuid(client_text.as_str()) {
            Some(c) => c,
            None => {
                return Err(VaultlessError::Internal(string_of(&chars_of("Invalid client_id"))));
            },
        };
        let g_text = string_of(&parts[4]);
        let granularity = match MetricGranularity::from_str(g_text.as_str()) {
            Ok(g) => g,
            Err(e) => {
                return Err(VaultlessError::Internal(e));
            },
        };
        let rest = tail_pieces(&parts, 5);
        let window_text = join_chars(&rest, ':');
        match granularity {
            MetricGranularity::Hour => match parse_window(granularity, &window_text) {
                Err(m) => Err(VaultlessError::Internal(m)),
                Ok(w) => ClientMetricKey::new(app_id, client_id, w, granularity),
            },
            _ => Err(VaultlessError::Internal(string_of(&chars_of("Unsupported granularity for client metric parsing")))),
        }
    }

    /// The application, client and window start of the key.
    pub fn parse(&self) -> (res: Option<(u128, u128, i64)>)
        ensures
            res == Some((self.app_id, self.client_id, self.window)),
    {
        Some((self.app_id, self.client_id, self.window))
    }
}

// =============================================================================
// Counter hashes
// =============================================================================

/// The value stored under `name` in a hash read as a list of fields: the
/// last entry with that name (a hash holds each name at most once).
pub open spec fn field_value(entries: Seq<(Seq<char>, i64)>, name: Seq<char>) -> Option<i64>
    decreases entries.len(),
{
    if entries.len() == 0 {
        None
    } else if entries.last().0 == name {
        Some(entries.last().1)
    } else {
        field_value(entries.drop_last(), name)
    }
}

/// Law: a hash holds a value for `name` exactly when some field has that
/// name, and the value is that of the last field with the name.
pub proof fn lemma_field_value(entries: Seq<(Seq<char>, i64)>, name: Seq<char>)
    ensures
        field_value(entries, name) is Some <==> exists|i: int| 0 <= i < entries.len() && (#[trigger] entries[i]).0 == name,
        field_value(entries, name) matches Some(x) ==> exists|i: int| 0 <= i < entries.len() && #[trigger] entries[i] == (name, x)
            && forall|j: int| i < j < entries.len() ==> (#[trigger] entries[j]).0 != name,
    decreases entries.len(),
{
    if entries.len() > 0 {
        let t = entries.drop_last();
        lemma_field_value(t, name);
        let l = entries.len() - 1;
        assert(entries[l] == entries.last());
        assert forall|i: int| 0 <= i < l implies #[trigger] entries[i] == t[i] by {}
        if entries.last().0 != name {
            if field_value(t, name) is Some {
                let x = field_value(t, name)->0;
                let i = choose|i: int| 0 <= i < t.len() && #[trigger] t[i] == (name, x)
                    && forall|j: int| i < j < t.len() ==> (#[trigger] t[j]).0 != name;
                assert(entries[i] == (name, x));
                assert forall|j: int| i < j < entries.len() implies (#[trigger] entries[j]).0 != name by {
                    if j < l {
                        assert(entries[j] == t[j]);
                    }
                }
            }
            assert forall|i: int| 0 <= i < entries.len() && (#[trigger] entries[i]).0 == name implies
                exists|k: int| 0 <= k < t.len() && (#[trigger] t[k]).0 == name by {
                assert(i < l);
                assert(t[i] == entries[i]);
            }
        }
    }
}

/// The entries of a hash as character sequences and values.
pub open spec fn entries_view(entries: Seq<(String, i64)>) -> Seq<(Seq<char>, i64)> {
    entries.map_values(|e: (String, i64)| (e.0@, e.1))
}

/// The value of field `name` in `entries`, if there is one.
pub fn lookup_field(entries: &Vec<(String, i64)>, name: &str) -> (res: Option<i64>)
    ensures
        res == field_value(entries_view(entries@), name@),
{
    let target = chars_of(name);
    let mut i: usize = entries.len();
    assert(entries_view(entries@).subrange(0, i as int) =~= entries_view(entries@));
    while i > 0
        invariant
            i <= entries.len(),
            target@ == name@,
            field_value(entries_view(entries@), name@) == field_value(entries_view(entries@).subrange(0, i as int), name@),
        decreases i,
    {
        let ghost pre = entries_view(entries@).subrange(0, i as int);
        assert(pre.drop_last() =~= entries_view(entries@).subrange(0, i - 1));
        let e = &entries[i - 1];
        let ec = chars_of(e.0.as_str());
        if crate::text::chars_eq(&ec, &target) {
            return Some(e.1);
        }
        i = i - 1;
    }
    assert(entries_view(entries@).subrange(0, 0) =~= Seq::<(Seq<char>, i64)>::empty());
    None
}

/// `v` when present, else `d`.
pub open spec fn or_keep(v: Option<i64>, d: i64) -> i64 {
    match v {
        Some(x) => x,
        None => d,
    }
}

/// Rust's `/` on integers.
pub open spec fn rust_div(a: int, b: int) -> int {
    crate::clock::trunc_div(a, b)
}

/// Counters of an application for one window.
#[derive(Debug, Clone, Copy, PartialEq, Eq, Structural, Default)]
pub struct MetricCounters {
    pub messages_sent: i64,
    pub messages_received: i64,
    pub proofs_verified: i64,
    pub total_bytes_sent: i64,
    pub total_bytes_received: i64,
    pub rate_limit_hits: i64,
    pub bytes_proved: i64,
}

/// The cost estimate in cents. The model charges $0.001 per thousand
/// messages and $0.001 per megabyte moved, a tenth of a cent each: a cent
/// per ten thousand messages plus a cent per ten million bytes, each
/// rounded toward zero.
pub open spec fn cost_cents(sent: i64, received: i64, bytes_sent: i64, bytes_received: i64) -> int {
    rust_div(sent + received, 10_000) + rust_div(bytes_sent + bytes_received, 10_000_000)
}

/// Law: for non-negative usage, an application's cost is a cent per whole
/// ten thousand messages plus a cent per whole ten million bytes, and a
/// client's a cent per whole thousand messages plus a cent per whole
/// million bytes.
pub proof fn lemma_cost_rates(sent: i64, received: i64, bytes_sent: i64, bytes_received: i64)
    requires
        0 <= sent + received,
        0 <= bytes_sent + bytes_received,
    ensures
        cost_cents(sent, received, bytes_sent, bytes_received) == (sent + received) / 10_000
            + (bytes_sent + bytes_received) / 10_000_000,
        client_cost_cents(sent, received, bytes_sent, bytes_received) == (sent + received) / 1000
            + (bytes_sent + bytes_received) / 1_000_000,
{
}

/// The sums that the cost estimate adds fit in `i64`.
pub open spec fn cost_fits(sent: i64, received: i64, bytes_sent: i64, bytes_received: i64) -> bool {
    &&& i64::MIN <= sent + received <= i64::MAX
    &&& i64::MIN <= bytes_sent + bytes_received <= i64::MAX
}

fn cost_estimate(sent: i64, received: i64, bytes_sent: i64, bytes_received: i64) -> (c: i64)
    requires
        cost_fits(sent, received, bytes_sent, bytes_received),
    ensures
        c == cost_cents(sent, received, bytes_sent, bytes_received),
{
    let m = sent + received;
    let b = bytes_sent + bytes_received;
    let mc = m / 10_000;
    let bc = b / 10_000_000;
    assert(mc == rust_div(m as int, 10_000));
    assert(bc == rust_div(b as int, 10_000_000));
    proof {
        crate::clock::lemma_trunc_to_bounds(m as int, 10_000);
        crate::clock::lemma_trunc_to_bounds(b as int, 10_000_000);
        assert(-930_000_000_000_000 <= mc <= 930_000_000_000_000) by (nonlinear_arith)
            requires
                mc == rust_div(m as int, 10_000),
                i64::MIN <= m <= i64::MAX,
        {
        }
        assert(-930_000_000_000 <= bc <= 930_000_000_000) by (nonlinear_arith)
            requires
                bc == rust_div(b as int, 10_000_000),
                i64::MIN <= b <= i64::MAX,
        {
        }
    }
    mc + bc
}

/// The cost estimate of a client's counters, in cents: a cent per thousand
/// messages and a cent per million bytes, each rounded toward zero.
pub open spec fn client_cost_cents(sent: i64, received: i64, bytes_sent: i64, bytes_received: i64) -> int {
    rust_div(sent + received, 1000) + rust_div(bytes_sent + bytes_received, 1_000_000)
}

fn client_cost_estimate(sent: i64, received: i64, bytes_sent: i64, bytes_received: i64) -> (c: i64)
    requires
        cost_fits(sent, received, bytes_sent, bytes_received),
    ensures
        c == client_cost_cents(sent, received, bytes_sent, bytes_received),
{
    let m = sent + received;
    let b = bytes_sent + bytes_received;
    let mc = m / 1000;
    let bc = b / 1_000_000;
    assert(mc == rust_div(m as int, 1000));
    assert(bc == rust_div(b as int, 1_000_000));
    proof {
        crate::clock::lemma_trunc_to_bounds(m as int, 1000);
        crate::clock::lemma_trunc_to_bounds(b as int, 1_000_000);
        assert(-9_300_000_000_000_000 <= mc <= 9_300_000_000_000_000) by (nonlinear_arith)
            requires
                mc == rust_div(m as int, 1000),
                i64::MIN <= m <= i64::MAX,
        {
        }
        assert(-9_300_000_000_000 <= bc <= 9_300_000_000_000) by (nonlinear_arith)
            requires
                bc == rust_div(b as int, 1_000_000),
                i64::MIN <= b <= i64::MAX,
        {
        }
    }
    mc + bc
}

impl MetricCounters {
    /// Are all counters zero?
    pub fn is_zero(&self) -> (b: bool)
        ensures
            b == (self.messages_sent == 0 && self.messages_received == 0 && self.proofs_verified == 0
                && self.total_bytes_sent == 0 && self.total_bytes_received == 0
                && self.rate_limit_hits == 0 && self.bytes_proved == 0),
    {
        self.messages_sent == 0 && self.messages_received == 0 && self.proofs_verified == 0
            && self.total_bytes_sent == 0 && self.total_bytes_received == 0
            && self.rate_limit_hits == 0 && self.bytes_proved == 0
    }

    /// Takes each counter that the hash holds from the hash; the others
    /// keep their value.  The hash comes as its list of fields; where a
    /// name were listed twice, the later value counts, as a map built from
    /// the list would keep it.
    pub fn merge_from_map(&mut self, map: &Vec<(String, i64)>)
        ensures
            final(self).messages_sent == or_keep(field_value(entries_view(map@), "messages_sent"@), old(self).messages_sent),
            final(self).messages_received == or_keep(field_value(entries_view(map@), "messages_received"@), old(self).messages_received),
            final(self).proofs_verified == or_keep(field_value(entries_view(map@), "proofs_verified"@), old(self).proofs_verified),
            final(self).total_bytes_sent == or_keep(field_value(entries_view(map@), "total_bytes_sent"@), old(self).total_bytes_sent),
            final(self).total_bytes_received == or_keep(field_value(entries_view(map@), "total_bytes_received"@), old(self).total_bytes_received),
            final(self).rate_limit_hits == or_keep(field_value(entries_view(map@), "rate_limit_hits"@), old(self).rate_limit_hits),
            final(self).bytes_proved == or_keep(field_value(entries_view(map@), "bytes_proved"@), old(self).bytes_proved),
    {
        if let Some(v) = lookup_field(map, "messages_sent") { self.messages_sent = v; }
        if let Some(v) = lookup_field(map, "messages_received") { self.messages_received = v; }
        if let Some(v) = lookup_field(map, "proofs_verified") { self.proofs_verified = v; }
        if let Some(v) = lookup_field(map, "total_bytes_sent") { self.total_bytes_sent = v; }
        if let Some(v) = lookup_field(map, "total_bytes_received") { self.total_bytes_received = v; }
        if let Some(v) = lookup_field(map, "rate_limit_hits") { self.rate_limit_hits = v; }
        if let Some(v) = lookup_field(map, "bytes_proved") { self.bytes_proved = v; }
    }

    /// Estimated cost in cents.
    pub fn estimate_cost_cents(&self) -> (c: i64)
        requires
            cost_fits(self.messages_sent, self.messages_received, self.total_bytes_sent, self.total_bytes_received),
        ensures
            c == cost_cents(self.messages_sent, self.messages_received, self.total_bytes_sent, self.total_bytes_received),
    {
        cost_estimate(self.messages_sent, self.messages_received, self.total_bytes_sent, self.total_bytes_received)
    }
}

/// Counters of a client for one window.
#[derive(Debug, Clone, Copy, PartialEq, Eq, Structural, Default)]
pub struct ClientMetricCounters {
    pub messages_sent: i64,
    pub messages_received: i64,
    pub proofs_verified: i64,
    pub total_bytes_sent: i64,
    pub total_bytes_received: i64,
    pub rate_limit_hits: i64,
}

impl ClientMetricCounters {
    /// Are all counters zero?
    pub fn is_zero(&self) -> (b: bool)
        ensures
            b == (self.messages_sent == 0 && self.messages_received == 0 && self.proofs_verified == 0
                && self.total_bytes_sent == 0 && self.total_bytes_received == 0
                && self.rate_limit_hits == 0),
    {
        self.messages_sent == 0 && self.messages_received == 0 && self.proofs_verified == 0
            && self.total_bytes_sent == 0 && self.total_bytes_received == 0
            && self.rate_limit_hits == 0
    }

    /// Takes each counter that the hash holds from the hash; the others
    /// keep their value.  The hash comes as its list of fields; where a
    /// name were listed twice, the later value counts, as a map built from
    /// the list would keep it.
    pub fn merge_from_map(&mut self, map: &Vec<(String, i64)>)
        ensures
            final(self).messages_sent == or_keep(field_value(entries_view(map@), "messages_sent"@), old(self).messages_sent),
            final(self).messages_received == or_keep(field_value(entries_view(map@), "messages_received"@), old(self).messages_received),
            final(self).proofs_verified == or_keep(field_value(entries_view(map@), "proofs_verified"@), old(self).proofs_verified),
            final(self).total_bytes_sent == or_keep(field_value(entries_view(map@), "total_bytes_sent"@), old(self).total_bytes_sent),
            final(self).total_bytes_received == or_keep(field_value(entries_view(map@), "total_bytes_received"@), old(self).total_bytes_received),
            final(self).rate_limit_hits == or_keep(field_value(entries_view(map@), "rate_limit_hits"@), old(self).rate_limit_hits),
    {
        if let Some(v) = lookup_field(map, "messages_sent") { self.messages_sent = v; }
        if let Some(v) = lookup_field(map, "messages_received") { self.messages_received = v; }
        if let Some(v) = lookup_field(map, "proofs_verified") { self.proofs_verified = v; }
        if let Some(v) = lookup_field(map, "total_bytes_sent") { self.total_bytes_sent = v; }
        if let Some(v) = lookup_field(map, "total_bytes_received") { self.total_bytes_received = v; }
        if let Some(v) = lookup_field(map, "rate_limit_hits") { self.rate_limit_hits = v; }
    }

    /// Estimated cost in cents.
    pub fn estimate_cost_cents(&self) -> (c: i64)
        requires
            cost_fits(self.messages_sent, self.messages_received, self.total_bytes_sent, self.total_bytes_received),
        ensures
            c == client_cost_cents(self.messages_sent, self.messages_received, self.total_bytes_sent, self.total_bytes_received),
    {
        client_cost_estimate(self.messages_sent, self.messages_received, self.total_bytes_sent, self.total_bytes_received)
    }
}

// =============================================================================
// Flusher monitoring
// =============================================================================

/// `n + 1`, wrapping to zero past `u64::MAX` (what an atomic `fetch_add`
/// does).
pub open spec fn wrapping_inc(n: u64) -> u64 {
    if n == u64::MAX {
        0
    } else {
        (n + 1) as u64
    }
}

/// Counters that monitor the application flusher.
#[derive(Debug, Clone, Copy, PartialEq, Eq, Structural, Default)]
pub struct FlusherMetrics {
    pub keys_processed: u64,
    pub batches_processed: u64,
    pub total_flush_duration_ms: u64,
    pub errors: u64,
}

impl FlusherMetrics {
    /// Counts one error.
    pub fn record_error(&mut self)
        ensures
            final(self).errors == wrapping_inc(old(self).errors),
            final(self).keys_processed == old(self).keys_processed,
            final(self).batches_processed == old(self).batches_processed,
            final(self).total_flush_duration_ms == old(self).total_flush_duration_ms,
    {
        self.errors = if self.errors == u64::MAX { 0 } else { self.errors + 1 };
    }
}

/// Counters that monitor the client flusher.
#[derive(Debug, Clone, Copy, PartialEq, Eq, Structural, Default)]
pub struct ClientFlusherMetrics {
    pub keys_processed: u64,
    pub batches_processed: u64,
    pub total_flush_duration_ms: u64,
    pub errors: u64,
}

impl ClientFlusherMetrics {
    /// Counts one error.
    pub fn record_error(&mut self)
        ensures
            final(self).errors == wrapping_inc(old(self).errors),
            final(self).keys_processed == old(self).keys_processed,
            final(self).batches_processed == old(self).batches_processed,
            final(self).total_flush_duration_ms == old(self).total_flush_duration_ms,
    {
        self.errors = if self.errors == u64::MAX { 0 } else { self.errors + 1 };
    }
}

// =============================================================================
// Reading keys back
// =============================================================================

/// Parsing the zero-padded rendering of each field gives the fields back.
proof fn lemma_parse_padded(ns: Seq<i32>, widths: Seq<nat>)
    requires
        ns.len() == widths.len(),
    ensures
        parse_i32_all(Seq::new(ns.len(), |i: int| pad_text(ns[i] as int, widths[i])))
            == Ok::<Seq<i32>, Seq<char>>(ns),
    decreases ns.len(),
{
    let ps = Seq::new(ns.len(), |i: int| pad_text(ns[i] as int, widths[i]));
    if ns.len() > 0 {
        let ns0 = ns.drop_last();
        let w0 = widths.drop_last();
        lemma_parse_padded(ns0, w0);
        assert(ps.drop_last() =~= Seq::new(ns0.len(), |i: int| pad_text(ns0[i] as int, w0[i])));
        lemma_pad_text_signed(ns.last() as int, widths.last());
        assert(ps.last() == pad_text(ns.last() as int, widths.last()));
        assert(i32_text(ps.last()) == Some(ns.last()));
        assert(ns0.push(ns.last()) =~= ns);
    } else {
        assert(ps =~= Seq::<Seq<char>>::empty());
        assert(ns =~= Seq::<i32>::empty());
    }
}

/// Splitting a minute window's text on `_` gives the padded fields, which
/// parse back to the fields.
#[verifier::spinoff_prover]
#[verifier::rlimit(40)]
proof fn lemma_minute_suffix_parses(f: (i32, u32, u32, u32, u32, u32))
    requires
        f.1 <= 12,
        f.2 <= 31,
        f.3 < 24,
        f.4 < 60,
    ensures
        parse_i32_all(split_text(suffix_text(MetricGranularity::Minute, f), '_'))
            == Ok::<Seq<i32>, Seq<char>>(seq![f.0, f.1 as i32, f.2 as i32, f.3 as i32, f.4 as i32]),
{
    let ps = seq![pad_text(f.0 as int, 4), pad_text(f.1 as int, 2), pad_text(f.2 as int, 2), pad_text(f.3 as int, 2), pad_text(f.4 as int, 2)];
    lemma_pad_text_free(f.0 as int, 4, '_');
    lemma_pad_text_free(f.1 as int, 2, '_');
    lemma_pad_text_free(f.2 as int, 2, '_');
    lemma_pad_text_free(f.3 as int, 2, '_');
    lemma_pad_text_free(f.4 as int, 2, '_');
    assert(suffix_text(MetricGranularity::Minute, f) == join_text(ps, '_'));
    lemma_split_join(ps, '_');
    let ns = seq![f.0, f.1 as i32, f.2 as i32, f.3 as i32, f.4 as i32];
    let ws = seq![4nat, 2nat, 2nat, 2nat, 2nat];
    lemma_parse_padded(ns, ws);
    assert(Seq::new(ns.len(), |i: int| pad_text(ns[i] as int, ws[i])) =~= ps);
}

/// Splitting an hour window's text on `_` gives the padded fields, which
/// parse back to the fields.
#[verifier::spinoff_prover]
#[verifier::rlimit(40)]
proof fn lemma_hour_suffix_parses(f: (i32, u32, u32, u32, u32, u32))
    requires
        f.1 <= 12,
        f.2 <= 31,
        f.3 < 24,
    ensures
        parse_i32_all(split_text(suffix_text(MetricGranularity::Hour, f), '_'))
            == Ok::<Seq<i32>, Seq<char>>(seq![f.0, f.1 as i32, f.2 as i32, f.3 as i32]),
{
    let ps = seq![pad_text(f.0 as int, 4), pad_text(f.1 as int, 2), pad_text(f.2 as int, 2), pad_text(f.3 as int, 2)];
    lemma_pad_text_free(f.0 as int, 4, '_');
    lemma_pad_text_free(f.1 as int, 2, '_');
    lemma_pad_text_free(f.2 as int, 2, '_');
    lemma_pad_text_free(f.3 as int, 2, '_');
    assert(suffix_text(MetricGranularity::Hour, f) == join_text(ps, '_'));
    lemma_split_join(ps, '_');
    let ns = seq![f.0, f.1 as i32, f.2 as i32, f.3 as i32];
    let ws = seq![4nat, 2nat, 2nat, 2nat];
    lemma_parse_padded(ns, ws);
    assert(Seq::new(ns.len(), |i: int| pad_text(ns[i] as int, ws[i])) =~= ps);
}

/// Splitting the window text of calendar fields on `_` gives the padded
/// fields, which parse back to the fields.
proof fn lemma_suffix_parses(g: MetricGranularity, f: (i32, u32, u32, u32, u32, u32))
    requires
        g == MetricGranularity::Minute || g == MetricGranularity::Hour,
        f.1 <= 12,
        f.2 <= 31,
        f.3 < 24,
        f.4 < 60,
    ensures
        g == MetricGranularity::Minute ==> parse_i32_all(split_text(suffix_text(g, f), '_'))
            == Ok::<Seq<i32>, Seq<char>>(seq![f.0, f.1 as i32, f.2 as i32, f.3 as i32, f.4 as i32]),
        g == MetricGranularity::Hour ==> parse_i32_all(split_text(suffix_text(g, f), '_'))
            == Ok::<Seq<i32>, Seq<char>>(seq![f.0, f.1 as i32, f.2 as i32, f.3 as i32]),
{
    if g == MetricGranularity::Minute {
        lemma_minute_suffix_parses(f);
    } else {
        lemma_hour_suffix_parses(f);
    }
}

/// The window text holds no `:`.
proof fn lemma_suffix_free(g: MetricGranularity, t: i64)
    ensures
        free_of(suffix_at(g, t), ':'),
{
    match calendar_of(t) {
        None => {},
        Some(f) => {
            lemma_pad_text_free(f.0 as int, 4, ':');
            lemma_pad_text_free(f.1 as int, 2, ':');
            lemma_pad_text_free(f.2 as int, 2, ':');
            lemma_pad_text_free(f.3 as int, 2, ':');
            lemma_pad_text_free(f.4 as int, 2, ':');
            let y = pad_text(f.0 as int, 4);
            let mo = pad_text(f.1 as int, 2);
            let d = pad_text(f.2 as int, 2);
            let h = pad_text(f.3 as int, 2);
            let mi = pad_text(f.4 as int, 2);
            match g {
                MetricGranularity::Minute => lemma_join_free(seq![y, mo, d, h, mi], '_', ':'),
                MetricGranularity::Hour => lemma_join_free(seq![y, mo, d, h], '_', ':'),
                MetricGranularity::Day => lemma_join_free(seq![y, mo, d], '_', ':'),
                MetricGranularity::Month => lemma_join_free(seq![y, mo], '_', ':'),
            }
        },
    }
}

/// Reading back the text of an application key for a minute or hour
/// window gives the key.
///
/// Stated for a window `w` that starts a minute (or hour), given what
/// `calendar_fields` and `instant_from_fields` state of `w`'s calendar
/// fields `f`, and given that `parse_uuid` reads the canonical text of the
/// application back.
pub proof fn lemma_metric_key_round_trip(k: MetricKey, f: (i32, u32, u32, u32, u32, u32))
    requires
        k.granularity == MetricGranularity::Minute || k.granularity == MetricGranularity::Hour,
        calendar_of(k.window) == Some(f),
        1 <= f.1 <= 12,
        1 <= f.2 <= 31,
        f.3 < 24,
        f.4 < 60,
        f.5 == 0,
        k.granularity == MetricGranularity::Hour ==> f.4 == 0,
        k.window as int % 60 == 0,
        k.granularity == MetricGranularity::Hour ==> k.window as int % 3600 == 0,
        instant_of(f.0, f.1, f.2, f.3, f.4, f.5) == Some(k.window),
        uuid_parsed(uuid_text(k.app_id)) == Some(k.app_id),
    ensures
        metric_key_from_text(metric_key_text(k)) == Ok::<MetricKey, Seq<char>>(k),
{
    reveal_strlit("vaultless");
    reveal_strlit("metric");
    reveal_strlit("app");
    reveal_strlit("minute");
    reveal_strlit("min");
    reveal_strlit("hour");
    let g = k.granularity;
    let sfx = suffix_at(g, k.window);
    let parts = seq!["vaultless"@, "metric"@, "app"@, uuid_text(k.app_id), granularity_word(g), sfx];
    assert(seq!["vaultless"@].add(seq!["metric"@, "app"@, uuid_text(k.app_id), granularity_word(g), sfx]) =~= parts);
    lemma_uuid_text_shape(k.app_id);
    lemma_suffix_free(g, k.window);
    assert forall|i: int| 0 <= i < parts.len() implies free_of(#[trigger] parts[i], ':') by {
        if i == 3 {
        } else if i == 5 {
        } else if i == 4 {
            assert(free_of(granularity_word(g), ':'));
        }
    }
    lemma_split_join(parts, ':');
    let key = metric_key_text(k);
    assert(split_text(key, ':') == parts);
    let pieces = parts.drop_first();
    assert(key_pieces(key) == pieces);
    assert(pieces.subrange(4, 5) =~= seq![sfx]);
    assert(pieces[2] == uuid_text(k.app_id));
    assert(pieces[3] == granularity_word(g));
    assert(join_text(seq![sfx], ':') == sfx);
    assert(granularity_from_text(pieces[3]) == Ok::<MetricGranularity, Seq<char>>(g)) by {
        if g == MetricGranularity::Minute {
            assert(lower_is("minute"@, "minute"@));
        } else {
            assert(!lower_is("hour"@, "minute"@));
            assert(!lower_is("hour"@, "min"@));
            assert(lower_is("hour"@, "hour"@));
        }
    }
    lemma_suffix_parses(g, f);
    assert(sfx == suffix_text(g, f));
    if g == MetricGranularity::Minute {
        let n = seq![f.0, f.1 as i32, f.2 as i32, f.3 as i32, f.4 as i32];
        assert(n[1] as u32 == f.1 && n[2] as u32 == f.2 && n[3] as u32 == f.3 && n[4] as u32 == f.4);
        assert(window_from_text(g, sfx) == Ok::<i64, Seq<char>>(k.window));
    } else {
        let n = seq![f.0, f.1 as i32, f.2 as i32, f.3 as i32];
        assert(n[1] as u32 == f.1 && n[2] as u32 == f.2 && n[3] as u32 == f.3);
        assert(window_from_text(g, sfx) == Ok::<i64, Seq<char>>(k.window));
    }
    let step: int = if g == MetricGranularity::Minute { 60 } else { 3600 };
    assert(trunc_to(k.window as int, step) == k.window) by (nonlinear_arith)
        requires
            step > 0,
            k.window as int % step == 0,
            trunc_to(k.window as int, step) == crate::clock::trunc_div(k.window as int, step) * step,
    {
        vstd::arithmetic::div_mod::lemma_fundamental_div_mod(k.window as int, step);
        if k.window < 0 {
            vstd::arithmetic::div_mod::lemma_fundamental_div_mod(-(k.window as int), step);
        }
    }
    assert(metric_window(g, k.window) == k.window);
}

} // verus!
