//! Instants and calendar fields.
//!
//! An instant is a whole number of seconds since 1970-01-01T00:00:00 UTC
//! (`i64`), the value `DateTime<Utc>::timestamp` gives.  Conversions between
//! instants and UTC calendar fields are made by `chrono`.
use vstd::prelude::*;
use chrono::{Datelike, TimeZone, Timelike, Utc};
use vstd::arithmetic::div_mod::{
    lemma_fundamental_div_mod, lemma_mod_mod, lemma_fundamental_div_mod_converse_div,
    lemma_fundamental_div_mod_converse_mod,
};

verus! {

/// The instants this library works on: every whole second within
/// 8·10¹² seconds of the epoch (about ±250,000 years), all of which
/// `chrono` represents.
pub open spec fn valid_instant(t: int) -> bool {
    -8_000_000_000_000 <= t <= 8_000_000_000_000
}

/// Rust's `/` on integers: the quotient rounded toward zero.
pub open spec fn trunc_div(a: int, b: int) -> int {
    if a >= 0 {
        a / b
    } else {
        -((-a) / b)
    }
}

/// `t` rounded down (toward zero, as `t / step * step` does in Rust) to a
/// multiple of `step`.
pub open spec fn trunc_to(t: int, step: int) -> int {
    trunc_div(t, step) * step
}

/// The UTC calendar fields `(year, month, day, hour, minute, second)` of an
/// instant, as `chrono` computes them.
pub uninterp spec fn calendar_of(secs: i64) -> Option<(i32, u32, u32, u32, u32, u32)>;

/// The instant with the given UTC calendar fields, as `chrono` computes it.
pub uninterp spec fn instant_of(year: i32, month: u32, day: u32, hour: u32, minute: u32, second: u32) -> Option<i64>;

/// The UTC calendar fields of `secs`.
///
/// Calls `Utc.timestamp_opt(secs, 0).single()` and reads the fields.  The
/// contract names the result and states what chrono's source shows: every
/// instant within `valid_instant` is represented, months run from 1 to 12,
/// days from 1 to 31, and the time of day comes from the Euclidean remainder
/// of `secs` by 86,400 (no leap seconds), while the date comes from the
/// Euclidean quotient alone: every instant of the same day has the same
/// date.  The fields give back the instant through `with_ymd_and_hms`.
#[verifier::external_body]
pub(crate) fn calendar_fields(secs: i64) -> (res: Option<(i32, u32, u32, u32, u32, u32)>)
    ensures
        res == calendar_of(secs),
        valid_instant(secs as int) ==> res is Some,
        res matches Some(f) ==> {
            &&& 1 <= f.1 <= 12
            &&& 1 <= f.2 <= 31
            &&& f.3 == (secs as int % 86400) / 3600
            &&& f.4 == (secs as int % 3600) / 60
            &&& f.5 == secs as int % 60
            &&& instant_of(f.0, f.1, f.2, f.3, f.4, f.5) == Some(secs)
        },
        res matches Some(f) ==> forall|u: i64|
            valid_instant(u as int) && u as int / 86400 == secs as int / 86400 ==> #[trigger] calendar_of(u) == Some(
                (f.0, f.1, f.2, ((u as int % 86400) / 3600) as u32, ((u as int % 3600) / 60) as u32, (u as int % 60) as u32),
            ),
{
    match Utc.timestamp_opt(secs, 0).single() {
        Some(dt) => Some((dt.year(), dt.month(), dt.day(), dt.hour(), dt.minute(), dt.second())),
        None => None,
    }
}

/// The instant with the given UTC calendar fields.
///
/// Calls `Utc.with_ymd_and_hms(..).single()` and takes the timestamp.  The
/// contract names the result and states that it inverts `calendar_fields`:
/// the fields of an instant give back that instant, and an instant given
/// back has exactly those fields.
#[verifier::external_body]
pub(crate) fn instant_from_fields(year: i32, month: u32, day: u32, hour: u32, minute: u32, second: u32) -> (res: Option<i64>)
    ensures
        res == instant_of(year, month, day, hour, minute, second),
        forall|t: i64| calendar_of(t) == Some((year, month, day, hour, minute, second)) ==> res == Some(t),
        res matches Some(t) ==> calendar_of(t) == Some((year, month, day, hour, minute, second)),
{
    Utc.with_ymd_and_hms(year, month, day, hour, minute, second).single().map(|dt| dt.timestamp())
}

/// The text `chrono` renders for the instant `secs` with the strftime
/// pattern `pattern`.
pub uninterp spec fn utc_text(secs: i64, pattern: Seq<char>) -> Seq<char>;

/// Calendar fields whose year `%Y` prints as four plain digits.
pub open spec fn four_digit_year(f: (i32, u32, u32, u32, u32, u32)) -> bool {
    0 <= f.0 <= 9999
}

/// Renders the instant `secs` with a strftime pattern.
///
/// Calls `DateTime::format(pattern).to_string()` on
/// `Utc.timestamp_opt(secs, 0)` (empty text for an instant chrono does not
/// represent).  The contract names the text and states what chrono's
/// formatting code shows for the three patterns this library uses, for
/// years 0 to 9999: `%Y_%m_%d_%H_%M` gives the year in four digits and
/// month, day, hour and minute in two, joined with `_`; `%Y-%m` gives the
/// year and the month joined with `-`; `%Y%m%d%H` gives year, month, day
/// and hour with nothing between them.  Other years are printed with a
/// sign, which is left unsaid.  Only these three patterns are accepted:
/// chrono's formatting fails (and `to_string` panics) on a pattern it
/// rejects.
#[verifier::external_body]
pub(crate) fn format_utc(secs: i64, pattern: &str) -> (res: String)
    requires
        pattern@ == "%Y_%m_%d_%H_%M"@ || pattern@ == "%Y-%m"@ || pattern@ == "%Y%m%d%H"@,
    ensures
        res@ == utc_text(secs, pattern@),
        calendar_of(secs) matches Some(f) ==> (four_digit_year(f) && pattern@ == "%Y_%m_%d_%H_%M"@ ==> res@ == crate::text::join_text(seq![
            crate::text::pad_text(f.0 as int, 4), crate::text::pad_text(f.1 as int, 2), crate::text::pad_text(f.2 as int, 2),
            crate::text::pad_text(f.3 as int, 2), crate::text::pad_text(f.4 as int, 2)], '_')),
        calendar_of(secs) matches Some(f) ==> (four_digit_year(f) && pattern@ == "%Y-%m"@ ==> res@ == crate::text::join_text(seq![
            crate::text::pad_text(f.0 as int, 4), crate::text::pad_text(f.1 as int, 2)], '-')),
        calendar_of(secs) matches Some(f) ==> (four_digit_year(f) && pattern@ == "%Y%m%d%H"@ ==> res@ == crate::text::pad_text(f.0 as int, 4)
            + crate::text::pad_text(f.1 as int, 2) + crate::text::pad_text(f.2 as int, 2) + crate::text::pad_text(f.3 as int, 2)),
{
    match Utc.timestamp_opt(secs, 0).single() {
        Some(dt) => dt.format(pattern).to_string(),
        None => String::new(),
    }
}

/// The current instant.
///
/// Calls `Utc::now().timestamp()`; nothing is promised of the value.
#[verifier::external_body]
pub(crate) fn now_seconds() -> (t: i64) {
    Utc::now().timestamp()
}

/// `trunc_to(t, step)` lies between zero and `t`, less than `step` away
/// from `t`.
pub proof fn lemma_trunc_to_bounds(t: int, step: int)
    requires
        step > 0,
    ensures
        t >= 0 ==> 0 <= trunc_to(t, step) <= t,
        t < 0 ==> t <= trunc_to(t, step) <= 0,
        t - step < trunc_to(t, step) < t + step,
{
    if t >= 0 {
        assert(0 <= (t / step) * step <= t && t - step < (t / step) * step) by (nonlinear_arith)
            requires
                t >= 0,
                step > 0,
        {
            vstd::arithmetic::div_mod::lemma_fundamental_div_mod(t, step);
        }
    } else {
        let u = -t;
        assert(0 <= (u / step) * step <= u && u - step < (u / step) * step) by (nonlinear_arith)
            requires
                u > 0,
                step > 0,
        {
            vstd::arithmetic::div_mod::lemma_fundamental_div_mod(u, step);
        }
        assert(trunc_to(t, step) == -((u / step) * step)) by (nonlinear_arith)
            requires
                u == -t,
                t < 0,
                trunc_to(t, step) == (-(u / step)) * step,
        {
        }
    }
}

/// The instants whose hour (and minute) start the calendar is known to
/// give: those whose hour lies within `valid_instant`.
pub open spec fn hour_in_range(t: i64) -> bool {
    valid_instant(t as int) && valid_instant(t as int - 3600)
}

/// Rounding down to the hour keeps the day and the hour of the day.
pub proof fn lemma_hour_start_same_day(n: int)
    ensures
        (n - n % 3600) / 86400 == n / 86400,
        (n - n % 3600) % 86400 / 3600 == n % 86400 / 3600,
        (n - n % 3600) % 3600 == 0,
        (n - n % 3600) % 60 == 0,
        ((n - n % 3600) % 3600) / 60 == 0,
        0 <= n % 3600 < 3600,
{
    let h = n - n % 3600;
    let q = n / 86400;
    let r = n % 86400;
    lemma_fundamental_div_mod(n, 86400);
    lemma_fundamental_div_mod(n, 3600);
    lemma_mod_mod(n, 3600, 24);
    assert(r % 3600 == n % 3600);
    lemma_fundamental_div_mod(r, 3600);
    let hr = r / 3600;
    assert(0 <= r % 3600 < 3600);
    assert(r - r % 3600 == 3600 * hr);
    assert(0 <= hr < 24) by (nonlinear_arith)
        requires
            0 <= r < 86400,
            r == 3600 * hr + r % 3600,
            0 <= r % 3600 < 3600,
    {
    }
    assert(h == q * 86400 + 3600 * hr);
    lemma_fundamental_div_mod_converse_div(h, 86400, q, 3600 * hr);
    lemma_fundamental_div_mod_converse_mod(h, 86400, q, 3600 * hr);
    assert(h % 86400 == 3600 * hr);
    lemma_fundamental_div_mod_converse_div(3600 * hr, 3600, hr, 0);
    assert(h == (q * 24 + hr) * 3600) by (nonlinear_arith)
        requires
            h == q * 86400 + 3600 * hr,
    {
    }
    lemma_fundamental_div_mod_converse_mod(h, 3600, q * 24 + hr, 0);
    assert(h == (q * 1440 + hr * 60) * 60) by (nonlinear_arith)
        requires
            h == q * 86400 + 3600 * hr,
    {
    }
    lemma_fundamental_div_mod_converse_mod(h, 60, q * 1440 + hr * 60, 0);
}

/// Rounding down to the minute keeps the day, the hour of the day and the
/// minute of the hour.
pub proof fn lemma_minute_start_same_day(n: int)
    ensures
        (n - n % 60) / 86400 == n / 86400,
        (n - n % 60) % 86400 / 3600 == n % 86400 / 3600,
        ((n - n % 60) % 3600) / 60 == (n % 3600) / 60,
        (n - n % 60) % 60 == 0,
        0 <= n % 60 < 60,
{
    let h = n - n % 60;
    let q = n / 86400;
    let r = n % 86400;
    lemma_fundamental_div_mod(n, 86400);
    lemma_fundamental_div_mod(n, 60);
    lemma_mod_mod(n, 60, 1440);
    lemma_mod_mod(n, 3600, 24);
    lemma_mod_mod(n, 60, 60);
    assert(r % 60 == n % 60);
    assert(r % 3600 == n % 3600);
    lemma_fundamental_div_mod(r, 3600);
    let a = r / 3600;
    let b = r % 3600;
    assert(0 <= b < 3600);
    lemma_mod_mod(r, 60, 60);
    assert(b % 60 == r % 60);
    lemma_fundamental_div_mod(b, 60);
    let m = b / 60;
    assert(0 <= m < 60) by (nonlinear_arith)
        requires
            0 <= b < 3600,
            b == 60 * m + b % 60,
            0 <= b % 60 < 60,
    {
    }
    assert(0 <= a < 24) by (nonlinear_arith)
        requires
            0 <= r < 86400,
            r == 3600 * a + b,
            0 <= b < 3600,
    {
    }
    let big = 3600 * a + 60 * m;
    assert(h == q * 86400 + big);
    assert(0 <= big < 86400);
    lemma_fundamental_div_mod_converse_div(h, 86400, q, big);
    lemma_fundamental_div_mod_converse_mod(h, 86400, q, big);
    lemma_fundamental_div_mod_converse_div(big, 3600, a, 60 * m);
    assert(h == (q * 24 + a) * 3600 + 60 * m) by (nonlinear_arith)
        requires
            h == q * 86400 + 3600 * a + 60 * m,
    {
    }
    lemma_fundamental_div_mod_converse_mod(h, 3600, q * 24 + a, 60 * m);
    lemma_fundamental_div_mod_converse_div(60 * m, 60, m, 0);
    assert(h == (q * 1440 + a * 60 + m) * 60) by (nonlinear_arith)
        requires
            h == q * 86400 + 3600 * a + 60 * m,
    {
    }
    lemma_fundamental_div_mod_converse_mod(h, 60, q * 1440 + a * 60 + m, 0);
}

/// The RFC 3339 text chrono writes for the instant `micros` (microseconds
/// since the epoch).
pub uninterp spec fn rfc3339_text(micros: i64) -> Seq<char>;

/// The instant, in microseconds, that chrono reads from an RFC 3339 text.
pub uninterp spec fn rfc3339_instant(text: Seq<char>) -> Option<i64>;

/// Writes an instant as RFC 3339 text.
///
/// Calls `DateTime::from_timestamp_micros(micros)` and `to_rfc3339` (empty
/// text for an instant chrono does not represent).  The contract names the
/// text and states that chrono reads it back (for years 0 to 9999, whose
/// text has no sign), as `rfc3339_instant` says below.
#[verifier::external_body]
pub(crate) fn write_rfc3339(micros: i64) -> (s: String)
    ensures
        s@ == rfc3339_text(micros),
        calendar_of(crate::clock::micros_to_secs(micros)) matches Some(f) ==> (four_digit_year(f) ==> rfc3339_instant(s@) == Some(micros)),
{
    match chrono::DateTime::from_timestamp_micros(micros) {
        Some(dt) => dt.to_rfc3339(),
        None => String::new(),
    }
}

/// Reads an RFC 3339 instant.
///
/// Calls `str::parse::<DateTime<Utc>>` and takes `timestamp_micros` of a
/// success; the contract names the result.
#[verifier::external_body]
pub(crate) fn read_rfc3339(s: &str) -> (r: Option<i64>)
    ensures
        r == rfc3339_instant(s@),
        s@.len() == 0 ==> r is None,
{
    match s.parse::<chrono::DateTime<Utc>>() {
        Ok(dt) => Some(dt.timestamp_micros()),
        Err(_) => None,
    }
}

/// The whole second holding an instant given in microseconds.
pub open spec fn micros_to_secs(micros: i64) -> i64 {
    (micros as int / 1_000_000) as i64
}

/// Microseconds of the earliest instant chrono represents
/// (-262143-01-01T00:00:00Z).
pub const MIN_UTC_MICROS: i64 = -8334601315200000000;
/// Microseconds of the latest instant chrono represents
/// (+262142-12-31T23:59:59.999999999Z, truncated to the microsecond).
pub const MAX_UTC_MICROS: i64 = 8210266876799999999;

/// The current instant in microseconds.
///
/// Calls `Utc::now().timestamp_micros()`.  The reading is a `DateTime<Utc>`,
/// so it lies between chrono's `MIN_UTC` and `MAX_UTC`, whose microsecond
/// counts bound the result (the multiplication in `timestamp_micros` does
/// not overflow there); nothing else is promised of the value.
#[verifier::external_body]
pub(crate) fn now_micros() -> (t: i64)
    ensures
        MIN_UTC_MICROS <= t <= MAX_UTC_MICROS,
{
    Utc::now().timestamp_micros()
}

/// `t / step * step` computed in Rust's arithmetic.
pub fn truncate_to(t: i64, step: i64) -> (r: i64)
    requires
        0 < step <= 86400,
    ensures
        r == trunc_to(t as int, step as int),
{
    let q = t / step;
    assert(q == trunc_div(t as int, step as int));
    proof {
        lemma_trunc_to_bounds(t as int, step as int);
    }
    q * step
}

} // verus!
