//! Character-level text utilities: decimal rendering and parsing, separator
//! splitting and joining.
//!
//! Text is handled as sequences of `char`s (`Vec<char>` in executable code,
//! `Seq<char>` in specifications).  Decimal rendering follows Rust's `{:0w}`
//! formatting of integers, and decimal parsing follows `FromStr` for the
//! primitive integer types.
use vstd::prelude::*;

verus! {

/// `String::push` appends one character at the end of the string.
pub assume_specification[ String::push ](s: &mut String, ch: char)
    ensures
        final(s)@ == old(s)@.push(ch),
;

// =============================================================================
// Digits
// =============================================================================

/// An ASCII decimal digit.
pub open spec fn is_digit(c: char) -> bool {
    '0' <= c && c <= '9'
}

/// The value of an ASCII decimal digit.
pub open spec fn digit_val(c: char) -> nat {
    (c as int - '0' as int) as nat
}

/// The ASCII character for a decimal digit value below ten.
pub open spec fn digit_char(d: nat) -> char {
    if d == 0 { '0' } else if d == 1 { '1' } else if d == 2 { '2' } else if d == 3 { '3' }
    else if d == 4 { '4' } else if d == 5 { '5' } else if d == 6 { '6' } else if d == 7 { '7' }
    else if d == 8 { '8' } else { '9' }
}

/// Every character of `s` is an ASCII decimal digit.
pub open spec fn all_digits(s: Seq<char>) -> bool {
    forall|i: int| 0 <= i < s.len() ==> is_digit(#[trigger] s[i])
}

/// The decimal digits of `n`, most significant first, without leading zeros
/// (zero is the single digit `0`).
pub open spec fn digits_of(n: nat) -> Seq<char>
    decreases n,
{
    if n < 10 {
        seq![digit_char(n)]
    } else {
        digits_of(n / 10).push(digit_char(n % 10))
    }
}

/// The value denoted by a string of decimal digits (leading zeros allowed).
pub open spec fn digits_value(s: Seq<char>) -> nat
    decreases s.len(),
{
    if s.len() == 0 {
        0
    } else {
        digits_value(s.drop_last()) * 10 + digit_val(s.last())
    }
}

/// `k` copies of the character `0`.
pub open spec fn zeros(k: nat) -> Seq<char> {
    Seq::new(k, |i: int| '0')
}

/// Absolute value.
pub open spec fn abs(n: int) -> nat {
    if n < 0 {
        (-n) as nat
    } else {
        n as nat
    }
}

/// Rust's `format!("{:0w$}", n)`: the decimal digits of `n`, preceded by a
/// minus sign when `n` is negative, padded with zeros after the sign so that
/// the whole text is at least `width` characters long.
pub open spec fn pad_text(n: int, width: nat) -> Seq<char> {
    let d = digits_of(abs(n));
    let sign: Seq<char> = if n < 0 {
        seq!['-']
    } else {
        Seq::empty()
    };
    let fill: nat = if width > sign.len() + d.len() {
        (width - sign.len() - d.len()) as nat
    } else {
        0
    };
    sign + zeros(fill) + d
}

/// The integer denoted by `s` under the grammar of `FromStr` for signed
/// integer types: an optional `+` or `-`, then one or more ASCII digits.
pub open spec fn signed_text_value(s: Seq<char>) -> Option<int> {
    if s.len() >= 2 && s[0] == '-' && all_digits(s.subrange(1, s.len() as int)) {
        Some(-(digits_value(s.subrange(1, s.len() as int)) as int))
    } else if s.len() >= 2 && s[0] == '+' && all_digits(s.subrange(1, s.len() as int)) {
        Some(digits_value(s.subrange(1, s.len() as int)) as int)
    } else if s.len() >= 1 && all_digits(s) {
        Some(digits_value(s) as int)
    } else {
        None
    }
}

/// The integer denoted by `s` under the grammar of `FromStr` for unsigned
/// integer types: an optional `+`, then one or more ASCII digits.
pub open spec fn unsigned_text_value(s: Seq<char>) -> Option<int> {
    if s.len() >= 2 && s[0] == '+' && all_digits(s.subrange(1, s.len() as int)) {
        Some(digits_value(s.subrange(1, s.len() as int)) as int)
    } else if s.len() >= 1 && all_digits(s) {
        Some(digits_value(s) as int)
    } else {
        None
    }
}

/// What `s.parse::<i64>()` gives, as an `Option`.
pub open spec fn i64_text(s: Seq<char>) -> Option<i64> {
    match signed_text_value(s) {
        Some(v) => if i64::MIN <= v <= i64::MAX {
            Some(v as i64)
        } else {
            None
        },
        None => None,
    }
}

/// What `s.parse::<i32>()` gives, as an `Option`.
pub open spec fn i32_text(s: Seq<char>) -> Option<i32> {
    match signed_text_value(s) {
        Some(v) => if i32::MIN <= v <= i32::MAX {
            Some(v as i32)
        } else {
            None
        },
        None => None,
    }
}

/// What `s.parse::<u32>()` gives, as an `Option`.
pub open spec fn u32_text(s: Seq<char>) -> Option<u32> {
    match unsigned_text_value(s) {
        Some(v) => if 0 <= v <= u32::MAX {
            Some(v as u32)
        } else {
            None
        },
        None => None,
    }
}

// =============================================================================
// Digit lemmas
// =============================================================================

pub proof fn lemma_digit_char(d: nat)
    requires
        d < 10,
    ensures
        is_digit(digit_char(d)),
        digit_val(digit_char(d)) == d,
{
}

pub proof fn lemma_digits_of_props(n: nat)
    ensures
        digits_of(n).len() >= 1,
        all_digits(digits_of(n)),
        digits_value(digits_of(n)) == n,
        n < 10 ==> digits_of(n).len() == 1,
        n >= 10 ==> digits_of(n).len() >= 2,
    decreases n,
{
    if n < 10 {
        lemma_digit_char(n);
        assert(digits_of(n) =~= seq![digit_char(n)]);
        assert(digits_of(n).drop_last() =~= Seq::<char>::empty());
        assert(digits_value(Seq::<char>::empty()) == 0);
        assert(digits_value(digits_of(n)) == digits_value(digits_of(n).drop_last()) * 10 + digit_val(digits_of(n).last()));
    } else {
        lemma_digit_char(n % 10);
        lemma_digits_of_props(n / 10);
        let p = digits_of(n / 10);
        assert(digits_of(n) == p.push(digit_char(n % 10)));
        assert(digits_of(n).drop_last() =~= p);
        assert(digits_of(n).last() == digit_char(n % 10));
        assert(digits_value(digits_of(n)) == digits_value(p) * 10 + digit_val(digit_char(n % 10)));
        assert(digits_value(p) == n / 10);
        assert forall|i: int| 0 <= i < digits_of(n).len() implies is_digit(#[trigger] digits_of(n)[i]) by {
            if i < p.len() {
                assert(digits_of(n)[i] == p[i]);
            }
        }
    }
}

pub proof fn lemma_zeros_value(k: nat)
    ensures
        digits_value(zeros(k)) == 0,
        all_digits(zeros(k)),
    decreases k,
{
    if k > 0 {
        assert(zeros(k).drop_last() =~= zeros((k - 1) as nat));
        lemma_zeros_value((k - 1) as nat);
    }
}

pub proof fn lemma_value_concat_zeros(k: nat, s: Seq<char>)
    ensures
        digits_value(zeros(k) + s) == digits_value(s),
    decreases s.len(),
{
    if s.len() == 0 {
        assert(zeros(k) + s =~= zeros(k));
        lemma_zeros_value(k);
    } else {
        assert((zeros(k) + s).drop_last() =~= zeros(k) + s.drop_last());
        lemma_value_concat_zeros(k, s.drop_last());
    }
}

pub proof fn lemma_all_digits_concat(a: Seq<char>, b: Seq<char>)
    requires
        all_digits(a),
        all_digits(b),
    ensures
        all_digits(a + b),
{
    assert forall|i: int| 0 <= i < (a + b).len() implies is_digit(#[trigger] (a + b)[i]) by {
        if i < a.len() {
            assert((a + b)[i] == a[i]);
        } else {
            assert((a + b)[i] == b[i - a.len()]);
        }
    }
}

/// Rendering an integer with zero padding and parsing it back as a signed
/// integer gives the integer.
pub proof fn lemma_pad_text_signed(n: int, width: nat)
    ensures
        signed_text_value(pad_text(n, width)) == Some(n),
        pad_text(n, width).len() >= 1,
{
    let d = digits_of(abs(n));
    lemma_digits_of_props(abs(n));
    let t = pad_text(n, width);
    if n < 0 {
        let fill: nat = if width > 1 + d.len() {
            (width - 1 - d.len()) as nat
        } else {
            0
        };
        assert(t =~= seq!['-'] + zeros(fill) + d);
        assert(t.subrange(1, t.len() as int) =~= zeros(fill) + d);
        lemma_zeros_value(fill);
        lemma_all_digits_concat(zeros(fill), d);
        lemma_value_concat_zeros(fill, d);
    } else {
        let fill: nat = if width > d.len() {
            (width - d.len()) as nat
        } else {
            0
        };
        assert(t =~= zeros(fill) + d);
        lemma_zeros_value(fill);
        lemma_all_digits_concat(zeros(fill), d);
        lemma_value_concat_zeros(fill, d);
        assert(is_digit(t[0]));
    }
}

/// Padded decimal text holds only digits and a leading minus sign.
pub proof fn lemma_pad_text_free(n: int, width: nat, c: char)
    requires
        c != '-',
        !is_digit(c),
    ensures
        free_of(pad_text(n, width), c),
        ascii_text(pad_text(n, width)),
{
    let d = digits_of(abs(n));
    lemma_digits_of_props(abs(n));
    let sign: Seq<char> = if n < 0 { seq!['-'] } else { Seq::<char>::empty() };
    let fill: nat = if width > sign.len() + d.len() {
        (width - sign.len() - d.len()) as nat
    } else {
        0
    };
    lemma_zeros_value(fill);
    let t = pad_text(n, width);
    assert(t =~= sign + zeros(fill) + d);
    assert forall|i: int| 0 <= i < t.len() implies #[trigger] t[i] != c && (t[i] as u32) < 128 by {
        if i < sign.len() {
            assert(t[i] == '-');
        } else if i < sign.len() + fill {
            assert(t[i] == zeros(fill)[i - sign.len()]);
        } else {
            assert(t[i] == d[i - sign.len() - fill]);
            assert(is_digit(d[i - sign.len() - fill]));
        }
    }
}

/// Rendering a non-negative integer with zero padding and parsing it back as
/// an unsigned integer gives the integer.
pub proof fn lemma_pad_text_unsigned(n: nat, width: nat)
    ensures
        unsigned_text_value(pad_text(n as int, width)) == Some(n as int),
{
    let d = digits_of(n);
    lemma_digits_of_props(n);
    let t = pad_text(n as int, width);
    let fill: nat = if width > d.len() {
        (width - d.len()) as nat
    } else {
        0
    };
    assert(t =~= zeros(fill) + d);
    lemma_zeros_value(fill);
    lemma_all_digits_concat(zeros(fill), d);
    lemma_value_concat_zeros(fill, d);
    assert(is_digit(t[0]));
}

/// A prefix of a digit string denotes no more than the whole string.
pub proof fn lemma_value_prefix_le(s: Seq<char>, k: int)
    requires
        0 <= k <= s.len(),
    ensures
        digits_value(s.subrange(0, k)) <= digits_value(s),
    decreases s.len(),
{
    if k < s.len() {
        assert(s.drop_last() =~= s.subrange(0, s.len() - 1));
        assert(s.drop_last().subrange(0, k) =~= s.subrange(0, k));
        lemma_value_prefix_le(s.drop_last(), k);
    } else {
        assert(s.subrange(0, k) =~= s);
    }
}

pub proof fn lemma_value_step(s: Seq<char>, i: int)
    requires
        0 <= i < s.len(),
    ensures
        digits_value(s.subrange(0, i + 1)) == digits_value(s.subrange(0, i)) * 10 + digit_val(s[i]),
{
    assert(s.subrange(0, i + 1).drop_last() =~= s.subrange(0, i));
}

// =============================================================================
// Executable helpers
// =============================================================================

/// The characters of `s`, in order.
pub fn chars_of(s: &str) -> (res: Vec<char>)
    ensures
        res@ == s@,
{
    let n = s.unicode_len();
    let mut res: Vec<char> = Vec::new();
    let mut i: usize = 0;
    while i < n
        invariant
            n == s@.len(),
            i <= n,
            res@ == s@.subrange(0, i as int),
        decreases n - i,
    {
        let c = s.get_char(i);
        res.push(c);
        i = i + 1;
        assert(res@ =~= s@.subrange(0, i as int));
    }
    assert(res@ =~= s@);
    res
}

/// A `String` holding the characters of `cs`.
pub fn string_of(cs: &Vec<char>) -> (res: String)
    ensures
        res@ == cs@,
{
    let mut res = String::new();
    let mut i: usize = 0;
    while i < cs.len()
        invariant
            i <= cs.len(),
            res@ == cs@.subrange(0, i as int),
        decreases cs.len() - i,
    {
        res.push(cs[i]);
        i = i + 1;
        assert(res@ =~= cs@.subrange(0, i as int));
    }
    assert(res@ =~= cs@);
    res
}

/// Appends the characters of `src` to `dst`.
pub fn append_chars(dst: &mut Vec<char>, src: &Vec<char>)
    ensures
        final(dst)@ == old(dst)@ + src@,
{
    let ghost start = dst@;
    let mut i: usize = 0;
    while i < src.len()
        invariant
            i <= src.len(),
            dst@ == start + src@.subrange(0, i as int),
        decreases src.len() - i,
    {
        dst.push(src[i]);
        i = i + 1;
        assert(dst@ =~= start + src@.subrange(0, i as int));
    }
    assert(src@.subrange(0, i as int) =~= src@);
}

/// Appends the characters of the string `src` to `dst`.
pub fn append_str(dst: &mut Vec<char>, src: &str)
    ensures
        final(dst)@ == old(dst)@ + src@,
{
    let cs = chars_of(src);
    append_chars(dst, &cs);
}

/// The ASCII digit for `d`.
pub fn digit_to_char(d: u64) -> (c: char)
    requires
        d < 10,
    ensures
        c == digit_char(d as nat),
        is_digit(c),
        digit_val(c) == d,
{
    if d == 0 { '0' } else if d == 1 { '1' } else if d == 2 { '2' } else if d == 3 { '3' }
    else if d == 4 { '4' } else if d == 5 { '5' } else if d == 6 { '6' } else if d == 7 { '7' }
    else if d == 8 { '8' } else { '9' }
}

/// Appends the decimal digits of `n` to `out`.
pub fn push_digits(out: &mut Vec<char>, n: u64)
    ensures
        final(out)@ == old(out)@ + digits_of(n as nat),
    decreases n,
{
    if n < 10 {
        let c = digit_to_char(n);
        out.push(c);
        assert(digits_of(n as nat) =~= seq![digit_char(n as nat)]);
    } else {
        push_digits(out, n / 10);
        let c = digit_to_char(n % 10);
        out.push(c);
        assert(digits_of(n as nat) == digits_of((n / 10) as nat).push(digit_char((n % 10) as nat)));
    }
}

/// The number of decimal digits of `n`.
pub fn digit_count(n: u64) -> (len: usize)
    ensures
        len == digits_of(n as nat).len(),
        1 <= len <= 20,
    decreases n,
{
    if n < 10 {
        1
    } else {
        let k = digit_count(n / 10);
        proof {
            assert(n / 10 < 0x2000_0000_0000_0000u64);
            lemma_digits_len_bound((n / 10) as nat);
        }
        k + 1
    }
}

proof fn lemma_digits_len_bound(n: nat)
    requires
        n < 0x2000_0000_0000_0000,
    ensures
        digits_of(n).len() <= 19,
{
    reveal_with_fuel(pow10, 20);
    assert(pow10(19) == 10000000000000000000nat);
    lemma_digits_len_pow(n, 19);
}

proof fn lemma_digits_len_pow(n: nat, k: nat)
    requires
        k >= 1,
        n < pow10(k),
    ensures
        digits_of(n).len() <= k,
    decreases k,
{
    if n >= 10 {
        assert(k >= 2) by {
            if k == 1 {
                assert(pow10(1) == 10 * pow10(0));
            }
        }
        assert(pow10(k) == 10 * pow10((k - 1) as nat));
        assert(n / 10 < pow10((k - 1) as nat));
        lemma_digits_len_pow(n / 10, (k - 1) as nat);
    }
}

pub open spec fn pow10(k: nat) -> nat
    decreases k,
{
    if k == 0 {
        1
    } else {
        10 * pow10((k - 1) as nat)
    }
}

/// Appends `n` rendered as by `format!("{:0width$}", n)`.
pub fn push_padded(out: &mut Vec<char>, n: i64, width: usize)
    ensures
        final(out)@ == old(out)@ + pad_text(n as int, width as nat),
{
    let ghost start = out@;
    let mag: u64 = if n < 0 {
        if n == i64::MIN {
            0x8000_0000_0000_0000u64
        } else {
            (-n) as u64
        }
    } else {
        n as u64
    };
    assert(mag as nat == abs(n as int));
    let len = digit_count(mag);
    let sign_len: usize = if n < 0 { 1 } else { 0 };
    if n < 0 {
        out.push('-');
    }
    let fill: usize = if width > sign_len + len {
        width - sign_len - len
    } else {
        0
    };
    let mut i: usize = 0;
    while i < fill
        invariant
            i <= fill,
            out@ == start + (if n < 0 {
                seq!['-']
            } else {
                Seq::<char>::empty()
            }) + zeros(i as nat),
        decreases fill - i,
    {
        out.push('0');
        i = i + 1;
        assert(zeros(i as nat) =~= zeros((i - 1) as nat).push('0'));
    }
    push_digits(out, mag);
    assert(out@ =~= start + pad_text(n as int, width as nat));
}

/// `n` rendered as by `format!("{:0width$}", n)`.
pub fn padded(n: i64, width: usize) -> (res: Vec<char>)
    ensures
        res@ == pad_text(n as int, width as nat),
{
    let mut out: Vec<char> = Vec::new();
    push_padded(&mut out, n, width);
    assert(out@ =~= pad_text(n as int, width as nat));
    out
}

/// Is `c` an ASCII decimal digit?
pub fn char_is_digit(c: char) -> (b: bool)
    ensures
        b == is_digit(c),
{
    '0' <= c && c <= '9'
}

/// The value of the digits `s[from..]`, when it does not exceed `limit`.
fn digits_value_upto(s: &Vec<char>, from: usize, limit: u64) -> (res: Option<u64>)
    requires
        from <= s.len(),
        10 <= limit <= 0x8000_0000_0000_0000u64,
    ensures
        match res {
            Some(v) => from < s.len() && all_digits(s@.subrange(from as int, s.len() as int))
                && v == digits_value(s@.subrange(from as int, s.len() as int)) && v <= limit,
            None => !(from < s.len() && all_digits(s@.subrange(from as int, s.len() as int))
                && digits_value(s@.subrange(from as int, s.len() as int)) <= limit),
        },
{
    if from >= s.len() {
        return None;
    }
    let ghost t = s@.subrange(from as int, s.len() as int);
    let mut acc: u64 = 0;
    let mut i: usize = from;
    while i < s.len()
        invariant
            from <= i <= s.len(),
            t == s@.subrange(from as int, s.len() as int),
            10 <= limit <= 0x8000_0000_0000_0000u64,
            all_digits(s@.subrange(from as int, i as int)),
            acc == digits_value(s@.subrange(from as int, i as int)),
            acc <= limit,
        decreases s.len() - i,
    {
        let c = s[i];
        if !char_is_digit(c) {
            proof {
                assert(t[i - from] == c);
            }
            return None;
        }
        let d: u64 = ((c as u32) - 48u32) as u64;
        proof {
            lemma_value_step(t, i - from);
            assert(t.subrange(0, i - from) =~= s@.subrange(from as int, i as int));
            assert(t.subrange(0, i - from + 1) =~= s@.subrange(from as int, i + 1));
            assert(t[i - from] == c);
        }
        if acc > (limit - d) / 10 {
            proof {
                assert(acc * 10 + d > limit) by (nonlinear_arith)
                    requires
                        acc > (limit - d) / 10,
                        d <= 9,
                        d <= limit || d > limit,
                ;
                lemma_value_prefix_le(t, i - from + 1);
            }
            return None;
        }
        proof {
            assert(acc * 10 + d <= limit) by (nonlinear_arith)
                requires
                    acc <= (limit - d) / 10,
                    d <= limit,
            ;
        }
        acc = acc * 10 + d;
        i = i + 1;
        proof {
            assert forall|j: int| 0 <= j < s@.subrange(from as int, i as int).len() implies is_digit(
                #[trigger] s@.subrange(from as int, i as int)[j],
            ) by {
                if j < i - 1 - from {
                    assert(s@.subrange(from as int, i as int)[j] == s@.subrange(
                        from as int,
                        i - 1,
                    )[j]);
                }
            }
        }
    }
    assert(s@.subrange(from as int, i as int) =~= t);
    Some(acc)
}

/// `s.parse::<i64>().ok()` on the characters of `s`.
pub fn parse_i64(s: &Vec<char>) -> (res: Option<i64>)
    ensures
        res == i64_text(s@),
{
    if s.len() >= 2 && s[0] == '-' {
        match digits_value_upto(s, 1, 0x8000_0000_0000_0000u64) {
            Some(v) => {
                let r: i64 = if v == 0x8000_0000_0000_0000u64 {
                    i64::MIN
                } else {
                    -(v as i64)
                };
                Some(r)
            },
            None => None,
        }
    } else if s.len() >= 2 && s[0] == '+' {
        match digits_value_upto(s, 1, 0x7fff_ffff_ffff_ffffu64) {
            Some(v) => Some(v as i64),
            None => None,
        }
    } else {
        proof {
            assert(s@.subrange(0, s.len() as int) =~= s@);
        }
        match digits_value_upto(s, 0, 0x7fff_ffff_ffff_ffffu64) {
            Some(v) => Some(v as i64),
            None => {
                proof {
                    if s.len() >= 2 && s@[0] == '+' {
                    } else if s.len() >= 2 && s@[0] == '-' {
                    } else if s.len() >= 1 && all_digits(s@) {
                        assert(is_digit(s@[0]));
                    }
                }
                None
            },
        }
    }
}

/// `s.parse::<i32>().ok()` on the characters of `s`.
pub fn parse_i32(s: &Vec<char>) -> (res: Option<i32>)
    ensures
        res == i32_text(s@),
{
    match parse_i64(s) {
        Some(v) => {
            if -2147483648i64 <= v && v <= 2147483647i64 {
                Some(v as i32)
            } else {
                None
            }
        },
        None => {
            proof {
                if let Some(w) = signed_text_value(s@) {
                    assert(!(i64::MIN <= w <= i64::MAX));
                }
            }
            None
        },
    }
}

/// `s.parse::<u32>().ok()` on the characters of `s`.
pub fn parse_u32(s: &Vec<char>) -> (res: Option<u32>)
    ensures
        res == u32_text(s@),
{
    let r = if s.len() >= 2 && s[0] == '+' {
        digits_value_upto(s, 1, 0xffff_ffffu64)
    } else {
        proof {
            assert(s@.subrange(0, s.len() as int) =~= s@);
        }
        let r0 = digits_value_upto(s, 0, 0xffff_ffffu64);
        proof {
            if r0 is None && s.len() >= 1 && all_digits(s@) {
                assert(is_digit(s@[0]));
            }
        }
        r0
    };
    match r {
        Some(v) => Some(v as u32),
        None => None,
    }
}


/// The text of the error that `s.parse::<i32>()` reports.
pub uninterp spec fn int_parse_error_text(s: Seq<char>) -> Seq<char>;

/// The message of the error `s.parse::<i32>()` reports (empty when it
/// succeeds).
///
/// Calls `str::parse::<i32>` and `ParseIntError::to_string`; the contract
/// only names the text, whose wording belongs to the standard library.
#[verifier::external_body]
pub(crate) fn int_parse_error(s: &str) -> (res: String)
    ensures
        res@ == int_parse_error_text(s@),
{
    match s.parse::<i32>() {
        Ok(_) => String::new(),
        Err(e) => e.to_string(),
    }
}

// =============================================================================
// Splitting and joining on a separator
// =============================================================================

/// No character of `s` is `sep`.
pub open spec fn free_of(s: Seq<char>, sep: char) -> bool {
    forall|i: int| 0 <= i < s.len() ==> #[trigger] s[i] != sep
}

/// Every character of `s` is ASCII.
pub open spec fn ascii_text(s: Seq<char>) -> bool {
    forall|i: int| 0 <= i < s.len() ==> (#[trigger] s[i] as u32) < 128
}

/// `s.split(sep)`: the pieces of `s` between occurrences of `sep`, in order.
/// There is always at least one piece; consecutive separators give empty
/// pieces.
pub open spec fn split_text(s: Seq<char>, sep: char) -> Seq<Seq<char>>
    decreases s.len(),
{
    if s.len() == 0 {
        seq![Seq::<char>::empty()]
    } else {
        let p = split_text(s.drop_last(), sep);
        if s.last() == sep {
            p.push(Seq::<char>::empty())
        } else {
            p.update(p.len() - 1, p.last().push(s.last()))
        }
    }
}

/// The pieces joined with `sep` between consecutive pieces.
pub open spec fn join_text(parts: Seq<Seq<char>>, sep: char) -> Seq<char>
    decreases parts.len(),
{
    if parts.len() == 0 {
        Seq::empty()
    } else if parts.len() == 1 {
        parts[0]
    } else {
        join_text(parts.drop_last(), sep).push(sep) + parts.last()
    }
}

/// The views of a vector of character vectors.
pub open spec fn views(v: Seq<Vec<char>>) -> Seq<Seq<char>> {
    v.map_values(|x: Vec<char>| x@)
}

pub proof fn lemma_split_nonempty(s: Seq<char>, sep: char)
    ensures
        split_text(s, sep).len() >= 1,
    decreases s.len(),
{
    if s.len() > 0 {
        lemma_split_nonempty(s.drop_last(), sep);
    }
}

/// A text without the separator is one piece.
pub proof fn lemma_split_free(x: Seq<char>, sep: char)
    requires
        free_of(x, sep),
    ensures
        split_text(x, sep) == seq![x],
    decreases x.len(),
{
    if x.len() == 0 {
        assert(x =~= Seq::<char>::empty());
        assert(split_text(x, sep) =~= seq![x]);
    } else {
        let d = x.drop_last();
        assert(free_of(d, sep));
        lemma_split_free(d, sep);
        assert(x.last() != sep);
        assert(d.push(x.last()) =~= x);
        assert(split_text(x, sep) =~= seq![x]);
    }
}

/// Splitting `a`, a separator, then a separator-free `x`, gives the pieces of
/// `a` followed by `x`.
pub proof fn lemma_split_append(a: Seq<char>, x: Seq<char>, sep: char)
    requires
        free_of(x, sep),
    ensures
        split_text(a.push(sep) + x, sep) == split_text(a, sep).push(x),
    decreases x.len(),
{
    lemma_split_nonempty(a, sep);
    if x.len() == 0 {
        assert(a.push(sep) + x =~= a.push(sep));
        assert((a.push(sep)).drop_last() =~= a);
        assert((a.push(sep)).last() == sep);
        assert(x =~= Seq::<char>::empty());
        assert(split_text(a.push(sep), sep) == split_text(a, sep).push(Seq::<char>::empty()));
        assert(split_text(a.push(sep) + x, sep) =~= split_text(a, sep).push(x));
    } else {
        let d = x.drop_last();
        assert(free_of(d, sep));
        lemma_split_append(a, d, sep);
        let t = a.push(sep) + x;
        assert(t.drop_last() =~= a.push(sep) + d);
        assert(t.last() == x.last());
        assert(x.last() != sep);
        assert(d.push(x.last()) =~= x);
        assert(split_text(t, sep) =~= split_text(a, sep).push(x));
    }
}

/// Splitting the join of separator-free pieces gives the pieces back.
pub proof fn lemma_split_join(parts: Seq<Seq<char>>, sep: char)
    requires
        parts.len() >= 1,
        forall|i: int| 0 <= i < parts.len() ==> free_of(#[trigger] parts[i], sep),
    ensures
        split_text(join_text(parts, sep), sep) == parts,
    decreases parts.len(),
{
    if parts.len() == 1 {
        lemma_split_free(parts[0], sep);
        assert(seq![parts[0]] =~= parts);
    } else {
        let p = parts.drop_last();
        assert forall|i: int| 0 <= i < p.len() implies free_of(#[trigger] p[i], sep) by {
            assert(p[i] == parts[i]);
        }
        lemma_split_join(p, sep);
        assert(free_of(parts.last(), sep));
        lemma_split_append(join_text(p, sep), parts.last(), sep);
        assert(p.push(parts.last()) =~= parts);
    }
}

/// The join of pieces that are separator-free contains the separator only
/// between pieces; in particular a join of separator-free pieces with a
/// different separator stays free of `other`.
pub proof fn lemma_join_free(parts: Seq<Seq<char>>, sep: char, other: char)
    requires
        sep != other,
        forall|i: int| 0 <= i < parts.len() ==> free_of(#[trigger] parts[i], other),
    ensures
        free_of(join_text(parts, sep), other),
    decreases parts.len(),
{
    if parts.len() == 1 {
    } else if parts.len() > 1 {
        let p = parts.drop_last();
        assert forall|i: int| 0 <= i < p.len() implies free_of(#[trigger] p[i], other) by {
            assert(p[i] == parts[i]);
        }
        lemma_join_free(p, sep, other);
        let j = join_text(p, sep);
        let t = j.push(sep) + parts.last();
        assert(free_of(parts.last(), other));
        assert forall|i: int| 0 <= i < t.len() implies #[trigger] t[i] != other by {
            if i < j.len() {
                assert(t[i] == j[i]);
            } else if i == j.len() {
                assert(t[i] == sep);
            } else {
                assert(t[i] == parts.last()[i - j.len() - 1]);
            }
        }
    }
}

/// Joining two non-empty lists of pieces is joining each and putting the
/// separator between.
pub proof fn lemma_join_append(a: Seq<Seq<char>>, b: Seq<Seq<char>>, sep: char)
    requires
        a.len() >= 1,
        b.len() >= 1,
    ensures
        join_text(a + b, sep) == join_text(a, sep).push(sep) + join_text(b, sep),
    decreases b.len(),
{
    if b.len() == 1 {
        assert((a + b).drop_last() =~= a);
        assert((a + b).last() == b[0]);
    } else {
        lemma_join_append(a, b.drop_last(), sep);
        assert((a + b).drop_last() =~= a + b.drop_last());
        assert((a + b).last() == b.last());
        assert(join_text(a, sep).push(sep) + join_text(b.drop_last(), sep).push(sep) + b.last()
            =~= join_text(a, sep).push(sep) + (join_text(b.drop_last(), sep).push(sep) + b.last()));
    }
}

/// Length of the decimal digits of small numbers.
pub proof fn lemma_digits_len(n: nat)
    requires
        n < 10000,
    ensures
        n < 10 ==> digits_of(n).len() == 1,
        10 <= n < 100 ==> digits_of(n).len() == 2,
        100 <= n < 1000 ==> digits_of(n).len() == 3,
        1000 <= n ==> digits_of(n).len() == 4,
{
    reveal_with_fuel(digits_of, 5);
}

/// Zero-padded text of a number that fits the width has exactly that width.
pub proof fn lemma_pad_text_len(n: int, width: nat)
    requires
        width == 2 || width == 4,
        width == 2 ==> 0 <= n < 100,
        width == 4 ==> -999 <= n <= 9999,
    ensures
        pad_text(n, width).len() == width,
{
    lemma_digits_len(abs(n));
}

/// `s.split(sep)` on a vector of characters.
pub fn split_chars(s: &Vec<char>, sep: char) -> (res: Vec<Vec<char>>)
    ensures
        views(res@) == split_text(s@, sep),
{
    let mut done: Vec<Vec<char>> = Vec::new();
    let mut cur: Vec<char> = Vec::new();
    let mut i: usize = 0;
    while i < s.len()
        invariant
            i <= s.len(),
            views(done@).push(cur@) == split_text(s@.subrange(0, i as int), sep),
        decreases s.len() - i,
    {
        let c = s[i];
        let ghost before = views(done@).push(cur@);
        proof {
            assert(s@.subrange(0, i + 1).drop_last() =~= s@.subrange(0, i as int));
            assert(s@.subrange(0, i + 1).last() == c);
            lemma_split_nonempty(s@.subrange(0, i as int), sep);
        }
        if c == sep {
            let piece = cur;
            done.push(piece);
            cur = Vec::new();
            proof {
                assert(views(done@).push(cur@) =~= before.push(Seq::<char>::empty()));
            }
        } else {
            cur.push(c);
            proof {
                assert(views(done@).push(cur@) =~= before.update(
                    before.len() - 1,
                    before.last().push(c),
                ));
            }
        }
        i = i + 1;
    }
    done.push(cur);
    assert(s@.subrange(0, s.len() as int) =~= s@);
    assert(views(done@) =~= split_text(s@, sep));
    done
}

/// The pieces joined with `sep`.
pub fn join_chars(parts: &Vec<Vec<char>>, sep: char) -> (res: Vec<char>)
    ensures
        res@ == join_text(views(parts@), sep),
{
    let mut out: Vec<char> = Vec::new();
    let mut i: usize = 0;
    while i < parts.len()
        invariant
            i <= parts.len(),
            out@ == join_text(views(parts@).subrange(0, i as int), sep),
        decreases parts.len() - i,
    {
        let ghost prev = views(parts@).subrange(0, i as int);
        if i > 0 {
            out.push(sep);
        }
        append_chars(&mut out, &parts[i]);
        i = i + 1;
        proof {
            let cur = views(parts@).subrange(0, i as int);
            assert(cur.drop_last() =~= prev);
            assert(cur.last() == parts@[i - 1]@);
            if i == 1 {
                assert(prev =~= Seq::<Seq<char>>::empty());
                assert(out@ =~= cur[0]);
            } else {
                assert(out@ =~= join_text(prev, sep).push(sep) + cur.last());
            }
        }
    }
    assert(views(parts@).subrange(0, parts.len() as int) =~= views(parts@));
    out
}

/// The code of a character after ASCII lower-casing.
pub open spec fn lower_code(c: char) -> u32 {
    if 'A' <= c && c <= 'Z' {
        ((c as u32) + 32) as u32
    } else {
        c as u32
    }
}

/// `s`, lower-cased in ASCII, is `w`: what `s.to_lowercase() == w` decides
/// when `w` is a lower-case ASCII word without the letter `k` (the only
/// ASCII letter that a non-ASCII character lower-cases to is `k`, from the
/// Kelvin sign).
pub open spec fn lower_is(s: Seq<char>, w: Seq<char>) -> bool {
    &&& s.len() == w.len()
    &&& forall|i: int| 0 <= i < s.len() ==> lower_code(#[trigger] s[i]) == w[i] as u32
}

/// Does `s`, lower-cased, equal `w`?
pub fn lower_eq(s: &Vec<char>, w: &str) -> (b: bool)
    ensures
        b == lower_is(s@, w@),
{
    let wc = chars_of(w);
    if s.len() != wc.len() {
        return false;
    }
    let mut i: usize = 0;
    while i < s.len()
        invariant
            i <= s.len(),
            s.len() == wc.len(),
            wc@ == w@,
            forall|j: int| 0 <= j < i ==> lower_code(#[trigger] s@[j]) == wc@[j] as u32,
        decreases s.len() - i,
    {
        let c = s[i];
        let d = wc[i];
        let same: bool = if 'A' <= c && c <= 'Z' {
            (c as u32) + 32 == (d as u32)
        } else {
            (c as u32) == (d as u32)
        };
        if !same {
            return false;
        }
        i = i + 1;
    }
    true
}

/// Is every character of `s` ASCII?
pub fn chars_ascii(s: &Vec<char>) -> (b: bool)
    ensures
        b == ascii_text(s@),
{
    let mut i: usize = 0;
    while i < s.len()
        invariant
            i <= s.len(),
            forall|j: int| 0 <= j < i ==> (#[trigger] s@[j] as u32) < 128,
        decreases s.len() - i,
    {
        if (s[i] as u32) >= 128 {
            return false;
        }
        i = i + 1;
    }
    true
}

/// Are the two character sequences equal?
pub fn chars_eq(a: &Vec<char>, b: &Vec<char>) -> (r: bool)
    ensures
        r == (a@ == b@),
{
    if a.len() != b.len() {
        return false;
    }
    let mut i: usize = 0;
    while i < a.len()
        invariant
            i <= a.len(),
            a.len() == b.len(),
            forall|j: int| 0 <= j < i ==> a@[j] == b@[j],
        decreases a.len() - i,
    {
        if a[i] != b[i] {
            return false;
        }
        i = i + 1;
    }
    assert(a@ =~= b@);
    true
}

/// Does `s` start with `prefix`?
pub fn chars_starts_with(s: &Vec<char>, prefix: &Vec<char>) -> (r: bool)
    ensures
        r == (prefix@.len() <= s@.len() && s@.subrange(0, prefix@.len() as int) == prefix@),
{
    if prefix.len() > s.len() {
        return false;
    }
    let mut i: usize = 0;
    while i < prefix.len()
        invariant
            i <= prefix.len() <= s.len(),
            forall|j: int| 0 <= j < i ==> s@[j] == prefix@[j],
        decreases prefix.len() - i,
    {
        if s[i] != prefix[i] {
            assert(s@.subrange(0, prefix@.len() as int)[i as int] != prefix@[i as int]);
            return false;
        }
        i = i + 1;
    }
    assert(s@.subrange(0, prefix@.len() as int) =~= prefix@);
    true
}

/// The characters `s[from..to]`.
pub fn sub_chars(s: &Vec<char>, from: usize, to: usize) -> (res: Vec<char>)
    requires
        from <= to <= s.len(),
    ensures
        res@ == s@.subrange(from as int, to as int),
{
    let mut res: Vec<char> = Vec::new();
    let mut i: usize = from;
    while i < to
        invariant
            from <= i <= to <= s.len(),
            res@ == s@.subrange(from as int, i as int),
        decreases to - i,
    {
        res.push(s[i]);
        i = i + 1;
        assert(res@ =~= s@.subrange(from as int, i as int));
    }
    res
}

} // verus!
