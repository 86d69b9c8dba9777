//! Identifiers: 128-bit UUIDs and their canonical text.
//!
//! Identifiers are carried as `u128` values.  Their text form is the
//! lower-case hyphenated form of RFC 9562 (`8-4-4-4-12` hexadecimal digits),
//! which is what the `uuid` crate prints.
use vstd::prelude::*;
use uuid::Uuid;

verus! {

/// `16^e`.
pub open spec fn pow16(e: nat) -> nat
    decreases e,
{
    if e == 0 {
        1
    } else {
        16 * pow16((e - 1) as nat)
    }
}

/// Lower-case hexadecimal digit for a value below sixteen.
pub open spec fn hex_char(d: nat) -> char {
    if d < 10 {
        (('0' as nat) + d) as char
    } else {
        (('a' as nat) + (d - 10)) as char
    }
}

/// The `k`-th hexadecimal digit of `id`, most significant first (`k < 32`).
pub open spec fn nibble(id: u128, k: int) -> nat {
    ((id as nat) / pow16((31 - k) as nat)) % 16
}

/// Position among the 32 digits of the character at text position `i`.
pub open spec fn digit_index(i: int) -> int {
    if i < 8 {
        i
    } else if i < 13 {
        i - 1
    } else if i < 18 {
        i - 2
    } else if i < 23 {
        i - 3
    } else {
        i - 4
    }
}

/// Text positions that hold a hyphen.
pub open spec fn is_hyphen_pos(i: int) -> bool {
    i == 8 || i == 13 || i == 18 || i == 23
}

/// The canonical text of an identifier: 36 characters, lower-case
/// hexadecimal digits with hyphens at positions 8, 13, 18 and 23.
pub open spec fn uuid_text(id: u128) -> Seq<char> {
    Seq::new(36, |i: int| if is_hyphen_pos(i) { '-' } else { hex_char(nibble(id, digit_index(i))) })
}

/// What `Uuid::parse_str` accepts and yields, as a 128-bit value.
pub uninterp spec fn uuid_parsed(s: Seq<char>) -> Option<u128>;

/// The canonical text of `id`.
///
/// Calls `Uuid::from_u128(id).to_string()`; the `Display` impl of `uuid`
/// prints the lower-case hyphenated form, which is what `uuid_text` states.
#[verifier::external_body]
pub(crate) fn uuid_string(id: u128) -> (s: String)
    ensures
        s@ == uuid_text(id),
        uuid_parsed(s@) == Some(id),
{
    Uuid::from_u128(id).to_string()
}

/// Parses an identifier from text.
///
/// Calls `Uuid::parse_str(s)` and takes `as_u128` of a success.  The
/// contract names the result (`uuid_parsed`) and states the one fact that
/// `uuid` documents and callers need: the canonical text of an identifier
/// parses back to that identifier.  Which other texts are accepted (simple,
/// braced and URN forms, upper case) is left unsaid.
#[verifier::external_body]
pub(crate) fn parse_uuid(s: &str) -> (res: Option<u128>)
    ensures
        res == uuid_parsed(s@),
        forall|id: u128| s@ == uuid_text(id) ==> res == Some(id),
{
    match Uuid::parse_str(s) {
        Ok(u) => Some(u.as_u128()),
        Err(_) => None,
    }
}

/// A fresh random (version 4) identifier.
///
/// Calls `Uuid::new_v4()`, which draws 128 random bits and sets the version
/// nibble to 4 and the two variant bits to `10`; the other bits are left
/// unsaid, being random.
#[verifier::external_body]
pub(crate) fn new_random_id() -> (id: u128)
    ensures
        (id >> 76u128) & 0xfu128 == 4,
        (id >> 62u128) & 0x3u128 == 2,
{
    Uuid::new_v4().as_u128()
}

/// The canonical text has no `:` and no `_`, and is ASCII.
pub proof fn lemma_uuid_text_shape(id: u128)
    ensures
        uuid_text(id).len() == 36,
        crate::text::free_of(uuid_text(id), ':'),
        crate::text::free_of(uuid_text(id), '_'),
        crate::text::ascii_text(uuid_text(id)),
{
    let t = uuid_text(id);
    assert forall|i: int| 0 <= i < t.len() implies #[trigger] t[i] != ':' && t[i] != '_'
        && (t[i] as u32) < 128 by {
        if !is_hyphen_pos(i) {
            let d = nibble(id, digit_index(i));
            assert(d < 16);
        }
    }
}

} // verus!
