//! Session tokens: PASETO version 4 local tokens that carry a client's
//! session as claims.
//!
//! A token is made by `pasetors` from a set of claims and read back by it;
//! which claims a session writes, and what a session is read back from the
//! claims, is this module's own logic.  Claims are modelled as a map from a
//! claim's name to its value, a text, a number or something else.
use vstd::prelude::*;
use pasetors::claims::{Claims, ClaimsValidationRules};
use pasetors::errors::Error;
use pasetors::keys::{Generate, SymmetricKey};
use pasetors::token::{Local, UntrustedToken};
use pasetors::version4::V4;
use crate::error::VaultlessError;
use crate::hexadecimal::{hex_text, hex_decodable, hex_bytes, encode_hex, decode_hex, hex_error_text, lemma_hex_round_trip};
use crate::ident::{uuid_text, uuid_parsed, uuid_string, parse_uuid, new_random_id};
use crate::clock::{
    rfc3339_instant, rfc3339_text, write_rfc3339, read_rfc3339, now_micros, calendar_of, micros_to_secs,
    four_digit_year, MIN_UTC_MICROS, MAX_UTC_MICROS,
};
use crate::text::{chars_of, string_of, append_chars};

verus! {

// =============================================================================
// Outside types
// =============================================================================

/// The claims of a token.
#[verifier::external_type_specification]
#[verifier::external_body]
pub struct ExClaims(Claims);

/// The error type of `pasetors`.
#[verifier::external_type_specification]
#[verifier::external_body]
pub struct ExPasetoError(Error);

// =============================================================================
// Claims
// =============================================================================

/// The value of a claim.
#[derive(Clone, Debug)]
pub enum ClaimValue {
    /// A JSON string.
    Text(String),
    /// A JSON number that is a `u64`.
    Number(u64),
    /// Any other JSON value.
    Other,
}

/// The value of a claim, as a mathematical value.
pub enum ClaimView {
    Text(Seq<char>),
    Number(u64),
    Other,
}

impl View for ClaimValue {
    type V = ClaimView;

    open spec fn view(&self) -> ClaimView {
        match self {
            ClaimValue::Text(s) => ClaimView::Text(s@),
            ClaimValue::Number(n) => ClaimView::Number(*n),
            ClaimValue::Other => ClaimView::Other,
        }
    }
}

/// What a set of claims holds: each claim's name and value, a JSON string
/// seen as its text, a JSON number that fits `u64` as that number.
pub uninterp spec fn claims_view(c: Claims) -> Map<Seq<char>, ClaimView>;

/// Names of the claims PASETO reserves.
pub open spec fn registered_claim(name: Seq<char>) -> bool {
    name == "iss"@ || name == "sub"@ || name == "aud"@ || name == "exp"@ || name == "nbf"@ || name == "iat"@
        || name == "jti"@
}

/// Fresh claims.
///
/// Calls `Claims::new()`, which sets `iat` and `nbf` to the current time and
/// `exp` an hour later, each as text; it fails only when that hour does not
/// fit the range of instants.
#[verifier::external_body]
fn new_claims() -> (r: Result<Claims, Error>)
    ensures
        r matches Ok(c) ==> {
            &&& claims_view(c).dom() == set!["iat"@, "nbf"@, "exp"@]
            &&& claims_view(c)["iat"@] is Text
            &&& claims_view(c)["nbf"@] is Text
            &&& claims_view(c)["exp"@] is Text
        },
{
    Claims::new()
}

/// Sets the issue time.
///
/// Calls `Claims::issued_at(iat)`, which stores the text under `iat` when
/// it reads as an RFC 3339 date-time and otherwise fails and leaves the
/// claims unchanged.  Which texts that reader (of the `time` crate)
/// accepts is left unsaid.
#[verifier::external_body]
fn set_issued_at(c: &mut Claims, iat: &str) -> (r: Result<(), Error>)
    ensures
        r is Ok ==> claims_view(*final(c)) == claims_view(*old(c)).insert("iat"@, ClaimView::Text(iat@)),
        r is Err ==> claims_view(*final(c)) == claims_view(*old(c)),
{
    c.issued_at(iat)
}

/// Sets the expiry time.
///
/// Calls `Claims::expiration(exp)`, which stores the text under `exp` when
/// it reads as an RFC 3339 date-time and otherwise fails and leaves the
/// claims unchanged.  Which texts that reader accepts is left unsaid.
#[verifier::external_body]
fn set_expiration(c: &mut Claims, exp: &str) -> (r: Result<(), Error>)
    ensures
        r is Ok ==> claims_view(*final(c)) == claims_view(*old(c)).insert("exp"@, ClaimView::Text(exp@)),
        r is Err ==> claims_view(*final(c)) == claims_view(*old(c)),
{
    c.expiration(exp)
}

/// Sets the subject.
///
/// Calls `Claims::subject(sub)`, which stores a non-empty text under `sub`
/// and refuses an empty one.
#[verifier::external_body]
fn set_subject(c: &mut Claims, sub: &str) -> (r: Result<(), Error>)
    ensures
        r is Ok <==> sub@.len() > 0,
        r is Ok ==> claims_view(*final(c)) == claims_view(*old(c)).insert("sub"@, ClaimView::Text(sub@)),
        r is Err ==> claims_view(*final(c)) == claims_view(*old(c)),
{
    c.subject(sub)
}

/// Sets the token identifier.
///
/// Calls `Claims::token_identifier(jti)`, which stores a non-empty text
/// under `jti` and refuses an empty one.
#[verifier::external_body]
fn set_token_identifier(c: &mut Claims, jti: &str) -> (r: Result<(), Error>)
    ensures
        r is Ok <==> jti@.len() > 0,
        r is Ok ==> claims_view(*final(c)) == claims_view(*old(c)).insert("jti"@, ClaimView::Text(jti@)),
        r is Err ==> claims_view(*final(c)) == claims_view(*old(c)),
{
    c.token_identifier(jti)
}

/// Adds a claim of the application's own.
///
/// Calls `Claims::add_additional(name, value)` with the value as a JSON
/// string, number or null; it stores the value under the name unless the
/// name is one PASETO reserves, which it refuses.
#[verifier::external_body]
fn add_claim(c: &mut Claims, name: &str, value: ClaimValue) -> (r: Result<(), Error>)
    ensures
        r is Ok <==> !registered_claim(name@),
        r is Ok ==> claims_view(*final(c)) == claims_view(*old(c)).insert(name@, value@),
        r is Err ==> claims_view(*final(c)) == claims_view(*old(c)),
{
    match value {
        ClaimValue::Text(s) => c.add_additional(name, s),
        ClaimValue::Number(n) => c.add_additional(name, n),
        ClaimValue::Other => c.add_additional(name, serde_json::Value::Null),
    }
}

/// Reads a claim.
///
/// Calls `Claims::get_claim(name)` and sees the value through `as_str` and
/// `as_u64`.
#[verifier::external_body]
fn claim(c: &Claims, name: &str) -> (r: Option<ClaimValue>)
    ensures
        r is None <==> !claims_view(*c).contains_key(name@),
        r matches Some(v) ==> claims_view(*c)[name@] == v@,
{
    match c.get_claim(name) {
        None => None,
        Some(v) => match v.as_str() {
            Some(s) => Some(ClaimValue::Text(s.to_string())),
            None => match v.as_u64() {
                Some(n) => Some(ClaimValue::Number(n)),
                None => Some(ClaimValue::Other),
            },
        },
    }
}

/// The text of a `pasetors` error.
///
/// Calls the error's `Display` impl; nothing is promised of the text.
#[verifier::external_body]
fn paseto_error_text(e: &Error) -> (s: String) {
    e.to_string()
}

// =============================================================================
// Keys and tokens
// =============================================================================

/// What a local token carries when opened with a key: the claims that the
/// payload decrypted with `key` (the key's bytes) holds, as `claims_view`
/// sees them.
pub uninterp spec fn token_payload(key: Seq<u8>, token: Seq<char>) -> Map<Seq<char>, ClaimView>;

/// Checks that bytes make a version 4 key.
///
/// Calls `SymmetricKey::<V4>::from(bytes)`, which accepts exactly 32
/// bytes, and drops the key.
#[verifier::external_body]
fn check_key_bytes(bytes: &[u8]) -> (r: Result<(), Error>)
    ensures
        r is Ok <==> bytes@.len() == 32,
{
    SymmetricKey::<V4>::from(bytes).map(|_| ())
}

/// The bytes of a freshly generated version 4 key.
///
/// Calls `SymmetricKey::<V4>::generate()`, which fills 32 bytes from the
/// system's random source (and fails when that source fails), and takes
/// the key's bytes.
#[verifier::external_body]
fn generate_key_bytes() -> (r: Result<Vec<u8>, Error>)
    ensures
        r matches Ok(b) ==> b@.len() == 32,
{
    match SymmetricKey::<V4>::generate() {
        Ok(k) => Ok(k.as_bytes().to_vec()),
        Err(e) => Err(e),
    }
}

/// Encrypts claims into a local token with the key of the given bytes.
///
/// Makes the key with `SymmetricKey::<V4>::from(key)` (32 bytes or an
/// error) and calls `pasetors::local::encrypt(key, claims, None, None)`,
/// which serialises the claims as JSON and encrypts them with a fresh
/// random nonce.  A token it makes starts with `v4.local.`, and opened with
/// the same key it carries those claims (JSON keeps each name, text and
/// number); which token text comes out is left unsaid, as it rests on the
/// nonce.
#[verifier::external_body]
fn encrypt_local(key: &[u8], claims: &Claims) -> (r: Result<String, Error>)
    ensures
        r matches Ok(t) ==> "v4.local."@.is_prefix_of(t@),
        r matches Ok(t) ==> key@.len() == 32 && token_payload(key@, t@) == claims_view(*claims),
{
    match SymmetricKey::<V4>::from(key) {
        Ok(k) => pasetors::local::encrypt(&k, claims, None, None),
        Err(e) => Err(e),
    }
}

/// Why a token was not opened with a key.
pub enum OpenFailure {
    /// The text is not a version 4 local token.
    Malformed(Error),
    /// Decryption or validation of the claims failed.
    Refused(Error),
    /// The opened token holds no claims.
    NoClaims,
}

/// Opens a local token with the key of the given bytes.
///
/// Reads the token with `UntrustedToken::<Local, V4>::try_from(token)`
/// (`Malformed` on failure), makes the key with
/// `SymmetricKey::<V4>::from(key)` and calls
/// `pasetors::local::decrypt(key, token, ClaimsValidationRules::new(), None,
/// None)` (`Refused` on failure of either), then takes the token's payload
/// claims.  Decryption is deterministic, so the claims are the token's
/// payload under the key.  Whether the token is accepted also rests on the
/// current time (expiry, not-before), so acceptance is left unsaid.
#[verifier::external_body]
fn decrypt_local(key: &[u8], token: &str) -> (r: Result<Claims, OpenFailure>)
    ensures
        r matches Ok(c) ==> claims_view(c) == token_payload(key@, token@),
{
    let untrusted = match UntrustedToken::<Local, V4>::try_from(token) {
        Ok(t) => t,
        Err(e) => return Err(OpenFailure::Malformed(e)),
    };
    let opened = match SymmetricKey::<V4>::from(key) {
        Ok(k) => pasetors::local::decrypt(&k, &untrusted, &ClaimsValidationRules::new(), None, None),
        Err(e) => Err(e),
    };
    match opened {
        Ok(t) => t.payload_claims().cloned().ok_or(OpenFailure::NoClaims),
        Err(e) => Err(OpenFailure::Refused(e)),
    }
}

// =============================================================================
// Key management
// =============================================================================

/// Text a key is accepted from: 32 bytes in hexadecimal.
pub open spec fn key_text_ok(s: Seq<char>) -> bool {
    hex_decodable(s) && s.len() == 64
}

/// The text `message` followed by `detail`.
fn with_detail(message: &str, detail: String) -> (s: String)
    ensures
        s@ == message@ + detail@,
{
    let mut out = chars_of(message);
    append_chars(&mut out, &chars_of(detail.as_str()));
    string_of(&out)
}

/// The texts a token is refused with when one key does not accept it: a
/// malformed token, a failed decryption or validation, or no claims.
pub open spec fn token_refusal(m: Seq<char>) -> bool {
    ||| "Malformed token: "@.is_prefix_of(m)
    ||| "Token verification failed: "@.is_prefix_of(m)
    ||| m == "Token has no claims"@
}

/// A text starts with any text it was made to start with.
proof fn lemma_prefix_of_concat(p: Seq<char>, m: Seq<char>)
    requires
        exists|d: Seq<char>| m == p + d,
    ensures
        p.is_prefix_of(m),
{
    let d = choose|d: Seq<char>| m == p + d;
    assert(m.subrange(0, p.len() as int) =~= p);
}

/// Session token keys, as their bytes: the current one, and the previous
/// one while keys are rotated.
pub struct SessionKeyManager {
    current_key: Vec<u8>,
    previous_key: Option<Vec<u8>>,
}

/// The bytes of a key from its hexadecimal text, which must denote 32
/// bytes.
fn key_from_hex(text: &str, which: &str) -> (r: Result<Vec<u8>, VaultlessError>)
    ensures
        r is Ok <==> key_text_ok(text@),
        r matches Ok(b) ==> b@ == hex_bytes(text@) && b@.len() == 32,
        r matches Err(e) ==> e is Internal,
{
    match decode_hex(text) {
        Err(e) => {
            let mut m = chars_of("Invalid ");
            append_chars(&mut m, &chars_of(which));
            append_chars(&mut m, &chars_of(" key hex: "));
            Err(VaultlessError::Internal(with_detail(string_of(&m).as_str(), hex_error_text(&e))))
        },
        Ok(bytes) => {
            proof {
                assert(bytes@.len() == text@.len() / 2);
            }
            match check_key_bytes(bytes.as_slice()) {
                Ok(()) => Ok(bytes),
                Err(e) => {
                    let mut m = chars_of("Invalid ");
                    append_chars(&mut m, &chars_of(which));
                    append_chars(&mut m, &chars_of(" key: "));
                    Err(VaultlessError::Internal(with_detail(string_of(&m).as_str(), paseto_error_text(&e))))
                },
            }
        },
    }
}

/// What a check of a token with one key gives: the claims the token
/// carries under that key, or a refusal.
pub open spec fn key_check(r: Result<Claims, VaultlessError>, key: Seq<u8>, token: Seq<char>) -> bool {
    match r {
        Ok(c) => claims_view(c) == token_payload(key, token),
        Err(e) => e matches VaultlessError::Unauthorized(m) && token_refusal(m@),
    }
}

/// `r` is the answer under key rotation, from the check with the current
/// key and, where one was made, the check with the previous key.
pub open spec fn rotation_answer(
    r: Result<Claims, VaultlessError>,
    current: Result<Claims, VaultlessError>,
    previous: Option<Result<Claims, VaultlessError>>,
) -> bool {
    match current {
        Ok(c) => r == Ok::<Claims, VaultlessError>(c),
        Err(_) => match previous {
            Some(p) => r == p,
            None => r matches Err(VaultlessError::Unauthorized(m)) && m@ == "Invalid or expired token"@,
        },
    }
}

/// The answer of a check under key rotation, from the check with the
/// current key and, when that one failed and a previous key is kept, the
/// check with the previous key: the current key's claims when it accepted
/// the token, else what the previous key's check gave, else a refusal.
pub fn rotation_verdict(
    current: Result<Claims, VaultlessError>,
    previous: Option<Result<Claims, VaultlessError>>,
) -> (r: Result<Claims, VaultlessError>)
    ensures
        current is Ok ==> r == current,
        current is Err && previous is Some ==> r == previous->0,
        current is Err && previous is None ==> (r matches Err(VaultlessError::Unauthorized(m))
            && m@ == "Invalid or expired token"@),
{
    match current {
        Ok(c) => Ok(c),
        Err(e) => match previous {
            Some(p) => p,
            None => Err(VaultlessError::Unauthorized(String::from_str("Invalid or expired token"))),
        },
    }
}

/// `r` is what a check of `token` under the keys of `km` gives: the
/// current key is tried first; the previous key is tried exactly when the
/// current one refused the token and a previous key is kept; the answer is
/// the current key's claims, else the previous key's outcome, else a
/// refusal.
pub open spec fn rotation_check(km: SessionKeyManager, token: Seq<char>, r: Result<Claims, VaultlessError>) -> bool {
    exists|current: Result<Claims, VaultlessError>, previous: Option<Result<Claims, VaultlessError>>|
        {
            &&& key_check(current, km.current_key_bytes(), token)
            &&& (previous is Some <==> (current is Err && km.keeps_previous()))
            &&& (previous matches Some(p) ==> key_check(p, km.previous_key_bytes(), token))
            &&& #[trigger] rotation_answer(r, current, previous)
        }
}

impl SessionKeyManager {
    /// The bytes of the key new tokens are made with.
    pub closed spec fn current_key_bytes(&self) -> Seq<u8> {
        self.current_key@
    }

    /// A previous key is kept.
    pub closed spec fn keeps_previous(&self) -> bool {
        self.previous_key is Some
    }

    /// The bytes of the previous key, where one is kept.
    pub closed spec fn previous_key_bytes(&self) -> Seq<u8> {
        match self.previous_key {
            Some(k) => k@,
            None => Seq::empty(),
        }
    }

    /// Keys from their hexadecimal text: each must be 32 bytes.
    pub fn new(current_key_hex: &str, previous_key_hex: Option<&str>) -> (r: Result<SessionKeyManager, VaultlessError>)
        ensures
            r is Ok <==> key_text_ok(current_key_hex@) && (previous_key_hex matches Some(p) ==> key_text_ok(p@)),
            r matches Ok(m) ==> m.current_key_bytes() == hex_bytes(current_key_hex@),
            r matches Ok(m) ==> (m.keeps_previous() <==> previous_key_hex is Some),
            r matches Ok(m) ==> (previous_key_hex matches Some(p) ==> m.previous_key_bytes() == hex_bytes(p@)),
            r matches Err(e) ==> e is Internal,
    {
        let current_key = match key_from_hex(current_key_hex, "current") {
            Ok(k) => k,
            Err(e) => return Err(e),
        };
        let previous_key = match previous_key_hex {
            None => None,
            Some(p) => match key_from_hex(p, "previous") {
                Ok(k) => Some(k),
                Err(e) => return Err(e),
            },
        };
        Ok(SessionKeyManager { current_key, previous_key })
    }

    /// A fresh random key, as hexadecimal text; fails only when the
    /// system's random source does.
    pub fn generate_new_key() -> (r: Result<String, VaultlessError>)
        ensures
            r matches Ok(s) ==> key_text_ok(s@),
            r matches Ok(s) ==> exists|b: Seq<u8>| b.len() == 32 && #[trigger] hex_text(b) == s@,
            r matches Err(e) ==> (e matches VaultlessError::Internal(m) && "Failed to generate key: "@.is_prefix_of(m@)),
    {
        match generate_key_bytes() {
            Ok(bytes) => {
                let s = encode_hex(bytes.as_slice());
                proof {
                    lemma_hex_round_trip(bytes@);
                    assert(hex_text(bytes@) == s@);
                }
                Ok(s)
            },
            Err(e) => {
                let m = with_detail("Failed to generate key: ", paseto_error_text(&e));
                proof { lemma_prefix_of_concat("Failed to generate key: "@, m@); }
                Err(VaultlessError::Internal(m))
            },
        }
    }

    /// The key new tokens are made with, as its bytes.
    pub fn current(&self) -> (k: &[u8])
        ensures
            k@ == self.current_key_bytes(),
    {
        self.current_key.as_slice()
    }

    /// Whether a previous key is kept.
    pub fn has_previous_key(&self) -> (b: bool)
        ensures
            b == self.keeps_previous(),
    {
        self.previous_key.is_some()
    }

    /// The claims of a token, checked with the current key first and, when
    /// that check fails and a previous key is kept, with the previous key;
    /// every failure is refused as unauthorized.
    pub fn verify_with_rotation(&self, token: &str) -> (r: Result<Claims, VaultlessError>)
        ensures
            rotation_check(*self, token@, r),
            r matches Ok(c) ==> (claims_view(c) == token_payload(self.current_key_bytes(), token@)
                || (self.keeps_previous() && claims_view(c) == token_payload(self.previous_key_bytes(), token@))),
            r matches Err(e) ==> e is Unauthorized,
            !self.keeps_previous() && r is Err
                ==> (r matches Err(VaultlessError::Unauthorized(m)) && m@ == "Invalid or expired token"@),
            self.keeps_previous() && r is Err
                ==> (r matches Err(VaultlessError::Unauthorized(m)) && token_refusal(m@)),
    {
        let current = verify_token_with_key(token, self.current_key.as_slice());
        let previous = if current.is_ok() {
            None
        } else {
            match &self.previous_key {
                Some(prev) => Some(verify_token_with_key(token, prev.as_slice())),
                None => None,
            }
        };
        let r = rotation_verdict(current, previous);
        assert(rotation_answer(r, current, previous));
        r
    }
}

/// The claims of a token opened with the key of the given bytes and
/// validated by the default rules; a refusal names its cause.
fn verify_token_with_key(token: &str, key: &[u8]) -> (r: Result<Claims, VaultlessError>)
    ensures
        key_check(r, key@, token@),
{
    match decrypt_local(key, token) {
        Ok(c) => Ok(c),
        Err(OpenFailure::Malformed(e)) => {
            let m = with_detail("Malformed token: ", paseto_error_text(&e));
            proof { lemma_prefix_of_concat("Malformed token: "@, m@); }
            Err(VaultlessError::Unauthorized(m))
        },
        Err(OpenFailure::Refused(e)) => {
            let m = with_detail("Token verification failed: ", paseto_error_text(&e));
            proof { lemma_prefix_of_concat("Token verification failed: "@, m@); }
            Err(VaultlessError::Unauthorized(m))
        },
        Err(OpenFailure::NoClaims) => Err(VaultlessError::Unauthorized(String::from_str("Token has no claims"))),
    }
}

// =============================================================================
// Session claims
// =============================================================================

/// Name of the claim that holds the application.
pub open spec fn application_claim() -> Seq<char> {
    "app_id"@
}

/// Name of the claim that holds the platform.
pub open spec fn platform_claim() -> Seq<char> {
    "platform"@
}

/// Name of the claim that holds the device's trust score.
pub open spec fn trust_claim() -> Seq<char> {
    "device_trusted"@
}

/// Name of the claim that holds the application's fingerprint.
pub open spec fn fingerprint_claim() -> Seq<char> {
    "app_fingerprint"@
}

/// Name of the claim that holds the application's tier.
pub open spec fn tier_claim() -> Seq<char> {
    "app_tier"@
}

/// Name of the claim that holds the application's secret key.
pub open spec fn secret_key_claim() -> Seq<char> {
    "app_secret_key_id"@
}

/// Name of the claim that holds the client's public key.
pub open spec fn pubkey_claim() -> Seq<char> {
    "pubkey"@
}

/// What a session token carries.
#[derive(Clone, Debug)]
pub struct SessionData {
    pub client_id: u128,
    pub application_id: u128,
    pub platform: String,
    pub app_fingerprint: u128,
    pub device_trust_score: u8,
    pub app_tier: Option<String>,
    pub application_secret_api_key_id: Option<u128>,
    pub pubkey: Option<String>,
}

/// `m` with `name` set to the text `t` when there is one.
pub open spec fn with_text(m: Map<Seq<char>, ClaimView>, name: Seq<char>, t: Option<Seq<char>>) -> Map<Seq<char>, ClaimView> {
    match t {
        Some(v) => m.insert(name, ClaimView::Text(v)),
        None => m,
    }
}

/// The text of an optional string.
pub open spec fn opt_text(s: Option<String>) -> Option<Seq<char>> {
    match s {
        Some(v) => Some(v@),
        None => None,
    }
}

/// The claims a session writes over `base`: issue and expiry times, the
/// client as subject, the token identifier, then the session's own
/// claims, the optional ones only when present.
pub open spec fn session_claims(
    base: Map<Seq<char>, ClaimView>,
    d: SessionData,
    iat: Seq<char>,
    exp: Seq<char>,
    jti: Seq<char>,
) -> Map<Seq<char>, ClaimView> {
    let m = base.insert("iat"@, ClaimView::Text(iat)).insert("exp"@, ClaimView::Text(exp)).insert(
        "sub"@,
        ClaimView::Text(uuid_text(d.client_id)),
    ).insert("jti"@, ClaimView::Text(jti)).insert(application_claim(), ClaimView::Text(uuid_text(d.application_id))).insert(
        platform_claim(),
        ClaimView::Text(d.platform@),
    ).insert(trust_claim(), ClaimView::Number(d.device_trust_score as u64)).insert(
        fingerprint_claim(),
        ClaimView::Text(uuid_text(d.app_fingerprint)),
    );
    let m = with_text(m, tier_claim(), opt_text(d.app_tier));
    let m = with_text(
        m,
        secret_key_claim(),
        match d.application_secret_api_key_id {
            Some(id) => Some(uuid_text(id)),
            None => None,
        },
    );
    with_text(m, pubkey_claim(), opt_text(d.pubkey))
}

/// The session's own claim names are not reserved, and differ from one
/// another and from the reserved ones.
proof fn lemma_session_claim_names()
    ensures
        !registered_claim(application_claim()),
        !registered_claim(platform_claim()),
        !registered_claim(trust_claim()),
        !registered_claim(fingerprint_claim()),
        !registered_claim(tier_claim()),
        !registered_claim(secret_key_claim()),
        !registered_claim(pubkey_claim()),
{
    reveal_strlit("iss");
    reveal_strlit("sub");
    reveal_strlit("aud");
    reveal_strlit("exp");
    reveal_strlit("nbf");
    reveal_strlit("iat");
    reveal_strlit("jti");
    reveal_strlit("app_id");
    reveal_strlit("platform");
    reveal_strlit("device_trusted");
    reveal_strlit("app_fingerprint");
    reveal_strlit("app_tier");
    reveal_strlit("app_secret_key_id");
    reveal_strlit("pubkey");
    assert(application_claim().len() == 6);
    assert(platform_claim().len() == 8);
    assert(trust_claim().len() == 14);
    assert(fingerprint_claim().len() == 15);
    assert(tier_claim().len() == 8);
    assert(secret_key_claim().len() == 17);
    assert(pubkey_claim().len() == 6);
    assert("iss"@.len() == 3);
    assert("sub"@.len() == 3);
    assert("aud"@.len() == 3);
    assert("exp"@.len() == 3);
    assert("nbf"@.len() == 3);
    assert("iat"@.len() == 3);
    assert("jti"@.len() == 3);
}

/// The names a session writes differ from one another.
proof fn lemma_session_claim_names_distinct()
    ensures
        ({
            let names = seq!["iat"@, "exp"@, "sub"@, "jti"@, application_claim(), platform_claim(), trust_claim(),
                fingerprint_claim(), tier_claim(), secret_key_claim(), pubkey_claim()];
            forall|i: int, j: int| 0 <= i < j < names.len() ==> names[i] != names[j]
        }),
{
    reveal_strlit("iat");
    reveal_strlit("exp");
    reveal_strlit("sub");
    reveal_strlit("jti");
    reveal_strlit("app_id");
    reveal_strlit("platform");
    reveal_strlit("device_trusted");
    reveal_strlit("app_fingerprint");
    reveal_strlit("app_tier");
    reveal_strlit("app_secret_key_id");
    reveal_strlit("pubkey");
    let names = seq!["iat"@, "exp"@, "sub"@, "jti"@, application_claim(), platform_claim(), trust_claim(),
        fingerprint_claim(), tier_claim(), secret_key_claim(), pubkey_claim()];
    assert forall|i: int, j: int| 0 <= i < j < names.len() implies names[i] != names[j] by {
        if names[i] == names[j] {
            assert(names[i].len() == names[j].len());
            assert(names[i][0] == names[j][0]);
            assert(names[i][names[i].len() - 1] == names[j][names[j].len() - 1]);
            assert(names[i][1] == names[j][1]);
            assert(names[i][4] == names[j][4] || names[i].len() < 5);
        }
    }
}

fn claims_failure(e: Error) -> (v: VaultlessError)
    ensures
        v matches VaultlessError::Internal(m) && "Invalid token claims: "@.is_prefix_of(m@),
{
    let m = with_detail("Invalid token claims: ", paseto_error_text(&e));
    proof { lemma_prefix_of_concat("Invalid token claims: "@, m@); }
    VaultlessError::Internal(m)
}

fn add_text_claim(claims: &mut Claims, name: &str, value: String) -> (r: Result<(), VaultlessError>)
    requires
        !registered_claim(name@),
    ensures
        r is Ok,
        claims_view(*final(claims)) == claims_view(*old(claims)).insert(name@, ClaimView::Text(value@)),
{
    match add_claim(claims, name, ClaimValue::Text(value)) {
        Ok(()) => Ok(()),
        Err(e) => Err(claims_failure(e)),
    }
}

/// Writes a session's claims, with the given issue and expiry times and
/// token identifier.  The session's own claims are always accepted; the
/// two times are accepted when they read as RFC 3339 date-times.
pub fn fill_session_claims(claims: &mut Claims, d: &SessionData, iat: &str, exp: &str, jti: &str) -> (r: Result<(), VaultlessError>)
    requires
        jti@.len() > 0,
    ensures
        r is Ok ==> claims_view(*final(claims)) == session_claims(claims_view(*old(claims)), *d, iat@, exp@, jti@),
        r matches Err(e) ==> e is Internal,
{
    match set_issued_at(claims, iat) {
        Ok(()) => {},
        Err(e) => return Err(claims_failure(e)),
    }
    match set_expiration(claims, exp) {
        Ok(()) => {},
        Err(e) => return Err(claims_failure(e)),
    }
    let sub = uuid_string(d.client_id);
    proof {
        crate::ident::lemma_uuid_text_shape(d.client_id);
    }
    match set_subject(claims, sub.as_str()) {
        Ok(()) => {},
        Err(e) => return Err(claims_failure(e)),
    }
    match set_token_identifier(claims, jti) {
        Ok(()) => {},
        Err(e) => return Err(claims_failure(e)),
    }
    proof {
        lemma_session_claim_names();
    }
    let _ = add_text_claim(claims, "app_id", uuid_string(d.application_id));
    let _ = add_text_claim(claims, "platform", d.platform.clone());
    match add_claim(claims, "device_trusted", ClaimValue::Number(d.device_trust_score as u64)) {
        Ok(()) => {},
        Err(e) => return Err(claims_failure(e)),
    }
    let _ = add_text_claim(claims, "app_fingerprint", uuid_string(d.app_fingerprint));
    match &d.app_tier {
        Some(t) => {
            let _ = add_text_claim(claims, "app_tier", t.clone());
        },
        None => {},
    }
    match d.application_secret_api_key_id {
        Some(id) => {
            let _ = add_text_claim(claims, "app_secret_key_id", uuid_string(id));
        },
        None => {},
    }
    match &d.pubkey {
        Some(k) => {
            let _ = add_text_claim(claims, "pubkey", k.clone());
        },
        None => {},
    }
    Ok(())
}


/// The text held by claim `name`, if it holds one.
pub open spec fn text_claim(v: Map<Seq<char>, ClaimView>, name: Seq<char>) -> Option<Seq<char>> {
    if v.contains_key(name) {
        match v[name] {
            ClaimView::Text(t) => Some(t),
            _ => None,
        }
    } else {
        None
    }
}

/// The number held by claim `name`, if it holds one.
pub open spec fn number_claim(v: Map<Seq<char>, ClaimView>, name: Seq<char>) -> Option<u64> {
    if v.contains_key(name) {
        match v[name] {
            ClaimView::Number(n) => Some(n),
            _ => None,
        }
    } else {
        None
    }
}

/// The identifier whose text claim `name` holds, if it holds one.
pub open spec fn id_claim(v: Map<Seq<char>, ClaimView>, name: Seq<char>) -> Option<u128> {
    match text_claim(v, name) {
        Some(t) => uuid_parsed(t),
        None => None,
    }
}

/// Why no session can be read from the claims `v`, if none can: the
/// subject must name a client, the token identifier must be there, and the
/// application claim must name an application.
pub open spec fn session_refusal(v: Map<Seq<char>, ClaimView>) -> Option<Seq<char>> {
    if id_claim(v, "sub"@) is None {
        Some("Invalid sub"@)
    } else if text_claim(v, "jti"@) is None {
        Some("Missing jti"@)
    } else if id_claim(v, application_claim()) is None {
        Some("Invalid application_id"@)
    } else {
        None
    }
}

/// `d` and `jti` are what the claims `v` hold: a missing platform reads
/// `unknown`, a missing trust score zero (a larger number keeps its low
/// byte), a missing or unreadable fingerprint the nil identifier.
pub open spec fn session_read(v: Map<Seq<char>, ClaimView>, d: SessionData, jti: Seq<char>) -> bool {
    &&& id_claim(v, "sub"@) == Some(d.client_id)
    &&& text_claim(v, "jti"@) == Some(jti)
    &&& id_claim(v, application_claim()) == Some(d.application_id)
    &&& d.platform@ == (match text_claim(v, platform_claim()) {
        Some(t) => t,
        None => "unknown"@,
    })
    &&& d.device_trust_score == (match number_claim(v, trust_claim()) {
        Some(n) => (n % 256) as u8,
        None => 0u8,
    })
    &&& d.app_fingerprint == (match id_claim(v, fingerprint_claim()) {
        Some(x) => x,
        None => 0u128,
    })
    &&& opt_text(d.app_tier) == text_claim(v, tier_claim())
    &&& d.application_secret_api_key_id == id_claim(v, secret_key_claim())
    &&& opt_text(d.pubkey) == text_claim(v, pubkey_claim())
}

fn text_of(claims: &Claims, name: &str) -> (r: Option<String>)
    ensures
        opt_text(r) == text_claim(claims_view(*claims), name@),
{
    match claim(claims, name) {
        Some(ClaimValue::Text(t)) => Some(t),
        _ => None,
    }
}

fn number_of(claims: &Claims, name: &str) -> (r: Option<u64>)
    ensures
        r == number_claim(claims_view(*claims), name@),
{
    match claim(claims, name) {
        Some(ClaimValue::Number(n)) => Some(n),
        _ => None,
    }
}

fn id_of(claims: &Claims, name: &str) -> (r: Option<u128>)
    ensures
        r == id_claim(claims_view(*claims), name@),
{
    match text_of(claims, name) {
        Some(t) => parse_uuid(t.as_str()),
        None => None,
    }
}

/// The session and token identifier that claims hold.
pub fn session_from_claims(claims: &Claims) -> (r: Result<(SessionData, String), VaultlessError>)
    ensures
        match session_refusal(claims_view(*claims)) {
            Some(m) => r matches Err(VaultlessError::Unauthorized(e)) && e@ == m,
            None => r matches Ok((d, jti)) && session_read(claims_view(*claims), d, jti@),
        },
{
    proof {
        reveal_strlit("app_id");
        reveal_strlit("platform");
        reveal_strlit("device_trusted");
        reveal_strlit("app_fingerprint");
        reveal_strlit("app_tier");
        reveal_strlit("app_secret_key_id");
        reveal_strlit("pubkey");
    }
    let client_id = match id_of(claims, "sub") {
        Some(c) => c,
        None => return Err(VaultlessError::Unauthorized(String::from_str("Invalid sub"))),
    };
    let jti = match text_of(claims, "jti") {
        Some(j) => j,
        None => return Err(VaultlessError::Unauthorized(String::from_str("Missing jti"))),
    };
    let application_id = match id_of(claims, "app_id") {
        Some(a) => a,
        None => return Err(VaultlessError::Unauthorized(String::from_str("Invalid application_id"))),
    };
    let platform = match text_of(claims, "platform") {
        Some(p) => p,
        None => String::from_str("unknown"),
    };
    let device_trust_score: u8 = match number_of(claims, "device_trusted") {
        Some(n) => (n % 256) as u8,
        None => 0,
    };
    let app_fingerprint: u128 = match id_of(claims, "app_fingerprint") {
        Some(f) => f,
        None => 0,
    };
    let app_tier = text_of(claims, "app_tier");
    let application_secret_api_key_id = id_of(claims, "app_secret_key_id");
    let pubkey = text_of(claims, "pubkey");
    let d = SessionData {
        client_id,
        application_id,
        platform,
        app_fingerprint,
        device_trust_score,
        app_tier,
        application_secret_api_key_id,
        pubkey,
    };
    Ok((d, jti))
}

/// Largest lifetime, in seconds, a session token can be given.
pub const MAX_TOKEN_TTL_SECS: u64 = 9_223_372_036_854_775;

/// Claims to write a session over: none of the session's optional claims
/// is there yet.
pub open spec fn plain_base(base: Map<Seq<char>, ClaimView>) -> bool {
    &&& !base.contains_key(tier_claim())
    &&& !base.contains_key(secret_key_claim())
    &&& !base.contains_key(pubkey_claim())
}

/// Claims as `Claims::new` makes them: an issue time, a not-before time and
/// an expiry, each as text.
pub open spec fn fresh_claims(base: Map<Seq<char>, ClaimView>) -> bool {
    &&& base.dom() == set!["iat"@, "nbf"@, "exp"@]
    &&& base["iat"@] is Text
    &&& base["nbf"@] is Text
    &&& base["exp"@] is Text
}

/// The expiry, in microseconds, of a token issued at `now` for
/// `ttl_seconds`.
pub open spec fn expiry_of(now: i64, ttl_seconds: u64) -> int {
    now + ttl_seconds * 1_000_000
}

/// `r` is what making a token for `d` with the key of bytes `key` gives,
/// issued at `now` for `ttl_seconds` with the token identifier `id`:
///
/// - an expiry past the last instant chrono represents is refused;
/// - otherwise a token starts with `v4.local.`, needs a 32-byte key and
///   carries, under that key, the session's claims written over fresh
///   claims, with `now` as issue time, `now + ttl_seconds` as expiry (both
///   as RFC 3339 text) and `id`'s text as token identifier; the expiry's
///   text reads back as the expiry whenever its year has four digits;
/// - any other failure is internal.
pub open spec fn token_made_at(
    r: Result<String, VaultlessError>,
    key: Seq<u8>,
    d: SessionData,
    ttl_seconds: u64,
    now: i64,
    id: u128,
) -> bool {
    if expiry_of(now, ttl_seconds) > MAX_UTC_MICROS {
        r matches Err(VaultlessError::Internal(m)) && m@ == "Failed to create token: expiry out of range"@
    } else {
        let exp = expiry_of(now, ttl_seconds) as i64;
        &&& r matches Err(e) ==> e is Internal
        &&& r matches Ok(t) ==> {
            &&& "v4.local."@.is_prefix_of(t@)
            &&& key.len() == 32
            &&& exists|base: Map<Seq<char>, ClaimView>|
                fresh_claims(base) && token_payload(key, t@)
                    == #[trigger] session_claims(base, d, rfc3339_text(now), rfc3339_text(exp), uuid_text(id))
        }
        &&& (calendar_of(micros_to_secs(exp)) matches Some(f) && four_digit_year(f)
            ==> rfc3339_instant(rfc3339_text(exp)) == Some(exp))
    }
}

/// Fresh claims hold none of a session's optional claims.
proof fn lemma_fresh_claims_plain(base: Map<Seq<char>, ClaimView>)
    requires
        fresh_claims(base),
    ensures
        plain_base(base),
{
    reveal_strlit("app_tier");
    reveal_strlit("app_secret_key_id");
    reveal_strlit("pubkey");
    reveal_strlit("iat");
    reveal_strlit("nbf");
    reveal_strlit("exp");
    assert("iat"@.len() == 3 && "nbf"@.len() == 3 && "exp"@.len() == 3);
    assert(tier_claim().len() == 8 && secret_key_claim().len() == 17 && pubkey_claim().len() == 6);
    assert(tier_claim() != "iat"@ && tier_claim() != "nbf"@ && tier_claim() != "exp"@);
    assert(secret_key_claim() != "iat"@ && secret_key_claim() != "nbf"@ && secret_key_claim() != "exp"@);
    assert(pubkey_claim() != "iat"@ && pubkey_claim() != "nbf"@ && pubkey_claim() != "exp"@);
}

/// A session token for `session_data`, made with the key of bytes `key`,
/// issued at `now` (microseconds since the epoch) and valid for
/// `ttl_seconds`, with the token identifier `id`.
pub fn create_session_token_at(
    key: &[u8],
    session_data: SessionData,
    ttl_seconds: u64,
    now: i64,
    id: u128,
) -> (r: Result<String, VaultlessError>)
    requires
        ttl_seconds <= MAX_TOKEN_TTL_SECS,
        MIN_UTC_MICROS <= now <= MAX_UTC_MICROS,
    ensures
        token_made_at(r, key@, session_data, ttl_seconds, now, id),
{
    let ttl_micros: i128 = (ttl_seconds as i128) * 1_000_000;
    let exp_wide: i128 = now as i128 + ttl_micros;
    if exp_wide > MAX_UTC_MICROS as i128 {
        return Err(VaultlessError::Internal(String::from_str("Failed to create token: expiry out of range")));
    }
    let exp = exp_wide as i64;
    let iat_text = write_rfc3339(now);
    let exp_text = write_rfc3339(exp);
    let mut claims = match new_claims() {
        Ok(c) => c,
        Err(e) => return Err(claims_failure(e)),
    };
    let ghost base = claims_view(claims);
    let jti = uuid_string(id);
    proof {
        crate::ident::lemma_uuid_text_shape(id);
    }
    assert(jti@.len() == 36);
    match fill_session_claims(&mut claims, &session_data, iat_text.as_str(), exp_text.as_str(), jti.as_str()) {
        Ok(()) => {},
        Err(e) => return Err(e),
    }
    match encrypt_local(key, &claims) {
        Ok(t) => {
            assert(token_payload(key@, t@) == session_claims(base, session_data, rfc3339_text(now), rfc3339_text(exp), uuid_text(id)));
            Ok(t)
        },
        Err(e) => Err(VaultlessError::Internal(with_detail("Failed to create token: ", paseto_error_text(&e)))),
    }
}

/// A session token for `session_data`, made with the key of bytes `key`,
/// issued now and valid for `ttl_seconds`, with a fresh random identifier.
pub fn create_session_token(key: &[u8], session_data: SessionData, ttl_seconds: u64) -> (r: Result<String, VaultlessError>)
    requires
        ttl_seconds <= MAX_TOKEN_TTL_SECS,
    ensures
        exists|now: i64, id: u128|
            MIN_UTC_MICROS <= now <= MAX_UTC_MICROS && #[trigger] token_made_at(r, key@, session_data, ttl_seconds, now, id),
{
    let now = now_micros();
    let id = new_random_id();
    let r = create_session_token_at(key, session_data, ttl_seconds, now, id);
    assert(token_made_at(r, key@, session_data, ttl_seconds, now, id));
    r
}

/// `r` is what a session check gives on the outcome `rc` of the key check:
/// the session the claims hold, or the key check's refusal.
pub open spec fn session_answer(r: Result<(SessionData, String), VaultlessError>, rc: Result<Claims, VaultlessError>) -> bool {
    match rc {
        Ok(c) => match session_refusal(claims_view(c)) {
            Some(m) => r matches Err(VaultlessError::Unauthorized(e)) && e@ == m,
            None => r matches Ok((d, jti)) && session_read(claims_view(c), d, jti@),
        },
        Err(e) => r == Err::<(SessionData, String), VaultlessError>(e),
    }
}

/// The session and token identifier of a token, checked with the current
/// key first and then with the previous one; every failure is refused as
/// unauthorized.
pub fn verify_session_token(key_manager: &SessionKeyManager, token: &str) -> (r: Result<(SessionData, String), VaultlessError>)
    ensures
        exists|rc: Result<Claims, VaultlessError>|
            rotation_check(*key_manager, token@, rc) && #[trigger] session_answer(r, rc),
        r matches Ok((d, jti)) ==> (session_read(token_payload(key_manager.current_key_bytes(), token@), d, jti@)
            || (key_manager.keeps_previous() && session_read(token_payload(key_manager.previous_key_bytes(), token@), d, jti@))),
        r matches Err(e) ==> e is Unauthorized,
{
    let rc = key_manager.verify_with_rotation(token);
    let ghost checked = rc;
    let r = match rc {
        Ok(c) => session_from_claims(&c),
        Err(e) => Err(e),
    };
    assert(session_answer(r, checked));
    proof {
        let (cur, prev) = choose|current: Result<Claims, VaultlessError>, previous: Option<Result<Claims, VaultlessError>>|
            {
                &&& key_check(current, key_manager.current_key_bytes(), token@)
                &&& (previous is Some <==> (current is Err && key_manager.keeps_previous()))
                &&& (previous matches Some(p) ==> key_check(p, key_manager.previous_key_bytes(), token@))
                &&& #[trigger] rotation_answer(checked, current, previous)
            };
        assert(rotation_answer(checked, cur, prev));
    }
    r
}

/// When claims expire: the instant, in microseconds, that the `exp` text
/// reads as.
pub fn expiration_from_claims(claims: &Claims) -> (r: Result<i64, VaultlessError>)
    ensures
        match text_claim(claims_view(*claims), "exp"@) {
            Some(t) if rfc3339_instant(t) is Some => r == Ok::<i64, VaultlessError>(rfc3339_instant(t)->0),
            _ => r matches Err(VaultlessError::Unauthorized(m)) && m@ == "Missing or invalid exp"@,
        },
{
    let parsed = match text_of(claims, "exp") {
        Some(t) => read_rfc3339(t.as_str()),
        None => None,
    };
    match parsed {
        Some(t) => Ok(t),
        None => Err(VaultlessError::Unauthorized(String::from_str("Missing or invalid exp"))),
    }
}

/// `r` is what an expiry check gives on the outcome `rc` of the key check:
/// the instant the `exp` claim reads as, or a refusal.
pub open spec fn expiry_answer(r: Result<i64, VaultlessError>, rc: Result<Claims, VaultlessError>) -> bool {
    match rc {
        Ok(c) => match text_claim(claims_view(c), "exp"@) {
            Some(t) if rfc3339_instant(t) is Some => r == Ok::<i64, VaultlessError>(rfc3339_instant(t)->0),
            _ => r matches Err(VaultlessError::Unauthorized(m)) && m@ == "Missing or invalid exp"@,
        },
        Err(e) => r == Err::<i64, VaultlessError>(e),
    }
}

/// When a token expires, in microseconds, checked with the current key
/// first and then with the previous one; every failure is refused as
/// unauthorized.
pub fn extract_token_expiration(key_manager: &SessionKeyManager, token: &str) -> (r: Result<i64, VaultlessError>)
    ensures
        exists|rc: Result<Claims, VaultlessError>|
            rotation_check(*key_manager, token@, rc) && #[trigger] expiry_answer(r, rc),
        r matches Err(e) ==> e is Unauthorized,
{
    let rc = key_manager.verify_with_rotation(token);
    let ghost checked = rc;
    let r = match rc {
        Ok(c) => expiration_from_claims(&c),
        Err(e) => Err(e),
    };
    assert(expiry_answer(r, checked));
    r
}

/// Two sessions with the same fields (texts compared by their characters).
pub open spec fn same_session(a: SessionData, b: SessionData) -> bool {
    &&& a.client_id == b.client_id
    &&& a.application_id == b.application_id
    &&& a.platform@ == b.platform@
    &&& a.app_fingerprint == b.app_fingerprint
    &&& a.device_trust_score == b.device_trust_score
    &&& opt_text(a.app_tier) == opt_text(b.app_tier)
    &&& a.application_secret_api_key_id == b.application_secret_api_key_id
    &&& opt_text(a.pubkey) == opt_text(b.pubkey)
}

/// What a session writes into its claims reads back as that session and
/// token identifier: for claims that hold none of the session's optional
/// claims beforehand, and given that each identifier's canonical text
/// parses back to it.
pub proof fn lemma_session_claims_round_trip(
    base: Map<Seq<char>, ClaimView>,
    d: SessionData,
    iat: Seq<char>,
    exp: Seq<char>,
    jti: Seq<char>,
)
    requires
        !base.contains_key(tier_claim()),
        !base.contains_key(secret_key_claim()),
        !base.contains_key(pubkey_claim()),
        uuid_parsed(uuid_text(d.client_id)) == Some(d.client_id),
        uuid_parsed(uuid_text(d.application_id)) == Some(d.application_id),
        uuid_parsed(uuid_text(d.app_fingerprint)) == Some(d.app_fingerprint),
        d.application_secret_api_key_id matches Some(k) ==> uuid_parsed(uuid_text(k)) == Some(k),
    ensures
        session_refusal(session_claims(base, d, iat, exp, jti)) is None,
        session_read(session_claims(base, d, iat, exp, jti), d, jti),
{
    lemma_session_claim_names_distinct();
    let names = seq!["iat"@, "exp"@, "sub"@, "jti"@, application_claim(), platform_claim(), trust_claim(),
        fingerprint_claim(), tier_claim(), secret_key_claim(), pubkey_claim()];
    assert(forall|j: int| 3 <= j < 11 ==> names[2] != #[trigger] names[j]);
    assert(forall|j: int| 4 <= j < 11 ==> names[3] != #[trigger] names[j]);
    let v = session_claims(base, d, iat, exp, jti);
    assert(text_claim(v, "sub"@) == Some(uuid_text(d.client_id)));
    assert(text_claim(v, "jti"@) == Some(jti));
    assert(text_claim(v, application_claim()) == Some(uuid_text(d.application_id)));
    assert(text_claim(v, platform_claim()) == Some(d.platform@));
    assert(number_claim(v, trust_claim()) == Some(d.device_trust_score as u64));
    assert(text_claim(v, fingerprint_claim()) == Some(uuid_text(d.app_fingerprint)));
    assert(opt_text(d.app_tier) == text_claim(v, tier_claim()));
    assert(d.application_secret_api_key_id == id_claim(v, secret_key_claim()));
    assert(opt_text(d.pubkey) == text_claim(v, pubkey_claim()));
}


/// The expiry a token was made with reads back from it: opened with the
/// key it was made with, a token issued at `now` for `ttl_seconds` has the
/// expiry `now + ttl_seconds` (whenever that instant's year has four
/// digits, so that its RFC 3339 text reads back).
pub proof fn lemma_token_expiry_round_trip(
    key: Seq<u8>,
    t: String,
    d: SessionData,
    ttl_seconds: u64,
    now: i64,
    id: u128,
    c: Claims,
    read: Result<i64, VaultlessError>,
)
    requires
        token_made_at(Ok::<String, VaultlessError>(t), key, d, ttl_seconds, now, id),
        calendar_of(micros_to_secs(expiry_of(now, ttl_seconds) as i64)) matches Some(f) && four_digit_year(f),
        claims_view(c) == token_payload(key, t@),
        expiry_answer(read, Ok::<Claims, VaultlessError>(c)),
    ensures
        read == Ok::<i64, VaultlessError>(expiry_of(now, ttl_seconds) as i64),
{
    let exp = expiry_of(now, ttl_seconds) as i64;
    let base = choose|base: Map<Seq<char>, ClaimView>|
        fresh_claims(base) && token_payload(key, t@)
            == #[trigger] session_claims(base, d, rfc3339_text(now), rfc3339_text(exp), uuid_text(id));
    lemma_session_claim_names_distinct();
    let names = seq!["iat"@, "exp"@, "sub"@, "jti"@, application_claim(), platform_claim(), trust_claim(),
        fingerprint_claim(), tier_claim(), secret_key_claim(), pubkey_claim()];
    assert(forall|j: int| 2 <= j < 11 ==> names[1] != #[trigger] names[j]);
    assert(text_claim(session_claims(base, d, rfc3339_text(now), rfc3339_text(exp), uuid_text(id)), "exp"@)
        == Some(rfc3339_text(exp)));
}

/// A token made for a session reads back as that session: opened with the
/// key it was made with, a session read from the token has `d`'s fields
/// and the token identifier `id` was written as (given that each
/// identifier's canonical text parses back to it).
pub proof fn lemma_token_session_round_trip(
    key: Seq<u8>,
    t: String,
    d: SessionData,
    ttl_seconds: u64,
    now: i64,
    id: u128,
    back: SessionData,
    back_jti: Seq<char>,
)
    requires
        token_made_at(Ok::<String, VaultlessError>(t), key, d, ttl_seconds, now, id),
        uuid_parsed(uuid_text(d.client_id)) == Some(d.client_id),
        uuid_parsed(uuid_text(d.application_id)) == Some(d.application_id),
        uuid_parsed(uuid_text(d.app_fingerprint)) == Some(d.app_fingerprint),
        d.application_secret_api_key_id matches Some(k) ==> uuid_parsed(uuid_text(k)) == Some(k),
        session_read(token_payload(key, t@), back, back_jti),
    ensures
        same_session(back, d),
        back_jti == uuid_text(id),
{
    let exp = expiry_of(now, ttl_seconds) as i64;
    let base = choose|base: Map<Seq<char>, ClaimView>|
        fresh_claims(base) && token_payload(key, t@)
            == #[trigger] session_claims(base, d, rfc3339_text(now), rfc3339_text(exp), uuid_text(id));
    lemma_fresh_claims_plain(base);
    lemma_session_claims_round_trip(base, d, rfc3339_text(now), rfc3339_text(exp), uuid_text(id));
}

} // verus!
