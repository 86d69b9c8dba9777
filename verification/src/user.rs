//! Accounts: login decisions, secure tokens and refresh-token rotation.
//!
//! Instants are microseconds since 1970-01-01T00:00:00 UTC.
use vstd::prelude::*;
use base64::{Engine, engine::general_purpose::URL_SAFE_NO_PAD};
use crate::error::VaultlessError;

verus! {

/// Microseconds in a day.
pub const MICROS_PER_DAY: i64 = 86_400_000_000;
/// Failed attempts from one address, within the window, that lock it out.
pub const LOGIN_FAILURE_LIMIT: i64 = 5;

/// A user account.
#[derive(Debug)]
pub struct User {
    pub id: u128,
    pub email: String,
    pub password_hash: String,
    pub name: Option<String>,
    pub avatar_url: Option<String>,
    pub email_verified: bool,
    pub email_verification_token: Option<String>,
    pub email_verification_expires_at: Option<i64>,
    pub password_reset_token: Option<String>,
    pub password_reset_expires_at: Option<i64>,
    pub is_active: bool,
    pub is_admin: bool,
    pub created_at: i64,
    pub updated_at: i64,
    pub last_login_at: Option<i64>,
    pub stripe_customer_id: Option<String>,
    /// The account's metadata as JSON text.
    pub metadata: Option<String>,
}

#[verifier::external_type_specification]
#[verifier::external_body]
pub struct ExGetrandomError(getrandom::Error);

/// The text of a URL-safe base64 encoding without padding, as the `base64`
/// crate produces it.
pub uninterp spec fn base64_url_text(bytes: Seq<u8>) -> Seq<char>;

/// Length of the URL-safe base64 text of `n` bytes without padding: four
/// characters per three bytes, two or three for a remainder.
pub open spec fn base64_nopad_len(n: nat) -> nat {
    let rem = n % 3;
    (n / 3) * 4 + if rem == 0 { 0nat } else if rem == 1 { 2nat } else { 3nat }
}

/// A character of the URL-safe base64 alphabet.
pub open spec fn base64_url_char(c: char) -> bool {
    ('A' <= c && c <= 'Z') || ('a' <= c && c <= 'z') || ('0' <= c && c <= '9') || c == '-' || c == '_'
}

/// Encodes bytes as URL-safe base64 without padding.
///
/// Calls `URL_SAFE_NO_PAD.encode(bytes)`.  The contract names the text and
/// states its length and alphabet, as the crate's `encoded_len` and its
/// URL-safe alphabet give them.
#[verifier::external_body]
pub(crate) fn encode_base64_url(bytes: &[u8; 32]) -> (s: String)
    ensures
        s@ == base64_url_text(bytes@),
        s@.len() == base64_nopad_len(32),
        forall|i: int| 0 <= i < s@.len() ==> base64_url_char(#[trigger] s@[i]),
{
    URL_SAFE_NO_PAD.encode(bytes)
}

/// Thirty-two bytes from the operating system's random source.
///
/// Calls `getrandom::fill`; nothing is promised of the bytes.
#[verifier::external_body]
pub(crate) fn random_seed() -> (r: Result<[u8; 32], getrandom::Error>) {
    let mut seed = [0u8; 32];
    match getrandom::fill(&mut seed) {
        Ok(()) => Ok(seed),
        Err(e) => Err(e),
    }
}

impl User {
    /// A fresh secret token: 32 random bytes in URL-safe base64 without
    /// padding (43 characters).
    pub fn generate_token() -> (r: Result<String, getrandom::Error>)
        ensures
            r matches Ok(s) ==> {
                &&& s@.len() == 43
                &&& forall|i: int| 0 <= i < s@.len() ==> base64_url_char(#[trigger] s@[i])
                &&& exists|b: Seq<u8>| b.len() == 32 && s@ == base64_url_text(b)
            },
    {
        match random_seed() {
            Ok(seed) => {
                let s = encode_base64_url(&seed);
                assert(base64_nopad_len(32) == 43);
                Ok(s)
            },
            Err(e) => Err(e),
        }
    }

    /// Checks a password against the account's hash.
    pub fn verify_password(&self, password: &str) -> (r: Result<bool, VaultlessError>)
        ensures
            match bcrypt_outcome(password@, self.password_hash@) {
                Ok(b) => r == Ok::<bool, VaultlessError>(b),
                Err(t) => r matches Err(VaultlessError::Internal(m)) && m@ == "Password verification failed: "@ + t,
            },
    {
        match bcrypt_check(password, self.password_hash.as_str()) {
            Ok(b) => Ok(b),
            Err(t) => {
                let mut m = crate::text::chars_of("Password verification failed: ");
                crate::text::append_chars(&mut m, &crate::text::chars_of(t.as_str()));
                Err(VaultlessError::Internal(crate::text::string_of(&m)))
            },
        }
    }
}

/// What `bcrypt::verify` answers for a password and a hash: whether they
/// match, or the text of its error.
pub uninterp spec fn bcrypt_outcome(password: Seq<char>, hash: Seq<char>) -> Result<bool, Seq<char>>;

/// Checks a password against a bcrypt hash.
///
/// Calls `bcrypt::verify(password, hash)` and renders an error with its
/// `Display`.  The answer is a function of the two texts (the hash carries
/// its salt and cost); the contract names it.
#[verifier::external_body]
pub(crate) fn bcrypt_check(password: &str, hash: &str) -> (r: Result<bool, String>)
    ensures
        match (r, bcrypt_outcome(password@, hash@)) {
            (Ok(a), Ok(b)) => a == b,
            (Err(m), Err(t)) => m@ == t,
            _ => false,
        },
{
    match bcrypt::verify(password, hash) {
        Ok(b) => Ok(b),
        Err(e) => Err(e.to_string()),
    }
}

/// The course a login takes once the account is looked up and the password
/// checked.
#[derive(Debug, Clone, Copy, PartialEq, Eq, Structural)]
pub enum LoginPlan {
    /// No such account: record the failure ("User not found"), commit, and
    /// refuse with "Invalid email or password".
    RejectUnknownUser,
    /// Wrong password: record the failure ("Invalid password"), commit, and
    /// refuse with "Invalid email or password".
    RejectBadPassword,
    /// The account is deactivated: refuse, recording nothing.
    RejectInactive,
    /// The e-mail is not verified: issue a new verification token when the
    /// old one is missing or expired, commit, and refuse.
    RequireVerification { regenerate_token: bool },
    /// Record the login and the success, commit, and admit.
    Accept,
}

/// Facts about the account a login looks up.
#[derive(Debug, Clone, Copy, PartialEq, Eq, Structural)]
pub struct AccountState {
    pub is_active: bool,
    pub email_verified: bool,
    pub verification_expires_at: Option<i64>,
}

/// The plan for a login at `now` given the account (if found) and whether
/// the password matched.
pub open spec fn login_plan_spec(account: Option<AccountState>, password_ok: bool, now: i64) -> LoginPlan {
    match account {
        None => LoginPlan::RejectUnknownUser,
        Some(a) => if !password_ok {
            LoginPlan::RejectBadPassword
        } else if !a.is_active {
            LoginPlan::RejectInactive
        } else if !a.email_verified {
            LoginPlan::RequireVerification {
                regenerate_token: match a.verification_expires_at {
                    Some(t) => t < now,
                    None => true,
                },
            }
        } else {
            LoginPlan::Accept
        },
    }
}

/// Law: a login is refused for an unknown user, then for a wrong password,
/// then for an inactive account; an active account whose email is not
/// verified must verify it, and a new verification token is made exactly
/// when the account has none with an expiry or its token expired before
/// `now` (an unexpired token is kept); any other login is accepted.
pub proof fn lemma_login_plan(account: Option<AccountState>, password_ok: bool, now: i64)
    ensures
        ({
            let p = login_plan_spec(account, password_ok, now);
            match account {
                None => p == LoginPlan::RejectUnknownUser,
                Some(a) => if !password_ok {
                    p == LoginPlan::RejectBadPassword
                } else if !a.is_active {
                    p == LoginPlan::RejectInactive
                } else if !a.email_verified {
                    p is RequireVerification && (p->regenerate_token <==> !(a.verification_expires_at is Some
                        && a.verification_expires_at->0 >= now))
                } else {
                    p == LoginPlan::Accept
                },
            }
        }),
{
}

/// Decides the course of a login.
pub fn login_plan(account: Option<AccountState>, password_ok: bool, now: i64) -> (p: LoginPlan)
    ensures
        p == login_plan_spec(account, password_ok, now),
{
    match account {
        None => LoginPlan::RejectUnknownUser,
        Some(a) => {
            if !password_ok {
                LoginPlan::RejectBadPassword
            } else if !a.is_active {
                LoginPlan::RejectInactive
            } else if !a.email_verified {
                let regenerate_token = match a.verification_expires_at {
                    Some(t) => t < now,
                    None => true,
                };
                LoginPlan::RequireVerification { regenerate_token }
            } else {
                LoginPlan::Accept
            }
        },
    }
}

/// The failure reason recorded for a refused login, if one is recorded.
pub fn login_failure_reason(plan: LoginPlan) -> (r: Option<String>)
    ensures
        plan == LoginPlan::RejectUnknownUser ==> (r matches Some(m) && m@ == "User not found"@),
        plan == LoginPlan::RejectBadPassword ==> (r matches Some(m) && m@ == "Invalid password"@),
        plan != LoginPlan::RejectUnknownUser && plan != LoginPlan::RejectBadPassword ==> r is None,
{
    match plan {
        LoginPlan::RejectUnknownUser => Some(String::from_str("User not found")),
        LoginPlan::RejectBadPassword => Some(String::from_str("Invalid password")),
        _ => None,
    }
}

/// The error a refused login answers with; `token` is the account's
/// verification token as it was before the login.
pub fn login_error(plan: LoginPlan, token: Option<String>) -> (e: Option<VaultlessError>)
    ensures
        (plan == LoginPlan::RejectUnknownUser || plan == LoginPlan::RejectBadPassword)
            ==> (e matches Some(VaultlessError::Unauthorized(m)) && m@ == "Invalid email or password"@),
        plan == LoginPlan::RejectInactive ==> (e matches Some(VaultlessError::Forbidden(m)) && m@ == "Account is deactivated"@),
        plan is RequireVerification ==> e == Some(VaultlessError::EmailNotVerified(token)),
        plan == LoginPlan::Accept ==> e is None,
{
    match plan {
        LoginPlan::RejectUnknownUser => Some(VaultlessError::Unauthorized(String::from_str("Invalid email or password"))),
        LoginPlan::RejectBadPassword => Some(VaultlessError::Unauthorized(String::from_str("Invalid email or password"))),
        LoginPlan::RejectInactive => Some(VaultlessError::Forbidden(String::from_str("Account is deactivated"))),
        LoginPlan::RequireVerification { .. } => Some(VaultlessError::EmailNotVerified(token)),
        LoginPlan::Accept => None,
    }
}

/// An address is locked out after five recent failures.
pub fn is_login_rate_limited(recent_failures: i64) -> (b: bool)
    ensures
        b == (recent_failures >= LOGIN_FAILURE_LIMIT),
{
    recent_failures >= LOGIN_FAILURE_LIMIT
}

/// Whole days between `now` and `expires_at`, rounded toward zero (as
/// `TimeDelta::num_days` does).
pub open spec fn whole_days_left(expires_at: i64, now: i64) -> int {
    crate::clock::trunc_div(expires_at - now, MICROS_PER_DAY as int)
}

/// When a rotated refresh token expires: as many whole days from `now` as
/// the old token had left, at least one.
pub fn rotated_expiry(old_expires_at: i64, now: i64) -> (t: i64)
    requires
        -4_000_000_000_000_000_000 <= old_expires_at <= 4_000_000_000_000_000_000,
        -4_000_000_000_000_000_000 <= now <= 4_000_000_000_000_000_000,
    ensures
        t == now + (if whole_days_left(old_expires_at, now) > 1 { whole_days_left(old_expires_at, now) } else { 1 }) * MICROS_PER_DAY,
{
    let diff = old_expires_at - now;
    let days = diff / MICROS_PER_DAY;
    assert(days == whole_days_left(old_expires_at, now));
    let d = if days > 1 { days } else { 1 };
    proof {
        crate::clock::lemma_trunc_to_bounds(diff as int, MICROS_PER_DAY as int);
        assert(crate::clock::trunc_to(diff as int, MICROS_PER_DAY as int) == days * MICROS_PER_DAY);
    }
    now + d * MICROS_PER_DAY
}


// =============================================================================
// Registration
// =============================================================================

/// Cost factor of password hashes.
pub const PASSWORD_HASH_COST: u32 = 12;

/// Microseconds an e-mail verification token stays valid (a day).
pub const VERIFICATION_TTL_MICROS: i64 = 86_400_000_000;

/// `bcrypt::verify` accepts `password` against `hash`.
pub open spec fn password_matches(password: Seq<char>, hash: Seq<char>) -> bool {
    bcrypt_outcome(password, hash) == Ok::<bool, Seq<char>>(true)
}

/// Hashes a password with bcrypt.
///
/// Calls `bcrypt::hash(password, cost)`, which draws a random salt and
/// renders an error with its `Display`.  The hash it gives carries its
/// cost and salt, and `bcrypt::verify` recomputes the same digest from
/// them, so the password verifies against its own hash: that fact is what
/// the contract states.  The hash itself rests on chance and is not named.
#[verifier::external_body]
pub(crate) fn bcrypt_hash(password: &str, cost: u32) -> (r: Result<String, String>)
    ensures
        r matches Ok(h) ==> password_matches(password@, h@),
{
    match bcrypt::hash(password, cost) {
        Ok(h) => Ok(h),
        Err(e) => Err(e.to_string()),
    }
}

/// What a new account is stored with.
#[derive(Debug)]
pub struct NewUser {
    pub email: String,
    pub password_hash: String,
    pub name: Option<String>,
    pub email_verification_token: String,
    pub email_verification_expires_at: i64,
}

/// The account to store for a registration at the instant `now`: the
/// password hashed, and a fresh verification token valid for a day.
pub fn prepare_registration(email: String, password: &str, name: Option<String>, now: i64) -> (r: Result<NewUser, VaultlessError>)
    requires
        now <= i64::MAX - VERIFICATION_TTL_MICROS,
    ensures
        r matches Ok(u) ==> {
            &&& u.email == email
            &&& u.name == name
            &&& password_matches(password@, u.password_hash@)
            &&& u.email_verification_token@.len() == 43
            &&& u.email_verification_expires_at == now + VERIFICATION_TTL_MICROS
        },
        r matches Err(e) ==> e is Internal,
{
    let password_hash = match hash_new_password(password) {
        Ok(h) => h,
        Err(e) => return Err(e),
    };
    let grant = match new_verification_token(now) {
        Ok(g) => g,
        Err(e) => return Err(e),
    };
    Ok(NewUser {
        email,
        password_hash,
        name,
        email_verification_token: grant.token,
        email_verification_expires_at: grant.expires_at,
    })
}

/// The stored account of a registration, once the store has given it an
/// identifier and times.
pub fn registered_user(n: NewUser, id: u128, created_at: i64) -> (u: User)
    ensures
        u.id == id,
        u.email == n.email,
        u.password_hash == n.password_hash,
        u.name == n.name,
        !u.email_verified,
        u.email_verification_token == Some(n.email_verification_token),
        u.email_verification_expires_at == Some(n.email_verification_expires_at),
        u.is_active,
        !u.is_admin,
        u.created_at == created_at,
        u.updated_at == created_at,
        u.last_login_at is None,
{
    User {
        id,
        email: n.email,
        password_hash: n.password_hash,
        name: n.name,
        avatar_url: None,
        email_verified: false,
        email_verification_token: Some(n.email_verification_token),
        email_verification_expires_at: Some(n.email_verification_expires_at),
        password_reset_token: None,
        password_reset_expires_at: None,
        is_active: true,
        is_admin: false,
        created_at,
        updated_at: created_at,
        last_login_at: None,
        stripe_customer_id: None,
        metadata: None,
    }
}

/// Law: a user can log in with the password they registered with.  The
/// password checks against the hash a registration stores, so once the
/// account is active and its e-mail verified, a login with it is admitted
/// at any instant.
pub proof fn lemma_registered_password_logs_in(password: Seq<char>, n: NewUser, now: i64)
    requires
        password_matches(password, n.password_hash@),
    ensures
        bcrypt_outcome(password, n.password_hash@) == Ok::<bool, Seq<char>>(true),
        login_plan_spec(
            Some(AccountState { is_active: true, email_verified: true, verification_expires_at: None }),
            bcrypt_outcome(password, n.password_hash@) == Ok::<bool, Seq<char>>(true),
            now,
        ) == LoginPlan::Accept,
{
}


// =============================================================================
// Verification and reset tokens
// =============================================================================

/// Microseconds a password reset token stays valid (an hour).
pub const RESET_TTL_MICROS: i64 = 3_600_000_000;

/// A fresh secret token and when it stops being valid.
#[derive(Debug)]
pub struct TokenGrant {
    pub token: String,
    pub expires_at: i64,
}

/// A fresh token valid for `ttl` microseconds from `now`; `what` names the
/// token in the error.
fn grant_token(now: i64, ttl: i64, what: &str) -> (r: Result<TokenGrant, VaultlessError>)
    requires
        0 < ttl,
        now <= i64::MAX - ttl,
    ensures
        r matches Ok(g) ==> g.token@.len() == 43 && g.expires_at == now + ttl,
        r matches Err(e) ==> (e matches VaultlessError::Internal(m) && m@ == "Failed to generate "@ + what@),
{
    match User::generate_token() {
        Ok(token) => Ok(TokenGrant { token, expires_at: now + ttl }),
        Err(_) => {
            let mut m = crate::text::chars_of("Failed to generate ");
            crate::text::append_chars(&mut m, &crate::text::chars_of(what));
            Err(VaultlessError::Internal(crate::text::string_of(&m)))
        },
    }
}

/// A new e-mail verification token, valid for a day from `now`.
pub fn new_verification_token(now: i64) -> (r: Result<TokenGrant, VaultlessError>)
    requires
        now <= i64::MAX - VERIFICATION_TTL_MICROS,
    ensures
        r matches Ok(g) ==> g.token@.len() == 43 && g.expires_at == now + VERIFICATION_TTL_MICROS,
        r matches Err(e) ==> (e matches VaultlessError::Internal(m) && m@ == "Failed to generate verification token"@),
{
    proof {
        reveal_strlit("Failed to generate ");
        reveal_strlit("verification token");
        reveal_strlit("Failed to generate verification token");
        assert("Failed to generate "@ + "verification token"@ =~= "Failed to generate verification token"@);
    }
    grant_token(now, VERIFICATION_TTL_MICROS, "verification token")
}

/// A new password reset token, valid for an hour from `now`.
pub fn new_reset_token(now: i64) -> (r: Result<TokenGrant, VaultlessError>)
    requires
        now <= i64::MAX - RESET_TTL_MICROS,
    ensures
        r matches Ok(g) ==> g.token@.len() == 43 && g.expires_at == now + RESET_TTL_MICROS,
        r matches Err(e) ==> (e matches VaultlessError::Internal(m) && m@ == "Failed to generate reset token"@),
{
    proof {
        reveal_strlit("Failed to generate ");
        reveal_strlit("reset token");
        reveal_strlit("Failed to generate reset token");
        assert("Failed to generate "@ + "reset token"@ =~= "Failed to generate reset token"@);
    }
    grant_token(now, RESET_TTL_MICROS, "reset token")
}

/// What a reset request answers: the token when an active account took
/// it, nothing when no account did (so that the answer does not tell
/// whether the address is known).
pub fn reset_request_answer(rows_affected: u64, token: String) -> (r: Option<String>)
    ensures
        rows_affected == 0 ==> r is None,
        rows_affected != 0 ==> r == Some(token),
{
    if rows_affected == 0 {
        None
    } else {
        Some(token)
    }
}

/// The hash of a new password, which the password then verifies against.
pub fn hash_new_password(new_password: &str) -> (r: Result<String, VaultlessError>)
    ensures
        r matches Ok(h) ==> password_matches(new_password@, h@),
        r matches Err(e) ==> e is Internal,
{
    match bcrypt_hash(new_password, PASSWORD_HASH_COST) {
        Ok(h) => Ok(h),
        Err(t) => {
            let mut m = crate::text::chars_of("Password hashing failed: ");
            crate::text::append_chars(&mut m, &crate::text::chars_of(t.as_str()));
            Err(VaultlessError::Internal(crate::text::string_of(&m)))
        },
    }
}

} // verus!
