//! The library's error type.
use vstd::prelude::*;

verus! {

/// Why an operation was refused or failed.
#[derive(Debug, PartialEq, Eq)]
pub enum VaultlessError {
    Internal(String),
    NotFound(String),
    Timeout(String),
    Unauthorized(String),
    Forbidden(String),
    InvalidInput(String),
    Validation(String),
    BadRequest(String),
    Conflict(String),
    EmailNotVerified(Option<String>),
    InvalidProof(String),
    SignatureVerificationFailed(String),
    MetricsIncrementFailed(String),
    QuotaExceeded(String),
    RateLimitExceeded(String),
    DeviceOffline(String),
    MessageExpired,
    MessageAccessLimitReached,
}

} // verus!
