//! Decisions of session verification with a local revocation cache.
use vstd::prelude::*;
use crate::error::VaultlessError;

verus! {

/// Configuration of the hybrid verifier.
#[derive(Debug)]
pub struct HybridVerifierConfig {
    /// Most entries in the local cache.
    pub cache_size: u64,
    /// Seconds a cached verdict lives.
    pub cache_ttl_seconds: u64,
    /// Seconds of pub/sub silence after which it counts as unhealthy.
    pub max_silence_seconds: u64,
    /// Recheck cached verdicts against the cache server while pub/sub is
    /// unhealthy.
    pub enable_fallback: bool,
    /// Address of the pub/sub server.
    pub redis_url: String,
}

impl Default for HybridVerifierConfig {
    fn default() -> (c: HybridVerifierConfig)
        ensures
            c.cache_size == 10_000,
            c.cache_ttl_seconds == 60,
            c.max_silence_seconds == 120,
            c.enable_fallback,
            c.redis_url@ == "redis://127.0.0.1:6379/"@,
    {
        HybridVerifierConfig {
            cache_size: 10_000,
            cache_ttl_seconds: 60,
            max_silence_seconds: 120,
            enable_fallback: true,
            redis_url: String::from_str("redis://127.0.0.1:6379/"),
        }
    }
}

/// What the fast path does with the cached verdict (`Some(valid)`) or its
/// absence.
#[derive(Debug, Clone, Copy, PartialEq, Eq, Structural)]
pub enum FastPlan {
    /// Answer from the cache.
    Answer { valid: bool },
    /// Ask the cache server whether the session is revoked.
    CheckRevocation,
}

/// A cached verdict is trusted unless fallback is on and pub/sub is
/// unhealthy.
pub fn fast_plan(cached: Option<bool>, enable_fallback: bool, pubsub_healthy: bool) -> (p: FastPlan)
    ensures
        p == (match cached {
            Some(valid) => if enable_fallback && !pubsub_healthy { FastPlan::CheckRevocation } else { FastPlan::Answer { valid } },
            None => FastPlan::CheckRevocation,
        }),
{
    match cached {
        Some(valid) => {
            if enable_fallback && !pubsub_healthy {
                FastPlan::CheckRevocation
            } else {
                FastPlan::Answer { valid }
            }
        },
        None => FastPlan::CheckRevocation,
    }
}

/// The outcome after asking the cache server.
#[derive(Debug, Clone, Copy, PartialEq, Eq, Structural)]
pub struct FastVerdict {
    /// Admit the session.
    pub accept: bool,
    /// Drop the cached verdict (it disagreed with the server).
    pub invalidate: bool,
    /// Verdict to cache, when the cache had none.
    pub cache_valid: Option<bool>,
}

/// The verdict from the cached one (if any) and the server's answer: a
/// cached verdict is stale when it says valid for a revoked session or
/// invalid for a live one; a session is admitted only when it is not
/// revoked and, if cached, was cached valid.
pub fn fast_verdict(cached: Option<bool>, revoked: bool) -> (v: FastVerdict)
    ensures
        v == (match cached {
            Some(valid) => FastVerdict { accept: valid && !revoked, invalidate: revoked == valid, cache_valid: None },
            None => FastVerdict { accept: !revoked, invalidate: false, cache_valid: Some(!revoked) },
        }),
{
    match cached {
        Some(valid) => FastVerdict { accept: valid && !revoked, invalidate: revoked == valid, cache_valid: None },
        None => FastVerdict { accept: !revoked, invalidate: false, cache_valid: Some(!revoked) },
    }
}

/// The refusal of a revoked session.
pub fn session_revoked() -> (e: VaultlessError)
    ensures
        e matches VaultlessError::Unauthorized(m) && m@ == "Session revoked"@,
{
    VaultlessError::Unauthorized(String::from_str("Session revoked"))
}

/// Seconds a revocation marker lives: the remaining lifetime, at least one.
pub fn revocation_ttl(remaining_ttl_seconds: u64) -> (t: u64)
    ensures
        t == (if remaining_ttl_seconds > 1 { remaining_ttl_seconds } else { 1 }),
{
    if remaining_ttl_seconds > 1 { remaining_ttl_seconds } else { 1 }
}

} // verus!
