//! Exponential backoff with random jitter between attempts of a cache
//! operation that is retried (delivery counting, received-message metrics).
use vstd::prelude::*;
use rand::Rng;

verus! {

/// Attempts made before the operation gives up.
pub const MAX_RETRIES: u32 = 3;

/// Wait after the first failed attempt, in milliseconds; it doubles after
/// each further failure.
pub const BASE_DELAY_MS: u64 = 50;

/// The base wait after the failed attempt numbered `attempt` (from 0):
/// `BASE_DELAY_MS * 2^attempt`.
pub open spec fn base_delay(attempt: nat) -> nat
    decreases attempt,
{
    if attempt == 0 {
        BASE_DELAY_MS as nat
    } else {
        2 * base_delay((attempt - 1) as nat)
    }
}

/// Whether another attempt follows the failed attempt numbered `attempt`.
pub open spec fn retries_after(attempt: nat) -> bool {
    attempt + 1 < MAX_RETRIES
}

/// A number drawn uniformly from `0..bound`.
///
/// Calls `rand::rng().random_range(0..bound)`, which panics on an empty
/// range (hence `bound > 0`); the contract claims only that the draw lies
/// in the range.
#[verifier::external_body]
fn random_below(bound: u64) -> (r: u64)
    requires
        bound > 0,
    ensures
        r < bound,
{
    rand::rng().random_range(0..bound)
}

/// The base wait after the failed attempt numbered `attempt`.
fn base_delay_ms(attempt: u32) -> (d: u64)
    requires
        retries_after(attempt as nat),
    ensures
        d == base_delay(attempt as nat),
        BASE_DELAY_MS <= d <= 4 * BASE_DELAY_MS,
{
    let mut d: u64 = BASE_DELAY_MS;
    let mut i: u32 = 0;
    while i < attempt
        invariant
            i <= attempt,
            attempt + 1 < MAX_RETRIES,
            d == base_delay(i as nat),
            50 <= d <= 100 * i + 50,
        decreases attempt - i,
    {
        d = d * 2;
        i = i + 1;
    }
    d
}

/// The wait after the failed attempt numbered `attempt`, given the jitter
/// drawn for it: `None` when no attempt follows, else the base wait plus
/// the jitter.
pub fn backoff_with_jitter(attempt: u32, jitter: u64) -> (d: Option<u64>)
    requires
        retries_after(attempt as nat) ==> jitter < base_delay(attempt as nat) / 2,
    ensures
        d == (if retries_after(attempt as nat) {
            Some((base_delay(attempt as nat) + jitter) as u64)
        } else {
            None::<u64>
        }),
{
    if attempt < MAX_RETRIES - 1 {
        let base = base_delay_ms(attempt);
        Some(base + jitter)
    } else {
        None
    }
}

/// The wait after the failed attempt numbered `attempt`: `None` when it was
/// the last one, else the base wait plus a jitter drawn below half of it.
pub fn retry_delay_ms(attempt: u32) -> (d: Option<u64>)
    ensures
        match d {
            None => !retries_after(attempt as nat),
            Some(ms) => retries_after(attempt as nat)
                && base_delay(attempt as nat) <= ms < base_delay(attempt as nat) + base_delay(attempt as nat) / 2,
        },
{
    if attempt < MAX_RETRIES - 1 {
        let base = base_delay_ms(attempt);
        let jitter = random_below(base / 2);
        backoff_with_jitter(attempt, jitter)
    } else {
        None
    }
}

} // verus!
