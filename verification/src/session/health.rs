//! Health of the session-invalidation pub/sub connection.
//!
//! The tracker's state is shared: every clone of a `PubSubHealth` reads and
//! writes the same atomic cells, so a connection task and the request path
//! see one state. The decision on that state is `health_verdict`, a
//! function of the values read.
use vstd::prelude::*;
use std::sync::Arc;
use std::sync::atomic::{AtomicBool, AtomicU64, Ordering};
use crate::clock::{now_micros, MIN_UTC_MICROS, MAX_UTC_MICROS};

verus! {

/// Nanoseconds since the Unix epoch of the instant `micros` (microseconds
/// since the epoch): zero before the epoch, `u64::MAX` past what 64 bits hold.
pub open spec fn epoch_ns(micros: i64) -> u64 {
    if micros <= 0 {
        0
    } else if micros * 1000 > u64::MAX {
        u64::MAX
    } else {
        (micros * 1000) as u64
    }
}

/// The current time in nanoseconds since the Unix epoch.
pub fn now_epoch_ns() -> (ns: u64)
    ensures
        exists|t: i64| MIN_UTC_MICROS <= t <= MAX_UTC_MICROS && ns == #[trigger] epoch_ns(t),
{
    let t = now_micros();
    let ns: u64 = if t <= 0 {
        0
    } else if t > 18_446_744_073_709_551 {
        u64::MAX
    } else {
        (t as u64) * 1000
    };
    assert(ns == epoch_ns(t));
    ns
}

/// Healthy: connected, and either no message recorded yet (`last_ns` is
/// zero) or the silence since the last one (saturating at zero) shorter
/// than `max_silence_ns`.
pub open spec fn healthy_reading(connected: bool, last_ns: u64, max_silence_ns: u128, now_ns: u64) -> bool {
    connected && (last_ns == 0 || (if now_ns >= last_ns { now_ns - last_ns } else { 0 }) < max_silence_ns)
}

/// The health verdict on a reading of the tracker: whether it is connected,
/// the time of the last message and the current time, in nanoseconds.
pub fn health_verdict(connected: bool, last_message_ns: u64, max_silence_ns: u128, now_ns: u64) -> (b: bool)
    ensures
        b == healthy_reading(connected, last_message_ns, max_silence_ns, now_ns),
{
    if !connected {
        return false;
    }
    if last_message_ns == 0 {
        return true;
    }
    let silence: u64 = if now_ns >= last_message_ns { now_ns - last_message_ns } else { 0 };
    (silence as u128) < max_silence_ns
}

/// Health tracker of the pub/sub connection; its clones share one state.
#[derive(Clone)]
pub struct PubSubHealth {
    connected: Arc<AtomicBool>,
    last_message_ns: Arc<AtomicU64>,
    messages_received: Arc<AtomicU64>,
    reconnect_attempts: Arc<AtomicU64>,
}

/// Counters reported by the tracker.
#[derive(Debug, Clone, Copy, PartialEq, Eq, Structural)]
pub struct HealthStats {
    pub connected: bool,
    pub messages_received: u64,
    pub reconnect_attempts: u64,
}

impl PubSubHealth {
    /// A disconnected tracker with nothing recorded.
    pub fn new() -> (h: PubSubHealth) {
        PubSubHealth {
            connected: Arc::new(AtomicBool::new(false)),
            last_message_ns: Arc::new(AtomicU64::new(0)),
            messages_received: Arc::new(AtomicU64::new(0)),
            reconnect_attempts: Arc::new(AtomicU64::new(0)),
        }
    }

    /// Marks the connection up.
    pub fn mark_connected(&self) {
        self.connected.store(true, Ordering::SeqCst);
    }

    /// Marks the connection down.
    pub fn mark_disconnected(&self) {
        self.connected.store(false, Ordering::SeqCst);
    }

    /// Records a received message: stores the current time, in nanoseconds
    /// since the epoch, as the last message's time and counts the message
    /// (wrapping at `u64::MAX`).
    pub fn record_message(&self) {
        let now = now_epoch_ns();
        self.last_message_ns.store(now, Ordering::SeqCst);
        self.messages_received.fetch_add(1, Ordering::SeqCst);
    }

    /// Counts one reconnection attempt (wrapping at `u64::MAX`).
    pub fn record_reconnect(&self) {
        self.reconnect_attempts.fetch_add(1, Ordering::SeqCst);
    }

    /// Is the connection healthy now? The verdict is `health_verdict` on
    /// the shared state as read and the current time.
    pub fn is_healthy(&self, max_silence_ns: u128) -> (b: bool) {
        let connected = self.connected.load(Ordering::SeqCst);
        let last = self.last_message_ns.load(Ordering::SeqCst);
        let now = now_epoch_ns();
        health_verdict(connected, last, max_silence_ns, now)
    }

    /// The tracker's counters, as read.
    pub fn stats(&self) -> (s: HealthStats) {
        HealthStats {
            connected: self.connected.load(Ordering::SeqCst),
            messages_received: self.messages_received.load(Ordering::SeqCst),
            reconnect_attempts: self.reconnect_attempts.load(Ordering::SeqCst),
        }
    }
}

impl Default for PubSubHealth {
    fn default() -> (h: PubSubHealth) {
        PubSubHealth::new()
    }
}

} // verus!
