//! Usage metering: counters, keys, flushing and restoring.
pub mod counters;
pub mod client;
pub mod flush;
pub mod restore;
pub mod config;
pub mod engine;
pub mod reports;
pub mod per_key;
