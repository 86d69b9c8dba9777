//! Verified core logic of the Vaultless messaging and usage-metering backend.
pub mod text;
pub mod ident;
pub mod clock;
pub mod keys;
pub mod error;
pub mod usage;
pub mod message;
pub mod user;
pub mod session;
pub mod session_keys;
pub mod notification;
pub mod notices;
pub mod pricing;
pub mod hexadecimal;
pub mod webhook;
pub mod message_proof;
