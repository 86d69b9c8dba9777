//! Peer-to-peer instant messaging: inboxes, delivery and sending.
pub mod model;
pub mod inbox;
pub mod delivery;
pub mod send;
pub mod stored;
pub mod iot;
pub mod retry;
pub mod upkeep;
