//! Client sessions: token verification decisions and pub/sub health.
pub mod health;
pub mod hybrid;
pub mod token;
