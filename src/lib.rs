//! Account registration, login and cookie-bound sessions for a small
//! classifieds site, over an in-memory model of the two relations that
//! hold them.

pub mod account;
pub mod auth;
pub mod claims;
pub mod client;
pub mod crypto;
pub mod date;
pub mod error;
pub mod password;
pub mod session;
pub mod session_flow;
pub mod store;
