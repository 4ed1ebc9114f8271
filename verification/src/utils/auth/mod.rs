//! Logins.
pub mod refresh;
