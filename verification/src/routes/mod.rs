//! Paths.
pub mod auth;
