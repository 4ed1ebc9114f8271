//! Rules that several parts of the server share.
pub mod admin;
pub mod auth;
pub mod config;
pub mod records;
pub mod registration;
pub mod user;
