//! Requests over HTTP: what each of them comes to.
pub mod account;
pub mod contacts;
pub mod conversation;
pub mod friends;
pub mod login;
pub mod notices;
pub mod session;
pub mod signup;
pub mod step_up;
pub mod two_factor;
