//! Stored records.
pub mod friend_requests;
pub mod messages;
pub mod refresh_tokens;
pub mod update;
pub mod users;
