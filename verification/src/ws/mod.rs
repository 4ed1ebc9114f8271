//! The socket side of the server.
pub mod calls;
pub mod channel;
pub mod delete;
pub mod direct;
pub mod dispatch;
pub mod edit;
pub mod events;
pub mod frames;
pub mod message;
pub mod presence;
pub mod reaction;
pub mod read;
pub mod registry;
pub mod session;
pub mod typing;
pub mod unread;
pub mod voice;
