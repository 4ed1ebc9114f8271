//! Users as they are shown.
pub mod json;
