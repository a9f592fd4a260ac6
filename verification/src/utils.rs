//! Supporting components: the session-token codec.

pub mod auth;
