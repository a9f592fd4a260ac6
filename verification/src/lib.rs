//! Authentication core: validated identity and secret value types, store
//! abstractions for users, revoked tokens and pending two-factor challenges,
//! a signed session-token codec, and the login/2FA orchestration that ties
//! them together.
//!
//! Every function here carries a contract; the surrounding process (HTTP
//! transport, configuration, concrete storage backends) lives outside this
//! crate and talks to it through plain values.

pub mod domain;
pub mod routes;
pub mod services;
pub mod utils;
