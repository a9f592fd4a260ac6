//! The login/2FA orchestration: the transport-agnostic protocol surface.
//!
//! Each operation takes the stores it needs, the request values, and —
//! where a token is issued or checked — the signing key and the current
//! time, and returns either the protocol outcome or a typed failure.

pub mod login;
pub mod logout;
pub mod signup;
pub mod verify_2fa;
pub mod verify_token;
