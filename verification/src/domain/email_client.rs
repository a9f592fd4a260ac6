//! The outbound notification channel that delivers one-time codes.

use vstd::prelude::*;

use crate::domain::email::Email;

verus! {

/// Failure of the notification channel.
#[derive(Debug, Clone, Copy, PartialEq, Eq, Structural)]
pub enum EmailClientError {
    UnexpectedError,
}

/// A collaborator that can deliver a message to a user. Delivery may fail;
/// failure is reported to the caller, never retried here.
pub trait EmailClient {
    /// Whether this channel is free of delivery failures: when it holds,
    /// `send_email` always succeeds. A stand-in client can promise it; a
    /// real outbound channel cannot.
    spec fn reliable() -> bool;

    fn send_email(&self, recipient: &Email, subject: &str, content: &str) -> (r: Result<
        (),
        EmailClientError,
    >)
        ensures
            Self::reliable() ==> r is Ok,
    ;
}

} // verus!
