//! A notification client that delivers nowhere.

use vstd::prelude::*;

use crate::domain::email::Email;
use crate::domain::email_client::{EmailClient, EmailClientError};

verus! {

/// A stand-in notification client for tests and local runs: it accepts
/// every message and drops it.
pub struct MockEmailClient;

impl EmailClient for MockEmailClient {
    /// Dropping a message never fails.
    open spec fn reliable() -> bool {
        true
    }

    fn send_email(&self, _recipient: &Email, _subject: &str, _content: &str) -> (r: Result<
        (),
        EmailClientError,
    >) {
        Ok(())
    }
}

} // verus!
