//! The validated identity value type.
//!
//! An `Email` wraps a string that contains an `@` separator. It is treated
//! as a potentially sensitive value: the core never writes it anywhere, and
//! equality is by the underlying characters.

use vstd::prelude::*;

use crate::domain::error::AuthAPIError;

verus! {

/// A validated identity: a string containing an `@` separator.
#[derive(Debug)]
pub struct Email(String);

/// An identity string is acceptable when it contains an `@` separator.
pub open spec fn valid_email(s: Seq<char>) -> bool {
    exists|i: int| 0 <= i < s.len() && s[i] == '@'
}

/// Whether `s` contains an `@` separator.
pub fn validate_email(s: &str) -> (r: bool)
    ensures
        r == valid_email(s@),
{
    let n = s.unicode_len();
    let mut i: usize = 0;
    while i < n
        invariant
            i <= n,
            n == s@.len(),
            forall|j: int| 0 <= j < i ==> s@[j] != '@',
        decreases n - i,
    {
        if s.get_char(i) == '@' {
            assert(s@[i as int] == '@');
            return true;
        }
        i += 1;
    }
    false
}

impl Email {
    /// The characters of the underlying identity.
    pub closed spec fn view(&self) -> Seq<char> {
        self.0@
    }

    /// The invariant every `Email` satisfies.
    pub open spec fn is_valid(&self) -> bool {
        valid_email(self@)
    }

    /// Validates a raw identity: succeeds exactly on strings containing an
    /// `@` separator, and returns the identity unchanged.
    pub fn parse(email: String) -> (r: Result<Email, AuthAPIError>)
        ensures
            valid_email(email@) <==> r is Ok,
            r matches Ok(e) ==> e@ == email@ && e.is_valid(),
            r matches Err(e) ==> e == AuthAPIError::InvalidCredentials,
    {
        if validate_email(email.as_str()) {
            Ok(Email(email))
        } else {
            Err(AuthAPIError::InvalidCredentials)
        }
    }

    /// The underlying identity string.
    pub fn as_ref(&self) -> (r: &str)
        ensures
            r@ == self@,
    {
        self.0.as_str()
    }
}

impl Clone for Email {
    /// A clone carries the same identity.
    fn clone(&self) -> (r: Self)
        ensures
            r == *self,
    {
        Email(self.0.clone())
    }
}

impl PartialEq for Email {
    /// Identities compare by their underlying characters.
    fn eq(&self, other: &Self) -> (r: bool) {
        self.0 == other.0
    }
}

impl vstd::std_specs::cmp::PartialEqSpecImpl for Email {
    open spec fn obeys_eq_spec() -> bool {
        true
    }

    open spec fn eq_spec(&self, other: &Self) -> bool {
        self@ == other@
    }
}

impl Eq for Email {}

} // verus!
