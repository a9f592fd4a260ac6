//! The validated secret value type.
//!
//! A `Password` wraps a string of at least eight characters. The raw secret
//! exists only transiently at signup and login time; `parse` is the only way
//! to construct one.

use vstd::prelude::*;

use crate::domain::error::AuthAPIError;

verus! {

/// Minimum number of characters a secret must have.
pub const MIN_PASSWORD_LEN: usize = 8;

/// A validated secret: at least [`MIN_PASSWORD_LEN`] characters.
#[derive(Debug)]
pub struct Password(String);

impl Password {
    /// The characters of the underlying secret.
    pub closed spec fn view(&self) -> Seq<char> {
        self.0@
    }

    /// The invariant every `Password` satisfies.
    pub open spec fn is_valid(&self) -> bool {
        valid_password(self@)
    }

    /// Validates a raw secret: succeeds exactly on secrets of at least
    /// eight characters, and returns the secret unchanged.
    pub fn parse(password: String) -> (r: Result<Password, AuthAPIError>)
        ensures
            valid_password(password@) <==> r is Ok,
            r matches Ok(p) ==> p@ == password@ && p.is_valid(),
            r matches Err(e) ==> e == AuthAPIError::InvalidCredentials,
    {
        if password.as_str().unicode_len() < MIN_PASSWORD_LEN {
            Err(AuthAPIError::InvalidCredentials)
        } else {
            Ok(Password(password))
        }
    }

    /// The underlying secret.
    pub fn as_ref(&self) -> (r: &str)
        ensures
            r@ == self@,
    {
        self.0.as_str()
    }
}

/// A raw secret is acceptable when it has at least eight characters.
pub open spec fn valid_password(s: Seq<char>) -> bool {
    s.len() >= MIN_PASSWORD_LEN
}

impl Clone for Password {
    /// A clone carries the same secret.
    fn clone(&self) -> (r: Self)
        ensures
            r == *self,
    {
        Password(self.0.clone())
    }
}

impl PartialEq for Password {
    /// Secrets compare by their underlying characters.
    fn eq(&self, other: &Self) -> (r: bool) {
        self.0 == other.0
    }
}

impl vstd::std_specs::cmp::PartialEqSpecImpl for Password {
    open spec fn obeys_eq_spec() -> bool {
        true
    }

    open spec fn eq_spec(&self, other: &Self) -> bool {
        self@ == other@
    }
}

impl Eq for Password {}

} // verus!
