//! Logout: revoke the caller's session token.

use vstd::prelude::*;

use crate::domain::data_stores::BannedTokenStore;
use crate::domain::error::AuthAPIError;
use crate::utils::auth::{jwt_claims_of, validate_token, TokenError};

verus! {

/// Revokes a session token.
///
/// Without a token there is nothing to revoke: `MissingToken`. A token
/// that fails validation — revoked already, malformed, or expired — fails
/// as exactly `InvalidToken`, so a second logout with the same token
/// never silently succeeds; a store failure surfaces as
/// `UnexpectedError`, never as a token verdict. On success the token
/// joins the revocation store, and every later validation of it fails as
/// revoked. Over a store that cannot fail, a fresh valid token is always
/// revoked successfully.
pub fn logout<B: BannedTokenStore>(
    banned_token_store: &mut B,
    token: Option<String>,
    jwt_secret: &str,
    now: u64,
) -> (r: Result<(), AuthAPIError>)
    requires
        old(banned_token_store).inv(),
    ensures
        final(banned_token_store).inv(),
        token is None <==> r matches Err(AuthAPIError::MissingToken),
        r matches Err(AuthAPIError::InvalidToken) ==> (token matches Some(t) && (old(banned_token_store).tokens().contains(t@) || jwt_claims_of(t@, jwt_secret@) is None || (
        jwt_claims_of(t@, jwt_secret@) matches Some(c) && c.1 <= now))),
        token matches Some(t) && old(banned_token_store).tokens().contains(t@) ==> (r matches Err(
            AuthAPIError::InvalidToken,
        ) || r matches Err(AuthAPIError::UnexpectedError)),
        token matches Some(t) && jwt_claims_of(t@, jwt_secret@) is None ==> (r matches Err(
            AuthAPIError::InvalidToken,
        ) || r matches Err(AuthAPIError::UnexpectedError)),
        token matches Some(t) && (jwt_claims_of(t@, jwt_secret@) matches Some(c) && c.1 <= now)
            ==> (r matches Err(AuthAPIError::InvalidToken) || r matches Err(
            AuthAPIError::UnexpectedError,
        )),
        token matches Some(t) && (B::reliable() && (old(banned_token_store).tokens().contains(t@)
            || jwt_claims_of(t@, jwt_secret@) is None || (jwt_claims_of(t@, jwt_secret@) matches Some(c)
            && c.1 <= now))) ==> r matches Err(AuthAPIError::InvalidToken),
        token matches Some(t) && (B::reliable() && t@.len() > 0 && !old(banned_token_store).tokens().contains(t@) && (jwt_claims_of(t@, jwt_secret@) matches Some(c) && c.1 > now))
            ==> r is Ok,
        r matches Ok(()) ==> (token matches Some(t) && !old(banned_token_store).tokens().contains(
            t@,
        ) && (jwt_claims_of(t@, jwt_secret@) matches Some(c) && c.1 > now) && final(banned_token_store).tokens() == old(banned_token_store).tokens().insert(t@)),
        r matches Err(e) ==> e == AuthAPIError::MissingToken || e == AuthAPIError::InvalidToken
            || e == AuthAPIError::UnexpectedError,
        r is Err ==> final(banned_token_store).tokens() == old(banned_token_store).tokens(),
{
    let token = match token {
        None => {
            return Err(AuthAPIError::MissingToken);
        },
        Some(token) => token,
    };

    match validate_token(banned_token_store, token.as_str(), jwt_secret, now) {
        Ok(_) => {},
        Err(TokenError::Unexpected) => {
            return Err(AuthAPIError::UnexpectedError);
        },
        Err(_) => {
            return Err(AuthAPIError::InvalidToken);
        },
    }

    match banned_token_store.add_token(token) {
        Err(_) => Err(AuthAPIError::UnexpectedError),
        Ok(_) => Ok(()),
    }
}

} // verus!
