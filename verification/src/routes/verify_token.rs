//! Token verification: check a bare session token.

use vstd::prelude::*;

use crate::domain::data_stores::BannedTokenStore;
use crate::utils::auth::{jwt_claims_of, validate_token, Claims, validate_outcome};

verus! {

/// A token-verification request: the bare token string.
#[derive(Debug)]
pub struct VerifyTokenRequest {
    pub token: String,
}

/// Why a bare token check failed: the request carried no token at all
/// (`MalformedInput`), or the token did not validate (`Unauthorized`) —
/// with no further detail for the caller.
#[derive(Debug, Clone, Copy, PartialEq, Eq, Structural)]
pub enum VerifyTokenError {
    MalformedInput,
    Unauthorized,
}

/// Checks a session token: an empty token is malformed input; anything
/// else is validated against the revocation store, the signature and the
/// expiry, and any failure — a store failure included — surfaces as
/// exactly `Unauthorized`. Over a revocation store that cannot fail, a
/// token the validation order accepts always passes the check.
pub fn verify_token<B: BannedTokenStore>(
    banned_token_store: &B,
    request: VerifyTokenRequest,
    jwt_secret: &str,
    now: u64,
) -> (r: Result<Claims, VerifyTokenError>)
    requires
        banned_token_store.inv(),
    ensures
        request.token@.len() == 0 <==> r matches Err(VerifyTokenError::MalformedInput),
        r matches Ok(c) ==> validate_outcome(
            banned_token_store.tokens().contains(request.token@),
            jwt_claims_of(request.token@, jwt_secret@),
            now,
        ) == Ok::<_, crate::utils::auth::TokenError>((c.sub@, c.exp)),
        request.token@.len() > 0 && validate_outcome(
            banned_token_store.tokens().contains(request.token@),
            jwt_claims_of(request.token@, jwt_secret@),
            now,
        ) is Err ==> r matches Err(VerifyTokenError::Unauthorized),
        B::reliable() && request.token@.len() > 0 && validate_outcome(
            banned_token_store.tokens().contains(request.token@),
            jwt_claims_of(request.token@, jwt_secret@),
            now,
        ) is Ok ==> r is Ok,
{
    let VerifyTokenRequest { token } = request;
    if token.as_str().is_empty() {
        return Err(VerifyTokenError::MalformedInput);
    }

    match validate_token(banned_token_store, token.as_str(), jwt_secret, now) {
        Ok(claims) => Ok(claims),
        Err(_) => Err(VerifyTokenError::Unauthorized),
    }
}

} // verus!
