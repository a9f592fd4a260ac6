//! The session-token codec: issuance and validation of signed, expiring
//! tokens, cross-checked against the revocation store.
//!
//! A token is a signed, self-contained claim set `{subject, expiry}`.
//! Validation order is significant: the revocation store is consulted
//! first and is the last word on tokens a user has explicitly invalidated;
//! only if the token is absent there are the signature and the expiry
//! considered.

use vstd::prelude::*;

use crate::domain::data_stores::BannedTokenStore;
use crate::domain::email::Email;
use crate::domain::error::AuthAPIError;

verus! {

/// How long an issued token stays valid, in seconds.
pub const TOKEN_TTL_SECONDS: u64 = 600;

/// The claim set carried inside a session token: the subject (an identity
/// string) and the absolute expiry timestamp, in seconds. Immutable once
/// issued.
#[derive(Debug, Clone)]
pub struct Claims {
    pub sub: String,
    pub exp: u64,
}

/// Why a token failed validation. `Revoked` wins over everything else;
/// `Malformed` covers a bad signature as well as a malformed serialization;
/// `Unexpected` is a revocation-store failure.
#[derive(Debug, Clone, Copy, PartialEq, Eq, Structural)]
pub enum TokenError {
    Revoked,
    Malformed,
    Expired,
    Unexpected,
}

/// The claim set `(subject, expiry)` that a token string yields under a
/// signing key, if its signature verifies and it carries both claims.
pub uninterp spec fn jwt_claims_of(token: Seq<char>, key: Seq<char>) -> Option<(Seq<char>, u64)>;

/// Relies on `jsonwebtoken::encode` with the default header (HS256):
/// deterministic in the claims and the key, and the token it returns
/// carries exactly the claims given, so decoding under the same key yields
/// them back. With HMAC signing over a byte-secret key, neither the
/// serialization nor the signature can fail, and the emitted
/// `header.claims.signature` string is never empty.
#[verifier::external_body]
fn jwt_encode(sub: &str, exp: u64, key: &str) -> (r: Option<String>)
    ensures
        r is Some,
        r matches Some(t) ==> t@.len() > 0 && jwt_claims_of(t@, key@) == Some((sub@, exp)),
{
    let mut claims = serde_json::Map::new();
    claims.insert("sub".to_owned(), serde_json::Value::String(sub.to_owned()));
    claims.insert("exp".to_owned(), serde_json::Value::from(exp));
    jsonwebtoken::encode(
        &jsonwebtoken::Header::default(),
        &serde_json::Value::Object(claims),
        &jsonwebtoken::EncodingKey::from_secret(key.as_bytes()),
    ).ok()
}

/// Relies on `jsonwebtoken::decode` with HS256 and expiry validation
/// turned off (callers check expiry themselves): deterministic in the
/// token and the key; yields the claim set exactly when the signature
/// verifies and both claims are present.
#[verifier::external_body]
fn jwt_decode(token: &str, key: &str) -> (r: Option<(String, u64)>)
    ensures
        r matches Some(p) ==> jwt_claims_of(token@, key@) == Some((p.0@, p.1)),
        r is None ==> jwt_claims_of(token@, key@) is None,
{
    let mut validation = jsonwebtoken::Validation::default();
    validation.validate_exp = false;
    let data = jsonwebtoken::decode::<serde_json::Value>(
        token,
        &jsonwebtoken::DecodingKey::from_secret(key.as_bytes()),
        &validation,
    ).ok()?;
    let sub = data.claims.get("sub")?.as_str()?.to_owned();
    let exp = data.claims.get("exp")?.as_u64()?;
    Some((sub, exp))
}

/// Issues a signed token for an identity, expiring [`TOKEN_TTL_SECONDS`]
/// after `now`: it succeeds exactly when that expiry fits the timestamp
/// range.
pub fn generate_auth_token(email: &Email, jwt_secret: &str, now: u64) -> (r: Result<
    String,
    AuthAPIError,
>)
    ensures
        r is Ok <==> now + TOKEN_TTL_SECONDS <= u64::MAX,
        r matches Ok(t) ==> t@.len() > 0 && jwt_claims_of(t@, jwt_secret@) == Some(
            (email@, (now + TOKEN_TTL_SECONDS) as u64),
        ),
        r matches Err(e) ==> e == AuthAPIError::UnexpectedError,
{
    let exp = match now.checked_add(TOKEN_TTL_SECONDS) {
        Some(exp) => exp,
        None => {
            return Err(AuthAPIError::UnexpectedError);
        },
    };
    match jwt_encode(email.as_ref(), exp, jwt_secret) {
        Some(t) => Ok(t),
        None => Err(AuthAPIError::UnexpectedError),
    }
}

/// What validating a token decides, given whether the revocation store
/// holds it, the claim set it yields under the key (if any), and the
/// current time. Revocation is checked first and is the last word; a token
/// is expired once its expiry is not in the future.
pub open spec fn validate_outcome(
    revoked: bool,
    claims: Option<(Seq<char>, u64)>,
    now: u64,
) -> Result<(Seq<char>, u64), TokenError> {
    if revoked {
        Err(TokenError::Revoked)
    } else {
        match claims {
            None => Err(TokenError::Malformed),
            Some((sub, exp)) => if exp <= now {
                Err(TokenError::Expired)
            } else {
                Ok((sub, exp))
            },
        }
    }
}

/// The claim set a validation result carries, with errors passed through.
pub open spec fn claims_view(r: Result<Claims, TokenError>) -> Result<
    (Seq<char>, u64),
    TokenError,
> {
    match r {
        Ok(c) => Ok((c.sub@, c.exp)),
        Err(e) => Err(e),
    }
}

/// Validates a token: queries the revocation store first — a token present
/// there fails as `Revoked` without any cryptographic work — then verifies
/// the signature and the expiry. `Unexpected` arises only from a
/// revocation-store failure; in every other case the result is exactly
/// [`validate_outcome`].
pub fn validate_token<B: BannedTokenStore>(
    banned_token_store: &B,
    token: &str,
    jwt_secret: &str,
    now: u64,
) -> (r: Result<Claims, TokenError>)
    requires
        banned_token_store.inv(),
    ensures
        !(r matches Err(TokenError::Unexpected)) ==> claims_view(r) == validate_outcome(
            banned_token_store.tokens().contains(token@),
            jwt_claims_of(token@, jwt_secret@),
            now,
        ),
        B::reliable() ==> !(r matches Err(TokenError::Unexpected)),
{
    match banned_token_store.verify_token_exists(token) {
        Err(_) => Err(TokenError::Unexpected),
        Ok(true) => Err(TokenError::Revoked),
        Ok(false) => match jwt_decode(token, jwt_secret) {
            None => Err(TokenError::Malformed),
            Some((sub, exp)) => if exp <= now {
                Err(TokenError::Expired)
            } else {
                Ok(Claims { sub, exp })
            },
        },
    }
}

/// A revoked token always fails validation as `Revoked`, whatever claim
/// set it carries and however far its expiry lies in the future.
pub proof fn lemma_revoked_token_rejected(
    revoked: Set<Seq<char>>,
    token: Seq<char>,
    claims: Option<(Seq<char>, u64)>,
    now: u64,
)
    requires
        revoked.contains(token),
    ensures
        validate_outcome(revoked.contains(token), claims, now) == Err::<
            (Seq<char>, u64),
            TokenError,
        >(TokenError::Revoked),
{
}

} // verus!
