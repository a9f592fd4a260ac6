//! Challenge verification: answer a pending two-factor challenge and open
//! a session.

use vstd::prelude::*;

use crate::domain::data_stores::{
    uuid_canonical, valid_two_fa_code, LoginAttemptId, TwoFACode, TwoFACodeStore,
    TwoFACodeStoreError,
};
use crate::domain::email::{valid_email, Email};
use crate::domain::error::AuthAPIError;
use crate::utils::auth::{generate_auth_token, jwt_claims_of, TOKEN_TTL_SECONDS};

verus! {

/// A challenge-verification request: raw identity, the attempt identifier
/// the login call returned, and the code received out of band.
#[derive(Debug)]
pub struct Verify2FARequest {
    pub email: String,
    pub login_attempt_id: String,
    pub two_fa_code: String,
}

/// The reply to a successful challenge verification.
#[derive(Debug)]
pub struct Verify2FAResponse {
    pub message: String,
}

/// Whether the store holds exactly this pending pair for the identity.
/// Both fields must match by exact, case-preserving string equality.
pub open spec fn challenge_matches(
    codes: Map<Seq<char>, (Seq<char>, Seq<char>)>,
    email: Seq<char>,
    login_attempt_id: Seq<char>,
    code: Seq<char>,
) -> bool {
    codes.contains_key(email) && codes[email] == (login_attempt_id, code)
}

/// Issuing a new challenge for an identity invalidates any earlier one:
/// once the store maps the identity to the new pair, no other pair
/// matches, so verifying with a stale pair fails.
pub proof fn lemma_new_challenge_invalidates_previous(
    codes: Map<Seq<char>, (Seq<char>, Seq<char>)>,
    email: Seq<char>,
    stale_id: Seq<char>,
    stale_code: Seq<char>,
    fresh_id: Seq<char>,
    fresh_code: Seq<char>,
)
    requires
        (stale_id, stale_code) != (fresh_id, fresh_code),
    ensures
        !challenge_matches(
            codes.insert(email, (fresh_id, fresh_code)),
            email,
            stale_id,
            stale_code,
        ),
{
}

/// Consuming a challenge makes it unusable: once the pending challenge of
/// an identity is removed, no pair at all matches for that identity, so a
/// pair verifies successfully at most once.
pub proof fn lemma_consumed_challenge_rejected(
    codes: Map<Seq<char>, (Seq<char>, Seq<char>)>,
    email: Seq<char>,
    login_attempt_id: Seq<char>,
    code: Seq<char>,
)
    ensures
        !challenge_matches(codes.remove(email), email, login_attempt_id, code),
{
}

/// Answers a pending two-factor challenge.
///
/// `InvalidCredentials` comes exactly on malformed input, with no side
/// effect. A missing challenge — never issued, already consumed, or
/// replaced — and a mismatch in either field alike fail as exactly
/// `IncorrectCredentials`, with the store unchanged; a store failure
/// surfaces as `UnexpectedError`, never as a credential verdict. On a
/// full match the challenge is deleted (consumed) and a session token for
/// the identity comes back; the comparison is against the attempt
/// identifier in canonical form, as the login call returned it. Over a
/// backend that cannot fail, a full match always opens a session, as
/// long as the token expiry fits the timestamp range.
pub fn verify_2fa<T: TwoFACodeStore>(
    two_fa_code_store: &mut T,
    request: Verify2FARequest,
    jwt_secret: &str,
    now: u64,
) -> (r: Result<String, AuthAPIError>)
    requires
        old(two_fa_code_store).inv(),
    ensures
        final(two_fa_code_store).inv(),
        r matches Err(AuthAPIError::InvalidCredentials) <==> !(valid_email(request.email@)
            && uuid_canonical(request.login_attempt_id@) is Some && valid_two_fa_code(
            request.two_fa_code@,
        )),
        r matches Err(AuthAPIError::IncorrectCredentials) ==> !challenge_matches(
            old(two_fa_code_store).codes(),
            request.email@,
            uuid_canonical(request.login_attempt_id@).unwrap(),
            request.two_fa_code@,
        ),
        valid_email(request.email@) && uuid_canonical(request.login_attempt_id@) is Some
            && valid_two_fa_code(request.two_fa_code@) && !challenge_matches(
            old(two_fa_code_store).codes(),
            request.email@,
            uuid_canonical(request.login_attempt_id@).unwrap(),
            request.two_fa_code@,
        ) ==> (r matches Err(AuthAPIError::IncorrectCredentials) || r matches Err(
            AuthAPIError::UnexpectedError,
        )),
        T::reliable() && valid_email(request.email@) && uuid_canonical(
            request.login_attempt_id@,
        ) is Some && valid_two_fa_code(request.two_fa_code@) && !challenge_matches(
            old(two_fa_code_store).codes(),
            request.email@,
            uuid_canonical(request.login_attempt_id@).unwrap(),
            request.two_fa_code@,
        ) ==> r matches Err(AuthAPIError::IncorrectCredentials),
        valid_email(request.email@) && uuid_canonical(request.login_attempt_id@) is Some
            && valid_two_fa_code(request.two_fa_code@) && challenge_matches(
            old(two_fa_code_store).codes(),
            request.email@,
            uuid_canonical(request.login_attempt_id@).unwrap(),
            request.two_fa_code@,
        ) ==> (r is Ok || r matches Err(AuthAPIError::UnexpectedError)),
        T::reliable() && now + TOKEN_TTL_SECONDS <= u64::MAX && valid_email(request.email@)
            && uuid_canonical(request.login_attempt_id@) is Some && valid_two_fa_code(
            request.two_fa_code@,
        ) && challenge_matches(
            old(two_fa_code_store).codes(),
            request.email@,
            uuid_canonical(request.login_attempt_id@).unwrap(),
            request.two_fa_code@,
        ) ==> r is Ok,
        r matches Ok(token) ==> (challenge_matches(
            old(two_fa_code_store).codes(),
            request.email@,
            uuid_canonical(request.login_attempt_id@).unwrap(),
            request.two_fa_code@,
        ) && final(two_fa_code_store).codes() == old(two_fa_code_store).codes().remove(
            request.email@,
        ) && now + TOKEN_TTL_SECONDS <= u64::MAX && token@.len() > 0 && jwt_claims_of(
            token@,
            jwt_secret@,
        ) == Some((request.email@, (now + TOKEN_TTL_SECONDS) as u64))),
        r matches Err(e) ==> e == AuthAPIError::InvalidCredentials
            || e == AuthAPIError::IncorrectCredentials || e == AuthAPIError::UnexpectedError,
        r matches Err(e) && e != AuthAPIError::UnexpectedError ==> final(two_fa_code_store).codes() == old(two_fa_code_store).codes(),
{
    let Verify2FARequest { email: email_raw, login_attempt_id: id_raw, two_fa_code: code_raw } =
        request;

    let email = match Email::parse(email_raw) {
        Ok(email) => email,
        Err(_) => {
            return Err(AuthAPIError::InvalidCredentials);
        },
    };

    let login_attempt_id = match LoginAttemptId::parse(id_raw) {
        Ok(id) => id,
        Err(_) => {
            return Err(AuthAPIError::InvalidCredentials);
        },
    };

    let two_fa_code = match TwoFACode::parse(code_raw) {
        Ok(code) => code,
        Err(_) => {
            return Err(AuthAPIError::InvalidCredentials);
        },
    };

    let code_tuple = match two_fa_code_store.get_code(&email) {
        Ok(tuple) => tuple,
        Err(TwoFACodeStoreError::UnexpectedError) => {
            return Err(AuthAPIError::UnexpectedError);
        },
        Err(_) => {
            return Err(AuthAPIError::IncorrectCredentials);
        },
    };

    if !(code_tuple.0 == login_attempt_id) || !(code_tuple.1 == two_fa_code) {
        return Err(AuthAPIError::IncorrectCredentials);
    }

    if let Err(_) = two_fa_code_store.remove_code(&email) {
        return Err(AuthAPIError::UnexpectedError);
    }

    match generate_auth_token(&email, jwt_secret, now) {
        Ok(token) => Ok(token),
        Err(_) => Err(AuthAPIError::UnexpectedError),
    }
}

} // verus!
