//! Login: check credentials, then either issue a session token directly
//! or open a two-factor challenge.

use vstd::prelude::*;

use crate::domain::data_stores::{
    valid_login_attempt_id, valid_two_fa_code, LoginAttemptId, TwoFACode, TwoFACodeStore,
    UserStore, UserStoreError,
};
use crate::domain::email::{valid_email, Email};
use crate::domain::email_client::EmailClient;
use crate::domain::error::AuthAPIError;
use crate::domain::password::{valid_password, Password};
use crate::utils::auth::{generate_auth_token, jwt_claims_of, TOKEN_TTL_SECONDS};

verus! {

/// A login request: raw identity and raw secret.
#[derive(Debug)]
pub struct LoginRequest {
    pub email: String,
    pub password: String,
}

/// The reply to a successful login: either a session was opened directly,
/// or a two-factor challenge was issued and must be answered first.
#[derive(Debug)]
pub enum LoginResponse {
    RegularAuth,
    TwoFactorAuth(TwoFactorAuthResponse),
}

/// The body of a plain successful login reply.
#[derive(Debug)]
pub struct RegularAuth {
    pub message: String,
}

/// The body of a challenge-issued reply: the attempt identifier the client
/// must present together with the code it receives out of band.
#[derive(Debug)]
pub struct TwoFactorAuthResponse {
    pub message: String,
    pub login_attempt_id: String,
}

/// Checks a caller's credentials and opens a session.
///
/// `InvalidCredentials` comes exactly on malformed input, with no side
/// effect. An unknown identity and a wrong secret both fail as exactly
/// `IncorrectCredentials`, with no distinguishing signal; a store failure
/// surfaces as `UnexpectedError`, never as a credential verdict. With
/// valid credentials and no second factor required, a session token for
/// the identity comes back beside `RegularAuth`. With a second factor
/// required, a fresh attempt identifier and a fresh valid code are stored
/// as the identity's pending challenge — replacing any prior one — the
/// code is handed to the notification client, and the attempt identifier
/// comes back; a notifier failure after the challenge was stored surfaces
/// as `UnexpectedError` while the challenge stays stored. Over backends
/// that cannot fail, correct credentials always open a session, as long
/// as the token expiry fits the timestamp range.
pub fn login<U: UserStore, T: TwoFACodeStore, C: EmailClient>(
    user_store: &U,
    two_fa_code_store: &mut T,
    email_client: &C,
    request: LoginRequest,
    jwt_secret: &str,
    now: u64,
) -> (r: Result<(LoginResponse, Option<String>), AuthAPIError>)
    requires
        user_store.inv(),
        old(two_fa_code_store).inv(),
    ensures
        final(two_fa_code_store).inv(),
        r matches Err(AuthAPIError::InvalidCredentials) <==> !(valid_email(request.email@)
            && valid_password(request.password@)),
        r matches Err(AuthAPIError::IncorrectCredentials) ==> valid_email(request.email@)
            && valid_password(request.password@) && !(user_store.users().contains_key(
            request.email@,
        ) && U::credential_accepts(user_store.users()[request.email@].0, request.password@)),
        valid_email(request.email@) && valid_password(request.password@) && !(
        user_store.users().contains_key(request.email@) && U::credential_accepts(
            user_store.users()[request.email@].0,
            request.password@,
        )) ==> (r matches Err(AuthAPIError::IncorrectCredentials) || r matches Err(
            AuthAPIError::UnexpectedError,
        )),
        U::reliable() && valid_email(request.email@) && valid_password(request.password@) && !(
        user_store.users().contains_key(request.email@) && U::credential_accepts(
            user_store.users()[request.email@].0,
            request.password@,
        )) ==> r matches Err(AuthAPIError::IncorrectCredentials),
        valid_email(request.email@) && valid_password(request.password@)
            && user_store.users().contains_key(request.email@) && U::credential_accepts(
            user_store.users()[request.email@].0,
            request.password@,
        ) ==> (r is Ok || r matches Err(AuthAPIError::UnexpectedError)),
        U::reliable() && now + TOKEN_TTL_SECONDS <= u64::MAX && valid_email(request.email@)
            && valid_password(request.password@) && user_store.users().contains_key(
            request.email@,
        ) && U::credential_accepts(user_store.users()[request.email@].0, request.password@) && !(
        user_store.users()[request.email@].1) ==> r is Ok,
        U::reliable() && T::reliable() && C::reliable() && valid_email(request.email@)
            && valid_password(request.password@) && user_store.users().contains_key(
            request.email@,
        ) && U::credential_accepts(user_store.users()[request.email@].0, request.password@) && (
        user_store.users()[request.email@].1) ==> r is Ok,
        r is Ok ==> user_store.users().contains_key(request.email@) && U::credential_accepts(
            user_store.users()[request.email@].0,
            request.password@,
        ),
        r matches Ok((resp, token)) ==> (resp matches LoginResponse::RegularAuth ==> (
        token matches Some(t) && !(user_store.users()[request.email@].1) && t@.len() > 0 && now
            + TOKEN_TTL_SECONDS <= u64::MAX && jwt_claims_of(t@, jwt_secret@) == Some(
            (request.email@, (now + TOKEN_TTL_SECONDS) as u64),
        ) && final(two_fa_code_store).codes() == old(two_fa_code_store).codes())),
        r matches Ok((resp, token)) ==> (resp matches LoginResponse::TwoFactorAuth(tfa) ==> ((
        user_store.users()[request.email@].1) && token is None && tfa.message@ == "2FA required"@
            && valid_login_attempt_id(tfa.login_attempt_id@) && (exists|code: Seq<char>|
            valid_two_fa_code(code) && final(two_fa_code_store).codes() == old(two_fa_code_store).codes().insert(request.email@, (tfa.login_attempt_id@, code))))),
        r matches Err(e) ==> e == AuthAPIError::InvalidCredentials
            || e == AuthAPIError::IncorrectCredentials || e == AuthAPIError::UnexpectedError,
        r matches Err(e) && e != AuthAPIError::UnexpectedError ==> final(two_fa_code_store).codes() == old(two_fa_code_store).codes(),
        r is Err ==> (final(two_fa_code_store).codes() == old(two_fa_code_store).codes() || (
        exists|id: Seq<char>, code: Seq<char>|
            valid_login_attempt_id(id) && valid_two_fa_code(code) && final(two_fa_code_store).codes() == old(two_fa_code_store).codes().insert(request.email@, (id, code)))),
{
    let LoginRequest { email: email_json, password: password_json } = request;

    let email = match Email::parse(email_json) {
        Ok(email) => email,
        Err(e) => {
            return Err(e);
        },
    };
    let password = match Password::parse(password_json) {
        Ok(password) => password,
        Err(e) => {
            return Err(e);
        },
    };

    match user_store.verify_user(&email, &password) {
        Ok(()) => {},
        Err(UserStoreError::UnexpectedError) => {
            return Err(AuthAPIError::UnexpectedError);
        },
        Err(_) => {
            return Err(AuthAPIError::IncorrectCredentials);
        },
    }

    let user = match user_store.get_user(&email) {
        Ok(user) => user,
        Err(UserStoreError::UnexpectedError) => {
            return Err(AuthAPIError::UnexpectedError);
        },
        Err(_) => {
            return Err(AuthAPIError::IncorrectCredentials);
        },
    };

    if user.requires_2fa {
        handle_2fa(&user.email, two_fa_code_store, email_client)
    } else {
        handle_no_2fa(&user.email, jwt_secret, now)
    }
}

/// Opens a two-factor challenge for an identity: stores a fresh
/// `(attempt id, code)` pair — invalidating any prior pending challenge —
/// and hands the code to the notification client. On failure the pending
/// challenges are either untouched (the store refused) or hold the fresh
/// challenge for this identity (the notifier refused after it was
/// stored).
fn handle_2fa<T: TwoFACodeStore, C: EmailClient>(
    email: &Email,
    two_fa_code_store: &mut T,
    email_client: &C,
) -> (r: Result<(LoginResponse, Option<String>), AuthAPIError>)
    requires
        old(two_fa_code_store).inv(),
    ensures
        final(two_fa_code_store).inv(),
        r matches Ok((resp, token)) ==> (token is None && (resp matches LoginResponse::TwoFactorAuth(
            tfa,
        ) && tfa.message@ == "2FA required"@ && valid_login_attempt_id(tfa.login_attempt_id@) && (
        exists|code: Seq<char>|
            valid_two_fa_code(code) && final(two_fa_code_store).codes() == old(two_fa_code_store).codes().insert(email@, (tfa.login_attempt_id@, code))))),
        r matches Err(e) ==> e == AuthAPIError::UnexpectedError,
        T::reliable() && C::reliable() ==> r is Ok,
        r is Err ==> (final(two_fa_code_store).codes() == old(two_fa_code_store).codes() || (
        exists|id: Seq<char>, code: Seq<char>|
            valid_login_attempt_id(id) && valid_two_fa_code(code) && final(two_fa_code_store).codes() == old(two_fa_code_store).codes().insert(email@, (id, code)))),
{
    let login_attempt_id = LoginAttemptId::default();
    let two_fa_code = TwoFACode::default();

    if let Err(_) = two_fa_code_store.add_code(
        email.clone(),
        login_attempt_id.clone(),
        two_fa_code.clone(),
    ) {
        return Err(AuthAPIError::UnexpectedError);
    }

    match email_client.send_email(email, "2FA auth code", two_fa_code.as_ref()) {
        Ok(_) => {},
        Err(_) => {
            return Err(AuthAPIError::UnexpectedError);
        },
    }

    Ok(
        (
            LoginResponse::TwoFactorAuth(
                TwoFactorAuthResponse {
                    message: "2FA required".to_owned(),
                    login_attempt_id: login_attempt_id.as_ref().to_owned(),
                },
            ),
            None,
        ),
    )
}

/// Issues a session token for an identity whose login needs no second
/// factor: it succeeds exactly when the token expiry fits the timestamp
/// range.
fn handle_no_2fa(email: &Email, jwt_secret: &str, now: u64) -> (r: Result<
    (LoginResponse, Option<String>),
    AuthAPIError,
>)
    ensures
        r is Ok <==> now + TOKEN_TTL_SECONDS <= u64::MAX,
        r matches Ok((resp, token)) ==> (resp is RegularAuth && (token matches Some(t)
            && t@.len() > 0 && jwt_claims_of(t@, jwt_secret@) == Some(
            (email@, (now + TOKEN_TTL_SECONDS) as u64),
        ))),
        r matches Err(e) ==> e == AuthAPIError::UnexpectedError,
{
    match generate_auth_token(email, jwt_secret, now) {
        Ok(token) => Ok((LoginResponse::RegularAuth, Some(token))),
        Err(e) => Err(e),
    }
}

} // verus!
