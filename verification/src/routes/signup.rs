//! Signup: register a new user.

use vstd::prelude::*;

use crate::domain::data_stores::UserStore;
use crate::domain::email::{valid_email, Email};
use crate::domain::error::AuthAPIError;
use crate::domain::password::{valid_password, Password};
use crate::domain::user::User;

verus! {

/// A signup request: raw identity, raw secret, and whether login shall
/// require a second factor.
#[derive(Debug)]
pub struct SignupRequest {
    pub email: String,
    pub password: String,
    pub requires_2fa: bool,
}

/// The reply to a successful signup.
#[derive(Debug)]
pub struct SignupResponse {
    pub message: String,
}

/// Registers a user: validates both inputs, rejects a duplicate identity,
/// and persists the record. On malformed input nothing is stored and the
/// caller sees `InvalidCredentials`; on a duplicate, `UserAlreadyExists`;
/// a store failure surfaces as `UnexpectedError`. Over a backend that
/// cannot fail, valid input always gets its answer: a fresh identity is
/// created, a duplicate is rejected as such.
pub fn signup<U: UserStore>(user_store: &mut U, request: SignupRequest) -> (r: Result<
    SignupResponse,
    AuthAPIError,
>)
    requires
        old(user_store).inv(),
    ensures
        final(user_store).inv(),
        !(valid_email(request.email@) && valid_password(request.password@)) ==> (r matches Err(
            AuthAPIError::InvalidCredentials,
        ) && final(user_store).users() == old(user_store).users()),
        r matches Ok(resp) ==> valid_email(request.email@) && valid_password(request.password@)
            && !old(user_store).users().contains_key(request.email@) && (exists|cred: Seq<char>|
            U::credential_accepts(cred, request.password@) && final(user_store).users() == old(user_store).users().insert(request.email@, (cred, request.requires_2fa))) && resp.message@
            == "User Created Successfully!"@,
        r matches Err(AuthAPIError::UserAlreadyExists) ==> old(user_store).users().contains_key(
            request.email@,
        ),
        r is Err ==> final(user_store).users() == old(user_store).users(),
        r matches Err(e) ==> e == AuthAPIError::InvalidCredentials
            || e == AuthAPIError::UserAlreadyExists || e == AuthAPIError::UnexpectedError,
        valid_email(request.email@) && valid_password(request.password@) && !old(user_store).users().contains_key(request.email@) ==> r is Ok || r matches Err(
            AuthAPIError::UnexpectedError,
        ),
        valid_email(request.email@) && valid_password(request.password@) && old(user_store).users().contains_key(request.email@) ==> r matches Err(AuthAPIError::UserAlreadyExists)
            || r matches Err(AuthAPIError::UnexpectedError),
        U::reliable() && valid_email(request.email@) && valid_password(request.password@) && !old(
            user_store,
        ).users().contains_key(request.email@) ==> r is Ok,
        U::reliable() && valid_email(request.email@) && valid_password(request.password@) && old(
            user_store,
        ).users().contains_key(request.email@) ==> r matches Err(AuthAPIError::UserAlreadyExists),
{
    let SignupRequest { email, password, requires_2fa } = request;
    let email_parsed = match Email::parse(email) {
        Ok(email) => email,
        Err(_) => {
            return Err(AuthAPIError::InvalidCredentials);
        },
    };
    let password_parsed = match Password::parse(password) {
        Ok(password) => password,
        Err(_) => {
            return Err(AuthAPIError::InvalidCredentials);
        },
    };

    let user = User::new(email_parsed, password_parsed, requires_2fa);

    match user_store.get_user(&user.email) {
        Err(_) => {},
        Ok(_) => {
            return Err(AuthAPIError::UserAlreadyExists);
        },
    }

    match user_store.add_user(user) {
        Err(_) => Err(AuthAPIError::UnexpectedError),
        Ok(_) => Ok(
            SignupResponse { message: "User Created Successfully!".to_owned() },
        ),
    }
}

} // verus!
