use auth_service::domain::data_stores::{TwoFACodeStore, UserStore};
use auth_service::domain::email::Email;
use auth_service::domain::error::AuthAPIError;
use auth_service::routes::login::{login, LoginRequest, LoginResponse};
use auth_service::routes::logout::logout;
use auth_service::routes::signup::{signup, SignupRequest};
use auth_service::routes::verify_2fa::{verify_2fa, Verify2FARequest};
use auth_service::routes::verify_token::{verify_token, VerifyTokenError, VerifyTokenRequest};
use auth_service::services::hashed_user_store::HashedUserStore;
use auth_service::services::hashmap_banned_token_store::HashmapBannedTokenStore;
use auth_service::services::hashmap_two_fa_code_store::HashmapTwoFACodeStore;
use auth_service::services::hashmap_user_store::HashmapUserStore;
use auth_service::services::mock_email_client::MockEmailClient;

const NOW: u64 = 1_700_000_000;
const JWT_SECRET: &str = "test-signing-key";

struct World {
    users: HashmapUserStore,
    banned: HashmapBannedTokenStore,
    codes: HashmapTwoFACodeStore,
    notifier: MockEmailClient,
}

fn world() -> World {
    World {
        users: HashmapUserStore::new(),
        banned: HashmapBannedTokenStore::new(),
        codes: HashmapTwoFACodeStore::new(),
        notifier: MockEmailClient,
    }
}

fn signup_request(email: &str, password: &str, requires_2fa: bool) -> SignupRequest {
    SignupRequest {
        email: email.to_owned(),
        password: password.to_owned(),
        requires_2fa,
    }
}

fn login_request(email: &str, password: &str) -> LoginRequest {
    LoginRequest { email: email.to_owned(), password: password.to_owned() }
}

#[test]
fn end_to_end_without_2fa() {
    let mut w = world();

    let created = signup(&mut w.users, signup_request("a@b.com", "password123", false)).unwrap();
    assert_eq!(created.message, "User Created Successfully!");

    let (response, token) = login(
        &w.users,
        &mut w.codes,
        &w.notifier,
        login_request("a@b.com", "password123"),
        JWT_SECRET,
        NOW,
    )
    .unwrap();
    assert!(matches!(response, LoginResponse::RegularAuth));
    let token = token.expect("a direct session must carry a token");

    let claims = verify_token(
        &w.banned,
        VerifyTokenRequest { token: token.clone() },
        JWT_SECRET,
        NOW,
    )
    .unwrap();
    assert_eq!(claims.sub, "a@b.com");
    assert_eq!(claims.exp, NOW + 600);

    logout(&mut w.banned, Some(token.clone()), JWT_SECRET, NOW).unwrap();

    assert_eq!(
        verify_token(&w.banned, VerifyTokenRequest { token }, JWT_SECRET, NOW).unwrap_err(),
        VerifyTokenError::Unauthorized
    );
}

#[test]
fn end_to_end_with_2fa_and_challenge_replacement() {
    let mut w = world();
    let email = Email::parse("c@d.com".to_owned()).unwrap();

    signup(&mut w.users, signup_request("c@d.com", "password123", true)).unwrap();

    let (response, token) = login(
        &w.users,
        &mut w.codes,
        &w.notifier,
        login_request("c@d.com", "password123"),
        JWT_SECRET,
        NOW,
    )
    .unwrap();
    assert!(token.is_none());
    let id1 = match response {
        LoginResponse::TwoFactorAuth(body) => {
            assert_eq!(body.message, "2FA required");
            body.login_attempt_id
        },
        LoginResponse::RegularAuth => panic!("expected a challenge"),
    };
    let (_, code1) = w.codes.get_code(&email).unwrap();
    let code1 = code1.as_ref().to_owned();

    // A second login replaces the pending challenge.
    let (response, _) = login(
        &w.users,
        &mut w.codes,
        &w.notifier,
        login_request("c@d.com", "password123"),
        JWT_SECRET,
        NOW,
    )
    .unwrap();
    let id2 = match response {
        LoginResponse::TwoFactorAuth(body) => body.login_attempt_id,
        LoginResponse::RegularAuth => panic!("expected a challenge"),
    };
    let (_, code2) = w.codes.get_code(&email).unwrap();
    let code2 = code2.as_ref().to_owned();
    assert_ne!(id1, id2, "attempt identifiers are fresh per login");

    // The stale pair no longer verifies.
    let stale = verify_2fa(
        &mut w.codes,
        Verify2FARequest {
            email: "c@d.com".to_owned(),
            login_attempt_id: id1,
            two_fa_code: code1,
        },
        JWT_SECRET,
        NOW,
    );
    assert_eq!(stale.unwrap_err(), AuthAPIError::IncorrectCredentials);

    // The fresh pair opens a session.
    let token = verify_2fa(
        &mut w.codes,
        Verify2FARequest {
            email: "c@d.com".to_owned(),
            login_attempt_id: id2.clone(),
            two_fa_code: code2.clone(),
        },
        JWT_SECRET,
        NOW,
    )
    .unwrap();
    let claims = verify_token(&w.banned, VerifyTokenRequest { token }, JWT_SECRET, NOW).unwrap();
    assert_eq!(claims.sub, "c@d.com");

    // At-most-once consumption: the same pair fails the second time.
    let replay = verify_2fa(
        &mut w.codes,
        Verify2FARequest {
            email: "c@d.com".to_owned(),
            login_attempt_id: id2,
            two_fa_code: code2,
        },
        JWT_SECRET,
        NOW,
    );
    assert_eq!(replay.unwrap_err(), AuthAPIError::IncorrectCredentials);
}

#[test]
fn wrong_secret_and_unknown_user_are_indistinguishable() {
    let mut w = world();
    signup(&mut w.users, signup_request("a@b.com", "password123", false)).unwrap();

    let wrong_secret = login(
        &w.users,
        &mut w.codes,
        &w.notifier,
        login_request("a@b.com", "not-the-secret"),
        JWT_SECRET,
        NOW,
    )
    .unwrap_err();
    let unknown_user = login(
        &w.users,
        &mut w.codes,
        &w.notifier,
        login_request("nobody@b.com", "password123"),
        JWT_SECRET,
        NOW,
    )
    .unwrap_err();

    assert_eq!(wrong_secret, AuthAPIError::IncorrectCredentials);
    assert_eq!(unknown_user, AuthAPIError::IncorrectCredentials);
    assert_eq!(wrong_secret, unknown_user);
}

#[test]
fn signup_rejects_malformed_input_and_duplicates() {
    let mut w = world();

    assert_eq!(
        signup(&mut w.users, signup_request("email.com", "password123", false)).unwrap_err(),
        AuthAPIError::InvalidCredentials
    );
    assert_eq!(
        signup(&mut w.users, signup_request("email@email.com", "less", false)).unwrap_err(),
        AuthAPIError::InvalidCredentials
    );

    signup(&mut w.users, signup_request("something@example.com", "password1!@#S", true)).unwrap();
    assert_eq!(
        signup(&mut w.users, signup_request("something@example.com", "password1!@#S", true))
            .unwrap_err(),
        AuthAPIError::UserAlreadyExists
    );
}

#[test]
fn login_rejects_malformed_input() {
    let mut w = world();
    assert_eq!(
        login(
            &w.users,
            &mut w.codes,
            &w.notifier,
            login_request("bad", "password123"),
            JWT_SECRET,
            NOW,
        )
        .unwrap_err(),
        AuthAPIError::InvalidCredentials
    );
    assert_eq!(
        login(
            &w.users,
            &mut w.codes,
            &w.notifier,
            login_request("ok@email.com", "short"),
            JWT_SECRET,
            NOW,
        )
        .unwrap_err(),
        AuthAPIError::InvalidCredentials
    );
}

#[test]
fn verify_2fa_rejects_malformed_input() {
    let mut w = world();
    let bad_requests = [
        ("test@test.com", "12312323", "123456"),
        ("test.com", "67e55044-10b1-426f-9247-bb680e5fe0c8", "123456"),
        ("test@test.com", "67e55044-10b1-426f-9247-bb680e5fe0c8", "12092381"),
        ("test@test.com", "67e55044-10b1-426f-9247-bb680e5fe0c8", "098231928309182309"),
    ];
    for (email, id, code) in bad_requests {
        let result = verify_2fa(
            &mut w.codes,
            Verify2FARequest {
                email: email.to_owned(),
                login_attempt_id: id.to_owned(),
                two_fa_code: code.to_owned(),
            },
            JWT_SECRET,
            NOW,
        );
        assert_eq!(result.unwrap_err(), AuthAPIError::InvalidCredentials);
    }
}

#[test]
fn verify_2fa_without_pending_challenge_fails() {
    let mut w = world();
    let result = verify_2fa(
        &mut w.codes,
        Verify2FARequest {
            email: "test@test.com".to_owned(),
            login_attempt_id: "67e55044-10b1-426f-9247-bb680e5fe0c8".to_owned(),
            two_fa_code: "123456".to_owned(),
        },
        JWT_SECRET,
        NOW,
    );
    assert_eq!(result.unwrap_err(), AuthAPIError::IncorrectCredentials);
}

#[test]
fn logout_requires_a_valid_token_exactly_once() {
    let mut w = world();
    signup(&mut w.users, signup_request("a@b.com", "password123", false)).unwrap();
    let (_, token) = login(
        &w.users,
        &mut w.codes,
        &w.notifier,
        login_request("a@b.com", "password123"),
        JWT_SECRET,
        NOW,
    )
    .unwrap();
    let token = token.unwrap();

    assert_eq!(
        logout(&mut w.banned, None, JWT_SECRET, NOW).unwrap_err(),
        AuthAPIError::MissingToken
    );
    assert_eq!(
        logout(&mut w.banned, Some("not-a-token".to_owned()), JWT_SECRET, NOW).unwrap_err(),
        AuthAPIError::InvalidToken
    );

    logout(&mut w.banned, Some(token.clone()), JWT_SECRET, NOW).unwrap();

    // Resubmitting the same token never silently succeeds: it is revoked.
    assert_eq!(
        logout(&mut w.banned, Some(token), JWT_SECRET, NOW).unwrap_err(),
        AuthAPIError::InvalidToken
    );
}

#[test]
fn verify_token_rejects_empty_and_garbage() {
    let w = world();
    assert_eq!(
        verify_token(&w.banned, VerifyTokenRequest { token: String::new() }, JWT_SECRET, NOW)
            .unwrap_err(),
        VerifyTokenError::MalformedInput
    );
    assert_eq!(
        verify_token(
            &w.banned,
            VerifyTokenRequest { token: "something invalid".to_owned() },
            JWT_SECRET,
            NOW,
        )
        .unwrap_err(),
        VerifyTokenError::Unauthorized
    );
}

#[test]
fn hashed_store_end_to_end() {
    let mut users = HashedUserStore::new();
    let mut codes = HashmapTwoFACodeStore::new();
    let banned = HashmapBannedTokenStore::new();
    let notifier = MockEmailClient;

    signup(&mut users, signup_request("a@b.com", "password123", false)).unwrap();

    // Only the hash is persisted: the record's credential is not the secret.
    let email = Email::parse("a@b.com".to_owned()).unwrap();
    let stored = users.get_user(&email).unwrap();
    assert_ne!(stored.password.as_ref(), "password123");

    let (_, token) = login(
        &users,
        &mut codes,
        &notifier,
        login_request("a@b.com", "password123"),
        JWT_SECRET,
        NOW,
    )
    .unwrap();
    let token = token.unwrap();
    let claims = verify_token(&banned, VerifyTokenRequest { token }, JWT_SECRET, NOW).unwrap();
    assert_eq!(claims.sub, "a@b.com");

    let wrong = login(
        &users,
        &mut codes,
        &notifier,
        login_request("a@b.com", "password124"),
        JWT_SECRET,
        NOW,
    )
    .unwrap_err();
    assert_eq!(wrong, AuthAPIError::IncorrectCredentials);
}
