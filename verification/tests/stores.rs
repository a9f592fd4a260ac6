use auth_service::domain::data_stores::{
    BannedTokenStore, BannedTokenStoreError, LoginAttemptId, TwoFACode, TwoFACodeStore,
    TwoFACodeStoreError, UserStore,
};
use auth_service::domain::email::Email;
use auth_service::domain::password::Password;
use auth_service::domain::user::User;
use auth_service::services::hashmap_banned_token_store::HashmapBannedTokenStore;
use auth_service::services::hashmap_two_fa_code_store::HashmapTwoFACodeStore;
use auth_service::services::hashmap_user_store::HashmapUserStore;
use auth_service::utils::auth::generate_auth_token;

const NOW: u64 = 1_700_000_000;
const JWT_SECRET: &str = "test-signing-key";

fn sample_user() -> User {
    User {
        email: Email::parse("ok@email.com".to_owned()).unwrap(),
        password: Password::parse("longenough".to_owned()).unwrap(),
        requires_2fa: false,
    }
}

#[test]
fn test_add_user() {
    let mut store = HashmapUserStore::new();
    let result = store.add_user(sample_user());
    assert_eq!(result.unwrap(), ());
}

#[test]
fn get_user() {
    let mut store = HashmapUserStore::new();
    let inserted_user_result = store.add_user(sample_user());
    assert_eq!(inserted_user_result.unwrap(), ());

    let user = sample_user();
    let found_user = store.get_user(&user.email);
    assert_eq!(found_user.unwrap().email, user.email);
}

#[test]
fn verify_user() {
    let mut store = HashmapUserStore::new();
    let _inserted_user_result = store.add_user(sample_user()).unwrap();

    let user = sample_user();
    let found_user = store.get_user(&user.email).unwrap();
    assert_eq!(found_user.email, user.email);
    assert_eq!(found_user.password, user.password);

    let results = store.verify_user(&user.email, &user.password);
    assert_eq!(results.unwrap(), ());
}

#[test]
fn test_add_token() {
    let mut store = HashmapBannedTokenStore::new();

    let token = generate_auth_token(
        &Email::parse("test@test.com".to_owned()).expect("Email failed"),
        JWT_SECRET,
        NOW,
    )
    .expect("Token gen failed");

    let result = store.add_token(token).expect("Token failed");
    assert_eq!(result, ());
}

#[test]
fn test_add_no_token() {
    let mut store = HashmapBannedTokenStore::new();

    let _token = generate_auth_token(
        &Email::parse("test@test.com".to_owned()).expect("Email failed"),
        JWT_SECRET,
        NOW,
    )
    .expect("Token gen failed");

    let result = store.add_token("".to_string());
    assert_eq!(result, Err(BannedTokenStoreError::TokenNotFound));
}

#[test]
fn test_add_token_already_exists() {
    let mut store = HashmapBannedTokenStore::new();

    let token = generate_auth_token(
        &Email::parse("test@test.com".to_owned()).expect("Email failed"),
        JWT_SECRET,
        NOW,
    )
    .expect("Token gen failed");

    let result = store.add_token(token.clone()).expect("Token failed");
    assert_eq!(result, ());

    let result = store.add_token(token);
    assert_eq!(result, Err(BannedTokenStoreError::TokenAlreadyExists));
}

#[test]
fn test_add_method() {
    let email = Email::parse("email@email.com".to_owned()).expect("Failed to create email");
    let mut store = HashmapTwoFACodeStore::new();
    let login_attempt_id =
        LoginAttemptId::parse(LoginAttemptId::default().as_ref().to_owned())
            .expect("Failed to parse uuid");
    let two_fa_code = TwoFACode::parse("123456".to_owned()).expect("Failed to parse code");

    let inserted = store.add_code(email.clone(), login_attempt_id.clone(), two_fa_code.clone());
    assert!(inserted.is_ok());
    assert_eq!(store.is_empty(), false);
}

#[test]
fn test_get_code() {
    let email = Email::parse("email@email.com".to_owned()).expect("Failed to create email");
    let mut store = HashmapTwoFACodeStore::new();
    let login_attempt_id =
        LoginAttemptId::parse(LoginAttemptId::default().as_ref().to_owned())
            .expect("Failed to parse uuid");
    let two_fa_code = TwoFACode::parse("123456".to_owned()).expect("Failed to parse code");

    let inserted = store.add_code(email.clone(), login_attempt_id.clone(), two_fa_code.clone());
    assert!(inserted.is_ok());
    assert_eq!(store.is_empty(), false);

    let code = store.get_code(&email).expect("Failed to get code");
    let (id, code) = code;
    assert_eq!(id.clone(), login_attempt_id);
    assert_eq!(code.clone(), two_fa_code);

    LoginAttemptId::parse(id.as_ref().to_string()).expect("Failed to parse login attempt id");
    TwoFACode::parse(code.as_ref().to_string()).expect("Failed to parse 2FA code");
}

#[test]
fn test_remove_method() {
    let email = Email::parse("email@email.com".to_owned()).expect("Failed to create email");
    let mut store = HashmapTwoFACodeStore::new();
    let login_attempt_id = LoginAttemptId::default();
    let two_fa_code = TwoFACode::default();

    let inserted = store.add_code(email.clone(), login_attempt_id.clone(), two_fa_code.clone());
    assert!(inserted.is_ok());
    assert_eq!(store.is_empty(), false);

    let code = store.remove_code(&email);
    assert!(code.is_ok());
    assert!(store.is_empty());
}

#[test]
fn test_code_not_found() {
    let email = Email::parse("email@email.com".to_owned()).expect("Failed to create email");
    let mut store = HashmapTwoFACodeStore::new();

    let result = store.remove_code(&email);
    assert!(result.is_err());
    assert_eq!(result.unwrap_err(), TwoFACodeStoreError::LoginAttemptIdNotFound);
}

#[test]
fn test_add_remove_get_methods() {
    let email = Email::parse("email@email.com".to_owned()).expect("Failed to create email");
    let mut store = HashmapTwoFACodeStore::new();
    let login_attempt_id =
        LoginAttemptId::parse(LoginAttemptId::default().as_ref().to_owned())
            .expect("Failed to parse uuid");
    let two_fa_code = TwoFACode::parse("123456".to_owned()).expect("Failed to parse code");

    let inserted = store.add_code(email.clone(), login_attempt_id.clone(), two_fa_code.clone());
    assert!(inserted.is_ok());
    assert_eq!(store.is_empty(), false);

    let code = store.get_code(&email);
    assert!(code.is_ok());
    let (id, code) = code.unwrap();
    assert_eq!(id, login_attempt_id);
    assert_eq!(code, two_fa_code);
}

#[test]
fn overwriting_a_challenge_keeps_one_entry() {
    let email = Email::parse("email@email.com".to_owned()).unwrap();
    let mut store = HashmapTwoFACodeStore::new();

    let first_id = LoginAttemptId::default();
    let first_code = TwoFACode::parse("111111".to_owned()).unwrap();
    store.add_code(email.clone(), first_id, first_code).unwrap();

    let second_id = LoginAttemptId::default();
    let second_code = TwoFACode::parse("222222".to_owned()).unwrap();
    store
        .add_code(email.clone(), second_id.clone(), second_code.clone())
        .unwrap();

    let (id, code) = store.get_code(&email).unwrap();
    assert_eq!(id, second_id);
    assert_eq!(code, second_code);

    store.remove_code(&email).unwrap();
    assert_eq!(
        store.get_code(&email).unwrap_err(),
        TwoFACodeStoreError::LoginAttemptIdNotFound
    );
}

#[test]
fn duplicate_signup_is_rejected_by_the_store() {
    let mut store = HashmapUserStore::new();
    store.add_user(sample_user()).unwrap();
    let result = store.add_user(sample_user());
    assert!(result.is_err());
}
