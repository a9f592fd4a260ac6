use auth_service::domain::data_stores::BannedTokenStore;
use auth_service::domain::email::Email;
use auth_service::domain::password::Password;
use auth_service::services::hashmap_banned_token_store::HashmapBannedTokenStore;
use auth_service::services::password_hash::{
    compute_password_hash, verify_password_hash, PasswordHashError,
};
use auth_service::utils::auth::{generate_auth_token, validate_token, TokenError};

const NOW: u64 = 1_700_000_000;
const JWT_SECRET: &str = "test-signing-key";

fn email() -> Email {
    Email::parse("test@test.com".to_owned()).unwrap()
}

#[test]
fn issued_token_validates_with_the_right_claims() {
    let banned = HashmapBannedTokenStore::new();
    let token = generate_auth_token(&email(), JWT_SECRET, NOW).unwrap();
    assert_eq!(token.split('.').count(), 3);

    let claims = validate_token(&banned, &token, JWT_SECRET, NOW).unwrap();
    assert_eq!(claims.sub, "test@test.com");
    assert_eq!(claims.exp, NOW + 600);
}

#[test]
fn revoked_token_fails_validation_before_expiry() {
    let mut banned = HashmapBannedTokenStore::new();
    let token = generate_auth_token(&email(), JWT_SECRET, NOW).unwrap();

    assert!(validate_token(&banned, &token, JWT_SECRET, NOW).is_ok());

    banned.add_token(token.clone()).unwrap();
    assert_eq!(
        validate_token(&banned, &token, JWT_SECRET, NOW).unwrap_err(),
        TokenError::Revoked
    );
}

#[test]
fn expired_token_fails_validation() {
    let banned = HashmapBannedTokenStore::new();
    let token = generate_auth_token(&email(), JWT_SECRET, NOW).unwrap();

    let at_expiry = NOW + 600;
    assert_eq!(
        validate_token(&banned, &token, JWT_SECRET, at_expiry).unwrap_err(),
        TokenError::Expired
    );
    assert!(validate_token(&banned, &token, JWT_SECRET, at_expiry - 1).is_ok());
}

#[test]
fn garbage_and_wrong_key_tokens_are_malformed() {
    let banned = HashmapBannedTokenStore::new();
    assert_eq!(
        validate_token(&banned, "something invalid", JWT_SECRET, NOW).unwrap_err(),
        TokenError::Malformed
    );

    let token = generate_auth_token(&email(), JWT_SECRET, NOW).unwrap();
    assert_eq!(
        validate_token(&banned, &token, "another-signing-key", NOW).unwrap_err(),
        TokenError::Malformed
    );
}

#[test]
fn hashing_salts_and_verifies() {
    let secret = Password::parse("password123".to_owned()).unwrap();

    let hash1 = compute_password_hash(&secret).unwrap();
    let hash2 = compute_password_hash(&secret).unwrap();
    assert_ne!(hash1, hash2, "two hashes of one secret must differ by salt");

    assert_eq!(verify_password_hash(&hash1, &secret), Ok(true));
    assert_eq!(verify_password_hash(&hash2, &secret), Ok(true));
    assert_eq!(verify_password_hash(&hash1, &secret), Ok(true), "verification is repeatable");

    let wrong = Password::parse("password124".to_owned()).unwrap();
    assert_eq!(verify_password_hash(&hash1, &wrong), Ok(false));
}

#[test]
fn malformed_stored_hash_is_reported_apart() {
    let secret = Password::parse("password123".to_owned()).unwrap();
    assert_eq!(
        verify_password_hash("not a hash at all", &secret),
        Err(PasswordHashError::MalformedHash)
    );
}
