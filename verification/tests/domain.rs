use auth_service::domain::data_stores::{LoginAttemptId, TwoFACode};
use auth_service::domain::email::Email;
use auth_service::domain::error::AuthAPIError;
use auth_service::domain::password::Password;

#[test]
fn test_email_valid() {
    let given_email = "something@something.com".to_owned();
    let email = Email::parse(given_email.clone());
    let result = email.unwrap();
    assert_eq!(result.as_ref(), &given_email);
}

#[test]
fn test_invalid_email() {
    let given_email = "something.com".to_owned();
    let email = Email::parse(given_email.clone());
    assert!(email.is_err());
}

#[test]
fn email_without_separator_always_fails() {
    for raw in ["", "plain", "name.example.com", "a b c", "12345"] {
        assert!(Email::parse(raw.to_owned()).is_err(), "accepted {:?}", raw);
    }
}

#[test]
fn email_with_separator_round_trips() {
    for raw in ["@", "a@", "@b", "a@b.com", "weird @ address"] {
        let email = Email::parse(raw.to_owned()).expect("rejected a valid identity");
        assert_eq!(email.as_ref(), raw);
    }
}

#[test]
fn test_password_valid() {
    let given_password = "long-enough".to_owned();
    let password = Password::parse(given_password.clone());
    assert_eq!(password.unwrap().as_ref(), &given_password)
}

#[test]
fn test_invalid_password() {
    let given_password = "bad".to_owned();
    let password = Password::parse(given_password.clone());
    assert_eq!(password.unwrap_err(), AuthAPIError::InvalidCredentials)
}

#[test]
fn password_length_boundary() {
    assert!(Password::parse("1234567".to_owned()).is_err());
    assert!(Password::parse("12345678".to_owned()).is_ok());
}

#[test]
fn two_fa_code_accepts_exactly_six_digit_range() {
    for raw in ["100000", "123456", "999999", "500000"] {
        let code = TwoFACode::parse(raw.to_owned()).expect("rejected a valid code");
        assert_eq!(code.as_ref(), raw);
    }
    for raw in [
        "", "12345", "1234567", "099999", "000000", "99999", "12a456", "-12345", " 23456",
        "12.456",
    ] {
        assert!(TwoFACode::parse(raw.to_owned()).is_err(), "accepted {:?}", raw);
    }
}

#[test]
fn two_fa_code_generation_is_valid() {
    for _ in 0..32 {
        let code = TwoFACode::default();
        let reparsed = TwoFACode::parse(code.as_ref().to_owned())
            .expect("generated code failed validation");
        assert_eq!(reparsed.as_ref(), code.as_ref());
        let value: u32 = code.as_ref().parse().unwrap();
        assert!((100000..=999999).contains(&value));
    }
}

#[test]
fn login_attempt_id_parse_and_generate() {
    let generated = LoginAttemptId::default();
    let reparsed = LoginAttemptId::parse(generated.as_ref().to_owned())
        .expect("generated identifier failed validation");
    assert_eq!(reparsed.as_ref(), generated.as_ref());

    assert!(LoginAttemptId::parse("not-an-identifier".to_owned()).is_err());
    assert!(LoginAttemptId::parse("".to_owned()).is_err());

    let id = LoginAttemptId::parse("67e55044-10b1-426f-9247-bb680e5fe0c8".to_owned()).unwrap();
    assert_eq!(id.as_ref(), "67e55044-10b1-426f-9247-bb680e5fe0c8");
}

#[test]
fn login_attempt_id_is_normalised_to_canonical_form() {
    let id = LoginAttemptId::parse("67E55044-10B1-426F-9247-BB680E5FE0C8".to_owned()).unwrap();
    assert_eq!(id.as_ref(), "67e55044-10b1-426f-9247-bb680e5fe0c8");
}
