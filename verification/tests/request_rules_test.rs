use template_rust_backend::middleware::validation::{join_failures, validate_request, Validate};
use template_rust_backend::services::auth_service::{LoginRequest, RegisterRequest};
use template_rust_backend::utils::error::AppError;

fn registration(email: &str, password: &str) -> RegisterRequest {
    RegisterRequest { tenant_id: 1, email: email.to_string(), password: password.to_string() }
}

fn login(email: &str, password: &str) -> LoginRequest {
    LoginRequest { email: email.to_string(), password: password.to_string() }
}

const EMAIL: &str = "email: Invalid email format";
const NEW_PASSWORD: &str = "password: Password must be between 8 and 100 characters";
const PASSWORD: &str = "password: Password is required";

#[test]
fn valid_request_comes_back_unchanged() {
    assert_eq!(
        validate_request(registration("test@example.com", "password123")),
        Ok(registration("test@example.com", "password123"))
    );
    assert_eq!(
        validate_request(login("test@example.com", "x")),
        Ok(login("test@example.com", "x"))
    );
}

#[test]
fn each_broken_rule_has_its_message() {
    assert_eq!(
        validate_request(registration("invalid-email", "password123")),
        Err(AppError::Validation(EMAIL.to_string()))
    );
    assert_eq!(
        validate_request(registration("test@example.com", "short")),
        Err(AppError::Validation(NEW_PASSWORD.to_string()))
    );
    assert_eq!(
        validate_request(login("invalid-email", "password123")),
        Err(AppError::Validation(EMAIL.to_string()))
    );
    assert_eq!(
        validate_request(login("test@example.com", "")),
        Err(AppError::Validation(PASSWORD.to_string()))
    );
}

#[test]
fn all_failures_are_reported_together() {
    assert_eq!(
        validate_request(registration("invalid-email", "short")),
        Err(AppError::Validation(format!("{EMAIL}, {NEW_PASSWORD}")))
    );
    assert_eq!(
        validate_request(login("", "")),
        Err(AppError::Validation(format!("{EMAIL}, {PASSWORD}")))
    );
    assert_eq!(registration("x", "y").validate(), vec![EMAIL, NEW_PASSWORD]);
    assert_eq!(login("a@x.com", "").validate(), vec![PASSWORD]);
    assert!(login("a@x.com", "p").validate().is_empty());
    let rendered = validate_request(login("", "")).unwrap_err();
    assert_eq!(rendered.status_code(), 400);
    assert_eq!(rendered.error_code(), "VALIDATION_ERROR");
}

#[test]
fn password_of_a_registration_has_8_to_100_characters() {
    for (length, accepted) in [(0, false), (7, false), (8, true), (100, true), (101, false)] {
        let request = registration("test@example.com", &"a".repeat(length));
        assert_eq!(validate_request(request).is_ok(), accepted, "{length}");
    }
    let eight_letters = "pässwörd";
    assert_eq!(eight_letters.chars().count(), 8);
    assert!(validate_request(registration("test@example.com", eight_letters)).is_ok());
    let hundred_letters = "é".repeat(100);
    assert!(validate_request(registration("test@example.com", &hundred_letters)).is_ok());
    assert!(validate_request(registration("test@example.com", &"é".repeat(101))).is_err());
}

#[test]
fn addresses_are_judged_by_their_form() {
    for good in ["a@x.com", "weird+tag@sub.example.org", "email@[127.0.0.1]"] {
        assert!(validate_request(login(good, "pw")).is_ok(), "{good:?}");
    }
    for bad in ["", "a", "@x.com", "a@", "a b@x.com", "a@x..com", "a@-x.com"] {
        assert!(validate_request(login(bad, "pw")).is_err(), "{bad:?}");
    }
}

#[test]
fn failures_are_joined_with_a_comma_and_a_space() {
    let parts = |parts: &[&str]| parts.iter().map(|part| part.to_string()).collect::<Vec<_>>();
    assert_eq!(join_failures(&parts(&[])), "");
    assert_eq!(join_failures(&parts(&["one"])), "one");
    assert_eq!(join_failures(&parts(&["one", "two"])), "one, two");
    assert_eq!(join_failures(&parts(&["one", "", "three"])), "one, , three");
}
