use argon2::password_hash::Error;
use template_rust_backend::services::auth_service::AuthService;
use template_rust_backend::utils::error::AppError;

#[test]
fn every_password_verifies_against_its_own_hash() {
    for password in ["", "a", "password123", "pässwörd with spaces", "x".repeat(200).as_str()] {
        let hash = AuthService::hash_password(password).unwrap();
        assert_eq!(AuthService::verify_password(password, &hash), Ok(true));
    }
}

#[test]
fn empty_password_is_hashed_like_any_other() {
    let hash = AuthService::hash_password("").unwrap();
    assert!(!hash.is_empty());
    assert_eq!(AuthService::verify_password("", &hash), Ok(true));
    assert_eq!(AuthService::verify_password(" ", &hash), Ok(false));
}

#[test]
fn another_password_does_not_verify() {
    let hash = AuthService::hash_password("password123").unwrap();
    assert_eq!(AuthService::verify_password("password124", &hash), Ok(false));
    assert_eq!(AuthService::verify_password("", &hash), Ok(false));
    assert_eq!(AuthService::verify_password("Password123", &hash), Ok(false));
}

#[test]
fn hash_is_salted_and_in_phc_form() {
    let first = AuthService::hash_password("password123").unwrap();
    let second = AuthService::hash_password("password123").unwrap();
    assert_ne!(first, second);
    assert!(first.starts_with("$argon2id$v=19$"));
    assert_eq!(first.split('$').count(), 6);
}

#[test]
fn stored_text_that_is_no_hash_is_a_failure() {
    for stored in ["", "password123", "$argon2id$", "not a hash"] {
        assert_eq!(
            AuthService::verify_password("password123", stored),
            Err(AppError::Internal),
            "{stored:?}"
        );
    }
}

#[test]
fn hash_of_another_algorithm_is_a_mismatch() {
    let stored = "$pbkdf2-sha256$i=1000$c2FsdHNhbHQ$4pC8ZDYnS1oLBJTB8HLnPvGpyXwGOQF6JJ8LN8q6nSs";
    assert_eq!(AuthService::verify_password("password123", stored), Ok(false));
}

#[test]
fn verification_outcome_counts_every_complaint_as_a_mismatch() {
    assert_eq!(AuthService::verification_outcome(Ok(Ok(()))), Ok(true));
    assert_eq!(AuthService::verification_outcome(Ok(Err(Error::Password))), Ok(false));
    assert_eq!(AuthService::verification_outcome(Ok(Err(Error::Crypto))), Ok(false));
    assert_eq!(
        AuthService::verification_outcome(Err(Error::PhcStringField)),
        Err(AppError::Internal)
    );
    assert_eq!(AuthService::verification_outcome(Err(Error::Password)), Err(AppError::Internal));
}

#[test]
fn hash_outcome_keeps_the_hash_and_hides_the_cause() {
    assert_eq!(AuthService::hash_outcome(Ok("$h".to_string())), Ok("$h".to_string()));
    assert_eq!(AuthService::hash_outcome(Err(Error::Crypto)), Err(AppError::Internal));
}
