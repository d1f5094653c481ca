use template_rust_backend::enums::UserRole;
use template_rust_backend::services::auth_service::{AuthService, Claims};
use template_rust_backend::utils::error::{AppError, AuthError};
use uuid::Uuid;

const USER: u128 = 0x0198_7f3a_1c2d_7e4f_8a1b_2c3d_4e5f_6071;
const TENANT: u128 = 0x0198_7f3a_1c2d_7e4f_9b2c_3d4e_5f60_7182;

fn sample_claims(exp: i64) -> Claims {
    Claims {
        user_id: USER,
        tenant_id: TENANT,
        email: "a@x.com".to_string(),
        role: UserRole::Regular,
        exp,
    }
}

fn issue(secret: &str, minutes: i64, now: i64) -> String {
    AuthService::generate_token_at(
        USER,
        TENANT,
        "a@x.com".to_string(),
        UserRole::Regular,
        secret,
        minutes,
        now,
    )
    .unwrap()
}

#[test]
fn issued_token_decodes_to_the_claims_it_was_issued_for() {
    let token = issue("secret", 10, 1_700_000_000);
    let claims = AuthService::verify_token_at(&token, "secret", 1_700_000_000).unwrap();
    assert_eq!(claims, sample_claims(1_700_000_600));
}

#[test]
fn expiry_is_sixty_seconds_per_minute_after_issue() {
    assert_eq!(AuthService::expiry_at(1_000, 10), Some(1_600));
    assert_eq!(AuthService::expiry_at(1_000, 0), Some(1_000));
    assert_eq!(AuthService::expiry_at(1_000, -1), Some(940));
    assert_eq!(AuthService::expiry_at(-50, 1), Some(10));
}

#[test]
fn expiry_that_does_not_fit_is_refused() {
    assert_eq!(AuthService::expiry_at(0, i64::MAX), None);
    assert_eq!(AuthService::expiry_at(0, i64::MIN), None);
    assert_eq!(AuthService::expiry_at(i64::MAX, 1), None);
    assert_eq!(AuthService::expiry_at(i64::MAX - 60, 1), Some(i64::MAX));
    assert_eq!(AuthService::expiry_at(i64::MIN + 60, -1), Some(i64::MIN));
    assert_eq!(AuthService::expiry_at(-10, i64::MAX / 60), Some(i64::MAX / 60 * 60 - 10));
    let result = AuthService::generate_token_at(
        USER,
        TENANT,
        "a@x.com".to_string(),
        UserRole::Admin,
        "secret",
        i64::MAX,
        0,
    );
    assert_eq!(result, Err(AppError::Internal));
}

#[test]
fn token_is_good_up_to_and_including_its_expiry() {
    let token = issue("secret", 1, 1_000);
    assert!(AuthService::verify_token_at(&token, "secret", 1_059).is_ok());
    assert!(AuthService::verify_token_at(&token, "secret", 1_060).is_ok());
    assert_eq!(
        AuthService::verify_token_at(&token, "secret", 1_061),
        Err(AppError::Auth(AuthError::ExpiredToken))
    );
    assert!(AuthService::verify_token_at(&token, "secret", 0).is_ok());
}

#[test]
fn token_verified_under_another_secret_is_invalid() {
    let token = issue("secret_key_1", 60, 1_000);
    assert_eq!(
        AuthService::verify_token_at(&token, "secret_key_2", 1_000),
        Err(AppError::Auth(AuthError::InvalidToken))
    );
    assert_eq!(
        AuthService::verify_token_at(&token, "", 1_000),
        Err(AppError::Auth(AuthError::InvalidToken))
    );
}

#[test]
fn token_issued_for_minus_one_minute_is_expired() {
    let token = issue("secret", -1, 1_000);
    assert_eq!(
        AuthService::verify_token_at(&token, "secret", 1_000),
        Err(AppError::Auth(AuthError::ExpiredToken))
    );
    let by_the_clock = AuthService::generate_token(
        USER,
        TENANT,
        "a@x.com".to_string(),
        UserRole::Regular,
        "secret",
        -1,
    )
    .unwrap();
    assert_eq!(
        AuthService::verify_token(&by_the_clock, "secret"),
        Err(AppError::Auth(AuthError::ExpiredToken))
    );
}

#[test]
fn expired_token_with_a_bad_signature_is_invalid_not_expired() {
    let token = issue("secret", -1, 1_000);
    assert_eq!(
        AuthService::verify_token_at(&token, "other", 5_000),
        Err(AppError::Auth(AuthError::InvalidToken))
    );
}

#[test]
fn text_that_is_no_token_is_invalid() {
    for text in ["", "invalid.token.here", "a.b", "....", "Bearer x"] {
        assert_eq!(
            AuthService::verify_token_at(text, "secret", 0),
            Err(AppError::Auth(AuthError::InvalidToken)),
            "{text:?}"
        );
    }
}

#[test]
fn tampered_token_is_invalid() {
    let token = issue("secret", 10, 1_000);
    let mut tampered = token.clone();
    let last = tampered.pop().unwrap();
    tampered.push(if last == 'A' { 'B' } else { 'A' });
    assert_eq!(
        AuthService::verify_token_at(&tampered, "secret", 1_000),
        Err(AppError::Auth(AuthError::InvalidToken))
    );
}

#[test]
fn token_by_the_clock_expires_after_the_minutes_asked_for() {
    let before = chrono::Utc::now().timestamp();
    let token = AuthService::generate_token(
        USER,
        TENANT,
        "a@x.com".to_string(),
        UserRole::Admin,
        "secret",
        10,
    )
    .unwrap();
    let after = chrono::Utc::now().timestamp();
    let claims = AuthService::verify_token(&token, "secret").unwrap();
    assert!(before + 600 <= claims.exp && claims.exp <= after + 600);
    assert_eq!(claims.role, UserRole::Admin);
}

#[test]
fn payload_is_a_flat_object_of_five_members() {
    let payload = sample_claims(1_600).to_payload();
    assert_eq!(payload.len(), 5);
    assert_eq!(
        payload.get("user_id").and_then(|v| v.as_str()),
        Some("01987f3a-1c2d-7e4f-8a1b-2c3d4e5f6071")
    );
    assert_eq!(
        payload.get("tenant_id").and_then(|v| v.as_str()),
        Some("01987f3a-1c2d-7e4f-9b2c-3d4e5f607182")
    );
    assert_eq!(payload.get("email").and_then(|v| v.as_str()), Some("a@x.com"));
    assert_eq!(payload.get("role").and_then(|v| v.as_str()), Some("regular"));
    assert_eq!(payload.get("exp").and_then(|v| v.as_i64()), Some(1_600));
}

#[test]
fn payload_reads_back_as_the_claims() {
    let claims = sample_claims(-5);
    assert_eq!(Claims::from_payload(&claims.to_payload()), Some(claims));
}

fn object(members: &[(&str, serde_json::Value)]) -> serde_json::Map<String, serde_json::Value> {
    let mut payload = serde_json::Map::new();
    for (name, value) in members {
        payload.insert(name.to_string(), value.clone());
    }
    payload
}

fn full_payload() -> Vec<(&'static str, serde_json::Value)> {
    vec![
        ("user_id", serde_json::Value::from("01987f3a-1c2d-7e4f-8a1b-2c3d4e5f6071")),
        ("tenant_id", serde_json::Value::from("01987F3A1C2D7E4F9B2C3D4E5F607182")),
        ("email", serde_json::Value::from("a@x.com")),
        ("role", serde_json::Value::from("regular")),
        ("exp", serde_json::Value::from(1_600)),
    ]
}

#[test]
fn payload_from_elsewhere_is_read() {
    let mut members = full_payload();
    members.push(("iat", serde_json::Value::from(12)));
    assert_eq!(Claims::from_payload(&object(&members)), Some(sample_claims(1_600)));
}

#[test]
fn payload_with_a_missing_or_wrong_member_states_no_claims() {
    for missing in 0..5 {
        let mut members = full_payload();
        members.remove(missing);
        assert_eq!(Claims::from_payload(&object(&members)), None);
    }
    let wrong: Vec<(usize, serde_json::Value)> = vec![
        (0, serde_json::Value::from("not-a-uuid")),
        (1, serde_json::Value::from(7)),
        (2, serde_json::Value::Null),
        (3, serde_json::Value::from("owner")),
        (3, serde_json::Value::from("Admin")),
        (4, serde_json::Value::from("1600")),
        (4, serde_json::Value::from(1600.5)),
        (4, serde_json::Value::from(u64::MAX)),
    ];
    for (place, value) in wrong {
        let mut members = full_payload();
        members[place].1 = value;
        assert_eq!(Claims::from_payload(&object(&members)), None);
    }
}

#[test]
fn token_signed_elsewhere_with_the_secret_is_accepted() {
    let payload = object(&full_payload());
    let token = jsonwebtoken::encode(
        &jsonwebtoken::Header::default(),
        &payload,
        &jsonwebtoken::EncodingKey::from_secret(b"secret"),
    )
    .unwrap();
    assert_eq!(
        AuthService::verify_token_at(&token, "secret", 1_600),
        Ok(sample_claims(1_600))
    );
    assert_eq!(
        AuthService::verify_token_at(&token, "secret", 1_601),
        Err(AppError::Auth(AuthError::ExpiredToken))
    );
}

#[test]
fn signed_token_that_states_no_claims_is_invalid() {
    let mut members = full_payload();
    members.remove(2);
    let token = jsonwebtoken::encode(
        &jsonwebtoken::Header::default(),
        &object(&members),
        &jsonwebtoken::EncodingKey::from_secret(b"secret"),
    )
    .unwrap();
    assert_eq!(
        AuthService::verify_token_at(&token, "secret", 0),
        Err(AppError::Auth(AuthError::InvalidToken))
    );
}

#[test]
fn token_of_another_algorithm_is_invalid() {
    let token = jsonwebtoken::encode(
        &jsonwebtoken::Header::new(jsonwebtoken::Algorithm::HS512),
        &object(&full_payload()),
        &jsonwebtoken::EncodingKey::from_secret(b"secret"),
    )
    .unwrap();
    assert_eq!(
        AuthService::verify_token_at(&token, "secret", 0),
        Err(AppError::Auth(AuthError::InvalidToken))
    );
}

#[test]
fn token_has_three_parts_and_can_be_opened_elsewhere() {
    let token = issue("secret", 10, 1_000);
    assert_eq!(token.split('.').count(), 3);
    let mut validation = jsonwebtoken::Validation::new(jsonwebtoken::Algorithm::HS256);
    validation.validate_exp = false;
    let opened = jsonwebtoken::decode::<serde_json::Map<String, serde_json::Value>>(
        &token,
        &jsonwebtoken::DecodingKey::from_secret(b"secret"),
        &validation,
    )
    .unwrap();
    assert_eq!(opened.header.alg, jsonwebtoken::Algorithm::HS256);
    assert_eq!(opened.claims, sample_claims(1_600).to_payload());
}

#[test]
fn signing_outcome_keeps_the_token_and_hides_the_cause() {
    assert_eq!(AuthService::signing_outcome(Ok("t".to_string())), Ok("t".to_string()));
    let cause = jsonwebtoken::errors::Error::from(jsonwebtoken::errors::ErrorKind::InvalidToken);
    assert_eq!(AuthService::signing_outcome(Err(cause)), Err(AppError::Internal));
}

#[test]
fn identifiers_of_any_value_survive_the_token() {
    for id in [0u128, 1, u128::MAX, Uuid::now_v7().as_u128(), Uuid::new_v4().as_u128()] {
        let token = AuthService::generate_token_at(
            id,
            !id,
            "é@x.com \"quoted\"".to_string(),
            UserRole::Admin,
            "s",
            1,
            0,
        )
        .unwrap();
        let claims = AuthService::verify_token_at(&token, "s", 0).unwrap();
        assert_eq!(claims.user_id, id);
        assert_eq!(claims.tenant_id, !id);
        assert_eq!(claims.email, "é@x.com \"quoted\"");
    }
}

#[test]
fn secret_padded_with_zero_bytes_is_the_same_key() {
    let token = issue("k", 10, 1_000);
    assert!(AuthService::verify_token_at(&token, "k\0", 1_000).is_ok());
    assert!(AuthService::verify_token_at(&token, "k\0\0", 1_000).is_ok());
    assert!(AuthService::verify_token_at(&token, "k0", 1_000).is_err());
}

#[test]
fn token_is_issued_whenever_its_expiry_can_be_written() {
    for (minutes, now) in [(0, 0), (-1, 0), (i64::MAX / 60, -10), (i64::MIN / 60, 10), (1, -1)] {
        let result = AuthService::generate_token_at(
            USER,
            TENANT,
            "a@x.com".to_string(),
            UserRole::Admin,
            "",
            minutes,
            now,
        );
        assert!(result.is_ok(), "{minutes} {now}");
    }
    for minutes in [0, 1, -1, 1 << 57, -(1 << 57)] {
        let result = AuthService::generate_token(
            USER,
            TENANT,
            String::new(),
            UserRole::Regular,
            "secret",
            minutes,
        );
        assert!(result.is_ok(), "{minutes}");
    }
}

#[test]
fn issuing_at_one_second_is_deterministic() {
    let first = issue("secret", 10, 1_000);
    let second = issue("secret", 10, 1_000);
    assert_eq!(first, second);
    assert_ne!(first, issue("secret", 10, 1_001));
    assert_ne!(first, issue("secret", 11, 1_000));
    assert_ne!(first, issue("other", 10, 1_000));
}

#[test]
fn token_is_header_payload_and_signature() {
    let token = issue("secret", 10, 1_000);
    let parts: Vec<&str> = token.split('.').collect();
    assert_eq!(parts.len(), 3);
    assert!(parts.iter().all(|part| !part.is_empty()));
    assert_eq!(parts[0], "eyJ0eXAiOiJKV1QiLCJhbGciOiJIUzI1NiJ9");
    let other = issue("other-secret", 10, 1_000);
    let other_parts: Vec<&str> = other.split('.').collect();
    assert_eq!(parts[1], other_parts[1]);
    assert_ne!(parts[2], other_parts[2]);
}

#[test]
fn token_that_names_an_audience_is_invalid() {
    let mut members = full_payload();
    members.push(("aud", serde_json::Value::from("someone")));
    let token = jsonwebtoken::encode(
        &jsonwebtoken::Header::default(),
        &object(&members),
        &jsonwebtoken::EncodingKey::from_secret(b"secret"),
    )
    .unwrap();
    assert_eq!(
        AuthService::verify_token_at(&token, "secret", 0),
        Err(AppError::Auth(AuthError::InvalidToken))
    );
}
