use template_rust_backend::enums::UserRole;
use template_rust_backend::middleware::auth::{bearer_token, AuthState, BearerToken};
use template_rust_backend::services::auth_service::{AuthService, Claims};
use template_rust_backend::utils::auth::{
    check_role, check_tenant_access, check_tenant_and_role, AdminRole, AdminRoleWithTenant,
    TenantAccess,
};
use template_rust_backend::utils::error::{AppError, AuthError};

const T1: u128 = 0x11;
const T2: u128 = 0x22;

fn state() -> AuthState {
    AuthState { secret: "signing-secret".to_string(), bearer_token: "shared-token".to_string() }
}

fn claims(tenant_id: u128, role: UserRole) -> Claims {
    Claims { user_id: 7, tenant_id, email: "a@x.com".to_string(), role, exp: 2_000 }
}

fn header_for(tenant_id: u128, role: UserRole, minutes: i64, now: i64) -> String {
    let token = AuthService::generate_token_at(
        7,
        tenant_id,
        "a@x.com".to_string(),
        role,
        "signing-secret",
        minutes,
        now,
    )
    .unwrap();
    format!("Bearer {token}")
}

fn forbidden(reason: &str) -> AppError {
    AppError::Forbidden(reason.to_string())
}

#[test]
fn header_yields_what_follows_the_word_bearer() {
    assert_eq!(bearer_token(Some("Bearer abc.def.ghi")), Ok("abc.def.ghi"));
    assert_eq!(bearer_token(Some("Bearer ")), Ok(""));
    assert_eq!(bearer_token(Some("Bearer  x")), Ok(" x"));
    assert_eq!(bearer_token(None), Err(AuthError::MissingToken));
    for header in ["", "Bearer", "bearer abc", "Basic abc", " Bearer abc", "Bearerabc"] {
        assert_eq!(bearer_token(Some(header)), Err(AuthError::InvalidToken), "{header:?}");
    }
}

#[test]
fn static_bearer_check_compares_with_the_shared_token() {
    let state = state();
    assert_eq!(
        BearerToken::from_request_parts(Some(&state), Some("Bearer shared-token")),
        Ok(BearerToken)
    );
    assert_eq!(
        BearerToken::from_request_parts(Some(&state), Some("Bearer shared-token ")),
        Err(AppError::Auth(AuthError::InvalidToken))
    );
    assert_eq!(
        BearerToken::from_request_parts(Some(&state), Some("Bearer signing-secret")),
        Err(AppError::Auth(AuthError::InvalidToken))
    );
    assert_eq!(
        BearerToken::from_request_parts(Some(&state), Some("shared-token")),
        Err(AppError::Auth(AuthError::InvalidToken))
    );
    assert_eq!(
        BearerToken::from_request_parts(Some(&state), None),
        Err(AppError::Auth(AuthError::MissingToken))
    );
}

#[test]
fn missing_configuration_comes_before_everything_else() {
    assert_eq!(
        BearerToken::from_request_parts(None, Some("Bearer shared-token")),
        Err(AppError::Internal)
    );
    assert_eq!(BearerToken::from_request_parts(None, None), Err(AppError::Internal));
    assert_eq!(Claims::from_request_parts_at(None, None, 0), Err(AppError::Internal));
    assert_eq!(Claims::from_request_parts(None, Some("Bearer x")), Err(AppError::Internal));
}

#[test]
fn authenticated_principal_is_the_claims_of_the_token() {
    let state = state();
    let header = header_for(T1, UserRole::Regular, 10, 1_000);
    assert_eq!(
        Claims::from_request_parts_at(Some(&state), Some(&header), 1_600),
        Ok(Claims {
            user_id: 7,
            tenant_id: T1,
            email: "a@x.com".to_string(),
            role: UserRole::Regular,
            exp: 1_600
        })
    );
}

#[test]
fn authentication_fails_as_missing_invalid_or_expired() {
    let state = state();
    let header = header_for(T1, UserRole::Regular, 10, 1_000);
    assert_eq!(
        Claims::from_request_parts_at(Some(&state), None, 1_000),
        Err(AppError::Auth(AuthError::MissingToken))
    );
    assert_eq!(
        Claims::from_request_parts_at(Some(&state), Some(&header[7..]), 1_000),
        Err(AppError::Auth(AuthError::InvalidToken))
    );
    assert_eq!(
        Claims::from_request_parts_at(Some(&state), Some("Bearer not.a.token"), 1_000),
        Err(AppError::Auth(AuthError::InvalidToken))
    );
    assert_eq!(
        Claims::from_request_parts_at(Some(&state), Some("Bearer shared-token"), 1_000),
        Err(AppError::Auth(AuthError::InvalidToken))
    );
    assert_eq!(
        Claims::from_request_parts_at(Some(&state), Some(&header), 1_601),
        Err(AppError::Auth(AuthError::ExpiredToken))
    );
    let other = AuthState { secret: "other".to_string(), bearer_token: "shared-token".to_string() };
    assert_eq!(
        Claims::from_request_parts_at(Some(&other), Some(&header), 1_000),
        Err(AppError::Auth(AuthError::InvalidToken))
    );
}

#[test]
fn authentication_by_the_clock() {
    let state = state();
    let now = chrono::Utc::now().timestamp();
    let fresh = header_for(T1, UserRole::Admin, 10, now);
    let stale = header_for(T1, UserRole::Admin, -1, now);
    let claims = Claims::from_request_parts(Some(&state), Some(&fresh)).unwrap();
    assert_eq!(claims.tenant_id, T1);
    assert_eq!(claims.exp, now + 600);
    assert_eq!(
        Claims::from_request_parts(Some(&state), Some(&stale)),
        Err(AppError::Auth(AuthError::ExpiredToken))
    );
}

#[test]
fn tenant_rule_and_role_rule() {
    let regular = claims(T1, UserRole::Regular);
    assert_eq!(check_tenant_access(&regular, T1), Ok(()));
    assert_eq!(
        check_tenant_access(&regular, T2),
        Err(forbidden("ACCESS_DENIED_FOR_THIS_TENANT"))
    );
    assert_eq!(check_role(&regular, UserRole::Regular), Ok(()));
    assert_eq!(check_role(&regular, UserRole::Admin), Err(forbidden("ADMIN_ROLE_REQUIRED")));
    assert_eq!(
        check_role(&claims(T1, UserRole::Admin), UserRole::Regular),
        Err(forbidden("REGULAR_ROLE_REQUIRED"))
    );
    assert_eq!(check_tenant_and_role(&regular, T1, UserRole::Regular), Ok(()));
    assert_eq!(
        check_tenant_and_role(&regular, T2, UserRole::Admin),
        Err(forbidden("ACCESS_DENIED_FOR_THIS_TENANT"))
    );
    assert_eq!(
        check_tenant_and_role(&regular, T1, UserRole::Admin),
        Err(forbidden("ADMIN_ROLE_REQUIRED"))
    );
}

#[test]
fn tenant_guard_turns_away_a_token_of_another_tenant() {
    let denied = TenantAccess::from_request_parts(Ok(claims(T1, UserRole::Admin)), Some(T2));
    assert_eq!(denied, Err(forbidden("ACCESS_DENIED_FOR_THIS_TENANT")));
    assert_eq!(denied.unwrap_err().status_code(), 403);
    let granted = TenantAccess::from_request_parts(Ok(claims(T1, UserRole::Regular)), Some(T1));
    assert_eq!(
        granted,
        Ok(TenantAccess { claims: claims(T1, UserRole::Regular), tenant_id: T1 })
    );
}

#[test]
fn tenant_guard_passes_on_a_failed_authentication_and_needs_a_tenant() {
    assert_eq!(
        TenantAccess::from_request_parts(Err(AppError::Auth(AuthError::ExpiredToken)), Some(T1)),
        Err(AppError::Auth(AuthError::ExpiredToken))
    );
    assert_eq!(
        TenantAccess::from_request_parts(Err(AppError::Auth(AuthError::MissingToken)), None),
        Err(AppError::Auth(AuthError::MissingToken))
    );
    let no_tenant = TenantAccess::from_request_parts(Ok(claims(T1, UserRole::Admin)), None);
    assert_eq!(no_tenant, Err(AppError::Validation("INVALID_TENANT_ID".to_string())));
    assert_eq!(no_tenant.unwrap_err().status_code(), 400);
}

#[test]
fn admin_guard_needs_the_admin_role() {
    assert_eq!(
        AdminRole::from_request_parts(Ok(claims(T1, UserRole::Admin))),
        Ok(AdminRole(claims(T1, UserRole::Admin)))
    );
    assert_eq!(
        AdminRole::from_request_parts(Ok(claims(T1, UserRole::Regular))),
        Err(forbidden("ADMIN_ROLE_REQUIRED"))
    );
    assert_eq!(
        AdminRole::from_request_parts(Err(AppError::Internal)),
        Err(AppError::Internal)
    );
}

#[test]
fn admin_guard_of_a_tenant_checks_role_then_path_then_tenant() {
    assert_eq!(
        AdminRoleWithTenant::from_request_parts(Ok(claims(T1, UserRole::Admin)), Some(T1)),
        Ok(AdminRoleWithTenant { claims: claims(T1, UserRole::Admin), tenant_id: T1 })
    );
    assert_eq!(
        AdminRoleWithTenant::from_request_parts(Ok(claims(T1, UserRole::Regular)), Some(T2)),
        Err(forbidden("ADMIN_ROLE_REQUIRED"))
    );
    assert_eq!(
        AdminRoleWithTenant::from_request_parts(Ok(claims(T1, UserRole::Regular)), None),
        Err(forbidden("ADMIN_ROLE_REQUIRED"))
    );
    assert_eq!(
        AdminRoleWithTenant::from_request_parts(Ok(claims(T1, UserRole::Admin)), None),
        Err(AppError::Validation("INVALID_TENANT_ID".to_string()))
    );
    assert_eq!(
        AdminRoleWithTenant::from_request_parts(Ok(claims(T1, UserRole::Admin)), Some(T2)),
        Err(forbidden("ACCESS_DENIED_FOR_THIS_TENANT"))
    );
    assert_eq!(
        AdminRoleWithTenant::from_request_parts(
            Err(AppError::Auth(AuthError::InvalidToken)),
            Some(T1)
        ),
        Err(AppError::Auth(AuthError::InvalidToken))
    );
}

#[test]
fn guards_in_a_row_from_header_to_principal() {
    let state = state();
    let header = header_for(T1, UserRole::Regular, 10, 1_000);
    let principal = Claims::from_request_parts_at(Some(&state), Some(&header), 1_000);
    assert_eq!(
        TenantAccess::from_request_parts(principal.clone(), Some(T2)),
        Err(forbidden("ACCESS_DENIED_FOR_THIS_TENANT"))
    );
    assert_eq!(
        AdminRoleWithTenant::from_request_parts(principal.clone(), Some(T1)),
        Err(forbidden("ADMIN_ROLE_REQUIRED"))
    );
    assert_eq!(TenantAccess::from_request_parts(principal, Some(T1)).unwrap().tenant_id, T1);
}
