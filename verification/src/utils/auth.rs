use crate::enums::UserRole;
use crate::services::auth_service::{Claims, ClaimsView};
use crate::utils::error::{outcome, outcome_of_unit, AppError, Failure};
use vstd::prelude::*;

verus! {

/// A caller that is authenticated and holds the `admin` role.
#[derive(Debug, PartialEq, Eq)]
pub struct AdminRole(pub Claims);

/// A caller that is authenticated, holds the `admin` role and asks for its
/// own tenant.
#[derive(Debug, PartialEq, Eq)]
pub struct AdminRoleWithTenant {
    pub claims: Claims,
    pub tenant_id: u128,
}

/// A caller that is authenticated and asks for its own tenant.
#[derive(Debug, PartialEq, Eq)]
pub struct TenantAccess {
    pub claims: Claims,
    pub tenant_id: u128,
}

/// Why a caller of another tenant is turned away.
pub open spec fn other_tenant() -> Failure {
    Failure::Forbidden("ACCESS_DENIED_FOR_THIS_TENANT"@)
}

/// Why a caller without the role `required` is turned away.
pub open spec fn role_missing(required: UserRole) -> Failure {
    match required {
        UserRole::Admin => Failure::Forbidden("ADMIN_ROLE_REQUIRED"@),
        UserRole::Regular => Failure::Forbidden("REGULAR_ROLE_REQUIRED"@),
    }
}

/// Why a request whose path names no tenant is turned away.
pub open spec fn no_tenant_in_path() -> Failure {
    Failure::Validation("INVALID_TENANT_ID"@)
}

/// The tenant rule: the claims must name the tenant that is asked for.
pub open spec fn tenant_check(claims: ClaimsView, tenant_id: u128) -> Result<(), Failure> {
    if claims.tenant_id != tenant_id {
        Err(other_tenant())
    } else {
        Ok(())
    }
}

/// The role rule: the claims must state the role that is asked for.
pub open spec fn role_check(claims: ClaimsView, required: UserRole) -> Result<(), Failure> {
    if claims.role != required {
        Err(role_missing(required))
    } else {
        Ok(())
    }
}

/// What the admin guard comes to, given what authentication came to.
pub open spec fn admin_scoped(principal: Result<ClaimsView, Failure>) -> Result<
    ClaimsView,
    Failure,
> {
    match principal {
        Err(failure) => Err(failure),
        Ok(claims) => match role_check(claims, UserRole::Admin) {
            Err(failure) => Err(failure),
            Ok(_) => Ok(claims),
        },
    }
}

/// What the tenant guard comes to, given what authentication came to and
/// the tenant that the path names: authentication first, then the path,
/// then the tenant rule.
pub open spec fn tenant_scoped(
    principal: Result<ClaimsView, Failure>,
    tenant_id: Option<u128>,
) -> Result<(ClaimsView, u128), Failure> {
    match principal {
        Err(failure) => Err(failure),
        Ok(claims) => match tenant_id {
            None => Err(no_tenant_in_path()),
            Some(tenant_id) => match tenant_check(claims, tenant_id) {
                Err(failure) => Err(failure),
                Ok(_) => Ok((claims, tenant_id)),
            },
        },
    }
}

/// What the admin guard of a tenant comes to: authentication first, then
/// the role rule, then the path, then the tenant rule.
pub open spec fn admin_tenant_scoped(
    principal: Result<ClaimsView, Failure>,
    tenant_id: Option<u128>,
) -> Result<(ClaimsView, u128), Failure> {
    tenant_scoped(admin_scoped(principal), tenant_id)
}

pub fn check_tenant_access(claims: &Claims, tenant_id: u128) -> (result: Result<(), AppError>)
    ensures
        outcome_of_unit(result) == tenant_check(claims@, tenant_id),
{
    if claims.tenant_id != tenant_id {
        return Err(AppError::Forbidden("ACCESS_DENIED_FOR_THIS_TENANT".to_string()));
    }
    Ok(())
}

pub fn check_role(claims: &Claims, required_role: UserRole) -> (result: Result<(), AppError>)
    ensures
        outcome_of_unit(result) == role_check(claims@, required_role),
{
    if claims.role != required_role {
        return Err(
            AppError::Forbidden(
                match required_role {
                    UserRole::Admin => "ADMIN_ROLE_REQUIRED".to_string(),
                    UserRole::Regular => "REGULAR_ROLE_REQUIRED".to_string(),
                },
            ),
        );
    }
    Ok(())
}

/// Both rules, the tenant rule first.
pub fn check_tenant_and_role(claims: &Claims, tenant_id: u128, required_role: UserRole) -> (result:
    Result<(), AppError>)
    ensures
        outcome_of_unit(result) == match tenant_check(claims@, tenant_id) {
            Err(failure) => Err(failure),
            Ok(_) => role_check(claims@, required_role),
        },
{
    match check_tenant_access(claims, tenant_id) {
        Err(error) => Err(error),
        Ok(_) => check_role(claims, required_role),
    }
}

impl AdminRole {
    /// The admin guard: lets an authenticated caller through where its
    /// claims state the `admin` role.
    pub fn from_request_parts(principal: Result<Claims, AppError>) -> (result: Result<
        AdminRole,
        AppError,
    >)
        ensures
            match admin_scoped(outcome(principal)) {
                Ok(claims) => result matches Ok(admin) && admin.0@ == claims,
                Err(failure) => result matches Err(error) && error@ == failure,
            },
    {
        match principal {
            Err(error) => Err(error),
            Ok(claims) => match check_role(&claims, UserRole::Admin) {
                Err(error) => Err(error),
                Ok(_) => Ok(AdminRole(claims)),
            },
        }
    }
}

impl TenantAccess {
    /// The tenant guard: lets an authenticated caller through where the
    /// path names a tenant and it is the caller's own. `tenant_id` is the
    /// tenant that the path names, `None` where it names none.
    pub fn from_request_parts(principal: Result<Claims, AppError>, tenant_id: Option<u128>) -> (result:
        Result<TenantAccess, AppError>)
        ensures
            match tenant_scoped(outcome(principal), tenant_id) {
                Ok(granted) => result matches Ok(access) && access.claims@ == granted.0
                    && access.tenant_id == granted.1,
                Err(failure) => result matches Err(error) && error@ == failure,
            },
    {
        match principal {
            Err(error) => Err(error),
            Ok(claims) => match tenant_id {
                None => Err(AppError::Validation("INVALID_TENANT_ID".to_string())),
                Some(tenant_id) => match check_tenant_access(&claims, tenant_id) {
                    Err(error) => Err(error),
                    Ok(_) => Ok(TenantAccess { claims, tenant_id }),
                },
            },
        }
    }
}

impl AdminRoleWithTenant {
    /// The admin guard of a tenant: lets an authenticated caller through
    /// where its claims state the `admin` role, the path names a tenant and
    /// it is the caller's own.
    pub fn from_request_parts(principal: Result<Claims, AppError>, tenant_id: Option<u128>) -> (result:
        Result<AdminRoleWithTenant, AppError>)
        ensures
            match admin_tenant_scoped(outcome(principal), tenant_id) {
                Ok(granted) => result matches Ok(access) && access.claims@ == granted.0
                    && access.tenant_id == granted.1,
                Err(failure) => result matches Err(error) && error@ == failure,
            },
    {
        match AdminRole::from_request_parts(principal) {
            Err(error) => Err(error),
            Ok(admin) => match TenantAccess::from_request_parts(Ok(admin.0), tenant_id) {
                Err(error) => Err(error),
                Ok(access) => Ok(
                    AdminRoleWithTenant { claims: access.claims, tenant_id: access.tenant_id },
                ),
            },
        }
    }
}

/// A caller whose token names one tenant is never let into another: both
/// tenant guards answer `Forbidden`, whatever else the token states. The
/// guards read nothing but the claims and the path, so the answer cannot
/// tell whether the other tenant exists.
pub proof fn lemma_foreign_tenant_forbidden(claims: ClaimsView, tenant_id: u128)
    requires
        claims.tenant_id != tenant_id,
    ensures
        tenant_scoped(Ok(claims), Some(tenant_id)) == Err::<(ClaimsView, u128), Failure>(
            other_tenant(),
        ),
        admin_tenant_scoped(Ok(claims), Some(tenant_id)) is Err,
        admin_tenant_scoped(Ok(claims), Some(tenant_id))->Err_0 is Forbidden,
        tenant_check(claims, tenant_id) == Err::<(), Failure>(other_tenant()),
{
}

/// Whoever passes the admin guard of a tenant holds the `admin` role in
/// exactly that tenant, and passes the plain tenant guard too.
pub proof fn lemma_admin_guard_is_stricter(
    principal: Result<ClaimsView, Failure>,
    tenant_id: Option<u128>,
)
    requires
        admin_tenant_scoped(principal, tenant_id) is Ok,
    ensures
        tenant_scoped(principal, tenant_id) == admin_tenant_scoped(principal, tenant_id),
        admin_tenant_scoped(principal, tenant_id)->Ok_0.0.role == UserRole::Admin,
        tenant_id == Some(admin_tenant_scoped(principal, tenant_id)->Ok_0.0.tenant_id),
{
}

} // verus!
