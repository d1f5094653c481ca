use crate::db::{first_tenant, tenant_views, MemoryStore, Query, Reply};
use crate::models::tenants;
use crate::utils::error::{AppError, Failure};
use vstd::prelude::*;

verus! {

/// The read paths of tenants.
pub struct TenantsService;

/// What the listing of tenants comes to on the store's `reply`.
pub open spec fn listed(reply: Reply, result: Result<Vec<tenants::Model>, AppError>) -> bool {
    match reply {
        Reply::Tenants(all) => result matches Ok(tenants) && tenant_views(tenants@)
            == tenant_views(all@),
        Reply::Failed(cause) => result matches Err(error) && error@ == Failure::Database(cause@),
        _ => result matches Err(error) && error == AppError::Internal,
    }
}

/// What the lookup of one tenant comes to on the store's `reply`.
pub open spec fn looked_up(reply: Reply, result: Result<tenants::Model, AppError>) -> bool {
    match reply {
        Reply::Tenant(Some(tenant)) => result matches Ok(found) && found@ == tenant@,
        Reply::Tenant(None) => result matches Err(error) && error == AppError::TenantNotFound,
        Reply::Failed(cause) => result matches Err(error) && error@ == Failure::Database(cause@),
        _ => result matches Err(error) && error == AppError::Internal,
    }
}

impl TenantsService {
    /// Decides the listing of tenants from the store's reply.
    pub fn list_result(reply: Reply) -> (result: Result<Vec<tenants::Model>, AppError>)
        ensures
            listed(reply, result),
    {
        match reply {
            Reply::Tenants(all) => Ok(all),
            Reply::Failed(cause) => Err(AppError::Database(cause)),
            _ => Err(AppError::Internal),
        }
    }

    /// Decides the lookup of one tenant from the store's reply.
    pub fn get_result(reply: Reply) -> (result: Result<tenants::Model, AppError>)
        ensures
            looked_up(reply, result),
    {
        match reply {
            Reply::Tenant(Some(tenant)) => Ok(tenant),
            Reply::Tenant(None) => Err(AppError::TenantNotFound),
            Reply::Failed(cause) => Err(AppError::Database(cause)),
            _ => Err(AppError::Internal),
        }
    }

    /// All tenants, in the order of the store, with the store in memory.
    pub fn list_all(db: &mut MemoryStore) -> (result: Result<Vec<tenants::Model>, AppError>)
        ensures
            final(db)@ == old(db)@,
            result matches Ok(all) && tenant_views(all@) == old(db)@.tenants,
    {
        Self::list_result(db.execute(Query::ListTenants))
    }

    /// The tenant of the identifier `tenant_id`, or `TenantNotFound`, with
    /// the store in memory.
    pub fn get_by_id(db: &mut MemoryStore, tenant_id: u128) -> (result: Result<
        tenants::Model,
        AppError,
    >)
        ensures
            final(db)@ == old(db)@,
            match first_tenant(old(db)@.tenants, tenant_id) {
                Some(tenant) => result matches Ok(found) && found@ == tenant,
                None => result matches Err(error) && error == AppError::TenantNotFound,
            },
    {
        Self::get_result(db.execute(Query::FindTenant(tenant_id)))
    }
}

} // verus!
