use template_rust_backend::db::{MemoryStore, Query, Reply, UserKey};
use template_rust_backend::enums::{TenantStatus, UserRole, UserStatus};
use template_rust_backend::models::common::DateTimeString;
use template_rust_backend::models::{tenants, users};
use template_rust_backend::services::tenants_service::TenantsService;
use template_rust_backend::services::users_service::{UserFlow, UserStep, UsersService};
use template_rust_backend::utils::error::AppError;

fn at(seconds: i64) -> DateTimeString {
    DateTimeString::from_unix_seconds(seconds)
}

fn user(id: u128, tenant_id: u128, email: &str) -> users::Model {
    users::Model {
        id,
        tenant_id,
        email: email.to_string(),
        password_hash: "$hash".to_string(),
        role: UserRole::Regular,
        status: UserStatus::Active,
        created_at: at(1),
        updated_at: at(2),
    }
}

fn tenant(id: u128, name: &str) -> tenants::Model {
    tenants::Model {
        id,
        name: name.to_string(),
        status: TenantStatus::Active,
        created_at: at(1),
        updated_at: at(1),
    }
}

fn store() -> MemoryStore {
    MemoryStore {
        users: vec![user(1, 10, "a@x.com"), user(2, 10, "b@x.com"), user(3, 20, "a@x.com")],
        tenants: vec![tenant(10, "Acme"), tenant(20, "Globex")],
    }
}

#[test]
fn store_finds_the_first_user_that_a_key_admits() {
    let db = store();
    let email = |email: &str| UserKey::Email { email: email.to_string() };
    assert_eq!(db.find_user(&email("a@x.com")), Some(user(1, 10, "a@x.com")));
    assert_eq!(db.find_user(&email("c@x.com")), None);
    assert_eq!(
        db.find_user(&UserKey::EmailAndTenant { email: "a@x.com".to_string(), tenant_id: 20 }),
        Some(user(3, 20, "a@x.com"))
    );
    assert_eq!(
        db.find_user(&UserKey::EmailAndTenant { email: "b@x.com".to_string(), tenant_id: 20 }),
        None
    );
    assert_eq!(db.find_user(&UserKey::Id { id: 2 }), Some(user(2, 10, "b@x.com")));
    assert_eq!(db.find_user(&UserKey::IdAndTenant { id: 2, tenant_id: 20 }), None);
    assert_eq!(db.find_user(&UserKey::Tenant { tenant_id: 20 }), Some(user(3, 20, "a@x.com")));
    assert_eq!(db.find_user(&UserKey::Tenant { tenant_id: 30 }), None);
    assert_eq!(MemoryStore::new().find_user(&UserKey::Id { id: 1 }), None);
}

#[test]
fn store_answers_each_query() {
    let mut db = store();
    assert_eq!(
        db.execute(Query::FindUser(UserKey::Id { id: 3 })),
        Reply::User(Some(user(3, 20, "a@x.com")))
    );
    assert_eq!(db.execute(Query::FindTenant(20)), Reply::Tenant(Some(tenant(20, "Globex"))));
    assert_eq!(db.execute(Query::FindTenant(30)), Reply::Tenant(None));
    assert_eq!(
        db.execute(Query::ListTenants),
        Reply::Tenants(vec![tenant(10, "Acme"), tenant(20, "Globex")])
    );
    assert_eq!(
        db.execute(Query::InsertUser(user(4, 20, "d@x.com"))),
        Reply::Saved(user(4, 20, "d@x.com"))
    );
    assert_eq!(db.users.len(), 4);
    assert_eq!(db.users[3], user(4, 20, "d@x.com"));
    let mut renamed = user(2, 10, "b2@x.com");
    renamed.role = UserRole::Admin;
    assert_eq!(db.execute(Query::UpdateUser(renamed.clone())), Reply::Saved(renamed.clone()));
    assert_eq!(db.users[1], renamed);
    assert_eq!(db.users[0], user(1, 10, "a@x.com"));
    assert_eq!(db.execute(Query::UpdateUser(user(9, 10, "z@x.com"))), Reply::User(None));
    assert_eq!(db.execute(Query::UpdateUser(user(3, 10, "z@x.com"))), Reply::User(None));
    assert_eq!(db.users[2], user(3, 20, "a@x.com"));
    assert_eq!(db.users.len(), 4);
}

#[test]
fn status_toggles_between_active_and_inactive() {
    let mut db = store();
    let off = UsersService::change_user_status(&mut db, 2, 10).unwrap();
    let mut expected = user(2, 10, "b@x.com");
    expected.status = UserStatus::Inactive;
    assert_eq!(off, expected);
    assert_eq!(db.users[1], expected);
    let on = UsersService::change_user_status(&mut db, 2, 10).unwrap();
    assert_eq!(on, user(2, 10, "b@x.com"));
    assert_eq!(db, store());
}

#[test]
fn role_toggles_between_regular_and_admin() {
    let mut db = store();
    let up = UsersService::change_role(&mut db, 1, 10).unwrap();
    assert_eq!(up.role, UserRole::Admin);
    assert_eq!(up.status, UserStatus::Active);
    assert_eq!(db.users[0].role, UserRole::Admin);
    assert_eq!(db.users[1], user(2, 10, "b@x.com"));
    let down = UsersService::change_role(&mut db, 1, 10).unwrap();
    assert_eq!(down.role, UserRole::Regular);
    assert_eq!(db, store());
}

#[test]
fn user_of_another_tenant_is_not_found() {
    let mut db = store();
    assert_eq!(UsersService::change_user_status(&mut db, 3, 10), Err(AppError::UserNotFound));
    assert_eq!(UsersService::change_role(&mut db, 3, 10), Err(AppError::UserNotFound));
    assert_eq!(UsersService::change_role(&mut db, 99, 10), Err(AppError::UserNotFound));
    assert_eq!(db, store());
}

#[test]
fn change_of_a_user_step_by_step() {
    assert_eq!(
        UsersService::begin_change_user_status(2, 10),
        UserStep::Ask(
            UserFlow::StatusLookup,
            Query::FindUser(UserKey::IdAndTenant { id: 2, tenant_id: 10 })
        )
    );
    assert_eq!(
        UsersService::begin_change_role(2, 10),
        UserStep::Ask(
            UserFlow::RoleLookup,
            Query::FindUser(UserKey::IdAndTenant { id: 2, tenant_id: 10 })
        )
    );
    let mut admin = user(2, 10, "b@x.com");
    admin.role = UserRole::Admin;
    assert_eq!(
        UsersService::resume(UserFlow::RoleLookup, Reply::User(Some(user(2, 10, "b@x.com")))),
        UserStep::Ask(UserFlow::Saving, Query::UpdateUser(admin.clone()))
    );
    assert_eq!(
        UsersService::resume(UserFlow::Saving, Reply::Saved(admin.clone())),
        UserStep::Done(Ok(admin))
    );
    assert_eq!(
        UsersService::resume(UserFlow::StatusLookup, Reply::User(None)),
        UserStep::Done(Err(AppError::UserNotFound))
    );
    assert_eq!(
        UsersService::resume(UserFlow::Saving, Reply::User(None)),
        UserStep::Done(Err(AppError::UserNotFound))
    );
    assert_eq!(
        UsersService::resume(UserFlow::Saving, Reply::Failed("down".to_string())),
        UserStep::Done(Err(AppError::Database("down".to_string())))
    );
    assert_eq!(
        UsersService::resume(UserFlow::StatusLookup, Reply::Tenant(None)),
        UserStep::Done(Err(AppError::Internal))
    );
    assert_eq!(
        UsersService::resume(UserFlow::Saving, Reply::User(Some(user(2, 10, "b@x.com")))),
        UserStep::Done(Err(AppError::Internal))
    );
}

#[test]
fn tenants_are_listed_and_looked_up() {
    let mut db = store();
    assert_eq!(
        TenantsService::list_all(&mut db),
        Ok(vec![tenant(10, "Acme"), tenant(20, "Globex")])
    );
    assert_eq!(TenantsService::get_by_id(&mut db, 20), Ok(tenant(20, "Globex")));
    assert_eq!(TenantsService::get_by_id(&mut db, 30), Err(AppError::TenantNotFound));
    assert_eq!(TenantsService::list_all(&mut MemoryStore::new()), Ok(vec![]));
    assert_eq!(db, store());
}

#[test]
fn tenant_results_from_replies() {
    assert_eq!(
        TenantsService::get_result(Reply::Failed("down".to_string())),
        Err(AppError::Database("down".to_string()))
    );
    assert_eq!(TenantsService::get_result(Reply::User(None)), Err(AppError::Internal));
    assert_eq!(TenantsService::get_result(Reply::Tenant(None)), Err(AppError::TenantNotFound));
    assert_eq!(
        TenantsService::list_result(Reply::Failed("down".to_string())),
        Err(AppError::Database("down".to_string()))
    );
    assert_eq!(TenantsService::list_result(Reply::Tenant(None)), Err(AppError::Internal));
    assert_eq!(
        TenantsService::list_result(Reply::Tenants(vec![tenant(1, "One")])),
        Ok(vec![tenant(1, "One")])
    );
}

#[test]
fn profile_leaves_out_the_password_hash() {
    let model = user(1, 10, "a@x.com");
    let profile = model.profile();
    assert_eq!(
        profile,
        users::Profile {
            id: 1,
            tenant_id: 10,
            email: "a@x.com".to_string(),
            role: UserRole::Regular,
            status: UserStatus::Active,
            created_at: at(1),
            updated_at: at(2),
        }
    );
    assert!(!format!("{profile:?}").contains("$hash"));
}

#[test]
fn user_results_from_replies() {
    assert_eq!(
        UsersService::found(Reply::User(Some(user(1, 10, "a@x.com")))),
        Ok(user(1, 10, "a@x.com"))
    );
    assert_eq!(UsersService::found(Reply::User(None)), Err(AppError::UserNotFound));
    assert_eq!(
        UsersService::found(Reply::Failed("down".to_string())),
        Err(AppError::Database("down".to_string()))
    );
    assert_eq!(UsersService::found(Reply::Tenants(vec![])), Err(AppError::Internal));
}

#[test]
fn change_stays_within_the_tenant_where_identifiers_collide() {
    let mut db = MemoryStore {
        users: vec![user(5, 1, "a@x.com"), user(5, 2, "b@x.com"), user(6, 2, "c@x.com")],
        tenants: vec![],
    };
    let changed = UsersService::change_user_status(&mut db, 5, 2).unwrap();
    assert_eq!(changed.email, "b@x.com");
    assert_eq!(changed.status, UserStatus::Inactive);
    assert_eq!(db.users[0], user(5, 1, "a@x.com"));
    assert_eq!(db.users[1], changed);
    assert_eq!(db.users[2], user(6, 2, "c@x.com"));
    let promoted = UsersService::change_role(&mut db, 5, 1).unwrap();
    assert_eq!(promoted.email, "a@x.com");
    assert_eq!(db.users[0].role, UserRole::Admin);
    assert_eq!(db.users[1].role, UserRole::Regular);
}
