pub mod tenant_status;
pub mod user_role;
pub mod user_status;

pub use tenant_status::TenantStatus;
pub use user_role::UserRole;
pub use user_status::UserStatus;
