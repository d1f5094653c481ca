pub mod auth;
pub mod error;
pub mod text;

pub use auth::{AdminRole, AdminRoleWithTenant, TenantAccess};
