pub mod common;
pub mod tenants;
pub mod users;
