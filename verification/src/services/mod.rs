pub mod auth_service;
pub mod tenants_service;
pub mod users_service;
