//! Authentication and authorization core of a multi-tenant backend:
//! credential hashing, signed session tokens, request guards, the
//! registration / login / refresh flows and the error taxonomy, with
//! machine-checked contracts.

pub mod config;
pub mod db;
pub mod enums;
pub mod handlers;
pub mod middleware;
pub mod models;
pub mod services;
pub mod trusted;
pub mod utils;
