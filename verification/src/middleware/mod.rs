pub mod auth;
pub mod validation;

pub use validation::validate_request;
