pub mod health;

pub use health::{health_check, HealthResponse};
