pub mod app;
pub mod cors;
pub mod database;

pub use app::Config;
pub use cors::create_cors_layer;
pub use database::DatabaseConfig;
