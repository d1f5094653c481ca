use crate::config::app::Config;
use crate::utils::text::same_text;
use vstd::prelude::*;

verus! {

/// Which origins may call the server from a browser.
#[derive(Debug, PartialEq, Eq)]
pub enum CorsOrigin {
    /// Every origin.
    Any,
    /// This origin alone.
    Exact(String),
    /// No origin.
    Nothing,
}

/// Whether `environment` names a development set-up.
pub open spec fn is_development(environment: Seq<char>) -> bool {
    environment == "dev"@ || environment == "development"@
}

/// Tells whether `environment` names a development set-up.
pub fn development(environment: &str) -> (dev: bool)
    ensures
        dev == is_development(environment@),
{
    same_text(environment, "dev") || same_text(environment, "development")
}

/// Decides which origins may call the server: every origin in development;
/// elsewhere the configured front end alone, and none where no front end is
/// configured or its address cannot stand in a header.
/// `frontend_url_is_header_value` tells whether it can.
pub fn create_cors_layer(config: &Config, frontend_url_is_header_value: bool) -> (origin:
    CorsOrigin)
    ensures
        is_development(config.environment@) ==> origin == CorsOrigin::Any,
        !is_development(config.environment@) ==> match config.frontend_url {
            Some(url) => if frontend_url_is_header_value {
                origin matches CorsOrigin::Exact(allowed) && allowed@ == url@
            } else {
                origin == CorsOrigin::Nothing
            },
            None => origin == CorsOrigin::Nothing,
        },
{
    if development(config.environment.as_str()) {
        CorsOrigin::Any
    } else {
        match &config.frontend_url {
            Some(url) => if frontend_url_is_header_value {
                CorsOrigin::Exact(url.clone())
            } else {
                CorsOrigin::Nothing
            },
            None => CorsOrigin::Nothing,
        }
    }
}

} // verus!
