use crate::utils::error::AppError;
use vstd::prelude::*;

verus! {

/// What the health endpoint reports.
#[derive(Debug, PartialEq, Eq)]
pub struct HealthResponse {
    pub status: String,
    pub database: String,
}

/// Decides the answer of the health endpoint from whether the database
/// answered a probe: a report of good health, or `ServiceUnavailable`.
pub fn health_check(database_answered: bool) -> (result: Result<HealthResponse, AppError>)
    ensures
        database_answered ==> (result matches Ok(report) && report.status@ == "healthy"@
            && report.database@ == "connected"@),
        !database_answered ==> (result matches Err(error) && error
            == AppError::ServiceUnavailable),
{
    if database_answered {
        Ok(HealthResponse { status: "healthy".to_string(), database: "connected".to_string() })
    } else {
        Err(AppError::ServiceUnavailable)
    }
}

} // verus!
