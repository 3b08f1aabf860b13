//! The health report handed to the caller of the health route.

use vstd::prelude::*;

verus! {

/// The externally visible health report.
pub struct HealthCheck {
    /// A flag which indicates if the database is healthy or not.
    pub database_healthy: bool,
    /// A flag which indicates if the backend itself is healthy or not.
    pub backend_healthy: bool,
}

/// The health decision: a reachable database means a fully healthy
/// report; an unreachable one yields no partial report at all, so the
/// route answers with an internal failure instead.
pub fn check_backend_health(database_is_healthy: bool) -> (r: Option<HealthCheck>)
    ensures
        match r {
            Some(h) => database_is_healthy && h.database_healthy && h.backend_healthy,
            None => !database_is_healthy,
        },
{
    if database_is_healthy {
        Some(HealthCheck { database_healthy: true, backend_healthy: true })
    } else {
        None
    }
}

} // verus!
