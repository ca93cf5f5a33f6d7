//! The health of the server.

use crate::models::HealthStatus;
use vstd::prelude::*;

verus! {

/// The status of a server of the given version that has been up for
/// `uptime_seconds`.
pub fn health_check(version: &str, uptime_seconds: u64) -> (status: HealthStatus)
    ensures
        status.status@ == "healthy"@,
        status.version@ == version@,
        status.uptime_seconds == uptime_seconds,
        status.active_tests == 0,
{
    HealthStatus {
        status: String::from_str("healthy"),
        version: String::from_str(version),
        uptime_seconds,
        active_tests: 0,
    }
}

} // verus!
