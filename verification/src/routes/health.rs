//! The health report.
use vstd::prelude::*;

verus! {

/// The word and the HTTP status that report the state of the two back ends:
/// `healthy` and 200 when both answer, `unhealthy` and 503 otherwise.
pub fn health_status(db_healthy: bool, redis_healthy: bool) -> (r: (&'static str, u16))
    ensures
        db_healthy && redis_healthy ==> r.0@ == "healthy"@ && r.1 == 200,
        !(db_healthy && redis_healthy) ==> r.0@ == "unhealthy"@ && r.1 == 503,
{
    if db_healthy && redis_healthy {
        ("healthy", 200)
    } else {
        ("unhealthy", 503)
    }
}

} // verus!
