use vstd::prelude::*;

verus! {

/// Seconds between two heartbeats of the service.
pub const HEARTBEAT_SECS: u64 = 10;

/// Number of the last heartbeat after which the service stops.
pub const LAST_HEARTBEAT: u64 = 100;

/// After heartbeat `count`, the number of the next one, or none when the
/// service is to stop.
pub fn next_heartbeat(count: u64) -> (r: Option<u64>)
    ensures
        count < LAST_HEARTBEAT ==> r == Some((count + 1) as u64),
        count >= LAST_HEARTBEAT ==> r is None,
{
    if count < LAST_HEARTBEAT {
        Some(count + 1)
    } else {
        None
    }
}

} // verus!
