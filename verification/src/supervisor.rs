//! What the supervisor decides before the workers start.

use vstd::prelude::*;

verus! {

/// How many workers run, and whether the user is warned about it.
#[derive(Clone, Copy, Debug, PartialEq, Eq, Structural)]
pub struct Workers {
    pub count: usize,
    pub warn: bool,
}

/// The workers for these options: one in debug mode and in byte-level mode,
/// else as many as were asked for. The user is warned where the byte-level
/// mode allows fewer than were asked for.
pub open spec fn workers_for(debug: bool, jobs: usize, byte_level: bool) -> Workers {
    Workers {
        count: if debug || byte_level {
            1
        } else {
            jobs
        },
        warn: byte_level && jobs > 1,
    }
}

/// Decides how many workers run.
pub fn worker_count(debug: bool, jobs: usize, byte_level: bool) -> (workers: Workers)
    ensures
        workers == workers_for(debug, jobs, byte_level),
{
    Workers { count: if debug || byte_level { 1 } else { jobs }, warn: byte_level && jobs > 1 }
}

} // verus!
