//! What the oracle concluded about one candidate.

use vstd::prelude::*;

verus! {

/// The signal number of an abort, which is reported as an exit code.
pub const ABORT_SIGNAL: i32 = 6;

/// The exit code reported for a child that left none.
pub const NO_EXIT_CODE: i32 = -1;

/// Why a run was found interesting.
#[derive(Clone, Copy, Debug, PartialEq, Eq, Structural)]
pub enum Cause {
    /// The child's exit code; `-1` where it left none.
    ExitCode(i32),
    /// The signal that ended the child; never the abort signal.
    Signal(i32),
}

/// The oracle's conclusion about one candidate.
#[derive(Clone, Copy, Debug, PartialEq, Eq, Structural)]
pub enum Verdict {
    Uninteresting,
    Interesting(Cause),
}

} // verus!
