//! What holds of the oracle and of the crash files on every input.

use crate::oracle::{Oracle, RunResult, Termination};
use crate::outside::{is_uuid_text, lossy_text, regex_matches};
use regex::Regex;
use crate::triage::{artefact_name, suffix, ArtefactKind};
use crate::verdict::{Cause, Verdict};
use vstd::prelude::*;

verus! {

/// A run that ran out of time is never interesting, whatever was captured.
pub proof fn lemma_timeout_is_uninteresting(oracle: Oracle, run: RunResult)
    requires
        run.termination == Termination::TimedOut,
    ensures
        oracle.verdict_of(run) == Verdict::Uninteresting,
{
}

/// A child that a signal ended is always interesting, whatever the oracle
/// lists and whatever was captured.
pub proof fn lemma_signal_is_interesting(oracle: Oracle, run: RunResult)
    requires
        run.termination is Killed,
    ensures
        oracle.verdict_of(run) is Interesting,
{
}

/// An exit code from 128 up to 255 is interesting to every well-formed
/// oracle, whatever was captured.
pub proof fn lemma_signal_exit_is_interesting(oracle: Oracle, run: RunResult, code: i32)
    requires
        oracle.wf(),
        run.termination == Termination::Exited(code),
        128 <= code < 256,
    ensures
        oracle.verdict_of(run) == Verdict::Interesting(Cause::ExitCode(code)),
{
    assert(oracle.exit_codes@.contains(code));
}

/// An overriding pattern that matches a stream keeps that stream from
/// marking the run.
pub proof fn lemma_override_wins(
    interesting: Option<Regex>,
    uninteresting: Option<Regex>,
    capture: Seq<u8>,
)
    requires
        uninteresting is Some,
        regex_matches(uninteresting->0, lossy_text(capture)),
    ensures
        !crate::oracle::stream_interesting(interesting, uninteresting, capture),
{
}

/// The files of two crashes never share a name: a name gives back the
/// identifier and the kind it was made from.
pub proof fn lemma_names_are_distinct(
    id1: Seq<char>,
    kind1: ArtefactKind,
    id2: Seq<char>,
    kind2: ArtefactKind,
)
    requires
        is_uuid_text(id1),
        is_uuid_text(id2),
        artefact_name(id1, kind1) == artefact_name(id2, kind2),
    ensures
        id1 == id2,
        kind1 == kind2,
{
    reveal_strlit("crash-");
    reveal_strlit(".out");
    reveal_strlit(".stdout");
    reveal_strlit(".stderr");
    reveal_strlit(".reduced.out");
    let n1 = artefact_name(id1, kind1);
    let n2 = artefact_name(id2, kind2);
    assert forall|i: int| 0 <= i < 36 implies id1[i] == id2[i] by {
        assert(n1[6 + i] == id1[i]);
        assert(n2[6 + i] == id2[i]);
    }
    assert(id1 =~= id2);
    assert(n1.len() == 42 + suffix(kind1).len());
    assert(n2.len() == 42 + suffix(kind2).len());
    if suffix(kind1).len() == 7 {
        assert(n1[46int] == suffix(kind1)[4int]);
        assert(n2[46int] == suffix(kind2)[4int]);
    }
}

} // verus!
