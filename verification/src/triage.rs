//! What follows a run of the oracle: which files record a crash, and when the
//! reducer is asked to shrink the input.

use crate::oracle::{Oracle, RunResult, Termination};
use crate::outside::{fresh_uuid_text, is_uuid_text};
use crate::verdict::{Cause, Verdict, NO_EXIT_CODE};
use vstd::prelude::*;

verus! {

/// The files that record one crash.
#[derive(Clone, Copy, Debug, PartialEq, Eq, Structural)]
pub enum ArtefactKind {
    /// The input that was handed to the child.
    Input,
    /// What the child wrote to standard output.
    Stdout,
    /// What the child wrote to standard error.
    Stderr,
    /// The input after reduction.
    Reduced,
}

/// A file to write: its name and its contents.
#[derive(Debug)]
pub struct Artefact {
    pub name: String,
    pub bytes: Vec<u8>,
}

/// What to tell the user about an interesting run.
#[derive(Clone, Copy, Debug, PartialEq, Eq, Structural)]
pub enum Notice {
    /// The run was interesting by its exit code or its output.
    Interesting,
    /// This signal ended the child.
    Signal(i32),
}

/// What came of starting the child.
#[derive(Debug)]
pub enum RunEvent {
    /// The child could not be started.
    SpawnFailed,
    /// The child ran, or ran out of time.
    Finished(RunResult),
}

/// What the worker does after a run.
#[derive(Debug)]
pub enum Step {
    /// Nothing is left to do for this candidate.
    Done { code: i32 },
    /// Tell the user, then write these files; only when all are written may
    /// the reducer start.
    Persist { code: i32, notice: Notice, id: String, files: Vec<Artefact> },
}

/// How the reducer is to be run on a crash.
#[derive(Clone, Copy, Debug, PartialEq, Eq, Structural)]
pub struct ReduceSettings {
    pub delete_non_optional: bool,
    pub jobs: usize,
    pub min_reduction: usize,
    pub max_passes: usize,
}

/// The end of a file's name, by its kind.
pub open spec fn suffix(kind: ArtefactKind) -> Seq<char> {
    match kind {
        ArtefactKind::Input => ".out"@,
        ArtefactKind::Stdout => ".stdout"@,
        ArtefactKind::Stderr => ".stderr"@,
        ArtefactKind::Reduced => ".reduced.out"@,
    }
}

/// The name of the file of this kind for the crash `id`.
pub open spec fn artefact_name(id: Seq<char>, kind: ArtefactKind) -> Seq<char> {
    "crash-"@ + id + suffix(kind)
}

/// The artefact is the file of this kind for the crash `id`, with these
/// contents.
pub open spec fn records(a: Artefact, id: Seq<char>, kind: ArtefactKind, bytes: Seq<u8>) -> bool {
    a.name@ == artefact_name(id, kind) && a.bytes@ == bytes
}

/// The code that a run reports: the child's exit code, `-1` where it left none.
pub open spec fn reported_code(termination: Termination) -> i32 {
    match termination {
        Termination::Exited(c) => c,
        _ => NO_EXIT_CODE,
    }
}

/// What the user is told for each cause.
pub open spec fn notice_for(cause: Cause) -> Notice {
    match cause {
        Cause::ExitCode(_) => Notice::Interesting,
        Cause::Signal(s) => Notice::Signal(s),
    }
}

/// The settings of every reduction: any node may be deleted, one thread,
/// reductions of at least two bytes, at most eight passes.
pub open spec fn standard_reduction() -> ReduceSettings {
    ReduceSettings { delete_non_optional: true, jobs: 1, min_reduction: 2, max_passes: 8 }
}

/// The name of the file of this kind for the crash `id`.
pub fn name_artefact(id: &str, kind: ArtefactKind) -> (name: String)
    ensures
        name@ == artefact_name(id@, kind),
{
    let mut name = String::from_str("crash-");
    name.append(id);
    match kind {
        ArtefactKind::Input => name.append(".out"),
        ArtefactKind::Stdout => name.append(".stdout"),
        ArtefactKind::Stderr => name.append(".stderr"),
        ArtefactKind::Reduced => name.append(".reduced.out"),
    }
    name
}

/// The three files that record a crash, in the order in which they are
/// written: the input exactly as the child got it, then both captures.
pub fn crash_artefacts(id: &str, input: Vec<u8>, stdout: Vec<u8>, stderr: Vec<u8>) -> (files: Vec<
    Artefact,
>)
    ensures
        files@.len() == 3,
        records(files@[0], id@, ArtefactKind::Input, input@),
        records(files@[1], id@, ArtefactKind::Stdout, stdout@),
        records(files@[2], id@, ArtefactKind::Stderr, stderr@),
{
    let mut files: Vec<Artefact> = Vec::new();
    files.push(Artefact { name: name_artefact(id, ArtefactKind::Input), bytes: input });
    files.push(Artefact { name: name_artefact(id, ArtefactKind::Stdout), bytes: stdout });
    files.push(Artefact { name: name_artefact(id, ArtefactKind::Stderr), bytes: stderr });
    files
}

/// The code that a run reports.
pub fn code_of(termination: Termination) -> (code: i32)
    ensures
        code == reported_code(termination),
{
    match termination {
        Termination::Exited(c) => c,
        _ => NO_EXIT_CODE,
    }
}

/// Decides what follows a run of the child on `input`. A child that did not
/// start, and a run that is not interesting, end the matter. An interesting
/// run gets a fresh identifier and its three files, the input unchanged.
pub fn after_run(oracle: &Oracle, input: Vec<u8>, event: RunEvent) -> (step: Step)
    ensures
        match event {
            RunEvent::SpawnFailed => step matches Step::Done { code } && code == NO_EXIT_CODE,
            RunEvent::Finished(run) => match oracle.verdict_of(run) {
                Verdict::Uninteresting => step matches Step::Done { code } && code == reported_code(
                    run.termination,
                ),
                Verdict::Interesting(cause) => step matches Step::Persist {
                    code,
                    notice,
                    id,
                    files,
                } && {
                    &&& code == reported_code(run.termination)
                    &&& notice == notice_for(cause)
                    &&& is_uuid_text(id@)
                    &&& files@.len() == 3
                    &&& records(files@[0], id@, ArtefactKind::Input, input@)
                    &&& records(files@[1], id@, ArtefactKind::Stdout, run.stdout@)
                    &&& records(files@[2], id@, ArtefactKind::Stderr, run.stderr@)
                },
            },
        },
{
    match event {
        RunEvent::SpawnFailed => Step::Done { code: NO_EXIT_CODE },
        RunEvent::Finished(run) => {
            let verdict = oracle.classify(&run);
            let code = code_of(run.termination);
            match verdict {
                Verdict::Uninteresting => Step::Done { code },
                Verdict::Interesting(cause) => {
                    let notice = match cause {
                        Cause::ExitCode(_) => Notice::Interesting,
                        Cause::Signal(s) => Notice::Signal(s),
                    };
                    let id = fresh_uuid_text();
                    let files = crash_artefacts(id.as_str(), input, run.stdout, run.stderr);
                    Step::Persist { code, notice, id, files }
                },
            }
        },
    }
}

/// Decides what follows the writing of a crash's three files: the reducer
/// starts, with the standard settings, if and only if all were written.
pub fn after_persist(all_written: bool) -> (go: Option<ReduceSettings>)
    ensures
        go == if all_written {
            Some(standard_reduction())
        } else {
            None
        },
{
    if all_written {
        Some(ReduceSettings { delete_non_optional: true, jobs: 1, min_reduction: 2, max_passes: 8 })
    } else {
        None
    }
}

/// Decides what follows a reduction: where it gave a result, the file that
/// records it; where it failed, nothing.
pub fn after_reduce(id: &str, reduced: Option<Vec<u8>>) -> (file: Option<Artefact>)
    ensures
        file is Some <==> reduced is Some,
        file is Some ==> records(file->0, id@, ArtefactKind::Reduced, reduced->0@),
{
    match reduced {
        Some(bytes) => Some(Artefact { name: name_artefact(id, ArtefactKind::Reduced), bytes }),
        None => None,
    }
}

} // verus!
