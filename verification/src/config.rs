//! The options of a run, and what the supervisor makes of them.

use crate::oracle::{
    make_check, made_from, override_permitted, overrides_permitted, rejection, ConfigError, Oracle,
};
use crate::supervisor::{worker_count, workers_for, Workers};
use vstd::prelude::*;

verus! {

/// The options of a run, as the command line gives them.
#[derive(Debug)]
pub struct Args {
    /// Percent of mutations that overwrite bytes at random.
    pub chaos: u8,
    /// Percent of mutations that delete an optional subtree.
    pub deletions: u8,
    /// Approximate ceiling on a mutant, in bytes.
    pub max_size: usize,
    /// Mutations per output.
    pub mutations: usize,
    /// Mutate bytes and ignore the grammar.
    pub radamsa: bool,
    /// Run one worker and show what the child writes.
    pub debug: bool,
    /// Exit codes that make a run interesting.
    pub interesting_exit_code: Vec<i32>,
    pub interesting_stdout: Option<String>,
    pub interesting_stderr: Option<String>,
    pub uninteresting_stdout: Option<String>,
    pub uninteresting_stderr: Option<String>,
    /// Workers asked for.
    pub jobs: usize,
    /// Directory to write to.
    pub output: String,
    /// Seed of the generator.
    pub seed: u64,
    /// Wall-clock limit on one run of the child, in milliseconds.
    pub timeout: u64,
    /// Directory of the seeds.
    pub files: String,
    /// The oracle's command line.
    pub check: Vec<String>,
}

impl Args {
    /// Each overriding pattern stands beside the pattern it overrides.
    pub open spec fn permitted(&self) -> bool {
        &&& override_permitted(self.interesting_stdout, self.uninteresting_stdout)
        &&& override_permitted(self.interesting_stderr, self.uninteresting_stderr)
    }

    /// The options that hold where the command line names only the seeds'
    /// directory, the oracle's command and the number of workers.
    pub fn with_defaults(files: String, check: Vec<String>, jobs: usize) -> (args: Args)
        ensures
            args.chaos == 5,
            args.deletions == 5,
            args.max_size == 1048576,
            args.mutations == 16,
            !args.radamsa,
            !args.debug,
            args.interesting_exit_code@.len() == 0,
            args.interesting_stdout is None,
            args.interesting_stderr is None,
            args.uninteresting_stdout is None,
            args.uninteresting_stderr is None,
            args.jobs == jobs,
            args.output@ == "tree-crasher.out"@,
            args.seed == 0,
            args.timeout == 500,
            args.files == files,
            args.check == check,
            args.permitted(),
    {
        Args {
            chaos: 5,
            deletions: 5,
            max_size: 1048576,
            mutations: 16,
            radamsa: false,
            debug: false,
            interesting_exit_code: Vec::new(),
            interesting_stdout: None,
            interesting_stderr: None,
            uninteresting_stdout: None,
            uninteresting_stderr: None,
            jobs,
            output: String::from_str("tree-crasher.out"),
            seed: 0,
            timeout: 500,
            files,
            check,
        }
    }

    /// Whether each overriding pattern stands beside the pattern it overrides.
    pub fn is_permitted(&self) -> (ok: bool)
        ensures
            ok == self.permitted(),
    {
        overrides_permitted(
            &self.interesting_stdout,
            &self.interesting_stderr,
            &self.uninteresting_stdout,
            &self.uninteresting_stderr,
        )
    }

    /// The workers that these options ask for.
    pub fn workers(&self) -> (workers: Workers)
        ensures
            workers == workers_for(self.debug, self.jobs, self.radamsa),
    {
        worker_count(self.debug, self.jobs, self.radamsa)
    }

    /// The oracle that these options describe; see `make_check`. In debug
    /// mode the child's output is shown.
    pub fn into_oracle(self) -> (made: Result<Oracle, ConfigError>)
        requires
            self.permitted(),
        ensures
            made is Err <==> rejection(
                self.check@,
                self.interesting_stdout,
                self.interesting_stderr,
                self.uninteresting_stdout,
                self.uninteresting_stderr,
            ) is Some,
            made is Err ==> Some(made->Err_0) == rejection(
                self.check@,
                self.interesting_stdout,
                self.interesting_stderr,
                self.uninteresting_stdout,
                self.uninteresting_stderr,
            ),
            made is Ok ==> made_from(
                made->Ok_0,
                self.debug,
                self.timeout,
                self.check@,
                self.interesting_exit_code@,
                self.interesting_stdout,
                self.interesting_stderr,
                self.uninteresting_stdout,
                self.uninteresting_stderr,
            ),
    {
        make_check(
            self.debug,
            self.timeout,
            self.check,
            self.interesting_exit_code,
            self.interesting_stdout,
            self.interesting_stderr,
            self.uninteresting_stdout,
            self.uninteresting_stderr,
        )
    }
}

} // verus!
