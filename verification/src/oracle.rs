//! The interestingness oracle: how it is configured, and how one run of the
//! child is classified.

use crate::outside::{
    compile, decode_lossy, is_match, lossy_text, regex_accepts, regex_matches, regex_text,
};
use regex::Regex;
use crate::patterns::{
    default_interesting, default_interesting_pattern, default_uninteresting,
    default_uninteresting_pattern,
};
use crate::verdict::{Cause, Verdict, ABORT_SIGNAL, NO_EXIT_CODE};
use vstd::prelude::*;

verus! {

/// The first exit code that stands for death by a signal.
pub const SIGNAL_EXIT_FIRST: i32 = 128;

/// One past the last exit code that stands for death by a signal.
pub const SIGNAL_EXIT_END: i32 = 256;

/// Why an oracle could not be built.
#[derive(Clone, Copy, Debug, PartialEq, Eq, Structural)]
pub enum ConfigError {
    /// The oracle command is empty.
    EmptyCommand,
    /// The pattern for interesting standard output does not compile.
    InvalidInterestingStdout,
    /// The pattern for interesting standard error does not compile.
    InvalidInterestingStderr,
    /// The overriding pattern for standard output does not compile.
    InvalidUninterestingStdout,
    /// The overriding pattern for standard error does not compile.
    InvalidUninterestingStderr,
    /// The default pattern for interesting standard output does not compile.
    InvalidDefaultInterestingStdout,
    /// The default pattern for interesting standard error does not compile.
    InvalidDefaultInterestingStderr,
    /// The default overriding pattern for standard output does not compile.
    InvalidDefaultUninterestingStdout,
    /// The default overriding pattern for standard error does not compile.
    InvalidDefaultUninterestingStderr,
}

/// What the user is told for each error.
pub open spec fn message_of(e: ConfigError) -> Seq<char> {
    match e {
        ConfigError::EmptyCommand => "Internal error: empty interestingness check!"@,
        ConfigError::InvalidInterestingStdout => "Invalid interesting stdout regex"@,
        ConfigError::InvalidInterestingStderr => "Invalid interesting stderr regex"@,
        ConfigError::InvalidUninterestingStdout => "Invalid uninteresting stdout regex"@,
        ConfigError::InvalidUninterestingStderr => "Invalid uninteresting stderr regex"@,
        ConfigError::InvalidDefaultInterestingStdout => "Invalid default interesting stdout regex"@,
        ConfigError::InvalidDefaultInterestingStderr => "Invalid default interesting stderr regex"@,
        ConfigError::InvalidDefaultUninterestingStdout =>
            "Invalid default uninteresting stdout regex"@,
        ConfigError::InvalidDefaultUninterestingStderr =>
            "Invalid default uninteresting stderr regex"@,
    }
}

impl ConfigError {
    /// What the user is told.
    pub fn message(&self) -> (text: String)
        ensures
            text@ == message_of(*self),
    {
        match self {
            ConfigError::EmptyCommand => String::from_str(
                "Internal error: empty interestingness check!",
            ),
            ConfigError::InvalidInterestingStdout => String::from_str(
                "Invalid interesting stdout regex",
            ),
            ConfigError::InvalidInterestingStderr => String::from_str(
                "Invalid interesting stderr regex",
            ),
            ConfigError::InvalidUninterestingStdout => String::from_str(
                "Invalid uninteresting stdout regex",
            ),
            ConfigError::InvalidUninterestingStderr => String::from_str(
                "Invalid uninteresting stderr regex",
            ),
            ConfigError::InvalidDefaultInterestingStdout => String::from_str(
                "Invalid default interesting stdout regex",
            ),
            ConfigError::InvalidDefaultInterestingStderr => String::from_str(
                "Invalid default interesting stderr regex",
            ),
            ConfigError::InvalidDefaultUninterestingStdout => String::from_str(
                "Invalid default uninteresting stdout regex",
            ),
            ConfigError::InvalidDefaultUninterestingStderr => String::from_str(
                "Invalid default uninteresting stderr regex",
            ),
        }
    }
}

/// How the child ended.
#[derive(Clone, Copy, Debug, PartialEq, Eq, Structural)]
pub enum Termination {
    /// The wall clock ran out and the child was killed for it.
    TimedOut,
    /// The child exited with this code.
    Exited(i32),
    /// This signal ended the child.
    Killed(i32),
}

/// One run of the child: how it ended and what it wrote.
#[derive(Clone, Debug)]
pub struct RunResult {
    pub termination: Termination,
    pub stdout: Vec<u8>,
    pub stderr: Vec<u8>,
}

/// A configured oracle. Each pattern is kept compiled.
#[derive(Clone, Debug)]
pub struct Oracle {
    pub cmd: String,
    pub args: Vec<String>,
    pub exit_codes: Vec<i32>,
    pub interesting_stdout: Option<Regex>,
    pub interesting_stderr: Option<Regex>,
    pub uninteresting_stdout: Option<Regex>,
    pub uninteresting_stderr: Option<Regex>,
    pub debug: bool,
    pub timeout_ms: u64,
}

/// The exit codes that every oracle finds interesting: 128 up to 255, in order.
pub open spec fn signal_exits() -> Seq<i32> {
    Seq::new(128, |k: int| (128 + k) as i32)
}

/// An overriding pattern is permitted only beside the pattern it overrides.
pub open spec fn override_permitted(
    interesting: Option<String>,
    uninteresting: Option<String>,
) -> bool {
    uninteresting is Some ==> interesting is Some
}

/// The pattern that applies: the caller's, or else the default.
pub open spec fn in_effect(given: Option<String>, fallback: Seq<char>) -> Seq<char> {
    match given {
        Some(p) => p@,
        None => fallback,
    }
}

/// The pattern is set and was compiled from `text`.
pub open spec fn compiled_from(pattern: Option<Regex>, text: Seq<char>) -> bool {
    pattern is Some && regex_text(pattern->0) == text
}

/// The error for a pattern that does not compile: one for the caller's
/// pattern, another for the default that stands in for it.
pub open spec fn refusal(
    given: Option<String>,
    own: ConfigError,
    fallback: ConfigError,
) -> ConfigError {
    if given is Some {
        own
    } else {
        fallback
    }
}

/// The first reason, in the order of the checks, for which these arguments
/// give no oracle; `None` where they give one.
pub open spec fn rejection(
    check: Seq<String>,
    interesting_stdout: Option<String>,
    interesting_stderr: Option<String>,
    uninteresting_stdout: Option<String>,
    uninteresting_stderr: Option<String>,
) -> Option<ConfigError> {
    if check.len() == 0 {
        Some(ConfigError::EmptyCommand)
    } else if !regex_accepts(in_effect(interesting_stdout, default_interesting())) {
        Some(
            refusal(
                interesting_stdout,
                ConfigError::InvalidInterestingStdout,
                ConfigError::InvalidDefaultInterestingStdout,
            ),
        )
    } else if !regex_accepts(in_effect(interesting_stderr, default_interesting())) {
        Some(
            refusal(
                interesting_stderr,
                ConfigError::InvalidInterestingStderr,
                ConfigError::InvalidDefaultInterestingStderr,
            ),
        )
    } else if !regex_accepts(in_effect(uninteresting_stdout, default_uninteresting())) {
        Some(
            refusal(
                uninteresting_stdout,
                ConfigError::InvalidUninterestingStdout,
                ConfigError::InvalidDefaultUninterestingStdout,
            ),
        )
    } else if !regex_accepts(in_effect(uninteresting_stderr, default_uninteresting())) {
        Some(
            refusal(
                uninteresting_stderr,
                ConfigError::InvalidUninterestingStderr,
                ConfigError::InvalidDefaultUninterestingStderr,
            ),
        )
    } else {
        None
    }
}

/// The oracle that these arguments give: the first word is the program, the
/// rest are its arguments; the exit codes 128 up to 255 follow the caller's;
/// each pattern is the caller's or else its default, and all four are set.
pub open spec fn made_from(
    o: Oracle,
    debug: bool,
    timeout_ms: u64,
    check: Seq<String>,
    interesting_exit_codes: Seq<i32>,
    interesting_stdout: Option<String>,
    interesting_stderr: Option<String>,
    uninteresting_stdout: Option<String>,
    uninteresting_stderr: Option<String>,
) -> bool {
    &&& o.wf()
    &&& check.len() > 0
    &&& o.cmd == check[0]
    &&& o.args@ == check.subrange(1, check.len() as int)
    &&& o.exit_codes@ == interesting_exit_codes + signal_exits()
    &&& compiled_from(o.interesting_stdout, in_effect(interesting_stdout, default_interesting()))
    &&& compiled_from(o.interesting_stderr, in_effect(interesting_stderr, default_interesting()))
    &&& compiled_from(
        o.uninteresting_stdout,
        in_effect(uninteresting_stdout, default_uninteresting()),
    )
    &&& compiled_from(
        o.uninteresting_stderr,
        in_effect(uninteresting_stderr, default_uninteresting()),
    )
    &&& o.debug == debug
    &&& o.timeout_ms == timeout_ms
}

/// Whether one stream marks the run as interesting: its pattern is set and
/// matches the capture's text, and no overriding pattern matches it. The
/// text is the capture decoded, each ill-formed sequence read as the
/// replacement character.
pub open spec fn stream_interesting(
    interesting: Option<Regex>,
    uninteresting: Option<Regex>,
    capture: Seq<u8>,
) -> bool {
    &&& interesting is Some
    &&& regex_matches(interesting->0, lossy_text(capture))
    &&& !(uninteresting is Some && regex_matches(uninteresting->0, lossy_text(capture)))
}

/// The verdict on a run, given how it ended, whether its exit code is listed,
/// and whether each stream marks it. A timeout is never interesting; a signal
/// always is, the abort signal as an exit code.
pub open spec fn verdict_for(
    termination: Termination,
    listed: bool,
    stdout_marks: bool,
    stderr_marks: bool,
) -> Verdict {
    match termination {
        Termination::TimedOut => Verdict::Uninteresting,
        Termination::Killed(s) => if s == ABORT_SIGNAL {
            Verdict::Interesting(Cause::ExitCode(NO_EXIT_CODE))
        } else {
            Verdict::Interesting(Cause::Signal(s))
        },
        Termination::Exited(c) => if listed || stdout_marks || stderr_marks {
            Verdict::Interesting(Cause::ExitCode(c))
        } else {
            Verdict::Uninteresting
        },
    }
}

/// How a child ended, from what is known of its status: nothing where the
/// wall clock ran out, else its exit code and the signal that ended it. An
/// exit code comes first; a child that left neither counts as exited with
/// `-1`.
pub open spec fn termination_of(status: Option<(Option<i32>, Option<i32>)>) -> Termination {
    match status {
        None => Termination::TimedOut,
        Some((Some(c), _)) => Termination::Exited(c),
        Some((None, Some(s))) => Termination::Killed(s),
        Some((None, None)) => Termination::Exited(NO_EXIT_CODE),
    }
}

/// How a child ended, from what is known of its status.
pub fn termination_from(status: Option<(Option<i32>, Option<i32>)>) -> (t: Termination)
    ensures
        t == termination_of(status),
{
    match status {
        None => Termination::TimedOut,
        Some((Some(c), _)) => Termination::Exited(c),
        Some((None, Some(s))) => Termination::Killed(s),
        Some((None, None)) => Termination::Exited(NO_EXIT_CODE),
    }
}

/// Whether both overriding patterns stand beside the pattern they override.
pub fn overrides_permitted(
    interesting_stdout: &Option<String>,
    interesting_stderr: &Option<String>,
    uninteresting_stdout: &Option<String>,
    uninteresting_stderr: &Option<String>,
) -> (ok: bool)
    ensures
        ok == (override_permitted(*interesting_stdout, *uninteresting_stdout)
            && override_permitted(*interesting_stderr, *uninteresting_stderr)),
{
    let stdout_ok = interesting_stdout.is_some() || uninteresting_stdout.is_none();
    let stderr_ok = interesting_stderr.is_some() || uninteresting_stderr.is_none();
    stdout_ok && stderr_ok
}

/// Compiles the pattern that applies: the caller's, or else the default.
fn compile_in_effect(
    given: Option<String>,
    fallback: String,
    own: ConfigError,
    fallback_error: ConfigError,
) -> (compiled: Result<Regex, ConfigError>)
    ensures
        compiled is Ok <==> regex_accepts(in_effect(given, fallback@)),
        compiled is Ok ==> regex_text(compiled->Ok_0) == in_effect(given, fallback@),
        compiled is Err ==> compiled->Err_0 == refusal(given, own, fallback_error),
{
    let (pattern, error) = match given {
        Some(p) => (p, own),
        None => (fallback, fallback_error),
    };
    match compile(pattern.as_str()) {
        Some(regex) => Ok(regex),
        None => Err(error),
    }
}

/// Appends the exit codes 128 up to 255 to `codes`.
pub fn add_signal_exits(codes: &mut Vec<i32>)
    ensures
        final(codes)@ == old(codes)@ + signal_exits(),
{
    let ghost before = codes@;
    let mut c: i32 = SIGNAL_EXIT_FIRST;
    while c < SIGNAL_EXIT_END
        invariant
            SIGNAL_EXIT_FIRST <= c <= SIGNAL_EXIT_END,
            codes@ == before + signal_exits().take(c - 128),
        decreases SIGNAL_EXIT_END - c,
    {
        codes.push(c);
        proof {
            assert(signal_exits().take(c - 128 + 1) =~= signal_exits().take(c - 128).push(c));
            assert(codes@ =~= before + signal_exits().take(c - 128 + 1));
        }
        c = c + 1;
    }
    proof {
        assert(signal_exits().take(128) =~= signal_exits());
    }
}

/// Builds the oracle for a command line and its options. The first word of
/// `check` is the program, the rest are its arguments. Each pattern that the
/// caller leaves out is replaced by its default, and every pattern must
/// compile; the exit codes 128 up to 255 are always added.
pub fn make_check(
    debug: bool,
    timeout_ms: u64,
    check: Vec<String>,
    interesting_exit_codes: Vec<i32>,
    interesting_stdout: Option<String>,
    interesting_stderr: Option<String>,
    uninteresting_stdout: Option<String>,
    uninteresting_stderr: Option<String>,
) -> (made: Result<Oracle, ConfigError>)
    requires
        override_permitted(interesting_stdout, uninteresting_stdout),
        override_permitted(interesting_stderr, uninteresting_stderr),
    ensures
        made is Err <==> rejection(
            check@,
            interesting_stdout,
            interesting_stderr,
            uninteresting_stdout,
            uninteresting_stderr,
        ) is Some,
        made is Err ==> Some(made->Err_0) == rejection(
            check@,
            interesting_stdout,
            interesting_stderr,
            uninteresting_stdout,
            uninteresting_stderr,
        ),
        made is Ok ==> made_from(
            made->Ok_0,
            debug,
            timeout_ms,
            check@,
            interesting_exit_codes@,
            interesting_stdout,
            interesting_stderr,
            uninteresting_stdout,
            uninteresting_stderr,
        ),
{
    if check.len() == 0 {
        return Err(ConfigError::EmptyCommand);
    }
    let mut args = check;
    let cmd = args.remove(0);
    let stdout_regex = match compile_in_effect(
        interesting_stdout,
        default_interesting_pattern(),
        ConfigError::InvalidInterestingStdout,
        ConfigError::InvalidDefaultInterestingStdout,
    ) {
        Ok(compiled) => compiled,
        Err(e) => {
            return Err(e);
        },
    };
    let stderr_regex = match compile_in_effect(
        interesting_stderr,
        default_interesting_pattern(),
        ConfigError::InvalidInterestingStderr,
        ConfigError::InvalidDefaultInterestingStderr,
    ) {
        Ok(compiled) => compiled,
        Err(e) => {
            return Err(e);
        },
    };
    let un_stdout_regex = match compile_in_effect(
        uninteresting_stdout,
        default_uninteresting_pattern(),
        ConfigError::InvalidUninterestingStdout,
        ConfigError::InvalidDefaultUninterestingStdout,
    ) {
        Ok(compiled) => compiled,
        Err(e) => {
            return Err(e);
        },
    };
    let un_stderr_regex = match compile_in_effect(
        uninteresting_stderr,
        default_uninteresting_pattern(),
        ConfigError::InvalidUninterestingStderr,
        ConfigError::InvalidDefaultUninterestingStderr,
    ) {
        Ok(compiled) => compiled,
        Err(e) => {
            return Err(e);
        },
    };
    let mut exit_codes = interesting_exit_codes;
    add_signal_exits(&mut exit_codes);
    proof {
        assert(args@ =~= check@.subrange(1, check@.len() as int));
        assert forall|c: i32| 128 <= c < 256 implies #[trigger] exit_codes@.contains(c) by {
            let at = interesting_exit_codes@.len() + (c - 128);
            assert(signal_exits()[c - 128] == c);
            assert(exit_codes@[at] == c);
        }
    }
    Ok(
        Oracle {
            cmd,
            args,
            exit_codes,
            interesting_stdout: Some(stdout_regex),
            interesting_stderr: Some(stderr_regex),
            uninteresting_stdout: Some(un_stdout_regex),
            uninteresting_stderr: Some(un_stderr_regex),
            debug,
            timeout_ms,
        },
    )
}

/// The verdict for a run that ended as `termination`; see `verdict_for`.
pub fn verdict_from(
    termination: Termination,
    listed: bool,
    stdout_marks: bool,
    stderr_marks: bool,
) -> (v: Verdict)
    ensures
        v == verdict_for(termination, listed, stdout_marks, stderr_marks),
{
    match termination {
        Termination::TimedOut => Verdict::Uninteresting,
        Termination::Killed(s) => {
            if s == ABORT_SIGNAL {
                Verdict::Interesting(Cause::ExitCode(NO_EXIT_CODE))
            } else {
                Verdict::Interesting(Cause::Signal(s))
            }
        },
        Termination::Exited(c) => {
            if listed || stdout_marks || stderr_marks {
                Verdict::Interesting(Cause::ExitCode(c))
            } else {
                Verdict::Uninteresting
            }
        },
    }
}

/// Whether one stream marks the run as interesting.
fn stream_marks(
    interesting: &Option<Regex>,
    uninteresting: &Option<Regex>,
    capture: &Vec<u8>,
) -> (marks: bool)
    ensures
        marks == stream_interesting(*interesting, *uninteresting, capture@),
{
    match interesting {
        None => false,
        Some(p) => {
            let text = decode_lossy(capture.as_slice());
            if !is_match(p, text.as_str()) {
                false
            } else {
                match uninteresting {
                    None => true,
                    Some(u) => !is_match(u, text.as_str()),
                }
            }
        },
    }
}

impl Oracle {
    /// What construction establishes: an overriding pattern stands only beside
    /// the pattern it overrides, and the exit codes 128 up to 255 are listed.
    pub open spec fn wf(&self) -> bool {
        &&& self.uninteresting_stdout is Some ==> self.interesting_stdout is Some
        &&& self.uninteresting_stderr is Some ==> self.interesting_stderr is Some
        &&& forall|c: i32| 128 <= c < 256 ==> #[trigger] self.exit_codes@.contains(c)
    }

    /// Whether the run ended with an exit code that this oracle lists.
    pub open spec fn lists(&self, termination: Termination) -> bool {
        termination is Exited && self.exit_codes@.contains(termination->Exited_0)
    }

    /// The verdict of this oracle on `run`.
    pub open spec fn verdict_of(&self, run: RunResult) -> Verdict {
        verdict_for(
            run.termination,
            self.lists(run.termination),
            stream_interesting(self.interesting_stdout, self.uninteresting_stdout, run.stdout@),
            stream_interesting(self.interesting_stderr, self.uninteresting_stderr, run.stderr@),
        )
    }

    /// Whether the argument list asks for the candidate in a file.
    pub open spec fn wants_file(&self) -> bool {
        exists|i: int| 0 <= i < self.args@.len() && is_file_marker(#[trigger] self.args@[i]@)
    }

    /// Whether `code` is among the listed exit codes.
    pub fn lists_code(&self, code: i32) -> (listed: bool)
        ensures
            listed == self.exit_codes@.contains(code),
    {
        let mut i: usize = 0;
        while i < self.exit_codes.len()
            invariant
                i <= self.exit_codes.len(),
                forall|j: int| 0 <= j < i ==> self.exit_codes@[j] != code,
            decreases self.exit_codes.len() - i,
        {
            if self.exit_codes[i] == code {
                return true;
            }
            i += 1;
        }
        false
    }

    /// Whether the candidate goes to the child in a file, whose path takes
    /// the place of the marked argument, and not on standard input.
    pub fn needs_file(&self) -> (file: bool)
        ensures
            file == self.wants_file(),
    {
        let mut i: usize = 0;
        while i < self.args.len()
            invariant
                i <= self.args.len(),
                forall|j: int| 0 <= j < i ==> !is_file_marker(#[trigger] self.args@[j]@),
            decreases self.args.len() - i,
        {
            if is_marker(self.args[i].as_str()) {
                return true;
            }
            i += 1;
        }
        false
    }

    /// Classifies one run. Any capture is accepted: empty, binary, or not
    /// UTF-8.
    pub fn classify(&self, run: &RunResult) -> (v: Verdict)
        ensures
            v == self.verdict_of(*run),
    {
        let listed = match run.termination {
            Termination::Exited(c) => self.lists_code(c),
            _ => false,
        };
        let stdout_marks = stream_marks(
            &self.interesting_stdout,
            &self.uninteresting_stdout,
            &run.stdout,
        );
        let stderr_marks = stream_marks(
            &self.interesting_stderr,
            &self.uninteresting_stderr,
            &run.stderr,
        );
        verdict_from(run.termination, listed, stdout_marks, stderr_marks)
    }
}

/// An argument that starts with `@@` stands for the path of a file that holds
/// the candidate.
pub open spec fn is_file_marker(arg: Seq<char>) -> bool {
    arg.len() >= 2 && arg[0] == '@' && arg[1] == '@'
}

/// Whether `arg` stands for the path of the candidate's file.
pub fn is_marker(arg: &str) -> (marker: bool)
    ensures
        marker == is_file_marker(arg@),
{
    arg.unicode_len() >= 2 && arg.get_char(0) == '@' && arg.get_char(1) == '@'
}

} // verus!
