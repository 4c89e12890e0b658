use tree_crasher::config::Args;
use tree_crasher::oracle::{
    add_signal_exits, make_check, overrides_permitted, termination_from, verdict_from,
    ConfigError, Oracle, RunResult, Termination,
};
use tree_crasher::patterns::{
    alternation, default_interesting_pattern, default_uninteresting_pattern,
};
use tree_crasher::verdict::{Cause, Verdict};

fn words(ws: &[&str]) -> Vec<String> {
    ws.iter().map(|w| w.to_string()).collect()
}

fn text(pattern: &Option<regex::Regex>) -> Option<&str> {
    pattern.as_ref().map(|p| p.as_str())
}

fn plain_oracle() -> Oracle {
    make_check(false, 500, words(&["sh", "-c", "true"]), Vec::new(), None, None, None, None)
        .unwrap()
}

fn run(termination: Termination, stdout: &[u8], stderr: &[u8]) -> RunResult {
    RunResult { termination, stdout: stdout.to_vec(), stderr: stderr.to_vec() }
}

#[test]
fn alternation_of_nothing_is_empty() {
    assert_eq!(alternation(&Vec::new()), "");
}

#[test]
fn alternation_of_one_part_is_that_part() {
    assert_eq!(alternation(&vec!["Fatal"]), "Fatal");
}

#[test]
fn alternation_puts_a_bar_between_parts() {
    assert_eq!(alternation(&vec!["a", "b", "c"]), "a|b|c");
}

#[test]
fn default_interesting_pattern_is_exact() {
    assert_eq!(default_interesting_pattern(), "AddressSanitizer|Fatal|DCHECK|Check");
}

#[test]
fn default_uninteresting_pattern_is_exact() {
    assert_eq!(
        default_uninteresting_pattern(),
        "RangeError|SyntaxError|ReferenceError|TypeError|URIError|EvalError|InternalError"
    );
}

#[test]
fn signal_exits_are_appended_in_order() {
    let mut codes = vec![1, 42];
    add_signal_exits(&mut codes);
    assert_eq!(codes.len(), 2 + 128);
    assert_eq!(codes[0], 1);
    assert_eq!(codes[1], 42);
    assert_eq!(codes[2], 128);
    assert_eq!(codes[129], 255);
    for k in 0..128usize {
        assert_eq!(codes[2 + k], 128 + k as i32);
    }
}

#[test]
fn make_check_splits_the_command_and_fills_in_defaults() {
    let o = make_check(
        true,
        50,
        words(&["sh", "-c", "echo Fatal; exit 1"]),
        vec![7],
        None,
        None,
        None,
        None,
    )
    .unwrap();
    assert_eq!(o.cmd, "sh");
    assert_eq!(o.args, words(&["-c", "echo Fatal; exit 1"]));
    assert_eq!(o.exit_codes.len(), 129);
    assert_eq!(o.exit_codes[0], 7);
    assert_eq!(o.exit_codes[1], 128);
    assert_eq!(o.exit_codes[128], 255);
    assert_eq!(text(&o.interesting_stdout), Some("AddressSanitizer|Fatal|DCHECK|Check"));
    assert_eq!(text(&o.interesting_stderr), Some("AddressSanitizer|Fatal|DCHECK|Check"));
    assert_eq!(
        text(&o.uninteresting_stdout),
        Some("RangeError|SyntaxError|ReferenceError|TypeError|URIError|EvalError|InternalError")
    );
    assert_eq!(text(&o.uninteresting_stderr), text(&o.uninteresting_stdout));
    assert!(o.debug);
    assert_eq!(o.timeout_ms, 50);
}

#[test]
fn make_check_keeps_the_callers_patterns() {
    let o = make_check(
        false,
        500,
        words(&["target"]),
        Vec::new(),
        Some("panic".to_string()),
        Some("Error".to_string()),
        Some("benign".to_string()),
        Some("SyntaxError".to_string()),
    )
    .unwrap();
    assert_eq!(o.cmd, "target");
    assert!(o.args.is_empty());
    assert_eq!(text(&o.interesting_stdout), Some("panic"));
    assert_eq!(text(&o.interesting_stderr), Some("Error"));
    assert_eq!(text(&o.uninteresting_stdout), Some("benign"));
    assert_eq!(text(&o.uninteresting_stderr), Some("SyntaxError"));
}

#[test]
fn make_check_rejects_an_empty_command() {
    let r = make_check(false, 500, Vec::new(), Vec::new(), None, None, None, None);
    assert_eq!(r.err(), Some(ConfigError::EmptyCommand));
}

#[test]
fn make_check_rejects_a_bad_interesting_stdout_pattern() {
    let r = make_check(
        false,
        500,
        words(&["t"]),
        Vec::new(),
        Some("(".to_string()),
        Some("(".to_string()),
        None,
        None,
    );
    assert_eq!(r.err(), Some(ConfigError::InvalidInterestingStdout));
}

#[test]
fn make_check_rejects_a_bad_interesting_stderr_pattern() {
    let r = make_check(
        false,
        500,
        words(&["t"]),
        Vec::new(),
        None,
        Some("[a".to_string()),
        None,
        Some("(".to_string()),
    );
    assert_eq!(r.err(), Some(ConfigError::InvalidInterestingStderr));
}

#[test]
fn make_check_rejects_a_bad_uninteresting_stdout_pattern() {
    let r = make_check(
        false,
        500,
        words(&["t"]),
        Vec::new(),
        Some("a".to_string()),
        Some("b".to_string()),
        Some("*".to_string()),
        Some("*".to_string()),
    );
    assert_eq!(r.err(), Some(ConfigError::InvalidUninterestingStdout));
}

#[test]
fn make_check_rejects_a_bad_uninteresting_stderr_pattern() {
    let r = make_check(
        false,
        500,
        words(&["t"]),
        Vec::new(),
        None,
        Some("b".to_string()),
        None,
        Some("a{2,1}".to_string()),
    );
    assert_eq!(r.err(), Some(ConfigError::InvalidUninterestingStderr));
}

#[test]
fn an_override_needs_the_pattern_it_overrides() {
    let some = Some("x".to_string());
    assert!(overrides_permitted(&None, &None, &None, &None));
    assert!(overrides_permitted(&some, &None, &some, &None));
    assert!(overrides_permitted(&some, &some, &None, &None));
    assert!(!overrides_permitted(&None, &None, &some, &None));
    assert!(!overrides_permitted(&None, &some, &some, &None));
    assert!(overrides_permitted(&None, &some, &None, &some));
    assert!(!overrides_permitted(&some, &None, &some, &some));
}

#[test]
fn verdict_from_covers_every_ending() {
    assert_eq!(verdict_from(Termination::TimedOut, true, true, true), Verdict::Uninteresting);
    assert_eq!(
        verdict_from(Termination::Killed(6), false, false, false),
        Verdict::Interesting(Cause::ExitCode(-1))
    );
    assert_eq!(
        verdict_from(Termination::Killed(11), false, false, false),
        Verdict::Interesting(Cause::Signal(11))
    );
    assert_eq!(verdict_from(Termination::Exited(0), false, false, false), Verdict::Uninteresting);
    assert_eq!(
        verdict_from(Termination::Exited(3), true, false, false),
        Verdict::Interesting(Cause::ExitCode(3))
    );
    assert_eq!(
        verdict_from(Termination::Exited(0), false, true, false),
        Verdict::Interesting(Cause::ExitCode(0))
    );
    assert_eq!(
        verdict_from(Termination::Exited(0), false, false, true),
        Verdict::Interesting(Cause::ExitCode(0))
    );
}

#[test]
fn a_listed_exit_code_is_interesting() {
    let o = make_check(false, 500, words(&["t"]), vec![3], None, None, None, None).unwrap();
    assert!(o.lists_code(3));
    assert!(o.lists_code(128));
    assert!(o.lists_code(255));
    assert!(!o.lists_code(1));
    assert!(!o.lists_code(256));
    assert!(!o.lists_code(127));
    assert_eq!(
        o.classify(&run(Termination::Exited(3), b"", b"")),
        Verdict::Interesting(Cause::ExitCode(3))
    );
    assert_eq!(
        o.classify(&run(Termination::Exited(139), b"", b"")),
        Verdict::Interesting(Cause::ExitCode(139))
    );
    assert_eq!(o.classify(&run(Termination::Exited(1), b"", b"")), Verdict::Uninteresting);
}

#[test]
fn fatal_on_stdout_is_interesting_by_default() {
    let o = plain_oracle();
    assert_eq!(
        o.classify(&run(Termination::Exited(1), b"Fatal\n", b"")),
        Verdict::Interesting(Cause::ExitCode(1))
    );
    assert_eq!(
        o.classify(&run(Termination::Exited(0), b"", b"==1==ERROR: AddressSanitizer: x")),
        Verdict::Interesting(Cause::ExitCode(0))
    );
    assert_eq!(o.classify(&run(Termination::Exited(1), b"fine\n", b"")), Verdict::Uninteresting);
}

#[test]
fn an_override_on_the_same_stream_wins() {
    let o = plain_oracle();
    assert_eq!(
        o.classify(&run(Termination::Exited(1), b"Fatal TypeError\n", b"")),
        Verdict::Uninteresting
    );
    assert_eq!(
        o.classify(&run(Termination::Exited(1), b"Fatal TypeError\n", b"DCHECK failed")),
        Verdict::Interesting(Cause::ExitCode(1))
    );
}

#[test]
fn uninteresting_override_scenario() {
    let o = make_check(
        false,
        500,
        words(&["t"]),
        Vec::new(),
        None,
        Some("Error".to_string()),
        None,
        Some("SyntaxError".to_string()),
    )
    .unwrap();
    let r = run(Termination::Exited(1), b"", b"SyntaxError: unexpected token\n");
    assert_eq!(o.classify(&r), Verdict::Uninteresting);
    let r = run(Termination::Exited(1), b"", b"Error: boom\n");
    assert_eq!(o.classify(&r), Verdict::Interesting(Cause::ExitCode(1)));
}

#[test]
fn abort_signal_scenario() {
    let o = plain_oracle();
    assert_eq!(
        o.classify(&run(Termination::Killed(6), b"", b"")),
        Verdict::Interesting(Cause::ExitCode(-1))
    );
    assert_eq!(
        o.classify(&run(Termination::Killed(11), b"", b"")),
        Verdict::Interesting(Cause::Signal(11))
    );
}

#[test]
fn timeout_scenario() {
    let o = plain_oracle();
    assert_eq!(o.classify(&run(Termination::TimedOut, b"", b"")), Verdict::Uninteresting);
    assert_eq!(o.classify(&run(Termination::TimedOut, b"Fatal", b"Fatal")), Verdict::Uninteresting);
}

#[test]
fn captures_need_not_be_text() {
    let o = plain_oracle();
    assert_eq!(o.classify(&run(Termination::Exited(0), b"", b"")), Verdict::Uninteresting);
    assert_eq!(
        o.classify(&run(Termination::Exited(0), &[0xff, 0xfe, 0x00, 0x80], &[0xc3, 0x28])),
        Verdict::Uninteresting
    );
    let mut noisy = vec![0xffu8, 0x00, 0xc0];
    noisy.extend_from_slice(b"Check failed");
    noisy.push(0xf5);
    assert_eq!(
        o.classify(&run(Termination::Exited(0), &noisy, &[])),
        Verdict::Interesting(Cause::ExitCode(0))
    );
}

#[test]
fn an_unset_pattern_marks_nothing_and_overrides_nothing() {
    let mut o = plain_oracle();
    o.uninteresting_stdout = None;
    assert_eq!(
        o.classify(&run(Termination::Exited(1), b"Fatal TypeError\n", b"")),
        Verdict::Interesting(Cause::ExitCode(1))
    );
    o.interesting_stdout = None;
    assert_eq!(o.classify(&run(Termination::Exited(1), b"Fatal\n", b"")), Verdict::Uninteresting);
}

#[test]
fn a_pattern_sees_the_decoded_capture() {
    let mut o = plain_oracle();
    o.interesting_stdout = Some(regex::Regex::new("^a\u{fffd}b$").unwrap());
    assert_eq!(
        o.classify(&run(Termination::Exited(0), &[b'a', 0xff, b'b'], b"")),
        Verdict::Interesting(Cause::ExitCode(0))
    );
    assert_eq!(o.classify(&run(Termination::Exited(0), b"ab", b"")), Verdict::Uninteresting);
}

#[test]
fn a_status_becomes_a_termination() {
    assert_eq!(termination_from(None), Termination::TimedOut);
    assert_eq!(termination_from(Some((Some(3), None))), Termination::Exited(3));
    assert_eq!(termination_from(Some((Some(3), Some(9)))), Termination::Exited(3));
    assert_eq!(termination_from(Some((None, Some(6)))), Termination::Killed(6));
    assert_eq!(termination_from(Some((None, None))), Termination::Exited(-1));
}

#[test]
fn default_args_are_the_documented_ones() {
    let a = Args::with_defaults("seeds".to_string(), words(&["sh", "-c", "exit 1"]), 4);
    assert_eq!(a.chaos, 5);
    assert_eq!(a.deletions, 5);
    assert_eq!(a.max_size, 1_048_576);
    assert_eq!(a.mutations, 16);
    assert!(!a.radamsa);
    assert!(!a.debug);
    assert!(a.interesting_exit_code.is_empty());
    assert_eq!(a.jobs, 4);
    assert_eq!(a.output, "tree-crasher.out");
    assert_eq!(a.seed, 0);
    assert_eq!(a.timeout, 500);
    assert_eq!(a.files, "seeds");
    assert!(a.is_permitted());
    assert_eq!(a.workers().count, 4);
    let o = a.into_oracle().unwrap();
    assert_eq!(o.cmd, "sh");
    assert_eq!(o.args, words(&["-c", "exit 1"]));
    assert_eq!(o.timeout_ms, 500);
    assert!(!o.debug);
}

#[test]
fn args_with_a_lone_override_are_not_permitted() {
    let mut a = Args::with_defaults("seeds".to_string(), words(&["t"]), 1);
    a.uninteresting_stderr = Some("x".to_string());
    assert!(!a.is_permitted());
    a.interesting_stderr = Some("y".to_string());
    assert!(a.is_permitted());
}

#[test]
fn every_error_has_its_message() {
    assert_eq!(
        ConfigError::EmptyCommand.message(),
        "Internal error: empty interestingness check!"
    );
    assert_eq!(
        ConfigError::InvalidInterestingStdout.message(),
        "Invalid interesting stdout regex"
    );
    assert_eq!(
        ConfigError::InvalidInterestingStderr.message(),
        "Invalid interesting stderr regex"
    );
    assert_eq!(
        ConfigError::InvalidUninterestingStdout.message(),
        "Invalid uninteresting stdout regex"
    );
    assert_eq!(
        ConfigError::InvalidUninterestingStderr.message(),
        "Invalid uninteresting stderr regex"
    );
    assert_eq!(
        ConfigError::InvalidDefaultInterestingStdout.message(),
        "Invalid default interesting stdout regex"
    );
    assert_eq!(
        ConfigError::InvalidDefaultInterestingStderr.message(),
        "Invalid default interesting stderr regex"
    );
    assert_eq!(
        ConfigError::InvalidDefaultUninterestingStdout.message(),
        "Invalid default uninteresting stdout regex"
    );
    assert_eq!(
        ConfigError::InvalidDefaultUninterestingStderr.message(),
        "Invalid default uninteresting stderr regex"
    );
}

#[test]
fn an_empty_command_comes_before_a_bad_pattern() {
    let r = make_check(
        false,
        500,
        Vec::new(),
        Vec::new(),
        Some("(".to_string()),
        None,
        None,
        None,
    );
    assert_eq!(r.err(), Some(ConfigError::EmptyCommand));
}
