//! The two-phase verify/bless test-execution engine.
//!
//! A test run drives the external expectation checker in one of two ways.
//! In verify mode a single pass runs with strict comparison: any mismatch
//! of annotations or expectation files is an error, and no file changes.
//! In bless mode two passes run. The first verifies with comparison that
//! tolerates expectation-file differences — annotations are still checked
//! — and writes nothing; only if it passes does a second pass run with
//! writing comparison, overwriting the expectation files to match actual
//! output. A failing verification ends the run at once: the writing pass
//! is unreachable from it. That is the engine's core invariant.
//!
//! The engine itself is a state machine from pass outcomes to the next
//! pass's comparison mode; the embedding test runner performs each pass
//! with the real checker and reports whether it passed. [`run_protocol`]
//! runs the whole protocol against an abstract description of one test,
//! which is also what the engine's laws are stated over.

use crate::env::{is_env_truthy, spec_is_truthy};
use crate::text::{contains_chars, contains_seq, string_to_chars};
use crate::ui::Config;
use vstd::prelude::*;

verus! {

/// How a checker pass treats differences between stored expectation files
/// and actual output.
#[derive(Clone, Copy, Debug, PartialEq, Eq, Structural)]
pub enum ConflictHandling {
    /// Differences are tolerated; annotations are still checked.
    IgnoreConflicts,
    /// Any difference is an error.
    ErrorOnConflict,
    /// Expectation files are overwritten to match actual output.
    OverwriteFiles,
}

/// How a test run failed.
#[derive(Clone, Copy, Debug, PartialEq, Eq, Structural)]
pub enum TestError {
    /// Annotations or expectations did not match the diagnostics; no file
    /// was written.
    VerificationFailed,
    /// Rewriting the expectation files failed after verification passed.
    BlessingFailed,
}

/// Where a test run stands.
#[derive(Clone, Copy, Debug, PartialEq, Eq, Structural)]
pub enum EngineState {
    /// The first pass has not run yet.
    FirstPass { bless: bool },
    /// Verification passed in bless mode; the writing pass is next.
    BlessPass,
    /// The run succeeded.
    Accepted,
    /// The run failed.
    Rejected { error: TestError },
}

/// The comparison mode of the pass the engine asks for next, if any.
pub open spec fn spec_pass_mode(s: EngineState) -> Option<ConflictHandling> {
    match s {
        EngineState::FirstPass { bless } => if bless {
            Some(ConflictHandling::IgnoreConflicts)
        } else {
            Some(ConflictHandling::ErrorOnConflict)
        },
        EngineState::BlessPass => Some(ConflictHandling::OverwriteFiles),
        EngineState::Accepted => None,
        EngineState::Rejected { .. } => None,
    }
}

/// The state after a pending pass reports whether it passed.
pub open spec fn spec_step(s: EngineState, passed: bool) -> EngineState {
    match s {
        EngineState::FirstPass { bless } => if !passed {
            EngineState::Rejected { error: TestError::VerificationFailed }
        } else if bless {
            EngineState::BlessPass
        } else {
            EngineState::Accepted
        },
        EngineState::BlessPass => if passed {
            EngineState::Accepted
        } else {
            EngineState::Rejected { error: TestError::BlessingFailed }
        },
        EngineState::Accepted => s,
        EngineState::Rejected { .. } => s,
    }
}

/// The state a run begins in, before any pass.
pub fn start_engine(bless: bool) -> (s: EngineState)
    ensures
        s == (EngineState::FirstPass { bless }),
{
    EngineState::FirstPass { bless }
}

/// The comparison mode to run the next pass with, or `None` when the run
/// is over.
pub fn pass_mode(s: &EngineState) -> (m: Option<ConflictHandling>)
    ensures
        m == spec_pass_mode(*s),
{
    match s {
        EngineState::FirstPass { bless } => if *bless {
            Some(ConflictHandling::IgnoreConflicts)
        } else {
            Some(ConflictHandling::ErrorOnConflict)
        },
        EngineState::BlessPass => Some(ConflictHandling::OverwriteFiles),
        EngineState::Accepted => None,
        EngineState::Rejected { .. } => None,
    }
}

/// Advances the run on a pass's outcome.
pub fn on_pass_outcome(s: &EngineState, passed: bool) -> (t: EngineState)
    ensures
        t == spec_step(*s, passed),
{
    match s {
        EngineState::FirstPass { bless } => if !passed {
            EngineState::Rejected { error: TestError::VerificationFailed }
        } else if *bless {
            EngineState::BlessPass
        } else {
            EngineState::Accepted
        },
        EngineState::BlessPass => if passed {
            EngineState::Accepted
        } else {
            EngineState::Rejected { error: TestError::BlessingFailed }
        },
        EngineState::Accepted => EngineState::Accepted,
        EngineState::Rejected { error } => EngineState::Rejected { error: *error },
    }
}

/// The writing pass is unreachable through a failing verification: the
/// engine asks for writing comparison only in the state that a passed
/// first pass of a blessing run produces, and a failed first pass ends the
/// run as a verification failure, after which no pass runs at all.
pub proof fn lemma_no_bless_without_verify(s: EngineState, passed: bool)
    ensures
        spec_pass_mode(s) == Some(ConflictHandling::OverwriteFiles) ==> s == EngineState::BlessPass,
        spec_step(s, passed) == EngineState::BlessPass ==> s == (EngineState::FirstPass {
            bless: true,
        }) && passed,
        spec_step((EngineState::FirstPass { bless: true }), false) == (EngineState::Rejected {
            error: TestError::VerificationFailed,
        }),
        spec_pass_mode((EngineState::Rejected { error: TestError::VerificationFailed })) is None,
        s matches EngineState::Rejected { .. } ==> spec_step(s, passed) == s && spec_pass_mode(
            s,
        ) is None,
{
}

/// One test as the expectation checker observes it: whether the source's
/// inline annotations agree with the diagnostics actually produced, the
/// stored `stderr` expectation file if one exists, and the diagnostic
/// output actually produced.
pub struct CheckerObservation {
    pub annotations_match: bool,
    pub stderr_fixture: Option<String>,
    pub actual_stderr: String,
}

/// Whether a stored expectation agrees with actual output; a test with no
/// stored file disagrees with nothing.
pub open spec fn spec_fixture_agrees(fixture: Option<Seq<char>>, actual: Seq<char>) -> bool {
    match fixture {
        Some(f) => f == actual,
        None => true,
    }
}

/// Whether one checker pass succeeds on a test: annotations must agree in
/// every mode, and stored expectations must also agree under strict
/// comparison.
pub open spec fn spec_pass_succeeds(
    mode: ConflictHandling,
    annotations_match: bool,
    fixture: Option<Seq<char>>,
    actual: Seq<char>,
) -> bool {
    match mode {
        ConflictHandling::IgnoreConflicts => annotations_match,
        ConflictHandling::ErrorOnConflict => annotations_match && spec_fixture_agrees(
            fixture,
            actual,
        ),
        ConflictHandling::OverwriteFiles => annotations_match,
    }
}

/// The stored expectation after one checker pass: only a writing pass
/// changes it, and what it writes is the actual output.
pub open spec fn spec_fixture_after(
    mode: ConflictHandling,
    fixture: Option<Seq<char>>,
    actual: Seq<char>,
) -> Option<Seq<char>> {
    match mode {
        ConflictHandling::OverwriteFiles => Some(actual),
        ConflictHandling::IgnoreConflicts => fixture,
        ConflictHandling::ErrorOnConflict => fixture,
    }
}

/// One checker pass over the abstract description of a test.
pub fn execute_pass(mode: ConflictHandling, obs: CheckerObservation) -> (r: (
    bool,
    CheckerObservation,
))
    ensures
        r.0 == spec_pass_succeeds(
            mode,
            obs.annotations_match,
            obs.stderr_fixture.deep_view(),
            obs.actual_stderr@,
        ),
        r.1.annotations_match == obs.annotations_match,
        r.1.actual_stderr@ == obs.actual_stderr@,
        r.1.stderr_fixture.deep_view() == spec_fixture_after(
            mode,
            obs.stderr_fixture.deep_view(),
            obs.actual_stderr@,
        ),
{
    match mode {
        ConflictHandling::IgnoreConflicts => (obs.annotations_match, obs),
        ConflictHandling::ErrorOnConflict => {
            let agrees = match &obs.stderr_fixture {
                Some(f) => *f == obs.actual_stderr,
                None => true,
            };
            (obs.annotations_match && agrees, obs)
        },
        ConflictHandling::OverwriteFiles => {
            let written = obs.actual_stderr.clone();
            let passed = obs.annotations_match;
            (
                passed,
                CheckerObservation {
                    annotations_match: obs.annotations_match,
                    stderr_fixture: Some(written),
                    actual_stderr: obs.actual_stderr,
                },
            )
        },
    }
}

/// What a whole run returns for a test: in verify mode one strict pass
/// decides; in bless mode the verifying pass decides, and the writing pass
/// of the model cannot fail after it.
pub open spec fn spec_protocol_result(
    bless: bool,
    annotations_match: bool,
    fixture: Option<Seq<char>>,
    actual: Seq<char>,
) -> Result<(), TestError> {
    if bless {
        if annotations_match {
            Ok(())
        } else {
            Err(TestError::VerificationFailed)
        }
    } else {
        if annotations_match && spec_fixture_agrees(fixture, actual) {
            Ok(())
        } else {
            Err(TestError::VerificationFailed)
        }
    }
}

/// What a whole run leaves as the stored expectation: only a blessing run
/// whose verification passed writes, and it writes the actual output.
pub open spec fn spec_protocol_fixture(
    bless: bool,
    annotations_match: bool,
    fixture: Option<Seq<char>>,
    actual: Seq<char>,
) -> Option<Seq<char>> {
    if bless && annotations_match {
        Some(actual)
    } else {
        fixture
    }
}

/// Runs the whole two-phase protocol over the abstract description of one
/// test: the verifying pass, and — only on its success in bless mode — the
/// writing pass.
pub fn run_protocol(bless: bool, obs: CheckerObservation) -> (r: (
    Result<(), TestError>,
    CheckerObservation,
))
    ensures
        r.0 == spec_protocol_result(
            bless,
            obs.annotations_match,
            obs.stderr_fixture.deep_view(),
            obs.actual_stderr@,
        ),
        r.1.annotations_match == obs.annotations_match,
        r.1.actual_stderr@ == obs.actual_stderr@,
        r.1.stderr_fixture.deep_view() == spec_protocol_fixture(
            bless,
            obs.annotations_match,
            obs.stderr_fixture.deep_view(),
            obs.actual_stderr@,
        ),
{
    let state = start_engine(bless);
    let first_mode = match pass_mode(&state) {
        Some(m) => m,
        None => {
            proof {
                assert(false);
            }
            ConflictHandling::IgnoreConflicts
        },
    };
    let (first_passed, obs) = execute_pass(first_mode, obs);
    let state = on_pass_outcome(&state, first_passed);
    match state {
        EngineState::Rejected { error } => (Err(error), obs),
        EngineState::Accepted => (Ok(()), obs),
        EngineState::BlessPass => {
            let second_mode = match pass_mode(&state) {
                Some(m) => m,
                None => {
                    proof {
                        assert(false);
                    }
                    ConflictHandling::OverwriteFiles
                },
            };
            let (second_passed, obs) = execute_pass(second_mode, obs);
            let state = on_pass_outcome(&state, second_passed);
            match state {
                EngineState::Accepted => (Ok(()), obs),
                EngineState::Rejected { error } => (Err(error), obs),
                EngineState::FirstPass { .. } => {
                    proof {
                        assert(false);
                    }
                    (Ok(()), obs)
                },
                EngineState::BlessPass => {
                    proof {
                        assert(false);
                    }
                    (Ok(()), obs)
                },
            }
        },
        EngineState::FirstPass { .. } => {
            proof {
                assert(false);
            }
            (Ok(()), obs)
        },
    }
}

/// The exit status expected of the process a pass invokes: the configured
/// value when the program is the dylint driver (its file name holds
/// `dylint-driver`), and the baseline compiler's conventional failure
/// status otherwise — the two tools' failure exit codes differ.
pub open spec fn spec_expected_exit(driver_file_name: Option<Seq<char>>, configured: i32) -> i32 {
    match driver_file_name {
        Some(n) => if contains_seq(n, "dylint-driver"@) {
            configured
        } else {
            1
        },
        None => 1,
    }
}

/// Decides the exit status to expect of the invoked process from the
/// program's file name (`None` when its path has none).
pub fn expected_exit_status(driver_file_name: Option<&str>, configured: i32) -> (r: i32)
    ensures
        r == spec_expected_exit(driver_file_name.deep_view(), configured),
{
    match driver_file_name {
        Some(n) => {
            let name_chars = string_to_chars(n);
            let needle = string_to_chars("dylint-driver");
            if contains_chars(&name_chars, &needle) {
                configured
            } else {
                1
            }
        },
        None => 1,
    }
}

/// Everything one run of the expectation checker is configured with, fixed
/// before any pass runs. The per-pass comparison mode is not here: the
/// engine decides it pass by pass.
pub struct RunPlan {
    /// The program to invoke in place of the compiler.
    pub program: String,
    /// Its arguments: the mandatory diagnostics-only flags, then the
    /// configured extra flags.
    pub args: Vec<String>,
    /// The environment variables whose values the runner forwards into the
    /// invoked process.
    pub env_keys: Vec<String>,
    /// A file filter guaranteeing that every staged file is run.
    pub filter_file: String,
    /// A pattern that scrubs the driver's own debug lines from captured
    /// output, for stable comparisons.
    pub stderr_filter_pattern: String,
    /// The command to suggest when expectations mismatch.
    pub bless_command: String,
    /// The exit status expected of the invoked process.
    pub expected_exit_status: i32,
    /// Whether the run blesses (two passes) or verifies (one strict pass).
    pub bless: bool,
}

/// Assembles the fixed configuration of one run: the program under test,
/// the mandatory flags that force warnings to be errors and limit the run
/// to metadata-only output, the configured extra flags, the environment
/// variables to forward, and the mode switch read from the `BLESS`
/// variable's value, which the caller read and hands over.
pub fn build_run_plan(
    driver: &str,
    driver_file_name: Option<&str>,
    src_base: &str,
    config: &Config,
    bless_value: &Option<String>,
) -> (p: RunPlan)
    ensures
        p.program@ == driver@,
        p.args.deep_view() == seq!["-Dwarnings"@, "--emit=metadata"@]
            + config.rustc_flags.deep_view(),
        p.env_keys.deep_view() == seq![
            "DYLINT_LIBS"@,
            "CLIPPY_DISABLE_DOCS_LINKS"@,
            "DYLINT_TOML"@,
            "RUST_BACKTRACE"@,
            "RUST_LOG"@,
        ],
        p.filter_file@ == src_base@,
        p.stderr_filter_pattern@ == "(?m)^\\[[^\\]]+\\s+DEBUG\\s+dylint_driver\\].*\\n"@,
        p.bless_command@ == "BLESS=1 cargo test"@,
        p.expected_exit_status == spec_expected_exit(
            driver_file_name.deep_view(),
            config.expected_exit_status,
        ),
        p.bless == spec_is_truthy(bless_value.deep_view()),
{
    let mut args: Vec<String> = Vec::new();
    args.push(String::from_str("-Dwarnings"));
    args.push(String::from_str("--emit=metadata"));
    proof {
        assert(args.deep_view() =~= seq!["-Dwarnings"@, "--emit=metadata"@]);
    }
    let ghost mandatory = args.deep_view();
    let n = config.rustc_flags.len();
    let mut i: usize = 0;
    while i < n
        invariant
            n == config.rustc_flags@.len(),
            i <= n,
            args.deep_view() == mandatory + config.rustc_flags.deep_view().subrange(0, i as int),
        decreases n - i,
    {
        let cloned = config.rustc_flags[i].clone();
        let ghost prev_deep = args.deep_view();
        proof {
            assert(cloned@ == config.rustc_flags@[i as int]@);
        }
        args.push(cloned);
        i = i + 1;
        proof {
            assert(args.deep_view() =~= prev_deep.push(
                config.rustc_flags.deep_view()[i - 1],
            ));
            assert(args.deep_view() =~= mandatory + config.rustc_flags.deep_view().subrange(
                0,
                i as int,
            ));
        }
    }
    proof {
        assert(mandatory + config.rustc_flags.deep_view().subrange(0, n as int) =~= mandatory
            + config.rustc_flags.deep_view());
    }
    let mut env_keys: Vec<String> = Vec::new();
    env_keys.push(String::from_str("DYLINT_LIBS"));
    env_keys.push(String::from_str("CLIPPY_DISABLE_DOCS_LINKS"));
    env_keys.push(String::from_str("DYLINT_TOML"));
    env_keys.push(String::from_str("RUST_BACKTRACE"));
    env_keys.push(String::from_str("RUST_LOG"));
    proof {
        assert(env_keys.deep_view() =~= seq![
            "DYLINT_LIBS"@,
            "CLIPPY_DISABLE_DOCS_LINKS"@,
            "DYLINT_TOML"@,
            "RUST_BACKTRACE"@,
            "RUST_LOG"@,
        ]);
    }
    RunPlan {
        program: driver.to_owned(),
        args,
        env_keys,
        filter_file: src_base.to_owned(),
        stderr_filter_pattern: String::from_str(
            "(?m)^\\[[^\\]]+\\s+DEBUG\\s+dylint_driver\\].*\\n",
        ),
        bless_command: String::from_str("BLESS=1 cargo test"),
        expected_exit_status: expected_exit_status(
            driver_file_name,
            config.expected_exit_status,
        ),
        bless: is_env_truthy(bless_value),
    }
}

/// In verify mode a run with agreeing annotations and no expectation-file
/// disagreement succeeds, and the stored expectation is unchanged.
pub proof fn lemma_verify_mode_succeeds(
    annotations_match: bool,
    fixture: Option<Seq<char>>,
    actual: Seq<char>,
)
    requires
        annotations_match,
        spec_fixture_agrees(fixture, actual),
    ensures
        spec_protocol_result(false, annotations_match, fixture, actual) == Ok::<(), TestError>(()),
        spec_protocol_fixture(false, annotations_match, fixture, actual) == fixture,
{
}

/// In verify mode a run whose annotations disagree with the diagnostics
/// fails verification, and the stored expectation is unchanged.
pub proof fn lemma_verify_mode_mismatch_fails(
    annotations_match: bool,
    fixture: Option<Seq<char>>,
    actual: Seq<char>,
)
    requires
        !annotations_match,
    ensures
        spec_protocol_result(false, annotations_match, fixture, actual) == Err::<(), TestError>(
            TestError::VerificationFailed,
        ),
        spec_protocol_fixture(false, annotations_match, fixture, actual) == fixture,
{
}

/// A verify-mode run never changes the stored expectation, whatever the
/// test looks like.
pub proof fn lemma_verify_mode_writes_nothing(
    annotations_match: bool,
    fixture: Option<Seq<char>>,
    actual: Seq<char>,
)
    ensures
        spec_protocol_fixture(false, annotations_match, fixture, actual) == fixture,
{
}

/// If the verifying pass of a blessing run fails, the run fails as a
/// verification failure and the stored expectation is unchanged: the
/// writing pass never executed.
pub proof fn lemma_failed_verification_blocks_bless(
    annotations_match: bool,
    fixture: Option<Seq<char>>,
    actual: Seq<char>,
)
    requires
        !spec_pass_succeeds(ConflictHandling::IgnoreConflicts, annotations_match, fixture, actual),
    ensures
        spec_protocol_result(true, annotations_match, fixture, actual) == Err::<(), TestError>(
            TestError::VerificationFailed,
        ),
        spec_protocol_fixture(true, annotations_match, fixture, actual) == fixture,
{
}

/// If the verifying pass of a blessing run succeeds, the run succeeds and
/// the stored expectation afterwards is exactly the actual output.
pub proof fn lemma_bless_writes_actual(
    annotations_match: bool,
    fixture: Option<Seq<char>>,
    actual: Seq<char>,
)
    requires
        spec_pass_succeeds(ConflictHandling::IgnoreConflicts, annotations_match, fixture, actual),
    ensures
        spec_protocol_result(true, annotations_match, fixture, actual) == Ok::<(), TestError>(()),
        spec_protocol_fixture(true, annotations_match, fixture, actual) == Some(actual),
{
}

/// Blessing is idempotent: a second blessing run on the expectation that a
/// successful blessing run stored succeeds and changes nothing.
pub proof fn lemma_bless_idempotent(
    annotations_match: bool,
    fixture: Option<Seq<char>>,
    actual: Seq<char>,
)
    requires
        annotations_match,
    ensures
        ({
            let blessed = spec_protocol_fixture(true, annotations_match, fixture, actual);
            spec_protocol_result(true, annotations_match, blessed, actual) == Ok::<(), TestError>(
                (),
            ) && spec_protocol_fixture(true, annotations_match, blessed, actual) == blessed
        }),
{
}

} // verus!
