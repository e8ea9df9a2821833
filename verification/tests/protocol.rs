//! The two-phase verify/bless protocol, run against concrete test
//! descriptions.

use dylint_testing::engine::{
    build_run_plan, expected_exit_status, on_pass_outcome, pass_mode, run_protocol, start_engine,
    CheckerObservation, ConflictHandling, EngineState, TestError,
};
use dylint_testing::ui::Config;

fn diagnostic() -> String {
    String::from("error[E0425]: cannot find value `undefined` in this scope")
}

#[test]
fn no_annotations_does_not_bless_even_with_env() {
    // A source like `fn main(){ let _ = undefined; }` with no annotation:
    // the diagnostic is real but unmatched, so verification fails.
    let obs = CheckerObservation {
        annotations_match: false,
        stderr_fixture: None,
        actual_stderr: diagnostic(),
    };
    let (result, after) = run_protocol(true, obs);
    assert!(result.is_err(), "verify should fail without annotations");
    assert!(
        after.stderr_fixture.is_none(),
        ".stderr must not be created when annotations are missing"
    );
}

#[test]
fn missing_annotation_does_not_write_stderr_even_on_bless() {
    let obs = CheckerObservation {
        annotations_match: false,
        stderr_fixture: None,
        actual_stderr: diagnostic(),
    };
    let (result, after) = run_protocol(true, obs);
    assert_eq!(result, Err(TestError::VerificationFailed));
    assert_eq!(after.stderr_fixture, None);
}

#[test]
fn unannotated_source_fails_without_bless() {
    // Scenario: the same unannotated source with bless unset.
    let obs = CheckerObservation {
        annotations_match: false,
        stderr_fixture: None,
        actual_stderr: diagnostic(),
    };
    let (result, after) = run_protocol(false, obs);
    assert_eq!(result, Err(TestError::VerificationFailed));
    assert!(after.stderr_fixture.is_none());
}

#[test]
fn annotations_without_bless_do_not_create_stderr() {
    // Scenario: annotated source, bless unset: the run succeeds and no
    // .stderr appears.
    let obs = CheckerObservation {
        annotations_match: true,
        stderr_fixture: None,
        actual_stderr: diagnostic(),
    };
    let (result, after) = run_protocol(false, obs);
    assert!(result.is_ok(), "run should succeed without bless when annotations match");
    assert!(after.stderr_fixture.is_none());
}

#[test]
fn bless_creates_stderr_after_verify() {
    // Scenario: annotated source, bless set: the run succeeds and the
    // .stderr holds the rendered diagnostic.
    let obs = CheckerObservation {
        annotations_match: true,
        stderr_fixture: None,
        actual_stderr: diagnostic(),
    };
    let (result, after) = run_protocol(true, obs);
    assert!(result.is_ok(), "bless pass should succeed");
    assert_eq!(after.stderr_fixture, Some(diagnostic()), "stderr must be created during bless");
}

#[test]
fn stored_mismatch_fails_strict_comparison() {
    let obs = CheckerObservation {
        annotations_match: true,
        stderr_fixture: Some(String::from("an old, different diagnostic")),
        actual_stderr: diagnostic(),
    };
    let (result, after) = run_protocol(false, obs);
    assert_eq!(result, Err(TestError::VerificationFailed));
    assert_eq!(after.stderr_fixture, Some(String::from("an old, different diagnostic")));
}

#[test]
fn matching_fixture_passes_strict_comparison() {
    let obs = CheckerObservation {
        annotations_match: true,
        stderr_fixture: Some(diagnostic()),
        actual_stderr: diagnostic(),
    };
    let (result, after) = run_protocol(false, obs);
    assert_eq!(result, Ok(()));
    assert_eq!(after.stderr_fixture, Some(diagnostic()));
}

#[test]
fn bless_twice_changes_nothing_further() {
    let obs = CheckerObservation {
        annotations_match: true,
        stderr_fixture: Some(String::from("stale")),
        actual_stderr: diagnostic(),
    };
    let (first_result, after_first) = run_protocol(true, obs);
    assert_eq!(first_result, Ok(()));
    assert_eq!(after_first.stderr_fixture, Some(diagnostic()));
    let (second_result, after_second) = run_protocol(true, after_first);
    assert_eq!(second_result, Ok(()));
    assert_eq!(after_second.stderr_fixture, Some(diagnostic()));
}

#[test]
fn engine_asks_for_strict_pass_without_bless() {
    let state = start_engine(false);
    assert_eq!(pass_mode(&state), Some(ConflictHandling::ErrorOnConflict));
}

#[test]
fn engine_asks_for_tolerant_pass_first_under_bless() {
    let state = start_engine(true);
    assert_eq!(pass_mode(&state), Some(ConflictHandling::IgnoreConflicts));
}

#[test]
fn engine_never_reaches_writing_after_failed_verify() {
    let state = start_engine(true);
    let state = on_pass_outcome(&state, false);
    assert_eq!(
        state,
        EngineState::Rejected { error: TestError::VerificationFailed }
    );
    assert_eq!(pass_mode(&state), None);
}

#[test]
fn engine_reaches_writing_only_after_passed_verify() {
    let state = start_engine(true);
    let state = on_pass_outcome(&state, true);
    assert_eq!(state, EngineState::BlessPass);
    assert_eq!(pass_mode(&state), Some(ConflictHandling::OverwriteFiles));
    let failed_write = on_pass_outcome(&state, false);
    assert_eq!(
        failed_write,
        EngineState::Rejected { error: TestError::BlessingFailed }
    );
    let good_write = on_pass_outcome(&state, true);
    assert_eq!(good_write, EngineState::Accepted);
}

#[test]
fn driver_exit_status_is_configurable() {
    assert_eq!(expected_exit_status(Some("dylint-driver-stable"), 101), 101);
    assert_eq!(expected_exit_status(Some("dylint-driver"), 7), 7);
}

#[test]
fn baseline_compiler_exit_status_is_fixed() {
    assert_eq!(expected_exit_status(Some("rustc"), 101), 1);
    assert_eq!(expected_exit_status(None, 101), 1);
}

#[test]
fn run_plan_holds_mandatory_flags_then_extras() {
    let mut config = Config::new();
    config.rustc_flags.push(String::from("--edition=2021"));
    let plan = build_run_plan(
        "/drivers/dylint-driver-stable",
        Some("dylint-driver-stable"),
        "/tmp/stage",
        &config,
        &Some(String::from("1")),
    );
    assert_eq!(plan.program, "/drivers/dylint-driver-stable");
    assert_eq!(
        plan.args,
        vec![
            String::from("-Dwarnings"),
            String::from("--emit=metadata"),
            String::from("--edition=2021"),
        ]
    );
    assert_eq!(
        plan.env_keys,
        vec![
            String::from("DYLINT_LIBS"),
            String::from("CLIPPY_DISABLE_DOCS_LINKS"),
            String::from("DYLINT_TOML"),
            String::from("RUST_BACKTRACE"),
            String::from("RUST_LOG"),
        ]
    );
    assert_eq!(plan.filter_file, "/tmp/stage");
    assert_eq!(plan.bless_command, "BLESS=1 cargo test");
    assert_eq!(plan.expected_exit_status, 101);
    assert!(plan.bless);
}

#[test]
fn run_plan_reads_the_bless_toggle() {
    let config = Config::new();
    let unset = build_run_plan("rustc", Some("rustc"), "/tmp/stage", &config, &None);
    assert!(!unset.bless);
    assert_eq!(unset.expected_exit_status, 1);
    let zero = build_run_plan(
        "rustc",
        Some("rustc"),
        "/tmp/stage",
        &config,
        &Some(String::from("0")),
    );
    assert!(!zero.bless);
    let yes = build_run_plan(
        "rustc",
        Some("rustc"),
        "/tmp/stage",
        &config,
        &Some(String::from("true")),
    );
    assert!(yes.bless);
}
