//! Target selection, artifact recognition, environment scoping, and the
//! staging of example tests.

use dylint_testing::env::{is_env_truthy, RestoreOp, VarGuard};
use dylint_testing::targets::{
    dylint_libs, example_target, example_targets, is_example_artifact, library_filename,
    run_example_test, TargetError, TargetInfo,
};
use dylint_testing::ui::{Config, Test, TestScope};
use dylint_testing::{ui_test, ui_test_example, ui_test_examples};

fn sample_targets() -> Vec<TargetInfo> {
    vec![
        TargetInfo {
            name: String::from("demo"),
            kind_is_example: false,
            src_path: String::from("/pkg/src/lib.rs"),
        },
        TargetInfo {
            name: String::from("first"),
            kind_is_example: true,
            src_path: String::from("/pkg/examples/first.rs"),
        },
        TargetInfo {
            name: String::from("second"),
            kind_is_example: true,
            src_path: String::from("/pkg/examples/second.rs"),
        },
    ]
}

#[test]
fn example_target_finds_the_named_example() {
    let targets = sample_targets();
    let t = example_target(&targets, "second").unwrap();
    assert_eq!(t.name, "second");
    assert!(t.kind_is_example);
    assert_eq!(t.src_path, "/pkg/examples/second.rs");
}

#[test]
fn example_target_ignores_non_example_targets() {
    let targets = sample_targets();
    assert!(matches!(
        example_target(&targets, "demo"),
        Err(TargetError::ExampleNotFound)
    ));
    assert!(matches!(
        example_target(&targets, "absent"),
        Err(TargetError::ExampleNotFound)
    ));
}

#[test]
fn example_targets_keeps_examples_in_order() {
    let targets = sample_targets();
    let examples = example_targets(&targets);
    assert_eq!(examples.len(), 2);
    assert_eq!(examples[0].name, "first");
    assert_eq!(examples[1].name, "second");
}

#[test]
fn artifacts_match_by_normalized_name() {
    assert!(is_example_artifact("my_example", "my-example", ""));
    assert!(is_example_artifact("my_example.exe", "my-example", ".exe"));
    assert!(is_example_artifact("my_example-8c14d66b0e3f2c1a", "my-example", ""));
    assert!(!is_example_artifact("my-example", "my-example", ""));
    assert!(!is_example_artifact("my_example_bin", "my-example", ""));
    assert!(!is_example_artifact("other", "my-example", ""));
}

#[test]
fn library_filenames_carry_the_toolchain() {
    assert_eq!(
        library_filename("my-lint", "stable-x86_64-unknown-linux-gnu", "lib", ".so"),
        "libmy_lint@stable-x86_64-unknown-linux-gnu.so"
    );
}

#[test]
fn dylint_libs_names_the_one_library_as_json() {
    assert_eq!(
        dylint_libs("foo", "stable-x86_64-unknown-linux-gnu", "/work/target", "lib", ".so"),
        "[\"/work/target/debug/libfoo@stable-x86_64-unknown-linux-gnu.so\"]"
    );
}

#[test]
fn staging_names_the_sibling_expectation_files() {
    let config = Config::new();
    let plan = run_example_test("first.rs", &vec![String::from("--edition=2021")], &config);
    assert_eq!(plan.file_name, "first.rs");
    assert_eq!(
        plan.optional_siblings,
        vec![
            String::from("first.fixed"),
            String::from("first.stderr"),
            String::from("first.stdout"),
        ]
    );
    assert_eq!(plan.config.rustc_flags, vec![String::from("--edition=2021")]);
    assert_eq!(plan.config.expected_exit_status, 101);
}

#[test]
fn staging_appends_linking_flags_to_configured_flags() {
    let mut config = Config::new();
    config.rustc_flags.push(String::from("--cfg=demo"));
    let linking = vec![String::from("-L"), String::from("/deps")];
    let plan = run_example_test("ex.rs", &linking, &config);
    assert_eq!(
        plan.config.rustc_flags,
        vec![String::from("--cfg=demo"), String::from("-L"), String::from("/deps")]
    );
}

#[test]
fn env_values_select_the_mode_case_insensitively() {
    assert!(is_env_truthy(&Some(String::from("1"))));
    assert!(is_env_truthy(&Some(String::from("true"))));
    assert!(is_env_truthy(&Some(String::from("TRUE"))));
    assert!(is_env_truthy(&Some(String::from("True"))));
    assert!(!is_env_truthy(&Some(String::from("0"))));
    assert!(!is_env_truthy(&Some(String::from("yes"))));
    assert!(!is_env_truthy(&Some(String::from(""))));
    assert!(!is_env_truthy(&None));
}

#[test]
fn a_scope_restores_an_unset_variable_by_unsetting() {
    let guard = VarGuard::set("DYLINT_TOML", None);
    assert_eq!(guard.key, "DYLINT_TOML");
    assert!(matches!(guard.restore_op(), RestoreOp::Unset));
}

#[test]
fn a_scope_restores_a_set_variable_to_its_prior_value() {
    let guard = VarGuard::set("DYLINT_TOML", Some(String::from("[lint]")));
    match guard.restore_op() {
        RestoreOp::SetTo { value } => assert_eq!(value, "[lint]"),
        RestoreOp::Unset => panic!("prior value must be restored"),
    }
}

#[test]
fn ui_test_describes_a_directory_run() {
    let t = ui_test("my-lint", "ui");
    assert_eq!(t.name, "my-lint");
    match &t.scope {
        TestScope::Directory { src_base } => assert_eq!(src_base, "ui"),
        _ => panic!("ui_test must target a directory"),
    }
    assert!(t.config.dylint_toml.is_none());
    assert!(t.config.rustc_flags.is_empty());
}

#[test]
fn ui_test_example_describes_one_example() {
    let t = ui_test_example("my-lint", "my-example");
    match &t.scope {
        TestScope::Example { example } => assert_eq!(example, "my-example"),
        _ => panic!("ui_test_example must target one example"),
    }
}

#[test]
fn ui_test_examples_describes_all_examples() {
    let t = ui_test_examples("my-lint");
    assert!(matches!(t.scope, TestScope::Examples));
}

#[test]
fn the_builder_extends_the_configuration() {
    let t = Test::src_base("my-lint", "ui")
        .dylint_toml("[my_lint]\nthreshold = 3")
        .rustc_flags(&vec![String::from("--cfg=extra")]);
    assert_eq!(t.config.dylint_toml.as_deref(), Some("[my_lint]\nthreshold = 3"));
    assert_eq!(t.config.rustc_flags, vec![String::from("--cfg=extra")]);
    assert_eq!(t.config.expected_exit_status, 101);
}
