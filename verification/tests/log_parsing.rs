//! Recovering a compiler invocation and its linking flags from verbose
//! build logs.

use dylint_testing::flags::{
    linking_flags, linking_flags_of_invocation, next, next_arg_for_flag, FlagCache,
};
use dylint_testing::invocation::{rustc_flags, RecoverError};
use dylint_testing::text::{replace_extension, snake_case};

fn log(lines: &[&str]) -> Vec<Option<String>> {
    lines.iter().map(|l| Some(String::from(*l))).collect()
}

#[test]
fn snake_case_normalizes_dashes() {
    assert_eq!(snake_case("my-example"), "my_example");
    assert_eq!(snake_case("plain"), "plain");
    assert_eq!(snake_case("a-b-c"), "a_b_c");
    assert_eq!(snake_case(""), "");
}

#[test]
fn recovers_the_one_matching_invocation() {
    let lines = log(&[
        "   Compiling demo v0.1.0 (/work/demo)",
        "     Running `rustc --crate-name other --edition=2021 other.rs`",
        "     Running `rustc --crate-name demo --edition=2021 demo.rs -L /deps`",
        "    Finished dev [unoptimized] target(s)",
    ]);
    let args = rustc_flags(&lines, "demo").unwrap();
    assert_eq!(
        args,
        vec![
            String::from("rustc"),
            String::from("--crate-name"),
            String::from("demo"),
            String::from("--edition=2021"),
            String::from("demo.rs"),
            String::from("-L"),
            String::from("/deps"),
        ]
    );
}

#[test]
fn two_running_lines_for_one_target_are_ambiguous() {
    let lines = log(&[
        "     Running `rustc --crate-name demo a.rs`",
        "     Running `rustc --crate-name demo b.rs`",
    ]);
    assert_eq!(rustc_flags(&lines, "demo"), Err(RecoverError::AmbiguousInvocation));
}

#[test]
fn a_log_without_the_invocation_is_an_error() {
    let lines = log(&[
        "   Compiling demo v0.1.0 (/work/demo)",
        "    Finished dev [unoptimized] target(s)",
    ]);
    assert_eq!(rustc_flags(&lines, "demo"), Err(RecoverError::NoInvocationFound));
}

#[test]
fn an_undecodable_line_is_an_error() {
    let lines = vec![
        Some(String::from("     Running `rustc --crate-name demo a.rs`")),
        None,
    ];
    assert_eq!(rustc_flags(&lines, "demo"), Err(RecoverError::UnreadableOutput));
}

#[test]
fn dashed_target_names_match_their_underscore_form() {
    // The build tool normalizes `my-example` to `my_example` in the
    // invocation it prints; recovery must match the normalized form.
    let lines = log(&["     Running `rustc --crate-name my_example ex.rs`"]);
    assert!(rustc_flags(&lines, "my-example").is_ok());

    let dashed = log(&["     Running `rustc --crate-name my-example ex.rs`"]);
    assert_eq!(
        rustc_flags(&dashed, "my-example"),
        Err(RecoverError::NoInvocationFound)
    );
}

#[test]
fn only_compiler_invocations_match() {
    let lines = log(&[
        "     Running `cargo --crate-name demo`",
        "     Running `/x/bin/sccache --crate-name demo`",
    ]);
    assert_eq!(rustc_flags(&lines, "demo"), Err(RecoverError::NoInvocationFound));
}

#[test]
fn a_full_compiler_path_matches() {
    let lines =
        log(&["     Running `/home/u/.rustup/toolchains/stable/bin/rustc --crate-name demo d.rs`"]);
    assert!(rustc_flags(&lines, "demo").is_ok());
}

#[test]
fn lines_of_other_shapes_are_ignored() {
    let lines = log(&[
        "Running rustc --crate-name demo d.rs",
        "     Running `rustc --crate-name demo d.rs` and more",
        "note: Running `rustc --crate-name demo d.rs`",
    ]);
    // The first has no backticks, the second does not end at the backtick,
    // the third does not start with `Running`.
    assert_eq!(rustc_flags(&lines, "demo"), Err(RecoverError::NoInvocationFound));
}

#[test]
fn linking_flags_keep_edition_extern_and_search_paths() {
    let args = vec![
        String::from("rustc"),
        String::from("--crate-name"),
        String::from("demo"),
        String::from("--edition=2021"),
        String::from("-O"),
        String::from("--extern"),
        String::from("'alpha=/deps/libalpha.rlib'"),
        String::from("-L"),
        String::from("dependency=/deps"),
        String::from("--cfg"),
        String::from("test"),
    ];
    let flags = linking_flags_of_invocation(&args).unwrap();
    assert_eq!(
        flags,
        vec![
            String::from("--edition=2021"),
            String::from("--extern"),
            String::from("alpha=/deps/libalpha.rlib"),
            String::from("-L"),
            String::from("dependency=/deps"),
        ]
    );
}

#[test]
fn a_trailing_link_flag_is_malformed() {
    let args = vec![
        String::from("rustc"),
        String::from("--edition=2021"),
        String::from("--extern"),
    ];
    assert_eq!(
        linking_flags_of_invocation(&args),
        Err(RecoverError::MissingFlagArgument)
    );
}

#[test]
fn linking_flags_compose_recovery_and_reduction() {
    let lines = log(&[
        "   Compiling demo v0.1.0",
        "     Running `rustc --crate-name demo --edition=2021 -O --extern 'a=/l/liba.rlib' demo.rs`",
    ]);
    let flags = linking_flags(&lines, "demo").unwrap();
    assert_eq!(
        flags,
        vec![
            String::from("--edition=2021"),
            String::from("--extern"),
            String::from("a=/l/liba.rlib"),
        ]
    );
}

#[test]
fn next_yields_the_following_token_or_fails() {
    let args = vec![String::from("--extern"), String::from("a=/l/liba.rlib")];
    assert_eq!(next("--extern", &args, 1), Ok(String::from("a=/l/liba.rlib")));
    assert_eq!(next("--extern", &args, 2), Err(RecoverError::MissingFlagArgument));
    assert_eq!(
        next_arg_for_flag("--extern", &args, 1),
        Ok(String::from("a=/l/liba.rlib"))
    );
    assert_eq!(
        next_arg_for_flag("--extern", &args, 5),
        Err(RecoverError::MissingFlagArgument)
    );
}

#[test]
fn the_flag_cache_is_written_once_per_key() {
    let mut cache = FlagCache::new();
    assert!(cache.get("demo").is_none());
    cache.insert("demo", vec![String::from("--edition=2021")]);
    assert_eq!(cache.get("demo"), Some(&vec![String::from("--edition=2021")]));
    // A later write for the same key changes nothing.
    cache.insert("demo", vec![String::from("--edition=2024")]);
    assert_eq!(cache.get("demo"), Some(&vec![String::from("--edition=2021")]));
    // Other keys are independent.
    cache.insert("other", vec![String::from("-L"), String::from("/deps")]);
    assert_eq!(
        cache.get("other"),
        Some(&vec![String::from("-L"), String::from("/deps")])
    );
    assert_eq!(cache.get("demo"), Some(&vec![String::from("--edition=2021")]));
    assert!(cache.get("third").is_none());
}

#[test]
fn extensions_replace_after_the_last_dot() {
    assert_eq!(replace_extension("foo.rs", "stderr"), "foo.stderr");
    assert_eq!(replace_extension("archive.tar.gz", "stderr"), "archive.tar.stderr");
    assert_eq!(replace_extension("noext", "stderr"), "noext.stderr");
    assert_eq!(replace_extension(".hidden", "stderr"), ".hidden.stderr");
}
