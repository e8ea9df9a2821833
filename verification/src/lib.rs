//! A test harness for checking the diagnostics that a dylint library
//! produces on example programs against stored expectation files.
//!
//! The harness recovers the `rustc` flags that a normal build of a target
//! would use by parsing a verbose build log, stages the target's source
//! beside its expectation files, and drives an expectation checker in one of
//! two ways: a single strict comparison pass, or a two-pass "bless" protocol
//! that first verifies the test's inline annotations and only then rewrites
//! the expectation files. Blessing is never reached through a failing
//! verification.
//!
//! Everything that decides — the log grammar, the flag selection, the
//! two-pass protocol, the environment-override bookkeeping — lives here with
//! contracts. The surrounding process work (running the build tool, invoking
//! the checker, copying files, reading and writing environment variables) is
//! left to the embedding binary or test runner, which hands the results back
//! as plain values.

use vstd::prelude::*;

pub mod engine;
pub mod env;
pub mod flags;
pub mod invocation;
pub mod targets;
pub mod text;
pub mod ui;

verus! {

/// Describes a test of the library `name` on all source files in a
/// directory: `.rs` files beside the expectation files they should
/// produce. The embedding test runner executes the description.
pub fn ui_test(name: &str, src_base: &str) -> (t: ui::Test)
    ensures
        t.name@ == name@,
        t.scope matches ui::TestScope::Directory { src_base: d } && d@ == src_base@,
        t.config.dylint_toml is None,
        t.config.rustc_flags@.len() == 0,
        t.config.expected_exit_status == 101,
{
    ui::Test::src_base(name, src_base)
}

/// Describes a test of the library `name` on one example target.
pub fn ui_test_example(name: &str, example: &str) -> (t: ui::Test)
    ensures
        t.name@ == name@,
        t.scope matches ui::TestScope::Example { example: e } && e@ == example@,
        t.config.dylint_toml is None,
        t.config.rustc_flags@.len() == 0,
        t.config.expected_exit_status == 101,
{
    ui::Test::example(name, example)
}

/// Describes a test of the library `name` on all its example targets.
pub fn ui_test_examples(name: &str) -> (t: ui::Test)
    ensures
        t.name@ == name@,
        t.scope is Examples,
        t.config.dylint_toml is None,
        t.config.rustc_flags@.len() == 0,
        t.config.expected_exit_status == 101,
{
    ui::Test::examples(name)
}

} // verus!
