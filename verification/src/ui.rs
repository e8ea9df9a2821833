//! Test descriptions.
//!
//! A [`Config`] holds what one execution of the expectation checker may be
//! given beyond its defaults: the contents of a configuration file to
//! publish for the run's duration, extra compiler flags, and the exit
//! status expected of the diagnostic tool. A [`Test`] pairs a library name
//! with the scope to test it on — a directory of source files, one example
//! target, or every example target — and a `Config`. Building one is pure
//! description: the embedding test runner stages files and drives the
//! checker from it.

use vstd::prelude::*;

verus! {

/// What one execution of the expectation checker is configured with.
pub struct Config {
    /// Configuration-file contents published to the diagnostic tool via a
    /// well-known environment variable for the run's duration.
    pub dylint_toml: Option<String>,
    /// Extra flags handed to the compiler under test.
    pub rustc_flags: Vec<String>,
    /// The exit status expected of the diagnostic tool on detection of a
    /// diagnostic.
    pub expected_exit_status: i32,
}

impl Config {
    /// An empty configuration: no configuration file, no extra flags, and
    /// the diagnostic tool's conventional failure status.
    pub fn new() -> (c: Config)
        ensures
            c.dylint_toml is None,
            c.rustc_flags@.len() == 0,
            c.expected_exit_status == 101,
    {
        Config { dylint_toml: None, rustc_flags: Vec::new(), expected_exit_status: 101 }
    }

    /// A field-for-field copy.
    pub fn duplicate(&self) -> (c: Config)
        ensures
            c.dylint_toml.deep_view() == self.dylint_toml.deep_view(),
            c.rustc_flags.deep_view() == self.rustc_flags.deep_view(),
            c.expected_exit_status == self.expected_exit_status,
    {
        let dylint_toml = match &self.dylint_toml {
            Some(v) => Some(v.clone()),
            None => None,
        };
        let mut rustc_flags: Vec<String> = Vec::new();
        let n = self.rustc_flags.len();
        let mut i: usize = 0;
        while i < n
            invariant
                n == self.rustc_flags@.len(),
                i <= n,
                rustc_flags.deep_view() == self.rustc_flags.deep_view().subrange(0, i as int),
            decreases n - i,
        {
            let cloned = self.rustc_flags[i].clone();
            let ghost prev_deep = rustc_flags.deep_view();
            proof {
                assert(cloned@ == self.rustc_flags@[i as int]@);
            }
            rustc_flags.push(cloned);
            i = i + 1;
            proof {
                assert(rustc_flags.deep_view() =~= prev_deep.push(
                    self.rustc_flags.deep_view()[i - 1],
                ));
                assert(rustc_flags.deep_view() =~= self.rustc_flags.deep_view().subrange(
                    0,
                    i as int,
                ));
            }
        }
        proof {
            assert(self.rustc_flags.deep_view().subrange(0, n as int) =~= self
                .rustc_flags
                .deep_view());
        }
        Config { dylint_toml, rustc_flags, expected_exit_status: self.expected_exit_status }
    }
}

impl Default for Config {
    /// The empty configuration.
    fn default() -> (c: Config)
        ensures
            c.dylint_toml is None,
            c.rustc_flags@.len() == 0,
            c.expected_exit_status == 101,
    {
        Config::new()
    }
}

/// What a test runs the library on.
pub enum TestScope {
    /// Every source file in a directory, beside its expectation files.
    Directory { src_base: String },
    /// One example target.
    Example { example: String },
    /// Every example target.
    Examples,
}

/// One test of a library: the library's name, the scope to test it on,
/// and the checker configuration.
pub struct Test {
    pub name: String,
    pub scope: TestScope,
    pub config: Config,
}

impl Test {
    /// A test of the library `name` on all source files in `src_base`.
    pub fn src_base(name: &str, src_base: &str) -> (t: Test)
        ensures
            t.name@ == name@,
            t.scope matches TestScope::Directory { src_base: d } && d@ == src_base@,
            t.config.dylint_toml is None,
            t.config.rustc_flags@.len() == 0,
            t.config.expected_exit_status == 101,
    {
        Test {
            name: name.to_owned(),
            scope: TestScope::Directory { src_base: src_base.to_owned() },
            config: Config::new(),
        }
    }

    /// A test of the library `name` on the example target `example`.
    pub fn example(name: &str, example: &str) -> (t: Test)
        ensures
            t.name@ == name@,
            t.scope matches TestScope::Example { example: e } && e@ == example@,
            t.config.dylint_toml is None,
            t.config.rustc_flags@.len() == 0,
            t.config.expected_exit_status == 101,
    {
        Test {
            name: name.to_owned(),
            scope: TestScope::Example { example: example.to_owned() },
            config: Config::new(),
        }
    }

    /// A test of the library `name` on all its example targets.
    pub fn examples(name: &str) -> (t: Test)
        ensures
            t.name@ == name@,
            t.scope is Examples,
            t.config.dylint_toml is None,
            t.config.rustc_flags@.len() == 0,
            t.config.expected_exit_status == 101,
    {
        Test { name: name.to_owned(), scope: TestScope::Examples, config: Config::new() }
    }

    /// The same test with the given configuration-file contents.
    pub fn dylint_toml(self, value: &str) -> (t: Test)
        ensures
            t.name@ == self.name@,
            t.scope == self.scope,
            t.config.dylint_toml matches Some(v) && v@ == value@,
            t.config.rustc_flags.deep_view() == self.config.rustc_flags.deep_view(),
            t.config.expected_exit_status == self.config.expected_exit_status,
    {
        Test {
            name: self.name,
            scope: self.scope,
            config: Config {
                dylint_toml: Some(value.to_owned()),
                rustc_flags: self.config.rustc_flags,
                expected_exit_status: self.config.expected_exit_status,
            },
        }
    }

    /// The same test with the given flags appended to the compiler flags.
    pub fn rustc_flags(self, flags: &Vec<String>) -> (t: Test)
        ensures
            t.name@ == self.name@,
            t.scope == self.scope,
            t.config.dylint_toml.deep_view() == self.config.dylint_toml.deep_view(),
            t.config.rustc_flags.deep_view() == self.config.rustc_flags.deep_view()
                + flags.deep_view(),
            t.config.expected_exit_status == self.config.expected_exit_status,
    {
        let mut rustc_flags = self.config.rustc_flags;
        let ghost base = rustc_flags.deep_view();
        let n = flags.len();
        let mut i: usize = 0;
        while i < n
            invariant
                n == flags@.len(),
                i <= n,
                rustc_flags.deep_view() == base + flags.deep_view().subrange(0, i as int),
            decreases n - i,
        {
            let cloned = flags[i].clone();
            let ghost prev_deep = rustc_flags.deep_view();
            proof {
                assert(cloned@ == flags@[i as int]@);
            }
            rustc_flags.push(cloned);
            i = i + 1;
            proof {
                assert(rustc_flags.deep_view() =~= prev_deep.push(flags.deep_view()[i - 1]));
                assert(rustc_flags.deep_view() =~= base + flags.deep_view().subrange(0, i as int));
            }
        }
        proof {
            assert(base + flags.deep_view().subrange(0, n as int) =~= base + flags.deep_view());
        }
        Test {
            name: self.name,
            scope: self.scope,
            config: Config {
                dylint_toml: self.config.dylint_toml,
                rustc_flags,
                expected_exit_status: self.config.expected_exit_status,
            },
        }
    }
}

} // verus!
