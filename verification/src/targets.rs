//! Targets, build artifacts, and the staging of one example test.
//!
//! A target is a single buildable unit of the package under test, read
//! from the package's metadata and handed over as plain values. Selecting
//! the example targets, recognizing a target's built artifact by its file
//! name, naming the library file a diagnostic tool is loaded from, and
//! planning the staging of one example's files are decided here; the
//! embedding test runner queries the metadata, walks directories, and
//! copies files.

use crate::text::{
    append_clones, chars_eq, replace_extension, replace_extension_spec, snake_case,
    snake_case_spec, starts_with_chars, string_to_chars,
};
use crate::ui::Config;
use vstd::prelude::*;

verus! {

/// One buildable unit of a package: its name, whether it is an example
/// target, and the path of its source file.
pub struct TargetInfo {
    pub name: String,
    pub kind_is_example: bool,
    pub src_path: String,
}

/// The mathematical content of a target description.
pub struct TargetView {
    pub name: Seq<char>,
    pub kind_is_example: bool,
    pub src_path: Seq<char>,
}

impl View for TargetInfo {
    type V = TargetView;

    open spec fn view(&self) -> TargetView {
        TargetView {
            name: self.name@,
            kind_is_example: self.kind_is_example,
            src_path: self.src_path@,
        }
    }
}

impl TargetInfo {
    /// A field-for-field copy.
    pub fn duplicate(&self) -> (t: TargetInfo)
        ensures
            t@ == self@,
    {
        TargetInfo {
            name: self.name.clone(),
            kind_is_example: self.kind_is_example,
            src_path: self.src_path.clone(),
        }
    }
}

/// Why a target could not be selected.
#[derive(Clone, Copy, Debug, PartialEq, Eq, Structural)]
pub enum TargetError {
    /// No example target of the requested name exists in the package.
    ExampleNotFound,
}

/// Whether a target is the example named `name`.
pub open spec fn spec_is_example_named(t: TargetView, name: Seq<char>) -> bool {
    t.kind_is_example && t.name == name
}

/// Selects the example target named `example` from a package's targets:
/// the first one of that name and kind, or the error that none exists.
pub fn example_target(targets: &Vec<TargetInfo>, example: &str) -> (r: Result<
    TargetInfo,
    TargetError,
>)
    ensures
        match r {
            Ok(t) => exists|i: int|
                0 <= i < targets@.len() && spec_is_example_named(#[trigger] targets@[i]@, example@)
                    && t@ == targets@[i]@ && (forall|j: int|
                    0 <= j < i ==> !spec_is_example_named(#[trigger] targets@[j]@, example@)),
            Err(e) => e == TargetError::ExampleNotFound && (forall|i: int|
                0 <= i < targets@.len() ==> !spec_is_example_named(
                    #[trigger] targets@[i]@,
                    example@,
                )),
        },
{
    let example_chars = string_to_chars(example);
    let n = targets.len();
    let mut i: usize = 0;
    while i < n
        invariant
            n == targets@.len(),
            i <= n,
            example_chars@ == example@,
            forall|j: int|
                0 <= j < i ==> !spec_is_example_named(#[trigger] targets@[j]@, example@),
        decreases n - i,
    {
        if targets[i].kind_is_example {
            let name_chars = string_to_chars(targets[i].name.as_str());
            if chars_eq(&name_chars, &example_chars) {
                return Ok(targets[i].duplicate());
            }
        }
        i = i + 1;
    }
    Err(TargetError::ExampleNotFound)
}

/// The example targets among a sequence of target descriptions, in order.
pub open spec fn spec_example_targets(ts: Seq<TargetView>) -> Seq<TargetView> {
    ts.filter(|t: TargetView| t.kind_is_example)
}

/// The views of a vector of targets.
pub open spec fn targets_view(ts: Seq<TargetInfo>) -> Seq<TargetView> {
    ts.map_values(|t: TargetInfo| t@)
}

proof fn lemma_example_filter_push(s: Seq<TargetView>, x: TargetView)
    ensures
        spec_example_targets(s.push(x)) == if x.kind_is_example {
            spec_example_targets(s).push(x)
        } else {
            spec_example_targets(s)
        },
{
    reveal(Seq::filter);
    assert(s.push(x).drop_last() =~= s);
    assert(s.push(x).last() == x);
}

/// Selects every example target from a package's targets, in order.
pub fn example_targets(targets: &Vec<TargetInfo>) -> (r: Vec<TargetInfo>)
    ensures
        targets_view(r@) == spec_example_targets(targets_view(targets@)),
{
    let n = targets.len();
    let mut r: Vec<TargetInfo> = Vec::new();
    let mut i: usize = 0;
    proof {
        reveal(Seq::filter);
        assert(targets_view(r@) =~= spec_example_targets(targets_view(targets@.subrange(0, 0))));
    }
    while i < n
        invariant
            n == targets@.len(),
            i <= n,
            targets_view(r@) == spec_example_targets(targets_view(targets@.subrange(0, i as int))),
        decreases n - i,
    {
        let ghost prefix = targets_view(targets@.subrange(0, i as int));
        proof {
            assert(targets_view(targets@.subrange(0, i as int + 1)) =~= prefix.push(
                targets@[i as int]@,
            ));
            lemma_example_filter_push(prefix, targets@[i as int]@);
        }
        if targets[i].kind_is_example {
            let ghost prev = r@;
            let copy = targets[i].duplicate();
            r.push(copy);
            proof {
                assert(targets_view(r@) =~= targets_view(prev).push(targets@[i as int]@));
            }
        }
        i = i + 1;
    }
    proof {
        assert(targets@.subrange(0, n as int) =~= targets@);
    }
    r
}

/// Whether a file in the package's example output directory is a built
/// artifact of the target: its name is the normalized target name with the
/// platform's executable suffix, or begins with the normalized target name
/// and a dash (a hashed artifact of it).
pub open spec fn spec_is_example_artifact(
    file_name: Seq<char>,
    target: Seq<char>,
    exe_suffix: Seq<char>,
) -> bool {
    let base = snake_case_spec(target);
    file_name == base + exe_suffix || (base + seq!['-']).is_prefix_of(file_name)
}

/// Recognizes a built artifact of the target named `target_name` by its
/// file name; `exe_suffix` is the platform's executable suffix, read by
/// the caller and handed over.
pub fn is_example_artifact(file_name: &str, target_name: &str, exe_suffix: &str) -> (r: bool)
    ensures
        r == spec_is_example_artifact(file_name@, target_name@, exe_suffix@),
{
    let name_chars = string_to_chars(file_name);
    let snake = snake_case(target_name);
    let mut exact = string_to_chars(snake.as_str());
    let mut dashed = string_to_chars(snake.as_str());
    let suffix_chars = string_to_chars(exe_suffix);
    let m = suffix_chars.len();
    let mut i: usize = 0;
    while i < m
        invariant
            m == suffix_chars@.len(),
            i <= m,
            exact@ == snake_case_spec(target_name@) + suffix_chars@.subrange(0, i as int),
            suffix_chars@ == exe_suffix@,
        decreases m - i,
    {
        exact.push(suffix_chars[i]);
        i = i + 1;
        proof {
            assert(exact@ =~= snake_case_spec(target_name@) + suffix_chars@.subrange(0, i as int));
        }
    }
    proof {
        assert(snake_case_spec(target_name@) + suffix_chars@.subrange(0, m as int)
            =~= snake_case_spec(target_name@) + exe_suffix@);
    }
    dashed.push('-');
    proof {
        assert(dashed@ =~= snake_case_spec(target_name@) + seq!['-']);
    }
    if chars_eq(&name_chars, &exact) {
        return true;
    }
    starts_with_chars(&name_chars, &dashed)
}

/// The file name of a built diagnostic library: the platform's library
/// prefix, the normalized library name, an at sign, the toolchain, and the
/// platform's library suffix. The caller reads the platform's prefix and
/// suffix and hands them over.
pub fn library_filename(name: &str, toolchain: &str, dll_prefix: &str, dll_suffix: &str) -> (r:
    String)
    ensures
        r@ == dll_prefix@ + snake_case_spec(name@) + "@"@ + toolchain@ + dll_suffix@,
{
    let snake = snake_case(name);
    let r = dll_prefix.to_owned().concat(snake.as_str()).concat("@").concat(toolchain).concat(
        dll_suffix,
    );
    proof {
        assert(r@ =~= dll_prefix@ + snake_case_spec(name@) + "@"@ + toolchain@ + dll_suffix@);
    }
    r
}

/// What `serde_json::to_string` returns for a list of strings: its JSON
/// encoding, an array of JSON strings. The result depends on the list
/// alone.
pub uninterp spec fn json_of_strings(elems: Seq<Seq<char>>) -> Seq<char>;

/// Relies on `serde_json::to_string`: encodes a list of strings as a JSON
/// array. On a vector of strings serialization cannot fail: a string
/// serializes infallibly and no map keys are involved.
#[verifier::external_body]
fn to_json_strings(v: &Vec<String>) -> (r: Option<String>)
    ensures
        r is Some,
        r matches Some(s) ==> s@ == json_of_strings(v.deep_view()),
{
    serde_json::to_string(v).ok()
}

/// The JSON list naming the one library file the diagnostic driver loads:
/// the built library's path under the target directory's `debug`
/// subdirectory, as a one-element JSON array. The caller reads the target
/// directory, the toolchain, and the platform's library prefix and suffix,
/// and hands them over.
pub fn dylint_libs(
    name: &str,
    toolchain: &str,
    target_directory: &str,
    dll_prefix: &str,
    dll_suffix: &str,
) -> (r: String)
    ensures
        r@ == json_of_strings(
            seq![
                target_directory@ + "/debug/"@ + dll_prefix@ + snake_case_spec(name@) + "@"@
                    + toolchain@ + dll_suffix@,
            ],
        ),
{
    let filename = library_filename(name, toolchain, dll_prefix, dll_suffix);
    let path = target_directory.to_owned().concat("/debug/").concat(filename.as_str());
    let mut paths: Vec<String> = Vec::new();
    paths.push(path);
    proof {
        assert(paths.deep_view() =~~= seq![
            target_directory@ + "/debug/"@ + dll_prefix@ + snake_case_spec(name@) + "@"@
                + toolchain@ + dll_suffix@,
        ]);
    }
    match to_json_strings(&paths) {
        Some(s) => s,
        None => vstd::pervasive::unreached(),
    }
}

/// The staging of one example test: the file to copy into an isolated
/// directory, the expectation files to copy beside it when they exist
/// (a missing one is no error), and the checker configuration with the
/// recovered linking flags appended.
pub struct StagePlan {
    /// The example's source file name; the staged copy keeps it.
    pub file_name: String,
    /// Sibling files to copy when present: the source's name with each
    /// expectation extension.
    pub optional_siblings: Vec<String>,
    /// The configuration to run the checker with in the staged directory.
    pub config: Config,
}

/// Plans one example test: given the example's source file name and the
/// linking flags recovered for it, names the files to stage and merges the
/// flags into the configuration.
pub fn run_example_test(file_name: &str, linking_flags: &Vec<String>, config: &Config) -> (p:
    StagePlan)
    ensures
        p.file_name@ == file_name@,
        p.optional_siblings.deep_view() == seq![
            replace_extension_spec(file_name@, "fixed"@),
            replace_extension_spec(file_name@, "stderr"@),
            replace_extension_spec(file_name@, "stdout"@),
        ],
        p.config.dylint_toml.deep_view() == config.dylint_toml.deep_view(),
        p.config.rustc_flags.deep_view() == config.rustc_flags.deep_view()
            + linking_flags.deep_view(),
        p.config.expected_exit_status == config.expected_exit_status,
{
    let mut optional_siblings: Vec<String> = Vec::new();
    optional_siblings.push(replace_extension(file_name, "fixed"));
    optional_siblings.push(replace_extension(file_name, "stderr"));
    optional_siblings.push(replace_extension(file_name, "stdout"));
    proof {
        assert(optional_siblings.deep_view() =~= seq![
            replace_extension_spec(file_name@, "fixed"@),
            replace_extension_spec(file_name@, "stderr"@),
            replace_extension_spec(file_name@, "stdout"@),
        ]);
    }
    let base = config.duplicate();
    let rustc_flags = append_clones(base.rustc_flags, linking_flags);
    StagePlan {
        file_name: file_name.to_owned(),
        optional_siblings,
        config: Config {
            dylint_toml: base.dylint_toml,
            rustc_flags,
            expected_exit_status: base.expected_exit_status,
        },
    }
}

} // verus!
