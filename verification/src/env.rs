//! The mode toggle read from the environment, and scoped overrides of one
//! environment variable.
//!
//! Nothing here touches the process environment itself: the caller reads a
//! variable and hands its value over, and performs the set or unset that a
//! released override prescribes. What is decided here — when a value
//! selects a mode, and which operation restores a variable's prior state —
//! carries the contracts.

use vstd::prelude::*;

verus! {

/// What `str::to_lowercase` returns for a string: its Unicode lowercase
/// form. The result depends on the characters alone.
pub uninterp spec fn lower_of(s: Seq<char>) -> Seq<char>;

/// Relies on `str::to_lowercase`: returns the string's lowercase form,
/// which depends on its characters alone; an empty string stays empty.
#[verifier::external_body]
fn lowercase(s: &str) -> (r: String)
    ensures
        r@ == lower_of(s@),
        s@.len() == 0 ==> r@.len() == 0,
{
    s.to_lowercase()
}

/// Whether an environment value selects a mode: its lowercase form is
/// `true` or `1`. An unset variable selects nothing.
pub open spec fn spec_is_truthy(v: Option<Seq<char>>) -> bool {
    match v {
        Some(s) => lower_of(s) == "true"@ || lower_of(s) == "1"@,
        None => false,
    }
}

/// Whether an environment variable's value, read by the caller and handed
/// over, is truthy: `true` or `1` in any letter case.
pub fn is_env_truthy(value: &Option<String>) -> (r: bool)
    ensures
        r == spec_is_truthy(value.deep_view()),
{
    match value {
        Some(s) => {
            let lower = lowercase(s.as_str());
            let yes = String::from_str("true");
            let one = String::from_str("1");
            lower == yes || lower == one
        },
        None => false,
    }
}

/// The operation that restores an overridden variable's prior state.
pub enum RestoreOp {
    /// The variable was unset before the override: unset it.
    Unset,
    /// The variable held `value` before the override: set it back.
    SetTo { value: String },
}

/// A scoped override of one environment variable: the variable's name
/// paired with the value it held before the override, so that releasing
/// the scope can restore it on every exit path. At most one override per
/// variable may be live at a time; the caller serializes test runs to
/// guarantee that.
pub struct VarGuard {
    pub key: String,
    pub prior: Option<String>,
}

impl VarGuard {
    /// Records the override of `key`; the caller read the variable's value
    /// before overriding it and hands that prior value over.
    pub fn set(key: &str, prior: Option<String>) -> (g: VarGuard)
        ensures
            g.key@ == key@,
            g.prior.deep_view() == prior.deep_view(),
    {
        VarGuard { key: key.to_owned(), prior }
    }

    /// The operation that undoes the override.
    pub fn restore_op(&self) -> (op: RestoreOp)
        ensures
            match op {
                RestoreOp::Unset => self.prior is None,
                RestoreOp::SetTo { value } => self.prior matches Some(p) && value@ == p@,
            },
    {
        match &self.prior {
            None => RestoreOp::Unset,
            Some(p) => RestoreOp::SetTo { value: p.clone() },
        }
    }
}

/// An environment modelled as the mapping from variable names to values;
/// setting a variable.
pub open spec fn env_after_set(
    env: Map<Seq<char>, Seq<char>>,
    key: Seq<char>,
    value: Seq<char>,
) -> Map<Seq<char>, Seq<char>> {
    env.insert(key, value)
}

/// The value a variable holds in an environment, if any.
pub open spec fn env_lookup(env: Map<Seq<char>, Seq<char>>, key: Seq<char>) -> Option<Seq<char>> {
    if env.dom().contains(key) {
        Some(env[key])
    } else {
        None
    }
}

/// The environment after the restore for a recorded prior value runs:
/// setting the value back, or unsetting the variable.
pub open spec fn env_after_restore(
    env: Map<Seq<char>, Seq<char>>,
    key: Seq<char>,
    prior: Option<Seq<char>>,
) -> Map<Seq<char>, Seq<char>> {
    match prior {
        Some(v) => env.insert(key, v),
        None => env.remove(key),
    }
}

/// Releasing a scope undoes its override exactly: overriding a variable
/// and then restoring the prior value that was recorded at the override
/// yields the environment the override found.
pub proof fn lemma_scope_restores(env: Map<Seq<char>, Seq<char>>, key: Seq<char>, value: Seq<char>)
    ensures
        env_after_restore(env_after_set(env, key, value), key, env_lookup(env, key)) == env,
{
    let restored = env_after_restore(env_after_set(env, key, value), key, env_lookup(env, key));
    assert(restored =~= env);
}

/// A restore touches no other variable: every variable but the overridden
/// one holds the same value after the restore as before it.
pub proof fn lemma_restore_is_local(
    env: Map<Seq<char>, Seq<char>>,
    key: Seq<char>,
    prior: Option<Seq<char>>,
    other: Seq<char>,
)
    requires
        other != key,
    ensures
        env_lookup(env_after_restore(env, key, prior), other) == env_lookup(env, other),
{
}

} // verus!
