//! Reduction of a recovered compiler invocation to its linking flags, and
//! the process-wide memo that keeps them.
//!
//! Of a full invocation only three kinds of token matter for reproducing a
//! target's link context: the edition flag (kept verbatim), and each
//! `--extern` or `-L` flag together with its following argument, the
//! argument stripped of surrounding single quotes. Everything else —
//! optimization levels, codegen options — is dropped. A link flag standing
//! as the last token is a malformed invocation.

use crate::invocation::{line_tokens, opt_line_matches, rustc_flags, RecoverError};
use crate::text::{
    chars_eq, chars_to_string, snake_case_spec, starts_with_chars, string_to_chars, trim_char,
    trim_char_spec,
};
use vstd::prelude::*;

verus! {

/// Whether a token is an edition flag.
pub open spec fn is_edition_flag(t: Seq<char>) -> bool {
    "--edition="@.is_prefix_of(t)
}

/// Whether a token is a link flag whose argument follows as the next token.
pub open spec fn is_link_flag(t: Seq<char>) -> bool {
    t == "--extern"@ || t == "-L"@
}

/// The linking flags of an invocation's tokens from index `i` on: edition
/// flags verbatim, link flags with their argument stripped of surrounding
/// single quotes, all other tokens dropped. `None` when a link flag has no
/// following argument.
pub open spec fn linking_flags_spec(tokens: Seq<Seq<char>>, i: int) -> Option<Seq<Seq<char>>>
    decreases tokens.len() - i when 0 <= i
{
    if i >= tokens.len() {
        Some(Seq::empty())
    } else if is_edition_flag(tokens[i]) {
        match linking_flags_spec(tokens, i + 1) {
            Some(rest) => Some(seq![tokens[i]] + rest),
            None => None,
        }
    } else if is_link_flag(tokens[i]) {
        if i + 1 < tokens.len() {
            match linking_flags_spec(tokens, i + 2) {
                Some(rest) => Some(seq![tokens[i], trim_char_spec(tokens[i + 1], '\'')] + rest),
                None => None,
            }
        } else {
            None
        }
    } else {
        linking_flags_spec(tokens, i + 1)
    }
}

/// The argument that follows a flag's own token, or the error that the
/// flag stands last and has none.
#[allow(unused_variables)]
pub fn next(flag: &str, args: &Vec<String>, i: usize) -> (r: Result<String, RecoverError>)
    ensures
        i < args.len() ==> (r matches Ok(s) && s@ == args.deep_view()[i as int]),
        i >= args.len() ==> r == Err::<String, RecoverError>(RecoverError::MissingFlagArgument),
{
    if i < args.len() {
        let s = args[i].clone();
        proof {
            assert(args.deep_view()[i as int] == args@[i as int]@);
        }
        Ok(s)
    } else {
        Err(RecoverError::MissingFlagArgument)
    }
}

/// The argument that follows a flag's own token, or the error that the
/// flag stands last and has none.
pub fn next_arg_for_flag(flag: &str, args: &Vec<String>, i: usize) -> (r: Result<
    String,
    RecoverError,
>)
    ensures
        i < args.len() ==> (r matches Ok(s) && s@ == args.deep_view()[i as int]),
        i >= args.len() ==> r == Err::<String, RecoverError>(RecoverError::MissingFlagArgument),
{
    next(flag, args, i)
}

/// Reduces an invocation's token list to its linking flags.
pub fn linking_flags_of_invocation(args: &Vec<String>) -> (r: Result<Vec<String>, RecoverError>)
    ensures
        match r {
            Ok(v) => linking_flags_spec(args.deep_view(), 0) == Some(v.deep_view()),
            Err(e) => e == RecoverError::MissingFlagArgument && linking_flags_spec(
                args.deep_view(),
                0,
            ) is None,
        },
{
    let edition = string_to_chars("--edition=");
    let extern_flag = string_to_chars("--extern");
    let l_flag = string_to_chars("-L");
    let n = args.len();
    let mut out: Vec<String> = Vec::new();
    let mut i: usize = 0;
    while i < n
        invariant
            n == args@.len(),
            i <= n,
            edition@ == "--edition="@,
            extern_flag@ == "--extern"@,
            l_flag@ == "-L"@,
            match linking_flags_spec(args.deep_view(), i as int) {
                Some(rest) => linking_flags_spec(args.deep_view(), 0) == Some(
                    out.deep_view() + rest,
                ),
                None => linking_flags_spec(args.deep_view(), 0) is None,
            },
        decreases n - i,
    {
        let tok = string_to_chars(args[i].as_str());
        proof {
            assert(args.deep_view()[i as int] == args@[i as int]@);
        }
        if starts_with_chars(&tok, &edition) {
            let ghost old_deep = out.deep_view();
            out.push(args[i].clone());
            proof {
                assert(out.deep_view() =~= old_deep + seq![args.deep_view()[i as int]]);
                let rest = linking_flags_spec(args.deep_view(), i as int).unwrap();
                assert(old_deep + (seq![args.deep_view()[i as int]] + linking_flags_spec(
                    args.deep_view(),
                    i as int + 1,
                ).unwrap()) =~= (old_deep + seq![args.deep_view()[i as int]])
                    + linking_flags_spec(args.deep_view(), i as int + 1).unwrap());
            }
            i = i + 1;
        } else if chars_eq(&tok, &extern_flag) || chars_eq(&tok, &l_flag) {
            let arg = match next_arg_for_flag(args[i].as_str(), args, i + 1) {
                Ok(a) => a,
                Err(e) => {
                    return Err(e);
                },
            };
            let arg_chars = string_to_chars(arg.as_str());
            let trimmed = trim_char(&arg_chars, '\'');
            let trimmed_string = chars_to_string(&trimmed);
            let ghost old_deep = out.deep_view();
            out.push(args[i].clone());
            out.push(trimmed_string);
            proof {
                assert(args.deep_view()[i as int + 1] == args@[i as int + 1]@);
                assert(out.deep_view() =~= old_deep + seq![
                    args.deep_view()[i as int],
                    trim_char_spec(args.deep_view()[i as int + 1], '\''),
                ]);
                let pair = seq![
                    args.deep_view()[i as int],
                    trim_char_spec(args.deep_view()[i as int + 1], '\''),
                ];
                assert(old_deep + (pair + linking_flags_spec(args.deep_view(), i as int + 2).unwrap())
                    =~= (old_deep + pair) + linking_flags_spec(
                    args.deep_view(),
                    i as int + 2,
                ).unwrap());
            }
            i = i + 2;
        } else {
            i = i + 1;
        }
    }
    proof {
        assert(out.deep_view() + Seq::<Seq<char>>::empty() =~= out.deep_view());
    }
    Ok(out)
}

/// Recovers the linking flags of `target` from the lines of a verbose
/// build's diagnostic stream: finds the unique compiler invocation of the
/// target and reduces its token list to the flags needed to link against
/// it.
pub fn linking_flags(lines: &Vec<Option<String>>, target: &str) -> (r: Result<
    Vec<String>,
    RecoverError,
>)
    ensures
        ({
            let ls = lines.deep_view();
            let snake = snake_case_spec(target@);
            match r {
                Ok(v) => {
                    &&& forall|i: int| 0 <= i < ls.len() ==> ls[i] is Some
                    &&& exists|i: int|
                        0 <= i < ls.len() && #[trigger] opt_line_matches(ls[i], snake) && (forall|
                            j: int,
                        |
                            0 <= j < ls.len() && j != i ==> !#[trigger] opt_line_matches(
                                ls[j],
                                snake,
                            )) && linking_flags_spec(line_tokens(ls[i]->0), 0) == Some(
                            v.deep_view(),
                        )
                },
                Err(RecoverError::UnreadableOutput) => exists|i: int|
                    0 <= i < ls.len() && #[trigger] ls[i] is None,
                Err(RecoverError::NoInvocationFound) => {
                    &&& forall|i: int| 0 <= i < ls.len() ==> ls[i] is Some
                    &&& forall|i: int|
                        0 <= i < ls.len() ==> !#[trigger] opt_line_matches(ls[i], snake)
                },
                Err(RecoverError::AmbiguousInvocation) => {
                    &&& forall|i: int| 0 <= i < ls.len() ==> ls[i] is Some
                    &&& exists|i: int, j: int|
                        0 <= i < j < ls.len() && #[trigger] opt_line_matches(ls[i], snake)
                            && #[trigger] opt_line_matches(ls[j], snake)
                },
                Err(RecoverError::MissingFlagArgument) => {
                    &&& forall|i: int| 0 <= i < ls.len() ==> ls[i] is Some
                    &&& exists|i: int|
                        0 <= i < ls.len() && #[trigger] opt_line_matches(ls[i], snake) && (forall|
                            j: int,
                        |
                            0 <= j < ls.len() && j != i ==> !#[trigger] opt_line_matches(
                                ls[j],
                                snake,
                            )) && linking_flags_spec(line_tokens(ls[i]->0), 0) is None
                },
            }
        }),
{
    let args = match rustc_flags(lines, target) {
        Ok(a) => a,
        Err(e) => {
            return Err(e);
        },
    };
    linking_flags_of_invocation(&args)
}

/// One recovered flag list, keyed by the target name it was recovered for.
pub struct CacheEntry {
    pub key: String,
    pub flags: Vec<String>,
}

/// The result of looking `key` up among the entries from index `i` on.
pub open spec fn cache_lookup(entries: Seq<CacheEntry>, key: Seq<char>, i: int) -> Option<
    Seq<Seq<char>>,
>
    decreases entries.len() - i when 0 <= i
{
    if i >= entries.len() {
        None
    } else if entries[i].key@ == key {
        Some(entries[i].flags.deep_view())
    } else {
        cache_lookup(entries, key, i + 1)
    }
}

/// A memo of recovered linking flags, one entry per target name, written
/// once per key: the first recovery for a key wins and later writes for it
/// change nothing. Whether the key ought instead to pair the owning
/// package with the target name is open; two packages sharing a target
/// name share an entry here.
pub struct FlagCache {
    pub entries: Vec<CacheEntry>,
}

impl FlagCache {
    /// Keys are unique, so every lookup has one answer.
    pub open spec fn wf(&self) -> bool {
        forall|i: int, j: int|
            0 <= i < j < self.entries@.len() ==> #[trigger] self.entries@[i].key@
                != #[trigger] self.entries@[j].key@
    }

    /// The flags stored for a key, if any.
    pub open spec fn spec_get(&self, key: Seq<char>) -> Option<Seq<Seq<char>>> {
        cache_lookup(self.entries@, key, 0)
    }

    /// An empty cache.
    pub fn new() -> (c: FlagCache)
        ensures
            c.wf(),
            forall|k: Seq<char>| #[trigger] c.spec_get(k) is None,
    {
        FlagCache { entries: Vec::new() }
    }

    /// The flags stored for `key`, if any.
    pub fn get(&self, key: &str) -> (r: Option<&Vec<String>>)
        ensures
            match r {
                Some(v) => self.spec_get(key@) == Some(v.deep_view()),
                None => self.spec_get(key@) is None,
            },
    {
        let key_chars = string_to_chars(key);
        let n = self.entries.len();
        let mut i: usize = 0;
        while i < n
            invariant
                n == self.entries@.len(),
                i <= n,
                key_chars@ == key@,
                forall|q: int| 0 <= q < i ==> #[trigger] self.entries@[q].key@ != key@,
                cache_lookup(self.entries@, key@, 0) == cache_lookup(
                    self.entries@,
                    key@,
                    i as int,
                ),
            decreases n - i,
        {
            let entry_key = string_to_chars(self.entries[i].key.as_str());
            if chars_eq(&entry_key, &key_chars) {
                return Some(&self.entries[i].flags);
            }
            i = i + 1;
        }
        None
    }

    /// Stores flags for `key` unless the key already holds some: the first
    /// write for a key wins, and a later write for it changes nothing.
    pub fn insert(&mut self, key: &str, flags: Vec<String>)
        requires
            old(self).wf(),
        ensures
            final(self).wf(),
            final(self).spec_get(key@) == match old(self).spec_get(key@) {
                Some(v) => Some(v),
                None => Some(flags.deep_view()),
            },
            forall|k: Seq<char>|
                k != key@ ==> #[trigger] final(self).spec_get(k) == old(self).spec_get(k),
    {
        match self.get(key) {
            Some(_) => {},
            None => {
                proof {
                    lemma_cache_lookup_absent(self.entries@, key@, 0);
                }
                let key_string = chars_to_string(&string_to_chars(key));
                let ghost old_entries = self.entries@;
                self.entries.push(CacheEntry { key: key_string, flags });
                proof {
                    assert forall|k: Seq<char>| true implies #[trigger] cache_lookup(
                        self.entries@,
                        k,
                        0,
                    ) == (match cache_lookup(old_entries, k, 0) {
                        Some(v) => Some(v),
                        None => {
                            if k == key@ {
                                Some(self.entries@.last().flags.deep_view())
                            } else {
                                None::<Seq<Seq<char>>>
                            }
                        },
                    }) by {
                        lemma_cache_lookup_push(old_entries, self.entries@.last(), k, 0);
                    }
                }
            },
        }
    }
}

proof fn lemma_cache_lookup_absent(entries: Seq<CacheEntry>, key: Seq<char>, i: int)
    requires
        0 <= i <= entries.len(),
        cache_lookup(entries, key, i) is None,
    ensures
        forall|q: int| i <= q < entries.len() ==> #[trigger] entries[q].key@ != key,
    decreases entries.len() - i,
{
    if i < entries.len() {
        lemma_cache_lookup_absent(entries, key, i + 1);
    }
}

proof fn lemma_cache_lookup_push(entries: Seq<CacheEntry>, e: CacheEntry, key: Seq<char>, i: int)
    requires
        0 <= i <= entries.len(),
    ensures
        cache_lookup(entries.push(e), key, i) == (match cache_lookup(entries, key, i) {
            Some(v) => Some(v),
            None => {
                if e.key@ == key {
                    Some(e.flags.deep_view())
                } else {
                    None::<Seq<Seq<char>>>
                }
            },
        }),
    decreases entries.len() - i,
{
    let pushed = entries.push(e);
    if i < entries.len() {
        assert(pushed[i] == entries[i]);
        lemma_cache_lookup_push(entries, e, key, i + 1);
    } else {
        assert(pushed[i] == e);
        assert(cache_lookup(entries, key, i) is None);
        if e.key@ == key {
            assert(cache_lookup(pushed, key, i) == Some(e.flags.deep_view()));
        } else {
            assert(i + 1 == pushed.len());
            assert(cache_lookup(pushed, key, i + 1) is None);
            assert(cache_lookup(pushed, key, i) is None);
        }
    }
}

} // verus!
