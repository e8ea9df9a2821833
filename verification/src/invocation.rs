//! The build-log invocation parser.
//!
//! A verbose build prints one line per process it starts, of the shape
//! ``Running `<command>` `` — optional whitespace, the word `Running`,
//! optional whitespace, then the command between backticks, with the closing
//! backtick ending the line. The parser scans a captured diagnostic stream
//! for the unique such line whose command is a compiler invocation of a
//! given target: its first token names the Rust compiler, and its argument
//! list holds the contiguous pair `--crate-name <normalized target name>`,
//! where a target name is normalized by replacing dashes with underscores.
//!
//! Zero matching lines, more than one matching line, and a line that could
//! not be decoded as text are each a distinct error; any line of another
//! shape is ignored.

use crate::text::{chars_eq, chars_to_string, snake_case, snake_case_spec, string_to_chars};
use vstd::prelude::*;

verus! {

/// The whitespace that may surround the word `Running` in a log line.
pub open spec fn is_space(c: char) -> bool {
    c == ' ' || c == '\t' || c == '\n' || c == '\r' || c == '\u{b}' || c == '\u{c}'
}

/// The first index at or after `i` holding a non-whitespace character
/// (the sequence's length when there is none).
pub open spec fn skip_spaces(s: Seq<char>, i: int) -> int
    decreases s.len() - i when 0 <= i <= s.len()
{
    if i >= s.len() {
        s.len() as int
    } else if is_space(s[i]) {
        skip_spaces(s, i + 1)
    } else {
        i
    }
}

/// The command text between the backticks of a ``Running `<command>` ``
/// line, or `None` when the line has another shape. The closing backtick
/// must be the line's last character; the command itself may hold further
/// backticks.
pub open spec fn running_payload(line: Seq<char>) -> Option<Seq<char>> {
    let i = skip_spaces(line, 0);
    if i + 7 <= line.len() && line.subrange(i, i + 7) == "Running"@ {
        let j = skip_spaces(line, i + 7);
        if j + 2 <= line.len() && line[j] == '`' && line[line.len() - 1] == '`' {
            Some(line.subrange(j + 1, line.len() - 1))
        } else {
            None
        }
    } else {
        None
    }
}

proof fn lemma_skip_spaces_chain(s: Seq<char>, i: int, j: int)
    requires
        0 <= i <= j <= s.len(),
        forall|k: int| i <= k < j ==> is_space(s[k]),
        j < s.len() ==> !is_space(s[j]),
    ensures
        skip_spaces(s, i) == j,
    decreases j - i,
{
    if i < j {
        lemma_skip_spaces_chain(s, i + 1, j);
    }
}

fn is_space_char(c: char) -> (b: bool)
    ensures
        b == is_space(c),
{
    c == ' ' || c == '\t' || c == '\n' || c == '\r' || c == '\u{b}' || c == '\u{c}'
}

/// Extracts the command text of a ``Running `<command>` `` line, handed over
/// as its characters.
pub fn parse_running_line(line: &Vec<char>) -> (r: Option<Vec<char>>)
    ensures
        match r {
            Some(p) => running_payload(line@) == Some(p@),
            None => running_payload(line@) is None,
        },
{
    let n = line.len();
    let mut i: usize = 0;
    while i < n && is_space_char(line[i])
        invariant
            n == line@.len(),
            i <= n,
            forall|k: int| 0 <= k < i ==> is_space(line@[k]),
        decreases n - i,
    {
        i = i + 1;
    }
    proof {
        lemma_skip_spaces_chain(line@, 0, i as int);
    }
    if n - i < 7 {
        return None;
    }
    let word_ok = line[i] == 'R' && line[i + 1] == 'u' && line[i + 2] == 'n' && line[i + 3] == 'n'
        && line[i + 4] == 'i' && line[i + 5] == 'n' && line[i + 6] == 'g';
    proof {
        reveal_strlit("Running");
        let sub = line@.subrange(i as int, i as int + 7);
        assert(sub[0] == line@[i as int]);
        assert(sub[1] == line@[i as int + 1]);
        assert(sub[2] == line@[i as int + 2]);
        assert(sub[3] == line@[i as int + 3]);
        assert(sub[4] == line@[i as int + 4]);
        assert(sub[5] == line@[i as int + 5]);
        assert(sub[6] == line@[i as int + 6]);
        if word_ok {
            assert(sub =~= "Running"@);
        } else {
            assert(sub != "Running"@);
        }
    }
    if !word_ok {
        return None;
    }
    let mut j: usize = i + 7;
    while j < n && is_space_char(line[j])
        invariant
            n == line@.len(),
            i + 7 <= j <= n,
            forall|k: int| i + 7 <= k < j ==> is_space(line@[k]),
        decreases n - j,
    {
        j = j + 1;
    }
    proof {
        lemma_skip_spaces_chain(line@, i as int + 7, j as int);
    }
    if n - j < 2 {
        return None;
    }
    if line[j] != '`' {
        return None;
    }
    if line[n - 1] != '`' {
        return None;
    }
    let mut p: Vec<char> = Vec::new();
    let mut k: usize = j + 1;
    while k < n - 1
        invariant
            n == line@.len(),
            j + 1 <= k <= n - 1,
            p@ == line@.subrange(j as int + 1, k as int),
        decreases n - k,
    {
        p.push(line[k]);
        k = k + 1;
        proof {
            assert(p@ =~= line@.subrange(j as int + 1, k as int));
        }
    }
    Some(p)
}

/// The command split at single spaces; consecutive spaces yield empty
/// tokens, as the build tool never prints them inside one invocation.
pub open spec fn split_from(s: Seq<char>, i: int, start: int) -> Seq<Seq<char>>
    decreases s.len() - i when 0 <= start <= i <= s.len()
{
    if i >= s.len() {
        seq![s.subrange(start, s.len() as int)]
    } else if s[i] == ' ' {
        seq![s.subrange(start, i)] + split_from(s, i + 1, i + 1)
    } else {
        split_from(s, i + 1, start)
    }
}

/// The tokens of a command: its text split at each single space.
pub open spec fn split_tokens(s: Seq<char>) -> Seq<Seq<char>> {
    split_from(s, 0, 0)
}

/// Splits a command's characters into its space-separated tokens.
pub fn split_payload(p: &Vec<char>) -> (r: Vec<String>)
    ensures
        r.deep_view() == split_tokens(p@),
{
    let n = p.len();
    let mut r: Vec<String> = Vec::new();
    let mut cur: Vec<char> = Vec::new();
    let mut start: usize = 0;
    let mut i: usize = 0;
    while i < n
        invariant
            n == p@.len(),
            start <= i <= n,
            cur@ == p@.subrange(start as int, i as int),
            split_tokens(p@) == r.deep_view() + split_from(p@, i as int, start as int),
        decreases n - i,
    {
        let c = p[i];
        if c == ' ' {
            let ghost old_deep = r.deep_view();
            let tok = chars_to_string(&cur);
            r.push(tok);
            proof {
                assert(r.deep_view() =~= old_deep.push(p@.subrange(start as int, i as int)));
                assert(old_deep.push(p@.subrange(start as int, i as int)) =~= old_deep + seq![
                    p@.subrange(start as int, i as int),
                ]);
            }
            cur = Vec::new();
            i = i + 1;
            start = i;
            proof {
                assert(cur@ =~= p@.subrange(start as int, i as int));
            }
        } else {
            cur.push(c);
            i = i + 1;
            proof {
                assert(cur@ =~= p@.subrange(start as int, i as int));
            }
        }
    }
    let ghost old_deep = r.deep_view();
    let tok = chars_to_string(&cur);
    r.push(tok);
    proof {
        assert(r.deep_view() =~= old_deep + seq![p@.subrange(start as int, n as int)]);
    }
    r
}

/// What `dylint_internal::rustup::is_rustc` returns for a token: whether
/// the token, read as a path, has the file stem `rustc`. The result depends
/// on the token alone.
pub uninterp spec fn is_rustc_name(s: Seq<char>) -> bool;

/// Relies on `dylint_internal::rustup::is_rustc`: recognizes a token whose
/// file stem is `rustc`, i.e. one that names the Rust compiler binary.
#[verifier::external_body]
pub(crate) fn is_rustc_token(s: &str) -> (r: bool)
    ensures
        r == is_rustc_name(s@),
{
    dylint_internal::rustup::is_rustc(s)
}

/// Whether the token list holds the contiguous pair `--crate-name <name>`.
pub open spec fn has_crate_name_pair(tokens: Seq<Seq<char>>, name: Seq<char>) -> bool {
    exists|k: int|
        #![trigger tokens[k]]
        0 <= k && k + 1 < tokens.len() && tokens[k] == "--crate-name"@ && tokens[k + 1] == name
}

/// Whether a token list is a compiler invocation of the target whose
/// normalized name is `snake`.
pub open spec fn invocation_matches_with(tokens: Seq<Seq<char>>, snake: Seq<char>) -> bool {
    tokens.len() > 0 && is_rustc_name(tokens[0]) && has_crate_name_pair(tokens, snake)
}

/// Whether a token list is a compiler invocation of the target named
/// `target`.
pub open spec fn invocation_matches(tokens: Seq<Seq<char>>, target: Seq<char>) -> bool {
    invocation_matches_with(tokens, snake_case_spec(target))
}

/// Whether a log line is a ``Running`` line whose command is a compiler
/// invocation of the target whose normalized name is `snake`.
pub open spec fn line_matches_with(line: Seq<char>, snake: Seq<char>) -> bool {
    match running_payload(line) {
        Some(p) => invocation_matches_with(split_tokens(p), snake),
        None => false,
    }
}

/// Whether a log line is a ``Running`` line whose command is a compiler
/// invocation of the target named `target`.
pub open spec fn line_matches(line: Seq<char>, target: Seq<char>) -> bool {
    line_matches_with(line, snake_case_spec(target))
}

/// The tokens of a log line's command (empty when the line is not a
/// ``Running`` line).
pub open spec fn line_tokens(line: Seq<char>) -> Seq<Seq<char>> {
    match running_payload(line) {
        Some(p) => split_tokens(p),
        None => Seq::empty(),
    }
}

/// Whether a possibly undecodable log line matches; an undecodable line
/// never does.
pub open spec fn opt_line_matches(l: Option<Seq<char>>, snake: Seq<char>) -> bool {
    match l {
        Some(line) => line_matches_with(line, snake),
        None => false,
    }
}

/// Tests one decoded log line against the target whose normalized name is
/// held by `snake`, returning the command's tokens on a match.
fn match_line(line: &str, snake: &Vec<char>) -> (r: Option<Vec<String>>)
    ensures
        match r {
            Some(v) => line_matches_with(line@, snake@) && v.deep_view() == line_tokens(line@),
            None => !line_matches_with(line@, snake@),
        },
{
    let chars = string_to_chars(line);
    let payload = match parse_running_line(&chars) {
        Some(p) => p,
        None => {
            return None;
        },
    };
    let tokens = split_payload(&payload);
    proof {
        lemma_split_from_len(payload@, 0, 0);
        assert(tokens.deep_view().len() == split_tokens(payload@).len());
        assert(tokens.deep_view()[0] == tokens@[0]@);
    }
    let tok0 = tokens[0].as_str();
    proof {
        assert(tok0@ == tokens@[0]@);
    }
    let ok0 = is_rustc_token(tok0);
    if !ok0 {
        return None;
    }
    proof {
        assert(is_rustc_name(tokens@[0]@));
    }
    let flag = string_to_chars("--crate-name");
    let n = tokens.len();
    let mut k: usize = 0;
    while k < n - 1
        invariant
            n == tokens@.len(),
            n >= 1,
            k <= n - 1,
            tokens.deep_view() == line_tokens(line@),
            is_rustc_name(tokens.deep_view()[0]),
            running_payload(line@) is Some,
            forall|q: int|
                0 <= q < k && q + 1 < n ==> !(#[trigger] tokens.deep_view()[q] == "--crate-name"@
                    && tokens.deep_view()[q + 1] == snake@),
            flag@ == "--crate-name"@,
        decreases n - k,
    {
        let tk = string_to_chars(tokens[k].as_str());
        proof {
            assert(tokens.deep_view()[k as int] == tokens@[k as int]@);
            assert(tokens.deep_view()[k as int + 1] == tokens@[k as int + 1]@);
        }
        if chars_eq(&tk, &flag) {
            let nk = string_to_chars(tokens[k + 1].as_str());
            if chars_eq(&nk, snake) {
                proof {
                    assert(tokens.deep_view()[k as int] == "--crate-name"@);
                    assert(tokens.deep_view()[k as int + 1] == snake@);
                    assert(has_crate_name_pair(tokens.deep_view(), snake@));
                }
                return Some(tokens);
            }
        }
        k = k + 1;
    }
    None
}

proof fn lemma_split_from_len(s: Seq<char>, i: int, start: int)
    requires
        0 <= start <= i <= s.len(),
    ensures
        split_from(s, i, start).len() >= 1,
    decreases s.len() - i,
{
    if i < s.len() {
        if s[i] == ' ' {
            lemma_split_from_len(s, i + 1, i + 1);
        } else {
            lemma_split_from_len(s, i + 1, start);
        }
    }
}

/// Why a compiler invocation could not be recovered from a build log.
#[derive(Clone, Copy, Debug, PartialEq, Eq, Structural)]
pub enum RecoverError {
    /// A line of the diagnostic stream could not be decoded as text.
    UnreadableOutput,
    /// No line held a compiler invocation of the target.
    NoInvocationFound,
    /// More than one line held a compiler invocation of the target.
    AmbiguousInvocation,
    /// A flag that takes an argument was the command's last token.
    MissingFlagArgument,
}

/// Recovers the unique compiler invocation of `target` from the lines of a
/// verbose build's diagnostic stream. A line that could not be decoded is
/// handed over as `None`; one undecodable line fails the whole recovery, as
/// nothing shows it did not hold the invocation sought.
pub fn rustc_flags(lines: &Vec<Option<String>>, target: &str) -> (r: Result<
    Vec<String>,
    RecoverError,
>)
    ensures
        ({
            let ls = lines.deep_view();
            let snake = snake_case_spec(target@);
            match r {
                Ok(v) => {
                    &&& forall|i: int| 0 <= i < ls.len() ==> ls[i] is Some
                    &&& exists|i: int|
                        0 <= i < ls.len() && #[trigger] opt_line_matches(ls[i], snake) && (forall|
                            j: int,
                        |
                            0 <= j < ls.len() && j != i ==> !#[trigger] opt_line_matches(
                                ls[j],
                                snake,
                            )) && v.deep_view() == line_tokens(ls[i]->0)
                },
                Err(RecoverError::UnreadableOutput) => exists|i: int|
                    0 <= i < ls.len() && #[trigger] ls[i] is None,
                Err(RecoverError::NoInvocationFound) => {
                    &&& forall|i: int| 0 <= i < ls.len() ==> ls[i] is Some
                    &&& forall|i: int|
                        0 <= i < ls.len() ==> !#[trigger] opt_line_matches(ls[i], snake)
                },
                Err(RecoverError::AmbiguousInvocation) => {
                    &&& forall|i: int| 0 <= i < ls.len() ==> ls[i] is Some
                    &&& exists|i: int, j: int|
                        0 <= i < j < ls.len() && #[trigger] opt_line_matches(ls[i], snake)
                            && #[trigger] opt_line_matches(ls[j], snake)
                },
                Err(RecoverError::MissingFlagArgument) => false,
            }
        }),
{
    let snake_string = snake_case(target);
    let snake = string_to_chars(snake_string.as_str());
    let n = lines.len();
    let mut found: Option<Vec<String>> = None;
    let ghost mut fidx: int = 0;
    let mut multi: bool = false;
    let ghost mut m1: int = 0;
    let ghost mut m2: int = 0;
    let mut i: usize = 0;
    while i < n
        invariant
            n == lines@.len(),
            i <= n,
            snake@ == snake_case_spec(target@),
            forall|k: int| 0 <= k < i ==> lines.deep_view()[k] is Some,
            match found {
                Some(v) => 0 <= fidx < i && opt_line_matches(lines.deep_view()[fidx], snake@)
                    && v.deep_view() == line_tokens(lines.deep_view()[fidx]->0) && (!multi
                    ==> forall|k: int|
                    0 <= k < i && k != fidx ==> !#[trigger] opt_line_matches(
                        lines.deep_view()[k],
                        snake@,
                    )),
                None => forall|k: int|
                    0 <= k < i ==> !#[trigger] opt_line_matches(lines.deep_view()[k], snake@),
            },
            multi ==> 0 <= m1 < m2 < i && opt_line_matches(lines.deep_view()[m1], snake@)
                && opt_line_matches(lines.deep_view()[m2], snake@),
            multi ==> found is Some,
        decreases n - i,
    {
        proof {
            assert(lines.deep_view()[i as int] == lines@[i as int].deep_view());
        }
        let line = match &lines[i] {
            Some(l) => l,
            None => {
                return Err(RecoverError::UnreadableOutput);
            },
        };
        match match_line(line.as_str(), &snake) {
            Some(v) => {
                match found {
                    Some(_) => {
                        proof {
                            if !multi {
                                m1 = fidx;
                                m2 = i as int;
                            }
                        }
                        multi = true;
                    },
                    None => {
                        found = Some(v);
                        proof {
                            fidx = i as int;
                        }
                    },
                }
            },
            None => {},
        }
        i = i + 1;
    }
    if multi {
        return Err(RecoverError::AmbiguousInvocation);
    }
    match found {
        Some(v) => Ok(v),
        None => Err(RecoverError::NoInvocationFound),
    }
}

} // verus!
