//! Character-level helpers shared by the log parser and the staging logic:
//! dash-to-underscore normalization, substring and prefix tests, quote
//! trimming, and file-name extension replacement.

use vstd::prelude::*;

verus! {

/// Dash-to-underscore normalization of a single character.
pub open spec fn snake_char(c: char) -> char {
    if c == '-' {
        '_'
    } else {
        c
    }
}

/// View of a name after dash-to-underscore normalization.
pub open spec fn snake_case_spec(s: Seq<char>) -> Seq<char> {
    s.map_values(|c: char| snake_char(c))
}

/// Relies on `String::from_iter` (via `Iterator::collect`): the collected
/// string holds exactly the characters of the iterator, in order.
#[verifier::external_body]
pub(crate) fn chars_to_string(v: &Vec<char>) -> (r: String)
    ensures
        r@ == v@,
{
    v.iter().collect()
}

/// The characters of `s`, in order.
pub fn string_to_chars(s: &str) -> (r: Vec<char>)
    ensures
        r@ == s@,
{
    let n = s.unicode_len();
    let mut r: Vec<char> = Vec::new();
    let mut i: usize = 0;
    while i < n
        invariant
            n == s@.len(),
            i <= n,
            r@ == s@.subrange(0, i as int),
        decreases n - i,
    {
        r.push(s.get_char(i));
        i = i + 1;
        proof {
            assert(r@ =~= s@.subrange(0, i as int));
        }
    }
    proof {
        assert(r@ =~= s@);
    }
    r
}

/// Whether two character vectors hold the same characters.
pub fn chars_eq(a: &Vec<char>, b: &Vec<char>) -> (r: bool)
    ensures
        r == (a@ == b@),
{
    if a.len() != b.len() {
        proof {
            assert(a@.len() != b@.len());
        }
        return false;
    }
    let n = a.len();
    let mut i: usize = 0;
    while i < n
        invariant
            n == a@.len() && n == b@.len(),
            i <= n,
            forall|k: int| 0 <= k < i ==> a@[k] == b@[k],
        decreases n - i,
    {
        if a[i] != b[i] {
            return false;
        }
        i = i + 1;
    }
    proof {
        assert(a@ =~= b@);
    }
    true
}

/// Whether `needle` occurs contiguously anywhere in `hay`.
pub open spec fn contains_seq(hay: Seq<char>, needle: Seq<char>) -> bool {
    exists|k: int|
        0 <= k && k + needle.len() <= hay.len() && #[trigger] hay.subrange(k, k + needle.len())
            == needle
}

/// Whether the characters of `needle` occur contiguously in `hay`.
pub fn contains_chars(hay: &Vec<char>, needle: &Vec<char>) -> (r: bool)
    ensures
        r == contains_seq(hay@, needle@),
{
    let h = hay.len();
    let n = needle.len();
    if n > h {
        return false;
    }
    if n == 0 {
        proof {
            assert(hay@.subrange(0, 0 + needle@.len() as int) =~= needle@);
        }
        return true;
    }
    let mut k: usize = 0;
    while k <= h - n
        invariant
            0 < n <= h,
            h == hay@.len(),
            n == needle@.len(),
            k <= h - n + 1,
            forall|q: int|
                0 <= q < k ==> #[trigger] hay@.subrange(q, q + needle@.len()) != needle@,
        decreases h - n - k + 1,
    {
        let mut j: usize = 0;
        let mut hit: bool = true;
        proof {
            assert(hay@.subrange(k as int, k as int) =~= needle@.subrange(0, 0));
        }
        while j < n
            invariant
                n <= h,
                h == hay@.len(),
                n == needle@.len(),
                k + n <= h,
                j <= n,
                hit == (hay@.subrange(k as int, k + j) == needle@.subrange(0, j as int)),
            decreases n - j,
        {
            proof {
                assert(hay@.subrange(k as int, k + j + 1).drop_last() =~= hay@.subrange(
                    k as int,
                    k + j,
                ));
                assert(needle@.subrange(0, j + 1).drop_last() =~= needle@.subrange(0, j as int));
            }
            if hay[k + j] != needle[j] {
                hit = false;
                proof {
                    assert(hay@.subrange(k as int, k + j + 1).last() == hay@[k + j]);
                    assert(needle@.subrange(0, j + 1).last() == needle@[j as int]);
                }
            } else {
                proof {
                    if hit {
                        assert(hay@.subrange(k as int, k + j + 1) =~= hay@.subrange(
                            k as int,
                            k + j,
                        ).push(hay@[k + j]));
                        assert(needle@.subrange(0, j + 1) =~= needle@.subrange(0, j as int).push(
                            needle@[j as int],
                        ));
                    } else {
                        assert(hay@.subrange(k as int, k + j).len() == j);
                        assert(hay@.subrange(k as int, k + j + 1).drop_last() != needle@.subrange(
                            0,
                            j + 1,
                        ).drop_last());
                    }
                }
            }
            j = j + 1;
        }
        if hit {
            proof {
                assert(needle@.subrange(0, n as int) =~= needle@);
            }
            return true;
        }
        proof {
            assert(needle@.subrange(0, n as int) =~= needle@);
        }
        k = k + 1;
    }
    false
}

/// Whether `p` is a prefix of `v`.
pub fn starts_with_chars(v: &Vec<char>, p: &Vec<char>) -> (r: bool)
    ensures
        r == p@.is_prefix_of(v@),
{
    let n = p.len();
    if n > v.len() {
        return false;
    }
    let mut i: usize = 0;
    while i < n
        invariant
            n == p@.len(),
            n <= v@.len(),
            i <= n,
            forall|k: int| 0 <= k < i ==> v@[k] == p@[k],
        decreases n - i,
    {
        if v[i] != p[i] {
            proof {
                assert(v@.subrange(0, n as int)[i as int] != p@[i as int]);
            }
            return false;
        }
        i = i + 1;
    }
    proof {
        assert(v@.subrange(0, n as int) =~= p@);
    }
    true
}

/// The first index at or after `i` whose character differs from `c`
/// (the sequence's length when there is none).
pub open spec fn first_not(s: Seq<char>, c: char, i: int) -> int
    decreases s.len() - i when 0 <= i <= s.len()
{
    if i >= s.len() {
        s.len() as int
    } else if s[i] == c {
        first_not(s, c, i + 1)
    } else {
        i
    }
}

/// The last index at or before `i` whose character differs from `c`
/// (`-1` when there is none).
pub open spec fn last_not(s: Seq<char>, c: char, i: int) -> int
    decreases i + 1 when -1 <= i < s.len()
{
    if i < 0 {
        -1
    } else if s[i] == c {
        last_not(s, c, i - 1)
    } else {
        i
    }
}

/// `s` with every leading and trailing occurrence of `c` removed.
pub open spec fn trim_char_spec(s: Seq<char>, c: char) -> Seq<char> {
    let a = first_not(s, c, 0);
    let b = last_not(s, c, s.len() - 1);
    if a > b {
        Seq::empty()
    } else {
        s.subrange(a, b + 1)
    }
}

proof fn lemma_last_not_bounds(s: Seq<char>, c: char, i: int)
    requires
        -1 <= i < s.len(),
    ensures
        -1 <= last_not(s, c, i) <= i,
        forall|k: int| last_not(s, c, i) < k <= i ==> s[k] == c,
        last_not(s, c, i) >= 0 ==> s[last_not(s, c, i)] != c,
    decreases i + 1,
{
    if i >= 0 && s[i] == c {
        lemma_last_not_bounds(s, c, i - 1);
    }
}

/// The characters of `v` with every leading and trailing `c` removed.
pub fn trim_char(v: &Vec<char>, c: char) -> (r: Vec<char>)
    ensures
        r@ == trim_char_spec(v@, c),
{
    let n = v.len();
    let mut a: usize = 0;
    while a < n && v[a] == c
        invariant
            n == v@.len(),
            a <= n,
            forall|k: int| 0 <= k < a ==> v@[k] == c,
        decreases n - a,
    {
        a = a + 1;
    }
    proof {
        lemma_first_not_chain(v@, c, 0, a as int);
        assert(first_not(v@, c, 0) == a as int);
    }
    if a == n {
        let r: Vec<char> = Vec::new();
        proof {
            lemma_last_not_bounds(v@, c, n as int - 1);
            assert(forall|k: int| 0 <= k < n ==> v@[k] == c);
            assert(last_not(v@, c, n as int - 1) == -1) by {
                if last_not(v@, c, n as int - 1) >= 0 {
                    assert(v@[last_not(v@, c, n as int - 1)] != c);
                }
            }
        }
        return r;
    }
    let mut b: usize = n - 1;
    while v[b] == c
        invariant
            n == v@.len(),
            a < n,
            a <= b < n,
            v@[a as int] != c,
            forall|k: int| b < k < n ==> v@[k] == c,
        decreases b,
    {
        b = b - 1;
    }
    proof {
        lemma_last_not_chain(v@, c, n as int - 1, b as int);
        assert(last_not(v@, c, n as int - 1) == b as int);
    }
    let mut r: Vec<char> = Vec::new();
    let mut i: usize = a;
    while i <= b
        invariant
            n == v@.len(),
            a <= i <= b + 1,
            b < n,
            r@ == v@.subrange(a as int, i as int),
        decreases b + 1 - i,
    {
        r.push(v[i]);
        i = i + 1;
        proof {
            assert(r@ =~= v@.subrange(a as int, i as int));
        }
    }
    r
}

proof fn lemma_first_not_chain(s: Seq<char>, c: char, i: int, j: int)
    requires
        0 <= i <= j <= s.len(),
        forall|k: int| i <= k < j ==> s[k] == c,
        j < s.len() ==> s[j] != c,
    ensures
        first_not(s, c, i) == j,
    decreases j - i,
{
    if i < j {
        lemma_first_not_chain(s, c, i + 1, j);
    }
}

proof fn lemma_last_not_chain(s: Seq<char>, c: char, i: int, j: int)
    requires
        -1 <= j <= i < s.len(),
        forall|k: int| j < k <= i ==> s[k] == c,
        j >= 0 ==> s[j] != c,
    ensures
        last_not(s, c, i) == j,
    decreases i - j,
{
    if j < i {
        lemma_last_not_chain(s, c, i - 1, j);
    }
}

/// The index of the dot that starts `s`'s extension, scanning down from `i`;
/// the sequence's length when no character after the first is a dot. A dot
/// at the very first position starts a hidden file's name, not an extension.
pub open spec fn stem_end_from(s: Seq<char>, i: int) -> int
    decreases i when i < s.len()
{
    if i <= 0 {
        s.len() as int
    } else if s[i] == '.' {
        i
    } else {
        stem_end_from(s, i - 1)
    }
}

/// Where the stem of the file name `s` ends: the index of the dot that
/// starts its extension, or the whole length when it has no extension.
pub open spec fn stem_end(s: Seq<char>) -> int {
    stem_end_from(s, s.len() - 1)
}

/// The file name `s` with its extension replaced by `ext` (or with `.ext`
/// appended when it has none).
pub open spec fn replace_extension_spec(s: Seq<char>, ext: Seq<char>) -> Seq<char> {
    s.subrange(0, stem_end(s)) + seq!['.'] + ext
}

proof fn lemma_stem_end_chain(s: Seq<char>, i: int, j: int)
    requires
        j <= i < s.len(),
        0 <= j,
        forall|k: int| j < k <= i ==> s[k] != '.',
        j > 0 ==> s[j] == '.',
    ensures
        j > 0 && s[j] == '.' ==> stem_end_from(s, i) == j,
        (forall|k: int| 0 < k <= i ==> s[k] != '.') ==> stem_end_from(s, i) == s.len(),
    decreases i - j,
{
    if j < i {
        lemma_stem_end_chain(s, i - 1, j);
    }
}

/// The file name whose characters are `v`, with its extension replaced by
/// the characters of `ext`, as a fresh character vector.
pub fn replace_extension_chars(v: &Vec<char>, ext: &Vec<char>) -> (r: Vec<char>)
    ensures
        r@ == replace_extension_spec(v@, ext@),
{
    let n = v.len();
    let mut cut: usize = n;
    if n > 0 {
        let mut i: usize = n - 1;
        while i > 0 && v[i] != '.'
            invariant
                n == v@.len(),
                i < n,
                forall|k: int| i < k < n ==> v@[k] != '.',
            decreases i,
        {
            i = i - 1;
        }
        if i > 0 {
            cut = i;
            proof {
                lemma_stem_end_chain(v@, n as int - 1, i as int);
            }
        } else {
            proof {
                lemma_stem_end_chain(v@, n as int - 1, 0);
                assert(forall|k: int| 0 < k < n ==> v@[k] != '.');
            }
        }
    }
    let mut r: Vec<char> = Vec::new();
    let mut i: usize = 0;
    while i < cut
        invariant
            cut <= n,
            n == v@.len(),
            i <= cut,
            r@ == v@.subrange(0, i as int),
        decreases cut - i,
    {
        r.push(v[i]);
        i = i + 1;
        proof {
            assert(r@ =~= v@.subrange(0, i as int));
        }
    }
    r.push('.');
    let m = ext.len();
    let mut j: usize = 0;
    while j < m
        invariant
            m == ext@.len(),
            j <= m,
            r@ == v@.subrange(0, cut as int) + seq!['.'] + ext@.subrange(0, j as int),
        decreases m - j,
    {
        r.push(ext[j]);
        j = j + 1;
        proof {
            assert(r@ =~= v@.subrange(0, cut as int) + seq!['.'] + ext@.subrange(0, j as int));
        }
    }
    proof {
        assert(ext@.subrange(0, m as int) =~= ext@);
    }
    r
}

/// The file name `name` with its extension replaced by `ext`.
pub fn replace_extension(name: &str, ext: &str) -> (r: String)
    ensures
        r@ == replace_extension_spec(name@, ext@),
{
    let v = string_to_chars(name);
    let e = string_to_chars(ext);
    let out = replace_extension_chars(&v, &e);
    chars_to_string(&out)
}

/// `dst` with a copy of every string of `src` appended, in order.
pub fn append_clones(dst: Vec<String>, src: &Vec<String>) -> (r: Vec<String>)
    ensures
        r.deep_view() == dst.deep_view() + src.deep_view(),
{
    let mut r = dst;
    let ghost base = r.deep_view();
    let n = src.len();
    let mut i: usize = 0;
    while i < n
        invariant
            n == src@.len(),
            i <= n,
            r.deep_view() == base + src.deep_view().subrange(0, i as int),
        decreases n - i,
    {
        let cloned = src[i].clone();
        let ghost prev_deep = r.deep_view();
        proof {
            assert(cloned@ == src@[i as int]@);
        }
        r.push(cloned);
        i = i + 1;
        proof {
            assert(r.deep_view() =~= prev_deep.push(src.deep_view()[i - 1]));
            assert(r.deep_view() =~= base + src.deep_view().subrange(0, i as int));
        }
    }
    proof {
        assert(base + src.deep_view().subrange(0, n as int) =~= base + src.deep_view());
    }
    r
}

/// `name` with every dash replaced by an underscore.
pub fn snake_case(name: &str) -> (r: String)
    ensures
        r@ == snake_case_spec(name@),
{
    let chars = string_to_chars(name);
    let n = chars.len();
    let mut out: Vec<char> = Vec::new();
    let mut i: usize = 0;
    while i < n
        invariant
            n == chars@.len(),
            chars@ == name@,
            i <= n,
            out@ == snake_case_spec(name@.subrange(0, i as int)),
        decreases n - i,
    {
        let c = chars[i];
        if c == '-' {
            out.push('_');
        } else {
            out.push(c);
        }
        i = i + 1;
        proof {
            assert(out@ =~= snake_case_spec(name@.subrange(0, i as int)));
        }
    }
    proof {
        assert(name@.subrange(0, n as int) =~= name@);
    }
    chars_to_string(&out)
}

} // verus!
