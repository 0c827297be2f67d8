//! Character-level text operations on single lines: whitespace trimming,
//! repeated prefix and suffix removal, and the part after the first `=`.
use vstd::prelude::*;

verus! {

/// Characters with the Unicode `White_Space` property.
pub open spec fn is_white_space(c: char) -> bool {
    ('\u{9}' <= c && c <= '\u{d}') || c == ' ' || c == '\u{85}' || c == '\u{a0}' || c == '\u{1680}'
        || ('\u{2000}' <= c && c <= '\u{200a}') || c == '\u{2028}' || c == '\u{2029}' || c
        == '\u{202f}' || c == '\u{205f}' || c == '\u{3000}'
}

/// `s` without its leading whitespace.
pub open spec fn trim_start_spec(s: Seq<char>) -> Seq<char>
    decreases s.len(),
{
    if s.len() > 0 && is_white_space(s[0]) {
        trim_start_spec(s.drop_first())
    } else {
        s
    }
}

/// `s` without its trailing whitespace.
pub open spec fn trim_end_spec(s: Seq<char>) -> Seq<char>
    decreases s.len(),
{
    if s.len() > 0 && is_white_space(s.last()) {
        trim_end_spec(s.drop_last())
    } else {
        s
    }
}

/// `s` without leading and trailing whitespace.
pub open spec fn trimmed(s: Seq<char>) -> Seq<char> {
    trim_end_spec(trim_start_spec(s))
}

/// `s` with every trailing repetition of a non-empty `pat` removed.
pub open spec fn without_suffixes(s: Seq<char>, pat: Seq<char>) -> Seq<char>
    decreases s.len(),
{
    if pat.len() > 0 && s.len() >= pat.len() && s.subrange(s.len() - pat.len(), s.len() as int)
        == pat {
        without_suffixes(s.subrange(0, s.len() - pat.len()), pat)
    } else {
        s
    }
}

/// `s` with every leading repetition of a non-empty `pat` removed.
pub open spec fn without_prefixes(s: Seq<char>, pat: Seq<char>) -> Seq<char>
    decreases s.len(),
{
    if pat.len() > 0 && s.len() >= pat.len() && s.subrange(0, pat.len() as int) == pat {
        without_prefixes(s.subrange(pat.len() as int, s.len() as int), pat)
    } else {
        s
    }
}

/// Everything after the first `=` of `s` (empty when there is none).
pub open spec fn after_equals(s: Seq<char>) -> Seq<char>
    decreases s.len(),
{
    if s.len() == 0 {
        s
    } else if s[0] == '=' {
        s.drop_first()
    } else {
        after_equals(s.drop_first())
    }
}

fn is_space(c: char) -> (r: bool)
    ensures
        r == is_white_space(c),
{
    ('\u{9}' <= c && c <= '\u{d}') || c == ' ' || c == '\u{85}' || c == '\u{a0}' || c == '\u{1680}'
        || ('\u{2000}' <= c && c <= '\u{200a}') || c == '\u{2028}' || c == '\u{2029}' || c
        == '\u{202f}' || c == '\u{205f}' || c == '\u{3000}'
}

/// `s` without leading and trailing whitespace.
pub fn trim<'a>(s: &'a str) -> (r: &'a str)
    ensures
        r@ == trimmed(s@),
{
    let n = s.unicode_len();
    let mut i: usize = 0;
    assert(s@.subrange(0, n as int) =~= s@);
    while i < n && is_space(s.get_char(i))
        invariant
            i <= n,
            n == s@.len(),
            trim_start_spec(s@) == trim_start_spec(s@.subrange(i as int, n as int)),
        decreases n - i,
    {
        assert(s@.subrange(i as int, n as int).drop_first() =~= s@.subrange(i + 1, n as int));
        i = i + 1;
    }
    assert(trim_start_spec(s@) == s@.subrange(i as int, n as int));
    let mut j: usize = n;
    while j > i && is_space(s.get_char(j - 1))
        invariant
            i <= j <= n,
            n == s@.len(),
            trimmed(s@) == trim_end_spec(s@.subrange(i as int, j as int)),
        decreases j,
    {
        assert(s@.subrange(i as int, j as int).drop_last() =~= s@.subrange(i as int, j - 1));
        j = j - 1;
    }
    s.substring_char(i, j)
}

/// Whether `pat` occurs in `s` at character position `at`.
fn occurs_at(s: &str, at: usize, pat: &str) -> (r: bool)
    requires
        at as int + pat@.len() <= s@.len() <= usize::MAX,
    ensures
        r == (s@.subrange(at as int, at + pat@.len()) == pat@),
{
    let m = pat.unicode_len();
    let mut k: usize = 0;
    while k < m
        invariant
            k <= m,
            m == pat@.len(),
            at + m <= s@.len() <= usize::MAX,
            forall|q: int| 0 <= q < k ==> s@[at + q] == pat@[q],
        decreases m - k,
    {
        if s.get_char(at + k) != pat.get_char(k) {
            assert(s@.subrange(at as int, at + pat@.len())[k as int] != pat@[k as int]);
            return false;
        }
        k = k + 1;
    }
    assert(s@.subrange(at as int, at + pat@.len()) =~= pat@);
    true
}

/// `s` with every trailing repetition of `pat` removed.
pub fn trim_end_matches<'a>(s: &'a str, pat: &str) -> (r: &'a str)
    requires
        pat@.len() > 0,
    ensures
        r@ == without_suffixes(s@, pat@),
{
    let n = s.unicode_len();
    let m = pat.unicode_len();
    let mut j: usize = n;
    assert(s@.subrange(0, n as int) =~= s@);
    while j >= m && occurs_at(s, j - m, pat)
        invariant
            j <= n,
            n == s@.len(),
            m == pat@.len() > 0,
            without_suffixes(s@, pat@) == without_suffixes(s@.subrange(0, j as int), pat@),
        decreases j,
    {
        assert(s@.subrange(0, j as int).subrange(j - m, j as int) =~= s@.subrange(j - m, j as int));
        assert(s@.subrange(0, j as int).subrange(0, j - m) =~= s@.subrange(0, j - m));
        j = j - m;
    }
    assert(j < m || s@.subrange(0, j as int).subrange(j - m, j as int) =~= s@.subrange(
        j - m,
        j as int,
    ));
    s.substring_char(0, j)
}

/// `s` with every leading repetition of `pat` removed.
pub fn trim_start_matches<'a>(s: &'a str, pat: &str) -> (r: &'a str)
    requires
        pat@.len() > 0,
    ensures
        r@ == without_prefixes(s@, pat@),
{
    let n = s.unicode_len();
    let m = pat.unicode_len();
    let mut i: usize = 0;
    assert(s@.subrange(0, n as int) =~= s@);
    while i <= n && n - i >= m && occurs_at(s, i, pat)
        invariant
            i <= n,
            n == s@.len(),
            m == pat@.len() > 0,
            without_prefixes(s@, pat@) == without_prefixes(s@.subrange(i as int, n as int), pat@),
        decreases n - i,
    {
        assert(s@.subrange(i as int, n as int).subrange(0, m as int) =~= s@.subrange(
            i as int,
            i + m,
        ));
        assert(s@.subrange(i as int, n as int).subrange(m as int, n - i) =~= s@.subrange(
            i + m,
            n as int,
        ));
        i = i + m;
    }
    assert(n - i < m || s@.subrange(i as int, n as int).subrange(0, m as int) =~= s@.subrange(
        i as int,
        i + m,
    ));
    s.substring_char(i, n)
}

/// The part of `s` after its first `=`, or none when `s` has no `=`.
pub fn split_after_equals<'a>(s: &'a str) -> (r: Option<&'a str>)
    ensures
        r is None <==> !s@.contains('='),
        r is Some ==> r->0@ == after_equals(s@),
{
    let n = s.unicode_len();
    let mut i: usize = 0;
    assert(s@.subrange(0, n as int) =~= s@);
    while i < n
        invariant
            i <= n,
            n == s@.len(),
            forall|q: int| 0 <= q < i ==> s@[q] != '=',
            after_equals(s@) == after_equals(s@.subrange(i as int, n as int)),
        decreases n - i,
    {
        assert(s@.subrange(i as int, n as int).drop_first() =~= s@.subrange(i + 1, n as int));
        if s.get_char(i) == '=' {
            return Some(s.substring_char(i + 1, n));
        }
        i = i + 1;
    }
    None
}

} // verus!
