use vstd::prelude::*;

verus! {

/// What `char::is_whitespace` answers for a character.
pub uninterp spec fn is_space(c: char) -> bool;

/// What `str::to_lowercase` returns for a text.
pub uninterp spec fn lower_of(s: Seq<char>) -> Seq<char>;

/// Relies on `char::is_whitespace`: the Unicode White_Space property.
#[verifier::external_body]
fn whitespace(c: char) -> (r: bool)
    ensures
        r == is_space(c),
{
    c.is_whitespace()
}

/// Relies on `str::to_lowercase`: the result depends on the characters alone.
#[verifier::external_body]
pub(crate) fn lowercase(s: &str) -> (r: String)
    ensures
        r@ == lower_of(s@),
{
    s.to_lowercase()
}

/// The text with its leading whitespace removed.
pub open spec fn skip_space(s: Seq<char>) -> Seq<char>
    decreases s.len(),
{
    if s.len() > 0 && is_space(s[0]) {
        skip_space(s.drop_first())
    } else {
        s
    }
}

/// Whether the first character after leading whitespace is `{`.
pub open spec fn opens_record(s: Seq<char>) -> bool {
    skip_space(s).len() > 0 && skip_space(s)[0] == '{'
}

/// Whether `t` occurs in `s` as a contiguous run of characters.
pub open spec fn has_infix(s: Seq<char>, t: Seq<char>) -> bool {
    exists|i: int| 0 <= i && i + t.len() <= s.len() && #[trigger] s.subrange(i, i + t.len()) == t
}

/// Whether the line's leading non-whitespace content starts with `{`.
pub fn looks_structured(line: &str) -> (r: bool)
    ensures
        r == opens_record(line@),
{
    let n = line.unicode_len();
    let mut i: usize = 0;
    assert(line@.subrange(0, n as int) =~= line@);
    while i < n
        invariant
            n == line@.len(),
            i <= n,
            skip_space(line@.subrange(i as int, n as int)) == skip_space(line@),
        decreases n - i,
    {
        let c = line.get_char(i);
        let s = Ghost(line@.subrange(i as int, n as int));
        assert(s@[0] == c);
        if !whitespace(c) {
            return c == '{';
        }
        assert(s@.drop_first() =~= line@.subrange(i + 1, n as int));
        i = i + 1;
    }
    assert(line@.subrange(i as int, n as int).len() == 0);
    false
}

/// Whether `s` holds `t` at position `at`.
fn infix_at(s: &str, t: &str, at: usize) -> (r: bool)
    requires
        at + t@.len() <= s@.len(),
        s@.len() <= usize::MAX,
    ensures
        r == (s@.subrange(at as int, at + t@.len()) == t@),
{
    let m = t.unicode_len();
    let mut j: usize = 0;
    while j < m
        invariant
            m == t@.len(),
            j <= m,
            at + m <= s@.len(),
            s@.len() <= usize::MAX,
            forall|k: int| 0 <= k < j ==> s@[at + k] == t@[k],
        decreases m - j,
    {
        if s.get_char(at + j) != t.get_char(j) {
            proof {
                assert(s@.subrange(at as int, at + m)[j as int] != t@[j as int]);
            }
            return false;
        }
        j = j + 1;
    }
    assert(s@.subrange(at as int, at + m) =~= t@);
    true
}

/// Whether `t` occurs anywhere in `s`.
pub fn contains_text(s: &str, t: &str) -> (r: bool)
    ensures
        r == has_infix(s@, t@),
{
    let n = s.unicode_len();
    let m = t.unicode_len();
    if m > n {
        return false;
    }
    let last = n - m;
    let mut i: usize = 0;
    loop
        invariant
            n == s@.len(),
            m == t@.len(),
            last == n - m,
            i <= last,
            forall|k: int| 0 <= k < i ==> #[trigger] s@.subrange(k, k + m) != t@,
        ensures
            forall|k: int| 0 <= k <= last ==> #[trigger] s@.subrange(k, k + m) != t@,
        decreases last - i,
    {
        if infix_at(s, t, i) {
            return true;
        }
        if i == last {
            break;
        }
        i = i + 1;
    }
    assert forall|k: int| 0 <= k && k + m <= n implies #[trigger] s@.subrange(k, k + m) != t@ by {
        assert(k <= last);
    }
    false
}

} // verus!
