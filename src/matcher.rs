use regex::RegexSet;
use vstd::prelude::*;

verus! {

#[verifier::external_type_specification]
#[verifier::external_body]
pub struct ExRegexSet(regex::RegexSet);

#[verifier::external_type_specification]
#[verifier::external_body]
pub struct ExRegexError(regex::Error);

/// The patterns a compiled set was built from, in their given order.
pub uninterp spec fn set_patterns(s: RegexSet) -> Seq<Seq<char>>;

/// Whether `RegexSet::new` accepts the given patterns.
pub uninterp spec fn patterns_compile(ps: Seq<Seq<char>>) -> bool;

/// Whether the regular expression `p` matches anywhere in `line`.
pub uninterp spec fn pattern_hits(p: Seq<char>, line: Seq<char>) -> bool;

/// Relies on `regex::RegexSet::new`: it fails exactly when the patterns are
/// rejected, and a built set keeps the patterns in the given order (as
/// `RegexSet::patterns` reports them).
#[verifier::external_body]
pub(crate) fn compile_set(patterns: &Vec<String>) -> (r: Result<RegexSet, regex::Error>)
    ensures
        r is Ok <==> patterns_compile(patterns.deep_view()),
        r is Ok ==> set_patterns(r->Ok_0) == patterns.deep_view(),
{
    RegexSet::new(patterns)
}

/// Relies on `regex::RegexSet::matches`: the indices of exactly the patterns
/// that match anywhere in the haystack, iterated in ascending order.
#[verifier::external_body]
pub(crate) fn matching_indices(set: &RegexSet, line: &str) -> (r: Vec<usize>)
    ensures
        forall|k: int|
            0 <= k < r@.len() ==> (r@[k] as int) < set_patterns(*set).len() && pattern_hits(
                set_patterns(*set)[r@[k] as int],
                line@,
            ),
        forall|i: int|
            0 <= i < set_patterns(*set).len() && pattern_hits(set_patterns(*set)[i], line@)
                ==> r@.contains(i as usize),
        forall|a: int, b: int| 0 <= a < b < r@.len() ==> r@[a] < r@[b],
{
    set.matches(line).into_iter().collect()
}

/// Whether `i` is the lowest index whose pattern matches `line`.
pub open spec fn is_first_hit(ps: Seq<Seq<char>>, line: Seq<char>, i: int) -> bool {
    &&& 0 <= i < ps.len()
    &&& pattern_hits(ps[i], line)
    &&& forall|j: int| 0 <= j < i ==> !pattern_hits(#[trigger] ps[j], line)
}

/// The lowest index whose pattern matches `line`, if any pattern does.
pub open spec fn first_hit(ps: Seq<Seq<char>>, line: Seq<char>) -> Option<int> {
    if exists|i: int| is_first_hit(ps, line, i) {
        Some(choose|i: int| is_first_hit(ps, line, i))
    } else {
        None
    }
}

/// The first match of `line` in `set`, by declaration order.
pub(crate) fn first_matching(set: &RegexSet, line: &str) -> (r: Option<usize>)
    ensures
        match r {
            Some(i) => first_hit(set_patterns(*set), line@) == Some(i as int),
            None => first_hit(set_patterns(*set), line@) is None,
        },
{
    let ghost ps = set_patterns(*set);
    let hits = matching_indices(set, line);
    if hits.len() == 0 {
        assert forall|i: int| !is_first_hit(ps, line@, i) by {
            if is_first_hit(ps, line@, i) {
                assert(hits@.contains(i as usize));
            }
        }
        None
    } else {
        let i = hits[0];
        assert forall|j: int| 0 <= j < i implies !pattern_hits(#[trigger] ps[j], line@) by {
            if pattern_hits(ps[j], line@) {
                assert(hits@.contains(j as usize));
                let k = choose|k: int| 0 <= k < hits@.len() && hits@[k] == j as usize;
                assert(k == 0 || hits@[0] < hits@[k]);
            }
        }
        assert(is_first_hit(ps, line@, i as int));
        assert forall|x: int| is_first_hit(ps, line@, x) implies x == i as int by {
            if x < i as int {
            } else if x > i as int {
                assert(!pattern_hits(ps[i as int], line@));
            }
        }
        Some(i)
    }
}

} // verus!
