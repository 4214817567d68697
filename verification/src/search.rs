use vstd::prelude::*;

verus! {

/// `i` is the first position of `s` whose element satisfies `p`.
pub open spec fn first_at<T>(s: Seq<T>, p: spec_fn(T) -> bool, i: int) -> bool {
    &&& 0 <= i < s.len()
    &&& p(s[i])
    &&& forall|j: int| 0 <= j < i ==> !p(#[trigger] s[j])
}

/// Some element of `s` satisfies `p`.
pub open spec fn has_match<T>(s: Seq<T>, p: spec_fn(T) -> bool) -> bool {
    exists|i: int| first_at(s, p, i)
}

/// The first position of `s` whose element satisfies `p` (meaningful only
/// when `has_match(s, p)` holds).
pub open spec fn first_index<T>(s: Seq<T>, p: spec_fn(T) -> bool) -> int {
    choose|i: int| first_at(s, p, i)
}

/// A first match is unique.
pub proof fn lemma_first_at_unique<T>(s: Seq<T>, p: spec_fn(T) -> bool, i: int, j: int)
    requires
        first_at(s, p, i),
        first_at(s, p, j),
    ensures
        i == j,
{
    if i < j {
        assert(!p(s[i]));
    }
    if j < i {
        assert(!p(s[j]));
    }
}

/// Any match at all means a first match exists.
pub proof fn lemma_match_exists<T>(s: Seq<T>, p: spec_fn(T) -> bool, j: int)
    requires
        0 <= j < s.len(),
        p(s[j]),
    ensures
        has_match(s, p),
    decreases j,
{
    if forall|j2: int| 0 <= j2 < j ==> !p(#[trigger] s[j2]) {
        assert(first_at(s, p, j));
    } else {
        let j2 = choose|j2: int| 0 <= j2 < j && p(#[trigger] s[j2]);
        lemma_match_exists(s, p, j2);
    }
}

/// With no first match there is no match anywhere.
pub proof fn lemma_no_match<T>(s: Seq<T>, p: spec_fn(T) -> bool)
    requires
        !has_match(s, p),
    ensures
        forall|j: int| 0 <= j < s.len() ==> !p(#[trigger] s[j]),
{
    assert forall|j: int| 0 <= j < s.len() implies !p(#[trigger] s[j]) by {
        if p(s[j]) {
            lemma_match_exists(s, p, j);
        }
    }
}

/// `has_match` together with the position and prefix facts of the first index.
pub proof fn lemma_first_index<T>(s: Seq<T>, p: spec_fn(T) -> bool)
    requires
        has_match(s, p),
    ensures
        first_at(s, p, first_index(s, p)),
{
}

} // verus!
