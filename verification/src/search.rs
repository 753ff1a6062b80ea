//! First occurrences in sequences.

use vstd::prelude::*;

verus! {

/// `k` is the position of the first `x` in `s`.
pub open spec fn is_first_index<T>(s: Seq<T>, x: T, k: int) -> bool {
    &&& 0 <= k < s.len()
    &&& s[k] == x
    &&& forall|j: int| 0 <= j < k ==> s[j] != x
}

/// The position of the first `x` in `s`, if `s` holds one.
pub open spec fn first_index<T>(s: Seq<T>, x: T) -> Option<int> {
    if exists|k: int| is_first_index(s, x, k) {
        Some(choose|k: int| is_first_index(s, x, k))
    } else {
        None
    }
}

/// There is only one first occurrence.
pub proof fn lemma_first_index_is<T>(s: Seq<T>, x: T, k: int)
    requires
        is_first_index(s, x, k),
    ensures
        first_index(s, x) == Some(k),
{
    let c = choose|c: int| is_first_index(s, x, c);
    if c < k {
        assert(s[c] == x);
    } else if k < c {
        assert(s[k] == x);
    }
}

/// A sequence without `x` has no first `x`.
pub proof fn lemma_first_index_none<T>(s: Seq<T>, x: T)
    requires
        forall|j: int| 0 <= j < s.len() ==> s[j] != x,
    ensures
        first_index(s, x) is None,
{
    assert forall|c: int| !is_first_index(s, x, c) by {
        if 0 <= c < s.len() {
            assert(s[c] != x);
        }
    }
}

/// What `first_index` finds is a first occurrence; where it finds nothing,
/// there is none.
pub proof fn lemma_first_index_found<T>(s: Seq<T>, x: T)
    ensures
        match first_index(s, x) {
            Some(k) => is_first_index(s, x, k),
            None => forall|j: int| 0 <= j < s.len() ==> s[j] != x,
        },
{
    if first_index(s, x) is None {
        assert forall|j: int| 0 <= j < s.len() implies s[j] != x by {
            if s[j] == x {
                lemma_some_first_index(s, x, j);
            }
        }
    }
}

proof fn lemma_some_first_index<T>(s: Seq<T>, x: T, j: int)
    requires
        0 <= j < s.len(),
        s[j] == x,
    ensures
        exists|k: int| is_first_index(s, x, k),
    decreases j,
{
    if exists|i: int| 0 <= i < j && s[i] == x {
        let i = choose|i: int| 0 <= i < j && s[i] == x;
        lemma_some_first_index(s, x, i);
    } else {
        assert(is_first_index(s, x, j));
    }
}

} // verus!
