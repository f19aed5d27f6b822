//! The first item of a sequence that has a property.

use vstd::prelude::*;

verus! {

/// The index of the first item with property `p`.
pub open spec fn first_index<A>(s: Seq<A>, p: spec_fn(A) -> bool) -> Option<int>
    decreases s.len(),
{
    if s.len() == 0 {
        None
    } else {
        match first_index(s.drop_last(), p) {
            Some(i) => Some(i),
            None => if p(s.last()) {
                Some(s.len() - 1)
            } else {
                None
            },
        }
    }
}

/// What `first_index` finds has the property, and nothing before it has; if it finds
/// nothing, no item has the property.
pub proof fn first_index_is_first<A>(s: Seq<A>, p: spec_fn(A) -> bool)
    ensures
        match first_index(s, p) {
            Some(i) => 0 <= i < s.len() && p(s[i]) && forall|j: int| 0 <= j < i ==> !p(#[trigger] s[j]),
            None => forall|j: int| 0 <= j < s.len() ==> !p(#[trigger] s[j]),
        },
    decreases s.len(),
{
    if s.len() > 0 {
        let t = s.drop_last();
        first_index_is_first(t, p);
        assert(forall|j: int| 0 <= j < t.len() ==> t[j] == #[trigger] s[j]);
    }
}

/// An item with the property and none before it is what `first_index` finds.
pub proof fn lemma_first_index_found<A>(s: Seq<A>, p: spec_fn(A) -> bool, i: int)
    requires
        0 <= i < s.len(),
        p(s[i]),
        forall|j: int| 0 <= j < i ==> !p(#[trigger] s[j]),
    ensures
        first_index(s, p) == Some(i),
{
    first_index_is_first(s, p);
}

/// Where no item has the property, `first_index` finds nothing.
pub proof fn lemma_first_index_none<A>(s: Seq<A>, p: spec_fn(A) -> bool)
    requires
        forall|j: int| 0 <= j < s.len() ==> !p(#[trigger] s[j]),
    ensures
        first_index(s, p) is None,
{
    first_index_is_first(s, p);
}

/// The index of the first item with property `p` from `from` on and before `to`.
pub open spec fn first_between<A>(s: Seq<A>, from: int, to: int, p: spec_fn(A) -> bool) -> Option<int>
    decreases to - from,
{
    if from >= to {
        None
    } else if p(s[from]) {
        Some(from)
    } else {
        first_between(s, from + 1, to, p)
    }
}

/// What `first_between` finds lies between the bounds and has the property, and
/// nothing before it has; if it finds nothing, nothing between the bounds has the
/// property.
pub proof fn first_between_is_first<A>(s: Seq<A>, from: int, to: int, p: spec_fn(A) -> bool)
    ensures
        match first_between(s, from, to, p) {
            Some(i) => from <= i < to && p(s[i]) && forall|j: int| from <= j < i ==> !p(#[trigger] s[j]),
            None => forall|j: int| from <= j < to ==> !p(#[trigger] s[j]),
        },
    decreases to - from,
{
    if from < to && !p(s[from]) {
        first_between_is_first(s, from + 1, to, p);
    }
}

/// What `first_index` finds in a sequence follows from its first item and the rest.
pub proof fn lemma_first_index_cons<A>(s: Seq<A>, p: spec_fn(A) -> bool)
    requires
        s.len() > 0,
    ensures
        p(s[0]) ==> first_index(s, p) == Some(0int),
        !p(s[0]) ==> first_index(s, p) == (match first_index(s.drop_first(), p) {
            Some(i) => Some(i + 1),
            None => None,
        }),
{
    let t = s.drop_first();
    first_index_is_first(s, p);
    first_index_is_first(t, p);
    assert(forall|j: int| 0 <= j < t.len() ==> t[j] == #[trigger] s[j + 1]);
    if !p(s[0]) {
        match (first_index(s, p), first_index(t, p)) {
            (Some(i), Some(k)) => {
                assert(p(t[i - 1]) && p(s[k + 1]));
            },
            (Some(i), None) => {
                assert(p(t[i - 1]));
            },
            (None, Some(k)) => {
                assert(p(s[k + 1]));
            },
            (None, None) => {},
        }
    }
}

} // verus!
