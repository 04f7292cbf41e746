//! First and last positions in a list at which a condition holds.

use vstd::prelude::*;

verus! {

/// Whether `i` is the first position of `s` at which `pred` holds.
pub open spec fn is_first_where<A>(s: Seq<A>, pred: spec_fn(A) -> bool, i: int) -> bool {
    &&& 0 <= i < s.len()
    &&& pred(s[i])
    &&& forall|k: int| 0 <= k < i ==> !pred(#[trigger] s[k])
}

/// The first position of `s` at which `pred` holds, if there is one.
pub open spec fn first_where<A>(s: Seq<A>, pred: spec_fn(A) -> bool) -> Option<int> {
    if exists|i: int| is_first_where(s, pred, i) {
        Some(choose|i: int| is_first_where(s, pred, i))
    } else {
        None
    }
}

/// Whether `i` is the last position of `s` at which `pred` holds.
pub open spec fn is_last_where<A>(s: Seq<A>, pred: spec_fn(A) -> bool, i: int) -> bool {
    &&& 0 <= i < s.len()
    &&& pred(s[i])
    &&& forall|k: int| i < k < s.len() ==> !pred(#[trigger] s[k])
}

/// The last position of `s` at which `pred` holds, if there is one.
pub open spec fn last_where<A>(s: Seq<A>, pred: spec_fn(A) -> bool) -> Option<int> {
    if exists|i: int| is_last_where(s, pred, i) {
        Some(choose|i: int| is_last_where(s, pred, i))
    } else {
        None
    }
}

/// A first position is the first position.
pub proof fn lemma_first_where_found<A>(s: Seq<A>, pred: spec_fn(A) -> bool, i: int)
    requires
        is_first_where(s, pred, i),
    ensures
        first_where(s, pred) == Some(i),
{
    let j = choose|j: int| is_first_where(s, pred, j);
    if j < i {
        assert(!pred(s[j]));
    }
    if i < j {
        assert(!pred(s[i]));
    }
}

/// Where the condition holds nowhere, there is no first position.
pub proof fn lemma_first_where_absent<A>(s: Seq<A>, pred: spec_fn(A) -> bool)
    requires
        forall|k: int| 0 <= k < s.len() ==> !pred(#[trigger] s[k]),
    ensures
        first_where(s, pred) is None,
{
}

/// What `first_where` finds is a first position, and where it finds nothing
/// the condition holds nowhere.
pub proof fn lemma_first_where_sound<A>(s: Seq<A>, pred: spec_fn(A) -> bool)
    ensures
        match first_where(s, pred) {
            Some(i) => is_first_where(s, pred, i),
            None => forall|k: int| 0 <= k < s.len() ==> !pred(#[trigger] s[k]),
        },
{
    if first_where(s, pred) is None {
        assert forall|k: int| 0 <= k < s.len() implies !pred(#[trigger] s[k]) by {
            if pred(s[k]) {
                lemma_least_position(s, pred, k);
            }
        }
    }
}

/// Below a position at which the condition holds there is a first one.
proof fn lemma_least_position<A>(s: Seq<A>, pred: spec_fn(A) -> bool, k: int)
    requires
        0 <= k < s.len(),
        pred(s[k]),
    ensures
        exists|i: int| is_first_where(s, pred, i),
    decreases k,
{
    if exists|j: int| 0 <= j < k && pred(s[j]) {
        let j = choose|j: int| 0 <= j < k && pred(s[j]);
        lemma_least_position(s, pred, j);
    } else {
        assert(is_first_where(s, pred, k));
    }
}

/// A last position is the last position.
pub proof fn lemma_last_where_found<A>(s: Seq<A>, pred: spec_fn(A) -> bool, i: int)
    requires
        is_last_where(s, pred, i),
    ensures
        last_where(s, pred) == Some(i),
{
    let j = choose|j: int| is_last_where(s, pred, j);
    if j < i {
        assert(!pred(s[i]));
    }
    if i < j {
        assert(!pred(s[j]));
    }
}

/// Where the condition holds nowhere, there is no last position.
pub proof fn lemma_last_where_absent<A>(s: Seq<A>, pred: spec_fn(A) -> bool)
    requires
        forall|k: int| 0 <= k < s.len() ==> !pred(#[trigger] s[k]),
    ensures
        last_where(s, pred) is None,
{
}

} // verus!
