//! The first place in a sequence at which something holds.

use vstd::prelude::*;

verus! {

/// Whether `pred` holds of an element of `s`.
pub open spec fn found<T>(s: Seq<T>, pred: spec_fn(T) -> bool) -> bool {
    exists|i: int| 0 <= i < s.len() && pred(#[trigger] s[i])
}

/// Whether `i` is the first place of `s` at which `pred` holds.
pub open spec fn is_first<T>(s: Seq<T>, pred: spec_fn(T) -> bool, i: int) -> bool {
    &&& 0 <= i < s.len()
    &&& pred(s[i])
    &&& forall|j: int| 0 <= j < i ==> !pred(#[trigger] s[j])
}

/// The first place of `s` at which `pred` holds, where there is one.
pub open spec fn first_index<T>(s: Seq<T>, pred: spec_fn(T) -> bool) -> int {
    choose|i: int| is_first(s, pred, i)
}

/// The first place at which `pred` holds is the only one that is the first.
pub proof fn lemma_first_index<T>(s: Seq<T>, pred: spec_fn(T) -> bool, i: int)
    requires
        is_first(s, pred, i),
    ensures
        first_index(s, pred) == i,
        found(s, pred),
{
    let c = first_index(s, pred);
    assert(is_first(s, pred, c));
    if c < i {
        assert(!pred(s[c]));
    }
    if i < c {
        assert(!pred(s[i]));
    }
}

/// Where `pred` holds nowhere in `s`, nothing is found.
pub proof fn lemma_not_found<T>(s: Seq<T>, pred: spec_fn(T) -> bool)
    requires
        forall|j: int| 0 <= j < s.len() ==> !pred(#[trigger] s[j]),
    ensures
        !found(s, pred),
{
}

} // verus!
