//! Finding the first position with a property.
use vstd::prelude::*;

verus! {

/// A property that holds at some natural number holds at a least one.
pub proof fn lemma_least(p: spec_fn(int) -> bool, w: int)
    requires
        0 <= w,
        p(w),
    ensures
        exists|i: int| 0 <= i && #[trigger] p(i) && forall|j: int| 0 <= j < i ==> !#[trigger] p(j),
    decreases w,
{
    if exists|j: int| 0 <= j < w && #[trigger] p(j) {
        let j = choose|j: int| 0 <= j < w && #[trigger] p(j);
        lemma_least(p, j);
    } else {
        assert(forall|j: int| 0 <= j < w ==> !#[trigger] p(j));
    }
}

} // verus!
