//! Places in lists.
use vstd::prelude::*;

verus! {

/// Whether a place is the first where something holds.
pub open spec fn is_first<A>(items: Seq<A>, holds: spec_fn(A) -> bool, at: int) -> bool {
    &&& 0 <= at < items.len()
    &&& holds(items[at])
    &&& forall|earlier: int| 0 <= earlier < at ==> !holds(#[trigger] items[earlier])
}

/// The first place where something holds.
pub open spec fn first_where<A>(items: Seq<A>, holds: spec_fn(A) -> bool) -> Option<int> {
    if exists|at: int| is_first(items, holds, at) {
        Some(choose|at: int| is_first(items, holds, at))
    } else {
        None
    }
}

/// There is only one first place.
pub proof fn lemma_first<A>(items: Seq<A>, holds: spec_fn(A) -> bool, at: int)
    requires
        is_first(items, holds, at),
    ensures
        first_where(items, holds) == Some(at),
{
    let found = choose|found: int| is_first(items, holds, found);
    assert(is_first(items, holds, found));
    if found < at {
        assert(!holds(items[found]));
    } else if at < found {
        assert(!holds(items[at]));
    }
}

/// Where something holds nowhere there is no first place.
pub proof fn lemma_nowhere<A>(items: Seq<A>, holds: spec_fn(A) -> bool)
    requires
        forall|at: int| 0 <= at < items.len() ==> !holds(#[trigger] items[at]),
    ensures
        first_where(items, holds) is None,
{
}

} // verus!
