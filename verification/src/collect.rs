//! Collecting, in ascending order of position, what a partial function yields.
//!
//! Every change list of this crate is such a collection: over the positions
//! of two item lists, or over the keys of two pallet maps.

use vstd::prelude::*;

verus! {

/// The values that `f` yields on `0, 1, .., n - 1`, in that order, leaving
/// out the positions on which it yields `None`.
pub open spec fn collect_below<E>(f: spec_fn(int) -> Option<E>, n: int) -> Seq<E>
    decreases n,
{
    if n <= 0 {
        Seq::empty()
    } else {
        match f(n - 1) {
            Some(e) => collect_below(f, n - 1).push(e),
            None => collect_below(f, n - 1),
        }
    }
}

/// Positions on which `f` yields nothing add nothing.
pub proof fn lemma_collect_skip<E>(f: spec_fn(int) -> Option<E>, lo: int, hi: int)
    requires
        0 <= lo <= hi,
        forall|k: int| lo <= k < hi ==> (#[trigger] f(k)) is None,
    ensures
        collect_below(f, hi) == collect_below(f, lo),
    decreases hi - lo,
{
    if lo < hi {
        lemma_collect_skip(f, lo, hi - 1);
    }
}

/// What `f` yields on `k` stands in the collection, at the place that the
/// number of values collected below `k` gives.
pub proof fn lemma_collect_holds<E>(f: spec_fn(int) -> Option<E>, n: int, k: int)
    requires
        0 <= k < n,
        f(k) is Some,
    ensures
        collect_below(f, k).len() < collect_below(f, n).len(),
        collect_below(f, n)[collect_below(f, k).len() as int] == f(k)->0,
    decreases n,
{
    if k < n - 1 {
        lemma_collect_holds(f, n - 1, k);
    }
}

/// Every value of the collection is what `f` yields on some position below
/// `n`, and its place is the number of values collected below that position.
pub proof fn lemma_collect_origin<E>(f: spec_fn(int) -> Option<E>, n: int, i: int) -> (k: int)
    requires
        0 <= i < collect_below(f, n).len(),
    ensures
        0 <= k < n,
        f(k) == Some(collect_below(f, n)[i]),
        collect_below(f, k).len() == i,
    decreases n,
{
    if f(n - 1) is Some && i == collect_below(f, n - 1).len() {
        n - 1
    } else {
        lemma_collect_origin(f, n - 1, i)
    }
}

/// Nothing is collected exactly when `f` yields nothing below `n`.
pub proof fn lemma_collect_empty<E>(f: spec_fn(int) -> Option<E>, n: int)
    ensures
        collect_below(f, n).len() == 0 <==> (forall|k: int| 0 <= k < n ==> (#[trigger] f(k)) is None),
    decreases n,
{
    if n > 0 {
        lemma_collect_empty(f, n - 1);
    }
}

/// The values that `f` yields on the positions of a list, in the order of
/// the list, leaving out the positions on which it yields `None`.
pub open spec fn collect_over<E>(f: spec_fn(int) -> Option<E>, positions: Seq<int>) -> Seq<E>
    decreases positions.len(),
{
    if positions.len() == 0 {
        Seq::empty()
    } else {
        match f(positions.last()) {
            Some(e) => collect_over(f, positions.drop_last()).push(e),
            None => collect_over(f, positions.drop_last()),
        }
    }
}

/// A list of positions is strictly increasing.
pub open spec fn ascending(positions: Seq<int>) -> bool {
    forall|i: int, j: int| 0 <= i < j < positions.len() ==> positions[i] < positions[j]
}

/// Collecting below `n` is collecting over any ascending list of positions
/// below `n` that leaves out no position on which `f` yields a value.
pub proof fn lemma_collect_below_is_over<E>(
    f: spec_fn(int) -> Option<E>,
    positions: Seq<int>,
    n: int,
)
    requires
        ascending(positions),
        forall|i: int| 0 <= i < positions.len() ==> 0 <= #[trigger] positions[i] < n,
        forall|k: int| 0 <= k < n && (#[trigger] f(k)) is Some ==> positions.contains(k),
    ensures
        collect_below(f, n) == collect_over(f, positions),
    decreases positions.len(),
{
    if positions.len() == 0 {
        lemma_collect_empty(f, n);
        assert(collect_below(f, n) =~= Seq::empty());
    } else {
        let last = positions.last();
        let rest = positions.drop_last();
        assert forall|k: int| last + 1 <= k < n implies (#[trigger] f(k)) is None by {
            if f(k) is Some {
                let i = choose|i: int| 0 <= i < positions.len() && positions[i] == k;
                if i < positions.len() - 1 {
                    assert(positions[i] < positions[positions.len() - 1]);
                }
            }
        }
        lemma_collect_skip(f, last + 1, n);
        assert forall|k: int| 0 <= k < last && (#[trigger] f(k)) is Some implies rest.contains(
            k,
        ) by {
            let i = choose|i: int| 0 <= i < positions.len() && positions[i] == k;
            assert(rest[i] == k);
        }
        assert forall|i: int| 0 <= i < rest.len() implies 0 <= #[trigger] rest[i] < last by {
            assert(positions[i] < positions[positions.len() - 1]);
        }
        lemma_collect_below_is_over(f, rest, last);
    }
}

} // verus!
