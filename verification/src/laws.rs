//! What holds of every comparison, proved over the models.

use crate::change::Change;
use crate::changed_wrapper::{
    change_of_pallet_from, map_change_key, pallets_entry_from, spec_pallet_change_of,
    spec_pallets_changes_of,
};
use crate::collect::{
    collect_below, lemma_collect_empty, lemma_collect_holds, lemma_collect_origin,
};
use crate::diff_analyzer::{
    comparison_compatible, extrinsic_change_compatible, item_change_compatible,
    item_changes_compatible, map_change_compatible, map_changes_compatible,
    pallet_change_compatible, pallet_changes_compatible, runtime_change_compatible,
};
use crate::pallet_change::{
    item_change_at, item_change_fn, spec_item_changes, spec_pallet_changes,
    spec_pallet_comparison, PalletChangeView,
};
use crate::pallet_item::PalletItemView;
use crate::reduced_extrinsic::spec_extrinsic_changes;
use crate::reduced_pallet::{PalletId, PalletView};
use crate::reduced_runtime::{
    added_or_changed_at, added_or_changed_fn, index_limit, model_keyed_by_index, removed_at,
    removed_fn,
    spec_pallets_changes, spec_runtime_changes, spec_runtime_comparison, PalletMapChangeView,
    RuntimeChangeView, RuntimeView,
};
use comparable::{Changed, MapChange};
use vstd::prelude::*;

verus! {

/// What the comparison of the pallet maps `a` (reference) and `b` (new)
/// reports for the index `k`: an addition, a change, a removal, or nothing.
pub open spec fn pallet_change_at(
    a: Map<PalletId, PalletView>,
    b: Map<PalletId, PalletView>,
    k: PalletId,
) -> Option<PalletMapChangeView> {
    match added_or_changed_at(a, b, k as int) {
        Some(change) => Some(change),
        None => removed_at(a, b, k as int),
    }
}

/// Some change of the list speaks of the index `k`.
pub open spec fn speaks_of(changes: Seq<PalletMapChangeView>, k: PalletId) -> bool {
    exists|i: int| 0 <= i < changes.len() && map_change_key(#[trigger] changes[i]) == k
}

/// `change` stands in the list, and no other change of the list speaks of
/// the index `k`.
pub open spec fn sole_change_of(
    changes: Seq<PalletMapChangeView>,
    k: PalletId,
    change: PalletMapChangeView,
) -> bool {
    exists|i: int|
        0 <= i < changes.len() && #[trigger] changes[i] == change && forall|j: int|
            0 <= j < changes.len() && j != i ==> map_change_key(#[trigger] changes[j]) != k
}

/// Two item lists compare without a change exactly when they are equal.
pub proof fn lemma_item_changes_empty(a: Seq<PalletItemView>, b: Seq<PalletItemView>)
    ensures
        spec_item_changes(a, b).len() == 0 <==> a == b,
{
    let n = if a.len() >= b.len() {
        a.len() as int
    } else {
        b.len() as int
    };
    let f = item_change_fn(a, b);
    lemma_collect_empty(f, n);
    if a == b {
        assert forall|k: int| 0 <= k < n implies (#[trigger] f(k)) is None by {}
    }
    if spec_item_changes(a, b).len() == 0 {
        if a.len() != b.len() {
            let k = if a.len() < b.len() {
                a.len() as int
            } else {
                b.len() as int
            };
            assert(f(k) is Some);
        }
        assert forall|i: int| 0 <= i < a.len() implies a[i] == b[i] by {
            assert(f(i) is None);
        }
        assert(a =~= b);
    }
}

/// Two versions of a pallet compare without a change exactly when they have
/// the same name and the same items.
pub proof fn lemma_pallet_changes_empty(a: PalletView, b: PalletView)
    ensures
        spec_pallet_changes(a, b).len() == 0 <==> (a.name == b.name && a.items == b.items),
        spec_pallet_comparison(a, b) is Unchanged <==> (a.name == b.name && a.items == b.items),
{
    lemma_item_changes_empty(a.items, b.items);
}

/// The comparison of two pallet maps holds, for every index, what
/// [`pallet_change_at`] gives for it and nothing else that speaks of it.
pub proof fn lemma_pallet_change_is_sole(
    a: Map<PalletId, PalletView>,
    b: Map<PalletId, PalletView>,
    k: PalletId,
)
    ensures
        match pallet_change_at(a, b, k) {
            Some(change) => sole_change_of(spec_pallets_changes(a, b), k, change)
                && map_change_key(change) == k,
            None => !speaks_of(spec_pallets_changes(a, b), k),
        },
{
    let f = added_or_changed_fn(a, b);
    let g = removed_fn(a, b);
    let first = collect_below(f, index_limit());
    let second = collect_below(g, index_limit());
    let all = spec_pallets_changes(a, b);
    assert(all == first + second);
    // Each change of the list comes from the index it speaks of.
    assert forall|j: int| 0 <= j < first.len() && map_change_key(first[j]) == k implies f(
        k as int,
    ) == Some(first[j]) && collect_below(f, k as int).len() == j by {
        let origin = lemma_collect_origin(f, index_limit(), j);
        assert(f(origin) == added_or_changed_at(a, b, origin));
    }
    assert forall|j: int| 0 <= j < second.len() && map_change_key(second[j]) == k implies g(
        k as int,
    ) == Some(second[j]) && collect_below(g, k as int).len() == j by {
        let origin = lemma_collect_origin(g, index_limit(), j);
        assert(g(origin) == removed_at(a, b, origin));
    }
    assert(f(k as int) == added_or_changed_at(a, b, k as int));
    assert(g(k as int) == removed_at(a, b, k as int));
    if f(k as int) is Some {
        lemma_collect_holds(f, index_limit(), k as int);
        let i = collect_below(f, k as int).len() as int;
        assert(all[i] == pallet_change_at(a, b, k)->0);
        assert forall|j: int| 0 <= j < all.len() && j != i implies map_change_key(
            #[trigger] all[j],
        ) != k by {
            if j < first.len() {
                assert(all[j] == first[j]);
            } else {
                assert(all[j] == second[j - first.len()]);
            }
        }
    } else if g(k as int) is Some {
        lemma_collect_holds(g, index_limit(), k as int);
        let i = first.len() + collect_below(g, k as int).len() as int;
        assert(all[i] == second[i - first.len()]);
        assert forall|j: int| 0 <= j < all.len() && j != i implies map_change_key(
            #[trigger] all[j],
        ) != k by {
            if j < first.len() {
                assert(all[j] == first[j]);
            } else {
                assert(all[j] == second[j - first.len()]);
            }
        }
    } else {
        assert forall|j: int| 0 <= j < all.len() implies map_change_key(#[trigger] all[j])
            != k by {
            if j < first.len() {
                assert(all[j] == first[j]);
            } else {
                assert(all[j] == second[j - first.len()]);
            }
        }
    }
}

/// Looking a pallet up from position `i` on finds the one change that speaks
/// of it, where that change stands at `i` or later.
proof fn lemma_lookup_finds(changes: Seq<PalletMapChangeView>, k: PalletId, at: int, i: int)
    requires
        0 <= i <= at < changes.len(),
        map_change_key(changes[at]) == k,
        forall|j: int| 0 <= j < changes.len() && j != at ==> map_change_key(#[trigger] changes[j]) != k,
    ensures
        change_of_pallet_from(changes, k, i) == Some(changes[at]),
    decreases at - i,
{
    if i < at {
        lemma_lookup_finds(changes, k, at, i + 1);
    }
}

/// Looking a pallet up from position `i` on finds nothing where no change
/// speaks of it.
proof fn lemma_lookup_misses(changes: Seq<PalletMapChangeView>, k: PalletId, i: int)
    requires
        0 <= i,
        !speaks_of(changes, k),
    ensures
        change_of_pallet_from(changes, k, i) is None,
    decreases changes.len() - i,
{
    if i < changes.len() {
        assert(map_change_key(changes[i]) != k);
        lemma_lookup_misses(changes, k, i + 1);
    }
}

/// The pallet changes that the comparison of two runtimes holds are those of
/// the comparison of their pallet maps, where there is any.
pub proof fn law_comparison_holds_pallet_changes(a: RuntimeView, b: RuntimeView)
    ensures
        spec_pallets_changes_of(spec_runtime_comparison(a, b)) == if spec_pallets_changes(
            a.pallets,
            b.pallets,
        ).len() == 0 {
            None
        } else {
            Some(spec_pallets_changes(a.pallets, b.pallets))
        },
{
    let changes = spec_runtime_changes(a, b);
    let extrinsic = spec_extrinsic_changes(a.extrinsic, b.extrinsic);
    let pallets = spec_pallets_changes(a.pallets, b.pallets);
    if extrinsic.len() == 0 {
        if pallets.len() == 0 {
            assert(changes.len() == 0);
        } else {
            assert(changes[0] == RuntimeChangeView::Pallets(pallets));
        }
    } else {
        assert(changes[0] == RuntimeChangeView::Extrinsic(extrinsic));
        if pallets.len() == 0 {
            assert(changes.len() == 1);
            assert(pallets_entry_from(changes, 1) is None);
        } else {
            assert(changes[1] == RuntimeChangeView::Pallets(pallets));
            assert(pallets_entry_from(changes, 1) == Some(pallets));
        }
    }
}

/// Looking a pallet up in the comparison of two runtimes gives what the
/// comparison reports for its index: nothing for a pallet that did not
/// change, and nothing for an index that neither runtime uses.
pub proof fn law_lookup_gives_change_of_pallet(a: RuntimeView, b: RuntimeView, k: PalletId)
    ensures
        spec_pallet_change_of(spec_runtime_comparison(a, b), k) == pallet_change_at(
            a.pallets,
            b.pallets,
            k,
        ),
        !a.pallets.contains_key(k) && !b.pallets.contains_key(k) ==> spec_pallet_change_of(
            spec_runtime_comparison(a, b),
            k,
        ) is None,
{
    let pallets = spec_pallets_changes(a.pallets, b.pallets);
    law_comparison_holds_pallet_changes(a, b);
    lemma_pallet_change_is_sole(a.pallets, b.pallets, k);
    match pallet_change_at(a.pallets, b.pallets, k) {
        Some(change) => {
            let at = choose|i: int|
                0 <= i < pallets.len() && #[trigger] pallets[i] == change && forall|j: int|
                    0 <= j < pallets.len() && j != i ==> map_change_key(#[trigger] pallets[j])
                        != k;
            lemma_lookup_finds(pallets, k, at, 0);
        },
        None => {
            if pallets.len() > 0 {
                lemma_lookup_misses(pallets, k, 0);
            }
        },
    }
}

/// A runtime compared with itself shows no change, and no change is
/// compatible.
pub proof fn law_self_comparison_is_unchanged(a: RuntimeView)
    ensures
        spec_runtime_comparison(a, a) is Unchanged,
        comparison_compatible(spec_runtime_comparison(a, a)),
{
    let f = added_or_changed_fn(a.pallets, a.pallets);
    let g = removed_fn(a.pallets, a.pallets);
    assert forall|k: int| 0 <= k < index_limit() implies (#[trigger] f(k)) is None by {
        if a.pallets.contains_key(k as u32) {
            lemma_pallet_changes_empty(a.pallets[k as u32], a.pallets[k as u32]);
        }
    }
    assert forall|k: int| 0 <= k < index_limit() implies (#[trigger] g(k)) is None by {}
    lemma_collect_empty(f, index_limit());
    lemma_collect_empty(g, index_limit());
    assert(spec_pallets_changes(a.pallets, a.pallets).len() == 0);
    assert(spec_extrinsic_changes(a.extrinsic, a.extrinsic).len() == 0);
}

/// Two runtimes, each with its pallets under their own indexes, compare
/// without a change exactly when they are the same.
pub proof fn law_unchanged_means_equal(a: RuntimeView, b: RuntimeView)
    requires
        model_keyed_by_index(a.pallets),
        model_keyed_by_index(b.pallets),
    ensures
        spec_runtime_comparison(a, b) is Unchanged <==> a == b,
{
    if a == b {
        law_self_comparison_is_unchanged(a);
    }
    if spec_runtime_comparison(a, b) is Unchanged {
        let f = added_or_changed_fn(a.pallets, b.pallets);
        let g = removed_fn(a.pallets, b.pallets);
        assert(spec_extrinsic_changes(a.extrinsic, b.extrinsic).len() == 0);
        assert(spec_pallets_changes(a.pallets, b.pallets).len() == 0);
        assert(collect_below(f, index_limit()).len() == 0);
        assert(collect_below(g, index_limit()).len() == 0);
        lemma_collect_empty(f, index_limit());
        lemma_collect_empty(g, index_limit());
        assert forall|k: PalletId| a.pallets.contains_key(k) == b.pallets.contains_key(k) by {
            assert(f(k as int) is None);
            assert(g(k as int) is None);
        }
        assert forall|k: PalletId| a.pallets.contains_key(k) implies a.pallets[k]
            == b.pallets[k] by {
            assert(f(k as int) is None);
            lemma_pallet_changes_empty(a.pallets[k], b.pallets[k]);
        }
        assert(a.pallets =~= b.pallets);
        assert(a.extrinsic == b.extrinsic);
    }
}

/// A pallet that only the new runtime has is reported once, as added, and
/// that change is compatible.
pub proof fn law_new_pallet_is_added(a: RuntimeView, b: RuntimeView, k: PalletId)
    requires
        b.pallets.contains_key(k),
        !a.pallets.contains_key(k),
    ensures
        sole_change_of(
            spec_pallets_changes(a.pallets, b.pallets),
            k,
            MapChange::Added(k, b.pallets[k]),
        ),
        spec_pallet_change_of(spec_runtime_comparison(a, b), k) == Some(
            MapChange::<PalletId, PalletView, Seq<PalletChangeView>>::Added(k, b.pallets[k]),
        ),
        map_change_compatible(MapChange::Added(k, b.pallets[k])),
{
    lemma_pallet_change_is_sole(a.pallets, b.pallets, k);
    law_lookup_gives_change_of_pallet(a, b, k);
}

/// A pallet that only the reference runtime has is reported once, as
/// removed, and that change is not compatible: nor is the comparison.
pub proof fn law_missing_pallet_is_removed(a: RuntimeView, b: RuntimeView, k: PalletId)
    requires
        a.pallets.contains_key(k),
        !b.pallets.contains_key(k),
    ensures
        sole_change_of(spec_pallets_changes(a.pallets, b.pallets), k, MapChange::Removed(k)),
        spec_pallet_change_of(spec_runtime_comparison(a, b), k) == Some(
            MapChange::<PalletId, PalletView, Seq<PalletChangeView>>::Removed(k),
        ),
        !map_change_compatible(MapChange::Removed(k)),
        !comparison_compatible(spec_runtime_comparison(a, b)),
{
    lemma_pallet_change_is_sole(a.pallets, b.pallets, k);
    law_lookup_gives_change_of_pallet(a, b, k);
    let pallets = spec_pallets_changes(a.pallets, b.pallets);
    let changes = spec_runtime_changes(a, b);
    let at = choose|i: int|
        0 <= i < pallets.len() && #[trigger] pallets[i] == MapChange::<
            PalletId,
            PalletView,
            Seq<PalletChangeView>,
        >::Removed(k) && forall|j: int|
            0 <= j < pallets.len() && j != i ==> map_change_key(#[trigger] pallets[j]) != k;
    assert(!map_change_compatible(pallets[at]));
    let last = changes.len() - 1;
    assert(changes[last] == RuntimeChangeView::Pallets(pallets));
}

/// A pallet that both runtimes have with the same name and the same items is
/// not reported.
pub proof fn law_same_pallet_is_not_reported(a: RuntimeView, b: RuntimeView, k: PalletId)
    requires
        a.pallets.contains_key(k),
        b.pallets.contains_key(k),
        a.pallets[k].name == b.pallets[k].name,
        a.pallets[k].items == b.pallets[k].items,
    ensures
        !speaks_of(spec_pallets_changes(a.pallets, b.pallets), k),
        spec_pallet_change_of(spec_runtime_comparison(a, b), k) is None,
{
    lemma_pallet_changes_empty(a.pallets[k], b.pallets[k]);
    lemma_pallet_change_is_sole(a.pallets, b.pallets, k);
    law_lookup_gives_change_of_pallet(a, b, k);
}

/// A pallet that both runtimes have under different names is reported once,
/// as changed, and its changes start with the change of the name.
pub proof fn law_renamed_pallet_is_changed(a: RuntimeView, b: RuntimeView, k: PalletId)
    requires
        a.pallets.contains_key(k),
        b.pallets.contains_key(k),
        a.pallets[k].name != b.pallets[k].name,
    ensures
        sole_change_of(
            spec_pallets_changes(a.pallets, b.pallets),
            k,
            MapChange::Changed(k, spec_pallet_changes(a.pallets[k], b.pallets[k])),
        ),
        spec_pallet_change_of(spec_runtime_comparison(a, b), k) == Some(
            MapChange::<PalletId, PalletView, Seq<PalletChangeView>>::Changed(
                k,
                spec_pallet_changes(a.pallets[k], b.pallets[k]),
            ),
        ),
        spec_pallet_changes(a.pallets[k], b.pallets[k])[0] == PalletChangeView::Name(
            Change::Modified((a.pallets[k].name, b.pallets[k].name)),
        ),
{
    lemma_pallet_changes_empty(a.pallets[k], b.pallets[k]);
    lemma_pallet_change_is_sole(a.pallets, b.pallets, k);
    law_lookup_gives_change_of_pallet(a, b, k);
}

/// Where another pallet took over an index (another name, other items), the
/// index is reported once, as changed, with the change of the name and the
/// changes of the items; a pallet that was only renamed is reported with the
/// change of the name alone. Neither is reported as added or removed.
pub proof fn law_replaced_pallet_is_changed(a: RuntimeView, b: RuntimeView, k: PalletId)
    requires
        a.pallets.contains_key(k),
        b.pallets.contains_key(k),
        a.pallets[k].name != b.pallets[k].name,
    ensures
        sole_change_of(
            spec_pallets_changes(a.pallets, b.pallets),
            k,
            MapChange::Changed(k, spec_pallet_changes(a.pallets[k], b.pallets[k])),
        ),
        spec_pallet_changes(a.pallets[k], b.pallets[k]) == if a.pallets[k].items
            == b.pallets[k].items {
            seq![
                PalletChangeView::Name(Change::Modified((a.pallets[k].name, b.pallets[k].name))),
            ]
        } else {
            seq![
                PalletChangeView::Name(Change::Modified((a.pallets[k].name, b.pallets[k].name))),
                PalletChangeView::Items(spec_item_changes(a.pallets[k].items, b.pallets[k].items)),
            ]
        },
        a.pallets[k].items != b.pallets[k].items ==> spec_item_changes(
            a.pallets[k].items,
            b.pallets[k].items,
        ).len() > 0,
{
    law_renamed_pallet_is_changed(a, b, k);
    lemma_item_changes_empty(a.pallets[k].items, b.pallets[k].items);
    assert(spec_pallet_changes(a.pallets[k], b.pallets[k]) =~= if a.pallets[k].items
        == b.pallets[k].items {
        seq![PalletChangeView::Name(Change::Modified((a.pallets[k].name, b.pallets[k].name)))]
    } else {
        seq![
            PalletChangeView::Name(Change::Modified((a.pallets[k].name, b.pallets[k].name))),
            PalletChangeView::Items(spec_item_changes(a.pallets[k].items, b.pallets[k].items)),
        ]
    });
}

/// Comparing in the other direction reports the same indexes: what one
/// direction reports as added the other reports as removed, and what one
/// reports as changed the other reports as changed.
pub proof fn law_directions_report_same_indexes(a: RuntimeView, b: RuntimeView, k: PalletId)
    ensures
        speaks_of(spec_pallets_changes(a.pallets, b.pallets), k) <==> speaks_of(
            spec_pallets_changes(b.pallets, a.pallets),
            k,
        ),
        spec_pallet_change_of(spec_runtime_comparison(a, b), k) is Some <==> spec_pallet_change_of(
            spec_runtime_comparison(b, a),
            k,
        ) is Some,
        spec_pallet_change_of(spec_runtime_comparison(a, b), k) matches Some(
            MapChange::Added(_, _),
        ) <==> spec_pallet_change_of(spec_runtime_comparison(b, a), k) matches Some(
            MapChange::Removed(_),
        ),
        spec_pallet_change_of(spec_runtime_comparison(a, b), k) matches Some(
            MapChange::Removed(_),
        ) <==> spec_pallet_change_of(spec_runtime_comparison(b, a), k) matches Some(
            MapChange::Added(_, _),
        ),
        spec_pallet_change_of(spec_runtime_comparison(a, b), k) matches Some(
            MapChange::Changed(_, _),
        ) <==> spec_pallet_change_of(spec_runtime_comparison(b, a), k) matches Some(
            MapChange::Changed(_, _),
        ),
{
    lemma_pallet_change_is_sole(a.pallets, b.pallets, k);
    lemma_pallet_change_is_sole(b.pallets, a.pallets, k);
    law_lookup_gives_change_of_pallet(a, b, k);
    law_lookup_gives_change_of_pallet(b, a, k);
    if a.pallets.contains_key(k) && b.pallets.contains_key(k) {
        lemma_pallet_changes_empty(a.pallets[k], b.pallets[k]);
        lemma_pallet_changes_empty(b.pallets[k], a.pallets[k]);
    }
}

/// The list `a` is the start of the list `b`.
pub open spec fn is_start_of<T>(a: Seq<T>, b: Seq<T>) -> bool {
    &&& a.len() <= b.len()
    &&& forall|i: int| 0 <= i < a.len() ==> a[i] == b[i]
}

/// The new version `b` of a pallet keeps what the reference version `a`
/// offers: the name, and the items at their positions. It may have more
/// items after them.
pub open spec fn pallet_kept(a: PalletView, b: PalletView) -> bool {
    a.name == b.name && is_start_of(a.items, b.items)
}

/// The new pallet map `b` keeps every pallet of the reference map `a` under
/// its index. It may have more pallets.
pub open spec fn pallets_kept(a: Map<PalletId, PalletView>, b: Map<PalletId, PalletView>) -> bool {
    forall|k: PalletId| #[trigger]
        a.contains_key(k) ==> b.contains_key(k) && pallet_kept(a[k], b[k])
}

/// The new runtime `b` keeps what the reference runtime `a` offers: the
/// extrinsic format, and every pallet under its index. It may have more
/// pallets.
pub open spec fn runtime_kept(a: RuntimeView, b: RuntimeView) -> bool {
    a.extrinsic == b.extrinsic && pallets_kept(a.pallets, b.pallets)
}

/// The changes between two item lists are compatible exactly when the
/// reference list is the start of the new one.
pub proof fn lemma_item_changes_compatible(a: Seq<PalletItemView>, b: Seq<PalletItemView>)
    ensures
        item_changes_compatible(spec_item_changes(a, b)) <==> is_start_of(a, b),
{
    let n = if a.len() >= b.len() {
        a.len() as int
    } else {
        b.len() as int
    };
    let f = item_change_fn(a, b);
    let changes = spec_item_changes(a, b);
    if is_start_of(a, b) {
        assert forall|j: int| 0 <= j < changes.len() implies item_change_compatible(
            #[trigger] changes[j],
        ) by {
            let origin = lemma_collect_origin(f, n, j);
            assert(f(origin) == item_change_at(a, b, origin));
        }
    }
    if item_changes_compatible(changes) {
        assert forall|i: int| 0 <= i < a.len() implies i < b.len() && a[i] == b[i] by {
            assert(f(i) == item_change_at(a, b, i));
            if f(i) is Some {
                lemma_collect_holds(f, n, i);
                let at = collect_below(f, i).len() as int;
                assert(item_change_compatible(changes[at]));
            }
        }
        if a.len() > b.len() {
            let i = b.len() as int;
            assert(f(i) == item_change_at(a, b, i));
            lemma_collect_holds(f, n, i);
            let at = collect_below(f, i).len() as int;
            assert(item_change_compatible(changes[at]));
        }
    }
}

/// The changes between two versions of a pallet are compatible exactly when
/// the new version keeps what the reference version offers.
pub proof fn lemma_pallet_changes_compatible(a: PalletView, b: PalletView)
    ensures
        pallet_changes_compatible(spec_pallet_changes(a, b)) <==> pallet_kept(a, b),
{
    lemma_item_changes_compatible(a.items, b.items);
    let changes = spec_pallet_changes(a, b);
    let items = spec_item_changes(a.items, b.items);
    if a.name != b.name {
        assert(changes[0] == PalletChangeView::Name(Change::Modified((a.name, b.name))));
        assert(!pallet_change_compatible(changes[0]));
    } else if items.len() == 0 {
        assert(changes.len() == 0);
    } else {
        assert(changes.len() == 1);
        assert(changes[0] == PalletChangeView::Items(items));
    }
}

/// The changes between two pallet maps are compatible exactly when the new
/// map keeps every pallet of the reference map.
pub proof fn lemma_map_changes_compatible(
    a: Map<PalletId, PalletView>,
    b: Map<PalletId, PalletView>,
)
    ensures
        map_changes_compatible(spec_pallets_changes(a, b)) <==> pallets_kept(a, b),
{
    let f = added_or_changed_fn(a, b);
    let g = removed_fn(a, b);
    let first = collect_below(f, index_limit());
    let second = collect_below(g, index_limit());
    let all = spec_pallets_changes(a, b);
    assert(all == first + second);
    if pallets_kept(a, b) {
        assert forall|j: int| 0 <= j < all.len() implies map_change_compatible(
            #[trigger] all[j],
        ) by {
            if j < first.len() {
                assert(all[j] == first[j]);
                let origin = lemma_collect_origin(f, index_limit(), j);
                assert(f(origin) == added_or_changed_at(a, b, origin));
                let k = origin as PalletId;
                if a.contains_key(k) {
                    assert(pallet_kept(a[k], b[k]));
                    lemma_pallet_changes_compatible(a[k], b[k]);
                }
            } else {
                assert(all[j] == second[j - first.len()]);
                let origin = lemma_collect_origin(g, index_limit(), j - first.len());
                assert(g(origin) == removed_at(a, b, origin));
                let k = origin as PalletId;
                assert(pallet_kept(a[k], b[k]));
            }
        }
    }
    if map_changes_compatible(all) {
        assert forall|k: PalletId| #[trigger] a.contains_key(k) implies b.contains_key(k)
            && pallet_kept(a[k], b[k]) by {
            lemma_pallet_change_is_sole(a, b, k);
            lemma_pallet_changes_compatible(a[k], b[k]);
            lemma_pallet_changes_empty(a[k], b[k]);
            match pallet_change_at(a, b, k) {
                Some(change) => {
                    let at = choose|i: int|
                        0 <= i < all.len() && #[trigger] all[i] == change && forall|j: int|
                            0 <= j < all.len() && j != i ==> map_change_key(#[trigger] all[j])
                                != k;
                    assert(map_change_compatible(all[at]));
                },
                None => {},
            }
        }
    }
}

/// The verdict, in one sentence: the changes between two runtimes are
/// compatible exactly when the new runtime keeps what the reference runtime
/// offers. It keeps the extrinsic format, and every pallet under its index
/// with its name and with its items at their positions; it may have more
/// pallets, and more items at the end of a pallet.
pub proof fn law_compatible_means_kept(a: RuntimeView, b: RuntimeView)
    ensures
        comparison_compatible(spec_runtime_comparison(a, b)) <==> runtime_kept(a, b),
{
    lemma_map_changes_compatible(a.pallets, b.pallets);
    let changes = spec_runtime_changes(a, b);
    let extrinsic = spec_extrinsic_changes(a.extrinsic, b.extrinsic);
    let pallets = spec_pallets_changes(a.pallets, b.pallets);
    if extrinsic.len() > 0 {
        assert(changes[0] == RuntimeChangeView::Extrinsic(extrinsic));
        assert(!extrinsic_change_compatible(extrinsic[0]));
        assert(!runtime_change_compatible(changes[0]));
        assert(a.extrinsic != b.extrinsic);
    } else {
        assert(a.extrinsic == b.extrinsic);
        if pallets.len() > 0 {
            assert(changes.len() == 1);
            assert(changes[0] == RuntimeChangeView::Pallets(pallets));
        } else {
            assert(changes.len() == 0);
        }
    }
}

} // verus!
