//! The outcome of a comparison of two runtimes, and lookups in it.

use crate::comparable_specs::{changed_view, map_change_view, map_changes_view};
use crate::reduced_pallet::PalletId;
use crate::reduced_runtime::{
    spec_runtime_comparison, PalletMapChange, PalletMapChangeView, ReducedRuntime,
    ReducedRuntimeChange, RuntimeChangeView,
};
use comparable::{Changed, MapChange};
use std::rc::Rc;
use vstd::prelude::*;

verus! {

/// The key that a `MapChange` speaks of.
pub open spec fn map_change_key<K, D, C>(c: MapChange<K, D, C>) -> K {
    match c {
        MapChange::Added(k, _) => k,
        MapChange::Changed(k, _) => k,
        MapChange::Removed(k) => k,
    }
}

/// The pallet changes of the first entry, from position `i` on, that speaks
/// of pallets; `None` where no entry from there on does.
pub open spec fn pallets_entry_from(changes: Seq<RuntimeChangeView>, i: int) -> Option<
    Seq<PalletMapChangeView>,
>
    decreases changes.len() - i,
{
    if i < 0 || i >= changes.len() {
        None
    } else {
        match changes[i] {
            RuntimeChangeView::Pallets(pallets) => Some(pallets),
            RuntimeChangeView::Extrinsic(_) => pallets_entry_from(changes, i + 1),
        }
    }
}

/// The first change, from position `i` on, that speaks of the pallet with
/// index `id`; `None` where no change from there on does.
pub open spec fn change_of_pallet_from(pallets: Seq<PalletMapChangeView>, id: PalletId, i: int) -> Option<
    PalletMapChangeView,
>
    decreases pallets.len() - i,
{
    if i < 0 || i >= pallets.len() {
        None
    } else if map_change_key(pallets[i]) == id {
        Some(pallets[i])
    } else {
        change_of_pallet_from(pallets, id, i + 1)
    }
}

/// The pallet changes that the outcome of a comparison holds, if any.
pub open spec fn spec_pallets_changes_of(outcome: Changed<Seq<RuntimeChangeView>>) -> Option<
    Seq<PalletMapChangeView>,
> {
    match outcome {
        Changed::Unchanged => None,
        Changed::Changed(changes) => pallets_entry_from(changes, 0),
    }
}

/// The change that the outcome of a comparison holds for the pallet with
/// index `id`, if any.
pub open spec fn spec_pallet_change_of(outcome: Changed<Seq<RuntimeChangeView>>, id: PalletId) -> Option<
    PalletMapChangeView,
> {
    match spec_pallets_changes_of(outcome) {
        None => None,
        Some(pallets) => change_of_pallet_from(pallets, id, 0),
    }
}

/// The index that a pallet change speaks of.
pub fn pallet_change_id(change: &PalletMapChange) -> (id: PalletId)
    ensures
        id == map_change_key(*change),
        id == map_change_key(map_change_view(*change)),
{
    match change {
        MapChange::Added(id, _) => *id,
        MapChange::Changed(id, _) => *id,
        MapChange::Removed(id) => *id,
    }
}

/// The outcome of the comparison of two runtimes: `Unchanged`, or the list of
/// the parts that differ.
#[derive(Debug, PartialEq)]
pub struct ChangedWrapper(pub Changed<Vec<ReducedRuntimeChange>>);

impl DeepView for ChangedWrapper {
    type V = Changed<Seq<RuntimeChangeView>>;

    open spec fn deep_view(&self) -> Changed<Seq<RuntimeChangeView>> {
        changed_view(self.0)
    }
}

impl View for ChangedWrapper {
    type V = Changed<Seq<RuntimeChangeView>>;

    open spec fn view(&self) -> Changed<Seq<RuntimeChangeView>> {
        self.deep_view()
    }
}

impl ChangedWrapper {
    /// Wraps the outcome of a comparison.
    pub fn new(changes: Changed<Vec<ReducedRuntimeChange>>) -> (r: Self)
        ensures
            r.0 == changes,
    {
        ChangedWrapper(changes)
    }

    /// The changes of the pallets, if any pallet changed.
    pub fn get_pallets_changes(&self) -> (r: Option<&Vec<PalletMapChange>>)
        ensures
            match r {
                Some(pallets) => spec_pallets_changes_of(self@) == Some(
                    map_changes_view(pallets@),
                ),
                None => spec_pallets_changes_of(self@) is None,
            },
    {
        match &self.0 {
            Changed::Unchanged => None,
            Changed::Changed(changes) => {
                let mut i: usize = 0;
                while i < changes.len()
                    invariant
                        i <= changes.len(),
                        self@ == Changed::Changed(changes.deep_view()),
                        pallets_entry_from(changes.deep_view(), 0) == pallets_entry_from(
                            changes.deep_view(),
                            i as int,
                        ),
                    decreases changes.len() - i,
                {
                    match &changes[i] {
                        ReducedRuntimeChange::Pallets(pallets) => {
                            assert(changes.deep_view()[i as int] == changes[i as int]@);
                            return Some(pallets);
                        },
                        ReducedRuntimeChange::Extrinsic(_) => {
                            assert(changes.deep_view()[i as int] == changes[i as int]@);
                        },
                    }
                    i += 1;
                }
                None
            },
        }
    }

    /// The change of the pallet with the given index; `None` where that
    /// pallet did not change, or where neither runtime has such a pallet.
    pub fn get_pallet_changes_by_id(&self, pallet_id: PalletId) -> (r: Option<&PalletMapChange>)
        ensures
            match r {
                Some(change) => spec_pallet_change_of(self@, pallet_id) == Some(
                    map_change_view(*change),
                ),
                None => spec_pallet_change_of(self@, pallet_id) is None,
            },
    {
        match self.get_pallets_changes() {
            None => None,
            Some(pallets) => {
                let ghost model = map_changes_view(pallets@);
                let mut i: usize = 0;
                while i < pallets.len()
                    invariant
                        i <= pallets.len(),
                        model == map_changes_view(pallets@),
                        spec_pallets_changes_of(self@) == Some(model),
                        change_of_pallet_from(model, pallet_id, 0) == change_of_pallet_from(
                            model,
                            pallet_id,
                            i as int,
                        ),
                    decreases pallets.len() - i,
                {
                    assert(model[i as int] == map_change_view(pallets[i as int]));
                    if pallet_change_id(&pallets[i]) == pallet_id {
                        return Some(&pallets[i]);
                    }
                    i += 1;
                }
                None
            },
        }
    }
}

/// What a comparison of two runtimes found: nothing where they are the same,
/// else the changes, shared by whoever analyses them.
#[derive(Debug)]
pub struct ReducedDiffResult {
    /// The changes, if the two runtimes are not the same
    pub changes: Option<Rc<ChangedWrapper>>,
}

impl ReducedDiffResult {
    /// Compares a reference runtime with a new one. There are changes
    /// exactly when the two runtimes are not the same.
    pub fn new(reference: ReducedRuntime, new: ReducedRuntime) -> (r: Self)
        ensures
            match r.changes {
                Some(wrapper) => wrapper@ == spec_runtime_comparison(reference@, new@)
                    && wrapper@ is Changed,
                None => spec_runtime_comparison(reference@, new@) is Unchanged,
            },
            r.changes is None <==> reference@ == new@,
    {
        match reference.comparison(&new) {
            Changed::Unchanged => ReducedDiffResult { changes: None },
            Changed::Changed(changes) => ReducedDiffResult {
                changes: Some(Rc::new(ChangedWrapper::new(Changed::Changed(changes)))),
            },
        }
    }
}

} // verus!
