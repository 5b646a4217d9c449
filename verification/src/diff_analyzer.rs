//! The verdict on a comparison: do the changes keep the runtime's API
//! backward compatible?
//!
//! A change is compatible when a caller that encodes its requests against the
//! reference runtime is still understood by the new one. Wherever a change
//! cannot be shown harmless from what the reduced runtimes record, it counts
//! as breaking:
//!
//! - a pallet or an item that only the new runtime has is compatible;
//! - a pallet or an item that only the reference runtime has is breaking;
//! - a pallet whose name differs is breaking: nothing tells a renamed pallet
//!   from another pallet that took over the index;
//! - an item that differs at its position is breaking, whatever its variant:
//!   this covers a call index that is used again with another signature;
//! - a different extrinsic version, or a different list of signed
//!   extensions, is breaking.

use crate::changed_wrapper::{ChangedWrapper, ReducedDiffResult};
use crate::comparable_specs::{map_change_view, map_changes_view, vec_change_view, vec_changes_view};
use crate::pallet_change::{ItemChange, ItemChangeView, PalletChangeView, ReducedPalletChange};
use crate::reduced_extrinsic::{ExtrinsicChangeView, ReducedExtrinsicChange};
use crate::reduced_runtime::{
    PalletMapChange, PalletMapChangeView, ReducedRuntimeChange, RuntimeChangeView,
};
use comparable::{Changed, MapChange, VecChange};
use std::rc::Rc;
use vstd::prelude::*;

verus! {

/// Whether a change of the extrinsic format is compatible: only where
/// nothing changed.
pub open spec fn extrinsic_change_compatible(c: ExtrinsicChangeView) -> bool {
    match c {
        ExtrinsicChangeView::Version(version) => version is Unchanged,
        ExtrinsicChangeView::SignedExtensions(extensions) => extensions is Unchanged,
    }
}

/// Whether a change of an item is compatible: an added item is, a removed
/// one is not, and one that differs only where nothing changed.
pub open spec fn item_change_compatible(c: ItemChangeView) -> bool {
    match c {
        VecChange::Added(_, _) => true,
        VecChange::Removed(_, _) => false,
        VecChange::Changed(_, change) => change is Unchanged,
    }
}

/// Whether every change of a list of item changes is compatible.
pub open spec fn item_changes_compatible(changes: Seq<ItemChangeView>) -> bool {
    forall|i: int| 0 <= i < changes.len() ==> item_change_compatible(#[trigger] changes[i])
}

/// Whether a change of one facet of a pallet is compatible: the name only
/// where it did not change, the items where every item change is.
pub open spec fn pallet_change_compatible(c: PalletChangeView) -> bool {
    match c {
        PalletChangeView::Name(name) => name is Unchanged,
        PalletChangeView::Items(items) => item_changes_compatible(items),
    }
}

/// Whether every change of a list of pallet facet changes is compatible.
pub open spec fn pallet_changes_compatible(changes: Seq<PalletChangeView>) -> bool {
    forall|i: int| 0 <= i < changes.len() ==> pallet_change_compatible(#[trigger] changes[i])
}

/// Whether a change of the pallet map is compatible: an added pallet is, a
/// removed one is not, and a changed one where every nested change is.
pub open spec fn map_change_compatible(c: PalletMapChangeView) -> bool {
    match c {
        MapChange::Added(_, _) => true,
        MapChange::Removed(_) => false,
        MapChange::Changed(_, changes) => pallet_changes_compatible(changes),
    }
}

/// Whether every change of a list of pallet map changes is compatible.
pub open spec fn map_changes_compatible(changes: Seq<PalletMapChangeView>) -> bool {
    forall|i: int| 0 <= i < changes.len() ==> map_change_compatible(#[trigger] changes[i])
}

/// Whether every change of a list of extrinsic changes is compatible.
pub open spec fn extrinsic_changes_compatible(changes: Seq<ExtrinsicChangeView>) -> bool {
    forall|i: int| 0 <= i < changes.len() ==> extrinsic_change_compatible(#[trigger] changes[i])
}

/// Whether one part of the changes of a runtime is compatible.
pub open spec fn runtime_change_compatible(c: RuntimeChangeView) -> bool {
    match c {
        RuntimeChangeView::Extrinsic(changes) => extrinsic_changes_compatible(changes),
        RuntimeChangeView::Pallets(changes) => map_changes_compatible(changes),
    }
}

/// Whether every part of the changes of a runtime is compatible.
pub open spec fn runtime_changes_compatible(changes: Seq<RuntimeChangeView>) -> bool {
    forall|i: int| 0 <= i < changes.len() ==> runtime_change_compatible(#[trigger] changes[i])
}

/// Whether the outcome of a comparison is compatible: no change is, and a
/// list of changes where every one of them is.
pub open spec fn comparison_compatible(outcome: Changed<Seq<RuntimeChangeView>>) -> bool {
    match outcome {
        Changed::Unchanged => true,
        Changed::Changed(changes) => runtime_changes_compatible(changes),
    }
}

/// What can tell whether it keeps the API of the runtime backward compatible.
pub trait Compatible {
    /// What [`Compatible::compatible`] answers.
    spec fn is_compatible(&self) -> bool;

    /// This function reports whether the 2 runtimes APIs are compatible or not.
    /// This helps decide whether the runtime's `transaction_version` should be bumped or not.
    fn compatible(&self) -> (r: bool)
        ensures
            r == self.is_compatible(),
    ;
}

impl Compatible for ReducedExtrinsicChange {
    open spec fn is_compatible(&self) -> bool {
        extrinsic_change_compatible(self@)
    }

    fn compatible(&self) -> (r: bool) {
        match self {
            ReducedExtrinsicChange::Version(version) => version.is_unchanged(),
            ReducedExtrinsicChange::SignedExtensions(extensions) => extensions.is_unchanged(),
        }
    }
}

impl Compatible for ItemChange {
    open spec fn is_compatible(&self) -> bool {
        item_change_compatible(vec_change_view(*self))
    }

    fn compatible(&self) -> (r: bool) {
        match self {
            VecChange::Added(_, _) => true,
            VecChange::Removed(_, _) => false,
            VecChange::Changed(_, change) => change.is_unchanged(),
        }
    }
}

impl Compatible for ReducedPalletChange {
    open spec fn is_compatible(&self) -> bool {
        pallet_change_compatible(self@)
    }

    fn compatible(&self) -> (r: bool) {
        match self {
            ReducedPalletChange::Name(name) => name.is_unchanged(),
            ReducedPalletChange::Items(items) => {
                let mut all = true;
                let mut i: usize = 0;
                while i < items.len()
                    invariant
                        i <= items.len(),
                        all == (forall|j: int|
                            0 <= j < i ==> item_change_compatible(
                                #[trigger] vec_changes_view(items@)[j],
                            )),
                    decreases items.len() - i,
                {
                    let one = items[i].compatible();
                    assert(vec_changes_view(items@)[i as int] == vec_change_view(items@[i as int]));
                    all = all && one;
                    i += 1;
                }
                all
            },
        }
    }
}

impl Compatible for PalletMapChange {
    open spec fn is_compatible(&self) -> bool {
        map_change_compatible(map_change_view(*self))
    }

    fn compatible(&self) -> (r: bool) {
        match self {
            MapChange::Added(_key, _desc) => true,
            MapChange::Removed(_key) => false,
            MapChange::Changed(_key, changes) => {
                let mut all = true;
                let mut i: usize = 0;
                while i < changes.len()
                    invariant
                        i <= changes.len(),
                        all == (forall|j: int|
                            0 <= j < i ==> pallet_change_compatible(
                                #[trigger] changes.deep_view()[j],
                            )),
                    decreases changes.len() - i,
                {
                    let one = changes[i].compatible();
                    assert(changes.deep_view()[i as int] == changes@[i as int]@);
                    all = all && one;
                    i += 1;
                }
                all
            },
        }
    }
}

impl Compatible for ReducedRuntimeChange {
    open spec fn is_compatible(&self) -> bool {
        runtime_change_compatible(self@)
    }

    fn compatible(&self) -> (r: bool) {
        match self {
            ReducedRuntimeChange::Extrinsic(extrinsic) => {
                let mut all = true;
                let mut i: usize = 0;
                while i < extrinsic.len()
                    invariant
                        i <= extrinsic.len(),
                        all == (forall|j: int|
                            0 <= j < i ==> extrinsic_change_compatible(
                                #[trigger] extrinsic.deep_view()[j],
                            )),
                    decreases extrinsic.len() - i,
                {
                    let one = extrinsic[i].compatible();
                    assert(extrinsic.deep_view()[i as int] == extrinsic@[i as int]@);
                    all = all && one;
                    i += 1;
                }
                all
            },
            ReducedRuntimeChange::Pallets(pallets) => {
                let mut all = true;
                let mut i: usize = 0;
                while i < pallets.len()
                    invariant
                        i <= pallets.len(),
                        all == (forall|j: int|
                            0 <= j < i ==> map_change_compatible(
                                #[trigger] map_changes_view(pallets@)[j],
                            )),
                    decreases pallets.len() - i,
                {
                    let one = pallets[i].compatible();
                    assert(map_changes_view(pallets@)[i as int] == map_change_view(
                        pallets@[i as int],
                    ));
                    all = all && one;
                    i += 1;
                }
                all
            },
        }
    }
}

impl Compatible for ChangedWrapper {
    open spec fn is_compatible(&self) -> bool {
        comparison_compatible(self@)
    }

    fn compatible(&self) -> (r: bool) {
        match &self.0 {
            Changed::Unchanged => true,
            Changed::Changed(changes) => {
                let mut all = true;
                let mut i: usize = 0;
                while i < changes.len()
                    invariant
                        i <= changes.len(),
                        all == (forall|j: int|
                            0 <= j < i ==> runtime_change_compatible(
                                #[trigger] changes.deep_view()[j],
                            )),
                    decreases changes.len() - i,
                {
                    let one = changes[i].compatible();
                    assert(changes.deep_view()[i as int] == changes@[i as int]@);
                    all = all && one;
                    i += 1;
                }
                all
            },
        }
    }
}

impl Compatible for ReducedDiffResult {
    open spec fn is_compatible(&self) -> bool {
        match self.changes {
            Some(wrapper) => comparison_compatible(wrapper@),
            None => true,
        }
    }

    fn compatible(&self) -> (r: bool) {
        match &self.changes {
            Some(wrapper) => wrapper.compatible(),
            None => true,
        }
    }
}

/// This struct holds the changes between two runtimes.
/// It allows finding what has changed (or not) and making the decision about
/// whether the new runtime breaks API compatibility with the reference one.
#[derive(Debug)]
pub struct DiffAnalyzer {
    /// The changes between the reference runtime and the new one
    pub changes: Rc<ChangedWrapper>,
}

impl DiffAnalyzer {
    /// An analyzer of the given changes.
    pub fn new(changes: Rc<ChangedWrapper>) -> (r: Self)
        ensures
            r.changes == changes,
    {
        Self { changes }
    }

    /// The change of the pallet with the given index; `None` where that
    /// pallet did not change, or where neither runtime has such a pallet.
    pub fn get_pallet_changes(&self, pallet_id: u32) -> (r: Option<&PalletMapChange>)
        ensures
            match r {
                Some(change) => crate::changed_wrapper::spec_pallet_change_of(
                    self.changes@,
                    pallet_id,
                ) == Some(map_change_view(*change)),
                None => crate::changed_wrapper::spec_pallet_change_of(self.changes@, pallet_id)
                    is None,
            },
    {
        self.changes.get_pallet_changes_by_id(pallet_id)
    }
}

impl Compatible for DiffAnalyzer {
    open spec fn is_compatible(&self) -> bool {
        comparison_compatible(self.changes@)
    }

    fn compatible(&self) -> (r: bool) {
        self.changes.compatible()
    }
}

} // verus!
