//! A runtime reduced to what matters when two runtimes are compared, and the
//! comparison itself.

use crate::collect::{collect_below, collect_over, lemma_collect_below_is_over};
use crate::laws::law_unchanged_means_equal;
use crate::comparable_specs::{changed_view, map_changes_view};
use crate::pallet_change::{spec_pallet_comparison, PalletChangeView, ReducedPalletChange};
use crate::reduced_extrinsic::{
    spec_extrinsic_changes, ExtrinsicChangeView, ExtrinsicDesc, ExtrinsicView,
    ReducedExtrinsicChange,
};
use crate::reduced_pallet::{PalletId, PalletView, ReducedPallet};
use crate::sorted_keys::{key_positions, lists_keys_of, sorted_keys, strictly_increasing};
use comparable::{Changed, MapChange};
use std::collections::BTreeMap;
use vstd::prelude::*;
use vstd::std_specs::cmp::PartialEqSpecImpl;

verus! {

broadcast use {vstd::std_specs::btree::group_btree_axioms, vstd::laws_cmp::group_laws_cmp};

/// What is recorded of a pallet that only the new runtime has.
pub type ReducedPalletDesc = ReducedPallet;

/// One difference between the pallets of two runtimes, by pallet index: a
/// pallet that only the new runtime has, one that only the reference runtime
/// has, or one that both have and that differs.
pub type PalletMapChange = MapChange<PalletId, ReducedPalletDesc, Vec<ReducedPalletChange>>;

/// The mathematical model of a [`PalletMapChange`].
pub type PalletMapChangeView = MapChange<PalletId, PalletView, Seq<PalletChangeView>>;

/// One part of a runtime that differs between two runtimes. A comparison
/// yields a list of them, so that the extrinsic format and the pallets can
/// both be reported as changed.
#[derive(Debug, PartialEq)]
pub enum ReducedRuntimeChange {
    /// The extrinsic format differs; never empty when produced by a comparison.
    Extrinsic(Vec<ReducedExtrinsicChange>),
    /// The pallets differ; never empty when produced by a comparison.
    Pallets(Vec<PalletMapChange>),
}

/// The mathematical model of a [`ReducedRuntimeChange`].
pub enum RuntimeChangeView {
    Extrinsic(Seq<ExtrinsicChangeView>),
    Pallets(Seq<PalletMapChangeView>),
}

impl DeepView for ReducedRuntimeChange {
    type V = RuntimeChangeView;

    open spec fn deep_view(&self) -> RuntimeChangeView {
        match *self {
            ReducedRuntimeChange::Extrinsic(changes) => RuntimeChangeView::Extrinsic(
                changes.deep_view(),
            ),
            ReducedRuntimeChange::Pallets(changes) => RuntimeChangeView::Pallets(
                map_changes_view(changes@),
            ),
        }
    }
}

impl View for ReducedRuntimeChange {
    type V = RuntimeChangeView;

    open spec fn view(&self) -> RuntimeChangeView {
        self.deep_view()
    }
}

/// The mathematical model of a [`ReducedRuntime`]: its extrinsic format and
/// its pallets by index.
pub struct RuntimeView {
    pub extrinsic: ExtrinsicView,
    pub pallets: Map<PalletId, PalletView>,
}

/// The number of possible pallet indexes; every index is below it.
pub open spec fn index_limit() -> int {
    0x1_0000_0000
}

/// What the index `k` contributes to the first pass over the pallets of the
/// reference runtime (`a`) and of the new one (`b`): an addition where only
/// `b` has a pallet there, a change where both have one and they differ,
/// nothing otherwise.
pub open spec fn added_or_changed_at(
    a: Map<PalletId, PalletView>,
    b: Map<PalletId, PalletView>,
    k: int,
) -> Option<PalletMapChangeView> {
    if 0 <= k < index_limit() && b.contains_key(k as u32) {
        if a.contains_key(k as u32) {
            match spec_pallet_comparison(a[k as u32], b[k as u32]) {
                Changed::Unchanged => None,
                Changed::Changed(changes) => Some(MapChange::Changed(k as u32, changes)),
            }
        } else {
            Some(MapChange::Added(k as u32, b[k as u32]))
        }
    } else {
        None
    }
}

/// [`added_or_changed_at`] as a function of the index.
pub open spec fn added_or_changed_fn(
    a: Map<PalletId, PalletView>,
    b: Map<PalletId, PalletView>,
) -> spec_fn(int) -> Option<PalletMapChangeView> {
    |k: int| added_or_changed_at(a, b, k)
}

/// What the index `k` contributes to the second pass: a removal where only
/// the reference runtime has a pallet there.
pub open spec fn removed_at(a: Map<PalletId, PalletView>, b: Map<PalletId, PalletView>, k: int) -> Option<
    PalletMapChangeView,
> {
    if 0 <= k < index_limit() && a.contains_key(k as u32) && !b.contains_key(k as u32) {
        Some(MapChange::Removed(k as u32))
    } else {
        None
    }
}

/// [`removed_at`] as a function of the index.
pub open spec fn removed_fn(a: Map<PalletId, PalletView>, b: Map<PalletId, PalletView>) -> spec_fn(
    int,
) -> Option<PalletMapChangeView> {
    |k: int| removed_at(a, b, k)
}

/// The differences between the pallets of two runtimes: first the additions
/// and changes in ascending order of index, then the removals in ascending
/// order of index. An index at which both runtimes hold the same pallet
/// contributes nothing.
pub open spec fn spec_pallets_changes(
    a: Map<PalletId, PalletView>,
    b: Map<PalletId, PalletView>,
) -> Seq<PalletMapChangeView> {
    collect_below(added_or_changed_fn(a, b), index_limit()) + collect_below(
        removed_fn(a, b),
        index_limit(),
    )
}

/// The differences between two runtimes: the extrinsic format first, if it
/// differs, then the pallets, if any differs.
pub open spec fn spec_runtime_changes(a: RuntimeView, b: RuntimeView) -> Seq<RuntimeChangeView> {
    let extrinsic = spec_extrinsic_changes(a.extrinsic, b.extrinsic);
    let extrinsic_part = if extrinsic.len() == 0 {
        Seq::<RuntimeChangeView>::empty()
    } else {
        seq![RuntimeChangeView::Extrinsic(extrinsic)]
    };
    let pallets = spec_pallets_changes(a.pallets, b.pallets);
    let pallets_part = if pallets.len() == 0 {
        Seq::<RuntimeChangeView>::empty()
    } else {
        seq![RuntimeChangeView::Pallets(pallets)]
    };
    extrinsic_part + pallets_part
}

/// The outcome of comparing two runtimes: `Unchanged` where
/// [`spec_runtime_changes`] is empty, else `Changed` with those changes.
pub open spec fn spec_runtime_comparison(a: RuntimeView, b: RuntimeView) -> Changed<
    Seq<RuntimeChangeView>,
> {
    let changes = spec_runtime_changes(a, b);
    if changes.len() == 0 {
        Changed::Unchanged
    } else {
        Changed::Changed(changes)
    }
}

/// The models of the pallets of a map, under the same keys.
pub open spec fn pallets_model(m: Map<PalletId, ReducedPallet>) -> Map<PalletId, PalletView> {
    Map::new(|k: PalletId| m.contains_key(k), |k: PalletId| m[k]@)
}

/// Every pallet of the map stands under its own index.
pub open spec fn keyed_by_index(m: Map<PalletId, ReducedPallet>) -> bool {
    forall|k: PalletId| m.contains_key(k) ==> (#[trigger] m[k]).index == k
}

/// Every pallet of the model of a map stands under its own index.
pub open spec fn model_keyed_by_index(m: Map<PalletId, PalletView>) -> bool {
    forall|k: PalletId| m.contains_key(k) ==> (#[trigger] m[k]).index == k
}

/// The first pass of the pallet comparison: additions and changes.
fn added_or_changed(
    a: &BTreeMap<PalletId, ReducedPallet>,
    b: &BTreeMap<PalletId, ReducedPallet>,
) -> (r: Vec<PalletMapChange>)
    requires
        keyed_by_index(a@),
        keyed_by_index(b@),
    ensures
        map_changes_view(r@) == collect_below(
            added_or_changed_fn(pallets_model(a@), pallets_model(b@)),
            index_limit(),
        ),
{
    let ghost f = added_or_changed_fn(pallets_model(a@), pallets_model(b@));
    let keys = sorted_keys(b);
    let ghost positions = key_positions(keys@);
    let mut changes: Vec<PalletMapChange> = Vec::new();
    let mut i: usize = 0;
    assert(map_changes_view(changes@) =~= collect_over(f, positions.take(0)));
    while i < keys.len()
        invariant
            i <= keys.len(),
            lists_keys_of(keys@, b@.dom()),
            keyed_by_index(a@),
            keyed_by_index(b@),
            positions == key_positions(keys@),
            f == added_or_changed_fn(pallets_model(a@), pallets_model(b@)),
            map_changes_view(changes@) == collect_over(f, positions.take(i as int)),
        decreases keys.len() - i,
    {
        let k = keys[i];
        let ghost before = changes@;
        proof {
            assert(positions.take(i + 1).drop_last() =~= positions.take(i as int));
            assert(positions.take(i + 1).last() == k);
            assert(b@.dom().contains(keys@[i as int]));
        }
        match b.get(&k) {
            Some(new) => {
                match a.get(&k) {
                    Some(old) => {
                        match old.comparison(new) {
                            Changed::Changed(nested) => {
                                changes.push(MapChange::Changed(k, nested));
                                assert(map_changes_view(changes@) =~= map_changes_view(
                                    before,
                                ).push(f(k as int)->0));
                            },
                            Changed::Unchanged => {},
                        }
                    },
                    None => {
                        changes.push(MapChange::Added(k, new.clone()));
                        assert(map_changes_view(changes@) =~= map_changes_view(before).push(
                            f(k as int)->0,
                        ));
                    },
                }
            },
            // Not reached: every key of the list is a key of `b`.
            None => {},
        }
        i += 1;
    }
    proof {
        assert(positions.take(keys.len() as int) =~= positions);
        assert forall|k: int| 0 <= k < index_limit() && (#[trigger] f(k)) is Some implies positions.contains(
            k,
        ) by {
            let at = choose|at: int| 0 <= at < keys@.len() && keys@[at] == k as u32;
            assert(positions[at] == k);
        }
        lemma_collect_below_is_over(f, positions, index_limit());
    }
    changes
}

/// The second pass of the pallet comparison: removals.
fn removed(a: &BTreeMap<PalletId, ReducedPallet>, b: &BTreeMap<PalletId, ReducedPallet>) -> (r: Vec<
    PalletMapChange,
>)
    ensures
        map_changes_view(r@) == collect_below(
            removed_fn(pallets_model(a@), pallets_model(b@)),
            index_limit(),
        ),
{
    let ghost f = removed_fn(pallets_model(a@), pallets_model(b@));
    let keys = sorted_keys(a);
    let ghost positions = key_positions(keys@);
    let mut changes: Vec<PalletMapChange> = Vec::new();
    let mut i: usize = 0;
    assert(map_changes_view(changes@) =~= collect_over(f, positions.take(0)));
    while i < keys.len()
        invariant
            i <= keys.len(),
            lists_keys_of(keys@, a@.dom()),
            positions == key_positions(keys@),
            f == removed_fn(pallets_model(a@), pallets_model(b@)),
            map_changes_view(changes@) == collect_over(f, positions.take(i as int)),
        decreases keys.len() - i,
    {
        let k = keys[i];
        let ghost before = changes@;
        proof {
            assert(positions.take(i + 1).drop_last() =~= positions.take(i as int));
            assert(positions.take(i + 1).last() == k);
            assert(a@.dom().contains(keys@[i as int]));
        }
        if !b.contains_key(&k) {
            changes.push(MapChange::Removed(k));
            assert(map_changes_view(changes@) =~= map_changes_view(before).push(f(k as int)->0));
        }
        i += 1;
    }
    proof {
        assert(positions.take(keys.len() as int) =~= positions);
        assert forall|k: int| 0 <= k < index_limit() && (#[trigger] f(k)) is Some implies positions.contains(
            k,
        ) by {
            let at = choose|at: int| 0 <= at < keys@.len() && keys@[at] == k as u32;
            assert(positions[at] == k);
        }
        lemma_collect_below_is_over(f, positions, index_limit());
    }
    changes
}

/// A runtime: its extrinsic format and its pallets, each under its own index.
#[derive(Debug)]
pub struct ReducedRuntime {
    extrinsic: ExtrinsicDesc,
    pallets: BTreeMap<PalletId, ReducedPallet>,
}

impl DeepView for ReducedRuntime {
    type V = RuntimeView;

    closed spec fn deep_view(&self) -> RuntimeView {
        RuntimeView { extrinsic: self.extrinsic@, pallets: pallets_model(self.pallets@) }
    }
}

impl View for ReducedRuntime {
    type V = RuntimeView;

    closed spec fn view(&self) -> RuntimeView {
        self.deep_view()
    }
}

impl PartialEq for ReducedRuntime {
    fn eq(&self, other: &ReducedRuntime) -> (r: bool) {
        match self.comparison(other) {
            Changed::Unchanged => true,
            Changed::Changed(_) => false,
        }
    }
}

impl PartialEqSpecImpl for ReducedRuntime {
    open spec fn obeys_eq_spec() -> bool {
        true
    }

    open spec fn eq_spec(&self, other: &ReducedRuntime) -> bool {
        self@ == other@
    }
}

impl Clone for ReducedRuntime {
    fn clone(&self) -> (r: Self)
        ensures
            r@ == self@,
    {
        proof {
            use_type_invariant(self);
        }
        ReducedRuntime { extrinsic: self.extrinsic.clone(), pallets: self.pallets.clone() }
    }
}

impl ReducedRuntime {
    #[verifier::type_invariant]
    spec fn pallets_keyed_by_index(self) -> bool {
        keyed_by_index(self.pallets@)
    }

    /// A runtime with the given extrinsic format and no pallet.
    pub fn new(extrinsic: ExtrinsicDesc) -> (r: Self)
        ensures
            r@ == (RuntimeView { extrinsic: extrinsic@, pallets: Map::empty() }),
    {
        let r = ReducedRuntime { extrinsic, pallets: BTreeMap::new() };
        assert(pallets_model(r.pallets@) =~= Map::empty());
        r
    }

    /// Puts a pallet under its index. A pallet that stood there before is
    /// replaced and handed back.
    pub fn insert_pallet(&mut self, pallet: ReducedPallet) -> (r: Option<ReducedPallet>)
        ensures
            final(self)@ == (RuntimeView {
                extrinsic: old(self)@.extrinsic,
                pallets: old(self)@.pallets.insert(pallet.index, pallet@),
            }),
            match r {
                Some(p) => old(self)@.pallets.contains_key(pallet.index) && p@ == old(
                    self,
                )@.pallets[pallet.index],
                None => !old(self)@.pallets.contains_key(pallet.index),
            },
    {
        proof {
            use_type_invariant(&*self);
        }
        let ghost model = pallets_model(self.pallets@);
        let ghost view = pallet@;
        let index = pallet.index;
        let mut pallets: BTreeMap<PalletId, ReducedPallet> = BTreeMap::new();
        core::mem::swap(&mut self.pallets, &mut pallets);
        let replaced = pallets.insert(index, pallet);
        core::mem::swap(&mut self.pallets, &mut pallets);
        assert(pallets_model(self.pallets@) =~= model.insert(index, view));
        replaced
    }

    /// The extrinsic format.
    pub fn extrinsic(&self) -> (r: &ExtrinsicDesc)
        ensures
            r@ == self@.extrinsic,
    {
        &self.extrinsic
    }

    /// The pallet with the given index, if there is one.
    pub fn pallet(&self, index: PalletId) -> (r: Option<&ReducedPallet>)
        ensures
            match r {
                Some(p) => self@.pallets.contains_key(index) && p@ == self@.pallets[index],
                None => !self@.pallets.contains_key(index),
            },
    {
        self.pallets.get(&index)
    }

    /// The pallets, each under its own index.
    pub fn pallets(&self) -> (r: &BTreeMap<PalletId, ReducedPallet>)
        ensures
            pallets_model(r@) == self@.pallets,
            keyed_by_index(r@),
    {
        proof {
            use_type_invariant(self);
        }
        &self.pallets
    }

    /// The indexes of the pallets, in ascending order.
    pub fn pallet_indexes(&self) -> (r: Vec<PalletId>)
        ensures
            strictly_increasing(r@),
            lists_keys_of(r@, self@.pallets.dom()),
    {
        let keys = sorted_keys(&self.pallets);
        assert(pallets_model(self.pallets@).dom() =~= self.pallets@.dom());
        keys
    }

    /// Compares this runtime (the reference) with a newer one. The outcome
    /// is `Unchanged` exactly when the two runtimes are the same.
    pub fn comparison(&self, other: &ReducedRuntime) -> (r: Changed<Vec<ReducedRuntimeChange>>)
        ensures
            changed_view(r) == spec_runtime_comparison(self@, other@),
            r is Unchanged <==> self@ == other@,
            model_keyed_by_index(self@.pallets),
            model_keyed_by_index(other@.pallets),
    {
        proof {
            use_type_invariant(self);
            use_type_invariant(other);
            law_unchanged_means_equal(self@, other@);
        }
        let mut changes: Vec<ReducedRuntimeChange> = Vec::new();
        match self.extrinsic.comparison(&other.extrinsic) {
            Changed::Changed(extrinsic) => {
                changes.push(ReducedRuntimeChange::Extrinsic(extrinsic));
            },
            Changed::Unchanged => {},
        }
        let mut pallets = added_or_changed(&self.pallets, &other.pallets);
        let mut gone = removed(&self.pallets, &other.pallets);
        let ghost first = pallets@;
        let ghost second = gone@;
        pallets.append(&mut gone);
        assert(map_changes_view(pallets@) =~= map_changes_view(first) + map_changes_view(second));
        if pallets.len() > 0 {
            changes.push(ReducedRuntimeChange::Pallets(pallets));
        }
        assert(changes.deep_view() =~= spec_runtime_changes(self@, other@));
        if changes.len() == 0 {
            Changed::Unchanged
        } else {
            Changed::Changed(changes)
        }
    }
}

} // verus!
