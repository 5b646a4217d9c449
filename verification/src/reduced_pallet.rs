//! A pallet reduced to what matters when two runtimes are compared.

use crate::change::Change;
use crate::pallet_item::{PalletItem, PalletItemView};
use vstd::prelude::*;
use vstd::std_specs::cmp::PartialEqSpecImpl;

verus! {

/// The index that identifies a pallet within a runtime.
pub type PalletId = u32;

/// One pallet of a runtime: its index, its name and the items it exposes.
#[derive(Debug)]
pub struct ReducedPallet {
    /// Index of the pallet
    pub index: PalletId,
    /// Name of the pallet
    pub name: String,
    /// All the items of the pallet, in their declared order
    pub items: Vec<PalletItem>,
}

/// The mathematical model of a [`ReducedPallet`].
pub struct PalletView {
    pub index: PalletId,
    pub name: Seq<char>,
    pub items: Seq<PalletItemView>,
}

impl DeepView for ReducedPallet {
    type V = PalletView;

    open spec fn deep_view(&self) -> PalletView {
        PalletView { index: self.index, name: self.name@, items: self.items.deep_view() }
    }
}

impl View for ReducedPallet {
    type V = PalletView;

    open spec fn view(&self) -> PalletView {
        self.deep_view()
    }
}

/// Whether two lists of items hold equal items in the same order.
pub fn same_items(a: &Vec<PalletItem>, b: &Vec<PalletItem>) -> (r: bool)
    ensures
        r == (a.deep_view() == b.deep_view()),
{
    if a.len() != b.len() {
        assert(a.deep_view().len() != b.deep_view().len());
        return false;
    }
    let mut i: usize = 0;
    while i < a.len()
        invariant
            i <= a.len(),
            a.len() == b.len(),
            forall|j: int| 0 <= j < i ==> a[j]@ == b[j]@,
        decreases a.len() - i,
    {
        if !a[i].same(&b[i]) {
            assert(a.deep_view()[i as int] != b.deep_view()[i as int]);
            return false;
        }
        i += 1;
    }
    assert(a.deep_view() =~= b.deep_view());
    true
}

/// A copy of a list of items.
pub fn copy_items(a: &Vec<PalletItem>) -> (r: Vec<PalletItem>)
    ensures
        r.deep_view() == a.deep_view(),
{
    let mut out: Vec<PalletItem> = Vec::new();
    let mut i: usize = 0;
    while i < a.len()
        invariant
            i <= a.len(),
            out.len() == i,
            forall|j: int| 0 <= j < i ==> out[j]@ == a[j]@,
        decreases a.len() - i,
    {
        out.push(a[i].clone());
        i += 1;
    }
    assert(out.deep_view() =~= a.deep_view());
    out
}

impl PartialEq for ReducedPallet {
    fn eq(&self, other: &ReducedPallet) -> (r: bool) {
        self.index == other.index && self.name == other.name && same_items(
            &self.items,
            &other.items,
        )
    }
}

impl PartialEqSpecImpl for ReducedPallet {
    open spec fn obeys_eq_spec() -> bool {
        true
    }

    open spec fn eq_spec(&self, other: &ReducedPallet) -> bool {
        self@ == other@
    }
}

impl Eq for ReducedPallet {

}

impl Clone for ReducedPallet {
    fn clone(&self) -> (r: Self)
        ensures
            r@ == self@,
    {
        ReducedPallet {
            index: self.index,
            name: self.name.clone(),
            items: copy_items(&self.items),
        }
    }
}

/// The outcome of comparing one value in two snapshots, borrowing from both.
#[derive(Debug)]
pub struct DiffResult<'meta, T> {
    /// What happened to the value, with the value on each side it exists on
    pub change: Change<&'meta T>,
}

impl<'meta, T> DiffResult<'meta, T> {
    /// Wraps the change that a comparison found.
    pub fn new(change: Change<&'meta T>) -> (r: Self)
        ensures
            r.change == change,
    {
        DiffResult { change }
    }
}

/// What [`ReducedPallet::diff`] reports for a pallet that may be present in
/// the reference snapshot (`a`), in the new one (`b`), or in both. Two
/// versions of a pallet are the same when they have the same name and the
/// same items. (A pallet that is present on neither side is not compared.)
pub open spec fn spec_pallet_diff<'meta>(
    a: Option<&'meta ReducedPallet>,
    b: Option<&'meta ReducedPallet>,
) -> Change<&'meta ReducedPallet> {
    match (a, b) {
        (Some(pa), Some(pb)) => if pa@.name == pb@.name && pa@.items == pb@.items {
            Change::Unchanged
        } else {
            Change::Modified((pa, pb))
        },
        (Some(pa), None) => Change::Removed(pa),
        (None, Some(pb)) => Change::Added(pb),
        (None, None) => Change::Unchanged,
    }
}

impl ReducedPallet {
    /// Computes the differences between 2 pallets.
    ///
    /// At least one side must be present, and two pallets can only be
    /// compared if they claim the same index.
    pub fn diff<'meta>(pallet_a: Option<&'meta Self>, pallet_b: Option<&'meta Self>) -> (r:
        DiffResult<'meta, ReducedPallet>)
        requires
            pallet_a is Some || pallet_b is Some,
            pallet_a is Some && pallet_b is Some ==> pallet_a->0.index == pallet_b->0.index,
        ensures
            r.change == spec_pallet_diff(pallet_a, pallet_b),
    {
        match (pallet_a, pallet_b) {
            (Some(pa), Some(pb)) => {
                if pa.name != pb.name {
                    return DiffResult::new(Change::Modified((pa, pb)));
                }
                if !same_items(&pa.items, &pb.items) {
                    return DiffResult::new(Change::Modified((pa, pb)));
                }
                DiffResult::new(Change::Unchanged)
            },
            (Some(pa), None) => DiffResult::new(Change::Removed(pa)),
            (None, Some(pb)) => DiffResult::new(Change::Added(pb)),
            (None, None) => DiffResult::new(Change::Unchanged),
        }
    }
}

} // verus!
