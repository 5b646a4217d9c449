//! The differences between two versions of one pallet.

use crate::change::Change;
use crate::collect::collect_below;
use crate::comparable_specs::{changed_view, vec_changes_view};
use crate::pallet_item::{PalletItem, PalletItemView};
use crate::reduced_pallet::{PalletView, ReducedPallet};
use comparable::{Changed, VecChange};
use vstd::prelude::*;

verus! {

/// One difference between the item lists of two versions of a pallet, by
/// position: an item that only the new list has, one that only the reference
/// list has, or one that differs.
pub type ItemChange = VecChange<PalletItem, Change<PalletItem>>;

/// The mathematical model of an [`ItemChange`].
pub type ItemChangeView = VecChange<PalletItemView, Change<PalletItemView>>;

/// One facet of a pallet that differs between two versions of it.
#[derive(Debug, PartialEq)]
pub enum ReducedPalletChange {
    /// The name differs.
    Name(Change<String>),
    /// The items differ; never empty when produced by a comparison.
    Items(Vec<ItemChange>),
}

/// The mathematical model of a [`ReducedPalletChange`].
pub enum PalletChangeView {
    Name(Change<Seq<char>>),
    Items(Seq<ItemChangeView>),
}

impl DeepView for ReducedPalletChange {
    type V = PalletChangeView;

    open spec fn deep_view(&self) -> PalletChangeView {
        match *self {
            ReducedPalletChange::Name(c) => PalletChangeView::Name(c.deep_view()),
            ReducedPalletChange::Items(items) => PalletChangeView::Items(
                vec_changes_view(items@),
            ),
        }
    }
}

impl View for ReducedPalletChange {
    type V = PalletChangeView;

    open spec fn view(&self) -> PalletChangeView {
        self.deep_view()
    }
}

/// What position `i` contributes to the comparison of the item lists `a`
/// (reference) and `b` (new): nothing where both hold the same item, a
/// modification where both hold an item, else a removal or an addition.
pub open spec fn item_change_at(a: Seq<PalletItemView>, b: Seq<PalletItemView>, i: int) -> Option<
    ItemChangeView,
> {
    if 0 <= i < a.len() && i < b.len() {
        if a[i] == b[i] {
            None
        } else {
            Some(VecChange::Changed(i as usize, Change::Modified((a[i], b[i]))))
        }
    } else if 0 <= i < a.len() {
        Some(VecChange::Removed(i as usize, a[i]))
    } else if 0 <= i < b.len() {
        Some(VecChange::Added(i as usize, b[i]))
    } else {
        None
    }
}

/// [`item_change_at`] as a function of the position.
pub open spec fn item_change_fn(a: Seq<PalletItemView>, b: Seq<PalletItemView>) -> spec_fn(
    int,
) -> Option<ItemChangeView> {
    |i: int| item_change_at(a, b, i)
}

/// The differences between two item lists, in ascending order of position.
pub open spec fn spec_item_changes(a: Seq<PalletItemView>, b: Seq<PalletItemView>) -> Seq<
    ItemChangeView,
> {
    collect_below(item_change_fn(a, b), if a.len() >= b.len() { a.len() as int } else { b.len() as int })
}

/// The differences between two versions of a pallet: the name first, if it
/// differs, then the items, if any differs.
pub open spec fn spec_pallet_changes(a: PalletView, b: PalletView) -> Seq<PalletChangeView> {
    let name_part = if a.name == b.name {
        Seq::<PalletChangeView>::empty()
    } else {
        seq![PalletChangeView::Name(Change::Modified((a.name, b.name)))]
    };
    let items = spec_item_changes(a.items, b.items);
    let items_part = if items.len() == 0 {
        Seq::<PalletChangeView>::empty()
    } else {
        seq![PalletChangeView::Items(items)]
    };
    name_part + items_part
}

/// The outcome of comparing two versions of a pallet: `Unchanged` where
/// [`spec_pallet_changes`] is empty, else `Changed` with those changes.
pub open spec fn spec_pallet_comparison(a: PalletView, b: PalletView) -> Changed<
    Seq<PalletChangeView>,
> {
    let changes = spec_pallet_changes(a, b);
    if changes.len() == 0 {
        Changed::Unchanged
    } else {
        Changed::Changed(changes)
    }
}

/// Compares two item lists position by position.
pub fn compare_items(a: &Vec<PalletItem>, b: &Vec<PalletItem>) -> (r: Vec<ItemChange>)
    ensures
        vec_changes_view(r@) == spec_item_changes(a.deep_view(), b.deep_view()),
{
    let ghost av = a.deep_view();
    let ghost bv = b.deep_view();
    let n: usize = if a.len() >= b.len() {
        a.len()
    } else {
        b.len()
    };
    let mut changes: Vec<ItemChange> = Vec::new();
    let mut i: usize = 0;
    assert(vec_changes_view(changes@) =~= collect_below(item_change_fn(av, bv), 0));
    while i < n
        invariant
            i <= n,
            av == a.deep_view(),
            bv == b.deep_view(),
            n == if a.len() >= b.len() {
                a.len()
            } else {
                b.len()
            },
            vec_changes_view(changes@) == collect_below(item_change_fn(av, bv), i as int),
        decreases n - i,
    {
        let ghost before = changes@;
        if i >= b.len() {
            changes.push(VecChange::Removed(i, a[i].clone()));
            assert(vec_changes_view(changes@) =~= vec_changes_view(before).push(
                item_change_at(av, bv, i as int)->0,
            ));
        } else if i >= a.len() {
            changes.push(VecChange::Added(i, b[i].clone()));
            assert(vec_changes_view(changes@) =~= vec_changes_view(before).push(
                item_change_at(av, bv, i as int)->0,
            ));
        } else if !a[i].same(&b[i]) {
            changes.push(VecChange::Changed(i, Change::Modified((a[i].clone(), b[i].clone()))));
            assert(vec_changes_view(changes@) =~= vec_changes_view(before).push(
                item_change_at(av, bv, i as int)->0,
            ));
        }
        i += 1;
    }
    changes
}

impl ReducedPallet {
    /// Compares this pallet (the reference) with a newer version of it.
    ///
    /// Two pallets can only be compared if they claim the same index.
    pub fn comparison(&self, other: &ReducedPallet) -> (r: Changed<Vec<ReducedPalletChange>>)
        requires
            self.index == other.index,
        ensures
            changed_view(r) == spec_pallet_comparison(self@, other@),
    {
        let mut changes: Vec<ReducedPalletChange> = Vec::new();
        if self.name != other.name {
            changes.push(
                ReducedPalletChange::Name(Change::Modified((self.name.clone(), other.name.clone()))),
            );
        }
        let items = compare_items(&self.items, &other.items);
        if items.len() > 0 {
            changes.push(ReducedPalletChange::Items(items));
        }
        assert(changes.deep_view() =~= spec_pallet_changes(self@, other@));
        if changes.len() == 0 {
            Changed::Unchanged
        } else {
            Changed::Changed(changes)
        }
    }
}

} // verus!
