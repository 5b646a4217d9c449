//! The items a pallet exposes: calls, events, errors, storage entries and
//! constants.

use crate::lists::{copy_strings, same_bytes, same_strings};
use vstd::prelude::*;
use vstd::std_specs::cmp::PartialEqSpecImpl;

verus! {

/// One externally observable item of a pallet.
#[derive(Debug)]
pub enum PalletItem {
    /// A dispatchable call: its index in the pallet, its name and the types
    /// of its arguments, in order.
    Call { index: u32, name: String, signature: Vec<String> },
    /// An event: its index in the pallet, its name and the types of its
    /// fields, in order.
    Event { index: u32, name: String, signature: Vec<String> },
    /// An error: its index in the pallet and its name.
    Error { index: u32, name: String },
    /// A storage entry: its name and the type it stores.
    Storage { name: String, ty: String },
    /// A constant: its name, its type and its encoded value.
    Constant { name: String, ty: String, value: Vec<u8> },
}

/// The mathematical model of a [`PalletItem`].
pub enum PalletItemView {
    Call { index: u32, name: Seq<char>, signature: Seq<Seq<char>> },
    Event { index: u32, name: Seq<char>, signature: Seq<Seq<char>> },
    Error { index: u32, name: Seq<char> },
    Storage { name: Seq<char>, ty: Seq<char> },
    Constant { name: Seq<char>, ty: Seq<char>, value: Seq<u8> },
}

impl DeepView for PalletItem {
    type V = PalletItemView;

    open spec fn deep_view(&self) -> PalletItemView {
        match *self {
            PalletItem::Call { index, name, signature } => PalletItemView::Call {
                index,
                name: name@,
                signature: signature.deep_view(),
            },
            PalletItem::Event { index, name, signature } => PalletItemView::Event {
                index,
                name: name@,
                signature: signature.deep_view(),
            },
            PalletItem::Error { index, name } => PalletItemView::Error { index, name: name@ },
            PalletItem::Storage { name, ty } => PalletItemView::Storage { name: name@, ty: ty@ },
            PalletItem::Constant { name, ty, value } => PalletItemView::Constant {
                name: name@,
                ty: ty@,
                value: value@,
            },
        }
    }
}

impl View for PalletItem {
    type V = PalletItemView;

    open spec fn view(&self) -> PalletItemView {
        self.deep_view()
    }
}

impl PalletItem {
    /// Structural equality: the same variant with the same contents.
    pub fn same(&self, other: &PalletItem) -> (r: bool)
        ensures
            r == (self@ == other@),
    {
        match (self, other) {
            (
                PalletItem::Call { index: i1, name: n1, signature: s1 },
                PalletItem::Call { index: i2, name: n2, signature: s2 },
            ) => *i1 == *i2 && *n1 == *n2 && same_strings(s1, s2),
            (
                PalletItem::Event { index: i1, name: n1, signature: s1 },
                PalletItem::Event { index: i2, name: n2, signature: s2 },
            ) => *i1 == *i2 && *n1 == *n2 && same_strings(s1, s2),
            (
                PalletItem::Error { index: i1, name: n1 },
                PalletItem::Error { index: i2, name: n2 },
            ) => *i1 == *i2 && *n1 == *n2,
            (
                PalletItem::Storage { name: n1, ty: t1 },
                PalletItem::Storage { name: n2, ty: t2 },
            ) => *n1 == *n2 && *t1 == *t2,
            (
                PalletItem::Constant { name: n1, ty: t1, value: v1 },
                PalletItem::Constant { name: n2, ty: t2, value: v2 },
            ) => *n1 == *n2 && *t1 == *t2 && same_bytes(v1, v2),
            _ => false,
        }
    }
}

impl PartialEq for PalletItem {
    fn eq(&self, other: &PalletItem) -> (r: bool) {
        self.same(other)
    }
}

impl PartialEqSpecImpl for PalletItem {
    open spec fn obeys_eq_spec() -> bool {
        true
    }

    open spec fn eq_spec(&self, other: &PalletItem) -> bool {
        self@ == other@
    }
}

impl Eq for PalletItem {

}

impl Clone for PalletItem {
    fn clone(&self) -> (r: Self)
        ensures
            r@ == self@,
    {
        match self {
            PalletItem::Call { index, name, signature } => PalletItem::Call {
                index: *index,
                name: name.clone(),
                signature: copy_strings(signature),
            },
            PalletItem::Event { index, name, signature } => PalletItem::Event {
                index: *index,
                name: name.clone(),
                signature: copy_strings(signature),
            },
            PalletItem::Error { index, name } => PalletItem::Error {
                index: *index,
                name: name.clone(),
            },
            PalletItem::Storage { name, ty } => PalletItem::Storage {
                name: name.clone(),
                ty: ty.clone(),
            },
            PalletItem::Constant { name, ty, value } => PalletItem::Constant {
                name: name.clone(),
                ty: ty.clone(),
                value: value.clone(),
            },
        }
    }
}

} // verus!
