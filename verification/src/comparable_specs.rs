//! The change types of the `comparable` crate and their mathematical models.
//!
//! The three enums are declared with their variants, which the verifier
//! reads from the crate itself: verified code builds them and matches on
//! them, and nothing is assumed of them.

use comparable::{Changed, MapChange, VecChange};
use vstd::prelude::*;

verus! {

/// `comparable::Changed`: either `Unchanged`, or `Changed` with a payload.
#[verifier::external_type_specification]
#[verifier::reject_recursive_types(T)]
pub struct ExChanged<T>(Changed<T>);

/// `comparable::MapChange`: one difference between two keyed collections.
#[verifier::external_type_specification]
#[verifier::reject_recursive_types(K)]
#[verifier::reject_recursive_types(D)]
#[verifier::reject_recursive_types(C)]
pub struct ExMapChange<K, D, C>(MapChange<K, D, C>);

/// `comparable::VecChange`: one difference between two sequences, by position.
#[verifier::external_type_specification]
#[verifier::reject_recursive_types(D)]
#[verifier::reject_recursive_types(C)]
pub struct ExVecChange<D, C>(VecChange<D, C>);

/// The model of a `Changed` value: the same variant over the payload's model.
pub open spec fn changed_view<T: DeepView>(c: Changed<T>) -> Changed<T::V> {
    match c {
        Changed::Unchanged => Changed::Unchanged,
        Changed::Changed(t) => Changed::Changed(t.deep_view()),
    }
}

/// The model of a `MapChange` value: the same variant and key over the models
/// of the description and of the nested change.
pub open spec fn map_change_view<K, D: DeepView, C: DeepView>(c: MapChange<K, D, C>) -> MapChange<
    K,
    D::V,
    C::V,
> {
    match c {
        MapChange::Added(k, d) => MapChange::Added(k, d.deep_view()),
        MapChange::Changed(k, c) => MapChange::Changed(k, c.deep_view()),
        MapChange::Removed(k) => MapChange::Removed(k),
    }
}

/// The models of a sequence of `MapChange` values, in the same order.
pub open spec fn map_changes_view<K, D: DeepView, C: DeepView>(s: Seq<MapChange<K, D, C>>) -> Seq<
    MapChange<K, D::V, C::V>,
> {
    Seq::new(s.len(), |i: int| map_change_view(s[i]))
}

/// The model of a `VecChange` value: the same variant and position over the
/// models of the description and of the nested change.
pub open spec fn vec_change_view<D: DeepView, C: DeepView>(c: VecChange<D, C>) -> VecChange<
    D::V,
    C::V,
> {
    match c {
        VecChange::Added(i, d) => VecChange::Added(i, d.deep_view()),
        VecChange::Changed(i, c) => VecChange::Changed(i, c.deep_view()),
        VecChange::Removed(i, d) => VecChange::Removed(i, d.deep_view()),
    }
}

/// The models of a sequence of `VecChange` values, in the same order.
pub open spec fn vec_changes_view<D: DeepView, C: DeepView>(s: Seq<VecChange<D, C>>) -> Seq<
    VecChange<D::V, C::V>,
> {
    Seq::new(s.len(), |i: int| vec_change_view(s[i]))
}

} // verus!
