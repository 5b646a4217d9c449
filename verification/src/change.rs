//! The result of comparing one unit of a schema in two snapshots.

use vstd::prelude::*;

verus! {

/// What happened to one unit between the reference snapshot and the new one.
#[derive(Debug, PartialEq, Eq)]
pub enum Change<T> {
    /// The unit is the same in both snapshots.
    Unchanged,
    /// The unit exists only in the new snapshot.
    Added(T),
    /// The unit exists only in the reference snapshot.
    Removed(T),
    /// The unit exists in both snapshots, with the value before and after.
    Modified((T, T)),
}

impl<T: DeepView> DeepView for Change<T> {
    type V = Change<T::V>;

    open spec fn deep_view(&self) -> Change<T::V> {
        match *self {
            Change::Unchanged => Change::Unchanged,
            Change::Added(t) => Change::Added(t.deep_view()),
            Change::Removed(t) => Change::Removed(t.deep_view()),
            Change::Modified((before, after)) => Change::Modified(
                (before.deep_view(), after.deep_view()),
            ),
        }
    }
}

impl<T: DeepView> View for Change<T> {
    type V = Change<T::V>;

    open spec fn view(&self) -> Change<T::V> {
        self.deep_view()
    }
}

impl<T> Change<T> {
    /// True exactly for `Change::Unchanged`.
    pub fn is_unchanged(&self) -> (r: bool)
        ensures
            r == (*self is Unchanged),
    {
        match self {
            Change::Unchanged => true,
            _ => false,
        }
    }
}

} // verus!
