//! Structural comparison of two reduced runtime schemas, and a verdict on
//! whether the differences keep the runtime's API backward compatible.
//!
//! A [`reduced_runtime::ReducedRuntime`] holds what matters of a runtime: the
//! format of its extrinsics and its pallets by index. Comparing two of them
//! gives the list of the parts that differ, down to the items of a pallet;
//! [`diff_analyzer::DiffAnalyzer`] looks changes up by pallet and tells
//! whether they are compatible. The module [`laws`] states what holds of
//! every comparison.
//!
//! Every type has a mathematical model, its view, and every function says in
//! its contract what it returns in terms of those models.

pub mod change;
pub mod changed_wrapper;
pub mod collect;
pub mod comparable_specs;
pub mod diff_analyzer;
pub mod error;
pub mod laws;
pub mod lists;
pub mod metadata;
pub mod pallet_change;
pub mod pallet_item;
pub mod reduced_extrinsic;
pub mod reduced_pallet;
pub mod reduced_runtime;
pub mod sorted_keys;
