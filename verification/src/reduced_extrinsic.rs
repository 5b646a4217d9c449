//! The transaction envelope of a runtime, and the differences between two
//! versions of it.

use crate::change::Change;
use crate::comparable_specs::changed_view;
use crate::lists::{copy_strings, same_strings};
use comparable::Changed;
use vstd::prelude::*;
use vstd::std_specs::cmp::PartialEqSpecImpl;

verus! {

/// The format of the extrinsics of a runtime, whatever the pallets are.
#[derive(Debug)]
pub struct ExtrinsicDesc {
    /// Version of the extrinsic format
    pub version: u8,
    /// Identifiers of the signed extensions, in the order in which they
    /// appear in an extrinsic
    pub signed_extensions: Vec<String>,
}

/// The mathematical model of an [`ExtrinsicDesc`].
pub struct ExtrinsicView {
    pub version: u8,
    pub signed_extensions: Seq<Seq<char>>,
}

impl DeepView for ExtrinsicDesc {
    type V = ExtrinsicView;

    open spec fn deep_view(&self) -> ExtrinsicView {
        ExtrinsicView {
            version: self.version,
            signed_extensions: self.signed_extensions.deep_view(),
        }
    }
}

impl View for ExtrinsicDesc {
    type V = ExtrinsicView;

    open spec fn view(&self) -> ExtrinsicView {
        self.deep_view()
    }
}

impl PartialEq for ExtrinsicDesc {
    fn eq(&self, other: &ExtrinsicDesc) -> (r: bool) {
        self.version == other.version && same_strings(
            &self.signed_extensions,
            &other.signed_extensions,
        )
    }
}

impl PartialEqSpecImpl for ExtrinsicDesc {
    open spec fn obeys_eq_spec() -> bool {
        true
    }

    open spec fn eq_spec(&self, other: &ExtrinsicDesc) -> bool {
        self@ == other@
    }
}

impl Eq for ExtrinsicDesc {

}

impl Clone for ExtrinsicDesc {
    fn clone(&self) -> (r: Self)
        ensures
            r@ == self@,
    {
        ExtrinsicDesc {
            version: self.version,
            signed_extensions: copy_strings(&self.signed_extensions),
        }
    }
}

/// One property of the extrinsic format that differs between two runtimes.
#[derive(Debug, PartialEq, Eq)]
pub enum ReducedExtrinsicChange {
    /// The format version differs.
    Version(Change<u8>),
    /// The list of signed extensions differs.
    SignedExtensions(Change<Vec<String>>),
}

/// The mathematical model of a [`ReducedExtrinsicChange`].
pub enum ExtrinsicChangeView {
    Version(Change<u8>),
    SignedExtensions(Change<Seq<Seq<char>>>),
}

impl DeepView for ReducedExtrinsicChange {
    type V = ExtrinsicChangeView;

    open spec fn deep_view(&self) -> ExtrinsicChangeView {
        match *self {
            ReducedExtrinsicChange::Version(c) => ExtrinsicChangeView::Version(c.deep_view()),
            ReducedExtrinsicChange::SignedExtensions(c) => ExtrinsicChangeView::SignedExtensions(
                c.deep_view(),
            ),
        }
    }
}

impl View for ReducedExtrinsicChange {
    type V = ExtrinsicChangeView;

    open spec fn view(&self) -> ExtrinsicChangeView {
        self.deep_view()
    }
}

/// The differences between two extrinsic formats: the version first, if it
/// differs, then the signed extensions, if they differ.
pub open spec fn spec_extrinsic_changes(a: ExtrinsicView, b: ExtrinsicView) -> Seq<
    ExtrinsicChangeView,
> {
    let version_part = if a.version == b.version {
        Seq::<ExtrinsicChangeView>::empty()
    } else {
        seq![ExtrinsicChangeView::Version(Change::Modified((a.version, b.version)))]
    };
    let extensions_part = if a.signed_extensions == b.signed_extensions {
        Seq::<ExtrinsicChangeView>::empty()
    } else {
        seq![
            ExtrinsicChangeView::SignedExtensions(
                Change::Modified((a.signed_extensions, b.signed_extensions)),
            ),
        ]
    };
    version_part + extensions_part
}

/// The outcome of comparing two extrinsic formats: `Unchanged` where
/// [`spec_extrinsic_changes`] is empty, else `Changed` with those changes.
pub open spec fn spec_extrinsic_comparison(a: ExtrinsicView, b: ExtrinsicView) -> Changed<
    Seq<ExtrinsicChangeView>,
> {
    let changes = spec_extrinsic_changes(a, b);
    if changes.len() == 0 {
        Changed::Unchanged
    } else {
        Changed::Changed(changes)
    }
}

impl ExtrinsicDesc {
    /// Compares this extrinsic format (the reference) with a newer one.
    pub fn comparison(&self, other: &ExtrinsicDesc) -> (r: Changed<Vec<ReducedExtrinsicChange>>)
        ensures
            changed_view(r) == spec_extrinsic_comparison(self@, other@),
    {
        let mut changes: Vec<ReducedExtrinsicChange> = Vec::new();
        if self.version != other.version {
            changes.push(
                ReducedExtrinsicChange::Version(Change::Modified((self.version, other.version))),
            );
        }
        if !same_strings(&self.signed_extensions, &other.signed_extensions) {
            changes.push(
                ReducedExtrinsicChange::SignedExtensions(
                    Change::Modified(
                        (
                            copy_strings(&self.signed_extensions),
                            copy_strings(&other.signed_extensions),
                        ),
                    ),
                ),
            );
        }
        assert(changes.deep_view() =~= spec_extrinsic_changes(self@, other@));
        if changes.len() == 0 {
            Changed::Unchanged
        } else {
            Changed::Changed(changes)
        }
    }
}

} // verus!
