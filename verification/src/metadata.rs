//! Building a reduced runtime from the decoded metadata of a runtime.

use crate::error::WasmLoaderError;
use crate::pallet_item::PalletItemView;
use crate::reduced_extrinsic::{ExtrinsicDesc, ExtrinsicView};
use crate::reduced_pallet::{PalletId, PalletView, ReducedPallet};
use crate::reduced_runtime::{ReducedRuntime, RuntimeView};
use frame_metadata::{RuntimeMetadata, RuntimeMetadataV14};
use vstd::prelude::*;
use vstd::string::StringExecFns;

verus! {

/// `frame_metadata::RuntimeMetadata`: the metadata of a runtime, in one of
/// the versions of the metadata format.
#[verifier::external_type_specification]
#[verifier::external_body]
pub struct ExRuntimeMetadata(RuntimeMetadata);

/// `frame_metadata::v14::RuntimeMetadataV14`: the metadata of a runtime, in
/// version 14 of the metadata format.
#[verifier::external_type_specification]
#[verifier::external_body]
pub struct ExRuntimeMetadataV14(RuntimeMetadataV14);

/// What the variant `V14` of a `frame_metadata::RuntimeMetadata` holds;
/// `None` for every other variant.
pub uninterp spec fn metadata_v14(metadata: RuntimeMetadata) -> Option<RuntimeMetadataV14>;

/// The fields `index` and `name` of each pallet in the field `pallets` of a
/// `RuntimeMetadataV14`, in the order of that list.
pub uninterp spec fn v14_pallets(metadata: RuntimeMetadataV14) -> Seq<(u8, Seq<char>)>;

/// The field `extrinsic.version` of a `RuntimeMetadataV14`.
pub uninterp spec fn v14_extrinsic_version(metadata: RuntimeMetadataV14) -> u8;

/// The field `identifier` of each signed extension in the field
/// `extrinsic.signed_extensions` of a `RuntimeMetadataV14`, in the order of
/// that list.
pub uninterp spec fn v14_signed_extensions(metadata: RuntimeMetadataV14) -> Seq<Seq<char>>;

/// Matches on a `frame_metadata::RuntimeMetadata`: hands out what the
/// variant `V14` holds, and nothing for any other variant. The contract says
/// no more than that the result is what [`metadata_v14`] names.
#[verifier::external_body]
fn as_v14(metadata: &RuntimeMetadata) -> (r: Option<&RuntimeMetadataV14>)
    ensures
        match r {
            Some(v14) => metadata_v14(*metadata) == Some(*v14),
            None => metadata_v14(*metadata) is None,
        },
{
    match metadata {
        RuntimeMetadata::V14(v14) => Some(v14),
        _ => None,
    }
}

/// Reads the length of the field `pallets` of a
/// `frame_metadata::v14::RuntimeMetadataV14`: the length of the list that
/// [`v14_pallets`] names.
#[verifier::external_body]
fn pallet_count(metadata: &RuntimeMetadataV14) -> (r: usize)
    ensures
        r == v14_pallets(*metadata).len(),
{
    metadata.pallets.len()
}

/// Reads the field `index` of the `PalletMetadata` at position `i` of the
/// field `pallets`, for a position within the list.
#[verifier::external_body]
fn pallet_index(metadata: &RuntimeMetadataV14, i: usize) -> (r: u8)
    requires
        i < v14_pallets(*metadata).len(),
    ensures
        r == v14_pallets(*metadata)[i as int].0,
{
    metadata.pallets[i].index
}

/// Copies the field `name` of the `PalletMetadata` at position `i` of the
/// field `pallets`, for a position within the list.
#[verifier::external_body]
fn pallet_name(metadata: &RuntimeMetadataV14, i: usize) -> (r: String)
    requires
        i < v14_pallets(*metadata).len(),
    ensures
        r@ == v14_pallets(*metadata)[i as int].1,
{
    metadata.pallets[i].name.clone()
}

/// Reads the field `version` of the `ExtrinsicMetadata` in the field
/// `extrinsic` of a `RuntimeMetadataV14`.
#[verifier::external_body]
fn extrinsic_version(metadata: &RuntimeMetadataV14) -> (r: u8)
    ensures
        r == v14_extrinsic_version(*metadata),
{
    metadata.extrinsic.version
}

/// Reads the length of the field `signed_extensions` of the
/// `ExtrinsicMetadata` in the field `extrinsic`: the length of the list that
/// [`v14_signed_extensions`] names.
#[verifier::external_body]
fn signed_extension_count(metadata: &RuntimeMetadataV14) -> (r: usize)
    ensures
        r == v14_signed_extensions(*metadata).len(),
{
    metadata.extrinsic.signed_extensions.len()
}

/// Copies the field `identifier` of the `SignedExtensionMetadata` at
/// position `i` of the field `extrinsic.signed_extensions`, for a position
/// within the list.
#[verifier::external_body]
fn signed_extension_identifier(metadata: &RuntimeMetadataV14, i: usize) -> (r: String)
    requires
        i < v14_signed_extensions(*metadata).len(),
    ensures
        r@ == v14_signed_extensions(*metadata)[i as int],
{
    metadata.extrinsic.signed_extensions[i].identifier.clone()
}

/// The model of the pallet that is built from an index and a name.
pub open spec fn pallet_of(index: u8, name: Seq<char>) -> PalletView {
    PalletView { index: index as PalletId, name, items: Seq::<PalletItemView>::empty() }
}

/// The pallets that are built from the first `n` entries of a list of
/// indexes and names, each under its index. Where two entries have the same
/// index, the later one stays.
pub open spec fn pallets_of(entries: Seq<(u8, Seq<char>)>, n: int) -> Map<PalletId, PalletView>
    decreases n,
{
    if n <= 0 {
        Map::empty()
    } else {
        pallets_of(entries, n - 1).insert(
            entries[n - 1].0 as PalletId,
            pallet_of(entries[n - 1].0, entries[n - 1].1),
        )
    }
}

/// The model of the runtime that is built from metadata.
pub open spec fn runtime_of(metadata: RuntimeMetadataV14) -> RuntimeView {
    RuntimeView {
        extrinsic: ExtrinsicView {
            version: v14_extrinsic_version(metadata),
            signed_extensions: v14_signed_extensions(metadata),
        },
        pallets: pallets_of(v14_pallets(metadata), v14_pallets(metadata).len() as int),
    }
}

impl ReducedPallet {
    /// The pallet with the given index and name, as far as the metadata of a
    /// pallet is read: its items are not, and the list of items is empty.
    pub fn from_parts(index: u8, name: String) -> (r: ReducedPallet)
        ensures
            r@ == pallet_of(index, name@),
    {
        let index: PalletId = index.into();
        let items: Vec<crate::pallet_item::PalletItem> = Vec::new();
        let r = ReducedPallet { index, name, items };
        assert(r@.items =~= Seq::<PalletItemView>::empty());
        r
    }
}

impl ExtrinsicDesc {
    /// The extrinsic format that the metadata records.
    pub fn from_v14(metadata: &RuntimeMetadataV14) -> (r: ExtrinsicDesc)
        ensures
            r@ == runtime_of(*metadata).extrinsic,
    {
        let n = signed_extension_count(metadata);
        let mut signed_extensions: Vec<String> = Vec::new();
        let mut i: usize = 0;
        while i < n
            invariant
                i <= n,
                n == v14_signed_extensions(*metadata).len(),
                signed_extensions.len() == i,
                forall|j: int|
                    0 <= j < i ==> signed_extensions[j]@ == v14_signed_extensions(*metadata)[j],
            decreases n - i,
        {
            signed_extensions.push(signed_extension_identifier(metadata, i));
            i += 1;
        }
        assert(signed_extensions.deep_view() =~= v14_signed_extensions(*metadata));
        ExtrinsicDesc { version: extrinsic_version(metadata), signed_extensions }
    }
}

impl ReducedRuntime {
    /// The reduced form of the metadata of a runtime. It depends on the
    /// metadata alone.
    pub fn from_v14(metadata: &RuntimeMetadataV14) -> (r: ReducedRuntime)
        ensures
            r@ == runtime_of(*metadata),
    {
        let mut runtime = ReducedRuntime::new(ExtrinsicDesc::from_v14(metadata));
        let n = pallet_count(metadata);
        let mut i: usize = 0;
        while i < n
            invariant
                i <= n,
                n == v14_pallets(*metadata).len(),
                runtime@ == (RuntimeView {
                    extrinsic: runtime_of(*metadata).extrinsic,
                    pallets: pallets_of(v14_pallets(*metadata), i as int),
                }),
            decreases n - i,
        {
            let pallet = ReducedPallet::from_parts(
                pallet_index(metadata, i),
                pallet_name(metadata, i),
            );
            runtime.insert_pallet(pallet);
            i += 1;
        }
        runtime
    }

    /// The reduced form of the metadata of a runtime, where it is in version
    /// 14 of the metadata format; no other version is supported.
    pub fn from_metadata(metadata: &RuntimeMetadata) -> (r: Result<
        ReducedRuntime,
        WasmLoaderError,
    >)
        ensures
            match metadata_v14(*metadata) {
                Some(v14) => r matches Ok(runtime) && runtime@ == runtime_of(v14),
                None => r matches Err(WasmLoaderError::NotSupported(detail)) && detail@
                    == "metadata version other than 14"@,
            },
    {
        match as_v14(metadata) {
            Some(v14) => Ok(ReducedRuntime::from_v14(v14)),
            None => Err(WasmLoaderError::NotSupported(String::from_str("metadata version other than 14"))),
        }
    }
}

} // verus!
