use substrate_differ::diff_analyzer::Compatible;
use substrate_differ::error::WasmLoaderError;
use substrate_differ::reduced_extrinsic::ExtrinsicDesc;
use substrate_differ::reduced_pallet::ReducedPallet;
use substrate_differ::reduced_runtime::ReducedRuntime;

use comparable::Changed;
use frame_metadata::{
    ExtrinsicMetadata, OpaqueMetadata, PalletMetadata, RuntimeMetadata, RuntimeMetadataV14,
    SignedExtensionMetadata,
};
use scale_info::meta_type;

fn pallet_metadata(index: u8, name: &'static str) -> PalletMetadata {
    PalletMetadata {
        name,
        storage: None,
        calls: None,
        event: None,
        constants: vec![],
        error: None,
        index,
    }
}

fn signed_extension(identifier: &'static str) -> SignedExtensionMetadata {
    SignedExtensionMetadata {
        identifier,
        ty: meta_type::<()>(),
        additional_signed: meta_type::<()>(),
    }
}

fn metadata(
    version: u8,
    extensions: &[&'static str],
    pallets: &[(u8, &'static str)],
) -> RuntimeMetadataV14 {
    RuntimeMetadataV14::new(
        pallets.iter().map(|(index, name)| pallet_metadata(*index, name)).collect(),
        ExtrinsicMetadata {
            ty: meta_type::<()>(),
            version,
            signed_extensions: extensions.iter().map(|id| signed_extension(id)).collect(),
        },
        meta_type::<()>(),
    )
}

#[test]
fn a_runtime_is_built_from_its_metadata() {
    let md = metadata(4, &["CheckSpecVersion", "CheckNonce"], &[(0, "System"), (4, "Balances")]);
    let runtime = ReducedRuntime::from_v14(&md);
    assert_eq!(
        runtime.extrinsic(),
        &ExtrinsicDesc {
            version: 4,
            signed_extensions: vec!["CheckSpecVersion".to_string(), "CheckNonce".to_string()]
        }
    );
    assert_eq!(runtime.pallet_indexes(), vec![0, 4]);
    assert_eq!(
        runtime.pallet(0),
        Some(&ReducedPallet { index: 0, name: "System".to_string(), items: vec![] })
    );
    assert_eq!(
        runtime.pallet(4),
        Some(&ReducedPallet { index: 4, name: "Balances".to_string(), items: vec![] })
    );
    assert_eq!(runtime.pallet(1), None);
}

#[test]
fn the_same_metadata_gives_the_same_runtime() {
    let md = metadata(4, &["CheckNonce"], &[(0, "System"), (255, "Last"), (4, "Balances")]);
    let first = ReducedRuntime::from_v14(&md);
    let second = ReducedRuntime::from_v14(&md);
    assert_eq!(first.comparison(&second), Changed::Unchanged);
    assert_eq!(first.pallet_indexes(), vec![0, 4, 255]);
}

#[test]
fn a_later_pallet_with_the_same_index_stays() {
    let md = metadata(4, &[], &[(4, "Balances"), (4, "Assets")]);
    let runtime = ReducedRuntime::from_v14(&md);
    assert_eq!(runtime.pallet_indexes(), vec![4]);
    assert_eq!(runtime.pallet(4).unwrap().name, "Assets");
}

#[test]
fn extrinsic_desc_is_read_from_metadata() {
    let md = metadata(5, &[], &[]);
    assert_eq!(ExtrinsicDesc::from_v14(&md), ExtrinsicDesc { version: 5, signed_extensions: vec![] });
}

#[test]
fn a_pallet_from_its_index_and_name_has_no_items() {
    let p = ReducedPallet::from_parts(200, "Proxy".to_string());
    assert_eq!(p, ReducedPallet { index: 200, name: "Proxy".to_string(), items: vec![] });
}

#[test]
fn metadata_v14_is_supported() {
    let md = RuntimeMetadata::V14(metadata(4, &[], &[(0, "System")]));
    let runtime = ReducedRuntime::from_metadata(&md).unwrap();
    assert_eq!(runtime.pallet_indexes(), vec![0]);
    assert_eq!(runtime.extrinsic().version, 4);
}

#[test]
fn other_metadata_versions_are_not_supported() {
    for md in [
        RuntimeMetadata::V12(OpaqueMetadata(vec![])),
        RuntimeMetadata::V13(OpaqueMetadata(vec![])),
        RuntimeMetadata::V15(OpaqueMetadata(vec![])),
    ] {
        match ReducedRuntime::from_metadata(&md) {
            Err(WasmLoaderError::NotSupported(detail)) => assert_eq!(detail, "metadata version other than 14"),
            other => panic!("unexpected outcome: {:?}", other.map(|_| ())),
        }
    }
}

#[test]
fn runtimes_from_metadata_are_compared() {
    let a = ReducedRuntime::from_v14(&metadata(4, &["CheckNonce"], &[(0, "System"), (4, "Balances")]));
    let b = ReducedRuntime::from_v14(&metadata(4, &["CheckNonce"], &[(0, "System"), (5, "Assets")]));
    let result = substrate_differ::changed_wrapper::ReducedDiffResult::new(a, b);
    assert!(result.changes.is_some());
    assert!(!result.compatible());
}

#[test]
fn error_messages() {
    assert_eq!(
        WasmLoaderError::EndpointParsing("ws:/bad".to_string()).to_string(),
        "Parsing issue: \"ws:/bad\""
    );
    assert_eq!(
        WasmLoaderError::OnchainBlockParsing("0xzz".to_string()).to_string(),
        "Parsing issue: \"0xzz\""
    );
    assert_eq!(
        WasmLoaderError::NotSupported("V12".to_string()).to_string(),
        "Unsupported: \"V12\""
    );
    assert_eq!(WasmLoaderError::HttpClient().to_string(), "HttpClient Error");
    assert_eq!(WasmLoaderError::WsClient().to_string(), "WsClient Error");
}

#[test]
fn error_details_are_shown_escaped() {
    assert_eq!(
        WasmLoaderError::NotSupported("a \"quoted\"\nline".to_string()).to_string(),
        "Unsupported: \"a \\\"quoted\\\"\\nline\""
    );
    assert_eq!(WasmLoaderError::EndpointParsing(String::new()).to_string(), "Parsing issue: \"\"");
}

#[test]
fn error_message_with_a_given_detail() {
    let e = WasmLoaderError::NotSupported("V12".to_string());
    assert_eq!(e.detail(), Some(&"V12".to_string()));
    assert_eq!(e.message_with("version 12"), "Unsupported: version 12");
    assert_eq!(
        WasmLoaderError::EndpointParsing("x".to_string()).message_with("y"),
        "Parsing issue: y"
    );
    assert_eq!(
        WasmLoaderError::OnchainBlockParsing("x".to_string()).message_with(""),
        "Parsing issue: "
    );
    assert_eq!(WasmLoaderError::HttpClient().detail(), None);
    assert_eq!(WasmLoaderError::HttpClient().message_with("ignored"), "HttpClient Error");
    assert_eq!(WasmLoaderError::WsClient().message_with("ignored"), "WsClient Error");
}
