use substrate_differ::change::Change;
use substrate_differ::changed_wrapper::{pallet_change_id, ChangedWrapper, ReducedDiffResult};
use substrate_differ::diff_analyzer::{Compatible, DiffAnalyzer};
use substrate_differ::pallet_change::ReducedPalletChange;
use substrate_differ::pallet_item::PalletItem;
use substrate_differ::reduced_extrinsic::{ExtrinsicDesc, ReducedExtrinsicChange};
use substrate_differ::reduced_pallet::ReducedPallet;
use substrate_differ::reduced_runtime::{PalletMapChange, ReducedRuntime, ReducedRuntimeChange};

use comparable::{Changed, MapChange, VecChange};
use std::rc::Rc;

fn extrinsic(version: u8, extensions: &[&str]) -> ExtrinsicDesc {
    ExtrinsicDesc {
        version,
        signed_extensions: extensions.iter().map(|s| s.to_string()).collect(),
    }
}

fn call(index: u32, name: &str, signature: &[&str]) -> PalletItem {
    PalletItem::Call {
        index,
        name: name.to_string(),
        signature: signature.iter().map(|s| s.to_string()).collect(),
    }
}

fn pallet(index: u32, name: &str) -> ReducedPallet {
    ReducedPallet { index, name: name.to_string(), items: vec![] }
}

fn runtime(extrinsic: ExtrinsicDesc, pallets: Vec<ReducedPallet>) -> ReducedRuntime {
    let mut runtime = ReducedRuntime::new(extrinsic);
    for p in pallets {
        runtime.insert_pallet(p);
    }
    runtime
}

fn analyze(a: &ReducedRuntime, b: &ReducedRuntime) -> Option<DiffAnalyzer> {
    ReducedDiffResult::new(a.clone(), b.clone()).changes.map(DiffAnalyzer::new)
}

fn pallets_changes(changes: &Changed<Vec<ReducedRuntimeChange>>) -> Vec<&PalletMapChange> {
    let mut out = Vec::new();
    if let Changed::Changed(list) = changes {
        for c in list {
            if let ReducedRuntimeChange::Pallets(pallets) = c {
                out.extend(pallets.iter());
            }
        }
    }
    out
}

#[test]
fn a_runtime_compared_with_itself_has_no_changes() {
    let a = runtime(
        extrinsic(4, &["CheckSpecVersion", "CheckNonce"]),
        vec![pallet(0, "System"), pallet(4, "Balances"), pallet(99, "XcmPallet")],
    );
    assert_eq!(a.comparison(&a), Changed::Unchanged);
    assert_eq!(a.comparison(&a.clone()), Changed::Unchanged);
    let result = ReducedDiffResult::new(a.clone(), a);
    assert!(result.changes.is_none());
    assert!(result.compatible());
}

#[test]
fn no_change_is_compatible() {
    let wrapper = ChangedWrapper::new(Changed::Unchanged);
    assert!(wrapper.compatible());
    assert!(wrapper.get_pallets_changes().is_none());
    assert!(wrapper.get_pallet_changes_by_id(0).is_none());
    let analyzer = DiffAnalyzer::new(Rc::new(wrapper));
    assert!(analyzer.compatible());
    assert!(analyzer.get_pallet_changes(0).is_none());
    assert!(ReducedDiffResult { changes: None }.compatible());
}

#[test]
fn a_pallet_of_the_new_runtime_only_is_added_once_and_compatible() {
    let a = runtime(extrinsic(4, &[]), vec![pallet(0, "System")]);
    let b = runtime(extrinsic(4, &[]), vec![pallet(0, "System"), pallet(99, "NewPallet")]);
    let changes = a.comparison(&b);
    assert_eq!(
        changes,
        Changed::Changed(vec![ReducedRuntimeChange::Pallets(vec![MapChange::Added(
            99,
            pallet(99, "NewPallet")
        )])])
    );
    let about_99: Vec<_> =
        pallets_changes(&changes).into_iter().filter(|c| pallet_change_id(c) == 99).collect();
    assert_eq!(about_99.len(), 1);
    assert!(about_99[0].compatible());
    let analyzer = analyze(&a, &b).unwrap();
    assert!(analyzer.compatible());
    assert_eq!(analyzer.get_pallet_changes(99), Some(&MapChange::Added(99, pallet(99, "NewPallet"))));
}

#[test]
fn a_pallet_of_the_reference_runtime_only_is_removed_once_and_incompatible() {
    let a = runtime(extrinsic(4, &[]), vec![pallet(0, "System"), pallet(99, "OldPallet")]);
    let b = runtime(extrinsic(4, &[]), vec![pallet(0, "System")]);
    let changes = a.comparison(&b);
    assert_eq!(
        changes,
        Changed::Changed(vec![ReducedRuntimeChange::Pallets(vec![MapChange::Removed(99)])])
    );
    let about_99: Vec<_> =
        pallets_changes(&changes).into_iter().filter(|c| pallet_change_id(c) == 99).collect();
    assert_eq!(about_99.len(), 1);
    assert!(!about_99[0].compatible());
    let analyzer = analyze(&a, &b).unwrap();
    assert!(!analyzer.compatible());
    assert_eq!(analyzer.get_pallet_changes(99), Some(&MapChange::Removed(99)));
}

#[test]
fn a_pallet_that_is_the_same_in_both_runtimes_is_not_reported() {
    let a = runtime(extrinsic(4, &[]), vec![pallet(0, "System"), pallet(4, "Balances")]);
    let b = runtime(extrinsic(4, &[]), vec![pallet(0, "System"), pallet(4, "Assets")]);
    let changes = a.comparison(&b);
    assert!(pallets_changes(&changes).iter().all(|c| pallet_change_id(c) != 0));
    let analyzer = analyze(&a, &b).unwrap();
    assert!(analyzer.get_pallet_changes(0).is_none());
}

#[test]
fn a_renamed_pallet_is_changed_once_with_a_name_change() {
    let a = runtime(extrinsic(4, &[]), vec![pallet(4, "Balances")]);
    let b = runtime(extrinsic(4, &[]), vec![pallet(4, "Balances'")]);
    let changes = a.comparison(&b);
    let about_4: Vec<_> =
        pallets_changes(&changes).into_iter().filter(|c| pallet_change_id(c) == 4).collect();
    assert_eq!(about_4.len(), 1);
    assert_eq!(
        about_4[0],
        &MapChange::Changed(
            4,
            vec![ReducedPalletChange::Name(Change::Modified((
                "Balances".to_string(),
                "Balances'".to_string()
            )))]
        )
    );
}

#[test]
fn both_directions_report_the_same_indexes() {
    let a = runtime(
        extrinsic(4, &[]),
        vec![pallet(0, "System"), pallet(4, "Balances"), pallet(7, "Sudo")],
    );
    let b = runtime(
        extrinsic(4, &[]),
        vec![pallet(0, "System"), pallet(4, "Assets"), pallet(99, "XcmPallet")],
    );
    let forward = analyze(&a, &b).unwrap();
    let backward = analyze(&b, &a).unwrap();
    for id in [0u32, 1, 4, 7, 99, 100, u32::MAX] {
        assert_eq!(
            forward.get_pallet_changes(id).is_some(),
            backward.get_pallet_changes(id).is_some()
        );
    }
    assert!(matches!(forward.get_pallet_changes(99), Some(MapChange::Added(99, _))));
    assert!(matches!(backward.get_pallet_changes(99), Some(MapChange::Removed(99))));
    assert!(matches!(forward.get_pallet_changes(7), Some(MapChange::Removed(7))));
    assert!(matches!(backward.get_pallet_changes(7), Some(MapChange::Added(7, _))));
    assert!(matches!(forward.get_pallet_changes(4), Some(MapChange::Changed(4, _))));
    assert!(matches!(backward.get_pallet_changes(4), Some(MapChange::Changed(4, _))));
    assert!(forward.get_pallet_changes(0).is_none());
    assert!(backward.get_pallet_changes(0).is_none());
}

#[test]
fn renamed_and_added_pallets_end_to_end() {
    let a = runtime(extrinsic(4, &[]), vec![pallet(0, "System"), pallet(4, "Balances")]);
    let b = runtime(
        extrinsic(4, &[]),
        vec![pallet(0, "System"), pallet(4, "Balances'"), pallet(99, "NewPallet")],
    );
    assert_eq!(
        a.comparison(&b),
        Changed::Changed(vec![ReducedRuntimeChange::Pallets(vec![
            MapChange::Changed(
                4,
                vec![ReducedPalletChange::Name(Change::Modified((
                    "Balances".to_string(),
                    "Balances'".to_string()
                )))]
            ),
            MapChange::Added(99, pallet(99, "NewPallet")),
        ])])
    );
    let analyzer = analyze(&a, &b).unwrap();
    assert!(analyzer.get_pallet_changes(0).is_none());
    // A pallet's name cannot be shown harmless: the change of pallet 4 is breaking.
    assert!(!analyzer.get_pallet_changes(4).unwrap().compatible());
    assert!(analyzer.get_pallet_changes(99).unwrap().compatible());
    assert!(!analyzer.compatible());
}

#[test]
fn a_new_extrinsic_version_end_to_end() {
    let a = runtime(extrinsic(4, &["CheckNonce"]), vec![pallet(0, "System")]);
    let b = runtime(extrinsic(5, &["CheckNonce"]), vec![pallet(0, "System")]);
    assert_eq!(
        a.comparison(&b),
        Changed::Changed(vec![ReducedRuntimeChange::Extrinsic(vec![
            ReducedExtrinsicChange::Version(Change::Modified((4, 5)))
        ])])
    );
    let analyzer = analyze(&a, &b).unwrap();
    assert!(!analyzer.compatible());
    assert!(analyzer.get_pallet_changes(0).is_none());
}

#[test]
fn other_signed_extensions_are_incompatible() {
    let a = extrinsic(4, &["CheckNonce"]);
    let b = extrinsic(4, &["CheckNonce", "CheckWeight"]);
    let changes = a.comparison(&b);
    assert_eq!(
        changes,
        Changed::Changed(vec![ReducedExtrinsicChange::SignedExtensions(Change::Modified((
            vec!["CheckNonce".to_string()],
            vec!["CheckNonce".to_string(), "CheckWeight".to_string()]
        )))])
    );
    if let Changed::Changed(list) = changes {
        assert!(!list[0].compatible());
        assert!(!ReducedRuntimeChange::Extrinsic(list).compatible());
    }
    assert_eq!(a.comparison(&a.clone()), Changed::Unchanged);
}

#[test]
fn extrinsic_version_comes_before_signed_extensions() {
    let a = extrinsic(4, &["CheckNonce"]);
    let b = extrinsic(5, &[]);
    assert_eq!(
        a.comparison(&b),
        Changed::Changed(vec![
            ReducedExtrinsicChange::Version(Change::Modified((4, 5))),
            ReducedExtrinsicChange::SignedExtensions(Change::Modified((
                vec!["CheckNonce".to_string()],
                vec![]
            ))),
        ])
    );
}

#[test]
fn extrinsic_and_pallets_can_change_together() {
    let a = runtime(extrinsic(4, &[]), vec![pallet(0, "System"), pallet(4, "Balances")]);
    let b = runtime(extrinsic(5, &[]), vec![pallet(0, "System")]);
    assert_eq!(
        a.comparison(&b),
        Changed::Changed(vec![
            ReducedRuntimeChange::Extrinsic(vec![ReducedExtrinsicChange::Version(
                Change::Modified((4, 5))
            )]),
            ReducedRuntimeChange::Pallets(vec![MapChange::Removed(4)]),
        ])
    );
    let analyzer = analyze(&a, &b).unwrap();
    assert_eq!(analyzer.get_pallet_changes(4), Some(&MapChange::Removed(4)));
    assert!(!analyzer.compatible());
}

#[test]
fn a_replaced_pallet_is_changed_not_removed_and_added() {
    let old = ReducedPallet {
        index: 4,
        name: "Balances".to_string(),
        items: vec![call(0, "transfer", &["AccountId", "u128"])],
    };
    let new = ReducedPallet {
        index: 4,
        name: "Assets".to_string(),
        items: vec![call(0, "mint", &["u32", "u128"]), call(1, "burn", &["u32", "u128"])],
    };
    let a = runtime(extrinsic(4, &[]), vec![pallet(0, "System"), old, pallet(7, "Sudo")]);
    let b = runtime(extrinsic(4, &[]), vec![pallet(0, "System"), new, pallet(8, "Utility")]);
    let changes = a.comparison(&b);
    assert_eq!(
        changes,
        Changed::Changed(vec![ReducedRuntimeChange::Pallets(vec![
            MapChange::Changed(
                4,
                vec![
                    ReducedPalletChange::Name(Change::Modified((
                        "Balances".to_string(),
                        "Assets".to_string()
                    ))),
                    ReducedPalletChange::Items(vec![
                        VecChange::Changed(
                            0,
                            Change::Modified((
                                call(0, "transfer", &["AccountId", "u128"]),
                                call(0, "mint", &["u32", "u128"])
                            ))
                        ),
                        VecChange::Added(1, call(1, "burn", &["u32", "u128"])),
                    ]),
                ]
            ),
            MapChange::Added(8, pallet(8, "Utility")),
            MapChange::Removed(7),
        ])])
    );
    let about_4: Vec<_> =
        pallets_changes(&changes).into_iter().filter(|c| pallet_change_id(c) == 4).collect();
    assert_eq!(about_4.len(), 1);
    assert!(matches!(about_4[0], MapChange::Changed(4, _)));
    assert!(!about_4[0].compatible());
}

#[test]
fn additions_and_changes_come_before_removals_each_by_ascending_index() {
    let a = runtime(
        extrinsic(4, &[]),
        vec![pallet(200, "Z"), pallet(3, "C"), pallet(1, "A"), pallet(50, "M")],
    );
    let b = runtime(
        extrinsic(4, &[]),
        vec![pallet(60, "N"), pallet(3, "C'"), pallet(2, "B"), pallet(4_000_000_000, "Far")],
    );
    assert_eq!(
        a.comparison(&b),
        Changed::Changed(vec![ReducedRuntimeChange::Pallets(vec![
            MapChange::Added(2, pallet(2, "B")),
            MapChange::Changed(
                3,
                vec![ReducedPalletChange::Name(Change::Modified((
                    "C".to_string(),
                    "C'".to_string()
                )))]
            ),
            MapChange::Added(60, pallet(60, "N")),
            MapChange::Added(4_000_000_000, pallet(4_000_000_000, "Far")),
            MapChange::Removed(1),
            MapChange::Removed(50),
            MapChange::Removed(200),
        ])])
    );
}

#[test]
fn the_smallest_and_the_largest_index_are_compared() {
    let a = runtime(extrinsic(4, &[]), vec![pallet(0, "First"), pallet(u32::MAX, "Last")]);
    let b = runtime(extrinsic(4, &[]), vec![]);
    assert_eq!(
        a.comparison(&b),
        Changed::Changed(vec![ReducedRuntimeChange::Pallets(vec![
            MapChange::Removed(0),
            MapChange::Removed(u32::MAX),
        ])])
    );
    assert_eq!(
        b.comparison(&a),
        Changed::Changed(vec![ReducedRuntimeChange::Pallets(vec![
            MapChange::Added(0, pallet(0, "First")),
            MapChange::Added(u32::MAX, pallet(u32::MAX, "Last")),
        ])])
    );
}

#[test]
fn an_index_that_no_runtime_uses_has_no_changes() {
    let a = runtime(extrinsic(4, &[]), vec![pallet(0, "System")]);
    let b = runtime(extrinsic(4, &[]), vec![pallet(1, "System")]);
    let analyzer = analyze(&a, &b).unwrap();
    assert!(analyzer.get_pallet_changes(12345).is_none());
    assert!(analyzer.get_pallet_changes(u32::MAX).is_none());
}

#[test]
fn lookup_without_any_pallet_change_finds_nothing() {
    let a = runtime(extrinsic(4, &[]), vec![pallet(0, "System")]);
    let b = runtime(extrinsic(5, &[]), vec![pallet(0, "System")]);
    let analyzer = analyze(&a, &b).unwrap();
    assert!(analyzer.changes.get_pallets_changes().is_none());
    assert!(analyzer.get_pallet_changes(0).is_none());
}

#[test]
fn lookup_returns_the_first_change_of_a_pallet() {
    let wrapper = ChangedWrapper::new(Changed::Changed(vec![
        ReducedRuntimeChange::Extrinsic(vec![]),
        ReducedRuntimeChange::Pallets(vec![
            MapChange::Removed(1),
            MapChange::Added(2, pallet(2, "B")),
            MapChange::Removed(2),
        ]),
        ReducedRuntimeChange::Pallets(vec![MapChange::Removed(3)]),
    ]));
    assert_eq!(wrapper.get_pallets_changes().unwrap().len(), 3);
    assert_eq!(wrapper.get_pallet_changes_by_id(1), Some(&MapChange::Removed(1)));
    assert_eq!(wrapper.get_pallet_changes_by_id(2), Some(&MapChange::Added(2, pallet(2, "B"))));
    assert_eq!(wrapper.get_pallet_changes_by_id(3), None);
}

#[test]
fn inserting_a_pallet_replaces_the_one_with_the_same_index() {
    let mut r = ReducedRuntime::new(extrinsic(4, &[]));
    assert_eq!(r.insert_pallet(pallet(4, "Balances")), None);
    assert_eq!(r.insert_pallet(pallet(1, "System")), None);
    assert_eq!(r.insert_pallet(pallet(4, "Assets")), Some(pallet(4, "Balances")));
    assert_eq!(r.pallet(4), Some(&pallet(4, "Assets")));
    assert_eq!(r.pallet(1), Some(&pallet(1, "System")));
    assert_eq!(r.pallet(2), None);
    assert_eq!(r.pallet_indexes(), vec![1, 4]);
    assert_eq!(r.extrinsic(), &extrinsic(4, &[]));
}

#[test]
fn every_kind_of_change_is_classified() {
    let added: PalletMapChange = MapChange::Added(1, pallet(1, "A"));
    let removed: PalletMapChange = MapChange::Removed(1);
    let untouched: PalletMapChange = MapChange::Changed(1, vec![]);
    let new_items: PalletMapChange = MapChange::Changed(
        1,
        vec![ReducedPalletChange::Items(vec![
            VecChange::Added(0, call(0, "a", &[])),
            VecChange::Added(1, call(1, "b", &[])),
        ])],
    );
    let lost_item: PalletMapChange = MapChange::Changed(
        1,
        vec![ReducedPalletChange::Items(vec![
            VecChange::Added(1, call(1, "b", &[])),
            VecChange::Removed(0, call(0, "a", &[])),
        ])],
    );
    let other_signature: PalletMapChange = MapChange::Changed(
        1,
        vec![ReducedPalletChange::Items(vec![VecChange::Changed(
            0,
            Change::Modified((call(0, "a", &["u8"]), call(0, "a", &["u16"]))),
        )])],
    );
    assert!(added.compatible());
    assert!(!removed.compatible());
    assert!(untouched.compatible());
    assert!(new_items.compatible());
    assert!(!lost_item.compatible());
    assert!(!other_signature.compatible());
    assert!(ReducedPalletChange::Name(Change::Unchanged).compatible());
    assert!(!ReducedPalletChange::Name(Change::Modified(("a".to_string(), "b".to_string())))
        .compatible());
    assert!(ReducedExtrinsicChange::Version(Change::Unchanged).compatible());
    assert!(!ReducedExtrinsicChange::Version(Change::Modified((4, 5))).compatible());
    assert!(ReducedExtrinsicChange::SignedExtensions(Change::Unchanged).compatible());
    assert!(ReducedRuntimeChange::Pallets(vec![]).compatible());
    assert!(ReducedRuntimeChange::Pallets(vec![
        MapChange::Added(1, pallet(1, "A")),
        MapChange::Added(2, pallet(2, "B"))
    ])
    .compatible());
    assert!(!ReducedRuntimeChange::Pallets(vec![
        MapChange::Added(1, pallet(1, "A")),
        MapChange::Removed(2)
    ])
    .compatible());
    let item: VecChange<PalletItem, Change<PalletItem>> = VecChange::Changed(0, Change::Unchanged);
    assert!(item.compatible());
}

#[test]
fn every_part_of_the_changes_is_classified() {
    let wrapper = ChangedWrapper::new(Changed::Changed(vec![
        ReducedRuntimeChange::Pallets(vec![MapChange::Added(1, pallet(1, "A"))]),
        ReducedRuntimeChange::Extrinsic(vec![ReducedExtrinsicChange::Version(Change::Modified(
            (4, 5),
        ))]),
    ]));
    assert!(!wrapper.compatible());
    let wrapper = ChangedWrapper::new(Changed::Changed(vec![
        ReducedRuntimeChange::Extrinsic(vec![]),
        ReducedRuntimeChange::Pallets(vec![MapChange::Added(1, pallet(1, "A"))]),
    ]));
    assert!(wrapper.compatible());
    let wrapper = ChangedWrapper::new(Changed::Changed(vec![]));
    assert!(wrapper.compatible());
}

#[test]
fn a_runtime_that_keeps_everything_and_adds_more_is_compatible() {
    let a = runtime(
        extrinsic(4, &["CheckNonce"]),
        vec![
            pallet(0, "System"),
            ReducedPallet {
                index: 4,
                name: "Balances".to_string(),
                items: vec![call(0, "transfer", &["AccountId", "u128"])],
            },
        ],
    );
    let b = runtime(
        extrinsic(4, &["CheckNonce"]),
        vec![
            pallet(0, "System"),
            ReducedPallet {
                index: 4,
                name: "Balances".to_string(),
                items: vec![
                    call(0, "transfer", &["AccountId", "u128"]),
                    call(1, "transfer_all", &["AccountId"]),
                ],
            },
            pallet(99, "XcmPallet"),
        ],
    );
    let forward = analyze(&a, &b).unwrap();
    assert!(forward.compatible());
    assert_eq!(
        forward.get_pallet_changes(4),
        Some(&MapChange::Changed(
            4,
            vec![ReducedPalletChange::Items(vec![VecChange::Added(
                1,
                call(1, "transfer_all", &["AccountId"])
            )])]
        ))
    );
    // The other way round a call and a pallet are lost.
    let backward = analyze(&b, &a).unwrap();
    assert!(!backward.compatible());
    assert!(!backward.get_pallet_changes(4).unwrap().compatible());
    assert!(!backward.get_pallet_changes(99).unwrap().compatible());
}

#[test]
fn runtimes_are_equal_exactly_when_they_compare_unchanged() {
    let a = runtime(extrinsic(4, &["CheckNonce"]), vec![pallet(0, "System"), pallet(4, "Balances")]);
    let same = runtime(extrinsic(4, &["CheckNonce"]), vec![pallet(4, "Balances"), pallet(0, "System")]);
    let other = runtime(extrinsic(4, &["CheckNonce"]), vec![pallet(0, "System")]);
    assert!(a == same);
    assert!(a != other);
    assert!(ReducedDiffResult::new(a.clone(), same).changes.is_none());
    assert!(ReducedDiffResult::new(a, other).changes.is_some());
}
