//! Change tracking over event streams and consumer handle sets.

use wasm_scripting::tracker::{
    get_added_script_assets, get_modified_script_assets, instantiation_set,
    is_script_asset_modified, AssetEvent,
};

#[test]
fn modified_filter_keeps_referenced_in_event_order() {
    let events = vec![
        AssetEvent::Created { handle: 1 },
        AssetEvent::Modified { handle: 2 },
        AssetEvent::Modified { handle: 3 },
        AssetEvent::Modified { handle: 2 },
    ];
    let referenced = vec![2];
    let r = get_modified_script_assets(&events, &referenced);
    assert_eq!(r, vec![2, 2]);
}

#[test]
fn modified_filter_drops_orphaned_reloads() {
    let events = vec![AssetEvent::Modified { handle: 9 }];
    let referenced: Vec<u64> = Vec::new();
    let r = get_modified_script_assets(&events, &referenced);
    assert!(r.is_empty());
}

#[test]
fn added_assets_collapse_duplicates() {
    let added = vec![5, 6, 5, 6, 5];
    let r = get_added_script_assets(&added);
    assert_eq!(r, vec![5, 6]);
}

#[test]
fn instantiation_set_unions_and_deduplicates() {
    let modified = vec![2, 2, 3];
    let added = vec![3, 4];
    let r = instantiation_set(&modified, &added);
    assert_eq!(r, vec![2, 3, 4]);
}

#[test]
fn asset_modification_is_detected() {
    let events = vec![
        AssetEvent::Created { handle: 1 },
        AssetEvent::Modified { handle: 2 },
    ];
    assert!(is_script_asset_modified(&events, 2));
    assert!(!is_script_asset_modified(&events, 1));
    assert!(!is_script_asset_modified(&events, 3));
}
