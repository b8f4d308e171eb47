use lib::item_disenchant_loot::{ItemDisenchantLootEntry, ItemDisenchantLootStore};

fn entry(id: u32, class_id: u32, quality: u8, min_level: u16, max_level: u16) -> ItemDisenchantLootEntry {
    ItemDisenchantLootEntry {
        id,
        subclass: -1,
        quality,
        min_level,
        max_level,
        skill_required: 175,
        expansion_id: -2,
        class_id,
    }
}

#[test]
fn item_disenchant_loot_store_indexes_by_id_and_keeps_iteration_order() {
    let store = ItemDisenchantLootStore::from_entries(vec![entry(20, 4, 2, 10, 20), entry(10, 2, 3, 30, 40)]);

    assert_eq!(store.get(10).unwrap().class_id, 2);
    assert_eq!(store.iter().map(|entry| entry.id).collect::<Vec<_>>(), vec![20, 10]);
    assert!(store.get(30).is_none());
}

#[test]
fn item_disenchant_loot_matcher_preserves_cpp_filters() {
    let mut subclass_specific = entry(1, 4, 2, 20, 40);
    subclass_specific.subclass = 1;
    let store = ItemDisenchantLootStore::from_entries(vec![
        subclass_specific,
        entry(2, 4, 2, 20, 40),
        entry(3, 4, 3, 20, 40),
    ]);

    assert_eq!(store.find_for_item_like_cpp(4, 0, 2, 30, 0).map(|entry| entry.id), Some(1));
    assert_eq!(store.find_for_item_like_cpp(4, 1, 2, 30, 0).map(|entry| entry.id), Some(2));
    assert!(store.find_for_item_like_cpp(4, 0, 2, 10, 0).is_none());
    assert!(store.find_for_item_like_cpp(2, 0, 2, 30, 0).is_none());
    assert_eq!(store.find_for_item_like_cpp(4, 0, 3, 30, 0).map(|entry| entry.id), Some(3));
}

#[test]
fn expansion_must_match_unless_any() {
    let mut wrath_only = entry(5, 2, 4, 1, 80);
    wrath_only.expansion_id = 2;
    let store = ItemDisenchantLootStore::load(vec![wrath_only]);
    assert!(store.find_for_item_like_cpp(2, 0, 4, 80, 1).is_none());
    assert_eq!(store.find_for_item_like_cpp(2, 0, 4, 80, 2).map(|e| e.id), Some(5));
    assert!(store.find_for_item_like_cpp(2, 0, 4, 81, 2).is_none());
    assert_eq!(store.len(), 1);
    assert!(!store.is_empty());
}
