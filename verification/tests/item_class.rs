use lib::item_class::{ItemClassEntry, ItemClassStore};

#[test]
fn item_class_store_indexes_by_id_and_old_enum_like_cpp_manager() {
    let store = ItemClassStore::from_entries(vec![
        ItemClassEntry { id: 1, class_id: 4, price_modifier: 0.25f32.to_bits(), flags: 0 },
        ItemClassEntry { id: 2, class_id: -1, price_modifier: 1.0f32.to_bits(), flags: 0 },
    ]);

    assert_eq!(f32::from_bits(store.get(1).unwrap().price_modifier), 0.25);
    assert_eq!(store.get_by_old_enum(4).unwrap().id, 1);
    assert!(store.get_by_old_enum(u32::MAX).is_none());
}

#[test]
fn negative_class_numbers_are_not_served() {
    let store = ItemClassStore::load(vec![ItemClassEntry { id: 7, class_id: -3, price_modifier: 0, flags: 1 }]);
    assert!(store.get_by_old_enum(u32::MAX - 2).is_none());
    assert_eq!(store.len(), 1);
    assert!(!store.is_empty());
    assert!(store.get(8).is_none());
}

#[test]
fn loading_files_the_last_row_of_each_class() {
    let store = ItemClassStore::load(vec![
        ItemClassEntry { id: 1, class_id: 4, price_modifier: 0, flags: 0 },
        ItemClassEntry { id: 2, class_id: 4, price_modifier: 0, flags: 0 },
        ItemClassEntry { id: 3, class_id: 2, price_modifier: 0, flags: 0 },
    ]);
    assert_eq!(store.get_by_old_enum(4).unwrap().id, 2);
    assert_eq!(store.get_by_old_enum(2).unwrap().id, 3);
    assert_eq!(store.len(), 3);
}
