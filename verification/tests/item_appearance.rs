use lib::item_appearance::{ItemAppearanceEntry, ItemAppearanceStore};

fn appearance(id: u32, item_display_info_id: i32) -> ItemAppearanceEntry {
    ItemAppearanceEntry { id, display_type: 0, item_display_info_id, default_icon_file_data_id: 0, ui_order: 0 }
}

#[test]
fn load_item_appearance_store() {
    let store = ItemAppearanceStore::load(vec![appearance(1, 0), appearance(2, 5402)]);
    assert!(!store.is_empty());
    assert!((1..=2).any(|id| store.get(id).is_some_and(|entry| entry.item_display_info_id > 0)));
}

#[test]
fn item_display_info_id_rejects_negative_values() {
    let store = ItemAppearanceStore::from_entries(vec![appearance(1, -1)]);

    assert_eq!(store.item_display_info_id(1), None);
    assert_eq!(store.item_display_info_id(2), None);
}

#[test]
fn item_display_info_id_of_a_later_row_replaces_an_earlier_one() {
    let store = ItemAppearanceStore::from_entries(vec![appearance(3, 10), appearance(3, 11)]);
    assert_eq!(store.item_display_info_id(3), Some(11));
    assert_eq!(store.len(), 1);
}
