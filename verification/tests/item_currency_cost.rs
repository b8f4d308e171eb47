use lib::item_currency_cost::{ItemCurrencyCostEntry, ItemCurrencyCostStore};

#[test]
fn item_currency_cost_store_indexes_entries_and_items_like_cpp_manager() {
    let store = ItemCurrencyCostStore::from_entries(vec![
        ItemCurrencyCostEntry { id: 10, item_id: 1000 },
        ItemCurrencyCostEntry { id: 11, item_id: -1 },
    ]);

    assert_eq!(store.get(10).unwrap().item_id, 1000);
    assert!(store.has_item_currency_cost(1000));
    assert!(!store.has_item_currency_cost(11));
    assert!(!store.has_item_currency_cost(u32::MAX));
}

#[test]
fn loading_keeps_every_named_item() {
    let store = ItemCurrencyCostStore::load(vec![
        ItemCurrencyCostEntry { id: 1, item_id: 50 },
        ItemCurrencyCostEntry { id: 1, item_id: 60 },
        ItemCurrencyCostEntry { id: 2, item_id: 70 },
    ]);
    assert!(store.has_item_currency_cost(50));
    assert!(store.has_item_currency_cost(60));
    assert!(store.has_item_currency_cost(70));
    assert_eq!(store.get(1).unwrap().item_id, 60);
    assert_eq!(store.len(), 2);
    assert!(!store.is_empty());
}

#[test]
fn building_from_entries_names_only_kept_items() {
    let store = ItemCurrencyCostStore::from_entries(vec![
        ItemCurrencyCostEntry { id: 1, item_id: 50 },
        ItemCurrencyCostEntry { id: 1, item_id: 60 },
    ]);
    assert!(!store.has_item_currency_cost(50));
    assert!(store.has_item_currency_cost(60));
}

#[test]
fn distinct_rows_load_as_their_entries_build() {
    let rows = vec![
        ItemCurrencyCostEntry { id: 1, item_id: 50 },
        ItemCurrencyCostEntry { id: 2, item_id: -4 },
        ItemCurrencyCostEntry { id: 3, item_id: 70 },
    ];
    let loaded = ItemCurrencyCostStore::load(rows.clone());
    let built = ItemCurrencyCostStore::from_entries(rows);
    for item in [50u32, 70, 4, u32::MAX - 3] {
        assert_eq!(loaded.has_item_currency_cost(item), built.has_item_currency_cost(item));
    }
}
