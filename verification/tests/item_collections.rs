use lib::item_collections::{AuctionHouseStore, BankBagSlotPricesStore, BattlePetAbilityStore, BattlePetBreedQualityStore, BattlePetBreedStateStore, BattlePetSpeciesStateStore, CurrencyContainerStore, HeirloomEntry, HeirloomStore, ToyStore, TransmogHolidayStore, TransmogSetEntry, TransmogSetGroupStore, TransmogSetItemEntry, TransmogSetItemStore, TransmogSetStore};

#[test]
fn heirloom_store_preserves_cpp_upgrade_arrays() {
    let store = HeirloomStore::from_entries(vec![HeirloomEntry {
        id: 42,
        source_text: "vendor".to_string(),
        item_id: 100,
        legacy_upgraded_item_id: 101,
        static_upgraded_item_id: 102,
        source_type_enum: 3,
        flags: 4,
        legacy_item_id: 99,
        upgrade_item_id: [1, 2, 3, 4, 5, 6],
        upgrade_item_bonus_list_id: [11, 12, 13, 14, 15, 16],
    }]);

    assert_eq!(store.get(42).unwrap().upgrade_item_id[5], 6);
    assert_eq!(store.get(42).unwrap().upgrade_item_bonus_list_id[0], 11);
}

#[test]
fn transmog_set_items_keep_cpp_secondary_index_shape() {
    let store = TransmogSetItemStore::from_entries_and_sets(
        vec![
            TransmogSetItemEntry {
                id: 10,
                transmog_set_id: 7,
                item_modified_appearance_id: 100,
                flags: 0,
            },
            TransmogSetItemEntry {
                id: 11,
                transmog_set_id: 8,
                item_modified_appearance_id: 200,
                flags: 1,
            },
            TransmogSetItemEntry {
                id: 12,
                transmog_set_id: 7,
                item_modified_appearance_id: 101,
                flags: 2,
            },
            TransmogSetItemEntry {
                id: 13,
                transmog_set_id: 99,
                item_modified_appearance_id: 100,
                flags: 3,
            },
        ],
        vec![
            TransmogSetEntry {
                id: 7,
                name: "set 7".to_string(),
                class_mask: 0,
                tracking_quest_id: 0,
                flags: 0,
                transmog_set_group_id: 70,
                item_name_description_id: 0,
                parent_transmog_set_id: 0,
                expansion_id: 0,
                ui_order: 0,
            },
            TransmogSetEntry {
                id: 8,
                name: "set 8".to_string(),
                class_mask: 0,
                tracking_quest_id: 0,
                flags: 0,
                transmog_set_group_id: 80,
                item_name_description_id: 0,
                parent_transmog_set_id: 0,
                expansion_id: 0,
                ui_order: 0,
            },
        ],
    );

    assert_eq!(store.get(11).unwrap().item_modified_appearance_id, 200);
    assert_eq!(
        store
            .get_transmog_set_items_like_cpp(7)
            .unwrap()
            .iter()
            .map(|entry| entry.item_modified_appearance_id)
            .collect::<Vec<_>>(),
        vec![100, 101]
    );
    assert!(store.get_transmog_set_items_like_cpp(99).is_none());
    assert_eq!(
        store
            .get_transmog_sets_for_item_modified_appearance_like_cpp(100)
            .unwrap()
            .iter()
            .map(|set| (set.id, set.transmog_set_group_id))
            .collect::<Vec<_>>(),
        vec![(7, 70)]
    );
    assert!(
        store
            .get_transmog_sets_for_item_modified_appearance_like_cpp(999)
            .is_none()
    );
}

#[test]
fn load_item_collections_db2_subbatch_when_fixtures_exist() {
    assert!(AuctionHouseStore::load(Vec::new()).is_empty());
    assert!(BankBagSlotPricesStore::load(Vec::new()).is_empty());
    assert!(BattlePetAbilityStore::load(Vec::new()).is_empty());
    assert!(BattlePetBreedQualityStore::load(Vec::new()).is_empty());
    assert!(BattlePetBreedStateStore::load(Vec::new()).is_empty());
    assert!(BattlePetSpeciesStateStore::load(Vec::new()).is_empty());
    assert!(CurrencyContainerStore::load(Vec::new()).is_empty());
    assert!(HeirloomStore::load(Vec::new()).is_empty());
    assert!(ToyStore::load(Vec::new()).is_empty());
    assert!(TransmogHolidayStore::load(Vec::new()).is_empty());
    assert!(TransmogSetStore::load(Vec::new()).is_empty());
    assert!(TransmogSetGroupStore::load(Vec::new()).is_empty());
    assert!(TransmogSetItemStore::load(Vec::new()).is_empty());
}
