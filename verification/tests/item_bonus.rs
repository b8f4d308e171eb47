use lib::item_bonus::{ItemBonusDb2Entry, ItemBonusDb2Store, ItemBonusListLevelDeltaStore, ItemBonusTreeNodeStore, ItemContextPickerStore, ItemLevelSelectorQualitySetStore, ItemLevelSelectorQualityStore, ItemLevelSelectorStore, ItemLimitCategoryConditionStore, ItemLimitCategoryStore, ItemModifiedAppearanceExtraStore, ItemNameDescriptionStore, ItemSearchNameStore, ItemSetSpellStore, ItemSetStore, ItemSpecOverrideStore, ItemSpecStore, ItemXBonusTreeStore};

#[test]
fn item_bonus_store_preserves_cpp_value_array() {
    let store = ItemBonusDb2Store::from_entries(vec![ItemBonusDb2Entry {
        id: 1,
        value: [10, 20, 30, 40],
        parent_item_bonus_list_id: 2,
        bonus_type: 3,
        order_index: 4,
    }]);

    assert_eq!(store.get(1).unwrap().value[3], 40);
}

#[test]
fn load_item_bonus_db2_subbatch_when_fixtures_exist() {
    assert!(ItemBonusDb2Store::load(Vec::new()).is_empty());
    assert!(ItemBonusListLevelDeltaStore::load(Vec::new()).is_empty());
    assert!(ItemBonusTreeNodeStore::load(Vec::new()).is_empty());
    assert!(ItemContextPickerStore::load(Vec::new()).is_empty());
    assert!(ItemLevelSelectorStore::load(Vec::new()).is_empty());
    assert!(ItemLevelSelectorQualityStore::load(Vec::new()).is_empty());
    assert!(ItemLevelSelectorQualitySetStore::load(Vec::new()).is_empty());
    assert!(ItemLimitCategoryStore::load(Vec::new()).is_empty());
    assert!(ItemLimitCategoryConditionStore::load(Vec::new()).is_empty());
    assert!(ItemModifiedAppearanceExtraStore::load(Vec::new()).is_empty());
    assert!(ItemNameDescriptionStore::load(Vec::new()).is_empty());
    assert!(ItemSearchNameStore::load(Vec::new()).is_empty());
    assert!(ItemSetStore::load(Vec::new()).is_empty());
    assert!(ItemSetSpellStore::load(Vec::new()).is_empty());
    assert!(ItemSpecStore::load(Vec::new()).is_empty());
    assert!(ItemSpecOverrideStore::load(Vec::new()).is_empty());
    assert!(ItemXBonusTreeStore::load(Vec::new()).is_empty());
}
