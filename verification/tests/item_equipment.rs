use lib::item_equipment::{ArmorLocationStore, DurabilityCostsEntry, DurabilityCostsStore, DurabilityQualityStore, ItemArmorQualityStore, ItemArmorShieldStore, ItemArmorTotalStore, ItemBagFamilyStore, ItemChildEquipmentStore, ItemDamageAmmoStore, ItemDamageOneHandCasterStore, ItemDamageOneHandStore, ItemDamageTwoHandCasterStore, ItemDamageTwoHandStore, ItemEffectStore};

#[test]
fn durability_costs_store_preserves_cpp_subclass_arrays() {
    let store = DurabilityCostsStore::from_entries(vec![DurabilityCostsEntry {
        id: 10,
        weapon_sub_class_cost: [7; 21],
        armor_sub_class_cost: [3; 8],
    }]);

    let entry = store.get(10).unwrap();
    assert_eq!(entry.weapon_sub_class_cost[20], 7);
    assert_eq!(entry.armor_sub_class_cost[7], 3);
}

#[test]
fn load_item_equipment_db2_subbatch_when_fixtures_exist() {
    assert!(ArmorLocationStore::load(Vec::new()).is_empty());
    assert!(DurabilityCostsStore::load(Vec::new()).is_empty());
    assert!(DurabilityQualityStore::load(Vec::new()).is_empty());
    assert!(ItemArmorQualityStore::load(Vec::new()).is_empty());
    assert!(ItemArmorShieldStore::load(Vec::new()).is_empty());
    assert!(ItemArmorTotalStore::load(Vec::new()).is_empty());
    assert!(ItemBagFamilyStore::load(Vec::new()).is_empty());
    assert!(ItemChildEquipmentStore::load(Vec::new()).is_empty());
    assert!(ItemDamageAmmoStore::load(Vec::new()).is_empty());
    assert!(ItemDamageOneHandStore::load(Vec::new()).is_empty());
    assert!(ItemDamageOneHandCasterStore::load(Vec::new()).is_empty());
    assert!(ItemDamageTwoHandStore::load(Vec::new()).is_empty());
    assert!(ItemDamageTwoHandCasterStore::load(Vec::new()).is_empty());
    assert!(ItemEffectStore::load(Vec::new()).is_empty());
}
