use lib::item::{ItemRecord, ItemStore};

#[test]
fn test_load_item_store() {
    let mut rows: Vec<ItemRecord> = (1..=20001u32)
        .map(|id| ItemRecord {
            id,
            class_id: 15,
            subclass_id: 0,
            material: 0,
            inventory_type: 0,
            sheathe_type: 0,
            random_select: 0,
            random_suffix_group_id: 0,
            scaling_stat_distribution_id: 0,
            scaling_stat_value: 0,
        })
        .collect();
    rows.push(ItemRecord {
        id: 19019,
        class_id: 2,
        subclass_id: 7,
        material: 1,
        inventory_type: 13,
        sheathe_type: 3,
        random_select: 0,
        random_suffix_group_id: 0,
        scaling_stat_distribution_id: 0,
        scaling_stat_value: 0,
    });
    let store = ItemStore::load(rows);
    assert!(
        store.len() > 20000,
        "expected >20k items, got {}",
        store.len()
    );

    // Thunderfury, Blessed Blade of the Windseeker (entry 19019)
    if let Some(tf) = store.get(19019) {
        assert_eq!(tf.class_id, 2, "Thunderfury should be Weapon class");
        assert_eq!(
            tf.inventory_type, 13,
            "Thunderfury should be One-Hand Weapon"
        );
    }

    // Hearthstone (entry 6948) — not equippable
    if let Some(hs) = store.get(6948) {
        assert_eq!(hs.class_id, 15, "Hearthstone should be class 15 (Misc)");
    }
}

#[test]
fn inventory_type_does_not_wrap_non_equippable_values() {
    let store = ItemStore::from_records(vec![
            ItemRecord {
                    id: 1,
                    class_id: 15,
                    subclass_id: 0,
                    material: 0,
                    inventory_type: -1,
                    sheathe_type: 0,
                    random_select: 0,
                    random_suffix_group_id: 0,
                    scaling_stat_distribution_id: 0,
                    scaling_stat_value: 0,
                },
            ItemRecord {
                    id: 2,
                    class_id: 15,
                    subclass_id: 0,
                    material: 0,
                    inventory_type: 0,
                    sheathe_type: 0,
                    random_select: 0,
                    random_suffix_group_id: 0,
                    scaling_stat_distribution_id: 0,
                    scaling_stat_value: 0,
                },
            ItemRecord {
                    id: 3,
                    class_id: 2,
                    subclass_id: 7,
                    material: 1,
                    inventory_type: 13,
                    sheathe_type: 3,
                    random_select: 0,
                    random_suffix_group_id: 0,
                    scaling_stat_distribution_id: 77,
                    scaling_stat_value: 0x200,
                },
    ]);

    assert_eq!(store.inventory_type(1), None);
    assert_eq!(store.inventory_type(2), None);
    assert_eq!(store.inventory_type(3), Some(13));
    assert_eq!(store.scaling_stat_distribution_id(3), 77);
    assert_eq!(store.scaling_stat_value(3), 0x200);
    assert_eq!(store.scaling_stat_distribution_id(4), 0);
    assert_eq!(store.scaling_stat_value(4), 0);
}
