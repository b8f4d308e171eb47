use lib::mount::{AREA_MOUNT_FLAG_ALLOW_GROUND_MOUNTS, MOUNT_CAPABILITY_FLAG_FLYING, MOUNT_CAPABILITY_FLAG_GROUND, MountCapabilityContextLikeCpp, MountCapabilityEntry, MountCapabilityStore, MountEntry, MountStore, MountTypeXCapabilityEntry, MountTypeXCapabilityStore, MountXDisplayEntry, MountXDisplayStore};

#[test]
fn mount_store_indexes_by_source_spell_like_cpp() {
    let store = MountStore::from_entries(vec![
        MountEntry {
            id: 1,
            mount_type_id: 0,
            flags: 0,
            source_type_enum: 0,
            source_spell_id: 100,
            player_condition_id: 42,
            mount_fly_ride_height: 0.0f32.to_bits(),
            ui_model_scene_id: 0,
        },
        MountEntry {
            id: 2,
            mount_type_id: 0,
            flags: 0,
            source_type_enum: 0,
            source_spell_id: -1,
            player_condition_id: 0,
            mount_fly_ride_height: 0.0f32.to_bits(),
            ui_model_scene_id: 0,
        },
    ]);

    let mount = store.get_by_source_spell_id_like_cpp(100).unwrap();
    assert_eq!(mount.id, 1);
    assert_eq!(mount.player_condition_id, 42);
    assert!(store.get_by_source_spell_id_like_cpp(999).is_none());
}

#[test]
fn mount_type_capabilities_are_grouped_and_sorted_like_cpp_set() {
    let store = MountTypeXCapabilityStore::from_entries(vec![
        MountTypeXCapabilityEntry {
            id: 1,
            mount_type_id: 7,
            mount_capability_id: 70,
            order_index: 2,
        },
        MountTypeXCapabilityEntry {
            id: 2,
            mount_type_id: 7,
            mount_capability_id: 71,
            order_index: 1,
        },
        MountTypeXCapabilityEntry {
            id: 3,
            mount_type_id: 7,
            mount_capability_id: 72,
            order_index: 1,
        },
    ]);

    let capabilities = store.capabilities_for_mount_type_like_cpp(7).unwrap();
    assert_eq!(
        capabilities
            .iter()
            .map(|entry| entry.mount_capability_id)
            .collect::<Vec<_>>(),
        vec![71, 70]
    );
    assert!(store.capabilities_for_mount_type_like_cpp(99).is_none());
}

#[test]
fn mount_displays_are_grouped_by_mount_like_cpp() {
    let store = MountXDisplayStore::from_entries(vec![
        MountXDisplayEntry {
            id: 1,
            creature_display_info_id: 1000,
            player_condition_id: 42,
            mount_id: 7,
        },
        MountXDisplayEntry {
            id: 2,
            creature_display_info_id: 1001,
            player_condition_id: 0,
            mount_id: 7,
        },
    ]);

    let displays = store.displays_for_mount_like_cpp(7).unwrap();
    assert_eq!(displays.len(), 2);
    assert_eq!(displays[0].creature_display_info_id, 1000);
    assert!(store.displays_for_mount_like_cpp(99).is_none());
}

#[test]
fn mount_capability_selection_matches_cpp_filter_order() {
    let capabilities = MountCapabilityStore::from_entries(vec![
        MountCapabilityEntry {
            id: 10,
            flags: MOUNT_CAPABILITY_FLAG_FLYING,
            req_riding_skill: 0,
            req_area_id: 0,
            req_spell_aura_id: 0,
            req_spell_known_id: 0,
            mod_spell_aura_id: 1000,
            req_map_id: -1,
        },
        MountCapabilityEntry {
            id: 11,
            flags: MOUNT_CAPABILITY_FLAG_GROUND,
            req_riding_skill: 75,
            req_area_id: 77,
            req_spell_aura_id: 123,
            req_spell_known_id: 456,
            mod_spell_aura_id: 1001,
            req_map_id: 1,
        },
    ]);
    let type_caps = MountTypeXCapabilityStore::from_entries(vec![
        MountTypeXCapabilityEntry {
            id: 1,
            mount_type_id: 7,
            mount_capability_id: 10,
            order_index: 0,
        },
        MountTypeXCapabilityEntry {
            id: 2,
            mount_type_id: 7,
            mount_capability_id: 11,
            order_index: 1,
        },
    ]);
    let context = MountCapabilityContextLikeCpp {
        riding_skill: 75,
        mount_flags: AREA_MOUNT_FLAG_ALLOW_GROUND_MOUNTS,
        is_submerged: false,
        is_in_water: false,
        map_id: 1,
        cosmetic_parent_map_id: -1,
        parent_map_id: -1,
    };

    let selected = capabilities
        .select_for_mount_type_like_cpp(
            &type_caps,
            7,
            &context,
            |area_id| area_id == 77,
            |aura_id| aura_id == 123,
            |spell_id| spell_id == 456,
        )
        .unwrap();
    assert_eq!(selected.id, 11);

    assert!(
        capabilities
            .select_for_mount_type_like_cpp(
                &type_caps,
                7,
                &context,
                |_| false,
                |_| true,
                |_| true,
            )
            .is_none()
    );
}

#[test]
fn hotfix_rows_replace_mounts_and_reindex_their_spells() {
    let mount = |id: u32, spell: i32| MountEntry {
        id,
        mount_type_id: 1,
        flags: 0,
        source_type_enum: 0,
        source_spell_id: spell,
        player_condition_id: 0,
        mount_fly_ride_height: 0,
        ui_model_scene_id: 0,
    };
    let mut store = MountStore::from_entries(vec![mount(1, 100), mount(2, 200)]);
    assert_eq!(store.load_hotfix_rows(vec![mount(1, 300), mount(3, -1)]), 2);
    assert!(store.get_by_source_spell_id_like_cpp(100).is_none());
    assert_eq!(store.get_by_source_spell_id_like_cpp(300).map(|m| m.id), Some(1));
    assert_eq!(store.get_by_source_spell_id_like_cpp(200).map(|m| m.id), Some(2));
    assert_eq!(store.len(), 3);

    let mut types = MountTypeXCapabilityStore::from_entries(vec![MountTypeXCapabilityEntry {
        id: 1,
        mount_type_id: 7,
        mount_capability_id: 70,
        order_index: 2,
    }]);
    types.load_hotfix_rows(vec![MountTypeXCapabilityEntry { id: 1, mount_type_id: 8, mount_capability_id: 80, order_index: 0 }]);
    assert!(types.capabilities_for_mount_type_like_cpp(7).is_none());
    assert_eq!(types.capabilities_for_mount_type_like_cpp(8).map(|c| c.len()), Some(1));

    let mut displays = MountXDisplayStore::from_entries(vec![MountXDisplayEntry {
        id: 1,
        creature_display_info_id: 1000,
        player_condition_id: 0,
        mount_id: 7,
    }]);
    displays.load_hotfix_rows(vec![MountXDisplayEntry { id: 2, creature_display_info_id: 1001, player_condition_id: 0, mount_id: 7 }]);
    assert_eq!(displays.displays_for_mount_like_cpp(7).map(|d| d.len()), Some(2));

    let mut capabilities = MountCapabilityStore::from_entries(vec![]);
    assert_eq!(capabilities.load_hotfix_rows(vec![]), 0);
    assert!(capabilities.get(1).is_none());
}
