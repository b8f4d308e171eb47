use lib::maps_world::{AreaGroupMemberStore, AreaTriggerDb2Store, Db2Position2, Db2Position3, LightStore, LiquidTypeEntry, LiquidTypeStore, MapChallengeModeStore, TaxiNodesDb2Store, TaxiPathEntry, TaxiPathNodeStore, TaxiPathStore, TransportAnimationStore, TransportRotationStore, UiMapAssignmentEntry, UiMapAssignmentStore, UiMapLinkStore, UiMapStore, WmoAreaTableStore, WorldEffectStore, WorldMapOverlayStore};

#[test]
fn taxi_path_store_indexes_by_id_like_cpp_lookup_entry() {
    let store = TaxiPathStore::from_entries(vec![TaxiPathEntry {
        id: 7,
        from_taxi_node: 1,
        to_taxi_node: 2,
        cost: 345,
    }]);

    assert_eq!(store.get(7).unwrap().cost, 345);
    assert!(store.get(8).is_none());
}

#[test]
fn ui_map_assignment_keeps_cpp_order_index_and_region_fields() {
    let store = UiMapAssignmentStore::from_entries(vec![UiMapAssignmentEntry {
        id: 11,
        ui_min: Db2Position2 { x: 0.1f32.to_bits(), y: 0.2f32.to_bits() },
        ui_max: Db2Position2 { x: 0.9f32.to_bits(), y: 0.8f32.to_bits() },
        region: [
            Db2Position3 {
                x: 1.0f32.to_bits(),
                y: 2.0f32.to_bits(),
                z: 3.0f32.to_bits(),
            },
            Db2Position3 {
                x: 4.0f32.to_bits(),
                y: 5.0f32.to_bits(),
                z: 6.0f32.to_bits(),
            },
        ],
        ui_map_id: 100,
        order_index: 3,
        map_id: 571,
        area_id: 67,
        wmo_doodad_placement_id: -1,
        wmo_group_id: -1,
    }]);

    let entry = store.get(11).unwrap();
    assert_eq!(entry.order_index, 3);
    assert_eq!(f32::from_bits(entry.region[1].z), 6.0);
}

#[test]
fn liquid_type_store_preserves_cpp_arrays() {
    let store = LiquidTypeStore::from_entries(vec![LiquidTypeEntry {
        id: 3,
        name: "water".to_string(),
        texture: std::array::from_fn(|i| format!("tex{i}")),
        flags: 1,
        sound_bank: 2,
        sound_id: 3,
        spell_id: 4,
        max_darken_depth: 5.0f32.to_bits(),
        fog_darken_intensity: 6.0f32.to_bits(),
        amb_darken_intensity: 7.0f32.to_bits(),
        dir_darken_intensity: 8.0f32.to_bits(),
        light_id: 9,
        particle_scale: 10.0f32.to_bits(),
        particle_movement: 11,
        particle_tex_slots: 12,
        material_id: 13,
        minimap_static_col: 14,
        frame_count_texture: [1, 2, 3, 4, 5, 6],
        color: [7, 8],
        float_values: [0.5f32.to_bits(); 18],
        int_values: [9, 10, 11, 12],
        coefficient: [1.0f32.to_bits(), 2.0f32.to_bits(), 3.0f32.to_bits(), 4.0f32.to_bits()],
    }]);

    let entry = store.get(3).unwrap();
    assert_eq!(entry.texture[5], "tex5");
    assert_eq!(entry.frame_count_texture[4], 5);
    assert_eq!(f32::from_bits(entry.coefficient[3]), 4.0);
}

#[test]
fn load_maps_world_db2_batch_when_fixtures_exist() {
    assert!(AreaGroupMemberStore::load(Vec::new()).is_empty());
    assert!(AreaTriggerDb2Store::load(Vec::new()).is_empty());
    assert!(LightStore::load(Vec::new()).is_empty());
    assert!(LiquidTypeStore::load(Vec::new()).is_empty());
    assert!(MapChallengeModeStore::load(Vec::new()).is_empty());
    assert!(TaxiNodesDb2Store::load(Vec::new()).is_empty());
    assert!(TaxiPathStore::load(Vec::new()).is_empty());
    assert!(TaxiPathNodeStore::load(Vec::new()).is_empty());
    assert!(TransportAnimationStore::load(Vec::new()).is_empty());
    assert!(TransportRotationStore::load(Vec::new()).is_empty());
    assert!(UiMapStore::load(Vec::new()).is_empty());
    assert!(UiMapAssignmentStore::load(Vec::new()).is_empty());
    assert!(UiMapLinkStore::load(Vec::new()).is_empty());
    assert!(WmoAreaTableStore::load(Vec::new()).is_empty());
    assert!(WorldEffectStore::load(Vec::new()).is_empty());
    assert!(WorldMapOverlayStore::load(Vec::new()).is_empty());
}
