use lib::map::{MAP_DIFFICULTY_FLAG_USE_LOOT_BASED_LOCK, MAP_FLAG_FLEXIBLE_RAID_LOCKING, MapDifficultyEntry, MapDifficultyStore, MapDifficultyXConditionEntry, MapDifficultyXConditionStore, MapEntry, MapStore};
use lib::player_condition::{PlayerConditionEntry, PlayerConditionStore};

#[test]
fn map_store_flex_locking_flag_matches_cpp() {
    let store = MapStore::from_entries(vec![MapEntry {
        id: 631,
        instance_type: 2,
        parent_map_id: -1,
        cosmetic_parent_map_id: -1,
        flags1: MAP_FLAG_FLEXIBLE_RAID_LOCKING,
    }]);

    assert!(store.get(631).unwrap().is_flex_locking());
    assert!(store.get(1).is_none());
}

#[test]
fn map_store_parent_fields_match_cpp_load_info() {
    let store = MapStore::from_entries(vec![
        MapEntry {
            id: 609,
            instance_type: 0,
            parent_map_id: 571,
            cosmetic_parent_map_id: -1,
            flags1: 0,
        },
        MapEntry {
            id: 111,
            instance_type: 0,
            parent_map_id: -1,
            cosmetic_parent_map_id: 1,
            flags1: 0,
        },
    ]);

    let child = store.get(609).unwrap();
    assert_eq!(child.parent_map_id, 571);
    assert_eq!(child.cosmetic_parent_map_id, -1);
    let cosmetic = store.get(111).unwrap();
    assert_eq!(cosmetic.parent_map_id, -1);
    assert_eq!(cosmetic.cosmetic_parent_map_id, 1);
}

#[test]
fn terrain_root_map_id_follows_parent_chain_like_cpp() {
    let store = MapStore::from_entries(vec![
        MapEntry {
            id: 1,
            instance_type: 0,
            parent_map_id: -1,
            cosmetic_parent_map_id: -1,
            flags1: 0,
        },
        MapEntry {
            id: 571,
            instance_type: 0,
            parent_map_id: -1,
            cosmetic_parent_map_id: 1,
            flags1: 0,
        },
        MapEntry {
            id: 609,
            instance_type: 0,
            parent_map_id: 571,
            cosmetic_parent_map_id: -1,
            flags1: 0,
        },
    ]);

    assert_eq!(store.terrain_root_map_id_like_cpp(609), Some(1));
    assert_eq!(store.terrain_root_map_id_like_cpp(571), Some(1));
    assert_eq!(store.terrain_root_map_id_like_cpp(1), Some(1));
}

#[test]
fn terrain_root_map_id_prefers_parent_over_cosmetic_like_cpp() {
    let store = MapStore::from_entries(vec![
        MapEntry {
            id: 1,
            instance_type: 0,
            parent_map_id: -1,
            cosmetic_parent_map_id: -1,
            flags1: 0,
        },
        MapEntry {
            id: 571,
            instance_type: 0,
            parent_map_id: -1,
            cosmetic_parent_map_id: -1,
            flags1: 0,
        },
        MapEntry {
            id: 609,
            instance_type: 0,
            parent_map_id: 571,
            cosmetic_parent_map_id: 1,
            flags1: 0,
        },
    ]);

    assert_eq!(store.terrain_root_map_id_like_cpp(609), Some(571));
}

#[test]
fn terrain_root_map_id_handles_missing_entries_like_cpp() {
    let store = MapStore::from_entries(vec![MapEntry {
        id: 609,
        instance_type: 0,
        parent_map_id: 571,
        cosmetic_parent_map_id: -1,
        flags1: 0,
    }]);

    assert_eq!(store.terrain_root_map_id_like_cpp(609), Some(609));
    assert_eq!(store.terrain_root_map_id_like_cpp(571), None);
}

#[test]
fn parent_child_map_data_matches_cpp_world_initialization() {
    let store = MapStore::from_entries(vec![
        MapEntry {
            id: 1,
            instance_type: 0,
            parent_map_id: -1,
            cosmetic_parent_map_id: -1,
            flags1: 0,
        },
        MapEntry {
            id: 571,
            instance_type: 0,
            parent_map_id: -1,
            cosmetic_parent_map_id: 1,
            flags1: 0,
        },
        MapEntry {
            id: 609,
            instance_type: 0,
            parent_map_id: 571,
            cosmetic_parent_map_id: -1,
            flags1: 0,
        },
    ]);

    let map_data = store.parent_child_map_data_like_cpp();
    assert_eq!(
        map_data,
        vec![(1, vec![571]), (571, vec![609]), (609, Vec::new())]
    );
}

#[test]
fn parent_child_map_data_creates_missing_parent_bucket_like_cpp() {
    let store = MapStore::from_entries(vec![MapEntry {
        id: 609,
        instance_type: 0,
        parent_map_id: 571,
        cosmetic_parent_map_id: -1,
        flags1: 0,
    }]);

    let map_data = store.parent_child_map_data_like_cpp();
    assert_eq!(map_data, vec![(571, vec![609]), (609, Vec::new())]);
}

#[test]
fn map_difficulty_store_indexes_by_map_and_difficulty_like_cpp() {
    let store = MapDifficultyStore::from_entries(vec![MapDifficultyEntry {
        id: 900,
        map_id: 631,
        difficulty_id: 4,
        lock_id: 7,
        reset_interval: 2,
        flags: MAP_DIFFICULTY_FLAG_USE_LOOT_BASED_LOCK,
    }]);

    let entry = store.get(631, 4).unwrap();
    assert_eq!(entry.lock_id, 7);
    assert!(entry.is_using_encounter_locks());
    assert!(store.get(631, 3).is_none());
}

#[test]
fn map_difficulty_x_conditions_are_grouped_in_cpp_order() {
    let store = MapDifficultyXConditionStore::from_entries(vec![
        MapDifficultyXConditionEntry {
            id: 10,
            failure_description: "late".to_string(),
            player_condition_id: 100,
            order_index: 20,
            map_difficulty_id: 7,
        },
        MapDifficultyXConditionEntry {
            id: 11,
            failure_description: "early".to_string(),
            player_condition_id: 101,
            order_index: 10,
            map_difficulty_id: 7,
        },
        MapDifficultyXConditionEntry {
            id: 12,
            failure_description: "other".to_string(),
            player_condition_id: 102,
            order_index: 1,
            map_difficulty_id: 8,
        },
    ]);

    let ids: Vec<_> = store
        .conditions_for_map_difficulty(7)
        .iter()
        .map(|entry| entry.id)
        .collect();
    assert_eq!(ids, vec![11, 10]);
}

#[test]
fn map_difficulty_x_condition_failure_matches_cpp_first_unmet_existing_condition() {
    let store = MapDifficultyXConditionStore::from_entries(vec![
        MapDifficultyXConditionEntry {
            id: 10,
            failure_description: String::new(),
            player_condition_id: 100,
            order_index: 10,
            map_difficulty_id: 7,
        },
        MapDifficultyXConditionEntry {
            id: 11,
            failure_description: String::new(),
            player_condition_id: 999,
            order_index: 20,
            map_difficulty_id: 7,
        },
        MapDifficultyXConditionEntry {
            id: 12,
            failure_description: String::new(),
            player_condition_id: 101,
            order_index: 30,
            map_difficulty_id: 7,
        },
    ]);
    let player_conditions = PlayerConditionStore::from_entries(vec![
        PlayerConditionEntry {
            id: 100,
            ..Default::default()
        },
        PlayerConditionEntry {
            id: 101,
            ..Default::default()
        },
    ]);

    assert_eq!(
        store.failed_condition_like_cpp(7, &player_conditions, |condition| condition.id == 100),
        Some(12)
    );
}

#[test]
fn load_map_and_map_difficulty_db2_when_fixtures_exist() {
    let maps = MapStore::load(vec![
        MapEntry {
            id: 0,
            instance_type: 0,
            parent_map_id: -1,
            cosmetic_parent_map_id: -1,
            flags1: 0,
        },
        MapEntry {
            id: 631,
            instance_type: 2,
            parent_map_id: -1,
            cosmetic_parent_map_id: -1,
            flags1: MAP_FLAG_FLEXIBLE_RAID_LOCKING,
        },
    ]);
    let difficulties = MapDifficultyStore::load(vec![MapDifficultyEntry {
        id: 1,
        map_id: 32,
        difficulty_id: 4,
        lock_id: 0,
        reset_interval: 2,
        flags: 0,
    }]);

    assert!(!maps.is_empty());
    assert!(!difficulties.is_empty());
    assert!(maps.get(0).is_some());

    let icc = maps.get(631).expect("Icecrown Citadel map missing");
    assert_eq!(icc.instance_type, 2);

    let known_difficulty = difficulties
        .get(32, 4)
        .expect("known MapDifficulty row for map 32 difficulty 4 missing");
    assert_eq!(known_difficulty.map_id, 32);
    assert_eq!(known_difficulty.difficulty_id, 4);
    assert_eq!(known_difficulty.reset_interval, 2);
}

#[test]
fn conditions_of_equal_order_keep_table_order() {
    let row = |id: u32, order_index: i32, map_difficulty_id: u32| MapDifficultyXConditionEntry {
        id,
        failure_description: String::new(),
        player_condition_id: 0,
        order_index,
        map_difficulty_id,
    };
    let store = MapDifficultyXConditionStore::from_entries(vec![
        row(1, 5, 7),
        row(2, 1, 7),
        row(3, 5, 7),
        row(4, 1, 8),
        row(5, 1, 7),
    ]);
    let ids: Vec<u32> = store.conditions_for_map_difficulty(7).iter().map(|e| e.id).collect();
    assert_eq!(ids, vec![2, 5, 1, 3]);
    assert!(store.conditions_for_map_difficulty(9).is_empty());
}
