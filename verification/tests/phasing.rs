use std::collections::HashSet;

use lib::area::{AreaTableEntry, AreaTableStore};
use lib::phase::{PhaseEntry, PhaseStore};
use lib::phasing::{PhaseInfoStore, PhaseInfoStruct};

#[test]
fn phase_info_store_seeds_from_phase_store_like_cpp_load_phases() {
    let phase_store = PhaseStore::from_entries(vec![
        PhaseEntry { id: 10, flags: 0 },
        PhaseEntry { id: 20, flags: 0 },
    ]);

    let store = PhaseInfoStore::<u32>::from_phase_store_like_cpp(&phase_store);

    assert_eq!(store.phase_info_count(), 2);
    assert_eq!(store.phase_info(10).map(|phase| phase.id), Some(10));
    assert_eq!(store.phase_info(20).map(|phase| phase.id), Some(20));
    assert!(store.phase_info(30).is_none());
    assert_eq!(store.phase_area_count(), 0);
}


#[test]
fn phase_info_is_allowed_in_area_delegates_area_tree_like_cpp() {
    let phase_info = PhaseInfoStruct {
        id: 10,
        areas: HashSet::from([100, 200]),
    };

    assert!(
        phase_info.is_allowed_in_area_like_cpp(101, |area_id, area_to_check| {
            area_id == 101 && area_to_check == 100
        })
    );
    assert!(!phase_info.is_allowed_in_area_like_cpp(101, |_, _| false));
}


#[test]
fn phase_area_rows_skip_missing_area_or_phase_like_cpp() {
    let area_store = AreaTableStore::from_entries(vec![AreaTableEntry {
        id: 100,
        continent_id: 0,
        parent_area_id: 0,
        mount_flags: 0,
        flags: 0,
    }]);
    let phase_store = PhaseStore::from_entries(vec![PhaseEntry { id: 10, flags: 0 }]);
    let mut store = PhaseInfoStore::<u32>::from_phase_store_like_cpp(&phase_store);

    let count = store.load_area_phases_from_rows_like_cpp(
        &area_store,
        &phase_store,
        vec![(100, 10), (101, 10), (100, 11)],
    );

    assert_eq!(count, 1);
    assert_eq!(store.phase_area_count(), 1);
    assert_eq!(store.phase_info(10).map(|phase| phase.areas.len()), Some(1));
    assert!(store.phases_for_area(101).is_none());
}


#[test]
fn phase_area_rows_populate_parent_sub_area_exclusions_like_cpp() {
    let area_store = AreaTableStore::from_entries(vec![
        AreaTableEntry {
            id: 100,
            continent_id: 0,
            parent_area_id: 0,
            mount_flags: 0,
            flags: 0,
        },
        AreaTableEntry {
            id: 101,
            continent_id: 0,
            parent_area_id: 100,
            mount_flags: 0,
            flags: 0,
        },
    ]);
    let phase_store = PhaseStore::from_entries(vec![PhaseEntry { id: 10, flags: 0 }]);
    let mut store = PhaseInfoStore::<u32>::from_phase_store_like_cpp(&phase_store);

    let count = store.load_area_phases_from_rows_like_cpp(
        &area_store,
        &phase_store,
        vec![(100, 10), (101, 10)],
    );

    assert_eq!(count, 2);
    let parent_phase = store
        .phases_for_area(100)
        .and_then(|phases| phases.iter().find(|phase| phase.phase_id == 10))
        .expect("parent area phase missing");
    assert!(parent_phase.sub_area_exclusions.contains(&101));
}

#[test]
fn phase_areas_can_be_changed_in_place() {
    let area_store = AreaTableStore::from_entries(vec![AreaTableEntry {
        id: 100,
        continent_id: 0,
        parent_area_id: 0,
        mount_flags: 0,
        flags: 0,
    }]);
    let phase_store = PhaseStore::from_entries(vec![PhaseEntry { id: 10, flags: 0 }]);
    let mut store = PhaseInfoStore::<u32>::from_phase_store_like_cpp(&phase_store);
    store.load_area_phases_from_rows_like_cpp(&area_store, &phase_store, vec![(100, 10)]);

    assert!(store.phases_for_area_mut(5).is_none());
    let phases = store.phases_for_area_mut(100).expect("area 100 has a phase");
    assert_eq!(phases.len(), 1);
    phases[0].sub_area_exclusions.insert(7);
    assert!(store.phases_for_area(100).unwrap()[0].sub_area_exclusions.contains(&7));
}
