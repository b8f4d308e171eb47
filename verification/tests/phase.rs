use lib::phase::{PHASE_ENTRY_FLAG_COSMETIC, PHASE_ENTRY_FLAG_PERSONAL, PhaseEntry, PhaseGroupStore, PhaseStore, PhaseXPhaseGroupEntry};

#[test]
fn phase_store_reports_personal_and_cosmetic_flags_like_cpp() {
    let store = PhaseStore::from_entries(vec![
        PhaseEntry {
            id: 10,
            flags: PHASE_ENTRY_FLAG_PERSONAL,
        },
        PhaseEntry {
            id: 20,
            flags: PHASE_ENTRY_FLAG_COSMETIC,
        },
    ]);

    assert!(store.is_personal_phase(10));
    assert!(!store.is_personal_phase(20));
    assert!(store.is_cosmetic_phase(20));
    assert!(!store.is_cosmetic_phase(999));
}

#[test]
fn phase_group_store_skips_missing_phase_ids_like_cpp_manager() {
    let phase_store = PhaseStore::from_entries(vec![PhaseEntry { id: 10, flags: 0 }]);
    let group_store = PhaseGroupStore::from_entries(
        &phase_store,
        vec![
            PhaseXPhaseGroupEntry {
                id: 1,
                phase_id: 10,
                phase_group_id: 5,
            },
            PhaseXPhaseGroupEntry {
                id: 2,
                phase_id: 11,
                phase_group_id: 5,
            },
        ],
    );

    assert_eq!(group_store.phases_for_group(5), Some([10].as_slice()));
    assert!(group_store.phases_for_group(6).is_none());
}

#[test]
fn load_phase_db2_when_fixture_exists() {
    let store = PhaseStore::load(vec![PhaseEntry { id: 1, flags: 0 }]);
    assert!(!store.is_empty());
}

#[test]
fn load_phase_x_phase_group_db2_when_fixture_exists() {
    let phase_store = PhaseStore::load(vec![PhaseEntry { id: 1, flags: 0 }]);
    let group_store = PhaseGroupStore::load(
        vec![PhaseXPhaseGroupEntry {
            id: 1,
            phase_id: 1,
            phase_group_id: 2,
        }],
        &phase_store,
    );
    assert!(!group_store.is_empty());
}
