use lib::graveyard::{GraveyardStore, GraveyardZoneRow, TEAM_ALLIANCE_LIKE_CPP, TEAM_HORDE_LIKE_CPP};

fn row(safe_loc_id: u32, ghost_zone_id: u32) -> GraveyardZoneRow {
    GraveyardZoneRow {
        safe_loc_id,
        ghost_zone_id,
    }
}

#[test]
fn graveyard_zones_load_validates_and_skips_like_cpp() {
    let mut store = GraveyardStore::<()>::default();

    let report = store.load_graveyard_zones_from_rows_like_cpp(
        vec![row(1, 10), row(2, 10), row(1, 10), row(3, 10), row(1, 30)],
        |safe_loc_id| safe_loc_id != 3,
        |zone_id| zone_id != 30,
    );

    assert_eq!(report.loaded, 2);
    assert_eq!(report.duplicates, vec![row(1, 10)]);
    assert_eq!(report.missing_safe_locs, vec![row(3, 10)]);
    assert_eq!(report.missing_zones, vec![row(1, 30)]);
    assert!(store.find_graveyard_data_like_cpp(1, 10).is_some());
    assert!(store.find_graveyard_data_like_cpp(3, 10).is_none());
}

#[test]
fn default_graveyard_ids_match_cpp() {
    assert_eq!(
        GraveyardStore::<()>::default_graveyard_safe_loc_id_like_cpp(TEAM_HORDE_LIKE_CPP),
        Some(10)
    );
    assert_eq!(
        GraveyardStore::<()>::default_graveyard_safe_loc_id_like_cpp(TEAM_ALLIANCE_LIKE_CPP),
        Some(4)
    );
    assert_eq!(
        GraveyardStore::<()>::default_graveyard_safe_loc_id_like_cpp(0),
        None
    );
}

#[test]
fn graveyard_links_keep_zone_order_and_reload_replaces_links() {
    let mut store = GraveyardStore::<u8>::default();
    assert!(store.add_graveyard_link_like_cpp(5, 1));
    assert!(store.add_graveyard_link_like_cpp(6, 1));
    assert!(!store.add_graveyard_link_like_cpp(5, 1));
    let ids: Vec<u32> = store
        .graveyards_for_zone(1)
        .unwrap()
        .iter()
        .map(|data| data.safe_loc_id)
        .collect();
    assert_eq!(ids, vec![5, 6]);

    let report = store.load_graveyard_zones_from_rows_like_cpp(vec![row(7, 2)], |_| true, |_| true);
    assert_eq!(report.loaded, 1);
    assert!(store.graveyards_for_zone(1).is_none());
    assert!(store.find_graveyard_data_like_cpp(7, 2).is_some());
}

#[test]
fn added_links_start_without_conditions_and_are_found_in_their_zone() {
    let mut store = GraveyardStore::<u32>::default();
    assert!(store.add_graveyard_link_like_cpp(5, 10));
    assert!(store.add_graveyard_link_like_cpp(6, 10));
    assert!(store.add_graveyard_link_like_cpp(5, 11));
    assert!(!store.add_graveyard_link_like_cpp(5, 10));
    let found = store.find_graveyard_data_like_cpp(6, 10).unwrap();
    assert_eq!(found.safe_loc_id, 6);
    assert_eq!(found.conditions, 0);
    assert_eq!(store.graveyards_for_zone(10).map(|v| v.len()), Some(2));
    assert!(store.find_graveyard_data_like_cpp(6, 11).is_none());
}
