use lib::game_tele::{text_contains, GameTeleRowLikeCpp, GameTeleStoreLikeCpp};

const MAP_HALFSIZE: f32 = 17066.666;

fn on_map(row: &GameTeleRowLikeCpp) -> bool {
    let [x, y, z, o] = [row.position_x, row.position_y, row.position_z, row.orientation].map(f32::from_bits);
    let limit = MAP_HALFSIZE - 0.5;
    x.is_finite() && y.is_finite() && z.is_finite() && o.is_finite() && x.abs() <= limit && y.abs() <= limit
}

fn row(id: u32, name: &str) -> GameTeleRowLikeCpp {
    GameTeleRowLikeCpp {
        id,
        position_x: 1.0f32.to_bits(),
        position_y: 2.0f32.to_bits(),
        position_z: 3.0f32.to_bits(),
        orientation: 4.0f32.to_bits(),
        map_id: 571,
        name: name.to_string(),
    }
}

#[test]
fn game_tele_load_skips_invalid_coordinates_like_cpp() {
    let mut invalid = row(2, "Bad");
    invalid.position_x = (MAP_HALFSIZE + 1.0).to_bits();

    let outcome = GameTeleStoreLikeCpp::from_rows_like_cpp(vec![row(1, "Dalaran"), invalid], on_map);

    assert_eq!(outcome.report.rows_seen, 2);
    assert_eq!(outcome.report.loaded_rows, 1);
    assert_eq!(outcome.report.skipped_invalid_coordinates, vec![(2, "Bad".to_string())]);
    assert!(outcome.store.get_game_tele_by_id_like_cpp(1).is_some());
    assert!(outcome.store.get_game_tele_by_id_like_cpp(2).is_none());
}

#[test]
fn game_tele_duplicate_id_overwrites_but_counts_loaded_rows_like_cpp() {
    let outcome = GameTeleStoreLikeCpp::from_rows_like_cpp(vec![row(1, "OldDalaran"), row(1, "NewDalaran")], on_map);

    assert_eq!(outcome.report.loaded_rows, 2);
    assert_eq!(outcome.store.len(), 1);
    assert_eq!(outcome.store.get_game_tele_by_id_like_cpp(1).unwrap().name, "NewDalaran");
}

#[test]
fn game_tele_lookup_exact_wins_before_partial_like_cpp() {
    let outcome = GameTeleStoreLikeCpp::from_rows_like_cpp(vec![row(1, "StormwindKeep"), row(2, "Stormwind")], on_map);

    assert_eq!(outcome.store.get_game_tele_like_cpp("stormwind").unwrap().id, 2);
    assert_eq!(outcome.store.get_game_tele_exact_name_like_cpp("STORMWIND").unwrap().id, 2);
    assert!(outcome.store.get_game_tele_exact_name_like_cpp("wind").is_none());
    assert!(outcome.store.get_game_tele_like_cpp("wind").is_some());
}

#[test]
fn lowercased_names_and_positions_are_kept() {
    let outcome = GameTeleStoreLikeCpp::from_rows_like_cpp(vec![row(9, "ÉcoleDU")], on_map);
    let tele = outcome.store.get_game_tele_by_id_like_cpp(9).unwrap();
    assert_eq!(tele.name_lower_like_cpp, "écoledu");
    assert_eq!(tele.map_id, 571);
    assert_eq!(f32::from_bits(tele.position.orientation), 4.0);
    assert!(outcome.store.get_game_tele_like_cpp("nowhere").is_none());
    assert_eq!(outcome.store.entries_like_cpp().len(), 1);
    assert!(!outcome.store.is_empty());
}

#[test]
fn substring_search_finds_runs_of_characters() {
    assert!(text_contains("stormwindkeep", "windk"));
    assert!(text_contains("abc", ""));
    assert!(!text_contains("abc", "abcd"));
    assert!(!text_contains("abcabd", "abd ") );
    assert!(text_contains("abcabd", "abd"));
}

#[test]
fn lookups_by_lowercase_name_take_the_name_as_given() {
    let outcome = GameTeleStoreLikeCpp::from_rows_like_cpp(vec![row(1, "Dalaran"), row(2, "Stormwind")], on_map);
    let store = outcome.store;
    assert_eq!(store.get_game_tele_by_lowercase_name_like_cpp("dalaran").map(|t| t.id), Some(1));
    assert_eq!(store.get_game_tele_by_lowercase_name_like_cpp("storm").map(|t| t.id), Some(2));
    assert!(store.get_game_tele_by_lowercase_name_like_cpp("Dalaran").is_none());
    assert_eq!(store.get_game_tele_by_exact_lowercase_name_like_cpp("stormwind").map(|t| t.id), Some(2));
    assert!(store.get_game_tele_by_exact_lowercase_name_like_cpp("storm").is_none());
}
