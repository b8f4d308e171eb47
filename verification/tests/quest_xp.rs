use lib::quest_xp::{round_xp, QuestXpRow, QuestXpStore};

#[test]
fn round_xp_value_matches_cpp_thresholds() {
    assert_eq!(round_xp(1), 0);
    assert_eq!(round_xp(3), 5);
    assert_eq!(round_xp(102), 100);
    assert_eq!(round_xp(106), 110);
    assert_eq!(round_xp(511), 500);
    assert_eq!(round_xp(513), 525);
    assert_eq!(round_xp(1024), 1000);
    assert_eq!(round_xp(1026), 1050);
}

#[test]
fn player_level_difficulty_xp_uses_raw_player_level_row_like_cpp() {
    let store = QuestXpStore::from_rows(vec![QuestXpRow {
        level: 42,
        difficulty: [0, 1, 11, 101, 511, 1026, 0, 0, 0, 0],
    }]);

    assert_eq!(store.player_level_difficulty_xp_like_cpp(42, 1), 0);
    assert_eq!(store.player_level_difficulty_xp_like_cpp(42, 2), 10);
    assert_eq!(store.player_level_difficulty_xp_like_cpp(42, 3), 100);
    assert_eq!(store.player_level_difficulty_xp_like_cpp(42, 4), 500);
    assert_eq!(store.player_level_difficulty_xp_like_cpp(42, 5), 1050);
    assert_eq!(store.player_level_difficulty_xp_like_cpp(41, 5), 0);
    assert_eq!(store.player_level_difficulty_xp_like_cpp(42, 10), 0);
}

#[test]
fn calculate_xp_scales_by_level_gap_and_falls_back_to_nearest_level() {
    let store = QuestXpStore::load(vec![
        QuestXpRow { level: 10, difficulty: [100, 200, 0, 0, 0, 0, 0, 0, 0, 0] },
        QuestXpRow { level: 20, difficulty: [400, 800, 0, 0, 0, 0, 0, 0, 0, 0] },
    ]);
    // Same level: factor 10 tenths.
    assert_eq!(store.calculate_xp(10, 10, 1), 200);
    // Quest five levels below the player: factor 2*(-5)+20 = 10; six below: 8.
    assert_eq!(store.calculate_xp(10, 15, 0), 100);
    assert_eq!(store.calculate_xp(10, 16, 0), 80);
    // Far below: factor clamps to 1 tenth; 100 / 10 = 10.
    assert_eq!(store.calculate_xp(10, 60, 0), 10);
    // -1 uses the player's level.
    assert_eq!(store.calculate_xp(-1, 20, 1), 800);
    // No row for level 19: the nearest is level 20.
    assert_eq!(store.calculate_xp(19, 19, 0), 400);
    // Tier past the last, or a zero value, gives nothing.
    assert_eq!(store.calculate_xp(10, 10, 10), 0);
    assert_eq!(store.calculate_xp(10, 10, 2), 0);
    assert_eq!(QuestXpStore::default().calculate_xp(10, 10, 0), 0);
}
