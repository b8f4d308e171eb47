use lib::player_condition::{
    is_player_meeting_condition_like_cpp, player_condition_compare_like_cpp, player_condition_logic_like_cpp,
    PlayerConditionAuraLikeCpp, PlayerConditionContextLikeCpp, PlayerConditionCountLikeCpp, PlayerConditionEntry,
    PlayerConditionPartyStatusLikeCpp, PlayerConditionQuestKillLikeCpp, PlayerConditionReputationLikeCpp,
    PlayerConditionSkillLikeCpp, PlayerConditionSpecializationLikeCpp, PlayerConditionStore,
};

fn pc(id: u32) -> PlayerConditionEntry {
    PlayerConditionEntry {
        id,
        ..PlayerConditionEntry::default()
    }
}

#[test]
fn player_condition_compare_matches_cpp_table() {
    assert!(player_condition_compare_like_cpp(1, 7, 7));
    assert!(player_condition_compare_like_cpp(2, 7, 8));
    assert!(player_condition_compare_like_cpp(3, 8, 7));
    assert!(player_condition_compare_like_cpp(4, 7, 7));
    assert!(player_condition_compare_like_cpp(5, 6, 7));
    assert!(player_condition_compare_like_cpp(6, 7, 7));
    assert!(!player_condition_compare_like_cpp(0, 7, 7));
}

#[test]
fn player_condition_logic_applies_invert_and_and_or_like_cpp() {
    assert!(player_condition_logic_like_cpp(1, [true, true]));
    assert!(player_condition_logic_like_cpp(2, [false, true]));
    assert!(!player_condition_logic_like_cpp(1 | (1 << 17), [true, true]));
}

#[test]
fn player_condition_filters_race_class_gender_like_cpp() {
    let condition = PlayerConditionEntry {
        race_mask: 1 << 0,
        class_mask: 1 << 1,
        gender: 1,
        ..pc(1)
    };
    let context = PlayerConditionContextLikeCpp {
        race: 1,
        class_mask: 1 << 1,
        gender: 1,
        native_gender: 0,
        ..Default::default()
    };

    assert!(is_player_meeting_condition_like_cpp(&condition, &context));
    assert!(!is_player_meeting_condition_like_cpp(
        &PlayerConditionEntry {
            race_mask: 1 << 1,
            ..condition.clone()
        },
        &context
    ));
}

#[test]
fn player_condition_filters_spells_items_currency_and_auras_like_cpp() {
    let condition = PlayerConditionEntry {
        spell_id: [133, 0, 0, 0],
        item_id: [6948, 0, 0, 0],
        item_count: [1, 0, 0, 0],
        currency_id: [61, 0, 0, 0],
        currency_count: [3, 0, 0, 0],
        aura_spell_id: [21562, 0, 0, 0],
        aura_stacks: [2, 0, 0, 0],
        ..pc(1)
    };
    let context = PlayerConditionContextLikeCpp {
        spells: &[133],
        items: &[PlayerConditionCountLikeCpp { id: 6948, count: 1 }],
        currencies: &[PlayerConditionCountLikeCpp { id: 61, count: 3 }],
        auras: &[PlayerConditionAuraLikeCpp {
            spell_id: 21562,
            stacks: 2,
        }],
        ..Default::default()
    };

    assert!(is_player_meeting_condition_like_cpp(&condition, &context));
}

#[test]
fn player_condition_filters_party_and_area_like_cpp() {
    let condition = PlayerConditionEntry {
        party_status: 3,
        area_id: [1519, 0, 0, 0],
        ..pc(1)
    };
    let context = PlayerConditionContextLikeCpp {
        party_status: PlayerConditionPartyStatusLikeCpp::InParty,
        area_id: 42,
        parent_area_ids: &[1519],
        ..Default::default()
    };

    assert!(is_player_meeting_condition_like_cpp(&condition, &context));
}

#[test]
fn empty_condition_is_met_by_default_player() {
    let context = PlayerConditionContextLikeCpp::default();
    assert!(is_player_meeting_condition_like_cpp(&pc(7), &context));
}

#[test]
fn missing_aura_stacks_fail_the_condition() {
    let condition = PlayerConditionEntry {
        aura_spell_id: [21562, 0, 0, 0],
        aura_stacks: [3, 0, 0, 0],
        ..pc(1)
    };
    let context = PlayerConditionContextLikeCpp {
        auras: &[PlayerConditionAuraLikeCpp { spell_id: 21562, stacks: 2 }],
        ..Default::default()
    };
    assert!(!is_player_meeting_condition_like_cpp(&condition, &context));
}

#[test]
fn skill_must_lie_strictly_between_bounds() {
    let condition = PlayerConditionEntry {
        skill_id: [164, 0, 0, 0],
        min_skill: [10, 0, 0, 0],
        max_skill: [100, 0, 0, 0],
        ..pc(1)
    };
    let inside = PlayerConditionContextLikeCpp {
        skills: &[PlayerConditionSkillLikeCpp { id: 164, value: 50 }],
        ..Default::default()
    };
    let at_bound = PlayerConditionContextLikeCpp {
        skills: &[PlayerConditionSkillLikeCpp { id: 164, value: 10 }],
        ..Default::default()
    };
    assert!(is_player_meeting_condition_like_cpp(&condition, &inside));
    assert!(!is_player_meeting_condition_like_cpp(&condition, &at_bound));
}

#[test]
fn reputation_maximum_alone_caps_the_rank() {
    let condition = PlayerConditionEntry {
        max_faction_id: 72,
        max_reputation: 4,
        ..pc(1)
    };
    let friendly = PlayerConditionContextLikeCpp {
        reputations: &[PlayerConditionReputationLikeCpp { faction_id: 72, rank: 4 }],
        ..Default::default()
    };
    let exalted = PlayerConditionContextLikeCpp {
        reputations: &[PlayerConditionReputationLikeCpp { faction_id: 72, rank: 7 }],
        ..Default::default()
    };
    assert!(is_player_meeting_condition_like_cpp(&condition, &friendly));
    assert!(!is_player_meeting_condition_like_cpp(&condition, &exalted));
}

#[test]
fn or_logic_accepts_either_quest() {
    let condition = PlayerConditionEntry {
        prev_quest_id: [100, 200, 0, 0],
        prev_quest_logic: 2,
        ..pc(1)
    };
    let context = PlayerConditionContextLikeCpp {
        completed_quests: &[200],
        ..Default::default()
    };
    assert!(is_player_meeting_condition_like_cpp(&condition, &context));
    let and_condition = PlayerConditionEntry {
        prev_quest_logic: 1,
        ..condition.clone()
    };
    assert!(!is_player_meeting_condition_like_cpp(&and_condition, &context));
}

#[test]
fn specialization_role_is_checked_when_known() {
    let condition = PlayerConditionEntry {
        chr_specialization_role: 1,
        ..pc(1)
    };
    let healer = PlayerConditionContextLikeCpp {
        primary_specialization_id: Some(65),
        primary_specialization: Some(PlayerConditionSpecializationLikeCpp { order_index: 0, role: 1 }),
        ..Default::default()
    };
    let tank = PlayerConditionContextLikeCpp {
        primary_specialization_id: Some(66),
        primary_specialization: Some(PlayerConditionSpecializationLikeCpp { order_index: 1, role: 0 }),
        ..Default::default()
    };
    assert!(is_player_meeting_condition_like_cpp(&condition, &healer));
    assert!(!is_player_meeting_condition_like_cpp(&condition, &tank));
}

#[test]
fn quest_kills_count_only_on_the_kill_quest() {
    let condition = PlayerConditionEntry {
        quest_kill_id: 500,
        quest_kill_monster: [11, 0, 0, 0, 0, 0],
        ..pc(1)
    };
    let on_quest = PlayerConditionContextLikeCpp {
        quest_kill_id: 500,
        quest_kills: &[PlayerConditionQuestKillLikeCpp { monster_id: 11, done: false }],
        ..Default::default()
    };
    let other_quest = PlayerConditionContextLikeCpp {
        quest_kill_id: 501,
        ..on_quest
    };
    assert!(!is_player_meeting_condition_like_cpp(&condition, &on_quest));
    assert!(is_player_meeting_condition_like_cpp(&condition, &other_quest));
}

#[test]
fn world_state_and_item_level_requirements() {
    let condition = PlayerConditionEntry {
        world_state_expression_id: 9,
        min_avg_item_level: 200,
        ..pc(1)
    };
    let ok = PlayerConditionContextLikeCpp {
        met_world_state_expressions: &[9],
        avg_item_level: 200,
        ..Default::default()
    };
    let low = PlayerConditionContextLikeCpp {
        avg_item_level: 199,
        ..ok
    };
    assert!(is_player_meeting_condition_like_cpp(&condition, &ok));
    assert!(!is_player_meeting_condition_like_cpp(&condition, &low));
}

#[test]
fn store_keeps_conditions_by_id() {
    let store = PlayerConditionStore::load(vec![pc(3), pc(9)]);
    assert_eq!(store.len(), 2);
    assert!(store.contains(9));
    assert!(store.get(4).is_none());
}

#[test]
fn comparison_codes_complement_each_other() {
    for (a, b) in [(1, 2), (2, 2), (3, 2), (-5, 7)] {
        assert_eq!(player_condition_compare_like_cpp(1, a, b), !player_condition_compare_like_cpp(2, a, b));
        assert_eq!(player_condition_compare_like_cpp(3, a, b), !player_condition_compare_like_cpp(6, a, b));
        assert_eq!(player_condition_compare_like_cpp(4, a, b), !player_condition_compare_like_cpp(5, a, b));
    }
}
