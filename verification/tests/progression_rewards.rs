use lib::progression_rewards::{AchievementCategoryStore, ContentTuningStore, CriteriaTreeStore, CurvePointStore, CurveStore, FACTION_MASK_PLAYER_LIKE_CPP, FACTION_TEMPLATE_FLAG_CONTESTED_GUARD_LIKE_CPP, FACTION_TEMPLATE_FLAG_HOSTILE_BY_DEFAULT_LIKE_CPP, FactionStore, FactionTemplateEntry, FactionTemplateStore, FriendshipRepReactionStore, FriendshipReputationStore, ModifierTreeStore, NumTalentsAtLevelStore, ParagonReputationStore, QUEST_PACKAGE_FILTER_CLASS_LIKE_CPP, QUEST_PACKAGE_FILTER_EVERYONE_LIKE_CPP, QUEST_PACKAGE_FILTER_UNMATCHED_LIKE_CPP, QuestFactionRewardStore, QuestInfoStore, QuestLineXQuestStore, QuestMoneyRewardStore, QuestPackageItemEntry, QuestPackageItemStore, QuestSortStore, QuestV2Entry, QuestV2Store, RewardPackStore, RewardPackXCurrencyTypeEntry, RewardPackXCurrencyTypeStore, RewardPackXItemStore, ScalingStatDistributionStore, ScalingStatValuesStore};

fn faction_template_for_test(
    id: u32,
    faction: u16,
    faction_group: u8,
    friend_group: u8,
    enemy_group: u8,
) -> FactionTemplateEntry {
    FactionTemplateEntry {
        id,
        faction,
        flags: 0,
        faction_group,
        friend_group,
        enemy_group,
        enemies: [0; 8],
        friend: [0; 8],
    }
}

#[test]
fn reward_pack_currency_store_uses_cpp_parent_relationship() {
    let store = RewardPackXCurrencyTypeStore::from_entries(vec![RewardPackXCurrencyTypeEntry {
        id: 1,
        currency_type_id: 2,
        quantity: 3,
        reward_pack_id: 4,
    }]);

    assert_eq!(store.get(1).unwrap().reward_pack_id, 4);
}

#[test]
fn faction_template_friendly_relation_matches_cpp_precedence() {
    let mut faction = faction_template_for_test(1, 100, 0x02, 0x04, 0);
    let other = faction_template_for_test(2, 200, 0x04, 0, 0);

    assert!(faction.is_friendly_to_like_cpp(&faction));
    assert!(faction.is_friendly_to_like_cpp(&other));

    faction.enemies[0] = 200;
    faction.friend[0] = 200;
    assert!(!faction.is_friendly_to_like_cpp(&other));
}

#[test]
fn faction_template_hostile_relation_matches_cpp_precedence() {
    let mut faction = faction_template_for_test(1, 100, 0, 0, 0x04);
    let other = faction_template_for_test(2, 200, 0x04, 0, 0);

    assert!(!faction.is_hostile_to_like_cpp(&faction));
    assert!(faction.is_hostile_to_like_cpp(&other));

    faction.friend[0] = 200;
    assert!(!faction.is_hostile_to_like_cpp(&other));
}

#[test]
fn faction_template_misc_helpers_match_cpp_flags_and_groups() {
    let mut faction = faction_template_for_test(1, 100, 0, 0, FACTION_MASK_PLAYER_LIKE_CPP);
    faction.flags = FACTION_TEMPLATE_FLAG_CONTESTED_GUARD_LIKE_CPP
        | FACTION_TEMPLATE_FLAG_HOSTILE_BY_DEFAULT_LIKE_CPP;

    assert!(faction.is_hostile_to_players_like_cpp());
    assert!(faction.is_contested_guard_faction_like_cpp());
    assert!(faction.is_hostile_by_default_like_cpp());
    assert!(!faction.is_neutral_to_all_like_cpp());

    faction.enemy_group = 0;
    faction.flags = 0;
    assert!(faction.is_neutral_to_all_like_cpp());

    faction.enemies[7] = 200;
    assert!(!faction.is_neutral_to_all_like_cpp());
}

#[test]
fn quest_v2_unique_bit_flag_missing_quest_returns_zero_like_cpp() {
    let store = QuestV2Store::from_entries(vec![]);

    assert_eq!(store.get_quest_unique_bit_flag_like_cpp(12_345), 0);
}

#[test]
fn quest_v2_unique_bit_flag_existing_nonzero_returns_exact_flag_like_cpp() {
    let store = QuestV2Store::from_entries(vec![QuestV2Entry {
        id: 12_345,
        unique_bit_flag: 77,
    }]);

    assert_eq!(store.get_quest_unique_bit_flag_like_cpp(12_345), 77);
}

#[test]
fn quest_v2_unique_bit_flag_existing_zero_stays_zero_like_cpp() {
    let store = QuestV2Store::from_entries(vec![QuestV2Entry {
        id: 12_345,
        unique_bit_flag: 0,
    }]);

    assert_eq!(store.get_quest_unique_bit_flag_like_cpp(12_345), 0);
}

#[test]
fn quest_v2_unique_bit_flag_duplicate_ids_preserve_from_entries_last_wins() {
    let store = QuestV2Store::from_entries(vec![
        QuestV2Entry {
            id: 12_345,
            unique_bit_flag: 11,
        },
        QuestV2Entry {
            id: 12_345,
            unique_bit_flag: 99,
        },
    ]);

    assert_eq!(store.len(), 1);
    assert_eq!(store.get_quest_unique_bit_flag_like_cpp(12_345), 99);
}

#[test]
fn quest_package_items_split_primary_and_fallback_like_cpp() {
    let store = QuestPackageItemStore::from_entries(vec![
        QuestPackageItemEntry {
            id: 1,
            package_id: 10,
            item_id: 100,
            item_quantity: 1,
            display_type: QUEST_PACKAGE_FILTER_CLASS_LIKE_CPP,
        },
        QuestPackageItemEntry {
            id: 2,
            package_id: 10,
            item_id: 200,
            item_quantity: 1,
            display_type: QUEST_PACKAGE_FILTER_UNMATCHED_LIKE_CPP,
        },
        QuestPackageItemEntry {
            id: 3,
            package_id: 11,
            item_id: 300,
            item_quantity: 1,
            display_type: QUEST_PACKAGE_FILTER_EVERYONE_LIKE_CPP,
        },
    ]);

    let primary: Vec<i32> = store
        .quest_package_items_like_cpp(10)
        .iter()
        .map(|entry| entry.item_id)
        .collect();
    let fallback: Vec<i32> = store
        .quest_package_items_fallback_like_cpp(10)
        .iter()
        .map(|entry| entry.item_id)
        .collect();

    assert_eq!(primary, vec![100]);
    assert_eq!(fallback, vec![200]);
}

#[test]
fn load_progression_rewards_db2_subbatch_when_fixtures_exist() {
    assert!(AchievementCategoryStore::load(Vec::new()).is_empty());
    assert!(ContentTuningStore::load(Vec::new()).is_empty());
    assert!(CriteriaTreeStore::load(Vec::new()).is_empty());
    assert!(CurveStore::load(Vec::new()).is_empty());
    assert!(CurvePointStore::load(Vec::new()).is_empty());
    assert!(FactionStore::load(Vec::new()).is_empty());
    assert!(FactionTemplateStore::load(Vec::new()).is_empty());
    assert!(FriendshipRepReactionStore::load(Vec::new()).is_empty());
    assert!(FriendshipReputationStore::load(Vec::new()).is_empty());
    assert!(ModifierTreeStore::load(Vec::new()).is_empty());
    assert!(NumTalentsAtLevelStore::load(Vec::new()).is_empty());
    assert!(ParagonReputationStore::load(Vec::new()).is_empty());
    assert!(QuestFactionRewardStore::load(Vec::new()).is_empty());
    assert!(QuestInfoStore::load(Vec::new()).is_empty());
    assert!(QuestLineXQuestStore::load(Vec::new()).is_empty());
    assert!(QuestMoneyRewardStore::load(Vec::new()).is_empty());
    assert!(QuestPackageItemStore::load(Vec::new()).is_empty());
    assert!(QuestSortStore::load(Vec::new()).is_empty());
    assert!(QuestV2Store::load(Vec::new()).is_empty());
    assert!(RewardPackStore::load(Vec::new()).is_empty());
    assert!(RewardPackXCurrencyTypeStore::load(Vec::new()).is_empty());
    assert!(RewardPackXItemStore::load(Vec::new()).is_empty());
    assert!(ScalingStatDistributionStore::load(Vec::new()).is_empty());
    assert!(ScalingStatValuesStore::load(Vec::new()).is_empty());
}
