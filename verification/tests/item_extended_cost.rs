use lib::item_extended_cost::{
    ItemExtendedCostEntry, ItemExtendedCostStore, ITEM_EXT_COST_FLAG_REQUIRE_GUILD,
    ITEM_EXT_COST_FLAG_REQUIRE_SEASON_EARNED_2,
};

fn entry() -> ItemExtendedCostEntry {
    ItemExtendedCostEntry {
        id: 1,
        required_arena_rating: 0,
        arena_bracket: -1,
        flags: ITEM_EXT_COST_FLAG_REQUIRE_GUILD | ITEM_EXT_COST_FLAG_REQUIRE_SEASON_EARNED_2,
        min_faction_id: 0,
        min_reputation: 0,
        required_achievement: 0,
        item_id: [100, 0, 0, 0, 0],
        item_count: [3, 0, 0, 0, 0],
        currency_id: [395, 0, 0, 0, 0],
        currency_count: [25, 0, 0, 0, 0],
    }
}

#[test]
fn item_extended_cost_helpers_match_cpp_fields() {
    let entry = entry();

    assert!(entry.has_item_turnins());
    assert!(entry.has_currency_turnins());
    assert!(entry.has_season_earned_currency_requirement());
    assert!(entry.requires_guild());
}

#[test]
fn load_item_extended_cost_store() {
    let store = ItemExtendedCostStore::load(vec![entry()]);
    assert!(!store.is_empty());
    assert_eq!(store.get(1).map(|e| e.item_count[0]), Some(3));
    assert_eq!(store.len(), 1);
}

#[test]
fn empty_costs_need_nothing() {
    let bare = ItemExtendedCostEntry { flags: 0, item_id: [0; 5], currency_id: [0, 0, 0, 0, 0], ..entry() };
    assert!(!bare.has_item_turnins());
    assert!(!bare.has_currency_turnins());
    assert!(!bare.has_season_earned_currency_requirement());
    assert!(!bare.requires_guild());
    let late = ItemExtendedCostEntry { flags: 0x20, item_id: [0, 0, 0, 0, 9], ..bare };
    assert!(late.has_season_earned_currency_requirement());
    assert!(late.has_item_turnins());
}
