//! Quest, reward, criteria, faction, curve and scaling tables.
use std::collections::HashMap;
use vstd::prelude::*;

use crate::db2_index::{
    build_index, index_by_key, index_values_where, is_stored_value, lists_values_where, Keyed,
};
use crate::sorting::{is_ascending, sort_ascending};
use vstd::std_specs::iter::IteratorSpec;

verus! {

broadcast use {vstd::std_specs::hash::group_hash_axioms, vstd::seq_lib::group_to_multiset_ensures};

pub const QUEST_PACKAGE_FILTER_LOOT_SPECIALIZATION_LIKE_CPP: u8 = 0;

pub const QUEST_PACKAGE_FILTER_CLASS_LIKE_CPP: u8 = 1;

pub const QUEST_PACKAGE_FILTER_UNMATCHED_LIKE_CPP: u8 = 2;

pub const QUEST_PACKAGE_FILTER_EVERYONE_LIKE_CPP: u8 = 3;

pub const FACTION_TEMPLATE_FLAG_CONTESTED_GUARD_LIKE_CPP: u16 = 0x0000_1000;

pub const FACTION_TEMPLATE_FLAG_HOSTILE_BY_DEFAULT_LIKE_CPP: u16 = 0x0000_2000;

pub const FACTION_MASK_PLAYER_LIKE_CPP: u8 = 0x01;

/// A row of the AchievementCategory table.
#[derive(Debug, Clone, PartialEq, Eq)]
pub struct AchievementCategoryEntry {
    pub id: u32,
    pub name: String,
    pub parent: i16,
    pub ui_order: i8,
}

impl Keyed for AchievementCategoryEntry {
    open spec fn spec_key(&self) -> u32 {
        self.id
    }

    fn key(&self) -> (k: u32) {
        self.id
    }
}

/// A row of the ContentTuning table.
#[derive(Debug, Clone, PartialEq, Eq)]
pub struct ContentTuningEntry {
    pub id: u32,
    pub min_level: i32,
    pub max_level: i32,
    pub flags: i32,
    pub expected_stat_mod_id: i32,
    pub difficulty_esm_id: i32,
}

impl Keyed for ContentTuningEntry {
    open spec fn spec_key(&self) -> u32 {
        self.id
    }

    fn key(&self) -> (k: u32) {
        self.id
    }
}

/// A row of the CriteriaTree table.
#[derive(Debug, Clone, PartialEq, Eq)]
pub struct CriteriaTreeEntry {
    pub id: u32,
    pub description: String,
    pub parent: u32,
    pub amount: u32,
    pub operator: i32,
    pub criteria_id: u32,
    pub order_index: i32,
    pub flags: i32,
}

impl Keyed for CriteriaTreeEntry {
    open spec fn spec_key(&self) -> u32 {
        self.id
    }

    fn key(&self) -> (k: u32) {
        self.id
    }
}

/// A row of the Curve table.
#[derive(Debug, Clone, PartialEq, Eq)]
pub struct CurveEntry {
    pub id: u32,
    pub curve_type: u8,
    pub flags: u8,
}

impl Keyed for CurveEntry {
    open spec fn spec_key(&self) -> u32 {
        self.id
    }

    fn key(&self) -> (k: u32) {
        self.id
    }
}

/// A row of the CurvePoint table.
///
/// Fields that the table stores as 32-bit floats hold their bit patterns.
#[derive(Debug, Clone, PartialEq, Eq)]
pub struct CurvePointEntry {
    pub id: u32,
    pub pos: [u32; 2],
    pub pre_sl_squish_pos: [u32; 2],
    pub curve_id: u32,
    pub order_index: u8,
}

impl Keyed for CurvePointEntry {
    open spec fn spec_key(&self) -> u32 {
        self.id
    }

    fn key(&self) -> (k: u32) {
        self.id
    }
}

/// A row of the Faction table.
///
/// Fields that the table stores as 32-bit floats hold their bit patterns.
#[derive(Debug, Clone, PartialEq, Eq)]
pub struct FactionEntry {
    pub id: u32,
    pub reputation_race_mask: [i64; 4],
    pub reputation_index: i16,
    pub parent_faction_id: u16,
    pub friendship_rep_id: u8,
    pub flags: i32,
    pub paragon_faction_id: u16,
    pub renown_faction_id: i32,
    pub renown_currency_id: i32,
    pub reputation_class_mask: [i16; 4],
    pub reputation_flags: [u16; 4],
    pub reputation_base: [i32; 4],
    pub reputation_max: [i32; 4],
    pub parent_faction_mod: [u32; 2],
    pub parent_faction_cap: [u8; 2],
}

impl Keyed for FactionEntry {
    open spec fn spec_key(&self) -> u32 {
        self.id
    }

    fn key(&self) -> (k: u32) {
        self.id
    }
}

/// A row of the FactionTemplate table.
#[derive(Debug, Clone, PartialEq, Eq)]
pub struct FactionTemplateEntry {
    pub id: u32,
    pub faction: u16,
    pub flags: u16,
    pub faction_group: u8,
    pub friend_group: u8,
    pub enemy_group: u8,
    pub enemies: [u16; 8],
    pub friend: [u16; 8],
}

impl Keyed for FactionTemplateEntry {
    open spec fn spec_key(&self) -> u32 {
        self.id
    }

    fn key(&self) -> (k: u32) {
        self.id
    }
}

/// A row of the FriendshipRepReaction table.
#[derive(Debug, Clone, PartialEq, Eq)]
pub struct FriendshipRepReactionEntry {
    pub id: u32,
    pub reaction: String,
    pub friendship_rep_id: u8,
    pub reaction_threshold: u16,
}

impl Keyed for FriendshipRepReactionEntry {
    open spec fn spec_key(&self) -> u32 {
        self.id
    }

    fn key(&self) -> (k: u32) {
        self.id
    }
}

/// A row of the FriendshipReputation table.
#[derive(Debug, Clone, PartialEq, Eq)]
pub struct FriendshipReputationEntry {
    pub id: u32,
    pub description: String,
    pub field_34146722002: i32,
    pub field_34146722003: i32,
}

impl Keyed for FriendshipReputationEntry {
    open spec fn spec_key(&self) -> u32 {
        self.id
    }

    fn key(&self) -> (k: u32) {
        self.id
    }
}

/// A row of the ModifierTree table.
#[derive(Debug, Clone, PartialEq, Eq)]
pub struct ModifierTreeEntry {
    pub id: u32,
    pub parent: u32,
    pub operator: i8,
    pub amount: i8,
    pub modifier_type: i32,
    pub asset: i32,
    pub secondary_asset: i32,
    pub tertiary_asset: i8,
}

impl Keyed for ModifierTreeEntry {
    open spec fn spec_key(&self) -> u32 {
        self.id
    }

    fn key(&self) -> (k: u32) {
        self.id
    }
}

/// A row of the NumTalentsAtLevel table.
#[derive(Debug, Clone, PartialEq, Eq)]
pub struct NumTalentsAtLevelEntry {
    pub id: u32,
    pub num_talents: i32,
    pub num_talents_death_knight: i32,
    pub num_talents_demon_hunter: i32,
}

impl Keyed for NumTalentsAtLevelEntry {
    open spec fn spec_key(&self) -> u32 {
        self.id
    }

    fn key(&self) -> (k: u32) {
        self.id
    }
}

/// A row of the ParagonReputation table.
#[derive(Debug, Clone, PartialEq, Eq)]
pub struct ParagonReputationEntry {
    pub id: u32,
    pub faction_id: i32,
    pub level_threshold: i32,
    pub quest_id: i32,
}

impl Keyed for ParagonReputationEntry {
    open spec fn spec_key(&self) -> u32 {
        self.id
    }

    fn key(&self) -> (k: u32) {
        self.id
    }
}

/// A row of the QuestFactionReward table.
#[derive(Debug, Clone, PartialEq, Eq)]
pub struct QuestFactionRewardEntry {
    pub id: u32,
    pub difficulty: [i16; 10],
}

impl Keyed for QuestFactionRewardEntry {
    open spec fn spec_key(&self) -> u32 {
        self.id
    }

    fn key(&self) -> (k: u32) {
        self.id
    }
}

/// A row of the QuestInfo table.
#[derive(Debug, Clone, PartialEq, Eq)]
pub struct QuestInfoEntry {
    pub id: u32,
    pub info_name: String,
    pub quest_type: i8,
    pub modifiers: i32,
    pub profession: u16,
}

impl Keyed for QuestInfoEntry {
    open spec fn spec_key(&self) -> u32 {
        self.id
    }

    fn key(&self) -> (k: u32) {
        self.id
    }
}

/// A row of the QuestLineXQuest table.
#[derive(Debug, Clone, PartialEq, Eq)]
pub struct QuestLineXQuestEntry {
    pub id: u32,
    pub quest_line_id: u32,
    pub quest_id: u32,
    pub order_index: u32,
}

impl Keyed for QuestLineXQuestEntry {
    open spec fn spec_key(&self) -> u32 {
        self.id
    }

    fn key(&self) -> (k: u32) {
        self.id
    }
}

/// A row of the QuestMoneyReward table.
#[derive(Debug, Clone, PartialEq, Eq)]
pub struct QuestMoneyRewardEntry {
    pub id: u32,
    pub difficulty: [u32; 10],
}

impl Keyed for QuestMoneyRewardEntry {
    open spec fn spec_key(&self) -> u32 {
        self.id
    }

    fn key(&self) -> (k: u32) {
        self.id
    }
}

/// A row of the QuestPackageItem table.
#[derive(Debug, Clone, PartialEq, Eq)]
pub struct QuestPackageItemEntry {
    pub id: u32,
    pub package_id: u16,
    pub item_id: i32,
    pub item_quantity: u32,
    pub display_type: u8,
}

impl Keyed for QuestPackageItemEntry {
    open spec fn spec_key(&self) -> u32 {
        self.id
    }

    fn key(&self) -> (k: u32) {
        self.id
    }
}

/// A row of the QuestSort table.
#[derive(Debug, Clone, PartialEq, Eq)]
pub struct QuestSortEntry {
    pub id: u32,
    pub sort_name: String,
    pub ui_order_index: i8,
}

impl Keyed for QuestSortEntry {
    open spec fn spec_key(&self) -> u32 {
        self.id
    }

    fn key(&self) -> (k: u32) {
        self.id
    }
}

/// A row of the QuestV2 table.
#[derive(Debug, Clone, PartialEq, Eq)]
pub struct QuestV2Entry {
    pub id: u32,
    pub unique_bit_flag: u16,
}

impl Keyed for QuestV2Entry {
    open spec fn spec_key(&self) -> u32 {
        self.id
    }

    fn key(&self) -> (k: u32) {
        self.id
    }
}

/// A row of the RewardPack table.
///
/// Fields that the table stores as 32-bit floats hold their bit patterns.
#[derive(Debug, Clone, PartialEq, Eq)]
pub struct RewardPackEntry {
    pub id: u32,
    pub char_title_id: i32,
    pub money: u32,
    pub artifact_xp_difficulty: i8,
    pub artifact_xp_multiplier: u32,
    pub artifact_xp_category_id: u8,
    pub treasure_picker_id: u32,
}

impl Keyed for RewardPackEntry {
    open spec fn spec_key(&self) -> u32 {
        self.id
    }

    fn key(&self) -> (k: u32) {
        self.id
    }
}

/// A row of the RewardPackXCurrencyType table.
#[derive(Debug, Clone, PartialEq, Eq)]
pub struct RewardPackXCurrencyTypeEntry {
    pub id: u32,
    pub currency_type_id: u32,
    pub quantity: i32,
    pub reward_pack_id: u32,
}

impl Keyed for RewardPackXCurrencyTypeEntry {
    open spec fn spec_key(&self) -> u32 {
        self.id
    }

    fn key(&self) -> (k: u32) {
        self.id
    }
}

/// A row of the RewardPackXItem table.
#[derive(Debug, Clone, PartialEq, Eq)]
pub struct RewardPackXItemEntry {
    pub id: u32,
    pub item_id: i32,
    pub item_quantity: i32,
    pub reward_pack_id: u32,
}

impl Keyed for RewardPackXItemEntry {
    open spec fn spec_key(&self) -> u32 {
        self.id
    }

    fn key(&self) -> (k: u32) {
        self.id
    }
}

/// A row of the ScalingStatDistribution table.
#[derive(Debug, Clone, PartialEq, Eq)]
pub struct ScalingStatDistributionEntry {
    pub id: u32,
    pub player_level_to_item_level_curve_id: u16,
    pub min_level: i32,
    pub max_level: i32,
    pub bonus: [i32; 10],
    pub stat_id: [i32; 10],
}

impl Keyed for ScalingStatDistributionEntry {
    open spec fn spec_key(&self) -> u32 {
        self.id
    }

    fn key(&self) -> (k: u32) {
        self.id
    }
}

/// A row of the ScalingStatValues table.
#[derive(Debug, Clone, PartialEq, Eq)]
pub struct ScalingStatValuesEntry {
    pub id: u32,
    pub char_level: i32,
    pub weapon_dps_1h: i32,
    pub weapon_dps_2h: i32,
    pub spellcaster_dps_1h: i32,
    pub spellcaster_dps_2h: i32,
    pub ranged_dps: i32,
    pub wand_dps: i32,
    pub spell_power: i32,
    pub shoulder_budget: i32,
    pub trinket_budget: i32,
    pub weapon_budget_1h: i32,
    pub primary_budget: i32,
    pub ranged_budget: i32,
    pub tertiary_budget: i32,
    pub cloth_shoulder_armor: i32,
    pub leather_shoulder_armor: i32,
    pub mail_shoulder_armor: i32,
    pub plate_shoulder_armor: i32,
    pub cloth_cloak_armor: i32,
    pub cloth_chest_armor: i32,
    pub leather_chest_armor: i32,
    pub mail_chest_armor: i32,
    pub plate_chest_armor: i32,
}

impl Keyed for ScalingStatValuesEntry {
    open spec fn spec_key(&self) -> u32 {
        self.id
    }

    fn key(&self) -> (k: u32) {
        self.id
    }
}

/// Store of AchievementCategory rows indexed by id.
pub struct AchievementCategoryStore {
    entries: HashMap<u32, AchievementCategoryEntry>,
}

impl View for AchievementCategoryStore {
    type V = Map<u32, AchievementCategoryEntry>;

    closed spec fn view(&self) -> Map<u32, AchievementCategoryEntry> {
        self.entries@
    }
}

impl AchievementCategoryStore {
    /// Builds the store; a later row replaces an earlier one with the same id.
    pub fn from_entries(entries: Vec<AchievementCategoryEntry>) -> (s: Self)
        ensures
            s@ == index_by_key(entries@),
    {
        AchievementCategoryStore { entries: build_index(entries) }
    }

    /// Builds the store from the rows of the AchievementCategory table, in file order.
    pub fn load(rows: Vec<AchievementCategoryEntry>) -> (s: Self)
        ensures
            s@ == index_by_key(rows@),
    {
        Self::from_entries(rows)
    }

    pub fn get(&self, id: u32) -> (r: Option<&AchievementCategoryEntry>)
        ensures
            r == (if self@.contains_key(id) {
                Some(&self@[id])
            } else {
                None
            }),
    {
        self.entries.get(&id)
    }

    pub fn len(&self) -> (n: usize)
        ensures
            n == self@.len(),
    {
        self.entries.len()
    }

    pub fn is_empty(&self) -> (b: bool)
        ensures
            b == self@.is_empty(),
    {
        self.entries.is_empty()
    }
}

/// Store of ContentTuning rows indexed by id.
pub struct ContentTuningStore {
    entries: HashMap<u32, ContentTuningEntry>,
}

impl View for ContentTuningStore {
    type V = Map<u32, ContentTuningEntry>;

    closed spec fn view(&self) -> Map<u32, ContentTuningEntry> {
        self.entries@
    }
}

impl ContentTuningStore {
    /// Builds the store; a later row replaces an earlier one with the same id.
    pub fn from_entries(entries: Vec<ContentTuningEntry>) -> (s: Self)
        ensures
            s@ == index_by_key(entries@),
    {
        ContentTuningStore { entries: build_index(entries) }
    }

    /// Builds the store from the rows of the ContentTuning table, in file order.
    pub fn load(rows: Vec<ContentTuningEntry>) -> (s: Self)
        ensures
            s@ == index_by_key(rows@),
    {
        Self::from_entries(rows)
    }

    pub fn get(&self, id: u32) -> (r: Option<&ContentTuningEntry>)
        ensures
            r == (if self@.contains_key(id) {
                Some(&self@[id])
            } else {
                None
            }),
    {
        self.entries.get(&id)
    }

    pub fn len(&self) -> (n: usize)
        ensures
            n == self@.len(),
    {
        self.entries.len()
    }

    pub fn is_empty(&self) -> (b: bool)
        ensures
            b == self@.is_empty(),
    {
        self.entries.is_empty()
    }
}

/// Store of CriteriaTree rows indexed by id.
pub struct CriteriaTreeStore {
    entries: HashMap<u32, CriteriaTreeEntry>,
}

impl View for CriteriaTreeStore {
    type V = Map<u32, CriteriaTreeEntry>;

    closed spec fn view(&self) -> Map<u32, CriteriaTreeEntry> {
        self.entries@
    }
}

impl CriteriaTreeStore {
    /// Builds the store; a later row replaces an earlier one with the same id.
    pub fn from_entries(entries: Vec<CriteriaTreeEntry>) -> (s: Self)
        ensures
            s@ == index_by_key(entries@),
    {
        CriteriaTreeStore { entries: build_index(entries) }
    }

    /// Builds the store from the rows of the CriteriaTree table, in file order.
    pub fn load(rows: Vec<CriteriaTreeEntry>) -> (s: Self)
        ensures
            s@ == index_by_key(rows@),
    {
        Self::from_entries(rows)
    }

    pub fn get(&self, id: u32) -> (r: Option<&CriteriaTreeEntry>)
        ensures
            r == (if self@.contains_key(id) {
                Some(&self@[id])
            } else {
                None
            }),
    {
        self.entries.get(&id)
    }

    pub fn len(&self) -> (n: usize)
        ensures
            n == self@.len(),
    {
        self.entries.len()
    }

    pub fn is_empty(&self) -> (b: bool)
        ensures
            b == self@.is_empty(),
    {
        self.entries.is_empty()
    }
}

/// Store of Curve rows indexed by id.
pub struct CurveStore {
    entries: HashMap<u32, CurveEntry>,
}

impl View for CurveStore {
    type V = Map<u32, CurveEntry>;

    closed spec fn view(&self) -> Map<u32, CurveEntry> {
        self.entries@
    }
}

impl CurveStore {
    /// Builds the store; a later row replaces an earlier one with the same id.
    pub fn from_entries(entries: Vec<CurveEntry>) -> (s: Self)
        ensures
            s@ == index_by_key(entries@),
    {
        CurveStore { entries: build_index(entries) }
    }

    /// Builds the store from the rows of the Curve table, in file order.
    pub fn load(rows: Vec<CurveEntry>) -> (s: Self)
        ensures
            s@ == index_by_key(rows@),
    {
        Self::from_entries(rows)
    }

    pub fn get(&self, id: u32) -> (r: Option<&CurveEntry>)
        ensures
            r == (if self@.contains_key(id) {
                Some(&self@[id])
            } else {
                None
            }),
    {
        self.entries.get(&id)
    }

    pub fn len(&self) -> (n: usize)
        ensures
            n == self@.len(),
    {
        self.entries.len()
    }

    pub fn is_empty(&self) -> (b: bool)
        ensures
            b == self@.is_empty(),
    {
        self.entries.is_empty()
    }
}

/// Store of CurvePoint rows indexed by id.
pub struct CurvePointStore {
    entries: HashMap<u32, CurvePointEntry>,
}

impl View for CurvePointStore {
    type V = Map<u32, CurvePointEntry>;

    closed spec fn view(&self) -> Map<u32, CurvePointEntry> {
        self.entries@
    }
}

impl CurvePointStore {
    /// Builds the store; a later row replaces an earlier one with the same id.
    pub fn from_entries(entries: Vec<CurvePointEntry>) -> (s: Self)
        ensures
            s@ == index_by_key(entries@),
    {
        CurvePointStore { entries: build_index(entries) }
    }

    /// Builds the store from the rows of the CurvePoint table, in file order.
    pub fn load(rows: Vec<CurvePointEntry>) -> (s: Self)
        ensures
            s@ == index_by_key(rows@),
    {
        Self::from_entries(rows)
    }

    pub fn get(&self, id: u32) -> (r: Option<&CurvePointEntry>)
        ensures
            r == (if self@.contains_key(id) {
                Some(&self@[id])
            } else {
                None
            }),
    {
        self.entries.get(&id)
    }

    pub fn len(&self) -> (n: usize)
        ensures
            n == self@.len(),
    {
        self.entries.len()
    }

    pub fn is_empty(&self) -> (b: bool)
        ensures
            b == self@.is_empty(),
    {
        self.entries.is_empty()
    }
}

/// Store of Faction rows indexed by id.
pub struct FactionStore {
    entries: HashMap<u32, FactionEntry>,
}

impl View for FactionStore {
    type V = Map<u32, FactionEntry>;

    closed spec fn view(&self) -> Map<u32, FactionEntry> {
        self.entries@
    }
}

impl FactionStore {
    /// Builds the store; a later row replaces an earlier one with the same id.
    pub fn from_entries(entries: Vec<FactionEntry>) -> (s: Self)
        ensures
            s@ == index_by_key(entries@),
    {
        FactionStore { entries: build_index(entries) }
    }

    /// Builds the store from the rows of the Faction table, in file order.
    pub fn load(rows: Vec<FactionEntry>) -> (s: Self)
        ensures
            s@ == index_by_key(rows@),
    {
        Self::from_entries(rows)
    }

    pub fn get(&self, id: u32) -> (r: Option<&FactionEntry>)
        ensures
            r == (if self@.contains_key(id) {
                Some(&self@[id])
            } else {
                None
            }),
    {
        self.entries.get(&id)
    }

    pub fn len(&self) -> (n: usize)
        ensures
            n == self@.len(),
    {
        self.entries.len()
    }

    pub fn is_empty(&self) -> (b: bool)
        ensures
            b == self@.is_empty(),
    {
        self.entries.is_empty()
    }
}

/// Store of FactionTemplate rows indexed by id.
pub struct FactionTemplateStore {
    entries: HashMap<u32, FactionTemplateEntry>,
}

impl View for FactionTemplateStore {
    type V = Map<u32, FactionTemplateEntry>;

    closed spec fn view(&self) -> Map<u32, FactionTemplateEntry> {
        self.entries@
    }
}

impl FactionTemplateStore {
    /// Builds the store; a later row replaces an earlier one with the same id.
    pub fn from_entries(entries: Vec<FactionTemplateEntry>) -> (s: Self)
        ensures
            s@ == index_by_key(entries@),
    {
        FactionTemplateStore { entries: build_index(entries) }
    }

    /// Builds the store from the rows of the FactionTemplate table, in file order.
    pub fn load(rows: Vec<FactionTemplateEntry>) -> (s: Self)
        ensures
            s@ == index_by_key(rows@),
    {
        Self::from_entries(rows)
    }

    pub fn get(&self, id: u32) -> (r: Option<&FactionTemplateEntry>)
        ensures
            r == (if self@.contains_key(id) {
                Some(&self@[id])
            } else {
                None
            }),
    {
        self.entries.get(&id)
    }

    pub fn len(&self) -> (n: usize)
        ensures
            n == self@.len(),
    {
        self.entries.len()
    }

    pub fn is_empty(&self) -> (b: bool)
        ensures
            b == self@.is_empty(),
    {
        self.entries.is_empty()
    }
}

/// Store of FriendshipRepReaction rows indexed by id.
pub struct FriendshipRepReactionStore {
    entries: HashMap<u32, FriendshipRepReactionEntry>,
}

impl View for FriendshipRepReactionStore {
    type V = Map<u32, FriendshipRepReactionEntry>;

    closed spec fn view(&self) -> Map<u32, FriendshipRepReactionEntry> {
        self.entries@
    }
}

impl FriendshipRepReactionStore {
    /// Builds the store; a later row replaces an earlier one with the same id.
    pub fn from_entries(entries: Vec<FriendshipRepReactionEntry>) -> (s: Self)
        ensures
            s@ == index_by_key(entries@),
    {
        FriendshipRepReactionStore { entries: build_index(entries) }
    }

    /// Builds the store from the rows of the FriendshipRepReaction table, in file order.
    pub fn load(rows: Vec<FriendshipRepReactionEntry>) -> (s: Self)
        ensures
            s@ == index_by_key(rows@),
    {
        Self::from_entries(rows)
    }

    pub fn get(&self, id: u32) -> (r: Option<&FriendshipRepReactionEntry>)
        ensures
            r == (if self@.contains_key(id) {
                Some(&self@[id])
            } else {
                None
            }),
    {
        self.entries.get(&id)
    }

    pub fn len(&self) -> (n: usize)
        ensures
            n == self@.len(),
    {
        self.entries.len()
    }

    pub fn is_empty(&self) -> (b: bool)
        ensures
            b == self@.is_empty(),
    {
        self.entries.is_empty()
    }
}

/// Store of FriendshipReputation rows indexed by id.
pub struct FriendshipReputationStore {
    entries: HashMap<u32, FriendshipReputationEntry>,
}

impl View for FriendshipReputationStore {
    type V = Map<u32, FriendshipReputationEntry>;

    closed spec fn view(&self) -> Map<u32, FriendshipReputationEntry> {
        self.entries@
    }
}

impl FriendshipReputationStore {
    /// Builds the store; a later row replaces an earlier one with the same id.
    pub fn from_entries(entries: Vec<FriendshipReputationEntry>) -> (s: Self)
        ensures
            s@ == index_by_key(entries@),
    {
        FriendshipReputationStore { entries: build_index(entries) }
    }

    /// Builds the store from the rows of the FriendshipReputation table, in file order.
    pub fn load(rows: Vec<FriendshipReputationEntry>) -> (s: Self)
        ensures
            s@ == index_by_key(rows@),
    {
        Self::from_entries(rows)
    }

    pub fn get(&self, id: u32) -> (r: Option<&FriendshipReputationEntry>)
        ensures
            r == (if self@.contains_key(id) {
                Some(&self@[id])
            } else {
                None
            }),
    {
        self.entries.get(&id)
    }

    pub fn len(&self) -> (n: usize)
        ensures
            n == self@.len(),
    {
        self.entries.len()
    }

    pub fn is_empty(&self) -> (b: bool)
        ensures
            b == self@.is_empty(),
    {
        self.entries.is_empty()
    }
}

/// Store of ModifierTree rows indexed by id.
pub struct ModifierTreeStore {
    entries: HashMap<u32, ModifierTreeEntry>,
}

impl View for ModifierTreeStore {
    type V = Map<u32, ModifierTreeEntry>;

    closed spec fn view(&self) -> Map<u32, ModifierTreeEntry> {
        self.entries@
    }
}

impl ModifierTreeStore {
    /// Builds the store; a later row replaces an earlier one with the same id.
    pub fn from_entries(entries: Vec<ModifierTreeEntry>) -> (s: Self)
        ensures
            s@ == index_by_key(entries@),
    {
        ModifierTreeStore { entries: build_index(entries) }
    }

    /// Builds the store from the rows of the ModifierTree table, in file order.
    pub fn load(rows: Vec<ModifierTreeEntry>) -> (s: Self)
        ensures
            s@ == index_by_key(rows@),
    {
        Self::from_entries(rows)
    }

    pub fn get(&self, id: u32) -> (r: Option<&ModifierTreeEntry>)
        ensures
            r == (if self@.contains_key(id) {
                Some(&self@[id])
            } else {
                None
            }),
    {
        self.entries.get(&id)
    }

    pub fn len(&self) -> (n: usize)
        ensures
            n == self@.len(),
    {
        self.entries.len()
    }

    pub fn is_empty(&self) -> (b: bool)
        ensures
            b == self@.is_empty(),
    {
        self.entries.is_empty()
    }
}

/// Store of NumTalentsAtLevel rows indexed by id.
pub struct NumTalentsAtLevelStore {
    entries: HashMap<u32, NumTalentsAtLevelEntry>,
}

impl View for NumTalentsAtLevelStore {
    type V = Map<u32, NumTalentsAtLevelEntry>;

    closed spec fn view(&self) -> Map<u32, NumTalentsAtLevelEntry> {
        self.entries@
    }
}

impl NumTalentsAtLevelStore {
    /// Builds the store; a later row replaces an earlier one with the same id.
    pub fn from_entries(entries: Vec<NumTalentsAtLevelEntry>) -> (s: Self)
        ensures
            s@ == index_by_key(entries@),
    {
        NumTalentsAtLevelStore { entries: build_index(entries) }
    }

    /// Builds the store from the rows of the NumTalentsAtLevel table, in file order.
    pub fn load(rows: Vec<NumTalentsAtLevelEntry>) -> (s: Self)
        ensures
            s@ == index_by_key(rows@),
    {
        Self::from_entries(rows)
    }

    pub fn get(&self, id: u32) -> (r: Option<&NumTalentsAtLevelEntry>)
        ensures
            r == (if self@.contains_key(id) {
                Some(&self@[id])
            } else {
                None
            }),
    {
        self.entries.get(&id)
    }

    pub fn len(&self) -> (n: usize)
        ensures
            n == self@.len(),
    {
        self.entries.len()
    }

    pub fn is_empty(&self) -> (b: bool)
        ensures
            b == self@.is_empty(),
    {
        self.entries.is_empty()
    }
}

/// Store of ParagonReputation rows indexed by id.
pub struct ParagonReputationStore {
    entries: HashMap<u32, ParagonReputationEntry>,
}

impl View for ParagonReputationStore {
    type V = Map<u32, ParagonReputationEntry>;

    closed spec fn view(&self) -> Map<u32, ParagonReputationEntry> {
        self.entries@
    }
}

impl ParagonReputationStore {
    /// Builds the store; a later row replaces an earlier one with the same id.
    pub fn from_entries(entries: Vec<ParagonReputationEntry>) -> (s: Self)
        ensures
            s@ == index_by_key(entries@),
    {
        ParagonReputationStore { entries: build_index(entries) }
    }

    /// Builds the store from the rows of the ParagonReputation table, in file order.
    pub fn load(rows: Vec<ParagonReputationEntry>) -> (s: Self)
        ensures
            s@ == index_by_key(rows@),
    {
        Self::from_entries(rows)
    }

    pub fn get(&self, id: u32) -> (r: Option<&ParagonReputationEntry>)
        ensures
            r == (if self@.contains_key(id) {
                Some(&self@[id])
            } else {
                None
            }),
    {
        self.entries.get(&id)
    }

    pub fn len(&self) -> (n: usize)
        ensures
            n == self@.len(),
    {
        self.entries.len()
    }

    pub fn is_empty(&self) -> (b: bool)
        ensures
            b == self@.is_empty(),
    {
        self.entries.is_empty()
    }
}

/// Store of QuestFactionReward rows indexed by id.
pub struct QuestFactionRewardStore {
    entries: HashMap<u32, QuestFactionRewardEntry>,
}

impl View for QuestFactionRewardStore {
    type V = Map<u32, QuestFactionRewardEntry>;

    closed spec fn view(&self) -> Map<u32, QuestFactionRewardEntry> {
        self.entries@
    }
}

impl QuestFactionRewardStore {
    /// Builds the store; a later row replaces an earlier one with the same id.
    pub fn from_entries(entries: Vec<QuestFactionRewardEntry>) -> (s: Self)
        ensures
            s@ == index_by_key(entries@),
    {
        QuestFactionRewardStore { entries: build_index(entries) }
    }

    /// Builds the store from the rows of the QuestFactionReward table, in file order.
    pub fn load(rows: Vec<QuestFactionRewardEntry>) -> (s: Self)
        ensures
            s@ == index_by_key(rows@),
    {
        Self::from_entries(rows)
    }

    pub fn get(&self, id: u32) -> (r: Option<&QuestFactionRewardEntry>)
        ensures
            r == (if self@.contains_key(id) {
                Some(&self@[id])
            } else {
                None
            }),
    {
        self.entries.get(&id)
    }

    pub fn len(&self) -> (n: usize)
        ensures
            n == self@.len(),
    {
        self.entries.len()
    }

    pub fn is_empty(&self) -> (b: bool)
        ensures
            b == self@.is_empty(),
    {
        self.entries.is_empty()
    }
}

/// Store of QuestInfo rows indexed by id.
pub struct QuestInfoStore {
    entries: HashMap<u32, QuestInfoEntry>,
}

impl View for QuestInfoStore {
    type V = Map<u32, QuestInfoEntry>;

    closed spec fn view(&self) -> Map<u32, QuestInfoEntry> {
        self.entries@
    }
}

impl QuestInfoStore {
    /// Builds the store; a later row replaces an earlier one with the same id.
    pub fn from_entries(entries: Vec<QuestInfoEntry>) -> (s: Self)
        ensures
            s@ == index_by_key(entries@),
    {
        QuestInfoStore { entries: build_index(entries) }
    }

    /// Builds the store from the rows of the QuestInfo table, in file order.
    pub fn load(rows: Vec<QuestInfoEntry>) -> (s: Self)
        ensures
            s@ == index_by_key(rows@),
    {
        Self::from_entries(rows)
    }

    pub fn get(&self, id: u32) -> (r: Option<&QuestInfoEntry>)
        ensures
            r == (if self@.contains_key(id) {
                Some(&self@[id])
            } else {
                None
            }),
    {
        self.entries.get(&id)
    }

    pub fn len(&self) -> (n: usize)
        ensures
            n == self@.len(),
    {
        self.entries.len()
    }

    pub fn is_empty(&self) -> (b: bool)
        ensures
            b == self@.is_empty(),
    {
        self.entries.is_empty()
    }
}

/// Store of QuestLineXQuest rows indexed by id.
pub struct QuestLineXQuestStore {
    entries: HashMap<u32, QuestLineXQuestEntry>,
}

impl View for QuestLineXQuestStore {
    type V = Map<u32, QuestLineXQuestEntry>;

    closed spec fn view(&self) -> Map<u32, QuestLineXQuestEntry> {
        self.entries@
    }
}

impl QuestLineXQuestStore {
    /// Builds the store; a later row replaces an earlier one with the same id.
    pub fn from_entries(entries: Vec<QuestLineXQuestEntry>) -> (s: Self)
        ensures
            s@ == index_by_key(entries@),
    {
        QuestLineXQuestStore { entries: build_index(entries) }
    }

    /// Builds the store from the rows of the QuestLineXQuest table, in file order.
    pub fn load(rows: Vec<QuestLineXQuestEntry>) -> (s: Self)
        ensures
            s@ == index_by_key(rows@),
    {
        Self::from_entries(rows)
    }

    pub fn get(&self, id: u32) -> (r: Option<&QuestLineXQuestEntry>)
        ensures
            r == (if self@.contains_key(id) {
                Some(&self@[id])
            } else {
                None
            }),
    {
        self.entries.get(&id)
    }

    pub fn len(&self) -> (n: usize)
        ensures
            n == self@.len(),
    {
        self.entries.len()
    }

    pub fn is_empty(&self) -> (b: bool)
        ensures
            b == self@.is_empty(),
    {
        self.entries.is_empty()
    }
}

/// Store of QuestMoneyReward rows indexed by id.
pub struct QuestMoneyRewardStore {
    entries: HashMap<u32, QuestMoneyRewardEntry>,
}

impl View for QuestMoneyRewardStore {
    type V = Map<u32, QuestMoneyRewardEntry>;

    closed spec fn view(&self) -> Map<u32, QuestMoneyRewardEntry> {
        self.entries@
    }
}

impl QuestMoneyRewardStore {
    /// Builds the store; a later row replaces an earlier one with the same id.
    pub fn from_entries(entries: Vec<QuestMoneyRewardEntry>) -> (s: Self)
        ensures
            s@ == index_by_key(entries@),
    {
        QuestMoneyRewardStore { entries: build_index(entries) }
    }

    /// Builds the store from the rows of the QuestMoneyReward table, in file order.
    pub fn load(rows: Vec<QuestMoneyRewardEntry>) -> (s: Self)
        ensures
            s@ == index_by_key(rows@),
    {
        Self::from_entries(rows)
    }

    pub fn get(&self, id: u32) -> (r: Option<&QuestMoneyRewardEntry>)
        ensures
            r == (if self@.contains_key(id) {
                Some(&self@[id])
            } else {
                None
            }),
    {
        self.entries.get(&id)
    }

    pub fn len(&self) -> (n: usize)
        ensures
            n == self@.len(),
    {
        self.entries.len()
    }

    pub fn is_empty(&self) -> (b: bool)
        ensures
            b == self@.is_empty(),
    {
        self.entries.is_empty()
    }
}

/// Store of QuestPackageItem rows indexed by id.
pub struct QuestPackageItemStore {
    entries: HashMap<u32, QuestPackageItemEntry>,
}

impl View for QuestPackageItemStore {
    type V = Map<u32, QuestPackageItemEntry>;

    closed spec fn view(&self) -> Map<u32, QuestPackageItemEntry> {
        self.entries@
    }
}

/// The two package queries split a package: every item of the package is
/// given by exactly one of them, and neither gives an item of another
/// package.
pub proof fn lemma_package_queries_split(e: QuestPackageItemEntry, package_id: u32)
    ensures
        (is_primary_package_item(e, package_id) || is_fallback_package_item(e, package_id)) == (e.package_id as u32
            == package_id),
        !(is_primary_package_item(e, package_id) && is_fallback_package_item(e, package_id)),
{
}

impl QuestPackageItemStore {
    /// Builds the store; a later row replaces an earlier one with the same id.
    pub fn from_entries(entries: Vec<QuestPackageItemEntry>) -> (s: Self)
        ensures
            s@ == index_by_key(entries@),
    {
        QuestPackageItemStore { entries: build_index(entries) }
    }

    /// Builds the store from the rows of the QuestPackageItem table, in file order.
    pub fn load(rows: Vec<QuestPackageItemEntry>) -> (s: Self)
        ensures
            s@ == index_by_key(rows@),
    {
        Self::from_entries(rows)
    }

    pub fn get(&self, id: u32) -> (r: Option<&QuestPackageItemEntry>)
        ensures
            r == (if self@.contains_key(id) {
                Some(&self@[id])
            } else {
                None
            }),
    {
        self.entries.get(&id)
    }

    pub fn len(&self) -> (n: usize)
        ensures
            n == self@.len(),
    {
        self.entries.len()
    }

    pub fn is_empty(&self) -> (b: bool)
        ensures
            b == self@.is_empty(),
    {
        self.entries.is_empty()
    }
}

/// Store of QuestSort rows indexed by id.
pub struct QuestSortStore {
    entries: HashMap<u32, QuestSortEntry>,
}

impl View for QuestSortStore {
    type V = Map<u32, QuestSortEntry>;

    closed spec fn view(&self) -> Map<u32, QuestSortEntry> {
        self.entries@
    }
}

impl QuestSortStore {
    /// Builds the store; a later row replaces an earlier one with the same id.
    pub fn from_entries(entries: Vec<QuestSortEntry>) -> (s: Self)
        ensures
            s@ == index_by_key(entries@),
    {
        QuestSortStore { entries: build_index(entries) }
    }

    /// Builds the store from the rows of the QuestSort table, in file order.
    pub fn load(rows: Vec<QuestSortEntry>) -> (s: Self)
        ensures
            s@ == index_by_key(rows@),
    {
        Self::from_entries(rows)
    }

    pub fn get(&self, id: u32) -> (r: Option<&QuestSortEntry>)
        ensures
            r == (if self@.contains_key(id) {
                Some(&self@[id])
            } else {
                None
            }),
    {
        self.entries.get(&id)
    }

    pub fn len(&self) -> (n: usize)
        ensures
            n == self@.len(),
    {
        self.entries.len()
    }

    pub fn is_empty(&self) -> (b: bool)
        ensures
            b == self@.is_empty(),
    {
        self.entries.is_empty()
    }
}

/// Store of QuestV2 rows indexed by id.
pub struct QuestV2Store {
    entries: HashMap<u32, QuestV2Entry>,
}

impl View for QuestV2Store {
    type V = Map<u32, QuestV2Entry>;

    closed spec fn view(&self) -> Map<u32, QuestV2Entry> {
        self.entries@
    }
}

impl QuestV2Store {
    /// Builds the store; a later row replaces an earlier one with the same id.
    pub fn from_entries(entries: Vec<QuestV2Entry>) -> (s: Self)
        ensures
            s@ == index_by_key(entries@),
    {
        QuestV2Store { entries: build_index(entries) }
    }

    /// Builds the store from the rows of the QuestV2 table, in file order.
    pub fn load(rows: Vec<QuestV2Entry>) -> (s: Self)
        ensures
            s@ == index_by_key(rows@),
    {
        Self::from_entries(rows)
    }

    pub fn get(&self, id: u32) -> (r: Option<&QuestV2Entry>)
        ensures
            r == (if self@.contains_key(id) {
                Some(&self@[id])
            } else {
                None
            }),
    {
        self.entries.get(&id)
    }

    pub fn len(&self) -> (n: usize)
        ensures
            n == self@.len(),
    {
        self.entries.len()
    }

    pub fn is_empty(&self) -> (b: bool)
        ensures
            b == self@.is_empty(),
    {
        self.entries.is_empty()
    }
}

/// Store of RewardPack rows indexed by id.
pub struct RewardPackStore {
    entries: HashMap<u32, RewardPackEntry>,
}

impl View for RewardPackStore {
    type V = Map<u32, RewardPackEntry>;

    closed spec fn view(&self) -> Map<u32, RewardPackEntry> {
        self.entries@
    }
}

impl RewardPackStore {
    /// Builds the store; a later row replaces an earlier one with the same id.
    pub fn from_entries(entries: Vec<RewardPackEntry>) -> (s: Self)
        ensures
            s@ == index_by_key(entries@),
    {
        RewardPackStore { entries: build_index(entries) }
    }

    /// Builds the store from the rows of the RewardPack table, in file order.
    pub fn load(rows: Vec<RewardPackEntry>) -> (s: Self)
        ensures
            s@ == index_by_key(rows@),
    {
        Self::from_entries(rows)
    }

    pub fn get(&self, id: u32) -> (r: Option<&RewardPackEntry>)
        ensures
            r == (if self@.contains_key(id) {
                Some(&self@[id])
            } else {
                None
            }),
    {
        self.entries.get(&id)
    }

    pub fn len(&self) -> (n: usize)
        ensures
            n == self@.len(),
    {
        self.entries.len()
    }

    pub fn is_empty(&self) -> (b: bool)
        ensures
            b == self@.is_empty(),
    {
        self.entries.is_empty()
    }
}

/// Store of RewardPackXCurrencyType rows indexed by id.
pub struct RewardPackXCurrencyTypeStore {
    entries: HashMap<u32, RewardPackXCurrencyTypeEntry>,
}

impl View for RewardPackXCurrencyTypeStore {
    type V = Map<u32, RewardPackXCurrencyTypeEntry>;

    closed spec fn view(&self) -> Map<u32, RewardPackXCurrencyTypeEntry> {
        self.entries@
    }
}

impl RewardPackXCurrencyTypeStore {
    /// Builds the store; a later row replaces an earlier one with the same id.
    pub fn from_entries(entries: Vec<RewardPackXCurrencyTypeEntry>) -> (s: Self)
        ensures
            s@ == index_by_key(entries@),
    {
        RewardPackXCurrencyTypeStore { entries: build_index(entries) }
    }

    /// Builds the store from the rows of the RewardPackXCurrencyType table, in file order.
    pub fn load(rows: Vec<RewardPackXCurrencyTypeEntry>) -> (s: Self)
        ensures
            s@ == index_by_key(rows@),
    {
        Self::from_entries(rows)
    }

    pub fn get(&self, id: u32) -> (r: Option<&RewardPackXCurrencyTypeEntry>)
        ensures
            r == (if self@.contains_key(id) {
                Some(&self@[id])
            } else {
                None
            }),
    {
        self.entries.get(&id)
    }

    pub fn len(&self) -> (n: usize)
        ensures
            n == self@.len(),
    {
        self.entries.len()
    }

    pub fn is_empty(&self) -> (b: bool)
        ensures
            b == self@.is_empty(),
    {
        self.entries.is_empty()
    }
}

/// Store of RewardPackXItem rows indexed by id.
pub struct RewardPackXItemStore {
    entries: HashMap<u32, RewardPackXItemEntry>,
}

impl View for RewardPackXItemStore {
    type V = Map<u32, RewardPackXItemEntry>;

    closed spec fn view(&self) -> Map<u32, RewardPackXItemEntry> {
        self.entries@
    }
}

impl RewardPackXItemStore {
    /// Builds the store; a later row replaces an earlier one with the same id.
    pub fn from_entries(entries: Vec<RewardPackXItemEntry>) -> (s: Self)
        ensures
            s@ == index_by_key(entries@),
    {
        RewardPackXItemStore { entries: build_index(entries) }
    }

    /// Builds the store from the rows of the RewardPackXItem table, in file order.
    pub fn load(rows: Vec<RewardPackXItemEntry>) -> (s: Self)
        ensures
            s@ == index_by_key(rows@),
    {
        Self::from_entries(rows)
    }

    pub fn get(&self, id: u32) -> (r: Option<&RewardPackXItemEntry>)
        ensures
            r == (if self@.contains_key(id) {
                Some(&self@[id])
            } else {
                None
            }),
    {
        self.entries.get(&id)
    }

    pub fn len(&self) -> (n: usize)
        ensures
            n == self@.len(),
    {
        self.entries.len()
    }

    pub fn is_empty(&self) -> (b: bool)
        ensures
            b == self@.is_empty(),
    {
        self.entries.is_empty()
    }
}

/// Store of ScalingStatDistribution rows indexed by id.
pub struct ScalingStatDistributionStore {
    entries: HashMap<u32, ScalingStatDistributionEntry>,
}

impl View for ScalingStatDistributionStore {
    type V = Map<u32, ScalingStatDistributionEntry>;

    closed spec fn view(&self) -> Map<u32, ScalingStatDistributionEntry> {
        self.entries@
    }
}

impl ScalingStatDistributionStore {
    /// Builds the store; a later row replaces an earlier one with the same id.
    pub fn from_entries(entries: Vec<ScalingStatDistributionEntry>) -> (s: Self)
        ensures
            s@ == index_by_key(entries@),
    {
        ScalingStatDistributionStore { entries: build_index(entries) }
    }

    /// Builds the store from the rows of the ScalingStatDistribution table, in file order.
    pub fn load(rows: Vec<ScalingStatDistributionEntry>) -> (s: Self)
        ensures
            s@ == index_by_key(rows@),
    {
        Self::from_entries(rows)
    }

    pub fn get(&self, id: u32) -> (r: Option<&ScalingStatDistributionEntry>)
        ensures
            r == (if self@.contains_key(id) {
                Some(&self@[id])
            } else {
                None
            }),
    {
        self.entries.get(&id)
    }

    pub fn len(&self) -> (n: usize)
        ensures
            n == self@.len(),
    {
        self.entries.len()
    }

    pub fn is_empty(&self) -> (b: bool)
        ensures
            b == self@.is_empty(),
    {
        self.entries.is_empty()
    }
}

/// Store of ScalingStatValues rows indexed by id.
pub struct ScalingStatValuesStore {
    entries: HashMap<u32, ScalingStatValuesEntry>,
}

impl View for ScalingStatValuesStore {
    type V = Map<u32, ScalingStatValuesEntry>;

    closed spec fn view(&self) -> Map<u32, ScalingStatValuesEntry> {
        self.entries@
    }
}

impl ScalingStatValuesStore {
    /// Builds the store; a later row replaces an earlier one with the same id.
    pub fn from_entries(entries: Vec<ScalingStatValuesEntry>) -> (s: Self)
        ensures
            s@ == index_by_key(entries@),
    {
        ScalingStatValuesStore { entries: build_index(entries) }
    }

    /// Builds the store from the rows of the ScalingStatValues table, in file order.
    pub fn load(rows: Vec<ScalingStatValuesEntry>) -> (s: Self)
        ensures
            s@ == index_by_key(rows@),
    {
        Self::from_entries(rows)
    }

    pub fn get(&self, id: u32) -> (r: Option<&ScalingStatValuesEntry>)
        ensures
            r == (if self@.contains_key(id) {
                Some(&self@[id])
            } else {
                None
            }),
    {
        self.entries.get(&id)
    }

    pub fn len(&self) -> (n: usize)
        ensures
            n == self@.len(),
    {
        self.entries.len()
    }

    pub fn is_empty(&self) -> (b: bool)
        ensures
            b == self@.is_empty(),
    {
        self.entries.is_empty()
    }
}

impl FactionEntry {
    /// A faction with the given id and reputation index and every other field
    /// zero.
    pub fn for_test_like_cpp(id: u32, reputation_index: i16) -> (e: Self)
        ensures
            e.id == id,
            e.reputation_index == reputation_index,
            e.reputation_race_mask@ == seq![0i64, 0, 0, 0],
            e.parent_faction_id == 0,
            e.friendship_rep_id == 0,
            e.flags == 0,
            e.paragon_faction_id == 0,
            e.renown_faction_id == 0,
            e.renown_currency_id == 0,
            e.reputation_class_mask@ == seq![0i16, 0, 0, 0],
            e.reputation_flags@ == seq![0u16, 0, 0, 0],
            e.reputation_base@ == seq![0i32, 0, 0, 0],
            e.reputation_max@ == seq![0i32, 0, 0, 0],
            e.parent_faction_mod@ == seq![0u32, 0],
            e.parent_faction_cap@ == seq![0u8, 0],
    {
        FactionEntry {
            id,
            reputation_race_mask: [0, 0, 0, 0],
            reputation_index,
            parent_faction_id: 0,
            friendship_rep_id: 0,
            flags: 0,
            paragon_faction_id: 0,
            renown_faction_id: 0,
            renown_currency_id: 0,
            reputation_class_mask: [0, 0, 0, 0],
            reputation_flags: [0, 0, 0, 0],
            reputation_base: [0, 0, 0, 0],
            reputation_max: [0, 0, 0, 0],
            parent_faction_mod: [0, 0],
            parent_faction_cap: [0, 0],
        }
    }

    /// A faction can have reputation when its reputation index is not negative.
    pub fn can_have_reputation_like_cpp(&self) -> (b: bool)
        ensures
            b == (self.reputation_index >= 0),
    {
        self.reputation_index >= 0
    }
}

/// Whether one of the eight faction slots names `faction`.
fn slots_contain(slots: &[u16; 8], faction: u16) -> (b: bool)
    ensures
        b == slots@.contains(faction),
{
    let mut i: usize = 0;
    while i < 8
        invariant
            i <= 8,
            slots@.len() == 8,
            forall|j: int| 0 <= j < i ==> slots@[j] != faction,
        decreases 8 - i,
    {
        if slots[i] == faction {
            proof {
                assert(slots@[i as int] == faction);
            }
            return true;
        }
        i = i + 1;
    }
    false
}

/// Whether template `a` is friendly to template `b`: a template is friendly
/// to itself; otherwise `b`'s faction decides when `a` lists it as an enemy
/// (not friendly) or a friend (friendly), enemies first; otherwise the
/// friend and faction groups decide.
pub open spec fn spec_is_friendly_to(a: FactionTemplateEntry, b: FactionTemplateEntry) -> bool {
    if a.id == b.id {
        true
    } else if b.faction != 0 && a.enemies@.contains(b.faction) {
        false
    } else if b.faction != 0 && a.friend@.contains(b.faction) {
        true
    } else {
        (a.friend_group & b.faction_group) != 0 || (a.faction_group & b.friend_group) != 0
    }
}

/// Whether template `a` is hostile to template `b`: never to itself;
/// otherwise `b`'s faction decides when `a` lists it as an enemy (hostile) or
/// a friend (not hostile), enemies first; otherwise the enemy group decides.
pub open spec fn spec_is_hostile_to(a: FactionTemplateEntry, b: FactionTemplateEntry) -> bool {
    if a.id == b.id {
        false
    } else if b.faction != 0 && a.enemies@.contains(b.faction) {
        true
    } else if b.faction != 0 && a.friend@.contains(b.faction) {
        false
    } else {
        (a.enemy_group & b.faction_group) != 0
    }
}

impl FactionTemplateEntry {
    pub fn is_friendly_to_like_cpp(&self, entry: &Self) -> (b: bool)
        ensures
            b == spec_is_friendly_to(*self, *entry),
    {
        if self.id == entry.id {
            return true;
        }
        if entry.faction != 0 {
            if slots_contain(&self.enemies, entry.faction) {
                return false;
            }
            if slots_contain(&self.friend, entry.faction) {
                return true;
            }
        }
        (self.friend_group & entry.faction_group) != 0 || (self.faction_group & entry.friend_group)
            != 0
    }

    pub fn is_hostile_to_like_cpp(&self, entry: &Self) -> (b: bool)
        ensures
            b == spec_is_hostile_to(*self, *entry),
    {
        if self.id == entry.id {
            return false;
        }
        if entry.faction != 0 {
            if slots_contain(&self.enemies, entry.faction) {
                return true;
            }
            if slots_contain(&self.friend, entry.faction) {
                return false;
            }
        }
        (self.enemy_group & entry.faction_group) != 0
    }

    pub fn is_hostile_to_players_like_cpp(&self) -> (b: bool)
        ensures
            b == ((self.enemy_group & FACTION_MASK_PLAYER_LIKE_CPP) != 0),
    {
        (self.enemy_group & FACTION_MASK_PLAYER_LIKE_CPP) != 0
    }

    /// Neutral to all: no enemy faction and no enemy or friend group.
    pub fn is_neutral_to_all_like_cpp(&self) -> (b: bool)
        ensures
            b == ((forall|i: int| 0 <= i < 8 ==> self.enemies@[i] == 0) && self.enemy_group == 0
                && self.friend_group == 0),
    {
        let mut i: usize = 0;
        while i < 8
            invariant
                i <= 8,
                self.enemies@.len() == 8,
                forall|j: int| 0 <= j < i ==> self.enemies@[j] == 0,
            decreases 8 - i,
        {
            if self.enemies[i] != 0 {
                return false;
            }
            i = i + 1;
        }
        self.enemy_group == 0 && self.friend_group == 0
    }

    pub fn is_contested_guard_faction_like_cpp(&self) -> (b: bool)
        ensures
            b == ((self.flags & FACTION_TEMPLATE_FLAG_CONTESTED_GUARD_LIKE_CPP) != 0),
    {
        (self.flags & FACTION_TEMPLATE_FLAG_CONTESTED_GUARD_LIKE_CPP) != 0
    }

    pub fn is_hostile_by_default_like_cpp(&self) -> (b: bool)
        ensures
            b == ((self.flags & FACTION_TEMPLATE_FLAG_HOSTILE_BY_DEFAULT_LIKE_CPP) != 0),
    {
        (self.flags & FACTION_TEMPLATE_FLAG_HOSTILE_BY_DEFAULT_LIKE_CPP) != 0
    }
}

/// `vs` lists the factions of `m` whose parent is `faction_id`, and `ids`
/// holds their ids, as many times each as they occur there.
pub open spec fn team_listing(
    m: Map<u32, FactionEntry>,
    faction_id: u32,
    vs: Seq<&FactionEntry>,
    ids: Seq<u32>,
) -> bool {
    &&& lists_values_where(m, vs, |e: FactionEntry| e.parent_faction_id as u32 == faction_id)
    &&& ids.to_multiset() == vs.map_values(|e: &FactionEntry| e.id).to_multiset()
}

impl FactionStore {
    /// All stored factions, each once, in no particular order.
    pub fn iter(&self) -> (r: Vec<&FactionEntry>)
        ensures
            lists_values_where(self@, r@, |e: FactionEntry| true),
    {
        let keep = |e: &FactionEntry| -> (b: bool)
            ensures
                b,
            { true };
        index_values_where(&self.entries, keep, Ghost(|e: FactionEntry| true))
    }

    /// The ids of the factions whose parent is `faction_id`, in ascending
    /// order.
    pub fn faction_team_list_like_cpp(&self, faction_id: u32) -> (r: Vec<u32>)
        ensures
            is_ascending(r@),
            exists|vs: Seq<&FactionEntry>| #[trigger] team_listing(self@, faction_id, vs, r@),
    {
        let keep = |e: &FactionEntry| -> (b: bool)
            ensures
                b == (e.parent_faction_id as u32 == faction_id),
            { e.parent_faction_id as u32 == faction_id };
        let team = index_values_where(
            &self.entries,
            keep,
            Ghost(|e: FactionEntry| e.parent_faction_id as u32 == faction_id),
        );
        let mut ids: Vec<u32> = Vec::new();
        let mut i: usize = 0;
        while i < team.len()
            invariant
                i <= team@.len(),
                ids@ == team@.take(i as int).map_values(|e: &FactionEntry| e.id),
            decreases team@.len() - i,
        {
            ids.push(team[i].id);
            proof {
                assert(team@.take(i + 1).map_values(|e: &FactionEntry| e.id) =~= team@.take(
                    i as int,
                ).map_values(|e: &FactionEntry| e.id).push(team@[i as int].id));
            }
            i = i + 1;
        }
        proof {
            assert(team@.take(team@.len() as int) =~= team@);
        }
        let r = sort_ascending(ids);
        proof {
            assert(team_listing(self@, faction_id, team@, r@));
        }
        r
    }
}

/// `s` is ordered by reaction threshold, lowest first.
pub open spec fn by_threshold(s: Seq<&FriendshipRepReactionEntry>) -> bool {
    forall|i: int, j: int| 0 <= i < j < s.len() ==> s[i].reaction_threshold <= s[j].reaction_threshold
}

/// `vs` lists the reactions of `m` that belong to `friendship_rep_id`, and
/// `r` holds the same reactions.
pub open spec fn reaction_listing(
    m: Map<u32, FriendshipRepReactionEntry>,
    friendship_rep_id: u8,
    vs: Seq<&FriendshipRepReactionEntry>,
    r: Seq<&FriendshipRepReactionEntry>,
) -> bool {
    &&& lists_values_where(
        m,
        vs,
        |e: FriendshipRepReactionEntry| e.friendship_rep_id == friendship_rep_id,
    )
    &&& r.to_multiset() == vs.to_multiset()
}

impl FriendshipRepReactionStore {
    /// The reactions of a friendship reputation, ordered by threshold, lowest
    /// first (reactions with equal thresholds in no particular order).
    pub fn reactions_for_friendship_rep_like_cpp(&self, friendship_rep_id: u8) -> (r: Vec<
        &FriendshipRepReactionEntry,
    >)
        ensures
            by_threshold(r@),
            exists|vs: Seq<&FriendshipRepReactionEntry>| #[trigger] reaction_listing(
                self@,
                friendship_rep_id,
                vs,
                r@,
            ),
    {
        let keep = |e: &FriendshipRepReactionEntry| -> (b: bool)
            ensures
                b == (e.friendship_rep_id == friendship_rep_id),
            { e.friendship_rep_id == friendship_rep_id };
        let found = index_values_where(
            &self.entries,
            keep,
            Ghost(|e: FriendshipRepReactionEntry| e.friendship_rep_id == friendship_rep_id),
        );
        let mut r: Vec<&FriendshipRepReactionEntry> = Vec::new();
        let mut i: usize = 0;
        proof {
            assert(found@.take(0) =~= Seq::<&FriendshipRepReactionEntry>::empty());
        }
        while i < found.len()
            invariant
                i <= found@.len(),
                by_threshold(r@),
                r@.to_multiset() == found@.take(i as int).to_multiset(),
            decreases found@.len() - i,
        {
            let x = found[i];
            let mut p: usize = 0;
            while p < r.len() && r[p].reaction_threshold <= x.reaction_threshold
                invariant
                    p <= r@.len(),
                    by_threshold(r@),
                    forall|j: int| 0 <= j < p ==> r@[j].reaction_threshold <= x.reaction_threshold,
                decreases r@.len() - p,
            {
                p = p + 1;
            }
            let ghost r0 = r@;
            r.insert(p, x);
            proof {
                vstd::seq_lib::to_multiset_insert(r0, p as int, x);
                vstd::seq_lib::to_multiset_build(found@.take(i as int), x);
                assert(found@.take(i + 1) =~= found@.take(i as int).push(x));
                assert forall|a: int, b: int| 0 <= a < b < r@.len() implies r@[a].reaction_threshold
                    <= r@[b].reaction_threshold by {
                    if a < p && b > p {
                        assert(r@[a] == r0[a] && r@[b] == r0[b - 1]);
                    } else if a == p {
                        assert(r@[b] == r0[b - 1]);
                        if b - 1 >= 0 && p < r0.len() {
                            assert(!(r0[p as int].reaction_threshold <= x.reaction_threshold));
                        }
                    } else if b == p {
                        assert(r@[a] == r0[a]);
                    } else if a > p {
                        assert(r@[a] == r0[a - 1] && r@[b] == r0[b - 1]);
                    }
                }
            }
            i = i + 1;
        }
        proof {
            assert(found@.take(found@.len() as int) =~= found@);
            assert(reaction_listing(self@, friendship_rep_id, found@, r@));
        }
        r
    }
}

impl ParagonReputationStore {
    /// A paragon reputation of the faction, if there is one; when several
    /// match, any one of them.
    pub fn get_by_faction_id_like_cpp(&self, faction_id: u32) -> (r: Option<&ParagonReputationEntry>)
        ensures
            r matches Some(e) ==> is_stored_value(self@, *e) && e.faction_id == faction_id as i32,
            r is None ==> forall|k: u32| #[trigger] self@.contains_key(k) ==> self@[k].faction_id
                != faction_id as i32,
    {
        let ghost pairs = vstd::std_specs::hash::spec_hash_map_iter(&self.entries).remaining();
        for pair in it: self.entries.iter()
            invariant
                it.seq() == pairs,
                forall|j: int| #![trigger pairs[j]] 0 <= j < it.index() ==> pairs[j].1.faction_id
                    != faction_id as i32,
        {
            let (_k, e) = pair;
            if e.faction_id == faction_id as i32 {
                proof {
                    let k = *pairs[it.index() as int].0;
                    assert(self.entries@.contains_key(k));
                    assert(self@.contains_key(k) && self@[k] == *e);
                }
                return Some(e);
            }
        }
        proof {
            assert forall|k: u32| #[trigger] self@.contains_key(k) implies self@[k].faction_id
                != faction_id as i32 by {
                assert(pairs.contains((&k, &self.entries@[k])));
                let j = choose|j: int| 0 <= j < pairs.len() && pairs[j] == (&k, &self.entries@[k]);
                assert(pairs[j] == (&k, &self.entries@[k]));
            }
        }
        None
    }
}

/// A package item shown to players whose class or specialization matched
/// (every display type but the unmatched fallback).
pub open spec fn is_primary_package_item(e: QuestPackageItemEntry, package_id: u32) -> bool {
    e.package_id as u32 == package_id && e.display_type != QUEST_PACKAGE_FILTER_UNMATCHED_LIKE_CPP
}

/// A package item given when nothing else matched.
pub open spec fn is_fallback_package_item(e: QuestPackageItemEntry, package_id: u32) -> bool {
    e.package_id as u32 == package_id && e.display_type == QUEST_PACKAGE_FILTER_UNMATCHED_LIKE_CPP
}

impl QuestPackageItemStore {
    /// The members of a package whose display type is not the unmatched
    /// fallback, each stored row once, in no particular order.
    pub fn quest_package_items_like_cpp(&self, package_id: u32) -> (r: Vec<&QuestPackageItemEntry>)
        ensures
            lists_values_where(self@, r@, |e: QuestPackageItemEntry| is_primary_package_item(e, package_id)),
    {
        let keep = |e: &QuestPackageItemEntry| -> (b: bool)
            ensures
                b == is_primary_package_item(*e, package_id),
            {
                e.package_id as u32 == package_id && e.display_type
                    != QUEST_PACKAGE_FILTER_UNMATCHED_LIKE_CPP
            };
        index_values_where(
            &self.entries,
            keep,
            Ghost(|e: QuestPackageItemEntry| is_primary_package_item(e, package_id)),
        )
    }

    /// The members of a package whose display type is the unmatched
    /// fallback, each stored row once, in no particular order.
    pub fn quest_package_items_fallback_like_cpp(&self, package_id: u32) -> (r: Vec<
        &QuestPackageItemEntry,
    >)
        ensures
            lists_values_where(self@, r@, |e: QuestPackageItemEntry| is_fallback_package_item(e, package_id)),
    {
        let keep = |e: &QuestPackageItemEntry| -> (b: bool)
            ensures
                b == is_fallback_package_item(*e, package_id),
            {
                e.package_id as u32 == package_id && e.display_type
                    == QUEST_PACKAGE_FILTER_UNMATCHED_LIKE_CPP
            };
        index_values_where(
            &self.entries,
            keep,
            Ghost(|e: QuestPackageItemEntry| is_fallback_package_item(e, package_id)),
        )
    }
}

impl QuestV2Store {
    /// The unique bit flag of a quest; zero for a quest that is not stored.
    pub fn get_quest_unique_bit_flag_like_cpp(&self, quest_id: u32) -> (f: u32)
        ensures
            f == (if self@.contains_key(quest_id) {
                self@[quest_id].unique_bit_flag as u32
            } else {
                0
            }),
    {
        match self.get(quest_id) {
            Some(entry) => entry.unique_bit_flag as u32,
            None => 0,
        }
    }
}

/// How two faction templates regard each other: a template is friendly and
/// never hostile to itself; a faction that `a` lists as an enemy makes `a`
/// hostile and unfriendly to it, whatever `a`'s friend list says; a faction
/// listed only as a friend makes `a` friendly and not hostile; otherwise the
/// groups decide.
pub proof fn lemma_faction_reactions(a: FactionTemplateEntry, b: FactionTemplateEntry)
    ensures
        a.id == b.id ==> spec_is_friendly_to(a, b) && !spec_is_hostile_to(a, b),
        a.id != b.id && b.faction != 0 && a.enemies@.contains(b.faction) ==> spec_is_hostile_to(a, b)
            && !spec_is_friendly_to(a, b),
        a.id != b.id && b.faction != 0 && !a.enemies@.contains(b.faction) && a.friend@.contains(b.faction)
            ==> spec_is_friendly_to(a, b) && !spec_is_hostile_to(a, b),
        a.id != b.id && (b.faction == 0 || (!a.enemies@.contains(b.faction) && !a.friend@.contains(b.faction)))
            ==> (spec_is_hostile_to(a, b) == ((a.enemy_group & b.faction_group) != 0) && spec_is_friendly_to(a, b)
            == ((a.friend_group & b.faction_group) != 0 || (a.faction_group & b.friend_group) != 0)),
{
}

} // verus!
