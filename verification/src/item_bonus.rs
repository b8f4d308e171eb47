//! Item bonus, selector, limit, set and spec tables.
use std::collections::HashMap;
use vstd::prelude::*;

use crate::db2_index::{build_index, index_by_key, index_values_where, lists_values_where, Keyed};

verus! {

broadcast use vstd::std_specs::hash::group_hash_axioms;

/// A row of the ItemBonusDb2 table.
#[derive(Debug, Clone, PartialEq, Eq)]
pub struct ItemBonusDb2Entry {
    pub id: u32,
    pub value: [i32; 4],
    pub parent_item_bonus_list_id: u16,
    pub bonus_type: u8,
    pub order_index: u8,
}

impl Keyed for ItemBonusDb2Entry {
    open spec fn spec_key(&self) -> u32 {
        self.id
    }

    fn key(&self) -> (k: u32) {
        self.id
    }
}

/// A row of the ItemBonusListLevelDelta table.
#[derive(Debug, Clone, PartialEq, Eq)]
pub struct ItemBonusListLevelDeltaEntry {
    pub id: u32,
    pub item_level_delta: i16,
}

impl Keyed for ItemBonusListLevelDeltaEntry {
    open spec fn spec_key(&self) -> u32 {
        self.id
    }

    fn key(&self) -> (k: u32) {
        self.id
    }
}

/// A row of the ItemBonusTreeNode table.
#[derive(Debug, Clone, PartialEq, Eq)]
pub struct ItemBonusTreeNodeEntry {
    pub id: u32,
    pub item_context: u8,
    pub child_item_bonus_tree_id: u16,
    pub child_item_bonus_list_id: u16,
    pub child_item_level_selector_id: u16,
    pub parent_item_bonus_tree_id: u32,
}

impl Keyed for ItemBonusTreeNodeEntry {
    open spec fn spec_key(&self) -> u32 {
        self.id
    }

    fn key(&self) -> (k: u32) {
        self.id
    }
}

/// A row of the ItemContextPicker table.
#[derive(Debug, Clone, PartialEq, Eq)]
pub struct ItemContextPickerEntry {
    pub id: u32,
    pub item_creation_context: u8,
    pub order_index: u8,
    pub p_val: i32,
    pub flags: u32,
    pub player_condition_id: u32,
    pub item_context_picker_id: u32,
}

impl Keyed for ItemContextPickerEntry {
    open spec fn spec_key(&self) -> u32 {
        self.id
    }

    fn key(&self) -> (k: u32) {
        self.id
    }
}

/// A row of the ItemLevelSelector table.
#[derive(Debug, Clone, PartialEq, Eq)]
pub struct ItemLevelSelectorEntry {
    pub id: u32,
    pub min_item_level: u16,
    pub item_level_selector_quality_set_id: u16,
}

impl Keyed for ItemLevelSelectorEntry {
    open spec fn spec_key(&self) -> u32 {
        self.id
    }

    fn key(&self) -> (k: u32) {
        self.id
    }
}

/// A row of the ItemLevelSelectorQuality table.
#[derive(Debug, Clone, PartialEq, Eq)]
pub struct ItemLevelSelectorQualityEntry {
    pub id: u32,
    pub quality_item_bonus_list_id: i32,
    pub quality: i8,
    pub parent_ils_quality_set_id: u32,
}

impl Keyed for ItemLevelSelectorQualityEntry {
    open spec fn spec_key(&self) -> u32 {
        self.id
    }

    fn key(&self) -> (k: u32) {
        self.id
    }
}

/// A row of the ItemLevelSelectorQualitySet table.
#[derive(Debug, Clone, PartialEq, Eq)]
pub struct ItemLevelSelectorQualitySetEntry {
    pub id: u32,
    pub ilvl_rare: i16,
    pub ilvl_epic: i16,
}

impl Keyed for ItemLevelSelectorQualitySetEntry {
    open spec fn spec_key(&self) -> u32 {
        self.id
    }

    fn key(&self) -> (k: u32) {
        self.id
    }
}

/// A row of the ItemLimitCategory table.
#[derive(Debug, Clone, PartialEq, Eq)]
pub struct ItemLimitCategoryEntry {
    pub id: u32,
    pub name: String,
    pub quantity: u8,
    pub flags: u8,
}

impl Keyed for ItemLimitCategoryEntry {
    open spec fn spec_key(&self) -> u32 {
        self.id
    }

    fn key(&self) -> (k: u32) {
        self.id
    }
}

/// A row of the ItemLimitCategoryCondition table.
#[derive(Debug, Clone, PartialEq, Eq)]
pub struct ItemLimitCategoryConditionEntry {
    pub id: u32,
    pub add_quantity: i8,
    pub player_condition_id: u32,
    pub parent_item_limit_category_id: u32,
}

impl Keyed for ItemLimitCategoryConditionEntry {
    open spec fn spec_key(&self) -> u32 {
        self.id
    }

    fn key(&self) -> (k: u32) {
        self.id
    }
}

/// A row of the ItemModifiedAppearanceExtra table.
#[derive(Debug, Clone, PartialEq, Eq)]
pub struct ItemModifiedAppearanceExtraEntry {
    pub id: u32,
    pub icon_file_data_id: i32,
    pub unequipped_icon_file_data_id: i32,
    pub sheathe_type: u8,
    pub display_weapon_subclass_id: i8,
    pub display_inventory_type: i8,
}

impl Keyed for ItemModifiedAppearanceExtraEntry {
    open spec fn spec_key(&self) -> u32 {
        self.id
    }

    fn key(&self) -> (k: u32) {
        self.id
    }
}

/// A row of the ItemNameDescription table.
#[derive(Debug, Clone, PartialEq, Eq)]
pub struct ItemNameDescriptionEntry {
    pub id: u32,
    pub description: String,
    pub color: i32,
}

impl Keyed for ItemNameDescriptionEntry {
    open spec fn spec_key(&self) -> u32 {
        self.id
    }

    fn key(&self) -> (k: u32) {
        self.id
    }
}

/// A row of the ItemSearchName table.
#[derive(Debug, Clone, PartialEq, Eq)]
pub struct ItemSearchNameEntry {
    pub id: u32,
    pub allowable_race: i64,
    pub display: String,
    pub overall_quality_id: u8,
    pub expansion_id: i8,
    pub min_faction_id: u16,
    pub min_reputation: i32,
    pub allowable_class: i32,
    pub required_level: i8,
    pub required_skill: u16,
    pub required_skill_rank: u16,
    pub required_ability: u32,
    pub item_level: u16,
    pub flags: [i32; 4],
}

impl Keyed for ItemSearchNameEntry {
    open spec fn spec_key(&self) -> u32 {
        self.id
    }

    fn key(&self) -> (k: u32) {
        self.id
    }
}

/// A row of the ItemSet table.
#[derive(Debug, Clone, PartialEq, Eq)]
pub struct ItemSetEntry {
    pub id: u32,
    pub name: String,
    pub set_flags: u32,
    pub required_skill: u32,
    pub required_skill_rank: u16,
    pub item_id: [u32; 17],
}

impl Keyed for ItemSetEntry {
    open spec fn spec_key(&self) -> u32 {
        self.id
    }

    fn key(&self) -> (k: u32) {
        self.id
    }
}

/// A row of the ItemSetSpell table.
#[derive(Debug, Clone, PartialEq, Eq)]
pub struct ItemSetSpellEntry {
    pub id: u32,
    pub chr_spec_id: u16,
    pub spell_id: u32,
    pub threshold: u8,
    pub item_set_id: u32,
}

impl Keyed for ItemSetSpellEntry {
    open spec fn spec_key(&self) -> u32 {
        self.id
    }

    fn key(&self) -> (k: u32) {
        self.id
    }
}

/// A row of the ItemSpec table.
#[derive(Debug, Clone, PartialEq, Eq)]
pub struct ItemSpecEntry {
    pub id: u32,
    pub min_level: u8,
    pub max_level: u8,
    pub item_type: u8,
    pub primary_stat: u8,
    pub secondary_stat: u8,
    pub specialization_id: u16,
}

impl Keyed for ItemSpecEntry {
    open spec fn spec_key(&self) -> u32 {
        self.id
    }

    fn key(&self) -> (k: u32) {
        self.id
    }
}

/// A row of the ItemSpecOverride table.
#[derive(Debug, Clone, PartialEq, Eq)]
pub struct ItemSpecOverrideEntry {
    pub id: u32,
    pub spec_id: u16,
    pub item_id: u32,
}

impl Keyed for ItemSpecOverrideEntry {
    open spec fn spec_key(&self) -> u32 {
        self.id
    }

    fn key(&self) -> (k: u32) {
        self.id
    }
}

/// A row of the ItemXBonusTree table.
#[derive(Debug, Clone, PartialEq, Eq)]
pub struct ItemXBonusTreeEntry {
    pub id: u32,
    pub item_bonus_tree_id: u16,
    pub item_id: u32,
}

impl Keyed for ItemXBonusTreeEntry {
    open spec fn spec_key(&self) -> u32 {
        self.id
    }

    fn key(&self) -> (k: u32) {
        self.id
    }
}

/// Store of ItemBonusDb2 rows indexed by id.
pub struct ItemBonusDb2Store {
    entries: HashMap<u32, ItemBonusDb2Entry>,
}

impl View for ItemBonusDb2Store {
    type V = Map<u32, ItemBonusDb2Entry>;

    closed spec fn view(&self) -> Map<u32, ItemBonusDb2Entry> {
        self.entries@
    }
}

impl ItemBonusDb2Store {
    /// Builds the store; a later row replaces an earlier one with the same id.
    pub fn from_entries(entries: Vec<ItemBonusDb2Entry>) -> (s: Self)
        ensures
            s@ == index_by_key(entries@),
    {
        ItemBonusDb2Store { entries: build_index(entries) }
    }

    /// Builds the store from the rows of the ItemBonusDb2 table, in file order.
    pub fn load(rows: Vec<ItemBonusDb2Entry>) -> (s: Self)
        ensures
            s@ == index_by_key(rows@),
    {
        Self::from_entries(rows)
    }

    pub fn get(&self, id: u32) -> (r: Option<&ItemBonusDb2Entry>)
        ensures
            r == (if self@.contains_key(id) {
                Some(&self@[id])
            } else {
                None
            }),
    {
        self.entries.get(&id)
    }

    pub fn len(&self) -> (n: usize)
        ensures
            n == self@.len(),
    {
        self.entries.len()
    }

    pub fn is_empty(&self) -> (b: bool)
        ensures
            b == self@.is_empty(),
    {
        self.entries.is_empty()
    }
}

/// Store of ItemBonusListLevelDelta rows indexed by id.
pub struct ItemBonusListLevelDeltaStore {
    entries: HashMap<u32, ItemBonusListLevelDeltaEntry>,
}

impl View for ItemBonusListLevelDeltaStore {
    type V = Map<u32, ItemBonusListLevelDeltaEntry>;

    closed spec fn view(&self) -> Map<u32, ItemBonusListLevelDeltaEntry> {
        self.entries@
    }
}

impl ItemBonusListLevelDeltaStore {
    /// Builds the store; a later row replaces an earlier one with the same id.
    pub fn from_entries(entries: Vec<ItemBonusListLevelDeltaEntry>) -> (s: Self)
        ensures
            s@ == index_by_key(entries@),
    {
        ItemBonusListLevelDeltaStore { entries: build_index(entries) }
    }

    /// Builds the store from the rows of the ItemBonusListLevelDelta table, in file order.
    pub fn load(rows: Vec<ItemBonusListLevelDeltaEntry>) -> (s: Self)
        ensures
            s@ == index_by_key(rows@),
    {
        Self::from_entries(rows)
    }

    pub fn get(&self, id: u32) -> (r: Option<&ItemBonusListLevelDeltaEntry>)
        ensures
            r == (if self@.contains_key(id) {
                Some(&self@[id])
            } else {
                None
            }),
    {
        self.entries.get(&id)
    }

    pub fn len(&self) -> (n: usize)
        ensures
            n == self@.len(),
    {
        self.entries.len()
    }

    pub fn is_empty(&self) -> (b: bool)
        ensures
            b == self@.is_empty(),
    {
        self.entries.is_empty()
    }
}

/// Store of ItemBonusTreeNode rows indexed by id.
pub struct ItemBonusTreeNodeStore {
    entries: HashMap<u32, ItemBonusTreeNodeEntry>,
}

impl View for ItemBonusTreeNodeStore {
    type V = Map<u32, ItemBonusTreeNodeEntry>;

    closed spec fn view(&self) -> Map<u32, ItemBonusTreeNodeEntry> {
        self.entries@
    }
}

impl ItemBonusTreeNodeStore {
    /// Builds the store; a later row replaces an earlier one with the same id.
    pub fn from_entries(entries: Vec<ItemBonusTreeNodeEntry>) -> (s: Self)
        ensures
            s@ == index_by_key(entries@),
    {
        ItemBonusTreeNodeStore { entries: build_index(entries) }
    }

    /// Builds the store from the rows of the ItemBonusTreeNode table, in file order.
    pub fn load(rows: Vec<ItemBonusTreeNodeEntry>) -> (s: Self)
        ensures
            s@ == index_by_key(rows@),
    {
        Self::from_entries(rows)
    }

    pub fn get(&self, id: u32) -> (r: Option<&ItemBonusTreeNodeEntry>)
        ensures
            r == (if self@.contains_key(id) {
                Some(&self@[id])
            } else {
                None
            }),
    {
        self.entries.get(&id)
    }

    pub fn len(&self) -> (n: usize)
        ensures
            n == self@.len(),
    {
        self.entries.len()
    }

    pub fn is_empty(&self) -> (b: bool)
        ensures
            b == self@.is_empty(),
    {
        self.entries.is_empty()
    }
}

/// Store of ItemContextPicker rows indexed by id.
pub struct ItemContextPickerStore {
    entries: HashMap<u32, ItemContextPickerEntry>,
}

impl View for ItemContextPickerStore {
    type V = Map<u32, ItemContextPickerEntry>;

    closed spec fn view(&self) -> Map<u32, ItemContextPickerEntry> {
        self.entries@
    }
}

impl ItemContextPickerStore {
    /// Builds the store; a later row replaces an earlier one with the same id.
    pub fn from_entries(entries: Vec<ItemContextPickerEntry>) -> (s: Self)
        ensures
            s@ == index_by_key(entries@),
    {
        ItemContextPickerStore { entries: build_index(entries) }
    }

    /// Builds the store from the rows of the ItemContextPicker table, in file order.
    pub fn load(rows: Vec<ItemContextPickerEntry>) -> (s: Self)
        ensures
            s@ == index_by_key(rows@),
    {
        Self::from_entries(rows)
    }

    pub fn get(&self, id: u32) -> (r: Option<&ItemContextPickerEntry>)
        ensures
            r == (if self@.contains_key(id) {
                Some(&self@[id])
            } else {
                None
            }),
    {
        self.entries.get(&id)
    }

    pub fn len(&self) -> (n: usize)
        ensures
            n == self@.len(),
    {
        self.entries.len()
    }

    pub fn is_empty(&self) -> (b: bool)
        ensures
            b == self@.is_empty(),
    {
        self.entries.is_empty()
    }
}

/// Store of ItemLevelSelector rows indexed by id.
pub struct ItemLevelSelectorStore {
    entries: HashMap<u32, ItemLevelSelectorEntry>,
}

impl View for ItemLevelSelectorStore {
    type V = Map<u32, ItemLevelSelectorEntry>;

    closed spec fn view(&self) -> Map<u32, ItemLevelSelectorEntry> {
        self.entries@
    }
}

impl ItemLevelSelectorStore {
    /// Builds the store; a later row replaces an earlier one with the same id.
    pub fn from_entries(entries: Vec<ItemLevelSelectorEntry>) -> (s: Self)
        ensures
            s@ == index_by_key(entries@),
    {
        ItemLevelSelectorStore { entries: build_index(entries) }
    }

    /// Builds the store from the rows of the ItemLevelSelector table, in file order.
    pub fn load(rows: Vec<ItemLevelSelectorEntry>) -> (s: Self)
        ensures
            s@ == index_by_key(rows@),
    {
        Self::from_entries(rows)
    }

    pub fn get(&self, id: u32) -> (r: Option<&ItemLevelSelectorEntry>)
        ensures
            r == (if self@.contains_key(id) {
                Some(&self@[id])
            } else {
                None
            }),
    {
        self.entries.get(&id)
    }

    pub fn len(&self) -> (n: usize)
        ensures
            n == self@.len(),
    {
        self.entries.len()
    }

    pub fn is_empty(&self) -> (b: bool)
        ensures
            b == self@.is_empty(),
    {
        self.entries.is_empty()
    }
}

/// Store of ItemLevelSelectorQuality rows indexed by id.
pub struct ItemLevelSelectorQualityStore {
    entries: HashMap<u32, ItemLevelSelectorQualityEntry>,
}

impl View for ItemLevelSelectorQualityStore {
    type V = Map<u32, ItemLevelSelectorQualityEntry>;

    closed spec fn view(&self) -> Map<u32, ItemLevelSelectorQualityEntry> {
        self.entries@
    }
}

impl ItemLevelSelectorQualityStore {
    /// Builds the store; a later row replaces an earlier one with the same id.
    pub fn from_entries(entries: Vec<ItemLevelSelectorQualityEntry>) -> (s: Self)
        ensures
            s@ == index_by_key(entries@),
    {
        ItemLevelSelectorQualityStore { entries: build_index(entries) }
    }

    /// Builds the store from the rows of the ItemLevelSelectorQuality table, in file order.
    pub fn load(rows: Vec<ItemLevelSelectorQualityEntry>) -> (s: Self)
        ensures
            s@ == index_by_key(rows@),
    {
        Self::from_entries(rows)
    }

    pub fn get(&self, id: u32) -> (r: Option<&ItemLevelSelectorQualityEntry>)
        ensures
            r == (if self@.contains_key(id) {
                Some(&self@[id])
            } else {
                None
            }),
    {
        self.entries.get(&id)
    }

    pub fn len(&self) -> (n: usize)
        ensures
            n == self@.len(),
    {
        self.entries.len()
    }

    pub fn is_empty(&self) -> (b: bool)
        ensures
            b == self@.is_empty(),
    {
        self.entries.is_empty()
    }
}

/// Store of ItemLevelSelectorQualitySet rows indexed by id.
pub struct ItemLevelSelectorQualitySetStore {
    entries: HashMap<u32, ItemLevelSelectorQualitySetEntry>,
}

impl View for ItemLevelSelectorQualitySetStore {
    type V = Map<u32, ItemLevelSelectorQualitySetEntry>;

    closed spec fn view(&self) -> Map<u32, ItemLevelSelectorQualitySetEntry> {
        self.entries@
    }
}

impl ItemLevelSelectorQualitySetStore {
    /// Builds the store; a later row replaces an earlier one with the same id.
    pub fn from_entries(entries: Vec<ItemLevelSelectorQualitySetEntry>) -> (s: Self)
        ensures
            s@ == index_by_key(entries@),
    {
        ItemLevelSelectorQualitySetStore { entries: build_index(entries) }
    }

    /// Builds the store from the rows of the ItemLevelSelectorQualitySet table, in file order.
    pub fn load(rows: Vec<ItemLevelSelectorQualitySetEntry>) -> (s: Self)
        ensures
            s@ == index_by_key(rows@),
    {
        Self::from_entries(rows)
    }

    pub fn get(&self, id: u32) -> (r: Option<&ItemLevelSelectorQualitySetEntry>)
        ensures
            r == (if self@.contains_key(id) {
                Some(&self@[id])
            } else {
                None
            }),
    {
        self.entries.get(&id)
    }

    pub fn len(&self) -> (n: usize)
        ensures
            n == self@.len(),
    {
        self.entries.len()
    }

    pub fn is_empty(&self) -> (b: bool)
        ensures
            b == self@.is_empty(),
    {
        self.entries.is_empty()
    }
}

/// Store of ItemLimitCategory rows indexed by id.
pub struct ItemLimitCategoryStore {
    entries: HashMap<u32, ItemLimitCategoryEntry>,
}

impl View for ItemLimitCategoryStore {
    type V = Map<u32, ItemLimitCategoryEntry>;

    closed spec fn view(&self) -> Map<u32, ItemLimitCategoryEntry> {
        self.entries@
    }
}

impl ItemLimitCategoryStore {
    /// Builds the store; a later row replaces an earlier one with the same id.
    pub fn from_entries(entries: Vec<ItemLimitCategoryEntry>) -> (s: Self)
        ensures
            s@ == index_by_key(entries@),
    {
        ItemLimitCategoryStore { entries: build_index(entries) }
    }

    /// Builds the store from the rows of the ItemLimitCategory table, in file order.
    pub fn load(rows: Vec<ItemLimitCategoryEntry>) -> (s: Self)
        ensures
            s@ == index_by_key(rows@),
    {
        Self::from_entries(rows)
    }

    pub fn get(&self, id: u32) -> (r: Option<&ItemLimitCategoryEntry>)
        ensures
            r == (if self@.contains_key(id) {
                Some(&self@[id])
            } else {
                None
            }),
    {
        self.entries.get(&id)
    }

    pub fn len(&self) -> (n: usize)
        ensures
            n == self@.len(),
    {
        self.entries.len()
    }

    pub fn is_empty(&self) -> (b: bool)
        ensures
            b == self@.is_empty(),
    {
        self.entries.is_empty()
    }
}

/// Store of ItemLimitCategoryCondition rows indexed by id.
pub struct ItemLimitCategoryConditionStore {
    entries: HashMap<u32, ItemLimitCategoryConditionEntry>,
}

impl View for ItemLimitCategoryConditionStore {
    type V = Map<u32, ItemLimitCategoryConditionEntry>;

    closed spec fn view(&self) -> Map<u32, ItemLimitCategoryConditionEntry> {
        self.entries@
    }
}

impl ItemLimitCategoryConditionStore {
    /// Builds the store; a later row replaces an earlier one with the same id.
    pub fn from_entries(entries: Vec<ItemLimitCategoryConditionEntry>) -> (s: Self)
        ensures
            s@ == index_by_key(entries@),
    {
        ItemLimitCategoryConditionStore { entries: build_index(entries) }
    }

    /// Builds the store from the rows of the ItemLimitCategoryCondition table, in file order.
    pub fn load(rows: Vec<ItemLimitCategoryConditionEntry>) -> (s: Self)
        ensures
            s@ == index_by_key(rows@),
    {
        Self::from_entries(rows)
    }

    pub fn get(&self, id: u32) -> (r: Option<&ItemLimitCategoryConditionEntry>)
        ensures
            r == (if self@.contains_key(id) {
                Some(&self@[id])
            } else {
                None
            }),
    {
        self.entries.get(&id)
    }

    pub fn len(&self) -> (n: usize)
        ensures
            n == self@.len(),
    {
        self.entries.len()
    }

    pub fn is_empty(&self) -> (b: bool)
        ensures
            b == self@.is_empty(),
    {
        self.entries.is_empty()
    }
}

/// Store of ItemModifiedAppearanceExtra rows indexed by id.
pub struct ItemModifiedAppearanceExtraStore {
    entries: HashMap<u32, ItemModifiedAppearanceExtraEntry>,
}

impl View for ItemModifiedAppearanceExtraStore {
    type V = Map<u32, ItemModifiedAppearanceExtraEntry>;

    closed spec fn view(&self) -> Map<u32, ItemModifiedAppearanceExtraEntry> {
        self.entries@
    }
}

impl ItemModifiedAppearanceExtraStore {
    /// Builds the store; a later row replaces an earlier one with the same id.
    pub fn from_entries(entries: Vec<ItemModifiedAppearanceExtraEntry>) -> (s: Self)
        ensures
            s@ == index_by_key(entries@),
    {
        ItemModifiedAppearanceExtraStore { entries: build_index(entries) }
    }

    /// Builds the store from the rows of the ItemModifiedAppearanceExtra table, in file order.
    pub fn load(rows: Vec<ItemModifiedAppearanceExtraEntry>) -> (s: Self)
        ensures
            s@ == index_by_key(rows@),
    {
        Self::from_entries(rows)
    }

    pub fn get(&self, id: u32) -> (r: Option<&ItemModifiedAppearanceExtraEntry>)
        ensures
            r == (if self@.contains_key(id) {
                Some(&self@[id])
            } else {
                None
            }),
    {
        self.entries.get(&id)
    }

    pub fn len(&self) -> (n: usize)
        ensures
            n == self@.len(),
    {
        self.entries.len()
    }

    pub fn is_empty(&self) -> (b: bool)
        ensures
            b == self@.is_empty(),
    {
        self.entries.is_empty()
    }
}

/// Store of ItemNameDescription rows indexed by id.
pub struct ItemNameDescriptionStore {
    entries: HashMap<u32, ItemNameDescriptionEntry>,
}

impl View for ItemNameDescriptionStore {
    type V = Map<u32, ItemNameDescriptionEntry>;

    closed spec fn view(&self) -> Map<u32, ItemNameDescriptionEntry> {
        self.entries@
    }
}

impl ItemNameDescriptionStore {
    /// Builds the store; a later row replaces an earlier one with the same id.
    pub fn from_entries(entries: Vec<ItemNameDescriptionEntry>) -> (s: Self)
        ensures
            s@ == index_by_key(entries@),
    {
        ItemNameDescriptionStore { entries: build_index(entries) }
    }

    /// Builds the store from the rows of the ItemNameDescription table, in file order.
    pub fn load(rows: Vec<ItemNameDescriptionEntry>) -> (s: Self)
        ensures
            s@ == index_by_key(rows@),
    {
        Self::from_entries(rows)
    }

    pub fn get(&self, id: u32) -> (r: Option<&ItemNameDescriptionEntry>)
        ensures
            r == (if self@.contains_key(id) {
                Some(&self@[id])
            } else {
                None
            }),
    {
        self.entries.get(&id)
    }

    pub fn len(&self) -> (n: usize)
        ensures
            n == self@.len(),
    {
        self.entries.len()
    }

    pub fn is_empty(&self) -> (b: bool)
        ensures
            b == self@.is_empty(),
    {
        self.entries.is_empty()
    }
}

/// Store of ItemSearchName rows indexed by id.
pub struct ItemSearchNameStore {
    entries: HashMap<u32, ItemSearchNameEntry>,
}

impl View for ItemSearchNameStore {
    type V = Map<u32, ItemSearchNameEntry>;

    closed spec fn view(&self) -> Map<u32, ItemSearchNameEntry> {
        self.entries@
    }
}

impl ItemSearchNameStore {
    /// Builds the store; a later row replaces an earlier one with the same id.
    pub fn from_entries(entries: Vec<ItemSearchNameEntry>) -> (s: Self)
        ensures
            s@ == index_by_key(entries@),
    {
        ItemSearchNameStore { entries: build_index(entries) }
    }

    /// Builds the store from the rows of the ItemSearchName table, in file order.
    pub fn load(rows: Vec<ItemSearchNameEntry>) -> (s: Self)
        ensures
            s@ == index_by_key(rows@),
    {
        Self::from_entries(rows)
    }

    pub fn get(&self, id: u32) -> (r: Option<&ItemSearchNameEntry>)
        ensures
            r == (if self@.contains_key(id) {
                Some(&self@[id])
            } else {
                None
            }),
    {
        self.entries.get(&id)
    }

    pub fn len(&self) -> (n: usize)
        ensures
            n == self@.len(),
    {
        self.entries.len()
    }

    pub fn is_empty(&self) -> (b: bool)
        ensures
            b == self@.is_empty(),
    {
        self.entries.is_empty()
    }
}

/// Store of ItemSet rows indexed by id.
pub struct ItemSetStore {
    entries: HashMap<u32, ItemSetEntry>,
}

impl View for ItemSetStore {
    type V = Map<u32, ItemSetEntry>;

    closed spec fn view(&self) -> Map<u32, ItemSetEntry> {
        self.entries@
    }
}

impl ItemSetStore {
    /// Builds the store; a later row replaces an earlier one with the same id.
    pub fn from_entries(entries: Vec<ItemSetEntry>) -> (s: Self)
        ensures
            s@ == index_by_key(entries@),
    {
        ItemSetStore { entries: build_index(entries) }
    }

    /// Builds the store from the rows of the ItemSet table, in file order.
    pub fn load(rows: Vec<ItemSetEntry>) -> (s: Self)
        ensures
            s@ == index_by_key(rows@),
    {
        Self::from_entries(rows)
    }

    pub fn get(&self, id: u32) -> (r: Option<&ItemSetEntry>)
        ensures
            r == (if self@.contains_key(id) {
                Some(&self@[id])
            } else {
                None
            }),
    {
        self.entries.get(&id)
    }

    pub fn len(&self) -> (n: usize)
        ensures
            n == self@.len(),
    {
        self.entries.len()
    }

    pub fn is_empty(&self) -> (b: bool)
        ensures
            b == self@.is_empty(),
    {
        self.entries.is_empty()
    }
}

/// Store of ItemSetSpell rows indexed by id.
pub struct ItemSetSpellStore {
    entries: HashMap<u32, ItemSetSpellEntry>,
}

impl View for ItemSetSpellStore {
    type V = Map<u32, ItemSetSpellEntry>;

    closed spec fn view(&self) -> Map<u32, ItemSetSpellEntry> {
        self.entries@
    }
}

impl ItemSetSpellStore {
    /// Builds the store; a later row replaces an earlier one with the same id.
    pub fn from_entries(entries: Vec<ItemSetSpellEntry>) -> (s: Self)
        ensures
            s@ == index_by_key(entries@),
    {
        ItemSetSpellStore { entries: build_index(entries) }
    }

    /// Builds the store from the rows of the ItemSetSpell table, in file order.
    pub fn load(rows: Vec<ItemSetSpellEntry>) -> (s: Self)
        ensures
            s@ == index_by_key(rows@),
    {
        Self::from_entries(rows)
    }

    pub fn get(&self, id: u32) -> (r: Option<&ItemSetSpellEntry>)
        ensures
            r == (if self@.contains_key(id) {
                Some(&self@[id])
            } else {
                None
            }),
    {
        self.entries.get(&id)
    }

    pub fn len(&self) -> (n: usize)
        ensures
            n == self@.len(),
    {
        self.entries.len()
    }

    pub fn is_empty(&self) -> (b: bool)
        ensures
            b == self@.is_empty(),
    {
        self.entries.is_empty()
    }
}

/// Store of ItemSpec rows indexed by id.
pub struct ItemSpecStore {
    entries: HashMap<u32, ItemSpecEntry>,
}

impl View for ItemSpecStore {
    type V = Map<u32, ItemSpecEntry>;

    closed spec fn view(&self) -> Map<u32, ItemSpecEntry> {
        self.entries@
    }
}

impl ItemSpecStore {
    /// Builds the store; a later row replaces an earlier one with the same id.
    pub fn from_entries(entries: Vec<ItemSpecEntry>) -> (s: Self)
        ensures
            s@ == index_by_key(entries@),
    {
        ItemSpecStore { entries: build_index(entries) }
    }

    /// Builds the store from the rows of the ItemSpec table, in file order.
    pub fn load(rows: Vec<ItemSpecEntry>) -> (s: Self)
        ensures
            s@ == index_by_key(rows@),
    {
        Self::from_entries(rows)
    }

    pub fn get(&self, id: u32) -> (r: Option<&ItemSpecEntry>)
        ensures
            r == (if self@.contains_key(id) {
                Some(&self@[id])
            } else {
                None
            }),
    {
        self.entries.get(&id)
    }

    pub fn len(&self) -> (n: usize)
        ensures
            n == self@.len(),
    {
        self.entries.len()
    }

    pub fn is_empty(&self) -> (b: bool)
        ensures
            b == self@.is_empty(),
    {
        self.entries.is_empty()
    }
}

/// Store of ItemSpecOverride rows indexed by id.
pub struct ItemSpecOverrideStore {
    entries: HashMap<u32, ItemSpecOverrideEntry>,
}

impl View for ItemSpecOverrideStore {
    type V = Map<u32, ItemSpecOverrideEntry>;

    closed spec fn view(&self) -> Map<u32, ItemSpecOverrideEntry> {
        self.entries@
    }
}

impl ItemSpecOverrideStore {
    /// Builds the store; a later row replaces an earlier one with the same id.
    pub fn from_entries(entries: Vec<ItemSpecOverrideEntry>) -> (s: Self)
        ensures
            s@ == index_by_key(entries@),
    {
        ItemSpecOverrideStore { entries: build_index(entries) }
    }

    /// Builds the store from the rows of the ItemSpecOverride table, in file order.
    pub fn load(rows: Vec<ItemSpecOverrideEntry>) -> (s: Self)
        ensures
            s@ == index_by_key(rows@),
    {
        Self::from_entries(rows)
    }

    pub fn get(&self, id: u32) -> (r: Option<&ItemSpecOverrideEntry>)
        ensures
            r == (if self@.contains_key(id) {
                Some(&self@[id])
            } else {
                None
            }),
    {
        self.entries.get(&id)
    }

    pub fn len(&self) -> (n: usize)
        ensures
            n == self@.len(),
    {
        self.entries.len()
    }

    pub fn is_empty(&self) -> (b: bool)
        ensures
            b == self@.is_empty(),
    {
        self.entries.is_empty()
    }
}

/// Store of ItemXBonusTree rows indexed by id.
pub struct ItemXBonusTreeStore {
    entries: HashMap<u32, ItemXBonusTreeEntry>,
}

impl View for ItemXBonusTreeStore {
    type V = Map<u32, ItemXBonusTreeEntry>;

    closed spec fn view(&self) -> Map<u32, ItemXBonusTreeEntry> {
        self.entries@
    }
}

impl ItemXBonusTreeStore {
    /// Builds the store; a later row replaces an earlier one with the same id.
    pub fn from_entries(entries: Vec<ItemXBonusTreeEntry>) -> (s: Self)
        ensures
            s@ == index_by_key(entries@),
    {
        ItemXBonusTreeStore { entries: build_index(entries) }
    }

    /// Builds the store from the rows of the ItemXBonusTree table, in file order.
    pub fn load(rows: Vec<ItemXBonusTreeEntry>) -> (s: Self)
        ensures
            s@ == index_by_key(rows@),
    {
        Self::from_entries(rows)
    }

    pub fn get(&self, id: u32) -> (r: Option<&ItemXBonusTreeEntry>)
        ensures
            r == (if self@.contains_key(id) {
                Some(&self@[id])
            } else {
                None
            }),
    {
        self.entries.get(&id)
    }

    pub fn len(&self) -> (n: usize)
        ensures
            n == self@.len(),
    {
        self.entries.len()
    }

    pub fn is_empty(&self) -> (b: bool)
        ensures
            b == self@.is_empty(),
    {
        self.entries.is_empty()
    }
}

impl ItemLimitCategoryConditionStore {
    /// The conditions that belong to a limit category, each stored row once,
    /// in no particular order.
    pub fn conditions_for_parent_like_cpp(&self, parent_item_limit_category_id: u32) -> (r: Vec<
        &ItemLimitCategoryConditionEntry,
    >)
        ensures
            lists_values_where(
                self@,
                r@,
                |e: ItemLimitCategoryConditionEntry|
                    e.parent_item_limit_category_id == parent_item_limit_category_id,
            ),
    {
        let parent = parent_item_limit_category_id;
        let keep = |e: &ItemLimitCategoryConditionEntry| -> (b: bool)
            ensures
                b == (e.parent_item_limit_category_id == parent),
            { e.parent_item_limit_category_id == parent };
        index_values_where(
            &self.entries,
            keep,
            Ghost(|e: ItemLimitCategoryConditionEntry| e.parent_item_limit_category_id == parent),
        )
    }
}

} // verus!
