//! Extended item costs: the items, currencies and requirements that buying
//! an item takes.
use std::collections::HashMap;
use vstd::prelude::*;
use crate::db2_index::{Keyed, index_by_key, build_index};

verus! {

broadcast use vstd::std_specs::hash::group_hash_axioms;

pub const MAX_ITEM_EXT_COST_ITEMS: usize = 5;

pub const MAX_ITEM_EXT_COST_CURRENCIES: usize = 5;

/// The buyer must be in a guild.
pub const ITEM_EXT_COST_FLAG_REQUIRE_GUILD: u32 = 0x01;

/// The first currency must have been earned this season.
pub const ITEM_EXT_COST_FLAG_REQUIRE_SEASON_EARNED_1: u32 = 0x02;

/// The second currency must have been earned this season.
pub const ITEM_EXT_COST_FLAG_REQUIRE_SEASON_EARNED_2: u32 = 0x04;

/// The third currency must have been earned this season.
pub const ITEM_EXT_COST_FLAG_REQUIRE_SEASON_EARNED_3: u32 = 0x08;

/// The fourth currency must have been earned this season.
pub const ITEM_EXT_COST_FLAG_REQUIRE_SEASON_EARNED_4: u32 = 0x10;

/// The fifth currency must have been earned this season.
pub const ITEM_EXT_COST_FLAG_REQUIRE_SEASON_EARNED_5: u32 = 0x20;

/// A row of the ItemExtendedCost table.
#[derive(Debug, Clone, Copy, PartialEq, Eq)]
pub struct ItemExtendedCostEntry {
    pub id: u32,
    pub required_arena_rating: u16,
    pub arena_bracket: i8,
    pub flags: u32,
    pub min_faction_id: u8,
    pub min_reputation: i32,
    pub required_achievement: u8,
    pub item_id: [i32; 5],
    pub item_count: [u16; 5],
    pub currency_id: [u16; 5],
    pub currency_count: [u32; 5],
}

impl Keyed for ItemExtendedCostEntry {
    open spec fn spec_key(&self) -> u32 {
        self.id
    }

    fn key(&self) -> (k: u32) {
        self.id
    }
}

impl ItemExtendedCostEntry {
    /// Whether some item slot names an item.
    pub fn has_item_turnins(&self) -> (b: bool)
        ensures
            b == exists|i: int| 0 <= i < 5 && self.item_id[i] != 0,
    {
        let mut i: usize = 0;
        while i < MAX_ITEM_EXT_COST_ITEMS
            invariant
                i <= 5,
                forall|j: int| 0 <= j < i ==> self.item_id[j] == 0,
            decreases 5 - i,
        {
            if self.item_id[i] != 0 {
                return true;
            }
            i = i + 1;
        }
        false
    }

    /// Whether some currency slot names a currency.
    pub fn has_currency_turnins(&self) -> (b: bool)
        ensures
            b == exists|i: int| 0 <= i < 5 && self.currency_id[i] != 0,
    {
        let mut i: usize = 0;
        while i < MAX_ITEM_EXT_COST_CURRENCIES
            invariant
                i <= 5,
                forall|j: int| 0 <= j < i ==> self.currency_id[j] == 0,
            decreases 5 - i,
        {
            if self.currency_id[i] != 0 {
                return true;
            }
            i = i + 1;
        }
        false
    }

    /// Whether some currency must have been earned this season.
    pub fn has_season_earned_currency_requirement(&self) -> (b: bool)
        ensures
            b == (self.flags & 0x3E != 0),
    {
        let season = ITEM_EXT_COST_FLAG_REQUIRE_SEASON_EARNED_1 | ITEM_EXT_COST_FLAG_REQUIRE_SEASON_EARNED_2
            | ITEM_EXT_COST_FLAG_REQUIRE_SEASON_EARNED_3 | ITEM_EXT_COST_FLAG_REQUIRE_SEASON_EARNED_4
            | ITEM_EXT_COST_FLAG_REQUIRE_SEASON_EARNED_5;
        assert(season == 0x3E) by (bit_vector)
            requires
                season == 0x02u32 | 0x04u32 | 0x08u32 | 0x10u32 | 0x20u32,
        ;
        self.flags & season != 0
    }

    /// Whether the buyer must be in a guild.
    pub fn requires_guild(&self) -> (b: bool)
        ensures
            b == (self.flags & ITEM_EXT_COST_FLAG_REQUIRE_GUILD != 0),
    {
        self.flags & ITEM_EXT_COST_FLAG_REQUIRE_GUILD != 0
    }
}

/// Extended costs by id.
pub struct ItemExtendedCostStore {
    entries: HashMap<u32, ItemExtendedCostEntry>,
}

impl View for ItemExtendedCostStore {
    type V = Map<u32, ItemExtendedCostEntry>;

    closed spec fn view(&self) -> Map<u32, ItemExtendedCostEntry> {
        self.entries@
    }
}

impl ItemExtendedCostStore {
    /// Builds the store; a later entry replaces an earlier one with the same
    /// id.
    pub fn from_entries(entries: Vec<ItemExtendedCostEntry>) -> (s: Self)
        ensures
            s@ == index_by_key(entries@),
    {
        ItemExtendedCostStore { entries: build_index(entries) }
    }

    /// Builds the store from the rows of the ItemExtendedCost table, in file
    /// order.
    pub fn load(rows: Vec<ItemExtendedCostEntry>) -> (s: Self)
        ensures
            s@ == index_by_key(rows@),
    {
        Self::from_entries(rows)
    }

    pub fn get(&self, id: u32) -> (r: Option<&ItemExtendedCostEntry>)
        ensures
            r == (if self@.contains_key(id) {
                Some(&self@[id])
            } else {
                None
            }),
    {
        self.entries.get(&id)
    }

    pub fn len(&self) -> (n: usize)
        ensures
            n == self@.len(),
    {
        self.entries.len()
    }

    pub fn is_empty(&self) -> (b: bool)
        ensures
            b == self@.is_empty(),
    {
        self.entries.is_empty()
    }
}

} // verus!
