//! Item.db2 rows and the item metadata store.
use std::collections::HashMap;
use vstd::prelude::*;

use crate::db2_index::{build_index, index_by_key, Keyed};

verus! {

broadcast use vstd::std_specs::hash::group_hash_axioms;

/// A minimal item record from Item.db2.
#[derive(Debug, Clone, PartialEq, Eq)]
pub struct ItemRecord {
    pub id: u32,
    /// Item class (0=Consumable, 1=Container, 2=Weapon, 4=Armor, ...).
    pub class_id: u8,
    /// Item subclass within the class.
    pub subclass_id: u8,
    /// Material type.
    pub material: u8,
    /// Inventory type; negative means non-equippable.
    pub inventory_type: i8,
    /// Sheathe display type.
    pub sheathe_type: u8,
    pub random_select: u16,
    pub random_suffix_group_id: u16,
    pub scaling_stat_distribution_id: u16,
    pub scaling_stat_value: i32,
}

impl Keyed for ItemRecord {
    open spec fn spec_key(&self) -> u32 {
        self.id
    }

    fn key(&self) -> (k: u32) {
        self.id
    }
}

/// The equip slot type that an item record exposes: its inventory type when
/// that is positive, and none for zero or negative values.
pub open spec fn spec_inventory_type(record: ItemRecord) -> Option<u8> {
    if record.inventory_type > 0 {
        Some(record.inventory_type as u8)
    } else {
        None
    }
}

/// In-memory store of all items of Item.db2, indexed by item id.
pub struct ItemStore {
    items: HashMap<u32, ItemRecord>,
}

impl View for ItemStore {
    type V = Map<u32, ItemRecord>;

    closed spec fn view(&self) -> Map<u32, ItemRecord> {
        self.items@
    }
}

impl ItemStore {
    /// Builds the store from parsed records; a later record with an id that
    /// was already seen replaces the earlier one.
    pub fn from_records(records: Vec<ItemRecord>) -> (s: Self)
        ensures
            s@ == index_by_key(records@),
    {
        ItemStore { items: build_index(records) }
    }

    /// Builds the store from the rows of Item.db2, in file order.
    pub fn load(rows: Vec<ItemRecord>) -> (s: Self)
        ensures
            s@ == index_by_key(rows@),
    {
        Self::from_records(rows)
    }

    /// Looks up an item record by entry id.
    pub fn get(&self, entry_id: u32) -> (r: Option<&ItemRecord>)
        ensures
            r == (if self@.contains_key(entry_id) {
                Some(&self@[entry_id])
            } else {
                None
            }),
    {
        self.items.get(&entry_id)
    }

    /// The equip/storage inventory type of an item; none for unknown items
    /// and for zero or negative (non-equippable) values, so that `-1` never
    /// wraps to a slot number.
    pub fn inventory_type(&self, entry_id: u32) -> (r: Option<u8>)
        ensures
            r == (if self@.contains_key(entry_id) {
                spec_inventory_type(self@[entry_id])
            } else {
                None
            }),
    {
        match self.items.get(&entry_id) {
            Some(record) => {
                if record.inventory_type > 0 {
                    Some(record.inventory_type as u8)
                } else {
                    None
                }
            },
            None => None,
        }
    }

    /// The random-select value of an item, 0 for unknown items.
    pub fn random_select(&self, entry_id: u32) -> (r: u16)
        ensures
            r == (if self@.contains_key(entry_id) {
                self@[entry_id].random_select
            } else {
                0
            }),
    {
        match self.items.get(&entry_id) {
            Some(record) => record.random_select,
            None => 0,
        }
    }

    /// The random suffix group of an item, 0 for unknown items.
    pub fn random_suffix_group_id(&self, entry_id: u32) -> (r: u16)
        ensures
            r == (if self@.contains_key(entry_id) {
                self@[entry_id].random_suffix_group_id
            } else {
                0
            }),
    {
        match self.items.get(&entry_id) {
            Some(record) => record.random_suffix_group_id,
            None => 0,
        }
    }

    /// The scaling stat distribution of an item, 0 for unknown items.
    pub fn scaling_stat_distribution_id(&self, entry_id: u32) -> (r: u16)
        ensures
            r == (if self@.contains_key(entry_id) {
                self@[entry_id].scaling_stat_distribution_id
            } else {
                0
            }),
    {
        match self.items.get(&entry_id) {
            Some(record) => record.scaling_stat_distribution_id,
            None => 0,
        }
    }

    /// The scaling stat value of an item, 0 for unknown items.
    pub fn scaling_stat_value(&self, entry_id: u32) -> (r: i32)
        ensures
            r == (if self@.contains_key(entry_id) {
                self@[entry_id].scaling_stat_value
            } else {
                0
            }),
    {
        match self.items.get(&entry_id) {
            Some(record) => record.scaling_stat_value,
            None => 0,
        }
    }

    /// Number of items in the store.
    pub fn len(&self) -> (n: usize)
        ensures
            n == self@.len(),
    {
        self.items.len()
    }

    /// Whether the store is empty.
    pub fn is_empty(&self) -> (b: bool)
        ensures
            b == self@.is_empty(),
    {
        self.items.is_empty()
    }
}

} // verus!
