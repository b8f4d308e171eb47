//! Item appearances: the display and icon of each item appearance.
use std::collections::HashMap;
use vstd::prelude::*;
use crate::db2_index::{Keyed, index_by_key, build_index};

verus! {

broadcast use vstd::std_specs::hash::group_hash_axioms;

/// A row of the ItemAppearance table.
#[derive(Debug, Clone, Copy, PartialEq, Eq, Structural)]
pub struct ItemAppearanceEntry {
    pub id: u32,
    pub display_type: u8,
    pub item_display_info_id: i32,
    pub default_icon_file_data_id: i32,
    pub ui_order: i32,
}

impl Keyed for ItemAppearanceEntry {
    open spec fn spec_key(&self) -> u32 {
        self.id
    }

    fn key(&self) -> (k: u32) {
        self.id
    }
}

/// Item appearances by id.
pub struct ItemAppearanceStore {
    entries: HashMap<u32, ItemAppearanceEntry>,
}

impl View for ItemAppearanceStore {
    type V = Map<u32, ItemAppearanceEntry>;

    closed spec fn view(&self) -> Map<u32, ItemAppearanceEntry> {
        self.entries@
    }
}

impl ItemAppearanceStore {
    /// Builds the store; a later entry replaces an earlier one with the same id.
    pub fn from_entries(entries: Vec<ItemAppearanceEntry>) -> (s: Self)
        ensures
            s@ == index_by_key(entries@),
    {
        ItemAppearanceStore { entries: build_index(entries) }
    }

    /// Builds the store from the rows of the ItemAppearance table, in file
    /// order.
    pub fn load(rows: Vec<ItemAppearanceEntry>) -> (s: Self)
        ensures
            s@ == index_by_key(rows@),
    {
        Self::from_entries(rows)
    }

    pub fn get(&self, id: u32) -> (r: Option<&ItemAppearanceEntry>)
        ensures
            r == (if self@.contains_key(id) {
                Some(&self@[id])
            } else {
                None
            }),
    {
        self.entries.get(&id)
    }

    /// The display info of an appearance; none for an unknown appearance or a
    /// negative display info id.
    pub fn item_display_info_id(&self, id: u32) -> (r: Option<u32>)
        ensures
            r == (if self@.contains_key(id) && self@[id].item_display_info_id >= 0 {
                Some(self@[id].item_display_info_id as u32)
            } else {
                None
            }),
    {
        match self.get(id) {
            Some(entry) => {
                if entry.item_display_info_id >= 0 {
                    Some(entry.item_display_info_id as u32)
                } else {
                    None
                }
            },
            None => None,
        }
    }

    pub fn len(&self) -> (n: usize)
        ensures
            n == self@.len(),
    {
        self.entries.len()
    }

    pub fn is_empty(&self) -> (b: bool)
        ensures
            b == self@.is_empty(),
    {
        self.entries.is_empty()
    }
}

} // verus!
