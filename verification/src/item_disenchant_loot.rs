//! Disenchant loot rows and the search for the row that applies to an item.
use std::collections::HashMap;
use vstd::prelude::*;
use vstd::std_specs::iter::IteratorSpec;
use crate::db2_index::{Keyed, index_by_key};

verus! {

broadcast use {vstd::std_specs::hash::group_hash_axioms, vstd::std_specs::slice::axiom_spec_slice_iter};

/// A row of the ItemDisenchantLoot table.
#[derive(Debug, Clone, Copy, PartialEq, Eq, Structural)]
pub struct ItemDisenchantLootEntry {
    pub id: u32,
    pub subclass: i8,
    pub quality: u8,
    pub min_level: u16,
    pub max_level: u16,
    pub skill_required: u16,
    pub expansion_id: i8,
    pub class_id: u32,
}

impl Keyed for ItemDisenchantLootEntry {
    open spec fn spec_key(&self) -> u32 {
        self.id
    }

    fn key(&self) -> (k: u32) {
        self.id
    }
}

/// Disenchant loot rows in table order, and by id.
pub struct ItemDisenchantLootStore {
    entries_by_id: HashMap<u32, ItemDisenchantLootEntry>,
    ordered_entries: Vec<ItemDisenchantLootEntry>,
}

/// Whether the row `e` applies to an item of the given class, subclass,
/// quality, item level and expansion.
///
/// A row with a subclass (one not below zero) applies only to subclass 0; the
/// expansion -2 applies to every expansion.
pub open spec fn loot_row_applies(
    e: ItemDisenchantLootEntry,
    item_class: u32,
    item_subclass: i8,
    quality: u8,
    item_level: u32,
    expansion: u8,
) -> bool {
    &&& e.class_id == item_class
    &&& !(e.subclass >= 0 && item_subclass != 0)
    &&& e.quality == quality
    &&& e.min_level <= item_level <= e.max_level
    &&& (e.expansion_id == -2 || e.expansion_id == expansion as i8)
}

impl ItemDisenchantLootStore {
    #[verifier::type_invariant]
    spec fn indexed(&self) -> bool {
        self.entries_by_id@ == index_by_key(self.ordered_entries@)
    }

    /// The rows in table order.
    pub closed spec fn rows(&self) -> Seq<ItemDisenchantLootEntry> {
        self.ordered_entries@
    }

    /// The rows by id; a later row replaces an earlier one with the same id.
    pub closed spec fn by_id(&self) -> Map<u32, ItemDisenchantLootEntry> {
        self.entries_by_id@
    }

    /// Builds the store from the rows, in table order.
    pub fn from_entries(entries: Vec<ItemDisenchantLootEntry>) -> (s: Self)
        ensures
            s.rows() == entries@,
            s.by_id() == index_by_key(entries@),
    {
        let mut m: HashMap<u32, ItemDisenchantLootEntry> = HashMap::new();
        let mut i: usize = 0;
        while i < entries.len()
            invariant
                i <= entries.len(),
                m@ == index_by_key(entries@.take(i as int)),
            decreases entries.len() - i,
        {
            proof {
                assert(entries@.take(i + 1).drop_last() =~= entries@.take(i as int));
            }
            let e = entries[i];
            m.insert(e.id, e);
            i = i + 1;
        }
        proof {
            assert(entries@.take(entries.len() as int) =~= entries@);
        }
        ItemDisenchantLootStore { entries_by_id: m, ordered_entries: entries }
    }

    /// Builds the store from the rows of the ItemDisenchantLoot table, in file
    /// order.
    pub fn load(rows: Vec<ItemDisenchantLootEntry>) -> (s: Self)
        ensures
            s.rows() == rows@,
            s.by_id() == index_by_key(rows@),
    {
        Self::from_entries(rows)
    }

    pub fn get(&self, id: u32) -> (r: Option<&ItemDisenchantLootEntry>)
        ensures
            r == (if self.by_id().contains_key(id) {
                Some(&self.by_id()[id])
            } else {
                None
            }),
    {
        self.entries_by_id.get(&id)
    }

    /// The rows in table order.
    pub fn iter(&self) -> (r: std::slice::Iter<'_, ItemDisenchantLootEntry>)
        ensures
            r.remaining() == self.rows().as_ref(),
    {
        self.ordered_entries.iter()
    }

    /// The first row, in table order, that applies to the item.
    pub fn find_for_item_like_cpp(
        &self,
        item_class: u32,
        item_subclass: i8,
        quality: u8,
        item_level: u32,
        expansion: u8,
    ) -> (r: Option<&ItemDisenchantLootEntry>)
        ensures
            r matches Some(e) ==> exists|i: int|
                0 <= i < self.rows().len() && self.rows()[i] == *e && loot_row_applies(
                    *e,
                    item_class,
                    item_subclass,
                    quality,
                    item_level,
                    expansion,
                ) && forall|j: int| 0 <= j < i ==> !loot_row_applies(
                    #[trigger] self.rows()[j],
                    item_class,
                    item_subclass,
                    quality,
                    item_level,
                    expansion,
                ),
            r is None ==> forall|j: int| 0 <= j < self.rows().len() ==> !loot_row_applies(
                #[trigger] self.rows()[j],
                item_class,
                item_subclass,
                quality,
                item_level,
                expansion,
            ),
    {
        let mut i: usize = 0;
        while i < self.ordered_entries.len()
            invariant
                i <= self.ordered_entries.len(),
                forall|j: int| 0 <= j < i ==> !loot_row_applies(
                    #[trigger] self.ordered_entries@[j],
                    item_class,
                    item_subclass,
                    quality,
                    item_level,
                    expansion,
                ),
            decreases self.ordered_entries.len() - i,
        {
            let e = &self.ordered_entries[i];
            let applies = e.class_id == item_class && !(e.subclass >= 0 && item_subclass != 0) && e.quality
                == quality && (e.min_level as u32) <= item_level && item_level <= (e.max_level as u32) && (
            e.expansion_id == -2 || e.expansion_id == expansion as i8);
            if applies {
                proof {
                    assert(self.rows()[i as int] == *e);
                    assert(loot_row_applies(*e, item_class, item_subclass, quality, item_level, expansion));
                }
                return Some(e);
            }
            i = i + 1;
        }
        None
    }

    /// Number of rows.
    pub fn len(&self) -> (n: usize)
        ensures
            n == self.rows().len(),
    {
        self.ordered_entries.len()
    }

    /// Whether there is no row.
    pub fn is_empty(&self) -> (b: bool)
        ensures
            b == (self.rows().len() == 0),
    {
        self.ordered_entries.len() == 0
    }
}

/// Which loot rows apply to an item: same class and quality, item level
/// within the row's range, the row's expansion (or any, -2), and a row bound
/// to a subclass (not negative) applies only to items of subclass 0.
pub proof fn lemma_loot_row_applies(
    e: ItemDisenchantLootEntry,
    item_class: u32,
    item_subclass: i8,
    quality: u8,
    item_level: u32,
    expansion: u8,
)
    ensures
        loot_row_applies(e, item_class, item_subclass, quality, item_level, expansion) <==> {
            &&& e.class_id == item_class
            &&& e.quality == quality
            &&& e.min_level <= item_level
            &&& item_level <= e.max_level
            &&& (e.expansion_id == -2 || e.expansion_id == expansion as i8)
            &&& (e.subclass < 0 || item_subclass == 0)
        },
{
}

} // verus!
