//! Items bought with currency, as the ItemCurrencyCost table lists them.
use std::collections::{HashMap, HashSet};
use vstd::prelude::*;
use vstd::std_specs::iter::IteratorSpec;
use crate::db2_index::{Keyed, index_by_key, build_index, is_last_with_key, lemma_index_by_key_last_wins};

verus! {

broadcast use vstd::std_specs::hash::group_hash_axioms;

/// A row of the ItemCurrencyCost table.
#[derive(Debug, Clone, Copy, PartialEq, Eq, Structural)]
pub struct ItemCurrencyCostEntry {
    pub id: u32,
    pub item_id: i32,
}

impl Keyed for ItemCurrencyCostEntry {
    open spec fn spec_key(&self) -> u32 {
        self.id
    }

    fn key(&self) -> (k: u32) {
        self.id
    }
}

/// The items (with a non-negative id) that some stored entry names.
pub open spec fn items_with_cost(m: Map<u32, ItemCurrencyCostEntry>) -> Set<u32> {
    Set::new(|item: u32| exists|k: u32| m.contains_key(k) && m[k].item_id >= 0 && m[k].item_id == item)
}

/// The items (with a non-negative id) that some row names.
pub open spec fn items_of_rows(rows: Seq<ItemCurrencyCostEntry>) -> Set<u32> {
    Set::new(|item: u32| exists|i: int| 0 <= i < rows.len() && rows[i].item_id >= 0 && rows[i].item_id == item)
}

/// Currency cost entries by id, and the items that have a currency cost.
pub struct ItemCurrencyCostStore {
    entries: HashMap<u32, ItemCurrencyCostEntry>,
    items_with_currency_cost: HashSet<u32>,
}

impl View for ItemCurrencyCostStore {
    type V = (Map<u32, ItemCurrencyCostEntry>, Set<u32>);

    closed spec fn view(&self) -> (Map<u32, ItemCurrencyCostEntry>, Set<u32>) {
        (self.entries@, self.items_with_currency_cost@)
    }
}

impl ItemCurrencyCostStore {
    /// Builds the store; a later entry replaces an earlier one with the same
    /// id, and the items named by the kept entries have a currency cost.
    pub fn from_entries(entries: Vec<ItemCurrencyCostEntry>) -> (s: Self)
        ensures
            s@.0 == index_by_key(entries@),
            s@.1 == items_with_cost(s@.0),
    {
        let m = build_index(entries);
        let mut items: HashSet<u32> = HashSet::new();
        let ghost pairs = vstd::std_specs::hash::spec_hash_map_iter(&m).remaining();
        for pair in it: m.iter()
            invariant
                it.seq() == pairs,
                items@ == Set::new(|item: u32| exists|j: int| 0 <= j < it.index() && pairs[j].1.item_id >= 0
                    && pairs[j].1.item_id == item),
        {
            let (_k, entry) = pair;
            let ghost j = it.index() as int;
            proof {
                assert(pair == pairs[j]);
            }
            let ghost before = items@;
            if entry.item_id >= 0 {
                items.insert(entry.item_id as u32);
            }
            proof {
                assert(items@ =~= Set::new(|item: u32| exists|j2: int| 0 <= j2 < j + 1 && pairs[j2].1.item_id >= 0
                    && pairs[j2].1.item_id == item)) by {
                    assert forall|item: u32| items@.contains(item) implies exists|j2: int|
                        0 <= j2 < j + 1 && pairs[j2].1.item_id >= 0 && pairs[j2].1.item_id == item by {
                        if !before.contains(item) {
                            assert(pairs[j].1.item_id == item);
                        }
                    }
                    assert forall|item: u32| (exists|j2: int| 0 <= j2 < j + 1 && pairs[j2].1.item_id >= 0
                        && pairs[j2].1.item_id == item) implies items@.contains(item) by {
                        let j2 = choose|j2: int| 0 <= j2 < j + 1 && pairs[j2].1.item_id >= 0
                            && pairs[j2].1.item_id == item;
                        if j2 < j {
                            assert(before.contains(item));
                        }
                    }
                }
            }
        }
        proof {
            assert(items@ =~= items_with_cost(m@)) by {
                assert forall|item: u32| items@.contains(item) implies items_with_cost(m@).contains(item) by {
                    let j = choose|j: int| 0 <= j < pairs.len() && pairs[j].1.item_id >= 0 && pairs[j].1.item_id
                        == item;
                    assert(pairs.contains(pairs[j]));
                    assert(m@.contains_key(*pairs[j].0) && m@[*pairs[j].0] == *pairs[j].1);
                }
                assert forall|item: u32| items_with_cost(m@).contains(item) implies items@.contains(item) by {
                    let k = choose|k: u32| m@.contains_key(k) && m@[k].item_id >= 0 && m@[k].item_id == item;
                    assert(pairs.contains((&k, &m@[k])));
                    let j = choose|j: int| 0 <= j < pairs.len() && pairs[j] == (&k, &m@[k]);
                    assert(pairs[j].1.item_id == item);
                }
            }
        }
        ItemCurrencyCostStore { entries: m, items_with_currency_cost: items }
    }

    /// Builds the store from the rows of the ItemCurrencyCost table, in file
    /// order: a later row replaces an earlier one with the same id, and every
    /// item that a row names has a currency cost.
    pub fn load(rows: Vec<ItemCurrencyCostEntry>) -> (s: Self)
        ensures
            s@.0 == index_by_key(rows@),
            s@.1 == items_of_rows(rows@),
    {
        let ghost all = rows@;
        let mut entries: HashMap<u32, ItemCurrencyCostEntry> = HashMap::new();
        let mut items: HashSet<u32> = HashSet::new();
        for entry in it: rows
            invariant
                all == it.seq(),
                entries@ == index_by_key(all.take(it.index() as int)),
                items@ == items_of_rows(all.take(it.index() as int)),
        {
            let ghost i = it.index() as int;
            proof {
                assert(all.take(i + 1).drop_last() =~= all.take(i));
            }
            let ghost before = items@;
            if entry.item_id >= 0 {
                items.insert(entry.item_id as u32);
            }
            entries.insert(entry.id, entry);
            proof {
                let t = all.take(i + 1);
                assert forall|item: u32| items@.contains(item) implies items_of_rows(t).contains(item) by {
                    if before.contains(item) {
                        let j = choose|j: int| 0 <= j < i && all.take(i)[j].item_id >= 0 && all.take(i)[j].item_id
                            == item;
                        assert(t[j] == all.take(i)[j]);
                    } else {
                        assert(t[i] == entry);
                    }
                }
                assert forall|item: u32| items_of_rows(t).contains(item) implies items@.contains(item) by {
                    let j = choose|j: int| 0 <= j < t.len() && t[j].item_id >= 0 && t[j].item_id == item;
                    if j < i {
                        assert(all.take(i)[j] == t[j]);
                        assert(before.contains(item));
                    }
                }
                assert(items@ =~= items_of_rows(t));
            }
        }
        proof {
            assert(all.take(all.len() as int) =~= all);
        }
        ItemCurrencyCostStore { entries, items_with_currency_cost: items }
    }

    pub fn get(&self, id: u32) -> (r: Option<&ItemCurrencyCostEntry>)
        ensures
            r == (if self@.0.contains_key(id) {
                Some(&self@.0[id])
            } else {
                None
            }),
    {
        self.entries.get(&id)
    }

    /// Whether `item_id` has a currency cost.
    pub fn has_item_currency_cost(&self, item_id: u32) -> (b: bool)
        ensures
            b == self@.1.contains(item_id),
    {
        self.items_with_currency_cost.contains(&item_id)
    }

    pub fn len(&self) -> (n: usize)
        ensures
            n == self@.0.len(),
    {
        self.entries.len()
    }

    pub fn is_empty(&self) -> (b: bool)
        ensures
            b == self@.0.is_empty(),
    {
        self.entries.is_empty()
    }
}

/// When the rows' ids are distinct, the items that the rows name are the
/// items that the stored entries name: loading a table and building the
/// store from its entries agree.
pub proof fn lemma_distinct_rows_name_stored_items(rows: Seq<ItemCurrencyCostEntry>)
    requires
        forall|i: int, j: int| 0 <= i < j < rows.len() ==> rows[i].id != rows[j].id,
    ensures
        items_of_rows(rows) == items_with_cost(index_by_key(rows)),
{
    let m = index_by_key(rows);
    assert forall|item: u32| items_of_rows(rows).contains(item) implies items_with_cost(m).contains(item) by {
        let i = choose|i: int| 0 <= i < rows.len() && rows[i].item_id >= 0 && rows[i].item_id == item;
        lemma_index_by_key_last_wins(rows, rows[i].id);
        assert(is_last_with_key(rows, rows[i].id, i));
        assert(m.contains_key(rows[i].id) && m[rows[i].id] == rows[i]);
    }
    assert forall|item: u32| items_with_cost(m).contains(item) implies items_of_rows(rows).contains(item) by {
        let k = choose|k: u32| m.contains_key(k) && m[k].item_id >= 0 && m[k].item_id == item;
        lemma_index_by_key_last_wins(rows, k);
        let i = choose|i: int| 0 <= i < rows.len() && rows[i].spec_key() == k;
        assert(is_last_with_key(rows, k, i));
        assert(m[k] == rows[i]);
    }
    assert(items_of_rows(rows) =~= items_with_cost(m));
}

} // verus!
