//! Item classes, by id and by their class number.
use std::collections::HashMap;
use vstd::prelude::*;
use vstd::std_specs::iter::IteratorSpec;
use crate::db2_index::{Keyed, index_by_key, build_index, is_stored_value, lemma_index_by_key_consistent, lemma_index_by_key_last_wins};

verus! {

broadcast use vstd::std_specs::hash::group_hash_axioms;

/// A row of the ItemClass table; the price modifier is a single-precision
/// float kept as its bit pattern.
#[derive(Debug, Clone, Copy, PartialEq, Eq, Structural)]
pub struct ItemClassEntry {
    pub id: u32,
    pub class_id: i8,
    pub price_modifier: u32,
    pub flags: u8,
}

impl Keyed for ItemClassEntry {
    open spec fn spec_key(&self) -> u32 {
        self.id
    }

    fn key(&self) -> (k: u32) {
        self.id
    }
}

/// `by_class` maps each class number (not negative) of a stored entry to a
/// stored entry of that class, and nothing else.
pub open spec fn classes_indexed(by_class: Map<u32, ItemClassEntry>, entries: Map<u32, ItemClassEntry>) -> bool {
    &&& forall|c: u32| #[trigger] by_class.contains_key(c) ==> is_stored_value(entries, by_class[c])
        && by_class[c].class_id >= 0 && by_class[c].class_id == c
    &&& forall|k: u32| #[trigger] entries.contains_key(k) && entries[k].class_id >= 0 ==> by_class.contains_key(
        entries[k].class_id as u32,
    )
}

/// The class index of rows taken in order: each class number (not
/// negative) names the last row of that class.
pub open spec fn class_index(rows: Seq<ItemClassEntry>) -> Map<u32, ItemClassEntry>
    decreases rows.len(),
{
    if rows.len() == 0 {
        Map::empty()
    } else {
        let prev = class_index(rows.drop_last());
        if rows.last().class_id >= 0 {
            prev.insert(rows.last().class_id as u32, rows.last())
        } else {
            prev
        }
    }
}

/// Every entry of a class index has the class number it is filed under.
pub open spec fn classes_consistent(by_class: Map<u32, ItemClassEntry>) -> bool {
    forall|c: u32| #[trigger] by_class.contains_key(c) ==> by_class[c].class_id >= 0 && by_class[c].class_id == c
}

proof fn lemma_class_index_consistent(rows: Seq<ItemClassEntry>)
    ensures
        classes_consistent(class_index(rows)),
    decreases rows.len(),
{
    if rows.len() > 0 {
        lemma_class_index_consistent(rows.drop_last());
    }
}

/// Item classes by id and by class number.
pub struct ItemClassStore {
    entries: HashMap<u32, ItemClassEntry>,
    by_old_enum: HashMap<u32, ItemClassEntry>,
}

impl View for ItemClassStore {
    type V = (Map<u32, ItemClassEntry>, Map<u32, ItemClassEntry>);

    closed spec fn view(&self) -> (Map<u32, ItemClassEntry>, Map<u32, ItemClassEntry>) {
        (self.entries@, self.by_old_enum@)
    }
}

impl ItemClassStore {
    #[verifier::type_invariant]
    spec fn consistent(&self) -> bool {
        classes_consistent(self.by_old_enum@)
    }

    /// Builds the store; a later entry replaces an earlier one with the same
    /// id, and each class number is served by one of the kept entries of that
    /// class, taken in the map's iteration order.
    pub fn from_entries(entries: Vec<ItemClassEntry>) -> (s: Self)
        ensures
            s@.0 == index_by_key(entries@),
            classes_indexed(s@.1, s@.0),
    {
        let m = build_index(entries);
        let mut by_class: HashMap<u32, ItemClassEntry> = HashMap::new();
        let ghost pairs = vstd::std_specs::hash::spec_hash_map_iter(&m).remaining();
        for pair in it: m.iter()
            invariant
                it.seq() == pairs,
                forall|c: u32| #[trigger] by_class@.contains_key(c) ==> is_stored_value(m@, by_class@[c])
                    && by_class@[c].class_id >= 0 && by_class@[c].class_id == c,
                forall|j: int| #![trigger pairs[j]] 0 <= j < it.index() && pairs[j].1.class_id >= 0
                    ==> by_class@.contains_key(pairs[j].1.class_id as u32),
        {
            let (_k, entry) = pair;
            let ghost j = it.index() as int;
            proof {
                assert(pair == pairs[j]);
                assert(pairs.contains(pairs[j]));
                assert(m@.contains_key(*pairs[j].0) && m@[*pairs[j].0] == *entry);
            }
            if entry.class_id >= 0 {
                by_class.insert(entry.class_id as u32, *entry);
            }
        }
        proof {
            assert forall|k: u32| #[trigger] m@.contains_key(k) && m@[k].class_id >= 0 implies by_class@.contains_key(
                m@[k].class_id as u32,
            ) by {
                assert(pairs.contains((&k, &m@[k])));
                let i = choose|i: int| 0 <= i < pairs.len() && pairs[i] == (&k, &m@[k]);
                assert(pairs[i].1 == &m@[k]);
            }
        }
        ItemClassStore { entries: m, by_old_enum: by_class }
    }

    /// Builds the store from the rows of the ItemClass table, in file order:
    /// a later row replaces an earlier one with the same id, and each class
    /// number names the last row of that class.
    pub fn load(rows: Vec<ItemClassEntry>) -> (s: Self)
        ensures
            s@.0 == index_by_key(rows@),
            s@.1 == class_index(rows@),
    {
        let ghost all = rows@;
        let mut entries: HashMap<u32, ItemClassEntry> = HashMap::new();
        let mut by_old_enum: HashMap<u32, ItemClassEntry> = HashMap::new();
        for entry in it: rows
            invariant
                all == it.seq(),
                entries@ == index_by_key(all.take(it.index() as int)),
                by_old_enum@ == class_index(all.take(it.index() as int)),
        {
            proof {
                assert(all.take(it.index() + 1).drop_last() =~= all.take(it.index() as int));
            }
            if entry.class_id >= 0 {
                by_old_enum.insert(entry.class_id as u32, entry);
            }
            entries.insert(entry.id, entry);
        }
        proof {
            assert(all.take(all.len() as int) =~= all);
            lemma_class_index_consistent(all);
        }
        ItemClassStore { entries, by_old_enum }
    }

    pub fn get(&self, id: u32) -> (r: Option<&ItemClassEntry>)
        ensures
            r == (if self@.0.contains_key(id) {
                Some(&self@.0[id])
            } else {
                None
            }),
    {
        self.entries.get(&id)
    }

    /// The entry filed under class number `item_class`, if there is one.
    pub fn get_by_old_enum(&self, item_class: u32) -> (r: Option<&ItemClassEntry>)
        ensures
            r == (if self@.1.contains_key(item_class) {
                Some(&self@.1[item_class])
            } else {
                None
            }),
            r matches Some(e) ==> e.class_id >= 0 && e.class_id == item_class,
    {
        proof {
            use_type_invariant(self);
        }
        self.by_old_enum.get(&item_class)
    }

    pub fn len(&self) -> (n: usize)
        ensures
            n == self@.0.len(),
    {
        self.entries.len()
    }

    pub fn is_empty(&self) -> (b: bool)
        ensures
            b == self@.0.is_empty(),
    {
        self.entries.is_empty()
    }
}

/// When the rows' ids are distinct, the class index of the rows serves,
/// for each class number of a stored entry, a stored entry of that class.
pub proof fn lemma_loaded_classes_are_stored(rows: Seq<ItemClassEntry>)
    requires
        forall|i: int, j: int| 0 <= i < j < rows.len() ==> rows[i].id != rows[j].id,
    ensures
        classes_indexed(class_index(rows), index_by_key(rows)),
    decreases rows.len(),
{
    if rows.len() > 0 {
        let prev = rows.drop_last();
        let r = rows.last();
        lemma_loaded_classes_are_stored(prev);
        lemma_index_by_key_consistent(prev);
        lemma_index_by_key_last_wins(prev, r.id);
        assert(!index_by_key(prev).contains_key(r.id)) by {
            if index_by_key(prev).contains_key(r.id) {
                let i = choose|i: int| 0 <= i < prev.len() && prev[i].spec_key() == r.id;
                assert(rows[i].id == rows[rows.len() - 1].id);
            }
        }
        let idx = index_by_key(rows);
        let cls = class_index(rows);
        assert forall|c: u32| #[trigger] cls.contains_key(c) implies is_stored_value(idx, cls[c])
            && cls[c].class_id >= 0 && cls[c].class_id == c by {
            if r.class_id >= 0 && c == r.class_id as u32 {
                assert(idx.contains_key(r.id) && idx[r.id] == r);
            } else {
                let pc = class_index(prev);
                assert(pc.contains_key(c) && cls[c] == pc[c]);
                let k = choose|k: u32| index_by_key(prev).contains_key(k) && index_by_key(prev)[k] == pc[c];
                assert(k != r.id);
                assert(idx.contains_key(k) && idx[k] == cls[c]);
            }
        }
        assert forall|k: u32| #[trigger] idx.contains_key(k) && idx[k].class_id >= 0 implies cls.contains_key(
            idx[k].class_id as u32,
        ) by {
            if k != r.id {
                assert(index_by_key(prev).contains_key(k) && idx[k] == index_by_key(prev)[k]);
            }
        }
    }
}

} // verus!
