//! The Phase and PhaseXPhaseGroup tables.
use std::collections::HashMap;
use vstd::prelude::*;

use crate::db2_index::{
    build_index, index_by_key, index_values_where, lemma_index_by_key_consistent, lists_all_values,
    lists_values_where, Keyed,
};

verus! {

broadcast use vstd::std_specs::hash::group_hash_axioms;

pub const PHASE_ENTRY_FLAG_COSMETIC: u16 = 0x0010;

pub const PHASE_ENTRY_FLAG_PERSONAL: u16 = 0x0020;

/// A row of the Phase table.
#[derive(Debug, Clone, Copy, PartialEq, Eq)]
pub struct PhaseEntry {
    pub id: u32,
    pub flags: u16,
}

impl Keyed for PhaseEntry {
    open spec fn spec_key(&self) -> u32 {
        self.id
    }

    fn key(&self) -> (k: u32) {
        self.id
    }
}

/// A row of the PhaseXPhaseGroup table: a phase that belongs to a group.
#[derive(Debug, Clone, Copy, PartialEq, Eq)]
pub struct PhaseXPhaseGroupEntry {
    pub id: u32,
    pub phase_id: u16,
    pub phase_group_id: u32,
}

impl Keyed for PhaseXPhaseGroupEntry {
    open spec fn spec_key(&self) -> u32 {
        self.id
    }

    fn key(&self) -> (k: u32) {
        self.id
    }
}

/// Every stored row sits under its own id.
pub open spec fn keyed_by_id(m: Map<u32, PhaseEntry>) -> bool {
    forall|k: u32| #[trigger] m.contains_key(k) ==> m[k].id == k
}

/// Phases by id.
pub struct PhaseStore {
    entries: HashMap<u32, PhaseEntry>,
}

impl View for PhaseStore {
    type V = Map<u32, PhaseEntry>;

    closed spec fn view(&self) -> Map<u32, PhaseEntry> {
        self.entries@
    }
}

impl PhaseStore {
    /// Every stored phase sits under its own id.
    #[verifier::type_invariant]
    pub open spec fn ids_match(&self) -> bool {
        keyed_by_id(self@)
    }

    /// Builds the store; a later row replaces an earlier one with the same id.
    pub fn from_entries(entries: Vec<PhaseEntry>) -> (s: Self)
        ensures
            s@ == index_by_key(entries@),
    {
        proof {
            lemma_index_by_key_consistent(entries@);
        }
        PhaseStore { entries: build_index(entries) }
    }

    /// Builds the store from the rows of Phase.db2, in file order.
    pub fn load(rows: Vec<PhaseEntry>) -> (s: Self)
        ensures
            s@ == index_by_key(rows@),
    {
        Self::from_entries(rows)
    }

    /// Applies hotfix rows: each replaces the phase with its id; gives the
    /// number of rows.
    pub fn load_hotfix_rows(&mut self, rows: Vec<PhaseEntry>) -> (n: usize)
        ensures
            n == rows@.len(),
            final(self)@ == old(self)@.union_prefer_right(index_by_key(rows@)),
    {
        proof {
            use_type_invariant(&*self);
        }
        let ghost m0 = self.entries@;
        let ghost all = rows@;
        let n = rows.len();
        let mut entries = HashMap::new();
        std::mem::swap(&mut entries, &mut self.entries);
        for row in it: rows
            invariant
                all == it.seq(),
                n == all.len(),
                keyed_by_id(entries@),
                entries@ == m0.union_prefer_right(index_by_key(all.take(it.index() as int))),
        {
            let ghost i = it.index() as int;
            proof {
                assert(all.take(i + 1).drop_last() =~= all.take(i));
            }
            entries.insert(row.id, row);
            proof {
                assert(entries@ =~= m0.union_prefer_right(index_by_key(all.take(i + 1))));
            }
        }
        proof {
            assert(all.take(all.len() as int) =~= all);
        }
        self.entries = entries;
        n
    }

    pub fn get(&self, id: u32) -> (r: Option<&PhaseEntry>)
        ensures
            r == (if self@.contains_key(id) {
                Some(&self@[id])
            } else {
                None
            }),
    {
        self.entries.get(&id)
    }

    /// All stored phases, each once, in no particular order.
    pub fn entries(&self) -> (r: Vec<&PhaseEntry>)
        ensures
            lists_values_where(self@, r@, |e: PhaseEntry| true),
    {
        let keep = |e: &PhaseEntry| -> (b: bool)
            ensures
                b,
            { true };
        index_values_where(&self.entries, keep, Ghost(|e: PhaseEntry| true))
    }

    pub fn contains(&self, id: u32) -> (b: bool)
        ensures
            b == self@.contains_key(id),
    {
        self.entries.contains_key(&id)
    }

    /// A personal phase: a stored phase with the personal flag.
    pub fn is_personal_phase(&self, phase_id: u32) -> (b: bool)
        ensures
            b == (self@.contains_key(phase_id) && self@[phase_id].flags & PHASE_ENTRY_FLAG_PERSONAL
                != 0),
    {
        match self.get(phase_id) {
            Some(phase) => phase.flags & PHASE_ENTRY_FLAG_PERSONAL != 0,
            None => false,
        }
    }

    /// A cosmetic phase: a stored phase with the cosmetic flag.
    pub fn is_cosmetic_phase(&self, phase_id: u32) -> (b: bool)
        ensures
            b == (self@.contains_key(phase_id) && self@[phase_id].flags & PHASE_ENTRY_FLAG_COSMETIC
                != 0),
    {
        match self.get(phase_id) {
            Some(phase) => phase.flags & PHASE_ENTRY_FLAG_COSMETIC != 0,
            None => false,
        }
    }

    pub fn len(&self) -> (n: usize)
        ensures
            n == self@.len(),
    {
        self.entries.len()
    }

    pub fn is_empty(&self) -> (b: bool)
        ensures
            b == self@.is_empty(),
    {
        self.entries.is_empty()
    }
}

/// The phases of group `group_id` in the listing `vs` of group rows: the
/// phase of every row of the group whose phase exists, in listing order.
pub open spec fn group_phases(
    vs: Seq<&PhaseXPhaseGroupEntry>,
    phases: Map<u32, PhaseEntry>,
    group_id: u32,
) -> Seq<u32> {
    vs.filter_map(
        |e: &PhaseXPhaseGroupEntry|
            if phases.contains_key(e.phase_id as u32) && e.phase_group_id == group_id {
                Some(e.phase_id as u32)
            } else {
                None
            },
    )
}

/// `by_group` holds, for every group with a phase, the phases of the group
/// in the listing `vs`.
pub open spec fn grouped_phases(
    by_group: Map<u32, Seq<u32>>,
    vs: Seq<&PhaseXPhaseGroupEntry>,
    phases: Map<u32, PhaseEntry>,
) -> bool {
    &&& forall|g: u32| #[trigger] by_group.contains_key(g) <==> group_phases(vs, phases, g).len() > 0
    &&& forall|g: u32| #[trigger] by_group.contains_key(g) ==> by_group[g] == group_phases(vs, phases, g)
}

/// Group rows by id, and the phases of each group.
pub struct PhaseGroupStore {
    entries: HashMap<u32, PhaseXPhaseGroupEntry>,
    phases_by_group: HashMap<u32, Vec<u32>>,
}

impl View for PhaseGroupStore {
    type V = (Map<u32, PhaseXPhaseGroupEntry>, Map<u32, Seq<u32>>);

    closed spec fn view(&self) -> (Map<u32, PhaseXPhaseGroupEntry>, Map<u32, Seq<u32>>) {
        (self.entries@, self.phases_by_group@.map_values(|v: Vec<u32>| v@))
    }
}

/// Groups the phases of the stored group rows, taking only rows whose phase
/// exists, in the order in which the rows are listed.
fn build_phases_by_group_like_cpp(
    phase_store: &PhaseStore,
    entries: &HashMap<u32, PhaseXPhaseGroupEntry>,
) -> (r: HashMap<u32, Vec<u32>>)
    ensures
        exists|vs: Seq<&PhaseXPhaseGroupEntry>| #[trigger]
            lists_all_values(entries@, vs) && grouped_phases(
                r@.map_values(|v: Vec<u32>| v@),
                vs,
                phase_store@,
            ),
{
    let keep = |e: &PhaseXPhaseGroupEntry| -> (b: bool)
        ensures
            b,
        { true };
    let all = index_values_where(entries, keep, Ghost(|e: PhaseXPhaseGroupEntry| true));
    let ghost vs = all@;
    let ghost phases = phase_store@;
    let mut by_group: HashMap<u32, Vec<u32>> = HashMap::new();
    let mut i: usize = 0;
    while i < all.len()
        invariant
            i <= vs.len(),
            vs == all@,
            phases == phase_store@,
            forall|g: u32| #[trigger] by_group@.contains_key(g) <==> group_phases(vs.take(i as int), phases, g).len() > 0,
            forall|g: u32| #[trigger] by_group@.contains_key(g) ==> by_group@[g]@ == group_phases(vs.take(i as int), phases, g),
        decreases vs.len() - i,
    {
        let e = all[i];
        proof {
            assert(vs.take(i + 1).drop_last() =~= vs.take(i as int));
        }
        if phase_store.contains(e.phase_id as u32) {
            let g = e.phase_group_id;
            let mut bucket = match by_group.remove(&g) {
                Some(v) => v,
                None => Vec::new(),
            };
            bucket.push(e.phase_id as u32);
            by_group.insert(g, bucket);
        }
        proof {
            assert forall|g: u32| #[trigger] by_group@.contains_key(g) <==> group_phases(
                vs.take(i + 1),
                phases,
                g,
            ).len() > 0 by {
                assert(vs.take(i + 1).last() == e);
            }
            assert forall|g: u32| #[trigger] by_group@.contains_key(g) implies by_group@[g]@ == group_phases(
                vs.take(i + 1),
                phases,
                g,
            ) by {
                assert(vs.take(i + 1).last() == e);
            }
        }
        i = i + 1;
    }
    proof {
        assert(vs.take(vs.len() as int) =~= vs);
        assert(lists_all_values(entries@, vs));
        assert(grouped_phases(by_group@.map_values(|v: Vec<u32>| v@), vs, phases));
    }
    by_group
}

impl PhaseGroupStore {
    /// Builds the store: group rows by id (a later row replacing an earlier
    /// one with the same id), and the phases of each group, taken from the
    /// stored rows whose phase exists.
    pub fn from_entries(phase_store: &PhaseStore, entries: Vec<PhaseXPhaseGroupEntry>) -> (s: Self)
        ensures
            s@.0 == index_by_key(entries@),
            exists|vs: Seq<&PhaseXPhaseGroupEntry>| #[trigger]
                lists_all_values(s@.0, vs) && grouped_phases(
                    s@.1,
                    vs,
                    phase_store@,
                ),
    {
        let entries = build_index(entries);
        let phases_by_group = build_phases_by_group_like_cpp(phase_store, &entries);
        PhaseGroupStore { entries, phases_by_group }
    }

    /// Builds the store from the rows of PhaseXPhaseGroup.db2, in file order.
    pub fn load(rows: Vec<PhaseXPhaseGroupEntry>, phase_store: &PhaseStore) -> (s: Self)
        ensures
            s@.0 == index_by_key(rows@),
            exists|vs: Seq<&PhaseXPhaseGroupEntry>| #[trigger]
                lists_all_values(s@.0, vs) && grouped_phases(
                    s@.1,
                    vs,
                    phase_store@,
                ),
    {
        Self::from_entries(phase_store, rows)
    }

    /// Applies hotfix rows, each replacing the row with its id, then groups
    /// the phases again; gives the number of rows.
    pub fn load_hotfix_rows(&mut self, rows: Vec<PhaseXPhaseGroupEntry>, phase_store: &PhaseStore) -> (n:
        usize)
        ensures
            n == rows@.len(),
            final(self)@.0 == old(self)@.0.union_prefer_right(index_by_key(rows@)),
            exists|vs: Seq<&PhaseXPhaseGroupEntry>| #[trigger]
                lists_all_values(final(self)@.0, vs)
                    && grouped_phases(final(self)@.1, vs, phase_store@),
    {
        let ghost m0 = self.entries@;
        let ghost all = rows@;
        let n = rows.len();
        for row in it: rows
            invariant
                all == it.seq(),
                n == all.len(),
                self.entries@ == m0.union_prefer_right(index_by_key(all.take(it.index() as int))),
        {
            let ghost i = it.index() as int;
            proof {
                assert(all.take(i + 1).drop_last() =~= all.take(i));
            }
            self.entries.insert(row.id, row);
            proof {
                assert(self.entries@ =~= m0.union_prefer_right(index_by_key(all.take(i + 1))));
            }
        }
        proof {
            assert(all.take(all.len() as int) =~= all);
        }
        self.phases_by_group = build_phases_by_group_like_cpp(phase_store, &self.entries);
        n
    }

    pub fn get(&self, id: u32) -> (r: Option<&PhaseXPhaseGroupEntry>)
        ensures
            r == (if self@.0.contains_key(id) {
                Some(&self@.0[id])
            } else {
                None
            }),
    {
        self.entries.get(&id)
    }

    /// The phases of a group; none when the group has none.
    pub fn phases_for_group(&self, group_id: u32) -> (r: Option<&[u32]>)
        ensures
            r matches Some(v) ==> self@.1.contains_key(group_id) && v@ == self@.1[group_id],
            r is None ==> !self@.1.contains_key(group_id),
    {
        match self.phases_by_group.get(&group_id) {
            Some(v) => Some(v.as_slice()),
            None => None,
        }
    }

    pub fn len(&self) -> (n: usize)
        ensures
            n == self@.0.len(),
    {
        self.entries.len()
    }

    pub fn is_empty(&self) -> (b: bool)
        ensures
            b == self@.0.is_empty(),
    {
        self.entries.is_empty()
    }
}

} // verus!
