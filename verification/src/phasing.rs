//! Phase areas: the areas of each phase, the phases of each area, and the
//! sub-areas that an area's phase leaves out.
use std::collections::{HashMap, HashSet};
use vstd::prelude::*;
use vstd::std_specs::iter::IteratorSpec;

use crate::area::{area_chains_end, is_ancestor, is_strict_ancestor, AreaTableStore};
use crate::db2_index::{index_values_where, lists_all_values};
use crate::phase::PhaseStore;
use crate::predicates::{holds2, is_predicate2, lemma_predicate2_answer};

verus! {

broadcast use vstd::std_specs::hash::group_hash_axioms;

/// The conditions attached to a phase area, in attachment order.
#[derive(Debug, Clone, PartialEq, Eq)]
pub struct PhaseConditionContainer<C> {
    conditions: Vec<C>,
}

impl<C> View for PhaseConditionContainer<C> {
    type V = Seq<C>;

    closed spec fn view(&self) -> Seq<C> {
        self.conditions@
    }
}

impl<C> Default for PhaseConditionContainer<C> {
    fn default() -> (c: Self)
        ensures
            c@ == Seq::<C>::empty(),
    {
        PhaseConditionContainer { conditions: Vec::new() }
    }
}

impl<C: Clone> PhaseConditionContainer<C> {
    pub fn conditions(&self) -> (r: &[C])
        ensures
            r@ == self@,
    {
        self.conditions.as_slice()
    }

    pub fn is_empty(&self) -> (b: bool)
        ensures
            b == (self@.len() == 0),
    {
        self.conditions.len() == 0
    }

    pub fn len(&self) -> (n: usize)
        ensures
            n == self@.len(),
    {
        self.conditions.len()
    }

    /// Appends copies of the conditions, in order.
    pub fn append_like_cpp(&mut self, conditions: &[C])
        ensures
            final(self)@.len() == old(self)@.len() + conditions@.len(),
            final(self)@.subrange(0, old(self)@.len() as int) == old(self)@,
            forall|i: int| 0 <= i < conditions@.len() ==> cloned(
                conditions@[i],
                #[trigger] final(self)@[old(self)@.len() + i],
            ),
    {
        let ghost old_conditions = self.conditions@;
        let mut i: usize = 0;
        while i < conditions.len()
            invariant
                i <= conditions@.len(),
                self.conditions@.len() == old_conditions.len() + i,
                self.conditions@.subrange(0, old_conditions.len() as int) == old_conditions,
                forall|j: int| 0 <= j < i ==> cloned(
                    conditions@[j],
                    #[trigger] self.conditions@[old_conditions.len() + j],
                ),
            decreases conditions@.len() - i,
        {
            let c = conditions[i].clone();
            let ghost before = self.conditions@;
            self.conditions.push(c);
            proof {
                assert(self.conditions@.subrange(0, old_conditions.len() as int) =~= before.subrange(
                    0,
                    old_conditions.len() as int,
                ));
                assert forall|j: int| 0 <= j < i + 1 implies cloned(
                    conditions@[j],
                    #[trigger] self.conditions@[old_conditions.len() + j],
                ) by {
                    if j < i {
                        assert(self.conditions@[old_conditions.len() + j] == before[old_conditions.len() + j]);
                    }
                }
            }
            i = i + 1;
        }
    }
}

/// A phase and the areas it is defined in.
#[derive(Debug, PartialEq, Eq)]
pub struct PhaseInfoStruct {
    pub id: u32,
    pub areas: HashSet<u32>,
}

impl PhaseInfoStruct {
    /// Whether the area lies in one of the phase's areas, as `is_in_area`
    /// (area, area of the phase) answers.
    pub fn is_allowed_in_area_like_cpp<F: Fn(u32, u32) -> bool>(&self, area_id: u32, is_in_area: F) -> (r:
        bool)
        requires
            is_predicate2(is_in_area),
        ensures
            r == exists|a: u32| #[trigger] self.areas@.contains(a) && holds2(is_in_area, area_id, a),
    {
        let ghost keys = vstd::std_specs::hash::spec_hash_keys_iter(&self.areas).remaining();
        for a in it: self.areas.iter()
            invariant
                it.seq() == keys,
                keys.unref().to_set() == self.areas@,
                is_predicate2(is_in_area),
                forall|j: int| #![trigger keys[j]] 0 <= j < it.index() ==> !holds2(is_in_area, area_id, *keys[j]),
        {
            let ghost i = it.index() as int;
            let found = is_in_area(area_id, *a);
            proof {
                lemma_predicate2_answer(is_in_area, area_id, *a, found);
                assert(a == keys[i]);
            }
            if found {
                proof {
                    assert(keys.unref().contains(*a)) by {
                        assert(keys.unref()[i] == *a);
                    }
                    assert(self.areas@.contains(*a));
                }
                return true;
            }
        }
        proof {
            assert forall|a: u32| #[trigger] self.areas@.contains(a) implies !holds2(is_in_area, area_id, a) by {
                assert(keys.unref().to_set().contains(a));
                let j = choose|j: int| 0 <= j < keys.unref().len() && keys.unref()[j] == a;
                assert(*keys[j] == a);
            }
        }
        false
    }
}

/// A phase of an area: the phase, the sub-areas it leaves out and its
/// conditions.
#[derive(Debug, PartialEq, Eq)]
pub struct PhaseAreaInfo<C> {
    pub phase_id: u32,
    pub sub_area_exclusions: HashSet<u32>,
    pub conditions: PhaseConditionContainer<C>,
}

/// A phase area as values: phase, excluded sub-areas, conditions.
pub open spec fn area_info_view<C>(i: PhaseAreaInfo<C>) -> (u32, Set<u32>, Seq<C>) {
    (i.phase_id, i.sub_area_exclusions@, i.conditions@)
}

/// A phase info as values: id and areas.
pub open spec fn phase_info_view(p: PhaseInfoStruct) -> (u32, Set<u32>) {
    (p.id, p.areas@)
}

/// What attaching conditions to phase areas did; a condition is named by its
/// (source group, source entry, source id).
#[derive(Debug, Clone, Default, PartialEq, Eq)]
pub struct PhaseConditionAttachmentReport {
    pub attached_condition_count: usize,
    pub missing_phase_areas: Vec<(u32, i32, u32)>,
}

/// Phase infos by phase id and phase areas by area id.
#[derive(Debug)]
pub struct PhaseInfoStore<C> {
    phase_info_by_id: HashMap<u32, PhaseInfoStruct>,
    phase_info_by_area: HashMap<u32, Vec<PhaseAreaInfo<C>>>,
}

/// A row (area, phase) is loaded when both exist.
pub open spec fn area_row_kept(
    areas: Map<u32, crate::area::AreaTableEntry>,
    phases: Map<u32, crate::phase::PhaseEntry>,
    row: (u32, u32),
) -> bool {
    areas.contains_key(row.0) && phases.contains_key(row.1)
}

/// The phase areas after the loaded rows: each row appends a phase area with
/// no exclusions and no conditions to its area.
pub open spec fn areas_after_rows<C>(
    m: Map<u32, Seq<(u32, Set<u32>, Seq<C>)>>,
    rows: Seq<(u32, u32)>,
    areas: Map<u32, crate::area::AreaTableEntry>,
    phases: Map<u32, crate::phase::PhaseEntry>,
) -> Map<u32, Seq<(u32, Set<u32>, Seq<C>)>>
    decreases rows.len(),
{
    if rows.len() == 0 {
        m
    } else {
        let before = areas_after_rows(m, rows.drop_last(), areas, phases);
        let r = rows.last();
        if area_row_kept(areas, phases, r) {
            before.insert(
                r.0,
                (if before.contains_key(r.0) {
                    before[r.0]
                } else {
                    Seq::empty()
                }).push((r.1, Set::empty(), Seq::empty())),
            )
        } else {
            before
        }
    }
}

/// The phase infos after the loaded rows: each row adds its area to its
/// phase, creating the phase info when missing.
pub open spec fn infos_after_rows(
    m: Map<u32, (u32, Set<u32>)>,
    rows: Seq<(u32, u32)>,
    areas: Map<u32, crate::area::AreaTableEntry>,
    phases: Map<u32, crate::phase::PhaseEntry>,
) -> Map<u32, (u32, Set<u32>)>
    decreases rows.len(),
{
    if rows.len() == 0 {
        m
    } else {
        let before = infos_after_rows(m, rows.drop_last(), areas, phases);
        let r = rows.last();
        if area_row_kept(areas, phases, r) {
            before.insert(
                r.1,
                if before.contains_key(r.1) {
                    (before[r.1].0, before[r.1].1.insert(r.0))
                } else {
                    (r.1, Set::empty().insert(r.0))
                },
            )
        } else {
            before
        }
    }
}

/// The number of loaded rows.
pub open spec fn kept_area_rows(
    rows: Seq<(u32, u32)>,
    areas: Map<u32, crate::area::AreaTableEntry>,
    phases: Map<u32, crate::phase::PhaseEntry>,
) -> nat
    decreases rows.len(),
{
    if rows.len() == 0 {
        0
    } else {
        kept_area_rows(rows.drop_last(), areas, phases) + if area_row_kept(areas, phases, rows.last()) {
            1nat
        } else {
            0nat
        }
    }
}

/// Area `c` has a phase area of phase `p`.
pub open spec fn has_area_phase<C>(m: Map<u32, Seq<(u32, Set<u32>, Seq<C>)>>, c: u32, p: u32) -> bool {
    m.contains_key(c) && exists|i: int| 0 <= i < m[c].len() && #[trigger] m[c][i].0 == p
}

/// The sub-areas that a phase area of phase `p` in area `a` leaves out: the
/// areas below `a` that have a phase area of the same phase.
pub open spec fn excluded_sub_areas<C>(
    m: Map<u32, Seq<(u32, Set<u32>, Seq<C>)>>,
    areas: Map<u32, crate::area::AreaTableEntry>,
    a: u32,
    p: u32,
) -> Set<u32> {
    Set::new(|c: u32| has_area_phase(m, c, p) && is_ancestor(areas, a, c))
}

/// `after` is `before` with every phase area's exclusions extended by the
/// sub-areas it leaves out.
pub open spec fn exclusions_populated<C>(
    before: Map<u32, Seq<(u32, Set<u32>, Seq<C>)>>,
    after: Map<u32, Seq<(u32, Set<u32>, Seq<C>)>>,
    areas: Map<u32, crate::area::AreaTableEntry>,
) -> bool {
    &&& after.dom() == before.dom()
    &&& forall|a: u32| #[trigger] after.contains_key(a) ==> after[a].len() == before[a].len()
    &&& forall|a: u32, j: int|
        #![trigger after[a][j]]
        after.contains_key(a) && 0 <= j < after[a].len() ==> {
            &&& after[a][j].0 == before[a][j].0
            &&& after[a][j].2 == before[a][j].2
            &&& after[a][j].1 == before[a][j].1.union(
                excluded_sub_areas(before, areas, a, before[a][j].0),
            )
        }
}

/// The sum of the phase area counts of the areas `ks`.
pub open spec fn area_phase_counts<C>(m: Map<u32, Seq<(u32, Set<u32>, Seq<C>)>>, ks: Seq<u32>) -> nat
    decreases ks.len(),
{
    if ks.len() == 0 {
        0
    } else {
        area_phase_counts(m, ks.drop_last()) + m[ks.last()].len()
    }
}

/// `ks` names each key of `m` once.
pub open spec fn keys_once<V>(m: Map<u32, V>, ks: Seq<u32>) -> bool {
    &&& ks.no_duplicates()
    &&& forall|i: int| 0 <= i < ks.len() ==> #[trigger] m.contains_key(ks[i])
    &&& forall|k: u32| #[trigger] m.contains_key(k) ==> ks.contains(k)
}


/// The sub-areas of area `a` among the first `t` pairs (area, phase) that
/// have phase `p`.
pub open spec fn excluded_among<C>(
    pairs: Seq<(u32, u32)>,
    t: int,
    areas: Map<u32, crate::area::AreaTableEntry>,
    a: u32,
    p: u32,
) -> Set<u32> {
    Set::new(|c: u32| exists|s: int| 0 <= s < t && #[trigger] pairs[s] == (c, p) && is_ancestor(areas, a, c))
}

impl<C> PhaseInfoStore<C> {
    /// The phase infos: phase id to (id, areas).
    pub closed spec fn infos_by_id(&self) -> Map<u32, (u32, Set<u32>)> {
        self.phase_info_by_id@.map_values(|p: PhaseInfoStruct| phase_info_view(p))
    }

    /// The phase areas: area id to its phase areas, in load order.
    pub closed spec fn infos_by_area(&self) -> Map<u32, Seq<(u32, Set<u32>, Seq<C>)>> {
        self.phase_info_by_area@.map_values(
            |v: Vec<PhaseAreaInfo<C>>| v@.map_values(|i: PhaseAreaInfo<C>| area_info_view(i)),
        )
    }

    /// One phase info per stored phase, with no areas, and no phase areas.
    pub fn from_phase_store_like_cpp(phase_store: &PhaseStore) -> (s: Self)
        ensures
            s.infos_by_id().dom() == phase_store@.dom(),
            forall|k: u32| #[trigger] s.infos_by_id().contains_key(k) ==> s.infos_by_id()[k] == (
                k,
                Set::<u32>::empty(),
            ),
            s.infos_by_area() == Map::<u32, Seq<(u32, Set<u32>, Seq<C>)>>::empty(),
    {
        proof {
            use_type_invariant(phase_store);
        }
        let all = phase_store.entries();
        let ghost m = phase_store@;
        let ghost every = |e: crate::phase::PhaseEntry| true;
        let ghost ks = choose|ks: Seq<u32>| #[trigger] crate::db2_index::lists_keys_where(m, ks, all@, every);
        let mut by_id: HashMap<u32, PhaseInfoStruct> = HashMap::new();
        let mut i: usize = 0;
        while i < all.len()
            invariant
                i <= all@.len(),
                m == phase_store@,
                crate::phase::keyed_by_id(m),
                crate::db2_index::lists_keys_where(m, ks, all@, every),
                forall|k: u32| #[trigger] by_id@.contains_key(k) <==> exists|j: int| 0 <= j < i && ks[j] == k,
                forall|k: u32| #[trigger] by_id@.contains_key(k) ==> phase_info_view(by_id@[k]) == (
                    k,
                    Set::<u32>::empty(),
                ),
            decreases all@.len() - i,
        {
            let id = all[i].id;
            proof {
                assert(m.contains_key(ks[i as int]) && m[ks[i as int]] == *all@[i as int]);
                assert(id == ks[i as int]);
            }
            by_id.insert(id, PhaseInfoStruct { id, areas: HashSet::new() });
            i = i + 1;
        }
        let s = PhaseInfoStore { phase_info_by_id: by_id, phase_info_by_area: HashMap::new() };
        proof {
            assert forall|k: u32| s.infos_by_id().dom().contains(k) <==> phase_store@.dom().contains(k) by {
                if m.contains_key(k) {
                    assert(ks.contains(k));
                    let j = choose|j: int| 0 <= j < ks.len() && ks[j] == k;
                }
            }
            assert(s.infos_by_id().dom() =~= phase_store@.dom());
            assert(s.infos_by_area() =~= Map::<u32, Seq<(u32, Set<u32>, Seq<C>)>>::empty());
        }
        s
    }

    /// The phase info of a phase.
    pub fn phase_info(&self, phase_id: u32) -> (r: Option<&PhaseInfoStruct>)
        ensures
            r matches Some(p) ==> self.infos_by_id().contains_key(phase_id) && phase_info_view(*p)
                == self.infos_by_id()[phase_id],
            r is None ==> !self.infos_by_id().contains_key(phase_id),
    {
        self.phase_info_by_id.get(&phase_id)
    }

    /// The phase areas of an area.
    pub fn phases_for_area(&self, area_id: u32) -> (r: Option<&[PhaseAreaInfo<C>]>)
        ensures
            r matches Some(v) ==> self.infos_by_area().contains_key(area_id) && v@.map_values(
                |i: PhaseAreaInfo<C>| area_info_view(i),
            ) == self.infos_by_area()[area_id],
            r is None ==> !self.infos_by_area().contains_key(area_id),
    {
        match self.phase_info_by_area.get(&area_id) {
            Some(v) => Some(v.as_slice()),
            None => None,
        }
    }

    /// The phase areas of an area, to be changed in place.
    pub fn phases_for_area_mut(&mut self, area_id: u32) -> (r: Option<&mut [PhaseAreaInfo<C>]>)
        ensures
            final(self).infos_by_id() == old(self).infos_by_id(),
            match r {
                Some(s) => {
                    &&& old(self).infos_by_area().contains_key(area_id)
                    &&& s@.map_values(|i: PhaseAreaInfo<C>| area_info_view(i)) == old(self).infos_by_area()[area_id]
                    &&& final(self).infos_by_area() == old(self).infos_by_area().insert(
                        area_id,
                        final(s)@.map_values(|i: PhaseAreaInfo<C>| area_info_view(i)),
                    )
                },
                None => {
                    &&& !old(self).infos_by_area().contains_key(area_id)
                    &&& final(self).infos_by_area() == old(self).infos_by_area()
                },
            },
    {
        match self.phase_info_by_area.entry(area_id) {
            std::collections::hash_map::Entry::Occupied(o) => {
                let v = o.into_mut();
                Some(v.as_mut_slice())
            },
            std::collections::hash_map::Entry::Vacant(_) => None,
        }
    }

    /// The number of phase infos.
    pub fn phase_info_count(&self) -> (n: usize)
        ensures
            n == self.infos_by_id().len(),
    {
        proof {
            assert(self.infos_by_id().dom() =~= self.phase_info_by_id@.dom());
        }
        self.phase_info_by_id.len()
    }

    /// The number of phase areas over all areas (saturating at the largest
    /// `usize`).
    pub fn phase_area_count(&self) -> (n: usize)
        ensures
            exists|ks: Seq<u32>| #[trigger]
                keys_once(self.infos_by_area(), ks) && n == (if area_phase_counts(self.infos_by_area(), ks)
                    <= usize::MAX {
                    area_phase_counts(self.infos_by_area(), ks)
                } else {
                    usize::MAX as nat
                }),
    {
        let ghost m = self.infos_by_area();
        let ghost pairs = vstd::std_specs::hash::spec_hash_map_iter(&self.phase_info_by_area).remaining();
        let ghost mut ks: Seq<u32> = Seq::empty();
        let mut total: usize = 0;
        for pair in it: self.phase_info_by_area.iter()
            invariant
                it.seq() == pairs,
                pairs.no_duplicates(),
                m == self.infos_by_area(),
                ks.len() == it.index(),
                forall|i: int| 0 <= i < ks.len() ==> ks[i] == *pairs[i].0,
                total == (if area_phase_counts(m, ks) <= usize::MAX {
                    area_phase_counts(m, ks)
                } else {
                    usize::MAX as nat
                }),
        {
            let (k, v) = pair;
            let ghost i = it.index() as int;
            let ghost ks0 = ks;
            proof {
                assert(pair == pairs[i]);
                assert(self.phase_info_by_area@.contains_key(*pairs[i].0));
                assert(m[*k].len() == v@.len());
                ks = ks.push(*k);
                assert(ks.drop_last() =~= ks0);
            }
            total = total.saturating_add(v.len());
        }
        proof {
            lemma_keys_of_walk(&self.phase_info_by_area, ks);
            assert(keys_once(m, ks));
        }
        total
    }

    /// Loads (area, phase) rows: a row whose area and phase exist adds the
    /// area to the phase and a phase area to the area; then every phase area
    /// leaves out the sub-areas that have a phase area of the same phase.
    /// Gives the number of rows loaded.
    pub fn load_area_phases_from_rows_like_cpp(
        &mut self,
        area_store: &AreaTableStore,
        phase_store: &PhaseStore,
        rows: Vec<(u32, u32)>,
    ) -> (n: usize)
        requires
            area_chains_end(area_store@),
        ensures
            n == kept_area_rows(rows@, area_store@, phase_store@),
            final(self).infos_by_id() == infos_after_rows(
                old(self).infos_by_id(),
                rows@,
                area_store@,
                phase_store@,
            ),
            exclusions_populated(
                areas_after_rows(old(self).infos_by_area(), rows@, area_store@, phase_store@),
                final(self).infos_by_area(),
                area_store@,
            ),
    {
        let ghost all = rows@;
        let ghost id0 = self.infos_by_id();
        let ghost area0 = self.infos_by_area();
        let n = rows.len();
        let mut count: usize = 0;
        for row in it: rows
            invariant
                all == it.seq(),
                n == all.len(),
                count == kept_area_rows(all.take(it.index() as int), area_store@, phase_store@),
                count <= it.index(),
                self.infos_by_id() == infos_after_rows(id0, all.take(it.index() as int), area_store@, phase_store@),
                self.infos_by_area() == areas_after_rows(area0, all.take(it.index() as int), area_store@, phase_store@),
        {
            let ghost i = it.index() as int;
            proof {
                assert(all.take(i + 1).drop_last() =~= all.take(i));
                assert(all.take(i + 1).last() == row);
            }
            let (area_id, phase_id) = row;
            if area_store.contains(area_id) && phase_store.contains(phase_id) {
                let mut info = match self.phase_info_by_id.remove(&phase_id) {
                    Some(p) => p,
                    None => PhaseInfoStruct { id: phase_id, areas: HashSet::new() },
                };
                info.areas.insert(area_id);
                self.phase_info_by_id.insert(phase_id, info);
                let ghost by_area_i = self.infos_by_area();
                let mut list = match self.phase_info_by_area.remove(&area_id) {
                    Some(v) => v,
                    None => Vec::new(),
                };
                let ghost list0 = list@;
                proof {
                    assert(list0.map_values(|x: PhaseAreaInfo<C>| area_info_view(x)) =~= (if by_area_i.contains_key(area_id) {
                        by_area_i[area_id]
                    } else {
                        Seq::empty()
                    }));
                }
                let added = PhaseAreaInfo {
                    phase_id,
                    sub_area_exclusions: HashSet::new(),
                    conditions: PhaseConditionContainer { conditions: Vec::new() },
                };
                list.push(added);
                self.phase_info_by_area.insert(area_id, list);
                count = count + 1;
                proof {
                    assert(self.infos_by_id() =~= infos_after_rows(id0, all.take(i + 1), area_store@, phase_store@));
                    assert(area_info_view(added) == (phase_id, Set::<u32>::empty(), Seq::<C>::empty())) by {
                        assert(added.conditions@ =~= Seq::<C>::empty());
                    }
                    assert(list@.map_values(|x: PhaseAreaInfo<C>| area_info_view(x)) =~= list0.map_values(
                        |x: PhaseAreaInfo<C>| area_info_view(x),
                    ).push(area_info_view(added)));
                    assert(self.infos_by_area() =~= areas_after_rows(area0, all.take(i + 1), area_store@, phase_store@));
                }
            }
        }
        proof {
            assert(all.take(all.len() as int) =~= all);
        }
        self.populate_sub_area_exclusions_like_cpp(area_store);
        count
    }

    /// Every (area, phase) pair of the phase areas.
    fn area_phase_pairs(&self) -> (r: Vec<(u32, u32)>)
        ensures
            forall|c: u32, p: u32| #[trigger] r@.contains((c, p)) <==> has_area_phase(self.infos_by_area(), c, p),
    {
        let ghost m = self.infos_by_area();
        let ghost pairs = vstd::std_specs::hash::spec_hash_map_iter(&self.phase_info_by_area).remaining();
        let ghost mut ks: Seq<u32> = Seq::empty();
        let mut r: Vec<(u32, u32)> = Vec::new();
        for pair in it: self.phase_info_by_area.iter()
            invariant
                it.seq() == pairs,
                m == self.infos_by_area(),
                ks.len() == it.index(),
                forall|i: int| 0 <= i < ks.len() ==> ks[i] == *pairs[i].0,
                forall|c: u32, p: u32| #[trigger] r@.contains((c, p)) <==> (ks.contains(c) && has_area_phase(m, c, p)),
        {
            let (k, v) = pair;
            let ghost i = it.index() as int;
            let ghost r0 = r@;
            proof {
                assert(pair == pairs[i]);
                assert(self.phase_info_by_area@.contains_key(*pairs[i].0));
            }
            let mut j: usize = 0;
            while j < v.len()
                invariant
                    j <= v@.len(),
                    m == self.infos_by_area(),
                    m.contains_key(*k),
                    m[*k] == v@.map_values(|x: PhaseAreaInfo<C>| area_info_view(x)),
                    forall|c: u32, p: u32| #[trigger] r@.contains((c, p)) <==> (r0.contains((c, p)) || (c
                        == *k && exists|j2: int| 0 <= j2 < j && #[trigger] v@[j2].phase_id == p)),
                decreases v@.len() - j,
            {
                let ghost r1 = r@;
                r.push((*k, v[j].phase_id));
                proof {
                    assert forall|c: u32, p: u32| #[trigger] r@.contains((c, p)) <==> (r0.contains((c, p)) || (c
                        == *k && exists|j2: int| 0 <= j2 < j + 1 && #[trigger] v@[j2].phase_id == p)) by {
                        if r@.contains((c, p)) && !r1.contains((c, p)) {
                            assert(r@[r1.len() as int] == (c, p)) by {
                                let q = choose|q: int| 0 <= q < r@.len() && r@[q] == (c, p);
                                if q < r1.len() {
                                    assert(r1[q] == (c, p));
                                }
                            }
                        }
                        if r1.contains((c, p)) {
                            let q = choose|q: int| 0 <= q < r1.len() && r1[q] == (c, p);
                            assert(r@[q] == (c, p));
                        }
                        if c == *k && v@[j as int].phase_id == p {
                            assert(r@[r1.len() as int] == (c, p));
                        }
                    }
                }
                j = j + 1;
            }
            proof {
                let ks0 = ks;
                ks = ks.push(*k);
                assert forall|c: u32, p: u32| #[trigger] r@.contains((c, p)) <==> (ks.contains(c)
                    && has_area_phase(m, c, p)) by {
                    if c == *k {
                        assert(ks[ks0.len() as int] == c);
                        if has_area_phase(m, c, p) {
                            let j2 = choose|j2: int| 0 <= j2 < m[c].len() && #[trigger] m[c][j2].0 == p;
                            assert(v@[j2].phase_id == p);
                        }
                        if exists|j2: int| 0 <= j2 < v@.len() && #[trigger] v@[j2].phase_id == p {
                            let j2 = choose|j2: int| 0 <= j2 < v@.len() && #[trigger] v@[j2].phase_id == p;
                            assert(m[c][j2].0 == p);
                        }
                    } else {
                        if ks.contains(c) {
                            let q = choose|q: int| 0 <= q < ks.len() && ks[q] == c;
                            assert(ks0[q] == c);
                        }
                        if ks0.contains(c) {
                            let q = choose|q: int| 0 <= q < ks0.len() && ks0[q] == c;
                            assert(ks[q] == c);
                        }
                    }
                }
            }
        }
        proof {
            lemma_keys_of_walk(&self.phase_info_by_area, ks);
        }
        r
    }

    /// The areas with phase areas, each once.
    fn area_keys(&self) -> (r: Vec<u32>)
        ensures
            keys_once(self.phase_info_by_area@, r@),
    {
        let ghost pairs = vstd::std_specs::hash::spec_hash_map_iter(&self.phase_info_by_area).remaining();
        let mut r: Vec<u32> = Vec::new();
        for pair in it: self.phase_info_by_area.iter()
            invariant
                it.seq() == pairs,
                pairs.no_duplicates(),
                r@.len() == it.index(),
                forall|i: int| 0 <= i < r@.len() ==> r@[i] == *pairs[i].0,
        {
            let (k, _v) = pair;
            proof {
                assert(pair == pairs[it.index() as int]);
            }
            r.push(*k);
        }
        proof {
            lemma_keys_of_walk(&self.phase_info_by_area, r@);
        }
        r
    }

    /// Extends the exclusions of every phase area by the sub-areas (of any
    /// depth) that have a phase area of the same phase.
    fn populate_sub_area_exclusions_like_cpp(&mut self, area_store: &AreaTableStore)
        requires
            area_chains_end(area_store@),
        ensures
            exclusions_populated(old(self).infos_by_area(), final(self).infos_by_area(), area_store@),
            final(self).infos_by_id() == old(self).infos_by_id(),
    {
        let pairs = self.area_phase_pairs();
        let keys = self.area_keys();
        let ghost before = self.infos_by_area();
        let ghost areas = area_store@;
        let mut idx: usize = 0;
        while idx < keys.len()
            invariant
                idx <= keys@.len(),
                areas == area_store@,
                area_chains_end(areas),
                keys_once(before, keys@),
                forall|c: u32, p: u32| #[trigger] pairs@.contains((c, p)) <==> has_area_phase(before, c, p),
                self.infos_by_id() == old(self).infos_by_id(),
                self.infos_by_area().dom() == before.dom(),
                forall|k: u32| #[trigger] self.infos_by_area().contains_key(k) ==> self.infos_by_area()[k].len() == before[k].len(),
                forall|k: u32, j: int|
                    #![trigger self.infos_by_area()[k][j]]
                    self.infos_by_area().contains_key(k) && 0 <= j < before[k].len() ==> {
                        &&& self.infos_by_area()[k][j].0 == before[k][j].0
                        &&& self.infos_by_area()[k][j].2 == before[k][j].2
                        &&& self.infos_by_area()[k][j].1 == if keys@.subrange(0, idx as int).contains(k) {
                            before[k][j].1.union(excluded_sub_areas(before, areas, k, before[k][j].0))
                        } else {
                            before[k][j].1
                        }
                    },
            decreases keys@.len() - idx,
        {
            let a = keys[idx];
            proof {
                assert(before.contains_key(a));
                assert(!keys@.subrange(0, idx as int).contains(a)) by {
                    if keys@.subrange(0, idx as int).contains(a) {
                        let q = choose|q: int| 0 <= q < idx && #[trigger] keys@.subrange(0, idx as int)[q] == a;
                        assert(keys@[q] == keys@[idx as int]);
                    }
                }
                assert(self.infos_by_area().contains_key(a));
            }
            let ghost view0 = self.infos_by_area();
            let mut list = match self.phase_info_by_area.remove(&a) {
                Some(v) => v,
                None => Vec::new(),
            };
            let ghost list0 = list@;
            proof {
                assert(list0.map_values(|x: PhaseAreaInfo<C>| area_info_view(x)) == view0[a]);
                assert(view0[a].len() == before[a].len());
                assert forall|q: int| 0 <= q < before[a].len() implies view0[a][q] == before[a][q] by {
                    assert(view0[a][q].0 == before[a][q].0);
                }
                assert(view0[a] =~= before[a]);
                assert forall|q: int| 0 <= q < list0.len() implies (#[trigger] list0[q]).phase_id == before[a][q].0
                    && list0[q].conditions@ == before[a][q].2 && list0[q].sub_area_exclusions@ == before[a][q].1 by {
                    assert(area_info_view(list0[q]) == before[a][q]);
                }
            }
            let len = list.len();
            let mut j: usize = 0;
            while j < len
                invariant
                    j <= len,
                    len == list0.len(),
                    list@.len() == len,
                    areas == area_store@,
                    area_chains_end(areas),
                    list0.len() == before[a].len(),
                    forall|q: int| 0 <= q < len ==> (#[trigger] list0[q]).phase_id == before[a][q].0
                        && list0[q].conditions@ == before[a][q].2 && list0[q].sub_area_exclusions@ == before[a][q].1,
                    forall|c: u32, p: u32| #[trigger] pairs@.contains((c, p)) <==> has_area_phase(before, c, p),
                    forall|q: int| 0 <= q < len ==> {
                        &&& (#[trigger] list@[q]).phase_id == list0[q].phase_id
                        &&& list@[q].conditions@ == list0[q].conditions@
                        &&& list@[q].sub_area_exclusions@ == if q < j {
                            list0[q].sub_area_exclusions@.union(excluded_sub_areas(before, areas, a, list0[q].phase_id))
                        } else {
                            list0[q].sub_area_exclusions@
                        }
                    },
                decreases len - j,
            {
                let ghost listj = list@;
                let mut info = list.remove(j);
                let p = info.phase_id;
                let ghost excl0 = info.sub_area_exclusions@;
                let mut t: usize = 0;
                while t < pairs.len()
                    invariant
                        t <= pairs@.len(),
                        areas == area_store@,
                        area_chains_end(areas),
                        info.phase_id == p,
                        info.conditions@ == listj[j as int].conditions@,
                        info.sub_area_exclusions@ == excl0.union(excluded_among::<C>(pairs@, t as int, areas, a, p)),
                    decreases pairs@.len() - t,
                {
                    let (c, pc) = pairs[t];
                    let ghost excl_t = info.sub_area_exclusions@;
                    if pc == p && is_strict_ancestor(area_store, a, c) {
                        info.sub_area_exclusions.insert(c);
                    }
                    proof {
                        assert(info.sub_area_exclusions@ =~= excl0.union(excluded_among::<C>(pairs@, t + 1, areas, a, p))) by {
                            assert forall|x: u32| #[trigger] excluded_among::<C>(pairs@, t + 1, areas, a, p).contains(x)
                                <==> (excluded_among::<C>(pairs@, t as int, areas, a, p).contains(x) || (x == c && pc == p
                                && is_ancestor(areas, a, c))) by {
                                if excluded_among::<C>(pairs@, t + 1, areas, a, p).contains(x) {
                                    let s = choose|s: int| 0 <= s < t + 1 && #[trigger] pairs@[s] == (x, p) && is_ancestor(areas, a, x);
                                    if s < t {
                                        assert(excluded_among::<C>(pairs@, t as int, areas, a, p).contains(x));
                                    }
                                }
                                if excluded_among::<C>(pairs@, t as int, areas, a, p).contains(x) {
                                    let s = choose|s: int| 0 <= s < t && #[trigger] pairs@[s] == (x, p) && is_ancestor(areas, a, x);
                                    assert(0 <= s < t + 1 && pairs@[s] == (x, p));
                                }
                                if x == c && pc == p && is_ancestor(areas, a, c) {
                                    assert(pairs@[t as int] == (x, p));
                                }
                            }
                        }
                    }
                    t = t + 1;
                }
                proof {
                    assert(excluded_among::<C>(pairs@, pairs@.len() as int, areas, a, p) =~= excluded_sub_areas(before, areas, a, p)) by {
                        assert forall|x: u32| excluded_among::<C>(pairs@, pairs@.len() as int, areas, a, p).contains(x)
                            <==> excluded_sub_areas(before, areas, a, p).contains(x) by {
                            if has_area_phase(before, x, p) && is_ancestor(areas, a, x) {
                                assert(pairs@.contains((x, p)));
                                let s = choose|s: int| 0 <= s < pairs@.len() && pairs@[s] == (x, p);
                            }
                            if excluded_among::<C>(pairs@, pairs@.len() as int, areas, a, p).contains(x) {
                                let s = choose|s: int| 0 <= s < pairs@.len() && #[trigger] pairs@[s] == (x, p) && is_ancestor(areas, a, x);
                                assert(pairs@.contains((x, p)));
                            }
                        }
                    }
                }
                list.insert(j, info);
                proof {
                    assert(list@ =~= listj.update(j as int, info));
                }
                j = j + 1;
            }
            self.phase_info_by_area.insert(a, list);
            proof {
                let after = self.infos_by_area();
                assert(after.dom() =~= before.dom());
                assert forall|k: u32, q: int|
                    #![trigger after[k][q]]
                    after.contains_key(k) && 0 <= q < before[k].len() implies {
                        &&& after[k][q].0 == before[k][q].0
                        &&& after[k][q].2 == before[k][q].2
                        &&& after[k][q].1 == if keys@.subrange(0, idx + 1).contains(k) {
                            before[k][q].1.union(excluded_sub_areas(before, areas, k, before[k][q].0))
                        } else {
                            before[k][q].1
                        }
                    } by {
                    if k == a {
                        assert(keys@.subrange(0, idx + 1)[idx as int] == a);
                        assert(after[k][q] == area_info_view(list@[q]));
                    } else {
                        assert(keys@.subrange(0, idx + 1).contains(k) == keys@.subrange(0, idx as int).contains(k)) by {
                            if keys@.subrange(0, idx + 1).contains(k) {
                                let z = choose|z: int| 0 <= z < idx + 1 && #[trigger] keys@.subrange(0, idx + 1)[z] == k;
                                assert(keys@.subrange(0, idx as int)[z] == k);
                            }
                            if keys@.subrange(0, idx as int).contains(k) {
                                let z = choose|z: int| 0 <= z < idx && #[trigger] keys@.subrange(0, idx as int)[z] == k;
                                assert(keys@.subrange(0, idx + 1)[z] == k);
                            }
                        }
                        assert(after[k] == view0[k]);
                    }
                }
            }
            idx = idx + 1;
        }
        proof {
            let after = self.infos_by_area();
            assert forall|k: u32| #[trigger] after.contains_key(k) implies keys@.subrange(0, keys@.len() as int).contains(k) by {
                assert(keys@.subrange(0, keys@.len() as int) =~= keys@);
            }
        }
    }
}

/// The keys of a hash map walk name each key of the map once.
proof fn lemma_keys_of_walk<V>(m: &HashMap<u32, V>, ks: Seq<u32>)
    requires
        vstd::std_specs::hash::spec_hash_map_iter(m).remaining().no_duplicates(),
        ks.len() == vstd::std_specs::hash::spec_hash_map_iter(m).remaining().len(),
        forall|i: int| 0 <= i < ks.len() ==> ks[i] == *vstd::std_specs::hash::spec_hash_map_iter(m).remaining()[i].0,
    ensures
        keys_once(m@, ks),
        forall|k: u32| #[trigger] ks.contains(k) ==> m@.contains_key(k),
{
    let pairs = vstd::std_specs::hash::spec_hash_map_iter(m).remaining();
    assert forall|i: int| 0 <= i < ks.len() implies #[trigger] m@.contains_key(ks[i]) by {
        assert(m@.contains_key(*pairs[i].0));
    }
    assert forall|k: u32| #[trigger] m@.contains_key(k) implies ks.contains(k) by {
        assert(pairs.contains((&k, &m@[k])));
        let j = choose|j: int| 0 <= j < pairs.len() && pairs[j] == (&k, &m@[k]);
        assert(ks[j] == k);
    }
    assert forall|a: int, b: int| 0 <= a < ks.len() && 0 <= b < ks.len() && a != b implies ks[a]
        != ks[b] by {
        if ks[a] == ks[b] {
            assert(m@.contains_key(*pairs[a].0) && m@[*pairs[a].0] == *pairs[a].1);
            assert(m@.contains_key(*pairs[b].0) && m@[*pairs[b].0] == *pairs[b].1);
            assert(pairs[a] == pairs[b]);
        }
    }
    assert forall|k: u32| #[trigger] ks.contains(k) implies m@.contains_key(k) by {
        let j = choose|j: int| 0 <= j < ks.len() && ks[j] == k;
        assert(m@.contains_key(ks[j]));
    }
}

} // verus!
