//! Map.db2, MapDifficulty.db2 and MapDifficultyXCondition.db2 stores.
use std::collections::HashMap;
use vstd::prelude::*;

use crate::db2_index::{build_index, index_by_key, is_last_with_key, lemma_index_by_key_consistent, lemma_index_by_key_last_wins, Keyed};
use crate::player_condition::{PlayerConditionEntry, PlayerConditionStore};
use crate::predicates::{holds, is_predicate, lemma_predicate_answer};
use vstd::std_specs::iter::IteratorSpec;

verus! {

broadcast use vstd::std_specs::hash::group_hash_axioms;

pub const MAP_FLAG_FLEXIBLE_RAID_LOCKING: u32 = 0x0000_8000;

pub const MAP_DIFFICULTY_FLAG_USE_LOOT_BASED_LOCK: u8 = 0x02;

/// A row of Map.db2.
#[derive(Debug, Clone, Copy, PartialEq, Eq)]
pub struct MapEntry {
    pub id: u32,
    pub instance_type: i8,
    pub parent_map_id: i16,
    pub cosmetic_parent_map_id: i16,
    pub flags1: u32,
}

impl Keyed for MapEntry {
    open spec fn spec_key(&self) -> u32 {
        self.id
    }

    fn key(&self) -> (k: u32) {
        self.id
    }
}

impl MapEntry {
    /// Whether the map uses flexible raid locking.
    pub fn is_flex_locking(self) -> (b: bool)
        ensures
            b == (self.flags1 & MAP_FLAG_FLEXIBLE_RAID_LOCKING != 0),
    {
        self.flags1 & MAP_FLAG_FLEXIBLE_RAID_LOCKING != 0
    }
}

/// The map a map hangs under: its parent map when it has one (`!= -1`),
/// otherwise its cosmetic parent; a negative id other than `-1` names no map.
pub open spec fn parent_link(e: MapEntry) -> Option<u32> {
    if e.parent_map_id != -1 {
        if e.parent_map_id >= 0 {
            Some(e.parent_map_id as u32)
        } else {
            None
        }
    } else if e.cosmetic_parent_map_id != -1 {
        if e.cosmetic_parent_map_id >= 0 {
            Some(e.cosmetic_parent_map_id as u32)
        } else {
            None
        }
    } else {
        None
    }
}

/// One step up the terrain chain: the linked map, when the store has it.
pub open spec fn next_terrain_map(m: Map<u32, MapEntry>, id: u32) -> Option<u32> {
    if m.contains_key(id) {
        match parent_link(m[id]) {
            Some(p) => if m.contains_key(p) {
                Some(p)
            } else {
                None
            },
            None => None,
        }
    } else {
        None
    }
}

/// The map reached from `id` after at most `n` steps up the terrain chain.
pub open spec fn walk_terrain(m: Map<u32, MapEntry>, id: u32, n: nat) -> u32
    decreases n,
{
    if n == 0 {
        id
    } else {
        match next_terrain_map(m, id) {
            Some(p) => walk_terrain(m, p, (n - 1) as nat),
            None => id,
        }
    }
}

/// The terrain chain from `id` has stopped after `n` steps.
pub open spec fn terrain_chain_ends(m: Map<u32, MapEntry>, id: u32, n: nat) -> bool {
    next_terrain_map(m, walk_terrain(m, id, n)) is None
}

proof fn lemma_walk_succ(m: Map<u32, MapEntry>, id: u32, k: nat)
    ensures
        walk_terrain(m, id, k + 1) == (match next_terrain_map(m, walk_terrain(m, id, k)) {
            Some(p) => p,
            None => walk_terrain(m, id, k),
        }),
    decreases k,
{
    if k > 0 {
        match next_terrain_map(m, id) {
            Some(p) => {
                lemma_walk_succ(m, p, (k - 1) as nat);
                assert(walk_terrain(m, id, k + 1) == walk_terrain(m, p, k));
                assert(walk_terrain(m, id, k) == walk_terrain(m, p, (k - 1) as nat));
            },
            None => {},
        }
    } else {
        assert(walk_terrain(m, id, 0) == id);
        match next_terrain_map(m, id) {
            Some(p) => {
                assert(walk_terrain(m, p, 0) == p);
            },
            None => {},
        }
    }
}

proof fn lemma_walk_stable(m: Map<u32, MapEntry>, id: u32, a: nat, b: nat)
    requires
        terrain_chain_ends(m, id, a),
        a <= b,
    ensures
        walk_terrain(m, id, b) == walk_terrain(m, id, a),
    decreases b - a,
{
    if a < b {
        lemma_walk_stable(m, id, a, (b - 1) as nat);
        lemma_walk_succ(m, id, (b - 1) as nat);
    }
}

/// The parent/child buckets are ordered by strictly increasing map id.
pub open spec fn buckets_sorted(s: Seq<(u32, Vec<u32>)>) -> bool {
    forall|i: int, j: int| 0 <= i < j < s.len() ==> s[i].0 < s[j].0
}

/// The buckets as a map from bucket id to its members.
pub open spec fn bucket_view(s: Seq<(u32, Vec<u32>)>) -> Map<u32, Seq<u32>> {
    Map::new(
        |k: u32| exists|i: int| 0 <= i < s.len() && s[i].0 == k,
        |k: u32| s[choose|i: int| 0 <= i < s.len() && s[i].0 == k].1@,
    )
}

proof fn lemma_bucket_view_at(s: Seq<(u32, Vec<u32>)>, i: int)
    requires
        buckets_sorted(s),
        0 <= i < s.len(),
    ensures
        bucket_view(s).contains_key(s[i].0),
        bucket_view(s)[s[i].0] == s[i].1@,
{
    let k = s[i].0;
    assert(exists|j: int| 0 <= j < s.len() && s[j].0 == k);
    let j = choose|j: int| 0 <= j < s.len() && s[j].0 == k;
    if j < i {
        assert(s[j].0 < s[i].0);
    } else if i < j {
        assert(s[i].0 < s[j].0);
    }
}

proof fn lemma_bucket_view_all(s: Seq<(u32, Vec<u32>)>)
    requires
        buckets_sorted(s),
    ensures
        forall|i: int| 0 <= i < s.len() ==> #[trigger] bucket_view(s).contains_key(s[i].0)
            && bucket_view(s)[s[i].0] == s[i].1@,
{
    assert forall|i: int| 0 <= i < s.len() implies #[trigger] bucket_view(s).contains_key(s[i].0)
        && bucket_view(s)[s[i].0] == s[i].1@ by {
        lemma_bucket_view_at(s, i);
    }
}

/// Finds the bucket for `key`, adding an empty one at its sorted place when
/// there is none.
fn ensure_bucket(buckets: &mut Vec<(u32, Vec<u32>)>, key: u32) -> (idx: usize)
    requires
        buckets_sorted(old(buckets)@),
    ensures
        buckets_sorted(final(buckets)@),
        idx < final(buckets)@.len(),
        final(buckets)@[idx as int].0 == key,
        bucket_view(final(buckets)@) == (if bucket_view(old(buckets)@).contains_key(key) {
            bucket_view(old(buckets)@)
        } else {
            bucket_view(old(buckets)@).insert(key, Seq::<u32>::empty())
        }),
{
    let ghost old_s = buckets@;
    let mut pos: usize = 0;
    while pos < buckets.len() && buckets[pos].0 < key
        invariant
            buckets@ == old_s,
            buckets_sorted(old_s),
            pos <= buckets@.len(),
            forall|j: int| 0 <= j < pos ==> buckets@[j].0 < key,
        decreases buckets@.len() - pos,
    {
        pos = pos + 1;
    }
    proof {
        lemma_bucket_view_all(old_s);
    }
    if pos < buckets.len() && buckets[pos].0 == key {
        return pos;
    }
    let empty: Vec<u32> = Vec::new();
    buckets.insert(pos, (key, empty));
    proof {
        let s = buckets@;
        assert(s == old_s.insert(pos as int, (key, empty)));
        assert(buckets_sorted(s)) by {
            assert forall|i: int, j: int| 0 <= i < j < s.len() implies s[i].0 < s[j].0 by {
                if j < pos {
                } else if j == pos {
                } else if i < pos {
                    assert(s[j] == old_s[j - 1]);
                    if pos < old_s.len() {
                        assert(old_s[pos as int].0 > key);
                        if j - 1 > pos {
                            assert(old_s[pos as int].0 < old_s[j - 1].0);
                        }
                    }
                } else if i == pos {
                    assert(s[j] == old_s[j - 1]);
                    assert(old_s[pos as int].0 > key);
                    if j - 1 > pos {
                        assert(old_s[pos as int].0 < old_s[j - 1].0);
                    }
                } else {
                    assert(s[i] == old_s[i - 1]);
                    assert(s[j] == old_s[j - 1]);
                }
            }
        }
        lemma_bucket_view_all(s);
        assert(!bucket_view(old_s).contains_key(key)) by {
            if bucket_view(old_s).contains_key(key) {
                let j = choose|j: int| 0 <= j < old_s.len() && old_s[j].0 == key;
                if j < pos {
                } else if j == pos {
                } else {
                    assert(old_s[pos as int].0 < old_s[j].0);
                }
            }
        }
        let target = bucket_view(old_s).insert(key, Seq::<u32>::empty());
        assert(bucket_view(s) =~= target) by {
            assert forall|k: u32| bucket_view(s).contains_key(k) <==> target.contains_key(k) by {
                if bucket_view(s).contains_key(k) {
                    let i = choose|i: int| 0 <= i < s.len() && s[i].0 == k;
                    if i < pos {
                        assert(old_s[i].0 == k);
                    } else if i > pos {
                        assert(old_s[i - 1].0 == k);
                    }
                }
                if target.contains_key(k) && k != key {
                    let j = choose|j: int| 0 <= j < old_s.len() && old_s[j].0 == k;
                    if j < pos {
                        assert(s[j].0 == k);
                    } else {
                        assert(s[j + 1].0 == k);
                    }
                }
                if k == key {
                    assert(s[pos as int].0 == k);
                }
            }
            assert forall|k: u32| #[trigger] bucket_view(s).contains_key(k) implies bucket_view(
                s,
            )[k] == target[k] by {
                let i = choose|i: int| 0 <= i < s.len() && s[i].0 == k;
                if i < pos {
                    lemma_bucket_view_at(old_s, i);
                } else if i > pos {
                    lemma_bucket_view_at(old_s, i - 1);
                }
            }
        }
    }
    pos
}

/// Appends `child` to the bucket at `idx`.
fn push_into_bucket(buckets: &mut Vec<(u32, Vec<u32>)>, idx: usize, child: u32)
    requires
        buckets_sorted(old(buckets)@),
        idx < old(buckets)@.len(),
    ensures
        buckets_sorted(final(buckets)@),
        bucket_view(final(buckets)@) == bucket_view(old(buckets)@).insert(
            old(buckets)@[idx as int].0,
            bucket_view(old(buckets)@)[old(buckets)@[idx as int].0].push(child),
        ),
{
    let ghost old_s = buckets@;
    let (key, mut members) = buckets.remove(idx);
    members.push(child);
    buckets.insert(idx, (key, members));
    proof {
        let s = buckets@;
        assert forall|i: int| 0 <= i < s.len() && i != idx implies s[i] == old_s[i] by {}
        assert(buckets_sorted(s)) by {
            assert forall|i: int, j: int| 0 <= i < j < s.len() implies s[i].0 < s[j].0 by {
                assert(s[i].0 == old_s[i].0);
                assert(s[j].0 == old_s[j].0);
            }
        }
        lemma_bucket_view_all(old_s);
        lemma_bucket_view_all(s);
        let target = bucket_view(old_s).insert(key, bucket_view(old_s)[key].push(child));
        assert(bucket_view(s) =~= target) by {
            assert forall|k: u32| bucket_view(s).contains_key(k) <==> target.contains_key(k) by {
                if bucket_view(s).contains_key(k) {
                    let i = choose|i: int| 0 <= i < s.len() && s[i].0 == k;
                    assert(old_s[i].0 == k);
                }
                if target.contains_key(k) && k != key {
                    let j = choose|j: int| 0 <= j < old_s.len() && old_s[j].0 == k;
                    assert(s[j].0 == k);
                }
                if k == key {
                    assert(s[idx as int].0 == k);
                }
            }
            assert forall|k: u32| #[trigger] bucket_view(s).contains_key(k) implies bucket_view(
                s,
            )[k] == target[k] by {
                let i = choose|i: int| 0 <= i < s.len() && s[i].0 == k;
                lemma_bucket_view_at(s, i);
                lemma_bucket_view_at(old_s, i);
            }
        }
    }
}

/// Ids that belong to the map data of a store: every stored map and every
/// map that some stored map links to as its parent.
pub open spec fn is_map_data_key(m: Map<u32, MapEntry>, k: u32) -> bool {
    m.contains_key(k) || exists|c: u32| m.contains_key(c) && parent_link(m[c]) == Some(k)
}

/// A map's parent fields agree: a real parent leaves the cosmetic parent
/// unset or equal to it.
pub open spec fn parents_consistent(e: MapEntry) -> bool {
    e.parent_map_id != -1 ==> (e.cosmetic_parent_map_id == -1 || e.cosmetic_parent_map_id
        == e.parent_map_id)
}

/// Store of Map.db2 rows indexed by map id.
pub struct MapStore {
    entries: HashMap<u32, MapEntry>,
}

impl View for MapStore {
    type V = Map<u32, MapEntry>;

    closed spec fn view(&self) -> Map<u32, MapEntry> {
        self.entries@
    }
}

impl MapStore {
    #[verifier::type_invariant]
    closed spec fn well_formed(self) -> bool {
        &&& forall|k: u32| #[trigger] self.entries@.contains_key(k) ==> self.entries@[k].id == k
        &&& self.entries@.dom().finite()
    }

    /// Builds the store from Map.db2 rows; a later row replaces an earlier one
    /// with the same id.
    pub fn from_entries(entries: Vec<MapEntry>) -> (s: Self)
        ensures
            s@ == index_by_key(entries@),
    {
        proof {
            lemma_index_by_key_consistent(entries@);
        }
        MapStore { entries: build_index(entries) }
    }

    /// Builds the store from the rows of Map.db2, in file order.
    pub fn load(rows: Vec<MapEntry>) -> (s: Self)
        ensures
            s@ == index_by_key(rows@),
    {
        Self::from_entries(rows)
    }

    pub fn get(&self, id: u32) -> (r: Option<&MapEntry>)
        ensures
            r == (if self@.contains_key(id) {
                Some(&self@[id])
            } else {
                None
            }),
    {
        self.entries.get(&id)
    }

    /// All stored map rows, each once, in no particular order.
    pub fn entries(&self) -> (r: Vec<MapEntry>)
        ensures
            r@.len() == self@.len(),
            forall|i: int| #![trigger r@[i]] 0 <= i < r@.len() ==> self@.contains_key(r@[i].id)
                && self@[r@[i].id] == r@[i],
            forall|k: u32| #[trigger] self@.contains_key(k) ==> r@.contains(self@[k]),
            forall|i: int, j: int| 0 <= i < j < r@.len() ==> r@[i].id != r@[j].id,
    {
        proof {
            use_type_invariant(self);
        }
        let mut r: Vec<MapEntry> = Vec::new();
        let ghost pairs = vstd::std_specs::hash::spec_hash_map_iter(&self.entries).remaining();
        for pair in it: self.entries.iter()
            invariant
                r@.len() == it.index(),
                it.seq() == pairs,
                forall|i: int| 0 <= i < r@.len() ==> r@[i] == *pairs[i].1,
        {
            let (_k, e) = pair;
            r.push(*e);
        }
        proof {
            assert(pairs.no_duplicates());
            assert forall|i: int| #![trigger r@[i]] 0 <= i < r@.len() implies self@.contains_key(r@[i].id)
                && self@[r@[i].id] == r@[i] by {
                assert(self.entries@.contains_key(*pairs[i].0));
                assert(self.entries@[*pairs[i].0] == *pairs[i].1);
            }
            assert forall|k: u32| #[trigger] self@.contains_key(k) implies r@.contains(self@[k]) by {
                assert(pairs.contains((&k, &self.entries@[k])));
                let i = choose|i: int| 0 <= i < pairs.len() && pairs[i] == (&k, &self.entries@[k]);
                assert(r@[i] == self@[k]);
            }
            assert forall|i: int, j: int| 0 <= i < j < r@.len() implies r@[i].id != r@[j].id by {
                assert(self.entries@.contains_key(*pairs[i].0));
                assert(self.entries@.contains_key(*pairs[j].0));
                if r@[i].id == r@[j].id {
                    assert(*pairs[i].0 == *pairs[j].0);
                    assert(pairs[i] == pairs[j]);
                }
            }
        }
        r
    }

    /// The root map whose terrain a map uses: the chain of parent (or else
    /// cosmetic parent) maps is followed while the next map exists in the
    /// store. Unknown maps give none.
    pub fn terrain_root_map_id_like_cpp(&self, map_id: u32) -> (r: Option<u32>)
        requires
            exists|n: nat| terrain_chain_ends(self@, map_id, n),
        ensures
            !self@.contains_key(map_id) ==> r is None,
            self@.contains_key(map_id) ==> forall|n: nat|
                #[trigger] terrain_chain_ends(self@, map_id, n) ==> r == Some(
                    walk_terrain(self@, map_id, n),
                ),
    {
        let ghost m = self@;
        let ghost n = choose|n: nat| terrain_chain_ends(m, map_id, n);
        let first = self.entries.get(&map_id);
        if first.is_none() {
            return None;
        }
        let mut current: u32 = map_id;
        let mut entry: MapEntry = *first.unwrap();
        let ghost mut k: nat = 0;
        loop
            invariant
                m == self@,
                terrain_chain_ends(m, map_id, n),
                k <= n,
                current == walk_terrain(m, map_id, k),
                m.contains_key(current),
                entry == m[current],
            ensures
                next_terrain_map(m, current) is None,
                current == walk_terrain(m, map_id, k),
            decreases n - k,
        {
            if entry.parent_map_id == -1 && entry.cosmetic_parent_map_id == -1 {
                break;
            }
            let parent: i16 = if entry.parent_map_id != -1 {
                entry.parent_map_id
            } else {
                entry.cosmetic_parent_map_id
            };
            if parent < 0 {
                break;
            }
            let parent_id: u32 = parent as u32;
            match self.entries.get(&parent_id) {
                None => {
                    break;
                },
                Some(p) => {
                    proof {
                        lemma_walk_succ(m, map_id, k);
                        if k == n {
                            assert(false);
                        }
                        k = k + 1;
                    }
                    current = parent_id;
                    entry = *p;
                },
            }
        }
        proof {
            assert forall|n2: nat| #[trigger] terrain_chain_ends(m, map_id, n2) implies current
                == walk_terrain(m, map_id, n2) by {
                if n2 <= k {
                    lemma_walk_stable(m, map_id, n2, k);
                } else {
                    lemma_walk_stable(m, map_id, k, n2);
                }
            }
        }
        Some(current)
    }

    /// The parent/child map data: one bucket per stored map and per linked
    /// parent, in increasing id order, holding the maps that link to it
    /// (each once, in no particular order).
    pub fn parent_child_map_data_like_cpp(&self) -> (r: Vec<(u32, Vec<u32>)>)
        requires
            forall|k: u32| #[trigger] self@.contains_key(k) ==> parents_consistent(self@[k]),
        ensures
            buckets_sorted(r@),
            forall|k: u32| (exists|i: int| 0 <= i < r@.len() && r@[i].0 == k) <==> is_map_data_key(
                self@,
                k,
            ),
            forall|i: int| 0 <= i < r@.len() ==> (#[trigger] r@[i]).1@.no_duplicates(),
            forall|i: int, c: u32|
                #![trigger r@[i].1@.contains(c)]
                #![trigger r@[i], self@[c]]
                0 <= i < r@.len() ==> (r@[i].1@.contains(c) <==> (self@.contains_key(c)
                    && parent_link(self@[c]) == Some(r@[i].0))),
    {
        proof {
            use_type_invariant(self);
        }
        let all = self.entries();
        let mut buckets: Vec<(u32, Vec<u32>)> = Vec::new();
        let mut idx: usize = 0;
        while idx < all.len()
            invariant
                0 <= idx <= all@.len(),
                buckets_sorted(buckets@),
                forall|i: int| #![trigger all@[i]] 0 <= i < all@.len() ==> self@.contains_key(all@[i].id)
                    && self@[all@[i].id] == all@[i],
                forall|k: u32| #[trigger] self@.contains_key(k) ==> self@[k].id == k,
                forall|i: int, j: int| 0 <= i < j < all@.len() ==> all@[i].id != all@[j].id,
                forall|k: u32| #[trigger] bucket_view(buckets@).contains_key(k) <==> exists|j: int|
                    0 <= j < idx && (all@[j].id == k || parent_link(all@[j]) == Some(k)),
                forall|k: u32| #[trigger]
                    bucket_view(buckets@).contains_key(k) ==> bucket_view(
                        buckets@,
                    )[k].no_duplicates(),
                forall|k: u32, c: u32|
                    #![trigger bucket_view(buckets@)[k].contains(c)]
                    bucket_view(buckets@).contains_key(k) ==> (bucket_view(buckets@)[k].contains(c)
                        <==> exists|j: int|
                        0 <= j < idx && all@[j].id == c && parent_link(all@[j]) == Some(k)),
            decreases all@.len() - idx,
        {
            let e = all[idx];
            let ghost before = bucket_view(buckets@);
            let _own = ensure_bucket(&mut buckets, e.id);
            let ghost mid = bucket_view(buckets@);
            let link: Option<u32> = if e.parent_map_id != -1 {
                if e.parent_map_id >= 0 {
                    Some(e.parent_map_id as u32)
                } else {
                    None
                }
            } else if e.cosmetic_parent_map_id != -1 {
                if e.cosmetic_parent_map_id >= 0 {
                    Some(e.cosmetic_parent_map_id as u32)
                } else {
                    None
                }
            } else {
                None
            };
            match link {
                Some(p) => {
                    let pi = ensure_bucket(&mut buckets, p);
                    let ghost mid2 = bucket_view(buckets@);
                    proof {
                        lemma_bucket_view_at(buckets@, pi as int);
                        assert(!mid2[p].contains(e.id)) by {
                            if mid2[p].contains(e.id) {
                                assert(mid.contains_key(p));
                                assert(mid[p].contains(e.id));
                                if before.contains_key(p) {
                                    assert(before[p].contains(e.id));
                                    let j = choose|j: int|
                                        0 <= j < idx && all@[j].id == e.id && parent_link(all@[j])
                                            == Some(p);
                                    assert(all@[j].id != all@[idx as int].id);
                                } else {
                                    assert(p == e.id);
                                }
                            }
                        }
                    }
                    push_into_bucket(&mut buckets, pi, e.id);
                    proof {
                        assert(parent_link(e) == Some(p));
                        let after = bucket_view(buckets@);
                        assert forall|k: u32, c: u32|
                            #![trigger after[k].contains(c)]
                            after.contains_key(k) implies (after[k].contains(c) <==> exists|j: int|
                            0 <= j < idx + 1 && all@[j].id == c && parent_link(all@[j]) == Some(
                                k,
                            )) by {
                            assert(all@[idx as int] == e);
                            if k == p {
                                assert(after[k] == mid2[p].push(e.id));
                                if before.contains_key(p) {
                                    assert(mid[p] == before[p]);
                                    assert(mid2[p] == before[p]);
                                } else if p == e.id {
                                    assert(mid[p] == Seq::<u32>::empty());
                                    assert(mid2[p] == Seq::<u32>::empty());
                                } else {
                                    assert(!mid.contains_key(p));
                                    assert(mid2[p] == Seq::<u32>::empty());
                                }
                                if after[k].contains(c) {
                                    if c == e.id {
                                        assert(0 <= idx < idx + 1 && all@[idx as int].id == c
                                            && parent_link(all@[idx as int]) == Some(k));
                                    } else {
                                        assert(mid2[p].contains(c));
                                        assert(before.contains_key(p));
                                        assert(before[p].contains(c));
                                    }
                                }
                                if exists|j: int|
                                    0 <= j < idx + 1 && all@[j].id == c && parent_link(all@[j])
                                        == Some(k) {
                                    let j = choose|j: int|
                                        0 <= j < idx + 1 && all@[j].id == c && parent_link(all@[j])
                                            == Some(k);
                                    let sq = mid2[p];
                                    if j < idx {
                                        assert(before.contains_key(p));
                                        assert(before[p].contains(c));
                                        assert(sq.contains(c));
                                        let t = choose|t: int| 0 <= t < sq.len() && sq[t] == c;
                                        assert(sq.push(e.id)[t] == c);
                                    } else {
                                        assert(c == e.id);
                                        assert(sq.push(e.id)[sq.len() as int] == c);
                                    }
                                    assert(after[k].contains(c));
                                }
                            } else {
                                assert(after[k] == mid2[k]);
                                if before.contains_key(k) {
                                    assert(mid[k] == before[k]);
                                    assert(mid2[k] == before[k]);
                                    if exists|j: int|
                                        0 <= j < idx + 1 && all@[j].id == c && parent_link(all@[j])
                                            == Some(k) {
                                        let j = choose|j: int|
                                            0 <= j < idx + 1 && all@[j].id == c && parent_link(
                                                all@[j],
                                            ) == Some(k);
                                        assert(j != idx);
                                    }
                                } else {
                                    assert(k == e.id);
                                    assert(mid[k] == Seq::<u32>::empty());
                                    assert(mid2[k] == Seq::<u32>::empty());
                                    assert forall|j: int|
                                        0 <= j < idx + 1 && all@[j].id == c implies parent_link(
                                        all@[j],
                                    ) != Some(k) by {
                                        if j < idx && parent_link(all@[j]) == Some(k) {
                                            assert(before.contains_key(k));
                                        }
                                    }
                                }
                            }
                        }
                        assert forall|k: u32| #[trigger]
                            after.contains_key(k) implies after[k].no_duplicates() by {
                            if k == p {
                                assert(after[k] == mid2[p].push(e.id));
                            } else {
                                assert(after[k] == mid2[k]);
                            }
                        }
                    }
                },
                None => {
                    proof {
                        assert(parent_link(e) is None);
                        let after = bucket_view(buckets@);
                        assert forall|k: u32, c: u32|
                            #![trigger after[k].contains(c)]
                            after.contains_key(k) implies (after[k].contains(c) <==> exists|j: int|
                            0 <= j < idx + 1 && all@[j].id == c && parent_link(all@[j]) == Some(
                                k,
                            )) by {
                            if k == e.id && !before.contains_key(k) {
                                assert(after[k] == Seq::<u32>::empty());
                                assert forall|j: int|
                                    0 <= j < idx + 1 && all@[j].id == c implies parent_link(
                                    all@[j],
                                ) != Some(k) by {
                                    if j < idx && parent_link(all@[j]) == Some(k) {
                                        assert(before.contains_key(k));
                                    }
                                }
                            } else {
                                assert(after[k] == before[k]);
                            }
                        }
                    }
                },
            }
            idx = idx + 1;
        }
        proof {
            lemma_bucket_view_all(buckets@);
            let bs = buckets@;
            assert forall|k: u32| (exists|i: int| 0 <= i < bs.len() && bs[i].0 == k) <==> is_map_data_key(
                self@,
                k,
            ) by {
                if exists|i: int| 0 <= i < bs.len() && bs[i].0 == k {
                    assert(bucket_view(bs).contains_key(k));
                    let j = choose|j: int|
                        0 <= j < all@.len() && (all@[j].id == k || parent_link(all@[j]) == Some(k));
                    assert(self@.contains_key(all@[j].id));
                }
                if is_map_data_key(self@, k) {
                    if self@.contains_key(k) {
                        assert(all@.contains(self@[k]));
                        let j = choose|j: int| 0 <= j < all@.len() && all@[j] == self@[k];
                        assert(all@[j].id == k);
                    } else {
                        let c = choose|c: u32| self@.contains_key(c) && parent_link(self@[c]) == Some(k);
                        assert(all@.contains(self@[c]));
                        let j = choose|j: int| 0 <= j < all@.len() && all@[j] == self@[c];
                        assert(parent_link(all@[j]) == Some(k));
                    }
                    assert(bucket_view(bs).contains_key(k));
                }
            }
            assert forall|i: int, c: u32|
                #![trigger bs[i].1@.contains(c)]
                #![trigger bs[i], self@[c]]
                0 <= i < bs.len() implies (bs[i].1@.contains(c)
                <==> (self@.contains_key(c) && parent_link(self@[c]) == Some(bs[i].0))) by {
                let k = bs[i].0;
                assert(bucket_view(bs).contains_key(k));
                if self@.contains_key(c) && parent_link(self@[c]) == Some(k) {
                    assert(all@.contains(self@[c]));
                    let j = choose|j: int| 0 <= j < all@.len() && all@[j] == self@[c];
                    assert(all@[j].id == c);
                }
            }
            assert forall|i: int| 0 <= i < bs.len() implies (#[trigger] bs[i]).1@.no_duplicates() by {
                assert(bucket_view(bs).contains_key(bs[i].0));
            }
        }
        buckets
    }

    pub fn len(&self) -> (n: usize)
        ensures
            n == self@.len(),
    {
        self.entries.len()
    }

    pub fn is_empty(&self) -> (b: bool)
        ensures
            b == self@.is_empty(),
    {
        self.entries.is_empty()
    }
}

/// A row of MapDifficulty.db2.
#[derive(Debug, Clone, Copy, PartialEq, Eq)]
pub struct MapDifficultyEntry {
    pub id: u32,
    pub map_id: u32,
    pub difficulty_id: u8,
    pub lock_id: u8,
    pub reset_interval: u8,
    pub flags: u8,
}

impl Keyed for MapDifficultyEntry {
    open spec fn spec_key(&self) -> u32 {
        self.id
    }

    fn key(&self) -> (k: u32) {
        self.id
    }
}

impl MapDifficultyEntry {
    /// Whether the difficulty uses loot based (encounter) locks.
    pub fn is_using_encounter_locks(self) -> (b: bool)
        ensures
            b == (self.flags & MAP_DIFFICULTY_FLAG_USE_LOOT_BASED_LOCK != 0),
    {
        self.flags & MAP_DIFFICULTY_FLAG_USE_LOOT_BASED_LOCK != 0
    }
}

/// The `(map, difficulty)` index of MapDifficulty rows: each pair names the
/// id of the last row that carries it.
pub open spec fn difficulty_pair_index(rows: Seq<MapDifficultyEntry>) -> Map<(u32, u8), u32>
    decreases rows.len(),
{
    if rows.len() == 0 {
        Map::empty()
    } else {
        difficulty_pair_index(rows.drop_last()).insert(
            (rows.last().map_id, rows.last().difficulty_id),
            rows.last().id,
        )
    }
}

/// The hash key of a `(map, difficulty)` pair.
pub open spec fn difficulty_pair_key(p: (u32, u8)) -> u64 {
    (p.0 as u64 * 256 + p.1 as u64) as u64
}

proof fn lemma_difficulty_pair_key_injective(p: (u32, u8), q: (u32, u8))
    requires
        difficulty_pair_key(p) == difficulty_pair_key(q),
    ensures
        p == q,
{
}

/// Store of MapDifficulty.db2 rows, looked up by map and difficulty.
pub struct MapDifficultyStore {
    by_id: HashMap<u32, MapDifficultyEntry>,
    by_map_difficulty: HashMap<u64, u32>,
}

impl View for MapDifficultyStore {
    type V = (Map<u32, MapDifficultyEntry>, Map<(u32, u8), u32>);

    closed spec fn view(&self) -> (Map<u32, MapDifficultyEntry>, Map<(u32, u8), u32>) {
        (
            self.by_id@,
            Map::new(
                |p: (u32, u8)| self.by_map_difficulty@.contains_key(difficulty_pair_key(p)),
                |p: (u32, u8)| self.by_map_difficulty@[difficulty_pair_key(p)],
            ),
        )
    }
}

impl MapDifficultyStore {
    /// Builds the store: rows by id, and `(map, difficulty)` pairs to the id
    /// of the last row with that pair.
    pub fn from_entries(entries: Vec<MapDifficultyEntry>) -> (s: Self)
        ensures
            s@.0 == index_by_key(entries@),
            s@.1 == difficulty_pair_index(entries@),
    {
        let ghost all = entries@;
        let mut by_id: HashMap<u32, MapDifficultyEntry> = HashMap::new();
        let mut by_map_difficulty: HashMap<u64, u32> = HashMap::new();
        for entry in it: entries
            invariant
                all == it.seq(),
                by_id@ == index_by_key(all.take(it.index() as int)),
                Map::new(
                    |p: (u32, u8)| by_map_difficulty@.contains_key(difficulty_pair_key(p)),
                    |p: (u32, u8)| by_map_difficulty@[difficulty_pair_key(p)],
                ) == difficulty_pair_index(all.take(it.index() as int)),
                forall|k: u64| #[trigger] by_map_difficulty@.contains_key(k) ==> exists|p: (u32, u8)|
                    difficulty_pair_key(p) == k,
        {
            let ghost prev = by_map_difficulty@;
            proof {
                assert(all.take(it.index() + 1).drop_last() =~= all.take(it.index() as int));
            }
            let key: u64 = entry.map_id as u64 * 256 + entry.difficulty_id as u64;
            by_map_difficulty.insert(key, entry.id);
            by_id.insert(entry.id, entry);
            proof {
                let pk = (entry.map_id, entry.difficulty_id);
                assert(key == difficulty_pair_key(pk));
                let target = difficulty_pair_index(all.take(it.index() + 1));
                let got = Map::new(
                    |p: (u32, u8)| by_map_difficulty@.contains_key(difficulty_pair_key(p)),
                    |p: (u32, u8)| by_map_difficulty@[difficulty_pair_key(p)],
                );
                assert forall|p: (u32, u8)| #[trigger] got.contains_key(p) <==> target.contains_key(p) by {
                    if p != pk && difficulty_pair_key(p) == key {
                        lemma_difficulty_pair_key_injective(p, pk);
                    }
                }
                assert forall|p: (u32, u8)| #[trigger] got.contains_key(p) implies got[p] == target[p] by {
                    if p != pk && difficulty_pair_key(p) == key {
                        lemma_difficulty_pair_key_injective(p, pk);
                    }
                }
                assert(got =~= target);
            }
        }
        proof {
            assert(all.take(all.len() as int) =~= all);
        }
        MapDifficultyStore { by_id, by_map_difficulty }
    }

    /// Builds the store from the rows of MapDifficulty.db2, in file order.
    pub fn load(rows: Vec<MapDifficultyEntry>) -> (s: Self)
        ensures
            s@.0 == index_by_key(rows@),
            s@.1 == difficulty_pair_index(rows@),
    {
        Self::from_entries(rows)
    }

    /// The row that the `(map, difficulty)` pair names.
    pub fn get(&self, map_id: u32, difficulty_id: u8) -> (r: Option<&MapDifficultyEntry>)
        ensures
            r == (if self@.1.contains_key((map_id, difficulty_id)) && self@.0.contains_key(
                self@.1[(map_id, difficulty_id)],
            ) {
                Some(&self@.0[self@.1[(map_id, difficulty_id)]])
            } else {
                None
            }),
    {
        let key: u64 = map_id as u64 * 256 + difficulty_id as u64;
        proof {
            assert(key == difficulty_pair_key((map_id, difficulty_id)));
        }
        match self.by_map_difficulty.get(&key) {
            Some(id) => self.by_id.get(id),
            None => None,
        }
    }

    pub fn len(&self) -> (n: usize)
        ensures
            n == self@.0.len(),
    {
        self.by_id.len()
    }

    pub fn is_empty(&self) -> (b: bool)
        ensures
            b == self@.0.is_empty(),
    {
        self.by_id.is_empty()
    }
}

/// A row of MapDifficultyXCondition.db2.
#[derive(Debug, Clone, PartialEq, Eq)]
pub struct MapDifficultyXConditionEntry {
    pub id: u32,
    pub failure_description: String,
    pub player_condition_id: u32,
    pub order_index: i32,
    pub map_difficulty_id: u32,
}

impl Keyed for MapDifficultyXConditionEntry {
    open spec fn spec_key(&self) -> u32 {
        self.id
    }

    fn key(&self) -> (k: u32) {
        self.id
    }
}

/// The position at which a row of order `o` goes into `s`: after every row
/// of `s` before the first one with a greater order.
pub open spec fn order_insert_position(s: Seq<MapDifficultyXConditionEntry>, o: i32) -> int
    decreases s.len(),
{
    if s.len() == 0 {
        0
    } else if s[0].order_index > o {
        0
    } else {
        1 + order_insert_position(s.drop_first(), o)
    }
}

/// The rows stably sorted by order index (rows of equal order keep their
/// table order).
pub open spec fn sorted_by_order(rows: Seq<MapDifficultyXConditionEntry>) -> Seq<
    MapDifficultyXConditionEntry,
>
    decreases rows.len(),
{
    if rows.len() == 0 {
        rows
    } else {
        let s = sorted_by_order(rows.drop_last());
        s.insert(order_insert_position(s, rows.last().order_index), rows.last())
    }
}

/// The ids of the rows of `s` that belong to a map difficulty, in order.
pub open spec fn condition_ids_for(s: Seq<MapDifficultyXConditionEntry>, map_difficulty_id: u32) -> Seq<u32> {
    s.filter_map(|e: MapDifficultyXConditionEntry| if e.map_difficulty_id == map_difficulty_id {
        Some(e.id)
    } else {
        None
    })
}

proof fn lemma_order_insert_position(s: Seq<MapDifficultyXConditionEntry>, o: i32, p: int)
    requires
        0 <= p <= s.len(),
        forall|j: int| 0 <= j < p ==> s[j].order_index <= o,
        p == s.len() || s[p].order_index > o,
    ensures
        order_insert_position(s, o) == p,
    decreases p,
{
    if p > 0 {
        lemma_order_insert_position(s.drop_first(), o, p - 1);
    }
}

/// Store of MapDifficultyXCondition rows, grouped by map difficulty in
/// order-index order.
pub struct MapDifficultyXConditionStore {
    by_id: HashMap<u32, MapDifficultyXConditionEntry>,
    by_map_difficulty: HashMap<u32, Vec<u32>>,
}

/// A condition row fails when its player condition exists and is not met.
pub open spec fn condition_fails<F: Fn(&PlayerConditionEntry) -> bool>(
    entry: &MapDifficultyXConditionEntry,
    player_conditions: Map<u32, PlayerConditionEntry>,
    meets: F,
) -> bool {
    player_conditions.contains_key(entry.player_condition_id) && !holds(
        meets,
        &player_conditions[entry.player_condition_id],
    )
}

impl View for MapDifficultyXConditionStore {
    type V = (Map<u32, MapDifficultyXConditionEntry>, Map<u32, Seq<u32>>);

    closed spec fn view(&self) -> (Map<u32, MapDifficultyXConditionEntry>, Map<u32, Seq<u32>>) {
        (self.by_id@, self.by_map_difficulty@.map_values(|v: Vec<u32>| v@))
    }
}

impl MapDifficultyXConditionStore {
    #[verifier::type_invariant]
    closed spec fn well_formed(self) -> bool {
        forall|k: u32| #[trigger] self.by_id@.contains_key(k) ==> self.by_id@[k].id == k
    }

    /// Builds the store: rows are stably sorted by order index, then indexed
    /// by id (in sorted order, later rows replacing earlier ones) and grouped
    /// by map difficulty.
    pub fn from_entries(entries: Vec<MapDifficultyXConditionEntry>) -> (s: Self)
        ensures
            s@.0 == index_by_key(sorted_by_order(entries@)),
            forall|md: u32| #[trigger] s@.1.contains_key(md) <==> condition_ids_for(
                sorted_by_order(entries@),
                md,
            ).len() > 0,
            forall|md: u32| #[trigger] s@.1.contains_key(md) ==> s@.1[md] == condition_ids_for(
                sorted_by_order(entries@),
                md,
            ),
    {
        let ghost all = entries@;
        let mut sorted: Vec<MapDifficultyXConditionEntry> = Vec::new();
        for entry in it: entries
            invariant
                all == it.seq(),
                sorted@ == sorted_by_order(all.take(it.index() as int)),
        {
            proof {
                assert(all.take(it.index() + 1).drop_last() =~= all.take(it.index() as int));
            }
            let mut pos: usize = 0;
            while pos < sorted.len() && sorted[pos].order_index <= entry.order_index
                invariant
                    pos <= sorted@.len(),
                    forall|j: int| 0 <= j < pos ==> sorted@[j].order_index <= entry.order_index,
                decreases sorted@.len() - pos,
            {
                pos = pos + 1;
            }
            proof {
                lemma_order_insert_position(sorted@, entry.order_index, pos as int);
            }
            sorted.insert(pos, entry);
        }
        proof {
            assert(all.take(all.len() as int) =~= all);
        }
        let ghost ordered = sorted@;
        let mut by_id: HashMap<u32, MapDifficultyXConditionEntry> = HashMap::new();
        let mut by_map_difficulty: HashMap<u32, Vec<u32>> = HashMap::new();
        for entry in it: sorted
            invariant
                ordered == it.seq(),
                by_id@ == index_by_key(ordered.take(it.index() as int)),
                forall|md: u32| #[trigger] by_map_difficulty@.contains_key(md) <==> condition_ids_for(
                    ordered.take(it.index() as int),
                    md,
                ).len() > 0,
                forall|md: u32| #[trigger] by_map_difficulty@.contains_key(md) ==> by_map_difficulty@[md]@
                    == condition_ids_for(ordered.take(it.index() as int), md),
        {
            let ghost i = it.index() as int;
            proof {
                assert(ordered.take(i + 1).drop_last() =~= ordered.take(i));
                assert forall|md: u32| true implies #[trigger] condition_ids_for(ordered.take(i + 1), md)
                    =~= condition_ids_for(ordered.take(i), md) + (if ordered[i].map_difficulty_id == md {
                    seq![ordered[i].id]
                } else {
                    Seq::<u32>::empty()
                }) by {
                    ordered.lemma_filter_map_take_succ(
                        |e: MapDifficultyXConditionEntry| if e.map_difficulty_id == md {
                            Some(e.id)
                        } else {
                            None
                        },
                        i,
                    );
                }
            }
            let md = entry.map_difficulty_id;
            let id = entry.id;
            let bucket = match by_map_difficulty.remove(&md) {
                Some(v) => v,
                None => Vec::new(),
            };
            let mut bucket = bucket;
            bucket.push(id);
            by_map_difficulty.insert(md, bucket);
            by_id.insert(id, entry);
            proof {
                assert forall|m2: u32| #[trigger] by_map_difficulty@.contains_key(m2) <==> condition_ids_for(
                    ordered.take(i + 1),
                    m2,
                ).len() > 0 by {
                    assert(condition_ids_for(ordered.take(i + 1), m2) =~= condition_ids_for(
                        ordered.take(i),
                        m2,
                    ) + (if ordered[i].map_difficulty_id == m2 {
                        seq![ordered[i].id]
                    } else {
                        Seq::<u32>::empty()
                    }));
                }
                assert forall|m2: u32| #[trigger] by_map_difficulty@.contains_key(m2) implies by_map_difficulty@[m2]@
                    == condition_ids_for(ordered.take(i + 1), m2) by {
                    assert(condition_ids_for(ordered.take(i + 1), m2) =~= condition_ids_for(
                        ordered.take(i),
                        m2,
                    ) + (if ordered[i].map_difficulty_id == m2 {
                        seq![ordered[i].id]
                    } else {
                        Seq::<u32>::empty()
                    }));
                }
            }
        }
        proof {
            assert(ordered.take(ordered.len() as int) =~= ordered);
        }
        proof {
            lemma_index_by_key_consistent(ordered);
        }
        let s = MapDifficultyXConditionStore { by_id, by_map_difficulty };
        proof {
            assert forall|md: u32| #[trigger] s@.1.contains_key(md) implies s@.1[md] == condition_ids_for(
                sorted_by_order(all),
                md,
            ) by {}
        }
        s
    }

    /// Builds the store from the rows of MapDifficultyXCondition.db2.
    pub fn load(rows: Vec<MapDifficultyXConditionEntry>) -> (s: Self)
        ensures
            s@.0 == index_by_key(sorted_by_order(rows@)),
            forall|md: u32| #[trigger] s@.1.contains_key(md) <==> condition_ids_for(
                sorted_by_order(rows@),
                md,
            ).len() > 0,
            forall|md: u32| #[trigger] s@.1.contains_key(md) ==> s@.1[md] == condition_ids_for(
                sorted_by_order(rows@),
                md,
            ),
    {
        Self::from_entries(rows)
    }

    pub fn get(&self, id: u32) -> (r: Option<&MapDifficultyXConditionEntry>)
        ensures
            r == (if self@.0.contains_key(id) {
                Some(&self@.0[id])
            } else {
                None
            }),
    {
        self.by_id.get(&id)
    }

    /// The condition rows of a map difficulty, in order-index order; ids
    /// without a row are skipped.
    pub fn conditions_for_map_difficulty(&self, map_difficulty_id: u32) -> (r: Vec<
        &MapDifficultyXConditionEntry,
    >)
        ensures
            r@ == self.conditions_for(map_difficulty_id),
            forall|j: int| #![trigger r@[j]] 0 <= j < r@.len() ==> self@.0.contains_key(r@[j].id)
                && self@.0[r@[j].id] == *r@[j],
    {
        proof {
            use_type_invariant(self);
        }
        let mut r: Vec<&MapDifficultyXConditionEntry> = Vec::new();
        match self.by_map_difficulty.get(&map_difficulty_id) {
            None => r,
            Some(ids) => {
                let ghost f = |id: u32| if self@.0.contains_key(id) {
                    Some(&self@.0[id])
                } else {
                    None
                };
                let mut i: usize = 0;
                while i < ids.len()
                    invariant
                        0 <= i <= ids@.len(),
                        f == (|id: u32| if self@.0.contains_key(id) {
                            Some(&self@.0[id])
                        } else {
                            None
                        }),
                        r@ == ids@.take(i as int).filter_map(f),
                        forall|k: u32| #[trigger] self@.0.contains_key(k) ==> self@.0[k].id == k,
                        forall|j: int| #![trigger r@[j]] 0 <= j < r@.len() ==> self@.0.contains_key(r@[j].id)
                            && self@.0[r@[j].id] == *r@[j],
                    decreases ids@.len() - i,
                {
                    proof {
                        ids@.lemma_filter_map_take_succ(f, i as int);
                    }
                    match self.by_id.get(&ids[i]) {
                        Some(e) => {
                            r.push(e);
                        },
                        None => {},
                    }
                    i = i + 1;
                }
                proof {
                    assert(ids@.take(ids@.len() as int) =~= ids@);
                }
                r
            },
        }
    }

    /// The first condition of a map difficulty, in order, whose player
    /// condition exists and is not met; conditions without a player
    /// condition row are skipped.
    pub fn failed_condition_like_cpp<F: Fn(&PlayerConditionEntry) -> bool>(
        &self,
        map_difficulty_id: u32,
        player_conditions: &PlayerConditionStore,
        meets: F,
    ) -> (r: Option<u32>)
        requires
            is_predicate(meets),
        ensures
            r is Some <==> exists|i: int|
                0 <= i < self.conditions_for(map_difficulty_id).len() && condition_fails(
                    self.conditions_for(map_difficulty_id)[i],
                    player_conditions@,
                    meets,
                ),
            r matches Some(id) ==> exists|i: int|
                0 <= i < self.conditions_for(map_difficulty_id).len() && condition_fails(
                    self.conditions_for(map_difficulty_id)[i],
                    player_conditions@,
                    meets,
                ) && self.conditions_for(map_difficulty_id)[i].id == id && forall|j: int|
                    0 <= j < i ==> !condition_fails(
                        self.conditions_for(map_difficulty_id)[j],
                        player_conditions@,
                        meets,
                    ),
    {
        let conditions = self.conditions_for_map_difficulty(map_difficulty_id);
        let ghost cs = self.conditions_for(map_difficulty_id);
        let mut i: usize = 0;
        while i < conditions.len()
            invariant
                0 <= i <= conditions@.len(),
                conditions@ == cs,
                cs == self.conditions_for(map_difficulty_id),
                is_predicate(meets),
                forall|j: int| 0 <= j < i ==> !condition_fails(cs[j], player_conditions@, meets),
            decreases conditions@.len() - i,
        {
            let entry = conditions[i];
            match player_conditions.get(entry.player_condition_id) {
                None => {
                    assert(!condition_fails(cs[i as int], player_conditions@, meets));
                },
                Some(pc) => {
                    let ok = meets(pc);
                    proof {
                        lemma_predicate_answer(meets, pc, ok);
                    }
                    if !ok {
                        assert(condition_fails(cs[i as int], player_conditions@, meets));
                        return Some(entry.id);
                    }
                    assert(!condition_fails(cs[i as int], player_conditions@, meets));
                },
            }
            i = i + 1;
        }
        None
    }

    /// The condition rows of a map difficulty, in order-index order.
    pub open spec fn conditions_for(&self, map_difficulty_id: u32) -> Seq<&MapDifficultyXConditionEntry> {
        if self@.1.contains_key(map_difficulty_id) {
            self@.1[map_difficulty_id].filter_map(
                |id: u32| if self@.0.contains_key(id) {
                    Some(&self@.0[id])
                } else {
                    None
                },
            )
        } else {
            Seq::empty()
        }
    }

    pub fn len(&self) -> (n: usize)
        ensures
            n == self@.0.len(),
    {
        self.by_id.len()
    }

    pub fn is_empty(&self) -> (b: bool)
        ensures
            b == self@.0.is_empty(),
    {
        self.by_id.is_empty()
    }
}

/// The rows of `s` that belong to a map difficulty, in order.
pub open spec fn condition_rows_for(s: Seq<MapDifficultyXConditionEntry>, map_difficulty_id: u32) -> Seq<
    MapDifficultyXConditionEntry,
> {
    s.filter_map(|e: MapDifficultyXConditionEntry| if e.map_difficulty_id == map_difficulty_id {
        Some(e)
    } else {
        None
    })
}

/// The ids of rows of a map difficulty, looked up in an index that holds
/// every row of `s` under its id, give back those rows.
proof fn lemma_lookup_condition_ids(
    s: Seq<MapDifficultyXConditionEntry>,
    m: Map<u32, MapDifficultyXConditionEntry>,
    md: u32,
)
    requires
        forall|i: int| 0 <= i < s.len() ==> m.contains_key(#[trigger] s[i].id) && m[s[i].id] == s[i],
    ensures
        condition_ids_for(s, md).filter_map(
            |id: u32| if m.contains_key(id) {
                Some(&m[id])
            } else {
                None
            },
        ).map_values(|e: &MapDifficultyXConditionEntry| *e) == condition_rows_for(s, md),
    decreases s.len(),
{
    let f = |id: u32| if m.contains_key(id) {
        Some(&m[id])
    } else {
        None
    };
    if s.len() > 0 {
        let s0 = s.drop_last();
        let x = s.last();
        assert forall|i: int| 0 <= i < s0.len() implies m.contains_key(#[trigger] s0[i].id) && m[s0[i].id]
            == s0[i] by {
            assert(s0[i] == s[i]);
        }
        lemma_lookup_condition_ids(s0, m, md);
        let ids0 = condition_ids_for(s0, md);
        assert(m.contains_key(s[s.len() - 1].id));
        if x.map_difficulty_id == md {
            assert(condition_ids_for(s, md) == ids0 + seq![x.id]);
            assert((ids0 + seq![x.id]).drop_last() =~= ids0);
            assert((ids0 + seq![x.id]).filter_map(f) == ids0.filter_map(f) + seq![&m[x.id]]);
            assert((ids0.filter_map(f) + seq![&m[x.id]]).map_values(|e: &MapDifficultyXConditionEntry| *e)
                =~= ids0.filter_map(f).map_values(|e: &MapDifficultyXConditionEntry| *e) + seq![x]);
        } else {
            assert(condition_ids_for(s, md) == ids0);
        }
    }
}

/// The rows stably sorted by order index keep the rows, and keep their ids
/// distinct.
proof fn lemma_sorted_rows_kept(rows: Seq<MapDifficultyXConditionEntry>)
    ensures
        sorted_by_order(rows).len() == rows.len(),
        forall|i: int| 0 <= i < rows.len() ==> rows.contains(#[trigger] sorted_by_order(rows)[i]),
        (forall|a: int, b: int| 0 <= a < b < rows.len() ==> rows[a].id != rows[b].id) ==> forall|a: int, b: int|
            0 <= a < b < rows.len() ==> #[trigger] sorted_by_order(rows)[a].id != #[trigger] sorted_by_order(rows)[b].id,
    decreases rows.len(),
{
    if rows.len() > 0 {
        let r0 = rows.drop_last();
        let x = rows.last();
        lemma_sorted_rows_kept(r0);
        let s0 = sorted_by_order(r0);
        let p = order_insert_position(s0, x.order_index);
        lemma_order_insert_position_range(s0, x.order_index);
        let s = sorted_by_order(rows);
        assert(s == s0.insert(p, x));
        assert forall|i: int| 0 <= i < rows.len() implies rows.contains(#[trigger] s[i]) by {
            if i == p {
                assert(rows[rows.len() - 1] == x);
            } else {
                let k = if i < p { i } else { i - 1 };
                assert(s[i] == s0[k]);
                assert(r0.contains(s0[k]));
                let j = choose|j: int| 0 <= j < r0.len() && r0[j] == s0[k];
                assert(rows[j] == r0[j]);
            }
        }
        if forall|a: int, b: int| 0 <= a < b < rows.len() ==> rows[a].id != rows[b].id {
            assert forall|a: int, b: int| 0 <= a < b < r0.len() implies r0[a].id != r0[b].id by {
                assert(r0[a] == rows[a] && r0[b] == rows[b]);
            }
            assert forall|k: int| 0 <= k < s0.len() implies #[trigger] s0[k].id != x.id by {
                assert(r0.contains(s0[k]));
                let j = choose|j: int| 0 <= j < r0.len() && r0[j] == s0[k];
                assert(rows[j] == r0[j]);
                assert(rows[j].id != rows[rows.len() - 1].id);
            }
            assert forall|a: int, b: int| 0 <= a < b < rows.len() implies #[trigger] s[a].id != #[trigger] s[b].id by {
                let ka = if a < p { a } else { a - 1 };
                let kb = if b < p { b } else { b - 1 };
                if a == p {
                    assert(s[b] == s0[kb]);
                    assert(s0[kb].id != x.id);
                } else if b == p {
                    assert(s[a] == s0[ka]);
                    assert(s0[ka].id != x.id);
                } else {
                    assert(s[a] == s0[ka] && s[b] == s0[kb]);
                    assert(ka < kb);
                }
            }
        }
    }
}

proof fn lemma_order_insert_position_range(s: Seq<MapDifficultyXConditionEntry>, o: i32)
    ensures
        0 <= order_insert_position(s, o) <= s.len(),
    decreases s.len(),
{
    if s.len() > 0 {
        lemma_order_insert_position_range(s.drop_first(), o);
    }
}

/// For rows with distinct ids, the conditions of a map difficulty are its
/// rows stably sorted by order index: ordered by order index, rows of equal
/// order in table order.
pub proof fn lemma_conditions_are_sorted_rows(
    store: &MapDifficultyXConditionStore,
    rows: Seq<MapDifficultyXConditionEntry>,
    map_difficulty_id: u32,
)
    requires
        forall|a: int, b: int| 0 <= a < b < rows.len() ==> rows[a].id != rows[b].id,
        store@.0 == index_by_key(sorted_by_order(rows)),
        forall|md: u32| #[trigger] store@.1.contains_key(md) <==> condition_ids_for(sorted_by_order(rows), md).len()
            > 0,
        forall|md: u32| #[trigger] store@.1.contains_key(md) ==> store@.1[md] == condition_ids_for(
            sorted_by_order(rows),
            md,
        ),
    ensures
        store.conditions_for(map_difficulty_id).map_values(|e: &MapDifficultyXConditionEntry| *e)
            == condition_rows_for(sorted_by_order(rows), map_difficulty_id),
{
    let s = sorted_by_order(rows);
    let m = store@.0;
    lemma_sorted_rows_kept(rows);
    lemma_index_by_key_consistent(s);
    assert forall|i: int| 0 <= i < s.len() implies m.contains_key(#[trigger] s[i].id) && m[s[i].id] == s[i] by {
        lemma_index_by_key_last_wins(s, s[i].id);
        assert forall|j: int| i < j < s.len() implies s[j].spec_key() != s[i].id by {
            assert(s[i].id != s[j].id);
        }
        assert(is_last_with_key(s, s[i].id, i));
    }
    lemma_lookup_condition_ids(s, m, map_difficulty_id);
    let f = |id: u32| if m.contains_key(id) {
        Some(&m[id])
    } else {
        None
    };
    if !store@.1.contains_key(map_difficulty_id) {
        assert(condition_ids_for(s, map_difficulty_id) =~= Seq::<u32>::empty());
        assert(condition_ids_for(s, map_difficulty_id).filter_map(f) =~= Seq::empty());
        assert(store.conditions_for(map_difficulty_id).map_values(|e: &MapDifficultyXConditionEntry| *e)
            =~= Seq::<MapDifficultyXConditionEntry>::empty());
    }
}

} // verus!
