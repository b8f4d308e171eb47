//! The area table rows that phasing reads: which areas exist and the parent
//! of each.
use std::collections::HashMap;
use vstd::prelude::*;

use crate::db2_index::{build_index, index_by_key, Keyed};

verus! {

broadcast use vstd::std_specs::hash::group_hash_axioms;

/// A row of the AreaTable table.
#[derive(Debug, Clone, Copy, PartialEq, Eq)]
pub struct AreaTableEntry {
    pub id: u32,
    pub continent_id: u16,
    pub parent_area_id: u16,
    pub mount_flags: u8,
    pub flags: u32,
}

impl Keyed for AreaTableEntry {
    open spec fn spec_key(&self) -> u32 {
        self.id
    }

    fn key(&self) -> (k: u32) {
        self.id
    }
}

/// Areas by id.
pub struct AreaTableStore {
    entries: HashMap<u32, AreaTableEntry>,
}

impl View for AreaTableStore {
    type V = Map<u32, AreaTableEntry>;

    closed spec fn view(&self) -> Map<u32, AreaTableEntry> {
        self.entries@
    }
}

impl AreaTableStore {
    /// Builds the store; a later row replaces an earlier one with the same id.
    pub fn from_entries(entries: Vec<AreaTableEntry>) -> (s: Self)
        ensures
            s@ == index_by_key(entries@),
    {
        AreaTableStore { entries: build_index(entries) }
    }

    pub fn get(&self, id: u32) -> (r: Option<&AreaTableEntry>)
        ensures
            r == (if self@.contains_key(id) {
                Some(&self@[id])
            } else {
                None
            }),
    {
        self.entries.get(&id)
    }

    pub fn contains(&self, id: u32) -> (b: bool)
        ensures
            b == self@.contains_key(id),
    {
        self.entries.contains_key(&id)
    }
}

/// Walking `k` steps up the parent links from area `c`: a step from an area
/// that is not stored, or whose parent is zero, ends the walk.
pub open spec fn walk_up(areas: Map<u32, AreaTableEntry>, c: u32, k: nat) -> Option<u32>
    decreases k,
{
    if k == 0 {
        Some(c)
    } else {
        match walk_up(areas, c, (k - 1) as nat) {
            Some(x) => if areas.contains_key(x) && areas[x].parent_area_id != 0 {
                Some(areas[x].parent_area_id as u32)
            } else {
                None
            },
            None => None,
        }
    }
}

/// The walk up from `c` ends.
pub open spec fn chain_ends(areas: Map<u32, AreaTableEntry>, c: u32) -> bool {
    exists|n: nat| #[trigger] walk_up(areas, c, n) is None
}

/// No parent chain of the table runs in a circle.
pub open spec fn area_chains_end(areas: Map<u32, AreaTableEntry>) -> bool {
    forall|c: u32| #[trigger] chain_ends(areas, c)
}

/// Area `a` is reached from area `c` in one or more steps up.
pub open spec fn is_ancestor(areas: Map<u32, AreaTableEntry>, a: u32, c: u32) -> bool {
    exists|k: nat| 1 <= k && #[trigger] walk_up(areas, c, k) == Some(a)
}

/// Once a walk has ended it stays ended.
pub proof fn lemma_walk_stays_ended(areas: Map<u32, AreaTableEntry>, c: u32, k: nat, m: nat)
    requires
        walk_up(areas, c, k) is None,
        k <= m,
    ensures
        walk_up(areas, c, m) is None,
    decreases m - k,
{
    if k < m {
        lemma_walk_stays_ended(areas, c, k, (m - 1) as nat);
    }
}

/// Whether area `a` is reached from area `c` in one or more steps up.
pub fn is_strict_ancestor(area_store: &AreaTableStore, a: u32, c: u32) -> (r: bool)
    requires
        chain_ends(area_store@, c),
    ensures
        r == is_ancestor(area_store@, a, c),
{
    let ghost areas = area_store@;
    let ghost n = choose|n: nat| #[trigger] walk_up(areas, c, n) is None;
    let mut cur = c;
    let ghost mut k: nat = 0;
    loop
        invariant
            areas == area_store@,
            walk_up(areas, c, n) is None,
            walk_up(areas, c, k) == Some(cur),
            forall|j: nat| 1 <= j <= k ==> #[trigger] walk_up(areas, c, j) != Some(a),
        decreases n - k,
    {
        proof {
            if k >= n {
                lemma_walk_stays_ended(areas, c, n, k);
            }
        }
        match area_store.get(cur) {
            None => {
                proof {
                    assert(walk_up(areas, c, k + 1) is None);
                    assert forall|j: nat| 1 <= j implies #[trigger] walk_up(areas, c, j) != Some(a) by {
                        if j > k {
                            lemma_walk_stays_ended(areas, c, k + 1, j);
                        }
                    }
                }
                return false;
            },
            Some(area) => {
                let parent = area.parent_area_id as u32;
                if parent == 0 {
                    proof {
                        assert(walk_up(areas, c, k + 1) is None);
                        assert forall|j: nat| 1 <= j implies #[trigger] walk_up(areas, c, j) != Some(a) by {
                            if j > k {
                                lemma_walk_stays_ended(areas, c, k + 1, j);
                            }
                        }
                    }
                    return false;
                }
                proof {
                    assert(walk_up(areas, c, k + 1) == Some(parent));
                }
                if parent == a {
                    return true;
                }
                cur = parent;
                proof {
                    k = k + 1;
                }
            },
        }
    }
}

} // verus!
