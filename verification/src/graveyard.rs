//! Graveyard links: the graveyards (world safe locations) of each zone.
use std::collections::HashMap;
use vstd::prelude::*;

use crate::predicates::{holds, is_default_value, is_predicate, lemma_predicate_answer};

verus! {

broadcast use vstd::std_specs::hash::group_hash_axioms;

pub const HORDE_GRAVEYARD_SAFE_LOC_ID_LIKE_CPP: u32 = 10;

pub const ALLIANCE_GRAVEYARD_SAFE_LOC_ID_LIKE_CPP: u32 = 4;

pub const TEAM_HORDE_LIKE_CPP: u32 = 67;

pub const TEAM_ALLIANCE_LIKE_CPP: u32 = 469;

/// A graveyard of a zone and the reference to the conditions under which it
/// can be used (attached once the conditions are loaded).
#[derive(Debug, Clone, Default)]
pub struct GraveyardData<R> {
    pub safe_loc_id: u32,
    pub conditions: R,
}

/// A `graveyard_zone` row.
#[derive(Debug, Clone, Copy, PartialEq, Eq)]
pub struct GraveyardZoneRow {
    pub safe_loc_id: u32,
    pub ghost_zone_id: u32,
}

/// What attaching conditions to graveyards did; a condition is named by its
/// (source group, source entry, source id).
#[derive(Debug, Clone, Default, PartialEq, Eq)]
pub struct GraveyardConditionAttachmentReport {
    pub attached_condition_count: usize,
    pub missing_graveyards: Vec<(u32, i32, u32)>,
}

/// What loading the graveyard rows did with each row.
#[derive(Debug, Clone, Default, PartialEq, Eq)]
pub struct GraveyardLoadReport {
    pub loaded: usize,
    pub missing_safe_locs: Vec<GraveyardZoneRow>,
    pub missing_zones: Vec<GraveyardZoneRow>,
    pub duplicates: Vec<GraveyardZoneRow>,
}

/// The graveyards of each zone, in link order.
pub struct GraveyardStore<R> {
    by_zone: HashMap<u32, Vec<GraveyardData<R>>>,
}

/// The graveyard ids of a zone's links.
pub open spec fn link_ids<R>(v: Seq<GraveyardData<R>>) -> Seq<u32> {
    v.map_values(|d: GraveyardData<R>| d.safe_loc_id)
}

/// Whether zone `zone_id` links graveyard `safe_loc_id`.
pub open spec fn is_linked(links: Map<u32, Seq<u32>>, safe_loc_id: u32, zone_id: u32) -> bool {
    links.contains_key(zone_id) && links[zone_id].contains(safe_loc_id)
}

/// `links` with graveyard `safe_loc_id` linked to zone `zone_id`, unless it
/// already is.
pub open spec fn with_link(links: Map<u32, Seq<u32>>, safe_loc_id: u32, zone_id: u32) -> Map<u32, Seq<u32>> {
    if is_linked(links, safe_loc_id, zone_id) {
        links
    } else {
        links.insert(
            zone_id,
            (if links.contains_key(zone_id) {
                links[zone_id]
            } else {
                Seq::empty()
            }).push(safe_loc_id),
        )
    }
}

/// No zone links a graveyard twice.
pub open spec fn links_distinct(links: Map<u32, Seq<u32>>) -> bool {
    forall|z: u32| #[trigger] links.contains_key(z) ==> links[z].no_duplicates()
}

/// A row whose graveyard and zone exist.
pub open spec fn row_valid<S: Fn(u32) -> bool, A: Fn(u32) -> bool>(
    row: GraveyardZoneRow,
    world_safe_loc_exists: S,
    area_exists: A,
) -> bool {
    holds(world_safe_loc_exists, row.safe_loc_id) && holds(area_exists, row.ghost_zone_id)
}

/// The links after the rows, starting with none.
pub open spec fn links_after_rows<S: Fn(u32) -> bool, A: Fn(u32) -> bool>(
    rows: Seq<GraveyardZoneRow>,
    world_safe_loc_exists: S,
    area_exists: A,
) -> Map<u32, Seq<u32>>
    decreases rows.len(),
{
    if rows.len() == 0 {
        Map::empty()
    } else {
        let before = links_after_rows(rows.drop_last(), world_safe_loc_exists, area_exists);
        let r = rows.last();
        if row_valid(r, world_safe_loc_exists, area_exists) {
            with_link(before, r.safe_loc_id, r.ghost_zone_id)
        } else {
            before
        }
    }
}

/// The rows whose graveyard does not exist, in order.
pub open spec fn rows_missing_safe_loc<S: Fn(u32) -> bool>(rows: Seq<GraveyardZoneRow>, world_safe_loc_exists: S) -> Seq<
    GraveyardZoneRow,
> {
    rows.filter(|r: GraveyardZoneRow| !holds(world_safe_loc_exists, r.safe_loc_id))
}

/// The rows whose graveyard exists but whose zone does not, in order.
pub open spec fn rows_missing_zone<S: Fn(u32) -> bool, A: Fn(u32) -> bool>(
    rows: Seq<GraveyardZoneRow>,
    world_safe_loc_exists: S,
    area_exists: A,
) -> Seq<GraveyardZoneRow> {
    rows.filter(
        |r: GraveyardZoneRow|
            holds(world_safe_loc_exists, r.safe_loc_id) && !holds(area_exists, r.ghost_zone_id),
    )
}

/// The valid rows that repeat a link made by an earlier row, in order.
pub open spec fn duplicate_rows<S: Fn(u32) -> bool, A: Fn(u32) -> bool>(
    rows: Seq<GraveyardZoneRow>,
    world_safe_loc_exists: S,
    area_exists: A,
) -> Seq<GraveyardZoneRow>
    decreases rows.len(),
{
    if rows.len() == 0 {
        Seq::empty()
    } else {
        let before = duplicate_rows(rows.drop_last(), world_safe_loc_exists, area_exists);
        let r = rows.last();
        if row_valid(r, world_safe_loc_exists, area_exists) && is_linked(
            links_after_rows(rows.drop_last(), world_safe_loc_exists, area_exists),
            r.safe_loc_id,
            r.ghost_zone_id,
        ) {
            before.push(r)
        } else {
            before
        }
    }
}

impl<R> GraveyardStore<R> {
    /// The links of each zone, in link order, with their conditions.
    pub closed spec fn links(&self) -> Map<u32, Seq<GraveyardData<R>>> {
        self.by_zone@.map_values(|v: Vec<GraveyardData<R>>| v@)
    }
}

impl<R> View for GraveyardStore<R> {
    type V = Map<u32, Seq<u32>>;

    /// The graveyard ids of each zone, in link order.
    open spec fn view(&self) -> Map<u32, Seq<u32>> {
        self.links().map_values(|v: Seq<GraveyardData<R>>| link_ids(v))
    }
}

/// `v[i]` is the first link of `v` to graveyard `safe_loc_id`.
pub open spec fn first_link_at<R>(v: Seq<GraveyardData<R>>, safe_loc_id: u32, i: int) -> bool {
    &&& 0 <= i < v.len()
    &&& v[i].safe_loc_id == safe_loc_id
    &&& forall|j: int| 0 <= j < i ==> v[j].safe_loc_id != safe_loc_id
}

/// The links of zone `zone_id` in `links`, none where it has none.
pub open spec fn zone_links<R>(links: Map<u32, Seq<GraveyardData<R>>>, zone_id: u32) -> Seq<GraveyardData<R>> {
    if links.contains_key(zone_id) {
        links[zone_id]
    } else {
        Seq::empty()
    }
}

impl<R> Default for GraveyardStore<R> {
    fn default() -> (s: Self)
        ensures
            s@ == Map::<u32, Seq<u32>>::empty(),
            s.links() == Map::<u32, Seq<GraveyardData<R>>>::empty(),
    {
        let s = GraveyardStore { by_zone: HashMap::new() };
        proof {
            assert(s.links() =~= Map::<u32, Seq<GraveyardData<R>>>::empty());
            assert(s@ =~= Map::<u32, Seq<u32>>::empty());
        }
        s
    }
}

impl<R: Default> GraveyardStore<R> {
    /// The graveyards of a zone, in link order.
    pub fn graveyards_for_zone(&self, zone_id: u32) -> (r: Option<&[GraveyardData<R>]>)
        ensures
            r matches Some(v) ==> self@.contains_key(zone_id) && link_ids(v@) == self@[zone_id]
                && v@ == self.links()[zone_id],
            r is None ==> !self@.contains_key(zone_id),
    {
        match self.by_zone.get(&zone_id) {
            Some(v) => Some(v.as_slice()),
            None => None,
        }
    }

    /// The link of a graveyard to a zone.
    pub fn find_graveyard_data_like_cpp(&self, safe_loc_id: u32, zone_id: u32) -> (r: Option<
        &GraveyardData<R>,
    >)
        ensures
            r matches Some(d) ==> d.safe_loc_id == safe_loc_id && is_linked(self@, safe_loc_id, zone_id)
                && exists|i: int| first_link_at(zone_links(self.links(), zone_id), safe_loc_id, i)
                && *d == zone_links(self.links(), zone_id)[i],
            r is None ==> !is_linked(self@, safe_loc_id, zone_id),
    {
        match self.by_zone.get(&zone_id) {
            Some(v) => {
                let ghost ids = link_ids(v@);
                let mut i: usize = 0;
                while i < v.len()
                    invariant
                        i <= v@.len(),
                        ids == link_ids(v@),
                        self@.contains_key(zone_id),
                        self@[zone_id] == ids,
                        self.links().contains_key(zone_id),
                        self.links()[zone_id] == v@,
                        forall|j: int| 0 <= j < i ==> ids[j] != safe_loc_id,
                    decreases v@.len() - i,
                {
                    if v[i].safe_loc_id == safe_loc_id {
                        proof {
                            assert(ids[i as int] == safe_loc_id);
                            assert forall|j: int| 0 <= j < i implies v@[j].safe_loc_id != safe_loc_id by {
                                assert(ids[j] == v@[j].safe_loc_id);
                            }
                            assert(first_link_at(zone_links(self.links(), zone_id), safe_loc_id, i as int));
                        }
                        return Some(&v[i]);
                    }
                    i = i + 1;
                }
                None
            },
            None => None,
        }
    }

    /// Links a graveyard to a zone; false when it already is.
    pub fn add_graveyard_link_like_cpp(&mut self, safe_loc_id: u32, zone_id: u32) -> (added: bool)
        ensures
            added == !is_linked(old(self)@, safe_loc_id, zone_id),
            final(self)@ == with_link(old(self)@, safe_loc_id, zone_id),
            links_distinct(old(self)@) ==> links_distinct(final(self)@),
            !added ==> final(self).links() == old(self).links(),
            added ==> exists|c: R| #[trigger] is_default_value(c) && final(self).links() == old(self).links().insert(
                zone_id,
                zone_links(old(self).links(), zone_id).push(GraveyardData { safe_loc_id, conditions: c }),
            ),
    {
        if self.find_graveyard_data_like_cpp(safe_loc_id, zone_id).is_some() {
            return false;
        }
        let ghost v0 = self@;
        let ghost l0 = self.links();
        let mut list = match self.by_zone.remove(&zone_id) {
            Some(v) => v,
            None => Vec::new(),
        };
        let ghost list0 = list@;
        let conditions = R::default();
        let ghost c = conditions;
        list.push(GraveyardData { safe_loc_id, conditions });
        self.by_zone.insert(zone_id, list);
        proof {
            assert(list0 == zone_links(l0, zone_id));
            assert(self.links() =~= l0.insert(
                zone_id,
                zone_links(l0, zone_id).push(GraveyardData { safe_loc_id, conditions: c }),
            ));
            assert(is_default_value(c));
            assert(link_ids(list@) =~= link_ids(list0).push(safe_loc_id));
            assert(link_ids(list0) =~= (if v0.contains_key(zone_id) {
                v0[zone_id]
            } else {
                Seq::empty()
            }));
            assert(self@ =~= with_link(v0, safe_loc_id, zone_id));
            if links_distinct(v0) {
                assert forall|z: u32| #[trigger] self@.contains_key(z) implies self@[z].no_duplicates() by {
                    if z == zone_id {
                        assert(!link_ids(list0).contains(safe_loc_id));
                        assert forall|a: int, b: int| 0 <= a < b < self@[z].len() implies self@[z][a]
                            != self@[z][b] by {
                            if b == link_ids(list0).len() {
                                assert(self@[z][a] == link_ids(list0)[a]);
                            }
                        }
                    }
                }
            }
        }
        true
    }

    /// Loads the `graveyard_zone` rows in place of the current links: a row
    /// whose graveyard and zone exist links them unless they already are;
    /// every other row is reported with the reason it was left out.
    pub fn load_graveyard_zones_from_rows_like_cpp<S: Fn(u32) -> bool, A: Fn(u32) -> bool>(
        &mut self,
        rows: Vec<GraveyardZoneRow>,
        world_safe_loc_exists: S,
        area_exists: A,
    ) -> (report: GraveyardLoadReport)
        requires
            is_predicate(world_safe_loc_exists),
            is_predicate(area_exists),
        ensures
            final(self)@ == links_after_rows(rows@, world_safe_loc_exists, area_exists),
            links_distinct(final(self)@),
            forall|z: u32, i: int| #![trigger final(self).links()[z][i]]
                final(self).links().contains_key(z) && 0 <= i < final(self).links()[z].len() ==> is_default_value(
                    final(self).links()[z][i].conditions,
                ),
            report.missing_safe_locs@ == rows_missing_safe_loc(rows@, world_safe_loc_exists),
            report.missing_zones@ == rows_missing_zone(rows@, world_safe_loc_exists, area_exists),
            report.duplicates@ == duplicate_rows(rows@, world_safe_loc_exists, area_exists),
            report.loaded + report.missing_safe_locs@.len() + report.missing_zones@.len()
                + report.duplicates@.len() == rows@.len(),
    {
        self.by_zone.clear();
        let mut report = GraveyardLoadReport {
            loaded: 0,
            missing_safe_locs: Vec::new(),
            missing_zones: Vec::new(),
            duplicates: Vec::new(),
        };
        let ghost all = rows@;
        let n = rows.len();
        proof {
            reveal(Seq::filter);
            assert(self.links() =~= Map::<u32, Seq<GraveyardData<R>>>::empty());
            assert(self@ =~= Map::<u32, Seq<u32>>::empty());
            assert(all.take(0) =~= Seq::<GraveyardZoneRow>::empty());
        }
        for row in it: rows
            invariant
                all == it.seq(),
                n == all.len(),
                is_predicate(world_safe_loc_exists),
                is_predicate(area_exists),
                self@ == links_after_rows(all.take(it.index() as int), world_safe_loc_exists, area_exists),
                links_distinct(self@),
                forall|z: u32, i: int| #![trigger self.links()[z][i]]
                    self.links().contains_key(z) && 0 <= i < self.links()[z].len() ==> is_default_value(
                        self.links()[z][i].conditions,
                    ),
                report.missing_safe_locs@ == rows_missing_safe_loc(all.take(it.index() as int), world_safe_loc_exists),
                report.missing_zones@ == rows_missing_zone(all.take(it.index() as int), world_safe_loc_exists, area_exists),
                report.duplicates@ == duplicate_rows(all.take(it.index() as int), world_safe_loc_exists, area_exists),
                report.loaded + report.missing_safe_locs@.len() + report.missing_zones@.len()
                    + report.duplicates@.len() == it.index(),
        {
            let ghost i = it.index() as int;
            proof {
                reveal(Seq::filter);
                assert(all.take(i + 1).drop_last() =~= all.take(i));
                assert(all.take(i + 1).last() == row);
            }
            let safe_ok = world_safe_loc_exists(row.safe_loc_id);
            proof {
                reveal(Seq::filter);
                lemma_predicate_answer(world_safe_loc_exists, row.safe_loc_id, safe_ok);
                let sp = |r: GraveyardZoneRow| !holds(world_safe_loc_exists, r.safe_loc_id);
                assert(rows_missing_safe_loc(all.take(i + 1), world_safe_loc_exists) == if safe_ok {
                    all.take(i).filter(sp)
                } else {
                    all.take(i).filter(sp).push(row)
                });
            }
            if !safe_ok {
                report.missing_safe_locs.push(row);
                proof {
                    reveal(Seq::filter);
                    let zp = |r: GraveyardZoneRow|
                        holds(world_safe_loc_exists, r.safe_loc_id) && !holds(area_exists, r.ghost_zone_id);
                    assert(rows_missing_zone(all.take(i + 1), world_safe_loc_exists, area_exists) == all.take(i).filter(zp));
                }
            } else {
                let zone_ok = area_exists(row.ghost_zone_id);
                proof {
                    lemma_predicate_answer(area_exists, row.ghost_zone_id, zone_ok);
                }
                proof {
                    reveal(Seq::filter);
                    let zp = |r: GraveyardZoneRow|
                        holds(world_safe_loc_exists, r.safe_loc_id) && !holds(area_exists, r.ghost_zone_id);
                    assert(rows_missing_zone(all.take(i + 1), world_safe_loc_exists, area_exists) == if zone_ok {
                        all.take(i).filter(zp)
                    } else {
                        all.take(i).filter(zp).push(row)
                    });
                }
                if !zone_ok {
                    report.missing_zones.push(row);
                } else if self.add_graveyard_link_like_cpp(row.safe_loc_id, row.ghost_zone_id) {
                    report.loaded = report.loaded + 1;
                } else {
                    report.duplicates.push(row);
                }
            }
        }
        proof {
            assert(all.take(all.len() as int) =~= all);
        }
        report
    }

    /// The default graveyard of a team: Horde and Alliance have one.
    pub fn default_graveyard_safe_loc_id_like_cpp(team: u32) -> (r: Option<u32>)
        ensures
            r == (if team == TEAM_HORDE_LIKE_CPP {
                Some(HORDE_GRAVEYARD_SAFE_LOC_ID_LIKE_CPP)
            } else if team == TEAM_ALLIANCE_LIKE_CPP {
                Some(ALLIANCE_GRAVEYARD_SAFE_LOC_ID_LIKE_CPP)
            } else {
                None
            }),
    {
        if team == TEAM_HORDE_LIKE_CPP {
            Some(HORDE_GRAVEYARD_SAFE_LOC_ID_LIKE_CPP)
        } else if team == TEAM_ALLIANCE_LIKE_CPP {
            Some(ALLIANCE_GRAVEYARD_SAFE_LOC_ID_LIKE_CPP)
        } else {
            None
        }
    }
}

} // verus!
