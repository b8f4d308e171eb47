//! Points of interest and their localized names.
//!
//! Whether a row's coordinates lie on a map is decided by the caller (the
//! coordinates are single-precision floats, kept here as their bit patterns).
use std::collections::HashMap;
use vstd::prelude::*;
use vstd::std_specs::iter::IteratorSpec;
use crate::game_tele::Position;
use crate::gossip::{Locale, locale_named, locale_slot, locale_from_name_like_cpp, slot_of};
use crate::predicates::{holds, is_predicate, lemma_predicate_answer};

verus! {

broadcast use vstd::std_specs::hash::group_hash_axioms;

/// A point of interest.
#[derive(Debug, Clone, PartialEq)]
pub struct PointOfInterestLikeCpp {
    pub id: u32,
    pub position: Position,
    pub icon: u32,
    pub flags: u32,
    pub importance: u32,
    pub name: String,
    pub wmo_group_id: i32,
}

/// A row of the point of interest table.
#[derive(Debug, Clone, PartialEq)]
pub struct PointOfInterestRowLikeCpp {
    pub id: u32,
    pub position_x: u32,
    pub position_y: u32,
    pub position_z: u32,
    pub icon: u32,
    pub flags: u32,
    pub importance: u32,
    pub name: String,
    pub wmo_group_id: i32,
}

/// What loading the point of interest table did.
#[derive(Debug, Default, Clone, PartialEq)]
pub struct PointOfInterestLoadReportLikeCpp {
    pub rows_seen: usize,
    pub loaded_rows: usize,
    pub skipped_invalid_coordinates: Vec<(u32, u32, u32, u32)>,
}

/// Points of interest by id.
pub struct PointOfInterestStoreLikeCpp {
    entries: HashMap<u32, PointOfInterestLikeCpp>,
}

/// A loaded store with what loading it did.
pub struct PointOfInterestLoadOutcomeLikeCpp {
    pub store: PointOfInterestStoreLikeCpp,
    pub report: PointOfInterestLoadReportLikeCpp,
}

/// `p` is the point that the row `row` gives (its orientation 0).
pub open spec fn poi_matches(p: PointOfInterestLikeCpp, row: PointOfInterestRowLikeCpp) -> bool {
    &&& p.id == row.id
    &&& p.position == Position { x: row.position_x, y: row.position_y, z: row.position_z, orientation: 0 }
    &&& p.icon == row.icon
    &&& p.flags == row.flags
    &&& p.importance == row.importance
    &&& p.name@ == row.name@
    &&& p.wmo_group_id == row.wmo_group_id
}

/// The rows that loading `rows` keeps (those with valid coordinates), by id,
/// a later one replacing an earlier one.
pub open spec fn poi_rows_kept<F: Fn(&PointOfInterestRowLikeCpp) -> bool>(
    rows: Seq<PointOfInterestRowLikeCpp>,
    coords_valid: F,
) -> Map<u32, PointOfInterestRowLikeCpp>
    decreases rows.len(),
{
    if rows.len() == 0 {
        Map::empty()
    } else {
        let m = poi_rows_kept(rows.drop_last(), coords_valid);
        if holds(coords_valid, &rows.last()) {
            m.insert(rows.last().id, rows.last())
        } else {
            m
        }
    }
}

/// The id and coordinates of each row that loading `rows` skips, in order.
pub open spec fn poi_rows_skipped<F: Fn(&PointOfInterestRowLikeCpp) -> bool>(
    rows: Seq<PointOfInterestRowLikeCpp>,
    coords_valid: F,
) -> Seq<(u32, u32, u32, u32)>
    decreases rows.len(),
{
    if rows.len() == 0 {
        seq![]
    } else {
        let s = poi_rows_skipped(rows.drop_last(), coords_valid);
        let r = rows.last();
        if holds(coords_valid, &r) {
            s
        } else {
            s.push((r.id, r.position_x, r.position_y, r.position_z))
        }
    }
}

impl PointOfInterestStoreLikeCpp {
    /// The points by id.
    pub closed spec fn entries_map(&self) -> Map<u32, PointOfInterestLikeCpp> {
        self.entries@
    }

    /// Loads the point of interest rows, skipping those whose coordinates
    /// `coords_valid` denies; a later row replaces an earlier one with the
    /// same id, and both count as loaded.
    pub fn from_rows_like_cpp<F: Fn(&PointOfInterestRowLikeCpp) -> bool>(
        rows: Vec<PointOfInterestRowLikeCpp>,
        coords_valid: F,
    ) -> (out: PointOfInterestLoadOutcomeLikeCpp)
        requires
            is_predicate(coords_valid),
        ensures
            out.store.entries_map().dom() == poi_rows_kept(rows@, coords_valid).dom(),
            forall|id: u32| #[trigger] out.store.entries_map().contains_key(id) ==> poi_matches(
                out.store.entries_map()[id],
                poi_rows_kept(rows@, coords_valid)[id],
            ),
            out.report.rows_seen == rows@.len(),
            out.report.skipped_invalid_coordinates@ == poi_rows_skipped(rows@, coords_valid),
            out.report.loaded_rows + out.report.skipped_invalid_coordinates@.len() == rows@.len(),
    {
        let ghost all = rows@;
        let n = rows.len();
        let mut entries: HashMap<u32, PointOfInterestLikeCpp> = HashMap::new();
        let mut skipped: Vec<(u32, u32, u32, u32)> = Vec::new();
        let mut seen: usize = 0;
        let mut loaded: usize = 0;
        for row in it: rows
            invariant
                all == it.seq(),
                all.len() == n,
                it.index() <= n,
                is_predicate(coords_valid),
                seen == it.index(),
                loaded + skipped@.len() == it.index(),
                entries@.dom() == poi_rows_kept(all.take(it.index() as int), coords_valid).dom(),
                forall|id: u32| #[trigger] entries@.contains_key(id) ==> poi_matches(
                    entries@[id],
                    poi_rows_kept(all.take(it.index() as int), coords_valid)[id],
                ),
                skipped@ == poi_rows_skipped(all.take(it.index() as int), coords_valid),
        {
            let ghost i = it.index() as int;
            proof {
                assert(all.take(i + 1).drop_last() =~= all.take(i));
                assert(all.take(i + 1).last() == row);
            }
            seen = seen + 1;
            let valid = coords_valid(&row);
            proof {
                lemma_predicate_answer(coords_valid, &row, valid);
            }
            if !valid {
                skipped.push((row.id, row.position_x, row.position_y, row.position_z));
            } else {
                let ghost row_copy = row;
                let poi = PointOfInterestLikeCpp {
                    id: row.id,
                    position: Position { x: row.position_x, y: row.position_y, z: row.position_z, orientation: 0 },
                    icon: row.icon,
                    flags: row.flags,
                    importance: row.importance,
                    name: row.name,
                    wmo_group_id: row.wmo_group_id,
                };
                entries.insert(row.id, poi);
                loaded = loaded + 1;
                proof {
                    assert(poi_matches(poi, row_copy));
                }
            }
        }
        proof {
            assert(all.take(n as int) =~= all);
        }
        PointOfInterestLoadOutcomeLikeCpp {
            store: PointOfInterestStoreLikeCpp { entries },
            report: PointOfInterestLoadReportLikeCpp {
                rows_seen: seen,
                loaded_rows: loaded,
                skipped_invalid_coordinates: skipped,
            },
        }
    }

    /// The point of interest with id `id`.
    pub fn get_point_of_interest_like_cpp(&self, id: u32) -> (r: Option<&PointOfInterestLikeCpp>)
        ensures
            r == (if self.entries_map().contains_key(id) {
                Some(&self.entries_map()[id])
            } else {
                None
            }),
    {
        self.entries.get(&id)
    }

    pub fn len(&self) -> (n: usize)
        ensures
            n == self.entries_map().len(),
    {
        self.entries.len()
    }

    pub fn is_empty(&self) -> (b: bool)
        ensures
            b == self.entries_map().is_empty(),
    {
        self.entries.is_empty()
    }
}

/// A row of the point of interest locale table.
#[derive(Debug, Clone, PartialEq, Eq)]
pub struct PointOfInterestLocaleRowLikeCpp {
    pub id: u32,
    pub locale: String,
    pub name: String,
}

/// The localized names of a point of interest, by locale slot.
pub struct PointOfInterestLocaleLikeCpp {
    names: HashMap<u32, String>,
}

impl PointOfInterestLocaleLikeCpp {
    /// The names by locale slot.
    pub closed spec fn names_map(&self) -> Map<u32, Seq<char>> {
        self.names@.map_values(|s: String| s@)
    }

    /// The name in `locale`.
    pub fn name_like_cpp(&self, locale: Locale) -> (r: Option<&str>)
        ensures
            r matches Some(s) ==> self.names_map().contains_key(locale_slot(locale)) && s@
                == self.names_map()[locale_slot(locale)],
            r is None ==> !self.names_map().contains_key(locale_slot(locale)),
    {
        match self.names.get(&slot_of(locale)) {
            Some(s) => Some(s.as_str()),
            None => None,
        }
    }

    /// Number of locales with a name.
    pub fn len(&self) -> (n: usize)
        ensures
            n == self.names_map().len(),
    {
        proof {
            assert(self.names_map().dom() =~= self.names@.dom());
        }
        self.names.len()
    }

    /// Whether no locale has a name.
    pub fn is_empty(&self) -> (b: bool)
        ensures
            b == self.names_map().is_empty(),
    {
        self.names.is_empty()
    }
}

/// The name that rows give point `id` in the locale slot `slot`: the last
/// such row's, rows of unknown locales and of the default locale passed over.
pub open spec fn poi_locale_names(rows: Seq<PointOfInterestLocaleRowLikeCpp>) -> Map<u32, Map<u32, Seq<char>>>
    decreases rows.len(),
{
    if rows.len() == 0 {
        Map::empty()
    } else {
        let m = poi_locale_names(rows.drop_last());
        let r = rows.last();
        match locale_named(r.locale@) {
            Some(l) => if l == Locale::EnUS {
                m
            } else {
                let names = if m.contains_key(r.id) {
                    m[r.id]
                } else {
                    Map::empty()
                };
                m.insert(r.id, names.insert(locale_slot(l), r.name@))
            },
            None => m,
        }
    }
}

/// Localized point of interest names by point id.
pub struct PointOfInterestLocaleStoreLikeCpp {
    entries: HashMap<u32, PointOfInterestLocaleLikeCpp>,
}

impl PointOfInterestLocaleStoreLikeCpp {
    /// The names of each point, by locale slot.
    pub closed spec fn names_by_point(&self) -> Map<u32, Map<u32, Seq<char>>> {
        self.entries@.map_values(|e: PointOfInterestLocaleLikeCpp| e.names_map())
    }

    /// Loads the locale rows: each row of a known locale other than the
    /// default stores its name for its point, a later row replacing an
    /// earlier one.
    pub fn from_rows_like_cpp(rows: Vec<PointOfInterestLocaleRowLikeCpp>) -> (s: Self)
        ensures
            s.names_by_point() == poi_locale_names(rows@),
    {
        let ghost all = rows@;
        let mut entries: HashMap<u32, PointOfInterestLocaleLikeCpp> = HashMap::new();
        proof {
            assert(entries@.map_values(|e: PointOfInterestLocaleLikeCpp| e.names_map()) =~= Map::empty());
        }
        for row in it: rows
            invariant
                all == it.seq(),
                entries@.map_values(|e: PointOfInterestLocaleLikeCpp| e.names_map()) == poi_locale_names(
                    all.take(it.index() as int),
                ),
        {
            let ghost i = it.index() as int;
            proof {
                assert(all.take(i + 1).drop_last() =~= all.take(i));
                assert(all.take(i + 1).last() == row);
            }
            let ghost before = entries@.map_values(|e: PointOfInterestLocaleLikeCpp| e.names_map());
            match locale_from_name_like_cpp(row.locale.as_str()) {
                Some(locale) => {
                    if locale != Locale::EnUS {
                        let mut entry = match entries.remove(&row.id) {
                            Some(e) => e,
                            None => PointOfInterestLocaleLikeCpp { names: HashMap::new() },
                        };
                        proof {
                            assert(entry.names_map() == (if before.contains_key(row.id) {
                                before[row.id]
                            } else {
                                Map::empty()
                            }));
                        }
                        let ghost old_names = entry.names_map();
                        let slot = slot_of(locale);
                        entry.names.insert(slot, row.name);
                        proof {
                            assert(entry.names_map() =~= old_names.insert(slot, row.name@));
                        }
                        entries.insert(row.id, entry);
                        proof {
                            assert(entries@.map_values(|e: PointOfInterestLocaleLikeCpp| e.names_map()) =~= before.insert(
                                row.id,
                                old_names.insert(slot, row.name@),
                            ));
                        }
                    }
                },
                None => {},
            }
        }
        proof {
            assert(all.take(all.len() as int) =~= all);
        }
        PointOfInterestLocaleStoreLikeCpp { entries }
    }

    /// The localized names of a point.
    pub fn get_point_of_interest_locale_like_cpp(&self, id: u32) -> (r: Option<&PointOfInterestLocaleLikeCpp>)
        ensures
            r matches Some(e) ==> self.names_by_point().contains_key(id) && e.names_map() == self.names_by_point()[id],
            r is None ==> !self.names_by_point().contains_key(id),
    {
        self.entries.get(&id)
    }

    /// Number of points with a localized name.
    pub fn len(&self) -> (n: usize)
        ensures
            n == self.names_by_point().len(),
    {
        proof {
            assert(self.names_by_point().dom() =~= self.entries@.dom());
        }
        self.entries.len()
    }

    /// Whether no point has a localized name.
    pub fn is_empty(&self) -> (b: bool)
        ensures
            b == self.names_by_point().is_empty(),
    {
        self.entries.is_empty()
    }
}

} // verus!
