//! Named teleport locations and their lookup by name.
//!
//! Whether a row's coordinates lie on a map is decided by the caller (the
//! coordinates are single-precision floats, kept here as their bit patterns).
use std::collections::HashMap;
use vstd::prelude::*;
use vstd::std_specs::iter::IteratorSpec;
use crate::db2_index::is_stored_value;
use crate::predicates::{holds, is_predicate, lemma_predicate_answer};

verus! {

broadcast use vstd::std_specs::hash::group_hash_axioms;

/// A map position; each coordinate is a single-precision float kept as its
/// bit pattern.
#[derive(Debug, Clone, Copy, PartialEq, Eq, Structural)]
pub struct Position {
    pub x: u32,
    pub y: u32,
    pub z: u32,
    pub orientation: u32,
}

/// A teleport location.
#[derive(Debug, Clone, PartialEq)]
pub struct GameTeleLikeCpp {
    pub id: u32,
    pub position: Position,
    pub map_id: u32,
    pub name: String,
    pub name_lower_like_cpp: String,
}

/// A row of the teleport location table.
#[derive(Debug, Clone, PartialEq)]
pub struct GameTeleRowLikeCpp {
    pub id: u32,
    pub position_x: u32,
    pub position_y: u32,
    pub position_z: u32,
    pub orientation: u32,
    pub map_id: u16,
    pub name: String,
}

/// What loading the teleport location table did.
#[derive(Debug, Default, Clone, PartialEq)]
pub struct GameTeleLoadReportLikeCpp {
    pub rows_seen: usize,
    pub loaded_rows: usize,
    pub skipped_invalid_coordinates: Vec<(u32, String)>,
}

/// Teleport locations by id.
pub struct GameTeleStoreLikeCpp {
    entries: HashMap<u32, GameTeleLikeCpp>,
}

/// A loaded store with what loading it did.
pub struct GameTeleLoadOutcomeLikeCpp {
    pub store: GameTeleStoreLikeCpp,
    pub report: GameTeleLoadReportLikeCpp,
}

/// What `str::to_lowercase` gives for a text: its Unicode lowercase mapping.
pub uninterp spec fn lowercased(s: Seq<char>) -> Seq<char>;

/// Lowercases a name with `str::to_lowercase` of std.
///
/// Trusted: the result is the lowercase mapping of the name, a function of the
/// name alone; nothing more of that mapping is stated.
#[verifier::external_body]
fn normalize_game_tele_name_like_cpp(name: &str) -> (r: String)
    ensures
        r@ == lowercased(name@),
{
    name.to_lowercase()
}

/// Whether `needle` occurs in `hay` as a run of consecutive characters.
pub open spec fn contains_text(hay: Seq<char>, needle: Seq<char>) -> bool {
    exists|i: int| 0 <= i && i + needle.len() <= hay.len() && #[trigger] hay.subrange(i, i + needle.len()) == needle
}

/// Whether `needle` occurs in `hay`.
pub fn text_contains(hay: &str, needle: &str) -> (r: bool)
    ensures
        r == contains_text(hay@, needle@),
{
    let n = hay.unicode_len();
    let m = needle.unicode_len();
    if m > n {
        proof {
            assert forall|i: int| 0 <= i && i + needle@.len() <= hay@.len() implies #[trigger] hay@.subrange(
                i,
                i + needle@.len(),
            ) != needle@ by {}
        }
        return false;
    }
    let mut i: usize = 0;
    while i <= n - m
        invariant
            n == hay@.len(),
            m == needle@.len(),
            m <= n,
            i <= n - m + 1,
            forall|k: int| 0 <= k < i ==> #[trigger] hay@.subrange(k, k + m) != needle@,
        decreases n - m + 1 - i,
    {
        let mut j: usize = 0;
        let mut same = true;
        while j < m
            invariant
                n == hay@.len(),
                m == needle@.len(),
                i + m <= n,
                j <= m,
                same == (forall|t: int| 0 <= t < j ==> hay@[i + t] == needle@[t]),
            decreases m - j,
        {
            if hay.get_char(i + j) != needle.get_char(j) {
                same = false;
            }
            j = j + 1;
        }
        if same {
            proof {
                assert(hay@.subrange(i as int, i + m) =~= needle@);
            }
            return true;
        }
        proof {
            let t = choose|t: int| 0 <= t < m && hay@[i + t] != needle@[t];
            assert(hay@.subrange(i as int, i + m)[t] != needle@[t]);
        }
        i = i + 1;
    }
    false
}

/// `t` is the location that the row `row` gives.
pub open spec fn tele_matches(t: GameTeleLikeCpp, row: GameTeleRowLikeCpp) -> bool {
    &&& t.id == row.id
    &&& t.position == Position {
        x: row.position_x,
        y: row.position_y,
        z: row.position_z,
        orientation: row.orientation,
    }
    &&& t.map_id == row.map_id as u32
    &&& t.name@ == row.name@
    &&& t.name_lower_like_cpp@ == lowercased(row.name@)
}

/// The rows that loading `rows` keeps (those with valid coordinates), by id,
/// a later one replacing an earlier one.
pub open spec fn tele_rows_kept<F: Fn(&GameTeleRowLikeCpp) -> bool>(
    rows: Seq<GameTeleRowLikeCpp>,
    coords_valid: F,
) -> Map<u32, GameTeleRowLikeCpp>
    decreases rows.len(),
{
    if rows.len() == 0 {
        Map::empty()
    } else {
        let m = tele_rows_kept(rows.drop_last(), coords_valid);
        if holds(coords_valid, &rows.last()) {
            m.insert(rows.last().id, rows.last())
        } else {
            m
        }
    }
}

/// The rows that loading `rows` skips for invalid coordinates, in order.
pub open spec fn tele_rows_skipped<F: Fn(&GameTeleRowLikeCpp) -> bool>(
    rows: Seq<GameTeleRowLikeCpp>,
    coords_valid: F,
) -> Seq<GameTeleRowLikeCpp>
    decreases rows.len(),
{
    if rows.len() == 0 {
        seq![]
    } else {
        let s = tele_rows_skipped(rows.drop_last(), coords_valid);
        if holds(coords_valid, &rows.last()) {
            s
        } else {
            s.push(rows.last())
        }
    }
}

/// `skipped` names, in order, the id and name of each row of `rows`.
pub open spec fn names_rows(skipped: Seq<(u32, String)>, rows: Seq<GameTeleRowLikeCpp>) -> bool {
    &&& skipped.len() == rows.len()
    &&& forall|i: int| 0 <= i < rows.len() ==> (#[trigger] skipped[i]).0 == rows[i].id && skipped[i].1@
        == rows[i].name@
}

impl GameTeleStoreLikeCpp {
    /// The locations by id.
    pub closed spec fn entries_map(&self) -> Map<u32, GameTeleLikeCpp> {
        self.entries@
    }

    /// Loads the teleport rows, skipping those whose coordinates
    /// `coords_valid` denies; a later row replaces an earlier one with the
    /// same id, and both count as loaded.
    pub fn from_rows_like_cpp<F: Fn(&GameTeleRowLikeCpp) -> bool>(
        rows: Vec<GameTeleRowLikeCpp>,
        coords_valid: F,
    ) -> (out: GameTeleLoadOutcomeLikeCpp)
        requires
            is_predicate(coords_valid),
        ensures
            out.store.entries_map().dom() == tele_rows_kept(rows@, coords_valid).dom(),
            forall|id: u32| #[trigger] out.store.entries_map().contains_key(id) ==> tele_matches(
                out.store.entries_map()[id],
                tele_rows_kept(rows@, coords_valid)[id],
            ),
            out.report.rows_seen == rows@.len(),
            names_rows(out.report.skipped_invalid_coordinates@, tele_rows_skipped(rows@, coords_valid)),
            out.report.loaded_rows + out.report.skipped_invalid_coordinates@.len() == rows@.len(),
    {
        let ghost all = rows@;
        let n = rows.len();
        let mut entries: HashMap<u32, GameTeleLikeCpp> = HashMap::new();
        let mut skipped: Vec<(u32, String)> = Vec::new();
        let mut seen: usize = 0;
        let mut loaded: usize = 0;
        for row in it: rows
            invariant
                all == it.seq(),
                all.len() == n,
                it.index() <= n,
                is_predicate(coords_valid),
                seen == it.index(),
                loaded + skipped@.len() == it.index(),
                entries@.dom() == tele_rows_kept(all.take(it.index() as int), coords_valid).dom(),
                forall|id: u32| #[trigger] entries@.contains_key(id) ==> tele_matches(
                    entries@[id],
                    tele_rows_kept(all.take(it.index() as int), coords_valid)[id],
                ),
                names_rows(skipped@, tele_rows_skipped(all.take(it.index() as int), coords_valid)),
        {
            let ghost i = it.index() as int;
            proof {
                assert(all.take(i + 1).drop_last() =~= all.take(i));
                assert(all.take(i + 1).last() == row);
            }
            seen = seen + 1;
            let valid = coords_valid(&row);
            proof {
                lemma_predicate_answer(coords_valid, &row, valid);
            }
            if !valid {
                let ghost before = skipped@;
                skipped.push((row.id, row.name.clone()));
                proof {
                    let s = tele_rows_skipped(all.take(i + 1), coords_valid);
                    assert forall|k: int| 0 <= k < s.len() implies (#[trigger] skipped@[k]).0 == s[k].id
                        && skipped@[k].1@ == s[k].name@ by {
                        if k < before.len() {
                            assert(skipped@[k] == before[k]);
                        }
                    }
                }
            } else {
                let ghost row_copy = row;
                let name_lower = normalize_game_tele_name_like_cpp(row.name.as_str());
                let tele = GameTeleLikeCpp {
                    id: row.id,
                    position: Position {
                        x: row.position_x,
                        y: row.position_y,
                        z: row.position_z,
                        orientation: row.orientation,
                    },
                    map_id: row.map_id as u32,
                    name: row.name,
                    name_lower_like_cpp: name_lower,
                };
                entries.insert(row.id, tele);
                loaded = loaded + 1;
                proof {
                    assert(tele_matches(tele, row_copy));
                }
            }
        }
        proof {
            assert(all.take(n as int) =~= all);
        }
        GameTeleLoadOutcomeLikeCpp {
            store: GameTeleStoreLikeCpp { entries },
            report: GameTeleLoadReportLikeCpp {
                rows_seen: seen,
                loaded_rows: loaded,
                skipped_invalid_coordinates: skipped,
            },
        }
    }

    /// The location with id `id`.
    pub fn get_game_tele_by_id_like_cpp(&self, id: u32) -> (r: Option<&GameTeleLikeCpp>)
        ensures
            r == (if self.entries_map().contains_key(id) {
                Some(&self.entries_map()[id])
            } else {
                None
            }),
    {
        self.entries.get(&id)
    }

    /// The location named `name` (compared lowercased); where none is, one
    /// whose lowercased name contains the lowercased `name`.
    pub fn get_game_tele_like_cpp(&self, name: &str) -> (r: Option<&GameTeleLikeCpp>)
        ensures
            ({
                let low = lowercased(name@);
                let m = self.entries_map();
                &&& r matches Some(t) ==> is_stored_value(m, *t)
                &&& (exists|k: u32| m.contains_key(k) && m[k].name_lower_like_cpp@ == low) ==> (r matches Some(
                    t,
                ) && t.name_lower_like_cpp@ == low)
                &&& (!(exists|k: u32| m.contains_key(k) && m[k].name_lower_like_cpp@ == low) && exists|k: u32|
                    m.contains_key(k) && contains_text(m[k].name_lower_like_cpp@, low)) ==> (r matches Some(t)
                    && contains_text(t.name_lower_like_cpp@, low))
                &&& (!exists|k: u32| m.contains_key(k) && contains_text(m[k].name_lower_like_cpp@, low)) ==> r is None
            }),
    {
        let name_lower = normalize_game_tele_name_like_cpp(name);
        self.get_game_tele_by_lowercase_name_like_cpp(name_lower.as_str())
    }

    /// The location named `name` (compared lowercased).
    pub fn get_game_tele_exact_name_like_cpp(&self, name: &str) -> (r: Option<&GameTeleLikeCpp>)
        ensures
            r matches Some(t) ==> is_stored_value(self.entries_map(), *t) && t.name_lower_like_cpp@
                == lowercased(name@),
            r is None ==> forall|k: u32| #[trigger] self.entries_map().contains_key(k)
                ==> self.entries_map()[k].name_lower_like_cpp@ != lowercased(name@),
    {
        let name_lower = normalize_game_tele_name_like_cpp(name);
        self.get_game_tele_by_exact_lowercase_name_like_cpp(name_lower.as_str())
    }

    /// The location whose lowercased name is `name_lower`; where none is, one
    /// whose lowercased name contains `name_lower`.
    pub fn get_game_tele_by_lowercase_name_like_cpp(&self, name_lower: &str) -> (r: Option<&GameTeleLikeCpp>)
        ensures
            ({
                let low = name_lower@;
                let m = self.entries_map();
                &&& r matches Some(t) ==> is_stored_value(m, *t)
                &&& (exists|k: u32| m.contains_key(k) && m[k].name_lower_like_cpp@ == low) ==> (r matches Some(
                    t,
                ) && t.name_lower_like_cpp@ == low)
                &&& (!(exists|k: u32| m.contains_key(k) && m[k].name_lower_like_cpp@ == low) && exists|k: u32|
                    m.contains_key(k) && contains_text(m[k].name_lower_like_cpp@, low)) ==> (r matches Some(t)
                    && contains_text(t.name_lower_like_cpp@, low))
                &&& (!exists|k: u32| m.contains_key(k) && contains_text(m[k].name_lower_like_cpp@, low)) ==> r is None
            }),
    {
        let ghost low = name_lower@;
        let ghost pairs = vstd::std_specs::hash::spec_hash_map_iter(&self.entries).remaining();
        let mut partial: Option<&GameTeleLikeCpp> = None;
        for pair in it: self.entries.iter()
            invariant
                it.seq() == pairs,
                low == name_lower@,
                partial matches Some(t) ==> contains_text(t.name_lower_like_cpp@, low) && exists|j: int|
                    0 <= j < it.index() && pairs[j].1 == t,
                partial is None ==> forall|j: int| #![trigger pairs[j]] 0 <= j < it.index() ==> !contains_text(
                    pairs[j].1.name_lower_like_cpp@,
                    low,
                ),
                forall|j: int| #![trigger pairs[j]] 0 <= j < it.index() ==> pairs[j].1.name_lower_like_cpp@ != low,
        {
            let (_k, tele) = pair;
            let ghost j = it.index() as int;
            proof {
                assert(pair == pairs[j]);
            }
            if crate::text::same_text(tele.name_lower_like_cpp.as_str(), name_lower) {
                proof {
                    assert(pairs.contains(pairs[j]));
                    let k = *pairs[j].0;
                    assert(self.entries@.contains_key(k) && self.entries@[k] == *tele);
                    assert(self.entries@[k].name_lower_like_cpp@.subrange(0int, 0int + low.len()) =~= low);
                    assert(contains_text(self.entries@[k].name_lower_like_cpp@, low));
                }
                return Some(tele);
            }
            if partial.is_none() && text_contains(tele.name_lower_like_cpp.as_str(), name_lower) {
                partial = Some(tele);
            }
        }
        proof {
            if let Some(t) = partial {
                let j = choose|j: int| 0 <= j < pairs.len() && pairs[j].1 == t;
                assert(pairs.contains(pairs[j]));
                assert(self.entries@.contains_key(*pairs[j].0) && self.entries@[*pairs[j].0] == *t);
            }
            assert forall|k: u32| self.entries@.contains_key(k) implies self.entries@[k].name_lower_like_cpp@ != low
                && (partial is None ==> !contains_text(self.entries@[k].name_lower_like_cpp@, low)) by {
                assert(pairs.contains((&k, &self.entries@[k])));
                let i = choose|i: int| 0 <= i < pairs.len() && pairs[i] == (&k, &self.entries@[k]);
                assert(pairs[i].1 == &self.entries@[k]);
            }
        }
        partial
    }

    /// The location whose lowercased name is `name_lower`.
    pub fn get_game_tele_by_exact_lowercase_name_like_cpp(&self, name_lower: &str) -> (r: Option<&GameTeleLikeCpp>)
        ensures
            r matches Some(t) ==> is_stored_value(self.entries_map(), *t) && t.name_lower_like_cpp@
                == name_lower@,
            r is None ==> forall|k: u32| #[trigger] self.entries_map().contains_key(k)
                ==> self.entries_map()[k].name_lower_like_cpp@ != name_lower@,
    {
        let ghost low = name_lower@;
        let ghost pairs = vstd::std_specs::hash::spec_hash_map_iter(&self.entries).remaining();
        for pair in it: self.entries.iter()
            invariant
                it.seq() == pairs,
                low == name_lower@,
                forall|j: int| #![trigger pairs[j]] 0 <= j < it.index() ==> pairs[j].1.name_lower_like_cpp@ != low,
        {
            let (_k, tele) = pair;
            let ghost j = it.index() as int;
            proof {
                assert(pair == pairs[j]);
            }
            if crate::text::same_text(tele.name_lower_like_cpp.as_str(), name_lower) {
                proof {
                    assert(pairs.contains(pairs[j]));
                    assert(self.entries@.contains_key(*pairs[j].0) && self.entries@[*pairs[j].0] == *tele);
                }
                return Some(tele);
            }
        }
        proof {
            assert forall|k: u32| #[trigger] self.entries@.contains_key(k) implies self.entries@[k].name_lower_like_cpp@
                != low by {
                assert(pairs.contains((&k, &self.entries@[k])));
                let i = choose|i: int| 0 <= i < pairs.len() && pairs[i] == (&k, &self.entries@[k]);
                assert(pairs[i].1 == &self.entries@[k]);
            }
        }
        None
    }

    /// All locations by id.
    pub fn entries_like_cpp(&self) -> (r: &HashMap<u32, GameTeleLikeCpp>)
        ensures
            r@ == self.entries_map(),
    {
        &self.entries
    }

    pub fn len(&self) -> (n: usize)
        ensures
            n == self.entries_map().len(),
    {
        self.entries.len()
    }

    pub fn is_empty(&self) -> (b: bool)
        ensures
            b == self.entries_map().is_empty(),
    {
        self.entries.is_empty()
    }
}

} // verus!
