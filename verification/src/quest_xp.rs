//! Quest experience rewards by quest level and difficulty tier.
use std::collections::HashMap;
use vstd::prelude::*;
use vstd::std_specs::iter::IteratorSpec;
use crate::db2_index::{Keyed, index_by_key, build_index, is_stored_value};
use crate::item_stats::{i32_bits, to_u32_bits};

verus! {

broadcast use vstd::std_specs::hash::group_hash_axioms;

/// A row of the QuestXP table: the experience of each of the ten difficulty
/// tiers at one quest level.
#[derive(Debug, Clone, Copy, PartialEq, Eq)]
pub struct QuestXpRow {
    pub level: u32,
    pub difficulty: [u32; 10],
}

impl Keyed for QuestXpRow {
    open spec fn spec_key(&self) -> u32 {
        self.level
    }

    fn key(&self) -> (k: u32) {
        self.level
    }
}

/// Quest experience rows by quest level.
pub struct QuestXpStore {
    rows: HashMap<u32, QuestXpRow>,
}

impl View for QuestXpStore {
    type V = Map<u32, QuestXpRow>;

    closed spec fn view(&self) -> Map<u32, QuestXpRow> {
        self.rows@
    }
}

/// An experience value rounded as quest rewards are: to a multiple of 5 up to
/// 100, of 10 up to 500, of 25 up to 1000 and of 50 above, halves rounding up.
pub open spec fn rounded_xp(xp: int) -> int {
    if xp <= 100 {
        5 * ((xp + 2) / 5)
    } else if xp <= 500 {
        10 * ((xp + 5) / 10)
    } else if xp <= 1000 {
        25 * ((xp + 12) / 25)
    } else {
        50 * ((xp + 25) / 50)
    }
}

/// Rounds an experience value as quest rewards are.
pub fn round_xp(xp: u32) -> (r: u32)
    requires
        xp <= u32::MAX - 25,
    ensures
        r == rounded_xp(xp as int),
{
    if xp <= 100 {
        5 * ((xp + 2) / 5)
    } else if xp <= 500 {
        10 * ((xp + 5) / 10)
    } else if xp <= 1000 {
        25 * ((xp + 12) / 25)
    } else {
        assert(50 * ((xp + 25) / 50) <= xp + 25) by (nonlinear_arith);
        50 * ((xp + 25) / 50)
    }
}

/// Distance between two quest levels.
pub open spec fn level_distance(a: u32, b: u32) -> int {
    if a >= b {
        a - b
    } else {
        b - a
    }
}

/// `row` is a stored row whose level is nearest to `target`.
pub open spec fn is_nearest_row(rows: Map<u32, QuestXpRow>, row: QuestXpRow, target: u32) -> bool {
    &&& is_stored_value(rows, row)
    &&& forall|k: u32| #[trigger] rows.contains_key(k) ==> level_distance(row.level, target)
        <= level_distance(rows[k].level, target)
}

/// The quest level used for a quest of level `quest_level` (-1 meaning the
/// player's level).
pub open spec fn effective_quest_level(quest_level: i32, player_level: u8) -> int {
    if quest_level == -1 {
        player_level as int
    } else {
        quest_level as int
    }
}

/// How strongly the level gap scales experience: twice the gap plus 20,
/// clamped to 1..=10 (tenths).
pub open spec fn level_gap_factor(quest_level: int, player_level: u8) -> int {
    let f = 2 * (quest_level - player_level) + 20;
    if f < 1 {
        1
    } else if f > 10 {
        10
    } else {
        f
    }
}

/// The experience that `row` gives at difficulty `d`: none where the row's
/// value is 0, else the value scaled by the level gap and rounded.
pub open spec fn row_xp(row: QuestXpRow, d: int, quest_level: int, player_level: u8) -> int {
    let base = row.difficulty[d];
    if base == 0 {
        0
    } else {
        rounded_xp(level_gap_factor(quest_level, player_level) * base / 10)
    }
}

/// The experience of `row` at difficulty `d` stays in range as it is
/// computed: the level gap `2 * (quest_level - player_level) + 20` in 32-bit
/// signed steps, the scaled value `factor * base` in 32 bits unsigned, and
/// its rounding.
pub open spec fn row_xp_in_range(row: QuestXpRow, d: int, quest_level: int, player_level: u8) -> bool {
    let base = row.difficulty[d];
    let gap = quest_level - player_level;
    base == 0 || ({
        &&& i32::MIN <= gap <= i32::MAX
        &&& i32::MIN <= 2 * gap <= i32::MAX
        &&& i32::MIN <= 2 * gap + 20 <= i32::MAX
        &&& level_gap_factor(quest_level, player_level) * base <= u32::MAX
        &&& level_gap_factor(quest_level, player_level) * base / 10 <= u32::MAX - 25
    })
}

/// The quest experience of a quest level, player level and tier stays in
/// range for the row that is used: the row of the quest level, or where
/// there is none any stored row of nearest level.
pub open spec fn quest_xp_in_range(
    rows: Map<u32, QuestXpRow>,
    quest_level: i32,
    player_level: u8,
    xp_difficulty: u32,
) -> bool {
    let ql = effective_quest_level(quest_level, player_level);
    let key = i32_bits(ql as i32);
    xp_difficulty < 10 ==> {
        &&& rows.contains_key(key) ==> row_xp_in_range(rows[key], xp_difficulty as int, ql, player_level)
        &&& !rows.contains_key(key) ==> forall|row: QuestXpRow| #[trigger]
            is_nearest_row(rows, row, key) ==> row_xp_in_range(row, xp_difficulty as int, ql, player_level)
    }
}

impl QuestXpStore {
    /// A store of the given rows; a later row replaces an earlier one of the
    /// same level.
    pub fn from_rows(rows: Vec<QuestXpRow>) -> (s: Self)
        ensures
            s@ == index_by_key(rows@),
    {
        QuestXpStore { rows: build_index(rows) }
    }

    /// Builds the store from the rows of the QuestXP table, in file order.
    pub fn load(rows: Vec<QuestXpRow>) -> (s: Self)
        ensures
            s@ == index_by_key(rows@),
    {
        Self::from_rows(rows)
    }

    /// The stored row whose level is nearest to `target`; of rows equally
    /// near, the first in the map's iteration order.
    fn nearest(&self, target: u32) -> (r: Option<&QuestXpRow>)
        ensures
            r is None <==> self@.is_empty(),
            r matches Some(row) ==> is_nearest_row(self@, *row, target),
    {
        let ghost pairs = vstd::std_specs::hash::spec_hash_map_iter(&self.rows).remaining();
        let mut best: Option<&QuestXpRow> = None;
        let mut best_distance: u64 = 0;
        for pair in it: self.rows.iter()
            invariant
                it.seq() == pairs,
                best is None <==> it.index() == 0,
                best matches Some(b) ==> best_distance == level_distance(b.level, target) && exists|j: int|
                    0 <= j < it.index() && pairs[j].1 == b,
                forall|j: int| #![trigger pairs[j]] 0 <= j < it.index() ==> best_distance <= level_distance(
                    pairs[j].1.level,
                    target,
                ),
        {
            let (_k, row) = pair;
            let d: u64 = if row.level >= target {
                (row.level - target) as u64
            } else {
                (target - row.level) as u64
            };
            let ghost j = it.index() as int;
            proof {
                assert(pair == pairs[j]);
            }
            match best {
                None => {
                    best = Some(row);
                    best_distance = d;
                },
                Some(_) => {
                    if d < best_distance {
                        best = Some(row);
                        best_distance = d;
                    }
                },
            }
        }
        proof {
            if pairs.len() == 0 {
                if !self@.is_empty() {
                    let k = self@.dom().choose();
                    assert(self@.contains_key(k));
                    assert(pairs.contains((&k, &self@[k])));
                }
            } else {
                assert(pairs.contains(pairs[0]));
                assert(self@.contains_key(*pairs[0].0));
            }
            if let Some(b) = best {
                let j = choose|j: int| 0 <= j < pairs.len() && pairs[j].1 == b;
                assert(pairs.contains(pairs[j]));
                assert(self@.contains_key(*pairs[j].0) && self@[*pairs[j].0] == *b);
                assert forall|k: u32| #[trigger] self@.contains_key(k) implies level_distance(
                    b.level,
                    target,
                ) <= level_distance(self@[k].level, target) by {
                    assert(pairs.contains((&k, &self@[k])));
                    let i = choose|i: int| 0 <= i < pairs.len() && pairs[i] == (&k, &self@[k]);
                    assert(pairs[i].1 == &self@[k]);
                }
            }
        }
        best
    }

    /// Experience for a quest of level `quest_level` (-1 meaning the player's
    /// level) done by a player of `player_level`, at difficulty tier
    /// `xp_difficulty`.
    ///
    /// The row of the quest level is used, or where there is none the stored
    /// row of nearest level. Its value is scaled by twice the level gap plus
    /// 20, clamped to 1..=10 tenths, and rounded; a tier past the last or a
    /// value of 0 gives nothing.
    pub fn calculate_xp(&self, quest_level: i32, player_level: u8, xp_difficulty: u32) -> (r: u32)
        requires
            quest_xp_in_range(self@, quest_level, player_level, xp_difficulty),
        ensures
            xp_difficulty >= 10 ==> r == 0,
            ({
                let ql = effective_quest_level(quest_level, player_level);
                let key = i32_bits(ql as i32);
                &&& (xp_difficulty < 10 && self@.contains_key(key)) ==> r == row_xp(
                    self@[key],
                    xp_difficulty as int,
                    ql,
                    player_level,
                )
                &&& (xp_difficulty < 10 && !self@.contains_key(key) && self@.is_empty()) ==> r == 0
                &&& (xp_difficulty < 10 && !self@.contains_key(key) && !self@.is_empty()) ==> exists|
                    row: QuestXpRow,
                | is_nearest_row(self@, row, key) && r == row_xp(
                    row,
                    xp_difficulty as int,
                    ql,
                    player_level,
                )
            }),
    {
        if xp_difficulty >= 10 {
            return 0;
        }
        let ql: i32 = if quest_level == -1 {
            player_level as i32
        } else {
            quest_level
        };
        let key = to_u32_bits(ql);
        let row = match self.rows.get(&key) {
            Some(r) => r,
            None => match self.nearest(key) {
                Some(r) => r,
                None => {
                    return 0;
                },
            },
        };
        proof {
            assert(row_xp_in_range(*row, xp_difficulty as int, ql as int, player_level));
        }
        let base_xp = row.difficulty[xp_difficulty as usize];
        if base_xp == 0 {
            return 0;
        }
        let gap: i64 = 2 * (ql as i64 - player_level as i64) + 20;
        let diff_factor: u64 = if gap < 1 {
            1
        } else if gap > 10 {
            10
        } else {
            gap as u64
        };
        assert(diff_factor == level_gap_factor(ql as int, player_level));
        let xp = (diff_factor * base_xp as u64 / 10) as u32;
        round_xp(xp)
    }

    /// The rounded experience of tier `xp_difficulty` in the row of the
    /// player's own level; nothing where there is no such row or tier.
    pub fn player_level_difficulty_xp_like_cpp(&self, player_level: u8, xp_difficulty: u32) -> (r: u32)
        requires
            xp_difficulty < 10 && self@.contains_key(player_level as u32) ==> self@[player_level
                as u32].difficulty[xp_difficulty as int] <= u32::MAX - 25,
        ensures
            r == (if xp_difficulty < 10 && self@.contains_key(player_level as u32) {
                rounded_xp(self@[player_level as u32].difficulty[xp_difficulty as int] as int)
            } else {
                0
            }),
    {
        if xp_difficulty >= 10 {
            return 0;
        }
        match self.rows.get(&(player_level as u32)) {
            Some(row) => {
                round_xp(row.difficulty[xp_difficulty as usize])
            },
            None => 0,
        }
    }
}

impl Default for QuestXpStore {
    fn default() -> (s: Self)
        ensures
            s@ == Map::<u32, QuestXpRow>::empty(),
    {
        QuestXpStore { rows: HashMap::new() }
    }
}

/// A rounded experience value is a multiple of 5 within 25 of the value.
pub proof fn lemma_rounded_xp_is_near(xp: int)
    requires
        xp >= 0,
    ensures
        rounded_xp(xp) % 5 == 0,
        xp - 25 <= rounded_xp(xp) <= xp + 25,
{
    assert(rounded_xp(xp) % 5 == 0 && xp - 25 <= rounded_xp(xp) <= xp + 25) by (nonlinear_arith)
        requires
            xp >= 0,
            rounded_xp(xp) == (if xp <= 100 {
                5 * ((xp + 2) / 5)
            } else if xp <= 500 {
                10 * ((xp + 5) / 10)
            } else if xp <= 1000 {
                25 * ((xp + 12) / 25)
            } else {
                50 * ((xp + 25) / 50)
            }),
    ;
}

/// How the level gap scales experience: a quest at most five levels below
/// the player (or above) gives the full value; each level further below
/// takes two tenths off, down to one tenth from ten levels below on.
pub proof fn lemma_level_gap_factor_shape(quest_level: int, player_level: u8)
    ensures
        1 <= level_gap_factor(quest_level, player_level) <= 10,
        quest_level >= player_level - 5 ==> level_gap_factor(quest_level, player_level) == 10,
        quest_level <= player_level - 10 ==> level_gap_factor(quest_level, player_level) == 1,
        player_level - 9 <= quest_level < player_level - 5 ==> level_gap_factor(quest_level + 1, player_level)
            == level_gap_factor(quest_level, player_level) + 2,
        quest_level == player_level - 8 ==> level_gap_factor(quest_level, player_level) == 4,
{
}

/// A row's experience at a tier is the tier's value scaled by the level gap
/// factor in tenths and rounded; a quest no more than five levels below the
/// player gives the rounded value itself.
pub proof fn lemma_row_xp_scaling(row: QuestXpRow, d: int, quest_level: int, player_level: u8)
    requires
        0 <= d < 10,
    ensures
        row.difficulty[d] == 0 ==> row_xp(row, d, quest_level, player_level) == 0,
        row.difficulty[d] != 0 ==> row_xp(row, d, quest_level, player_level) == rounded_xp(
            level_gap_factor(quest_level, player_level) * row.difficulty[d] / 10,
        ),
        row.difficulty[d] != 0 && quest_level >= player_level - 5 ==> row_xp(row, d, quest_level, player_level)
            == rounded_xp(row.difficulty[d] as int),
{
    if row.difficulty[d] != 0 && quest_level >= player_level - 5 {
        assert(10 * row.difficulty[d] / 10 == row.difficulty[d]);
    }
}

} // verus!
