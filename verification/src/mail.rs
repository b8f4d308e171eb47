//! Mail sent to a character on reaching a level, by level and race.
use std::collections::HashMap;
use vstd::prelude::*;
use vstd::std_specs::iter::IteratorSpec;
use crate::player_create::RACEMASK_ALL_PLAYABLE_LIKE_CPP;
use crate::predicates::{holds, is_predicate, lemma_predicate_answer};

verus! {

broadcast use vstd::std_specs::hash::group_hash_axioms;

/// The highest character level of the client data.
pub const MAX_LEVEL_LIKE_CPP: u8 = 123;

/// A mail reward: the races it is for, the mail template and its sender.
#[derive(Debug, Clone, Copy, PartialEq, Eq, Structural)]
pub struct MailLevelRewardLikeCpp {
    pub race_mask: u64,
    pub mail_template_id: u32,
    pub sender_entry: u32,
}

/// A row of the level mail reward table.
#[derive(Debug, Clone, Copy, PartialEq, Eq, Structural)]
pub struct MailLevelRewardRowLikeCpp {
    pub level: u8,
    pub race_mask: u64,
    pub mail_template_id: u32,
    pub sender_entry: u32,
}

/// What loading the level mail reward table did.
#[derive(Debug, Clone, PartialEq, Eq, Default)]
pub struct MailLevelRewardLoadReportLikeCpp {
    pub rows_seen: usize,
    pub loaded_rows: usize,
    pub skipped_level_too_high: Vec<u8>,
    pub skipped_invalid_race_mask: Vec<(u8, u64)>,
    pub skipped_missing_mail_template: Vec<(u8, u32)>,
    pub skipped_missing_sender_creature: Vec<(u8, u32)>,
}

/// The mail rewards of each level, in row order.
pub struct MailLevelRewardStoreLikeCpp {
    rewards_by_level: HashMap<u8, Vec<MailLevelRewardLikeCpp>>,
    count: usize,
}

/// A loaded store with what loading it did.
pub struct MailLevelRewardLoadOutcomeLikeCpp {
    pub store: MailLevelRewardStoreLikeCpp,
    pub report: MailLevelRewardLoadReportLikeCpp,
}

/// The rewards stored for `level`, none where the level is absent.
pub open spec fn rewards_at(m: Map<u8, Seq<MailLevelRewardLikeCpp>>, level: u8) -> Seq<MailLevelRewardLikeCpp> {
    if m.contains_key(level) {
        m[level]
    } else {
        seq![]
    }
}

/// Number of rewards stored for the levels `level..=255`.
pub open spec fn rewards_from(m: Map<u8, Seq<MailLevelRewardLikeCpp>>, level: int) -> nat
    decreases 256 - level,
{
    if level < 0 || level > 255 {
        0
    } else {
        rewards_at(m, level as u8).len() + rewards_from(m, level + 1)
    }
}

/// Number of rewards stored for all levels.
pub open spec fn reward_count(m: Map<u8, Seq<MailLevelRewardLikeCpp>>) -> nat {
    rewards_from(m, 0)
}

/// The reward that a kept row gives.
pub open spec fn reward_of(row: MailLevelRewardRowLikeCpp) -> MailLevelRewardLikeCpp {
    MailLevelRewardLikeCpp {
        race_mask: row.race_mask,
        mail_template_id: row.mail_template_id,
        sender_entry: row.sender_entry,
    }
}

/// Why a row is skipped: 0 level too high, 1 no playable race, 2 no such mail
/// template, 3 no such sender creature; `None` where it is kept.
pub open spec fn mail_row_fault<F: Fn(u32) -> bool, G: Fn(u32) -> bool>(
    row: MailLevelRewardRowLikeCpp,
    mail_template_exists: F,
    creature_template_exists: G,
) -> Option<int> {
    if row.level > MAX_LEVEL_LIKE_CPP {
        Some(0)
    } else if row.race_mask & RACEMASK_ALL_PLAYABLE_LIKE_CPP == 0 {
        Some(1)
    } else if !holds(mail_template_exists, row.mail_template_id) {
        Some(2)
    } else if !holds(creature_template_exists, row.sender_entry) {
        Some(3)
    } else {
        None
    }
}

/// The rewards that loading `rows` keeps, by level in row order.
pub open spec fn mail_rewards_kept<F: Fn(u32) -> bool, G: Fn(u32) -> bool>(
    rows: Seq<MailLevelRewardRowLikeCpp>,
    mail_template_exists: F,
    creature_template_exists: G,
) -> Map<u8, Seq<MailLevelRewardLikeCpp>>
    decreases rows.len(),
{
    if rows.len() == 0 {
        Map::empty()
    } else {
        let m = mail_rewards_kept(rows.drop_last(), mail_template_exists, creature_template_exists);
        let row = rows.last();
        if mail_row_fault(row, mail_template_exists, creature_template_exists) is None {
            m.insert(row.level, rewards_at(m, row.level).push(reward_of(row)))
        } else {
            m
        }
    }
}

/// The rows that loading `rows` skips for the fault `fault`, in order.
pub open spec fn mail_rows_skipped<F: Fn(u32) -> bool, G: Fn(u32) -> bool>(
    rows: Seq<MailLevelRewardRowLikeCpp>,
    mail_template_exists: F,
    creature_template_exists: G,
    fault: int,
) -> Seq<MailLevelRewardRowLikeCpp>
    decreases rows.len(),
{
    if rows.len() == 0 {
        seq![]
    } else {
        let s = mail_rows_skipped(rows.drop_last(), mail_template_exists, creature_template_exists, fault);
        if mail_row_fault(rows.last(), mail_template_exists, creature_template_exists) == Some(fault) {
            s.push(rows.last())
        } else {
            s
        }
    }
}

proof fn lemma_rewards_from_push(
    m: Map<u8, Seq<MailLevelRewardLikeCpp>>,
    level: u8,
    r: MailLevelRewardLikeCpp,
    from: int,
)
    requires
        0 <= from <= 256,
    ensures
        rewards_from(m.insert(level, rewards_at(m, level).push(r)), from) == rewards_from(m, from) + if from
            <= level {
            1nat
        } else {
            0nat
        },
    decreases 256 - from,
{
    if from <= 255 {
        lemma_rewards_from_push(m, level, r, from + 1);
    }
}

proof fn lemma_rewards_from_empty(from: int)
    requires
        0 <= from <= 256,
    ensures
        rewards_from(Map::<u8, Seq<MailLevelRewardLikeCpp>>::empty(), from) == 0,
    decreases 256 - from,
{
    if from <= 255 {
        lemma_rewards_from_empty(from + 1);
    }
}

/// The mask bit of a race, if it has one.
pub open spec fn mail_race_mask(race: u8) -> Option<u64> {
    if race == 34 {
        Some(1u64 << 11u64)
    } else if race == 35 {
        Some(1u64 << 12u64)
    } else if race == 36 {
        Some(1u64 << 13u64)
    } else if race == 37 {
        Some(1u64 << 14u64)
    } else if race == 52 {
        Some(1u64 << 16u64)
    } else if race == 70 {
        Some(1u64 << 15u64)
    } else if 1 <= race <= 32 {
        Some(1u64 << ((race - 1) as u64))
    } else {
        None
    }
}

fn race_mask_for_race_like_cpp(race: u8) -> (r: Option<u64>)
    ensures
        r == mail_race_mask(race),
{
    if race == 34 {
        Some(1u64 << 11u64)
    } else if race == 35 {
        Some(1u64 << 12u64)
    } else if race == 36 {
        Some(1u64 << 13u64)
    } else if race == 37 {
        Some(1u64 << 14u64)
    } else if race == 52 {
        Some(1u64 << 16u64)
    } else if race == 70 {
        Some(1u64 << 15u64)
    } else if 1 <= race && race <= 32 {
        Some(1u64 << ((race - 1) as u64))
    } else {
        None
    }
}

/// Appends `reward` to the rewards of `level`.
fn push_reward(m: &mut HashMap<u8, Vec<MailLevelRewardLikeCpp>>, level: u8, reward: MailLevelRewardLikeCpp)
    ensures
        final(m)@.dom() == old(m)@.dom().insert(level),
        forall|l: u8| l != level && old(m)@.contains_key(l) ==> #[trigger] final(m)@[l] == old(m)@[l],
        final(m)@[level]@ == (if old(m)@.contains_key(level) {
            old(m)@[level]@
        } else {
            seq![]
        }).push(reward),
{
    match m.remove(&level) {
        Some(mut rewards) => {
            rewards.push(reward);
            m.insert(level, rewards);
        },
        None => {
            let mut rewards: Vec<MailLevelRewardLikeCpp> = Vec::new();
            rewards.push(reward);
            m.insert(level, rewards);
        },
    }
}

/// The rewards by level, as sequences.
pub open spec fn level_rewards_view(m: Map<u8, Vec<MailLevelRewardLikeCpp>>) -> Map<
    u8,
    Seq<MailLevelRewardLikeCpp>,
> {
    m.map_values(|v: Vec<MailLevelRewardLikeCpp>| v@)
}

impl MailLevelRewardStoreLikeCpp {
    #[verifier::type_invariant]
    spec fn counted(&self) -> bool {
        self.count == reward_count(level_rewards_view(self.rewards_by_level@))
    }

    /// The rewards of each level, in row order.
    pub closed spec fn rewards_map(&self) -> Map<u8, Seq<MailLevelRewardLikeCpp>> {
        level_rewards_view(self.rewards_by_level@)
    }

    /// Loads the level mail reward rows.
    ///
    /// A row is skipped when its level is past the highest level, when its
    /// race mask names no playable race, when `mail_template_exists` denies its
    /// mail template, or when `creature_template_exists` denies its sender,
    /// checked in that order; every other row adds its reward to its level.
    pub fn from_rows_like_cpp<F: Fn(u32) -> bool, G: Fn(u32) -> bool>(
        rows: Vec<MailLevelRewardRowLikeCpp>,
        mail_template_exists: F,
        creature_template_exists: G,
    ) -> (out: MailLevelRewardLoadOutcomeLikeCpp)
        requires
            is_predicate(mail_template_exists),
            is_predicate(creature_template_exists),
        ensures
            out.store.rewards_map() == mail_rewards_kept(rows@, mail_template_exists, creature_template_exists),
            out.report.rows_seen == rows@.len(),
            out.report.loaded_rows == reward_count(out.store.rewards_map()),
            out.report.skipped_level_too_high@ == mail_rows_skipped(
                rows@,
                mail_template_exists,
                creature_template_exists,
                0,
            ).map_values(|row: MailLevelRewardRowLikeCpp| row.level),
            out.report.skipped_invalid_race_mask@ == mail_rows_skipped(
                rows@,
                mail_template_exists,
                creature_template_exists,
                1,
            ).map_values(|row: MailLevelRewardRowLikeCpp| (row.level, row.race_mask)),
            out.report.skipped_missing_mail_template@ == mail_rows_skipped(
                rows@,
                mail_template_exists,
                creature_template_exists,
                2,
            ).map_values(|row: MailLevelRewardRowLikeCpp| (row.level, row.mail_template_id)),
            out.report.skipped_missing_sender_creature@ == mail_rows_skipped(
                rows@,
                mail_template_exists,
                creature_template_exists,
                3,
            ).map_values(|row: MailLevelRewardRowLikeCpp| (row.level, row.sender_entry)),
    {
        let ghost all = rows@;
        let n = rows.len();
        let mut m: HashMap<u8, Vec<MailLevelRewardLikeCpp>> = HashMap::new();
        let mut seen: usize = 0;
        let mut loaded: usize = 0;
        let mut too_high: Vec<u8> = Vec::new();
        let mut bad_race: Vec<(u8, u64)> = Vec::new();
        let mut no_mail: Vec<(u8, u32)> = Vec::new();
        let mut no_sender: Vec<(u8, u32)> = Vec::new();
        proof {
            lemma_rewards_from_empty(0);
            assert(level_rewards_view(m@) =~= Map::<u8, Seq<MailLevelRewardLikeCpp>>::empty());
        }
        for row in it: rows
            invariant
                all == it.seq(),
                all.len() == n,
                it.index() <= n,
                is_predicate(mail_template_exists),
                is_predicate(creature_template_exists),
                seen == it.index(),
                loaded <= it.index(),
                level_rewards_view(m@) == mail_rewards_kept(
                    all.take(it.index() as int),
                    mail_template_exists,
                    creature_template_exists,
                ),
                loaded == reward_count(level_rewards_view(m@)),
                too_high@ == mail_rows_skipped(
                    all.take(it.index() as int),
                    mail_template_exists,
                    creature_template_exists,
                    0,
                ).map_values(|row: MailLevelRewardRowLikeCpp| row.level),
                bad_race@ == mail_rows_skipped(
                    all.take(it.index() as int),
                    mail_template_exists,
                    creature_template_exists,
                    1,
                ).map_values(|row: MailLevelRewardRowLikeCpp| (row.level, row.race_mask)),
                no_mail@ == mail_rows_skipped(
                    all.take(it.index() as int),
                    mail_template_exists,
                    creature_template_exists,
                    2,
                ).map_values(|row: MailLevelRewardRowLikeCpp| (row.level, row.mail_template_id)),
                no_sender@ == mail_rows_skipped(
                    all.take(it.index() as int),
                    mail_template_exists,
                    creature_template_exists,
                    3,
                ).map_values(|row: MailLevelRewardRowLikeCpp| (row.level, row.sender_entry)),
        {
            let ghost i = it.index() as int;
            let ghost done = all.take(i);
            proof {
                assert(all.take(i + 1).drop_last() =~= done);
                assert(all.take(i + 1).last() == row);
            }
            seen = seen + 1;
            if row.level > MAX_LEVEL_LIKE_CPP {
                too_high.push(row.level);
            } else if row.race_mask & RACEMASK_ALL_PLAYABLE_LIKE_CPP == 0 {
                bad_race.push((row.level, row.race_mask));
            } else {
                let has_mail = mail_template_exists(row.mail_template_id);
                proof {
                    lemma_predicate_answer(mail_template_exists, row.mail_template_id, has_mail);
                }
                if !has_mail {
                    no_mail.push((row.level, row.mail_template_id));
                } else {
                    let has_sender = creature_template_exists(row.sender_entry);
                    proof {
                        lemma_predicate_answer(creature_template_exists, row.sender_entry, has_sender);
                    }
                    if !has_sender {
                        no_sender.push((row.level, row.sender_entry));
                    } else {
                        let reward = MailLevelRewardLikeCpp {
                            race_mask: row.race_mask,
                            mail_template_id: row.mail_template_id,
                            sender_entry: row.sender_entry,
                        };
                        let ghost before = level_rewards_view(m@);
                        push_reward(&mut m, row.level, reward);
                        proof {
                            assert(level_rewards_view(m@) =~= before.insert(
                                row.level,
                                rewards_at(before, row.level).push(reward),
                            ));
                            lemma_rewards_from_push(before, row.level, reward, 0);
                        }
                        loaded = loaded + 1;
                    }
                }
            }
            proof {
                assert(too_high@ =~= mail_rows_skipped(
                    all.take(i + 1),
                    mail_template_exists,
                    creature_template_exists,
                    0,
                ).map_values(|row: MailLevelRewardRowLikeCpp| row.level));
                assert(bad_race@ =~= mail_rows_skipped(
                    all.take(i + 1),
                    mail_template_exists,
                    creature_template_exists,
                    1,
                ).map_values(|row: MailLevelRewardRowLikeCpp| (row.level, row.race_mask)));
                assert(no_mail@ =~= mail_rows_skipped(
                    all.take(i + 1),
                    mail_template_exists,
                    creature_template_exists,
                    2,
                ).map_values(|row: MailLevelRewardRowLikeCpp| (row.level, row.mail_template_id)));
                assert(no_sender@ =~= mail_rows_skipped(
                    all.take(i + 1),
                    mail_template_exists,
                    creature_template_exists,
                    3,
                ).map_values(|row: MailLevelRewardRowLikeCpp| (row.level, row.sender_entry)));
            }
        }
        proof {
            assert(all.take(n as int) =~= all);
        }
        MailLevelRewardLoadOutcomeLikeCpp {
            store: MailLevelRewardStoreLikeCpp { rewards_by_level: m, count: loaded },
            report: MailLevelRewardLoadReportLikeCpp {
                rows_seen: seen,
                loaded_rows: loaded,
                skipped_level_too_high: too_high,
                skipped_invalid_race_mask: bad_race,
                skipped_missing_mail_template: no_mail,
                skipped_missing_sender_creature: no_sender,
            },
        }
    }

    /// The first reward of `level` (in row order) whose race mask includes
    /// the mask bit of `race`; none for a race without a mask bit.
    pub fn mail_level_reward_like_cpp(&self, level: u8, race: u8) -> (r: Option<&MailLevelRewardLikeCpp>)
        ensures
            ({
                let rs = rewards_at(self.rewards_map(), level);
                match mail_race_mask(race) {
                    None => r is None,
                    Some(mask) => match r {
                        Some(reward) => exists|i: int|
                            0 <= i < rs.len() && rs[i] == *reward && reward.race_mask & mask != 0 && forall|
                                j: int,
                            | 0 <= j < i ==> rs[j].race_mask & mask == 0,
                        None => forall|j: int| 0 <= j < rs.len() ==> rs[j].race_mask & mask == 0,
                    },
                }
            }),
    {
        let race_mask = match race_mask_for_race_like_cpp(race) {
            Some(m) => m,
            None => {
                return None;
            },
        };
        let rewards = match self.rewards_by_level.get(&level) {
            Some(v) => v,
            None => {
                return None;
            },
        };
        let mut i: usize = 0;
        while i < rewards.len()
            invariant
                i <= rewards.len(),
                mail_race_mask(race) == Some(race_mask),
                rewards@ == rewards_at(self.rewards_map(), level),
                forall|j: int| 0 <= j < i ==> rewards@[j].race_mask & race_mask == 0,
            decreases rewards.len() - i,
        {
            if rewards[i].race_mask & race_mask != 0 {
                proof {
                    let rs = rewards_at(self.rewards_map(), level);
                    assert(0 <= i < rs.len() && rs[i as int] == rewards[i as int] && rewards[i as int].race_mask
                        & race_mask != 0 && forall|j: int| 0 <= j < i ==> rs[j].race_mask & race_mask == 0);
                }
                return Some(&rewards[i]);
            }
            i = i + 1;
        }
        None
    }

    /// The rewards of `level`, in row order.
    pub fn rewards_for_level_like_cpp(&self, level: u8) -> (r: &[MailLevelRewardLikeCpp])
        ensures
            r@ == rewards_at(self.rewards_map(), level),
    {
        match self.rewards_by_level.get(&level) {
            Some(v) => v.as_slice(),
            None => &[],
        }
    }

    /// Number of rewards over all levels.
    pub fn len(&self) -> (n: usize)
        ensures
            n == reward_count(self.rewards_map()),
    {
        proof {
            use_type_invariant(self);
        }
        self.count
    }

    /// Whether no level has a reward.
    pub fn is_empty(&self) -> (b: bool)
        ensures
            b == self.rewards_map().is_empty(),
    {
        let b = self.rewards_by_level.is_empty();
        proof {
            assert(self.rewards_map().dom() == self.rewards_by_level@.dom());
        }
        b
    }
}

/// Every level that loading gives rewards is at most the highest level, and
/// every reward it keeps names a playable race.
pub proof fn lemma_kept_rewards_are_valid<F: Fn(u32) -> bool, G: Fn(u32) -> bool>(
    rows: Seq<MailLevelRewardRowLikeCpp>,
    mail_template_exists: F,
    creature_template_exists: G,
    level: u8,
)
    requires
        mail_rewards_kept(rows, mail_template_exists, creature_template_exists).contains_key(level),
    ensures
        level <= MAX_LEVEL_LIKE_CPP,
        forall|i: int| 0 <= i < mail_rewards_kept(rows, mail_template_exists, creature_template_exists)[level].len()
            ==> (#[trigger] mail_rewards_kept(rows, mail_template_exists, creature_template_exists)[level][i]).race_mask
            & RACEMASK_ALL_PLAYABLE_LIKE_CPP != 0,
    decreases rows.len(),
{
    if rows.len() > 0 {
        let init = rows.drop_last();
        let m = mail_rewards_kept(init, mail_template_exists, creature_template_exists);
        if m.contains_key(level) {
            lemma_kept_rewards_are_valid(init, mail_template_exists, creature_template_exists, level);
        }
    }
}

/// Every race numbered 1 to 32 has the mask bit `1 << (race - 1)`, and
/// distinct races of that range have distinct bits.
pub proof fn lemma_low_races_have_their_bit(race: u8, other: u8)
    requires
        1 <= race <= 32,
    ensures
        mail_race_mask(race) == Some(1u64 << ((race - 1) as u64)),
        1 <= other <= 32 && other != race ==> mail_race_mask(other) != mail_race_mask(race),
{
    if 1 <= other <= 32 && other != race {
        let a = (race - 1) as u64;
        let b = (other - 1) as u64;
        assert(a < 32 && b < 32 && a != b ==> (1u64 << a) != (1u64 << b)) by (bit_vector);
    }
}

} // verus!
