//! Reputation ranks and flags, and the world tables of reputation reward
//! rates, creature kill awards and spillover templates with their load-time
//! validation.
use std::collections::HashMap;
use vstd::prelude::*;
use vstd::std_specs::iter::IteratorSpec;
use crate::predicates::{holds, is_predicate, lemma_predicate_answer};
use crate::progression_rewards::{FactionEntry, FactionStore};

verus! {

broadcast use vstd::std_specs::hash::group_hash_axioms;

/// The highest standing a reputation can reach.
pub const REPUTATION_CAP_LIKE_CPP: i32 = 42_000;

/// The lowest standing a reputation can fall to.
pub const REPUTATION_BOTTOM_LIKE_CPP: i32 = -42_000;

/// The lowest standing of each rank, from hated to exalted.
pub const REPUTATION_RANK_THRESHOLDS_LIKE_CPP: [i32; 8] = [
    -42_000,
    -6_000,
    -3_000,
    0,
    3_000,
    9_000,
    21_000,
    42_000,
];

/// Number of factions a spillover template names.
pub const MAX_SPILLOVER_FACTIONS_LIKE_CPP: usize = 5;

/// Number of reputation ranks.
pub const REPUTATION_RANK_COUNT: u8 = 8;

/// A reputation rank, from hated to exalted.
#[derive(Debug, Clone, Copy, PartialEq, Eq, PartialOrd, Ord, Hash, Structural)]
pub enum ReputationRankLikeCpp {
    Hated,
    Hostile,
    Unfriendly,
    Neutral,
    Friendly,
    Honored,
    Revered,
    Exalted,
}

/// The number of a rank, hated being 0 and exalted 7.
pub open spec fn rank_number(r: ReputationRankLikeCpp) -> u8 {
    match r {
        ReputationRankLikeCpp::Hated => 0u8,
        ReputationRankLikeCpp::Hostile => 1u8,
        ReputationRankLikeCpp::Unfriendly => 2u8,
        ReputationRankLikeCpp::Neutral => 3u8,
        ReputationRankLikeCpp::Friendly => 4u8,
        ReputationRankLikeCpp::Honored => 5u8,
        ReputationRankLikeCpp::Revered => 6u8,
        ReputationRankLikeCpp::Exalted => 7u8,
    }
}

impl ReputationRankLikeCpp {
    /// The number of this rank.
    pub fn as_u8(self) -> (n: u8)
        ensures
            n == rank_number(self),
    {
        match self {
            ReputationRankLikeCpp::Hated => 0,
            ReputationRankLikeCpp::Hostile => 1,
            ReputationRankLikeCpp::Unfriendly => 2,
            ReputationRankLikeCpp::Neutral => 3,
            ReputationRankLikeCpp::Friendly => 4,
            ReputationRankLikeCpp::Honored => 5,
            ReputationRankLikeCpp::Revered => 6,
            ReputationRankLikeCpp::Exalted => 7,
        }
    }

    /// The rank with the number `value`, if there is one.
    pub fn from_u8_like_cpp(value: u8) -> (r: Option<Self>)
        ensures
            r is Some <==> value < REPUTATION_RANK_COUNT,
            r matches Some(rank) ==> rank_number(rank) == value,
    {
        match value {
            0 => Some(ReputationRankLikeCpp::Hated),
            1 => Some(ReputationRankLikeCpp::Hostile),
            2 => Some(ReputationRankLikeCpp::Unfriendly),
            3 => Some(ReputationRankLikeCpp::Neutral),
            4 => Some(ReputationRankLikeCpp::Friendly),
            5 => Some(ReputationRankLikeCpp::Honored),
            6 => Some(ReputationRankLikeCpp::Revered),
            7 => Some(ReputationRankLikeCpp::Exalted),
            _ => None,
        }
    }
}

/// The number of the rank that a standing reaches: the last rank whose lowest
/// standing it is not below, and hated below every threshold.
pub open spec fn standing_rank_number(standing: int) -> u8 {
    if standing < -6_000 {
        0
    } else if standing < -3_000 {
        1
    } else if standing < 0 {
        2
    } else if standing < 3_000 {
        3
    } else if standing < 9_000 {
        4
    } else if standing < 21_000 {
        5
    } else if standing < 42_000 {
        6
    } else {
        7
    }
}

/// The rank that a standing reaches.
pub fn reputation_rank_from_standing_like_cpp(standing: i32) -> (r: ReputationRankLikeCpp)
    ensures
        rank_number(r) == standing_rank_number(standing as int),
{
    if standing < -6_000 {
        ReputationRankLikeCpp::Hated
    } else if standing < -3_000 {
        ReputationRankLikeCpp::Hostile
    } else if standing < 0 {
        ReputationRankLikeCpp::Unfriendly
    } else if standing < 3_000 {
        ReputationRankLikeCpp::Neutral
    } else if standing < 9_000 {
        ReputationRankLikeCpp::Friendly
    } else if standing < 21_000 {
        ReputationRankLikeCpp::Honored
    } else if standing < 42_000 {
        ReputationRankLikeCpp::Revered
    } else {
        ReputationRankLikeCpp::Exalted
    }
}

/// A standing never reaches a lower rank than a smaller standing.
pub proof fn lemma_rank_is_monotonic(a: int, b: int)
    requires
        a <= b,
    ensures
        standing_rank_number(a) <= standing_rank_number(b),
{
}

/// The flags of a reputation list entry, as bits.
#[derive(Debug, Clone, Copy, PartialEq, Eq, Hash, Structural)]
pub struct ReputationFlagsLikeCpp {
    bits: u16,
}

impl ReputationFlagsLikeCpp {
    pub const NONE: u16 = 0x0000;
    pub const VISIBLE: u16 = 0x0001;
    pub const AT_WAR: u16 = 0x0002;
    pub const HIDDEN: u16 = 0x0004;
    pub const HEADER: u16 = 0x0008;
    pub const PEACEFUL: u16 = 0x0010;
    pub const INACTIVE: u16 = 0x0020;
    pub const SHOW_PROPAGATED: u16 = 0x0040;
    pub const HEADER_SHOWS_BAR: u16 = 0x0080;
    pub const CAPITAL_CITY_FOR_RACE_CHANGE: u16 = 0x0100;
    pub const GUILD: u16 = 0x0200;
    pub const GARRISON_INVASION: u16 = 0x0400;

    /// The bits of these flags.
    pub closed spec fn spec_bits(&self) -> u16 {
        self.bits
    }

    /// Flags holding exactly `bits`, known or not.
    pub fn from_bits_retain(bits: u16) -> (f: Self)
        ensures
            f.spec_bits() == bits,
    {
        ReputationFlagsLikeCpp { bits }
    }

    /// No flag set.
    pub fn empty() -> (f: Self)
        ensures
            f.spec_bits() == 0,
    {
        ReputationFlagsLikeCpp { bits: 0 }
    }

    /// The bits of these flags.
    pub fn bits(&self) -> (b: u16)
        ensures
            b == self.spec_bits(),
    {
        self.bits
    }

    /// Whether every bit of `other` is set here.
    pub fn contains(&self, other: u16) -> (b: bool)
        ensures
            b == (self.spec_bits() & other == other),
    {
        self.bits & other == other
    }

    /// These flags with the bits of `other` set as well.
    pub fn union(&self, other: u16) -> (f: Self)
        ensures
            f.spec_bits() == self.spec_bits() | other,
    {
        ReputationFlagsLikeCpp { bits: self.bits | other }
    }

    /// These flags with the bits of `other` cleared.
    pub fn difference(&self, other: u16) -> (f: Self)
        ensures
            f.spec_bits() == self.spec_bits() & !other,
    {
        ReputationFlagsLikeCpp { bits: self.bits & !other }
    }
}

/// Whether the single-precision float with bits `b` is below zero: its sign
/// bit is set and it is neither a zero nor a NaN.
pub open spec fn f32_bits_below_zero(b: u32) -> bool {
    0x8000_0000 < b <= 0xFF80_0000
}

fn below_zero(b: u32) -> (r: bool)
    ensures
        r == f32_bits_below_zero(b),
{
    0x8000_0000 < b && b <= 0xFF80_0000
}

/// Reputation reward rates of a faction; each rate is a single-precision
/// float kept as its bit pattern.
#[derive(Debug, Clone, Copy, PartialEq, Eq)]
pub struct ReputationRewardRateEntryLikeCpp {
    pub quest_rate: u32,
    pub quest_daily_rate: u32,
    pub quest_weekly_rate: u32,
    pub quest_monthly_rate: u32,
    pub quest_repeatable_rate: u32,
    pub creature_rate: u32,
    pub spell_rate: u32,
}

/// A row of the reputation reward rate table.
#[derive(Debug, Clone, Copy, PartialEq, Eq)]
pub struct ReputationRewardRateRowLikeCpp {
    pub faction_id: u32,
    pub rates: ReputationRewardRateEntryLikeCpp,
}

/// Why a reward rate row was skipped.
#[derive(Debug, Clone, Copy, PartialEq, Eq, Structural)]
pub enum ReputationRewardRateSkipReasonLikeCpp {
    MissingFaction,
    NegativeQuestRate,
    NegativeQuestDailyRate,
    NegativeQuestWeeklyRate,
    NegativeQuestMonthlyRate,
    NegativeQuestRepeatableRate,
    NegativeCreatureRate,
    NegativeSpellRate,
}

/// A skipped reward rate row and why.
#[derive(Debug, Clone, Copy, PartialEq, Eq)]
pub struct SkippedReputationRewardRateRowLikeCpp {
    pub faction_id: u32,
    pub rates: ReputationRewardRateEntryLikeCpp,
    pub reason: ReputationRewardRateSkipReasonLikeCpp,
}

/// What loading the reward rate table did.
#[derive(Debug, Clone, PartialEq, Eq)]
pub struct ReputationRewardRateLoadReportLikeCpp {
    pub loaded: usize,
    pub skipped: Vec<SkippedReputationRewardRateRowLikeCpp>,
}

/// Reward rates by faction id.
pub struct ReputationRewardRateStoreLikeCpp {
    rates_by_faction: HashMap<u32, ReputationRewardRateEntryLikeCpp>,
}

/// The first rate of `r`, in table order, that is below zero.
pub open spec fn negative_rate_reason(r: ReputationRewardRateEntryLikeCpp) -> Option<
    ReputationRewardRateSkipReasonLikeCpp,
> {
    if f32_bits_below_zero(r.quest_rate) {
        Some(ReputationRewardRateSkipReasonLikeCpp::NegativeQuestRate)
    } else if f32_bits_below_zero(r.quest_daily_rate) {
        Some(ReputationRewardRateSkipReasonLikeCpp::NegativeQuestDailyRate)
    } else if f32_bits_below_zero(r.quest_weekly_rate) {
        Some(ReputationRewardRateSkipReasonLikeCpp::NegativeQuestWeeklyRate)
    } else if f32_bits_below_zero(r.quest_monthly_rate) {
        Some(ReputationRewardRateSkipReasonLikeCpp::NegativeQuestMonthlyRate)
    } else if f32_bits_below_zero(r.quest_repeatable_rate) {
        Some(ReputationRewardRateSkipReasonLikeCpp::NegativeQuestRepeatableRate)
    } else if f32_bits_below_zero(r.creature_rate) {
        Some(ReputationRewardRateSkipReasonLikeCpp::NegativeCreatureRate)
    } else if f32_bits_below_zero(r.spell_rate) {
        Some(ReputationRewardRateSkipReasonLikeCpp::NegativeSpellRate)
    } else {
        None
    }
}

fn validate_non_negative_rates_like_cpp(rates: ReputationRewardRateEntryLikeCpp) -> (r: Option<
    ReputationRewardRateSkipReasonLikeCpp,
>)
    ensures
        r == negative_rate_reason(rates),
{
    if below_zero(rates.quest_rate) {
        Some(ReputationRewardRateSkipReasonLikeCpp::NegativeQuestRate)
    } else if below_zero(rates.quest_daily_rate) {
        Some(ReputationRewardRateSkipReasonLikeCpp::NegativeQuestDailyRate)
    } else if below_zero(rates.quest_weekly_rate) {
        Some(ReputationRewardRateSkipReasonLikeCpp::NegativeQuestWeeklyRate)
    } else if below_zero(rates.quest_monthly_rate) {
        Some(ReputationRewardRateSkipReasonLikeCpp::NegativeQuestMonthlyRate)
    } else if below_zero(rates.quest_repeatable_rate) {
        Some(ReputationRewardRateSkipReasonLikeCpp::NegativeQuestRepeatableRate)
    } else if below_zero(rates.creature_rate) {
        Some(ReputationRewardRateSkipReasonLikeCpp::NegativeCreatureRate)
    } else if below_zero(rates.spell_rate) {
        Some(ReputationRewardRateSkipReasonLikeCpp::NegativeSpellRate)
    } else {
        None
    }
}

/// Why a reward rate row is skipped, or `None` where it is kept: its faction
/// must exist and none of its rates may be below zero.
pub open spec fn rate_row_verdict(
    row: ReputationRewardRateRowLikeCpp,
    factions: Map<u32, FactionEntry>,
) -> Option<ReputationRewardRateSkipReasonLikeCpp> {
    if !factions.contains_key(row.faction_id) {
        Some(ReputationRewardRateSkipReasonLikeCpp::MissingFaction)
    } else {
        negative_rate_reason(row.rates)
    }
}

/// The rates that loading `rows` keeps, by faction; a later kept row replaces
/// an earlier one.
pub open spec fn rates_kept(
    rows: Seq<ReputationRewardRateRowLikeCpp>,
    factions: Map<u32, FactionEntry>,
) -> Map<u32, ReputationRewardRateEntryLikeCpp>
    decreases rows.len(),
{
    if rows.len() == 0 {
        Map::empty()
    } else {
        let m = rates_kept(rows.drop_last(), factions);
        if rate_row_verdict(rows.last(), factions) is None {
            m.insert(rows.last().faction_id, rows.last().rates)
        } else {
            m
        }
    }
}

/// The rows that loading `rows` skips, in order, each with its reason.
pub open spec fn rates_skipped(
    rows: Seq<ReputationRewardRateRowLikeCpp>,
    factions: Map<u32, FactionEntry>,
) -> Seq<SkippedReputationRewardRateRowLikeCpp>
    decreases rows.len(),
{
    if rows.len() == 0 {
        seq![]
    } else {
        let s = rates_skipped(rows.drop_last(), factions);
        match rate_row_verdict(rows.last(), factions) {
            Some(reason) => s.push(
                SkippedReputationRewardRateRowLikeCpp {
                    faction_id: rows.last().faction_id,
                    rates: rows.last().rates,
                    reason,
                },
            ),
            None => s,
        }
    }
}

impl ReputationRewardRateStoreLikeCpp {
    /// The rates by faction id.
    pub closed spec fn rates_map(&self) -> Map<u32, ReputationRewardRateEntryLikeCpp> {
        self.rates_by_faction@
    }

    /// Loads the reward rate rows, keeping those whose faction exists and
    /// whose rates are none below zero.
    pub fn from_rows_like_cpp(rows: Vec<ReputationRewardRateRowLikeCpp>, faction_store: &FactionStore) -> (r: (
        Self,
        ReputationRewardRateLoadReportLikeCpp,
    ))
        ensures
            r.0.rates_map() == rates_kept(rows@, faction_store@),
            r.1.skipped@ == rates_skipped(rows@, faction_store@),
            r.1.loaded + r.1.skipped@.len() == rows@.len(),
    {
        let ghost all = rows@;
        let n = rows.len();
        let mut rates_by_faction: HashMap<u32, ReputationRewardRateEntryLikeCpp> = HashMap::new();
        let mut skipped: Vec<SkippedReputationRewardRateRowLikeCpp> = Vec::new();
        let mut loaded: usize = 0;
        for row in it: rows
            invariant
                all == it.seq(),
                rates_by_faction@ == rates_kept(all.take(it.index() as int), faction_store@),
                skipped@ == rates_skipped(all.take(it.index() as int), faction_store@),
                loaded + skipped@.len() == it.index(),
                it.index() <= all.len(),
                all.len() == n,
        {
            proof {
                assert(all.take(it.index() + 1).drop_last() =~= all.take(it.index() as int));
            }
            if faction_store.get(row.faction_id).is_none() {
                skipped.push(
                    SkippedReputationRewardRateRowLikeCpp {
                        faction_id: row.faction_id,
                        rates: row.rates,
                        reason: ReputationRewardRateSkipReasonLikeCpp::MissingFaction,
                    },
                );
            } else {
                match validate_non_negative_rates_like_cpp(row.rates) {
                    None => {
                        rates_by_faction.insert(row.faction_id, row.rates);
                        loaded = loaded + 1;
                    },
                    Some(reason) => {
                        skipped.push(
                            SkippedReputationRewardRateRowLikeCpp {
                                faction_id: row.faction_id,
                                rates: row.rates,
                                reason,
                            },
                        );
                    },
                }
            }
        }
        proof {
            assert(all.take(all.len() as int) =~= all);
        }
        (
            ReputationRewardRateStoreLikeCpp { rates_by_faction },
            ReputationRewardRateLoadReportLikeCpp { loaded, skipped },
        )
    }

    /// The reward rates of a faction.
    pub fn get(&self, faction_id: u32) -> (r: Option<&ReputationRewardRateEntryLikeCpp>)
        ensures
            r matches Some(e) ==> self.rates_map().contains_key(faction_id) && *e == self.rates_map()[faction_id],
            r is None ==> !self.rates_map().contains_key(faction_id),
    {
        self.rates_by_faction.get(&faction_id)
    }

    /// Number of factions with reward rates.
    pub fn len(&self) -> (n: usize)
        ensures
            n == self.rates_map().len(),
    {
        self.rates_by_faction.len()
    }

    /// Whether no faction has reward rates.
    pub fn is_empty(&self) -> (b: bool)
        ensures
            b == (self.rates_map().len() == 0),
    {
        self.rates_by_faction.len() == 0
    }
}

/// A spillover template: up to five factions that share in reputation
/// gained with a faction, each with its rate (a single-precision float kept as
/// its bit pattern) and the rank up to which it shares.
#[derive(Debug, Clone, Copy, PartialEq, Eq)]
pub struct RepSpilloverTemplateLikeCpp {
    pub faction: [u32; 5],
    pub faction_rate: [u32; 5],
    pub faction_rank: [u8; 5],
}

impl RepSpilloverTemplateLikeCpp {
    /// The template that names no faction.
    pub fn empty_like_cpp() -> (t: Self)
        ensures
            forall|slot: int| 0 <= slot < 5 ==> t.faction[slot] == 0 && t.faction_rate[slot] == 0
                && t.faction_rank[slot] == 0,
    {
        RepSpilloverTemplateLikeCpp { faction: [0; 5], faction_rate: [0; 5], faction_rank: [0; 5] }
    }
}

/// A row of the spillover template table.
#[derive(Debug, Clone, Copy, PartialEq, Eq)]
pub struct RepSpilloverTemplateRowLikeCpp {
    pub faction_id: u32,
    pub template: RepSpilloverTemplateLikeCpp,
}

/// Why a spillover template row was skipped.
#[derive(Debug, Clone, Copy, PartialEq, Eq, Structural)]
pub enum RepSpilloverTemplateSkipReasonLikeCpp {
    MissingSourceFaction,
    SourceFactionHasNoParent,
    MissingSpilloverFaction { slot: usize, faction_id: u32 },
    SpilloverFactionCannotHaveReputation { slot: usize, faction_id: u32 },
    InvalidRank { slot: usize, rank: u8 },
}

/// A skipped spillover template row and why.
#[derive(Debug, Clone, Copy, PartialEq, Eq)]
pub struct SkippedRepSpilloverTemplateRowLikeCpp {
    pub faction_id: u32,
    pub reason: RepSpilloverTemplateSkipReasonLikeCpp,
}

/// What loading the spillover template table did.
#[derive(Debug, Clone, PartialEq, Eq)]
pub struct RepSpilloverTemplateLoadReportLikeCpp {
    pub loaded: usize,
    pub skipped: Vec<SkippedRepSpilloverTemplateRowLikeCpp>,
}

/// Spillover templates by source faction id.
pub struct RepSpilloverTemplateStoreLikeCpp {
    templates_by_faction: HashMap<u32, RepSpilloverTemplateLikeCpp>,
}

/// The first fault of the slots `slot..5` of `t`: a named faction that does
/// not exist, one that cannot have reputation, or a rank past exalted. Empty
/// slots are passed over.
pub open spec fn spillover_slot_fault(
    t: RepSpilloverTemplateLikeCpp,
    factions: Map<u32, FactionEntry>,
    slot: int,
) -> Option<RepSpilloverTemplateSkipReasonLikeCpp>
    decreases 5 - slot,
{
    if slot < 0 || slot >= 5 {
        None
    } else {
        let id = t.faction[slot];
        if id == 0 {
            spillover_slot_fault(t, factions, slot + 1)
        } else if !factions.contains_key(id) {
            Some(
                RepSpilloverTemplateSkipReasonLikeCpp::MissingSpilloverFaction {
                    slot: slot as usize,
                    faction_id: id,
                },
            )
        } else if factions[id].reputation_index < 0 {
            Some(
                RepSpilloverTemplateSkipReasonLikeCpp::SpilloverFactionCannotHaveReputation {
                    slot: slot as usize,
                    faction_id: id,
                },
            )
        } else if t.faction_rank[slot] >= REPUTATION_RANK_COUNT {
            Some(
                RepSpilloverTemplateSkipReasonLikeCpp::InvalidRank {
                    slot: slot as usize,
                    rank: t.faction_rank[slot],
                },
            )
        } else {
            spillover_slot_fault(t, factions, slot + 1)
        }
    }
}

/// Why a spillover template row is skipped, or `None` where it is kept: its
/// source faction must exist and have a parent, and its slots must be sound.
pub open spec fn spillover_row_verdict(
    row: RepSpilloverTemplateRowLikeCpp,
    factions: Map<u32, FactionEntry>,
) -> Option<RepSpilloverTemplateSkipReasonLikeCpp> {
    if !factions.contains_key(row.faction_id) {
        Some(RepSpilloverTemplateSkipReasonLikeCpp::MissingSourceFaction)
    } else if factions[row.faction_id].parent_faction_id == 0 {
        Some(RepSpilloverTemplateSkipReasonLikeCpp::SourceFactionHasNoParent)
    } else {
        spillover_slot_fault(row.template, factions, 0)
    }
}

/// The templates that loading `rows` keeps, by source faction.
pub open spec fn spillovers_kept(
    rows: Seq<RepSpilloverTemplateRowLikeCpp>,
    factions: Map<u32, FactionEntry>,
) -> Map<u32, RepSpilloverTemplateLikeCpp>
    decreases rows.len(),
{
    if rows.len() == 0 {
        Map::empty()
    } else {
        let m = spillovers_kept(rows.drop_last(), factions);
        if spillover_row_verdict(rows.last(), factions) is None {
            m.insert(rows.last().faction_id, rows.last().template)
        } else {
            m
        }
    }
}

/// The rows that loading `rows` skips, in order, each with its reason.
pub open spec fn spillovers_skipped(
    rows: Seq<RepSpilloverTemplateRowLikeCpp>,
    factions: Map<u32, FactionEntry>,
) -> Seq<SkippedRepSpilloverTemplateRowLikeCpp>
    decreases rows.len(),
{
    if rows.len() == 0 {
        seq![]
    } else {
        let s = spillovers_skipped(rows.drop_last(), factions);
        match spillover_row_verdict(rows.last(), factions) {
            Some(reason) => s.push(
                SkippedRepSpilloverTemplateRowLikeCpp { faction_id: rows.last().faction_id, reason },
            ),
            None => s,
        }
    }
}

fn check_spillover_slots(t: &RepSpilloverTemplateLikeCpp, faction_store: &FactionStore) -> (r: Option<
    RepSpilloverTemplateSkipReasonLikeCpp,
>)
    ensures
        r == spillover_slot_fault(*t, faction_store@, 0),
{
    let mut slot: usize = 0;
    while slot < MAX_SPILLOVER_FACTIONS_LIKE_CPP
        invariant
            slot <= MAX_SPILLOVER_FACTIONS_LIKE_CPP,
            spillover_slot_fault(*t, faction_store@, slot as int) == spillover_slot_fault(
                *t,
                faction_store@,
                0,
            ),
        decreases MAX_SPILLOVER_FACTIONS_LIKE_CPP - slot,
    {
        let spillover_faction_id = t.faction[slot];
        if spillover_faction_id != 0 {
            match faction_store.get(spillover_faction_id) {
                None => {
                    return Some(
                        RepSpilloverTemplateSkipReasonLikeCpp::MissingSpilloverFaction {
                            slot,
                            faction_id: spillover_faction_id,
                        },
                    );
                },
                Some(spillover_faction) => {
                    if !spillover_faction.can_have_reputation_like_cpp() {
                        return Some(
                            RepSpilloverTemplateSkipReasonLikeCpp::SpilloverFactionCannotHaveReputation {
                                slot,
                                faction_id: spillover_faction_id,
                            },
                        );
                    }
                },
            }
            if t.faction_rank[slot] >= REPUTATION_RANK_COUNT {
                return Some(
                    RepSpilloverTemplateSkipReasonLikeCpp::InvalidRank { slot, rank: t.faction_rank[slot] },
                );
            }
        }
        slot = slot + 1;
    }
    None
}

impl RepSpilloverTemplateStoreLikeCpp {
    /// The templates by source faction id.
    pub closed spec fn templates_map(&self) -> Map<u32, RepSpilloverTemplateLikeCpp> {
        self.templates_by_faction@
    }

    /// Loads the spillover template rows, keeping those whose source faction
    /// exists and has a parent and whose named factions exist, can have
    /// reputation and have a rank no higher than exalted.
    pub fn from_rows_like_cpp(rows: Vec<RepSpilloverTemplateRowLikeCpp>, faction_store: &FactionStore) -> (r: (
        Self,
        RepSpilloverTemplateLoadReportLikeCpp,
    ))
        ensures
            r.0.templates_map() == spillovers_kept(rows@, faction_store@),
            r.1.skipped@ == spillovers_skipped(rows@, faction_store@),
            r.1.loaded + r.1.skipped@.len() == rows@.len(),
    {
        let ghost all = rows@;
        let n = rows.len();
        let mut templates_by_faction: HashMap<u32, RepSpilloverTemplateLikeCpp> = HashMap::new();
        let mut skipped: Vec<SkippedRepSpilloverTemplateRowLikeCpp> = Vec::new();
        let mut loaded: usize = 0;
        for row in it: rows
            invariant
                all == it.seq(),
                templates_by_faction@ == spillovers_kept(all.take(it.index() as int), faction_store@),
                skipped@ == spillovers_skipped(all.take(it.index() as int), faction_store@),
                loaded + skipped@.len() == it.index(),
                it.index() <= all.len(),
                all.len() == n,
        {
            proof {
                assert(all.take(it.index() + 1).drop_last() =~= all.take(it.index() as int));
            }
            let verdict = match faction_store.get(row.faction_id) {
                None => Some(RepSpilloverTemplateSkipReasonLikeCpp::MissingSourceFaction),
                Some(source_faction) => {
                    if source_faction.parent_faction_id == 0 {
                        Some(RepSpilloverTemplateSkipReasonLikeCpp::SourceFactionHasNoParent)
                    } else {
                        check_spillover_slots(&row.template, faction_store)
                    }
                },
            };
            match verdict {
                Some(reason) => {
                    skipped.push(SkippedRepSpilloverTemplateRowLikeCpp { faction_id: row.faction_id, reason });
                },
                None => {
                    templates_by_faction.insert(row.faction_id, row.template);
                    loaded = loaded + 1;
                },
            }
        }
        proof {
            assert(all.take(all.len() as int) =~= all);
        }
        (
            RepSpilloverTemplateStoreLikeCpp { templates_by_faction },
            RepSpilloverTemplateLoadReportLikeCpp { loaded, skipped },
        )
    }

    /// The spillover template of a source faction.
    pub fn get(&self, faction_id: u32) -> (r: Option<&RepSpilloverTemplateLikeCpp>)
        ensures
            r matches Some(t) ==> self.templates_map().contains_key(faction_id) && *t
                == self.templates_map()[faction_id],
            r is None ==> !self.templates_map().contains_key(faction_id),
    {
        self.templates_by_faction.get(&faction_id)
    }

    /// Number of source factions with a template.
    pub fn len(&self) -> (n: usize)
        ensures
            n == self.templates_map().len(),
    {
        self.templates_by_faction.len()
    }

    /// Whether no source faction has a template.
    pub fn is_empty(&self) -> (b: bool)
        ensures
            b == (self.templates_map().len() == 0),
    {
        self.templates_by_faction.len() == 0
    }
}

/// The reputation that killing a creature awards, for up to two factions.
#[derive(Debug, Clone, Copy, PartialEq, Eq, Structural)]
pub struct CreatureOnKillReputationEntryLikeCpp {
    pub rep_faction_1: u32,
    pub rep_faction_2: u32,
    pub reputation_max_cap_1: u8,
    pub rep_value_1: i32,
    pub reputation_max_cap_2: u8,
    pub rep_value_2: i32,
    pub is_team_award_1: bool,
    pub is_team_award_2: bool,
    pub team_dependent: bool,
}

/// A row of the creature kill reputation table.
#[derive(Debug, Clone, Copy, PartialEq, Eq, Structural)]
pub struct CreatureOnKillReputationRowLikeCpp {
    pub creature_id: u32,
    pub entry: CreatureOnKillReputationEntryLikeCpp,
}

/// Why a creature kill reputation row was skipped.
#[derive(Debug, Clone, Copy, PartialEq, Eq, Structural)]
pub enum CreatureOnKillReputationSkipReasonLikeCpp {
    MissingCreatureTemplate,
    MissingFaction1 { faction_id: u32 },
    MissingFaction2 { faction_id: u32 },
}

/// A skipped creature kill reputation row and why.
#[derive(Debug, Clone, Copy, PartialEq, Eq, Structural)]
pub struct SkippedCreatureOnKillReputationRowLikeCpp {
    pub creature_id: u32,
    pub entry: CreatureOnKillReputationEntryLikeCpp,
    pub reason: CreatureOnKillReputationSkipReasonLikeCpp,
}

/// What loading the creature kill reputation table did.
#[derive(Debug, Clone, PartialEq, Eq)]
pub struct CreatureOnKillReputationLoadReportLikeCpp {
    pub loaded: usize,
    pub skipped: Vec<SkippedCreatureOnKillReputationRowLikeCpp>,
}

/// Creature kill reputation awards by creature id.
pub struct CreatureOnKillReputationStoreLikeCpp {
    entries_by_creature_id: HashMap<u32, CreatureOnKillReputationEntryLikeCpp>,
}

/// Why a creature kill reputation row is skipped, or `None` where it is kept:
/// its creature must have a template, and each faction it names (other than
/// 0) must exist.
pub open spec fn onkill_row_verdict<F: Fn(u32) -> bool>(
    row: CreatureOnKillReputationRowLikeCpp,
    creature_exists: F,
    factions: Map<u32, FactionEntry>,
) -> Option<CreatureOnKillReputationSkipReasonLikeCpp> {
    if !holds(creature_exists, row.creature_id) {
        Some(CreatureOnKillReputationSkipReasonLikeCpp::MissingCreatureTemplate)
    } else if row.entry.rep_faction_1 != 0 && !factions.contains_key(row.entry.rep_faction_1) {
        Some(CreatureOnKillReputationSkipReasonLikeCpp::MissingFaction1 { faction_id: row.entry.rep_faction_1 })
    } else if row.entry.rep_faction_2 != 0 && !factions.contains_key(row.entry.rep_faction_2) {
        Some(CreatureOnKillReputationSkipReasonLikeCpp::MissingFaction2 { faction_id: row.entry.rep_faction_2 })
    } else {
        None
    }
}

/// The awards that loading `rows` keeps, by creature.
pub open spec fn onkill_kept<F: Fn(u32) -> bool>(
    rows: Seq<CreatureOnKillReputationRowLikeCpp>,
    creature_exists: F,
    factions: Map<u32, FactionEntry>,
) -> Map<u32, CreatureOnKillReputationEntryLikeCpp>
    decreases rows.len(),
{
    if rows.len() == 0 {
        Map::empty()
    } else {
        let m = onkill_kept(rows.drop_last(), creature_exists, factions);
        if onkill_row_verdict(rows.last(), creature_exists, factions) is None {
            m.insert(rows.last().creature_id, rows.last().entry)
        } else {
            m
        }
    }
}

/// The rows that loading `rows` skips, in order, each with its reason.
pub open spec fn onkill_skipped<F: Fn(u32) -> bool>(
    rows: Seq<CreatureOnKillReputationRowLikeCpp>,
    creature_exists: F,
    factions: Map<u32, FactionEntry>,
) -> Seq<SkippedCreatureOnKillReputationRowLikeCpp>
    decreases rows.len(),
{
    if rows.len() == 0 {
        seq![]
    } else {
        let s = onkill_skipped(rows.drop_last(), creature_exists, factions);
        match onkill_row_verdict(rows.last(), creature_exists, factions) {
            Some(reason) => s.push(
                SkippedCreatureOnKillReputationRowLikeCpp {
                    creature_id: rows.last().creature_id,
                    entry: rows.last().entry,
                    reason,
                },
            ),
            None => s,
        }
    }
}

impl CreatureOnKillReputationStoreLikeCpp {
    /// The awards by creature id.
    pub closed spec fn entries_map(&self) -> Map<u32, CreatureOnKillReputationEntryLikeCpp> {
        self.entries_by_creature_id@
    }

    /// Loads the creature kill reputation rows, keeping those whose creature
    /// has a template (as `creature_exists` answers) and whose named factions
    /// exist.
    pub fn from_rows_like_cpp<F: Fn(u32) -> bool>(
        rows: Vec<CreatureOnKillReputationRowLikeCpp>,
        creature_exists: F,
        faction_store: &FactionStore,
    ) -> (r: (Self, CreatureOnKillReputationLoadReportLikeCpp))
        requires
            is_predicate(creature_exists),
        ensures
            r.0.entries_map() == onkill_kept(rows@, creature_exists, faction_store@),
            r.1.skipped@ == onkill_skipped(rows@, creature_exists, faction_store@),
            r.1.loaded + r.1.skipped@.len() == rows@.len(),
    {
        let ghost all = rows@;
        let n = rows.len();
        let mut entries_by_creature_id: HashMap<u32, CreatureOnKillReputationEntryLikeCpp> =
            HashMap::new();
        let mut skipped: Vec<SkippedCreatureOnKillReputationRowLikeCpp> = Vec::new();
        let mut loaded: usize = 0;
        for row in it: rows
            invariant
                all == it.seq(),
                is_predicate(creature_exists),
                entries_by_creature_id@ == onkill_kept(
                    all.take(it.index() as int),
                    creature_exists,
                    faction_store@,
                ),
                skipped@ == onkill_skipped(all.take(it.index() as int), creature_exists, faction_store@),
                loaded + skipped@.len() == it.index(),
                it.index() <= all.len(),
                all.len() == n,
        {
            proof {
                assert(all.take(it.index() + 1).drop_last() =~= all.take(it.index() as int));
            }
            let exists = creature_exists(row.creature_id);
            proof {
                lemma_predicate_answer(creature_exists, row.creature_id, exists);
            }
            let verdict = if !exists {
                Some(CreatureOnKillReputationSkipReasonLikeCpp::MissingCreatureTemplate)
            } else if row.entry.rep_faction_1 != 0 && faction_store.get(row.entry.rep_faction_1).is_none() {
                Some(CreatureOnKillReputationSkipReasonLikeCpp::MissingFaction1 { faction_id: row.entry.rep_faction_1 })
            } else if row.entry.rep_faction_2 != 0 && faction_store.get(row.entry.rep_faction_2).is_none() {
                Some(CreatureOnKillReputationSkipReasonLikeCpp::MissingFaction2 { faction_id: row.entry.rep_faction_2 })
            } else {
                None
            };
            match verdict {
                Some(reason) => {
                    skipped.push(
                        SkippedCreatureOnKillReputationRowLikeCpp { creature_id: row.creature_id, entry: row.entry, reason },
                    );
                },
                None => {
                    entries_by_creature_id.insert(row.creature_id, row.entry);
                    loaded = loaded + 1;
                },
            }
        }
        proof {
            assert(all.take(all.len() as int) =~= all);
        }
        (
            CreatureOnKillReputationStoreLikeCpp { entries_by_creature_id },
            CreatureOnKillReputationLoadReportLikeCpp { loaded, skipped },
        )
    }

    /// The kill award of a creature.
    pub fn get(&self, creature_id: u32) -> (r: Option<&CreatureOnKillReputationEntryLikeCpp>)
        ensures
            r matches Some(e) ==> self.entries_map().contains_key(creature_id) && *e
                == self.entries_map()[creature_id],
            r is None ==> !self.entries_map().contains_key(creature_id),
    {
        self.entries_by_creature_id.get(&creature_id)
    }

    /// Number of creatures with a kill award.
    pub fn len(&self) -> (n: usize)
        ensures
            n == self.entries_map().len(),
    {
        self.entries_by_creature_id.len()
    }

    /// Whether no creature has a kill award.
    pub fn is_empty(&self) -> (b: bool)
        ensures
            b == (self.entries_map().len() == 0),
    {
        self.entries_by_creature_id.len() == 0
    }
}

/// Distinct ranks have distinct numbers, and every number is below the rank
/// count; so a rank read back from its number is the rank itself.
pub proof fn lemma_rank_numbers_distinct(a: ReputationRankLikeCpp, b: ReputationRankLikeCpp)
    ensures
        rank_number(a) < REPUTATION_RANK_COUNT,
        rank_number(a) == rank_number(b) ==> a == b,
{
}

/// Every reward rate that loading keeps belongs to an existing faction and
/// has no rate below zero.
pub proof fn lemma_kept_rates_are_valid(
    rows: Seq<ReputationRewardRateRowLikeCpp>,
    factions: Map<u32, FactionEntry>,
    id: u32,
)
    requires
        rates_kept(rows, factions).contains_key(id),
    ensures
        factions.contains_key(id),
        negative_rate_reason(rates_kept(rows, factions)[id]) is None,
    decreases rows.len(),
{
    if rows.len() > 0 {
        let last = rows.last();
        if !(rate_row_verdict(last, factions) is None && last.faction_id == id) {
            lemma_kept_rates_are_valid(rows.drop_last(), factions, id);
        }
    }
}

/// Every spillover template that loading keeps has an existing source
/// faction with a parent, and sound slots.
pub proof fn lemma_kept_spillovers_are_valid(
    rows: Seq<RepSpilloverTemplateRowLikeCpp>,
    factions: Map<u32, FactionEntry>,
    id: u32,
)
    requires
        spillovers_kept(rows, factions).contains_key(id),
    ensures
        factions.contains_key(id),
        factions[id].parent_faction_id != 0,
        spillover_slot_fault(spillovers_kept(rows, factions)[id], factions, 0) is None,
    decreases rows.len(),
{
    if rows.len() > 0 {
        let last = rows.last();
        if !(spillover_row_verdict(last, factions) is None && last.faction_id == id) {
            lemma_kept_spillovers_are_valid(rows.drop_last(), factions, id);
        }
    }
}

/// Every creature kill award that loading keeps is for a creature with a
/// template and names only existing factions (or none).
pub proof fn lemma_kept_onkill_awards_are_valid<F: Fn(u32) -> bool>(
    rows: Seq<CreatureOnKillReputationRowLikeCpp>,
    creature_exists: F,
    factions: Map<u32, FactionEntry>,
    id: u32,
)
    requires
        onkill_kept(rows, creature_exists, factions).contains_key(id),
    ensures
        holds(creature_exists, id),
        ({
            let e = onkill_kept(rows, creature_exists, factions)[id];
            &&& e.rep_faction_1 == 0 || factions.contains_key(e.rep_faction_1)
            &&& e.rep_faction_2 == 0 || factions.contains_key(e.rep_faction_2)
        }),
    decreases rows.len(),
{
    if rows.len() > 0 {
        let last = rows.last();
        if !(onkill_row_verdict(last, creature_exists, factions) is None && last.creature_id == id) {
            lemma_kept_onkill_awards_are_valid(rows.drop_last(), creature_exists, factions, id);
        }
    }
}

/// A standing reaches rank `k` (numbered from 0, hated, to 7, exalted)
/// exactly when it is at least the rank's lowest standing: -6000, -3000, 0,
/// 3000, 9000, 21000, 42000 for ranks 1 to 7.
pub proof fn lemma_rank_thresholds(standing: int)
    ensures
        standing_rank_number(standing) <= 7,
        standing_rank_number(standing) >= 1 <==> standing >= -6_000,
        standing_rank_number(standing) >= 2 <==> standing >= -3_000,
        standing_rank_number(standing) >= 3 <==> standing >= 0,
        standing_rank_number(standing) >= 4 <==> standing >= 3_000,
        standing_rank_number(standing) >= 5 <==> standing >= 9_000,
        standing_rank_number(standing) >= 6 <==> standing >= 21_000,
        standing_rank_number(standing) >= 7 <==> standing >= 42_000,
{
}

} // verus!
