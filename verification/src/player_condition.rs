//! PlayerCondition.db2 rows, their store, and the comparison and logic
//! helpers of the condition evaluator.
use std::collections::HashMap;
use vstd::prelude::*;

use crate::db2_index::{build_index, index_by_key, Keyed};

verus! {

broadcast use vstd::std_specs::hash::group_hash_axioms;

/// A row of PlayerCondition.db2.
#[derive(Debug, Clone, PartialEq, Eq)]
pub struct PlayerConditionEntry {
    pub race_mask: i64,
    pub id: u32,
    pub min_level: u16,
    pub max_level: u16,
    pub class_mask: i32,
    pub skill_logic: u32,
    pub language_id: u8,
    pub min_language: u8,
    pub max_language: i32,
    pub max_faction_id: u16,
    pub max_reputation: u8,
    pub reputation_logic: u32,
    pub current_pvp_faction: i8,
    pub pvp_medal: u8,
    pub prev_quest_logic: u32,
    pub curr_quest_logic: u32,
    pub current_completed_quest_logic: u32,
    pub spell_logic: u32,
    pub item_logic: u32,
    pub item_flags: u8,
    pub aura_spell_logic: u32,
    pub world_state_expression_id: u16,
    pub weather_id: u8,
    pub party_status: u8,
    pub lifetime_max_pvp_rank: u8,
    pub achievement_logic: u32,
    pub gender: i8,
    pub native_gender: i8,
    pub area_logic: u32,
    pub lfg_logic: u32,
    pub currency_logic: u32,
    pub quest_kill_id: u32,
    pub quest_kill_logic: u32,
    pub min_expansion_level: i8,
    pub max_expansion_level: i8,
    pub min_avg_item_level: i32,
    pub max_avg_item_level: i32,
    pub min_avg_equipped_item_level: u16,
    pub max_avg_equipped_item_level: u16,
    pub phase_use_flags: u8,
    pub phase_id: u16,
    pub phase_group_id: u32,
    pub flags: u8,
    pub chr_specialization_index: i8,
    pub chr_specialization_role: i8,
    pub modifier_tree_id: u32,
    pub power_type: i8,
    pub power_type_comp: u8,
    pub power_type_value: u8,
    pub weapon_subclass_mask: i32,
    pub max_guild_level: u8,
    pub min_guild_level: u8,
    pub max_expansion_tier: i8,
    pub min_expansion_tier: i8,
    pub min_pvp_rank: u8,
    pub max_pvp_rank: u8,
    pub skill_id: [u16; 4],
    pub min_skill: [u16; 4],
    pub max_skill: [u16; 4],
    pub min_faction_id: [u32; 3],
    pub min_reputation: [u8; 3],
    pub prev_quest_id: [u32; 4],
    pub curr_quest_id: [u32; 4],
    pub current_completed_quest_id: [u32; 4],
    pub spell_id: [i32; 4],
    pub item_id: [i32; 4],
    pub item_count: [u32; 4],
    pub explored: [u16; 2],
    pub time: [u32; 2],
    pub aura_spell_id: [i32; 4],
    pub aura_stacks: [u8; 4],
    pub achievement: [u16; 4],
    pub area_id: [u16; 4],
    pub lfg_status: [u8; 4],
    pub lfg_compare: [u8; 4],
    pub lfg_value: [u32; 4],
    pub currency_id: [u32; 4],
    pub currency_count: [u32; 4],
    pub quest_kill_monster: [u32; 6],
    pub movement_flags: [i32; 2],
}

impl Keyed for PlayerConditionEntry {
    open spec fn spec_key(&self) -> u32 {
        self.id
    }

    fn key(&self) -> (k: u32) {
        self.id
    }
}

impl Default for PlayerConditionEntry {
    /// The neutral condition: every requirement unset, the signed
    /// "any" markers at `-1`.
    fn default() -> (r: Self)
        ensures
            r.race_mask == 0,
            r.id == 0,
            r.min_level == 0,
            r.max_level == 0,
            r.class_mask == 0,
            r.skill_logic == 0,
            r.language_id == 0,
            r.min_language == 0,
            r.max_language == 0,
            r.max_faction_id == 0,
            r.max_reputation == 0,
            r.reputation_logic == 0,
            r.current_pvp_faction == 0,
            r.pvp_medal == 0,
            r.prev_quest_logic == 0,
            r.curr_quest_logic == 0,
            r.current_completed_quest_logic == 0,
            r.spell_logic == 0,
            r.item_logic == 0,
            r.item_flags == 0,
            r.aura_spell_logic == 0,
            r.world_state_expression_id == 0,
            r.weather_id == 0,
            r.party_status == 0,
            r.lifetime_max_pvp_rank == 0,
            r.achievement_logic == 0,
            r.gender == -1,
            r.native_gender == -1,
            r.area_logic == 0,
            r.lfg_logic == 0,
            r.currency_logic == 0,
            r.quest_kill_id == 0,
            r.quest_kill_logic == 0,
            r.min_expansion_level == -1,
            r.max_expansion_level == -1,
            r.min_avg_item_level == 0,
            r.max_avg_item_level == 0,
            r.min_avg_equipped_item_level == 0,
            r.max_avg_equipped_item_level == 0,
            r.phase_use_flags == 0,
            r.phase_id == 0,
            r.phase_group_id == 0,
            r.flags == 0,
            r.chr_specialization_index == -1,
            r.chr_specialization_role == -1,
            r.modifier_tree_id == 0,
            r.power_type == -1,
            r.power_type_comp == 0,
            r.power_type_value == 0,
            r.weapon_subclass_mask == 0,
            r.max_guild_level == 0,
            r.min_guild_level == 0,
            r.max_expansion_tier == -1,
            r.min_expansion_tier == -1,
            r.min_pvp_rank == 0,
            r.max_pvp_rank == 0,
            forall|i: int| 0 <= i < 4 ==> r.skill_id[i] == 0,
            forall|i: int| 0 <= i < 4 ==> r.min_skill[i] == 0,
            forall|i: int| 0 <= i < 4 ==> r.max_skill[i] == 0,
            forall|i: int| 0 <= i < 3 ==> r.min_faction_id[i] == 0,
            forall|i: int| 0 <= i < 3 ==> r.min_reputation[i] == 0,
            forall|i: int| 0 <= i < 4 ==> r.prev_quest_id[i] == 0,
            forall|i: int| 0 <= i < 4 ==> r.curr_quest_id[i] == 0,
            forall|i: int| 0 <= i < 4 ==> r.current_completed_quest_id[i] == 0,
            forall|i: int| 0 <= i < 4 ==> r.spell_id[i] == 0,
            forall|i: int| 0 <= i < 4 ==> r.item_id[i] == 0,
            forall|i: int| 0 <= i < 4 ==> r.item_count[i] == 0,
            forall|i: int| 0 <= i < 2 ==> r.explored[i] == 0,
            forall|i: int| 0 <= i < 2 ==> r.time[i] == 0,
            forall|i: int| 0 <= i < 4 ==> r.aura_spell_id[i] == 0,
            forall|i: int| 0 <= i < 4 ==> r.aura_stacks[i] == 0,
            forall|i: int| 0 <= i < 4 ==> r.achievement[i] == 0,
            forall|i: int| 0 <= i < 4 ==> r.area_id[i] == 0,
            forall|i: int| 0 <= i < 4 ==> r.lfg_status[i] == 0,
            forall|i: int| 0 <= i < 4 ==> r.lfg_compare[i] == 0,
            forall|i: int| 0 <= i < 4 ==> r.lfg_value[i] == 0,
            forall|i: int| 0 <= i < 4 ==> r.currency_id[i] == 0,
            forall|i: int| 0 <= i < 4 ==> r.currency_count[i] == 0,
            forall|i: int| 0 <= i < 6 ==> r.quest_kill_monster[i] == 0,
            forall|i: int| 0 <= i < 2 ==> r.movement_flags[i] == 0,
    {
        PlayerConditionEntry {
            race_mask: 0,
            id: 0,
            min_level: 0,
            max_level: 0,
            class_mask: 0,
            skill_logic: 0,
            language_id: 0,
            min_language: 0,
            max_language: 0,
            max_faction_id: 0,
            max_reputation: 0,
            reputation_logic: 0,
            current_pvp_faction: 0,
            pvp_medal: 0,
            prev_quest_logic: 0,
            curr_quest_logic: 0,
            current_completed_quest_logic: 0,
            spell_logic: 0,
            item_logic: 0,
            item_flags: 0,
            aura_spell_logic: 0,
            world_state_expression_id: 0,
            weather_id: 0,
            party_status: 0,
            lifetime_max_pvp_rank: 0,
            achievement_logic: 0,
            gender: -1,
            native_gender: -1,
            area_logic: 0,
            lfg_logic: 0,
            currency_logic: 0,
            quest_kill_id: 0,
            quest_kill_logic: 0,
            min_expansion_level: -1,
            max_expansion_level: -1,
            min_avg_item_level: 0,
            max_avg_item_level: 0,
            min_avg_equipped_item_level: 0,
            max_avg_equipped_item_level: 0,
            phase_use_flags: 0,
            phase_id: 0,
            phase_group_id: 0,
            flags: 0,
            chr_specialization_index: -1,
            chr_specialization_role: -1,
            modifier_tree_id: 0,
            power_type: -1,
            power_type_comp: 0,
            power_type_value: 0,
            weapon_subclass_mask: 0,
            max_guild_level: 0,
            min_guild_level: 0,
            max_expansion_tier: -1,
            min_expansion_tier: -1,
            min_pvp_rank: 0,
            max_pvp_rank: 0,
            skill_id: [0; 4],
            min_skill: [0; 4],
            max_skill: [0; 4],
            min_faction_id: [0; 3],
            min_reputation: [0; 3],
            prev_quest_id: [0; 4],
            curr_quest_id: [0; 4],
            current_completed_quest_id: [0; 4],
            spell_id: [0; 4],
            item_id: [0; 4],
            item_count: [0; 4],
            explored: [0; 2],
            time: [0; 2],
            aura_spell_id: [0; 4],
            aura_stacks: [0; 4],
            achievement: [0; 4],
            area_id: [0; 4],
            lfg_status: [0; 4],
            lfg_compare: [0; 4],
            lfg_value: [0; 4],
            currency_id: [0; 4],
            currency_count: [0; 4],
            quest_kill_monster: [0; 6],
            movement_flags: [0; 2],
        }
    }
}
/// Store of PlayerCondition.db2 rows indexed by condition id.
pub struct PlayerConditionStore {
    entries: HashMap<u32, PlayerConditionEntry>,
}

impl View for PlayerConditionStore {
    type V = Map<u32, PlayerConditionEntry>;

    closed spec fn view(&self) -> Map<u32, PlayerConditionEntry> {
        self.entries@
    }
}

impl PlayerConditionStore {
    /// Builds the store; a later row replaces an earlier one with the same id.
    pub fn from_entries(entries: Vec<PlayerConditionEntry>) -> (s: Self)
        ensures
            s@ == index_by_key(entries@),
    {
        PlayerConditionStore { entries: build_index(entries) }
    }

    /// Builds the store from the rows of PlayerCondition.db2, in file order.
    pub fn load(rows: Vec<PlayerConditionEntry>) -> (s: Self)
        ensures
            s@ == index_by_key(rows@),
    {
        Self::from_entries(rows)
    }

    pub fn get(&self, id: u32) -> (r: Option<&PlayerConditionEntry>)
        ensures
            r == (if self@.contains_key(id) {
                Some(&self@[id])
            } else {
                None
            }),
    {
        self.entries.get(&id)
    }

    pub fn contains(&self, id: u32) -> (b: bool)
        ensures
            b == self@.contains_key(id),
    {
        self.entries.contains_key(&id)
    }

    pub fn len(&self) -> (n: usize)
        ensures
            n == self@.len(),
    {
        self.entries.len()
    }

    pub fn is_empty(&self) -> (b: bool)
        ensures
            b == self@.is_empty(),
    {
        self.entries.is_empty()
    }
}

#[derive(Debug, Clone, Copy, PartialEq, Eq, Structural)]
pub enum PlayerConditionPartyStatusLikeCpp {
    Solo,
    InGroup,
    InParty,
    InRaid,
}

#[derive(Debug, Clone, Copy, PartialEq, Eq)]
pub struct PlayerConditionSkillLikeCpp {
    pub id: u16,
    pub value: u16,
}

#[derive(Debug, Clone, Copy, PartialEq, Eq)]
pub struct PlayerConditionReputationLikeCpp {
    pub faction_id: u32,
    pub rank: u8,
}

#[derive(Debug, Clone, Copy, PartialEq, Eq)]
pub struct PlayerConditionCountLikeCpp {
    pub id: u32,
    pub count: u32,
}

#[derive(Debug, Clone, Copy, PartialEq, Eq)]
pub struct PlayerConditionAuraLikeCpp {
    pub spell_id: u32,
    pub stacks: u8,
}

#[derive(Debug, Clone, Copy, PartialEq, Eq)]
pub struct PlayerConditionQuestKillLikeCpp {
    pub monster_id: u32,
    pub done: bool,
}

/// The comparison that a comparison code names: 1 `==`, 2 `!=`, 3 `>`,
/// 4 `>=`, 5 `<`, 6 `<=`; any other code never holds.
pub open spec fn spec_condition_compare(comparison_type: i32, value1: i32, value2: i32) -> bool {
    if comparison_type == 1 {
        value1 == value2
    } else if comparison_type == 2 {
        value1 != value2
    } else if comparison_type == 3 {
        value1 > value2
    } else if comparison_type == 4 {
        value1 >= value2
    } else if comparison_type == 5 {
        value1 < value2
    } else if comparison_type == 6 {
        value1 <= value2
    } else {
        false
    }
}

pub fn player_condition_compare_like_cpp(comparison_type: i32, value1: i32, value2: i32) -> (r: bool)
    ensures
        r == spec_condition_compare(comparison_type, value1, value2),
{
    match comparison_type {
        1 => value1 == value2,
        2 => value1 != value2,
        3 => value1 > value2,
        4 => value1 >= value2,
        5 => value1 < value2,
        6 => value1 <= value2,
        _ => false,
    }
}

/// Result `i` after the inversion bits of `logic` (bit `16 + i` inverts
/// result `i`).
pub open spec fn logic_operand(logic: u32, results: Seq<bool>, i: int) -> bool {
    if (logic >> ((16 + i) as u32)) & 1u32 != 0 {
        !results[i]
    } else {
        results[i]
    }
}

/// The combined value of the first `n` operands: operand 0 starts, and
/// operand `i` is joined by the two bits `2 * (i - 1)` of `logic`
/// (1 = and, 2 = or, anything else ignores the operand).
pub open spec fn logic_combined(logic: u32, results: Seq<bool>, n: int) -> bool
    decreases n,
{
    if n <= 1 {
        logic_operand(logic, results, 0)
    } else {
        let prev = logic_combined(logic, results, n - 1);
        let op = (logic >> ((2 * (n - 2)) as u32)) & 3u32;
        let v = logic_operand(logic, results, n - 1);
        if op == 1 {
            prev && v
        } else if op == 2 {
            prev || v
        } else {
            prev
        }
    }
}

/// Combines condition results under a logic word: inversion bits first,
/// then left-to-right and/or joins.
pub fn player_condition_logic_like_cpp<const N: usize>(logic: u32, results: [bool; N]) -> (r: bool)
    requires
        1 <= N < 16,
    ensures
        r == logic_combined(logic, results@, N as int),
{
    let mut inverted: Vec<bool> = Vec::new();
    let mut i: usize = 0;
    while i < N
        invariant
            0 <= i <= N,
            N < 16,
            results@.len() == N,
            inverted@.len() == i,
            forall|j: int| 0 <= j < i ==> inverted@[j] == logic_operand(logic, results@, j),
        decreases N - i,
    {
        let shift: u32 = 16 + i as u32;
        let b = if (logic >> shift) & 1 != 0 {
            !results[i]
        } else {
            results[i]
        };
        inverted.push(b);
        i = i + 1;
    }
    let mut result = inverted[0];
    let mut k: usize = 1;
    while k < N
        invariant
            1 <= k <= N,
            N < 16,
            results@.len() == N,
            inverted@.len() == N,
            forall|j: int| 0 <= j < N ==> inverted@[j] == logic_operand(logic, results@, j),
            result == logic_combined(logic, results@, k as int),
        decreases N - k,
    {
        let shift: u32 = 2 * (k as u32 - 1);
        let op = (logic >> shift) & 3;
        if op == 1 {
            result = result && inverted[k];
        } else if op == 2 {
            result = result || inverted[k];
        }
        k = k + 1;
    }
    result
}

/// The specialization entry of the player's primary specialization: the
/// fields a condition reads.
#[derive(Debug, Clone, Copy, PartialEq, Eq)]
pub struct PlayerConditionSpecializationLikeCpp {
    pub order_index: i8,
    pub role: i8,
}

/// What a player condition is checked against: the player's state.
///
/// The average item levels are given rounded down, and the world state
/// expressions as the ids of those that exist and hold for the player.
#[derive(Debug, Clone, Copy)]
pub struct PlayerConditionContextLikeCpp<'a> {
    pub race: u8,
    pub class_mask: u32,
    pub gender: u8,
    pub native_gender: u8,
    pub power_type: i8,
    pub power: i32,
    pub max_power: i32,
    pub primary_specialization_id: Option<u32>,
    pub skills: &'a [PlayerConditionSkillLikeCpp],
    pub language_skill: i32,
    pub reputations: &'a [PlayerConditionReputationLikeCpp],
    pub current_pvp_faction: i8,
    pub pvp_medals_mask: u32,
    pub lifetime_max_pvp_rank: u8,
    pub movement_flags: [i32; 2],
    pub mainhand_weapon_subclass: Option<u8>,
    pub party_status: PlayerConditionPartyStatusLikeCpp,
    pub completed_quests: &'a [u32],
    pub current_quests: &'a [u32],
    pub complete_quests: &'a [u32],
    pub spells: &'a [u32],
    pub items: &'a [PlayerConditionCountLikeCpp],
    pub currencies: &'a [PlayerConditionCountLikeCpp],
    pub explored_area_ids: &'a [u16],
    pub auras: &'a [PlayerConditionAuraLikeCpp],
    pub weather_id: u8,
    pub achievements: &'a [u16],
    pub lfg_values: &'a [PlayerConditionCountLikeCpp],
    pub area_id: u32,
    pub parent_area_ids: &'a [u32],
    pub expansion: i8,
    pub server_expansion: i8,
    pub is_game_master: bool,
    pub phase_satisfied: bool,
    pub quest_kill_id: u32,
    pub quest_kills: &'a [PlayerConditionQuestKillLikeCpp],
    pub avg_item_level: i32,
    pub avg_equipped_item_level: u32,
    pub modifier_tree_ids: &'a [u32],
    pub primary_specialization: Option<PlayerConditionSpecializationLikeCpp>,
    pub met_world_state_expressions: &'a [u16],
}

impl Default for PlayerConditionContextLikeCpp<'_> {
    /// A solo player with nothing: no power type, no specialization, no
    /// skills, quests, spells, items or auras, phases satisfied.
    fn default() -> (r: Self)
        ensures
            r.race == 0 && r.class_mask == 0 && r.gender == 0 && r.native_gender == 0,
            r.power_type == -1 && r.power == 0 && r.max_power == 0,
            r.primary_specialization_id is None && r.primary_specialization is None,
            r.skills@.len() == 0 && r.reputations@.len() == 0 && r.language_skill == 0,
            r.current_pvp_faction == 0 && r.pvp_medals_mask == 0 && r.lifetime_max_pvp_rank == 0,
            r.movement_flags@ == seq![0i32, 0i32] && r.mainhand_weapon_subclass is None,
            r.party_status == PlayerConditionPartyStatusLikeCpp::Solo,
            r.completed_quests@.len() == 0 && r.current_quests@.len() == 0 && r.complete_quests@.len() == 0,
            r.spells@.len() == 0 && r.items@.len() == 0 && r.currencies@.len() == 0,
            r.explored_area_ids@.len() == 0 && r.auras@.len() == 0 && r.weather_id == 0,
            r.achievements@.len() == 0 && r.lfg_values@.len() == 0 && r.area_id == 0,
            r.parent_area_ids@.len() == 0 && r.expansion == 0 && r.server_expansion == 0,
            !r.is_game_master && r.phase_satisfied && r.quest_kill_id == 0 && r.quest_kills@.len() == 0,
            r.avg_item_level == 0 && r.avg_equipped_item_level == 0 && r.modifier_tree_ids@.len() == 0,
            r.met_world_state_expressions@.len() == 0,
    {
        PlayerConditionContextLikeCpp {
            race: 0,
            class_mask: 0,
            gender: 0,
            native_gender: 0,
            power_type: -1,
            power: 0,
            max_power: 0,
            primary_specialization_id: None,
            skills: &[],
            language_skill: 0,
            reputations: &[],
            current_pvp_faction: 0,
            pvp_medals_mask: 0,
            lifetime_max_pvp_rank: 0,
            movement_flags: [0, 0],
            mainhand_weapon_subclass: None,
            party_status: PlayerConditionPartyStatusLikeCpp::Solo,
            completed_quests: &[],
            current_quests: &[],
            complete_quests: &[],
            spells: &[],
            items: &[],
            currencies: &[],
            explored_area_ids: &[],
            auras: &[],
            weather_id: 0,
            achievements: &[],
            lfg_values: &[],
            area_id: 0,
            parent_area_ids: &[],
            expansion: 0,
            server_expansion: 0,
            is_game_master: false,
            phase_satisfied: true,
            quest_kill_id: 0,
            quest_kills: &[],
            avg_item_level: 0,
            avg_equipped_item_level: 0,
            modifier_tree_ids: &[],
            primary_specialization: None,
            met_world_state_expressions: &[],
        }
    }
}

/// The value of the first skill with id `id`, 0 where the player has none.
pub open spec fn skill_value_of(s: Seq<PlayerConditionSkillLikeCpp>, id: u16) -> u16
    decreases s.len(),
{
    if s.len() == 0 {
        0
    } else if s[0].id == id {
        s[0].value
    } else {
        skill_value_of(s.drop_first(), id)
    }
}

/// The rank of the first reputation with faction `id`, 0 where there is none.
pub open spec fn reputation_rank_of(s: Seq<PlayerConditionReputationLikeCpp>, id: u32) -> u8
    decreases s.len(),
{
    if s.len() == 0 {
        0
    } else if s[0].faction_id == id {
        s[0].rank
    } else {
        reputation_rank_of(s.drop_first(), id)
    }
}

/// The count of the first value with id `id`, 0 where there is none.
pub open spec fn count_of(s: Seq<PlayerConditionCountLikeCpp>, id: u32) -> u32
    decreases s.len(),
{
    if s.len() == 0 {
        0
    } else if s[0].id == id {
        s[0].count
    } else {
        count_of(s.drop_first(), id)
    }
}

/// The first aura of spell `id`, if the player has one.
pub open spec fn aura_of(s: Seq<PlayerConditionAuraLikeCpp>, id: u32) -> Option<PlayerConditionAuraLikeCpp>
    decreases s.len(),
{
    if s.len() == 0 {
        None
    } else if s[0].spell_id == id {
        Some(s[0])
    } else {
        aura_of(s.drop_first(), id)
    }
}

/// Whether the first kill entry of monster `id` is done (false where there is
/// none).
pub open spec fn kill_done(s: Seq<PlayerConditionQuestKillLikeCpp>, id: u32) -> bool
    decreases s.len(),
{
    if s.len() == 0 {
        false
    } else if s[0].monster_id == id {
        s[0].done
    } else {
        kill_done(s.drop_first(), id)
    }
}

fn skill_value(s: &[PlayerConditionSkillLikeCpp], id: u16) -> (v: u16)
    ensures
        v == skill_value_of(s@, id),
{
    let mut i: usize = 0;
    proof {
        assert(s@.subrange(0, s@.len() as int) =~= s@);
    }
    while i < s.len()
        invariant
            i <= s@.len(),
            skill_value_of(s@.subrange(i as int, s@.len() as int), id) == skill_value_of(s@, id),
        decreases s.len() - i,
    {
        assert(s@.subrange(i as int, s@.len() as int).drop_first() =~= s@.subrange(i + 1, s@.len() as int));
        if s[i].id == id {
            return s[i].value;
        }
        i = i + 1;
    }
    0
}

fn reputation_rank(s: &[PlayerConditionReputationLikeCpp], id: u32) -> (v: u8)
    ensures
        v == reputation_rank_of(s@, id),
{
    let mut i: usize = 0;
    proof {
        assert(s@.subrange(0, s@.len() as int) =~= s@);
    }
    while i < s.len()
        invariant
            i <= s@.len(),
            reputation_rank_of(s@.subrange(i as int, s@.len() as int), id) == reputation_rank_of(s@, id),
        decreases s.len() - i,
    {
        assert(s@.subrange(i as int, s@.len() as int).drop_first() =~= s@.subrange(i + 1, s@.len() as int));
        if s[i].faction_id == id {
            return s[i].rank;
        }
        i = i + 1;
    }
    0
}

fn count_for(s: &[PlayerConditionCountLikeCpp], id: u32) -> (v: u32)
    ensures
        v == count_of(s@, id),
{
    let mut i: usize = 0;
    proof {
        assert(s@.subrange(0, s@.len() as int) =~= s@);
    }
    while i < s.len()
        invariant
            i <= s@.len(),
            count_of(s@.subrange(i as int, s@.len() as int), id) == count_of(s@, id),
        decreases s.len() - i,
    {
        assert(s@.subrange(i as int, s@.len() as int).drop_first() =~= s@.subrange(i + 1, s@.len() as int));
        if s[i].id == id {
            return s[i].count;
        }
        i = i + 1;
    }
    0
}

fn find_aura(s: &[PlayerConditionAuraLikeCpp], id: u32) -> (v: Option<PlayerConditionAuraLikeCpp>)
    ensures
        v == aura_of(s@, id),
{
    let mut i: usize = 0;
    proof {
        assert(s@.subrange(0, s@.len() as int) =~= s@);
    }
    while i < s.len()
        invariant
            i <= s@.len(),
            aura_of(s@.subrange(i as int, s@.len() as int), id) == aura_of(s@, id),
        decreases s.len() - i,
    {
        assert(s@.subrange(i as int, s@.len() as int).drop_first() =~= s@.subrange(i + 1, s@.len() as int));
        if s[i].spell_id == id {
            return Some(s[i]);
        }
        i = i + 1;
    }
    None
}

fn find_kill_done(s: &[PlayerConditionQuestKillLikeCpp], id: u32) -> (v: bool)
    ensures
        v == kill_done(s@, id),
{
    let mut i: usize = 0;
    proof {
        assert(s@.subrange(0, s@.len() as int) =~= s@);
    }
    while i < s.len()
        invariant
            i <= s@.len(),
            kill_done(s@.subrange(i as int, s@.len() as int), id) == kill_done(s@, id),
        decreases s.len() - i,
    {
        assert(s@.subrange(i as int, s@.len() as int).drop_first() =~= s@.subrange(i + 1, s@.len() as int));
        if s[i].monster_id == id {
            return s[i].done;
        }
        i = i + 1;
    }
    false
}

fn contains_u32(s: &[u32], x: u32) -> (b: bool)
    ensures
        b == s@.contains(x),
{
    let mut i: usize = 0;
    while i < s.len()
        invariant
            i <= s@.len(),
            forall|j: int| 0 <= j < i ==> s@[j] != x,
        decreases s.len() - i,
    {
        if s[i] == x {
            assert(s@[i as int] == x);
            return true;
        }
        i = i + 1;
    }
    false
}

fn contains_u16(s: &[u16], x: u16) -> (b: bool)
    ensures
        b == s@.contains(x),
{
    let mut i: usize = 0;
    while i < s.len()
        invariant
            i <= s@.len(),
            forall|j: int| 0 <= j < i ==> s@[j] != x,
        decreases s.len() - i,
    {
        if s[i] == x {
            assert(s@[i as int] == x);
            return true;
        }
        i = i + 1;
    }
    false
}

/// Four results joined under `logic`.
pub open spec fn logic4(logic: u32, r0: bool, r1: bool, r2: bool, r3: bool) -> bool {
    logic_combined(logic, seq![r0, r1, r2, r3], 4)
}

/// Each of four ids that is set names something in `owned`, as `logic`
/// joins them; nothing is asked when the first id is unset.
pub open spec fn id_array4_met(ids: Seq<u32>, logic: u32, owned: Seq<u32>) -> bool {
    ids[0] == 0 || logic4(
        logic,
        ids[0] == 0 || owned.contains(ids[0]),
        ids[1] == 0 || owned.contains(ids[1]),
        ids[2] == 0 || owned.contains(ids[2]),
        ids[3] == 0 || owned.contains(ids[3]),
    )
}

/// Like [`id_array4_met`] for signed ids; a negative id is never owned.
pub open spec fn signed_id_array4_met(ids: Seq<i32>, logic: u32, owned: Seq<u32>) -> bool {
    ids[0] == 0 || logic4(
        logic,
        ids[0] == 0 || (ids[0] >= 0 && owned.contains(ids[0] as u32)),
        ids[1] == 0 || (ids[1] >= 0 && owned.contains(ids[1] as u32)),
        ids[2] == 0 || (ids[2] >= 0 && owned.contains(ids[2] as u32)),
        ids[3] == 0 || (ids[3] >= 0 && owned.contains(ids[3] as u32)),
    )
}

/// Like [`id_array4_met`] for 16-bit ids.
pub open spec fn u16_array4_met(ids: Seq<u16>, logic: u32, owned: Seq<u16>) -> bool {
    ids[0] == 0 || logic4(
        logic,
        ids[0] == 0 || owned.contains(ids[0]),
        ids[1] == 0 || owned.contains(ids[1]),
        ids[2] == 0 || owned.contains(ids[2]),
        ids[3] == 0 || owned.contains(ids[3]),
    )
}

/// One count slot: the player owns at least `count` of the item `id`.
pub open spec fn count_slot(id: i32, count: u32, owned: Seq<PlayerConditionCountLikeCpp>) -> bool {
    id == 0 || (id >= 0 && count_of(owned, id as u32) >= count)
}

/// Each set item slot is owned in its count, as `logic` joins them.
pub open spec fn count_array4_met(ids: Seq<i32>, counts: Seq<u32>, logic: u32, owned: Seq<PlayerConditionCountLikeCpp>) -> bool {
    ids[0] == 0 || logic4(
        logic,
        count_slot(ids[0], counts[0], owned),
        count_slot(ids[1], counts[1], owned),
        count_slot(ids[2], counts[2], owned),
        count_slot(ids[3], counts[3], owned),
    )
}

/// One skill slot: the player's skill value is set and strictly between the
/// slot's bounds.
pub open spec fn skill_slot(c: PlayerConditionEntry, x: PlayerConditionContextLikeCpp, i: int) -> bool {
    let id = c.skill_id[i];
    let v = skill_value_of(x.skills@, id);
    id == 0 || (v != 0 && v > c.min_skill[i] && v < c.max_skill[i])
}

/// The skill requirement: none when no skill is set.
pub open spec fn skills_met(c: PlayerConditionEntry, x: PlayerConditionContextLikeCpp) -> bool {
    !(c.skill_id[0] != 0 || c.skill_id[1] != 0 || c.skill_id[2] != 0 || c.skill_id[3] != 0) || logic4(
        c.skill_logic,
        skill_slot(c, x, 0),
        skill_slot(c, x, 1),
        skill_slot(c, x, 2),
        skill_slot(c, x, 3),
    )
}

/// One minimum reputation slot.
pub open spec fn min_reputation_slot(c: PlayerConditionEntry, x: PlayerConditionContextLikeCpp, i: int) -> bool {
    c.min_faction_id[i] == 0 || reputation_rank_of(x.reputations@, c.min_faction_id[i]) >= c.min_reputation[i]
}

/// The maximum reputation slot.
pub open spec fn max_reputation_slot(c: PlayerConditionEntry, x: PlayerConditionContextLikeCpp) -> bool {
    reputation_rank_of(x.reputations@, c.max_faction_id as u32) <= c.max_reputation
}

/// The reputation requirement: the minimum ranks and the maximum rank, joined
/// by the reputation logic; only the maximum where no minimum is set; none
/// where nothing is set.
pub open spec fn reputation_met(c: PlayerConditionEntry, x: PlayerConditionContextLikeCpp) -> bool {
    let no_min = c.min_faction_id[0] == 0 && c.min_faction_id[1] == 0 && c.min_faction_id[2] == 0;
    if no_min && c.max_faction_id == 0 {
        true
    } else if no_min {
        max_reputation_slot(c, x)
    } else {
        logic4(
            c.reputation_logic,
            min_reputation_slot(c, x, 0),
            min_reputation_slot(c, x, 1),
            min_reputation_slot(c, x, 2),
            c.max_faction_id == 0 || max_reputation_slot(c, x),
        )
    }
}

/// The party requirement: 1 solo, 2 in a group, 3 in a party, 4 in a raid,
/// 5 not in a raid; anything else asks nothing.
pub open spec fn party_met(required: u8, current: PlayerConditionPartyStatusLikeCpp) -> bool {
    if required == 1 {
        current == PlayerConditionPartyStatusLikeCpp::Solo
    } else if required == 2 {
        current != PlayerConditionPartyStatusLikeCpp::Solo
    } else if required == 3 {
        current == PlayerConditionPartyStatusLikeCpp::InParty
    } else if required == 4 {
        current == PlayerConditionPartyStatusLikeCpp::InRaid
    } else if required == 5 {
        current != PlayerConditionPartyStatusLikeCpp::InRaid
    } else {
        true
    }
}

/// One currency slot.
pub open spec fn currency_slot(c: PlayerConditionEntry, x: PlayerConditionContextLikeCpp, i: int) -> bool {
    c.currency_id[i] == 0 || count_of(x.currencies@, c.currency_id[i]) >= c.currency_count[i]
}

/// The currency requirement: none when the first currency is unset.
pub open spec fn currencies_met(c: PlayerConditionEntry, x: PlayerConditionContextLikeCpp) -> bool {
    c.currency_id[0] == 0 || logic4(
        c.currency_logic,
        currency_slot(c, x, 0),
        currency_slot(c, x, 1),
        currency_slot(c, x, 2),
        currency_slot(c, x, 3),
    )
}

/// Every set explored area has been explored.
pub open spec fn explored_met(c: PlayerConditionEntry, x: PlayerConditionContextLikeCpp) -> bool {
    (c.explored[0] == 0 || x.explored_area_ids@.contains(c.explored[0])) && (c.explored[1] == 0
        || x.explored_area_ids@.contains(c.explored[1]))
}

/// One aura slot: the player has the aura, with enough stacks where stacks
/// are asked.
pub open spec fn aura_slot(c: PlayerConditionEntry, x: PlayerConditionContextLikeCpp, i: int) -> bool {
    let id = c.aura_spell_id[i];
    id == 0 || (id >= 0 && match aura_of(x.auras@, id as u32) {
        Some(a) => c.aura_stacks[i] == 0 || a.stacks >= c.aura_stacks[i],
        None => false,
    })
}

/// The aura requirement: none when the first aura is unset.
pub open spec fn auras_met(c: PlayerConditionEntry, x: PlayerConditionContextLikeCpp) -> bool {
    c.aura_spell_id[0] == 0 || logic4(
        c.aura_spell_logic,
        aura_slot(c, x, 0),
        aura_slot(c, x, 1),
        aura_slot(c, x, 2),
        aura_slot(c, x, 3),
    )
}

/// One group-finder slot: the player's value for the status compares to the
/// slot's value as the slot's comparison asks.
pub open spec fn lfg_slot(c: PlayerConditionEntry, x: PlayerConditionContextLikeCpp, i: int) -> bool {
    c.lfg_status[i] == 0 || spec_condition_compare(
        c.lfg_compare[i] as i32,
        count_of(x.lfg_values@, c.lfg_status[i] as u32) as i32,
        c.lfg_value[i] as i32,
    )
}

/// The group-finder requirement: none when the first status is unset.
pub open spec fn lfg_met(c: PlayerConditionEntry, x: PlayerConditionContextLikeCpp) -> bool {
    c.lfg_status[0] == 0 || logic4(
        c.lfg_logic,
        lfg_slot(c, x, 0),
        lfg_slot(c, x, 1),
        lfg_slot(c, x, 2),
        lfg_slot(c, x, 3),
    )
}

/// One area slot: the player is in the area or one of its sub-areas.
pub open spec fn area_slot(c: PlayerConditionEntry, x: PlayerConditionContextLikeCpp, i: int) -> bool {
    c.area_id[i] == 0 || x.area_id == c.area_id[i] as u32 || x.parent_area_ids@.contains(c.area_id[i] as u32)
}

/// The area requirement: none when the first area is unset.
pub open spec fn area_met(c: PlayerConditionEntry, x: PlayerConditionContextLikeCpp) -> bool {
    c.area_id[0] == 0 || logic4(
        c.area_logic,
        area_slot(c, x, 0),
        area_slot(c, x, 1),
        area_slot(c, x, 2),
        area_slot(c, x, 3),
    )
}

/// One quest-kill slot: the kill of that monster is done.
pub open spec fn kill_slot(c: PlayerConditionEntry, x: PlayerConditionContextLikeCpp, i: int) -> bool {
    c.quest_kill_monster[i] == 0 || kill_done(x.quest_kills@, c.quest_kill_monster[i])
}

/// The quest-kill requirement: asked only while the player is on that kill
/// quest and some monster is set.
pub open spec fn quest_kills_met(c: PlayerConditionEntry, x: PlayerConditionContextLikeCpp) -> bool {
    let none_set = c.quest_kill_monster[0] == 0 && c.quest_kill_monster[1] == 0 && c.quest_kill_monster[2] == 0
        && c.quest_kill_monster[3] == 0 && c.quest_kill_monster[4] == 0 && c.quest_kill_monster[5] == 0;
    c.quest_kill_id == 0 || x.quest_kill_id != c.quest_kill_id || none_set || logic_combined(
        c.quest_kill_logic,
        seq![
            kill_slot(c, x, 0),
            kill_slot(c, x, 1),
            kill_slot(c, x, 2),
            kill_slot(c, x, 3),
            kill_slot(c, x, 4),
            kill_slot(c, x, 5),
        ],
        6,
    )
}

/// The identity requirements: race, class, genders, power and
/// specialization.
pub open spec fn identity_met(c: PlayerConditionEntry, x: PlayerConditionContextLikeCpp) -> bool {
    &&& c.race_mask == 0 || c.race_mask & (1i64 << (if x.race == 0 { 0u8 } else { (x.race - 1) as u8 })) != 0
    &&& c.class_mask == 0 || x.class_mask & (c.class_mask as u32) != 0
    &&& c.gender < 0 || x.gender == c.gender as u8
    &&& c.native_gender < 0 || x.native_gender == c.native_gender as u8
    &&& !(c.power_type != -1 && c.power_type_comp != 0) || (c.power_type == x.power_type
        && spec_condition_compare(
        c.power_type_comp as i32,
        x.power,
        if c.flags & 4 != 0 {
            x.max_power
        } else {
            c.power_type_value as i32
        },
    ))
    &&& !((c.chr_specialization_index >= 0 || c.chr_specialization_role >= 0)
        && x.primary_specialization_id is Some && x.primary_specialization is Some) || ({
        let sp = x.primary_specialization->0;
        (c.chr_specialization_index < 0 || sp.order_index == c.chr_specialization_index) && (
        c.chr_specialization_role < 0 || sp.role == c.chr_specialization_role)
    })
}

/// The requirements up to the reputation: identity, skills, language and
/// reputation.
pub open spec fn standing_met(c: PlayerConditionEntry, x: PlayerConditionContextLikeCpp) -> bool {
    &&& identity_met(c, x)
    &&& skills_met(c, x)
    &&& c.language_id == 0 || ((c.min_language == 0 || x.language_skill >= c.min_language as i32) && (
    c.max_language == 0 || x.language_skill <= c.max_language))
    &&& reputation_met(c, x)
}

/// The PvP requirements: PvP faction, medal and rank.
pub open spec fn pvp_met(c: PlayerConditionEntry, x: PlayerConditionContextLikeCpp) -> bool {
    &&& c.current_pvp_faction == 0 || c.current_pvp_faction - 1 == x.current_pvp_faction
    &&& c.pvp_medal == 0 || (1u32 << ((c.pvp_medal - 1) as u32)) & x.pvp_medals_mask != 0
    &&& c.lifetime_max_pvp_rank == 0 || x.lifetime_max_pvp_rank == c.lifetime_max_pvp_rank
}

/// The movement and weapon requirements.
pub open spec fn gear_met(c: PlayerConditionEntry, x: PlayerConditionContextLikeCpp) -> bool {
    &&& c.movement_flags[0] == 0 || x.movement_flags[0] & c.movement_flags[0] != 0
    &&& c.movement_flags[1] == 0 || x.movement_flags[1] & c.movement_flags[1] != 0
    &&& c.weapon_subclass_mask == 0 || (x.mainhand_weapon_subclass is Some && (1i32
        << x.mainhand_weapon_subclass->0) & c.weapon_subclass_mask != 0)
}

/// The progress requirements: party, quests, spells, items, currencies,
/// explored areas, auras, world state, weather, achievements, group finder
/// and area.
pub open spec fn progress_met(c: PlayerConditionEntry, x: PlayerConditionContextLikeCpp) -> bool {
    &&& party_met(c.party_status, x.party_status)
    &&& id_array4_met(c.prev_quest_id@, c.prev_quest_logic, x.completed_quests@)
    &&& id_array4_met(c.curr_quest_id@, c.curr_quest_logic, x.current_quests@)
    &&& id_array4_met(c.current_completed_quest_id@, c.current_completed_quest_logic, x.complete_quests@)
    &&& signed_id_array4_met(c.spell_id@, c.spell_logic, x.spells@)
    &&& count_array4_met(c.item_id@, c.item_count@, c.item_logic, x.items@)
    &&& currencies_met(c, x)
    &&& explored_met(c, x)
    &&& auras_met(c, x)
    &&& c.world_state_expression_id == 0 || x.met_world_state_expressions@.contains(c.world_state_expression_id)
    &&& c.weather_id == 0 || x.weather_id == c.weather_id
    &&& u16_array4_met(c.achievement@, c.achievement_logic, x.achievements@)
    &&& lfg_met(c, x)
    &&& area_met(c, x)
}

/// The expansion, phase, quest-kill, item level and modifier tree
/// requirements.
pub open spec fn world_met(c: PlayerConditionEntry, x: PlayerConditionContextLikeCpp) -> bool {
    &&& c.min_expansion_level == -1 || x.expansion >= c.min_expansion_level
    &&& c.max_expansion_level == -1 || x.expansion <= c.max_expansion_level
    &&& !(c.min_expansion_level != -1 && c.min_expansion_tier != -1 && !x.is_game_master && ((
    c.min_expansion_level == x.server_expansion && c.min_expansion_tier > 0) || c.min_expansion_level
        > x.server_expansion))
    &&& !((c.phase_id != 0 || c.phase_group_id != 0 || c.phase_use_flags != 0) && !x.phase_satisfied)
    &&& quest_kills_met(c, x)
    &&& c.min_avg_item_level == 0 || x.avg_item_level >= c.min_avg_item_level
    &&& c.max_avg_item_level == 0 || x.avg_item_level <= c.max_avg_item_level
    &&& c.min_avg_equipped_item_level == 0 || x.avg_equipped_item_level >= c.min_avg_equipped_item_level as u32
    &&& c.max_avg_equipped_item_level == 0 || x.avg_equipped_item_level <= c.max_avg_equipped_item_level as u32
    &&& c.modifier_tree_id == 0 || x.modifier_tree_ids@.contains(c.modifier_tree_id)
}

/// Whether the player meets the condition: every requirement that the
/// condition sets holds.
pub open spec fn meets_player_condition(c: PlayerConditionEntry, x: PlayerConditionContextLikeCpp) -> bool {
    standing_met(c, x) && pvp_met(c, x) && gear_met(c, x) && progress_met(c, x) && world_met(c, x)
}


/// The inputs on which the evaluator's shifts and subtraction stay in range
/// wherever it reaches them: the race bit, the PvP faction, the PvP medal bit
/// and the weapon subclass bit.
pub open spec fn condition_evaluable(c: PlayerConditionEntry, x: PlayerConditionContextLikeCpp) -> bool {
    &&& c.race_mask != 0 ==> x.race <= 64
    &&& standing_met(c, x) && c.current_pvp_faction != 0 ==> c.current_pvp_faction > -128
    &&& standing_met(c, x) && (c.current_pvp_faction == 0 || c.current_pvp_faction - 1
        == x.current_pvp_faction) && c.pvp_medal != 0 ==> c.pvp_medal <= 32
    &&& standing_met(c, x) && pvp_met(c, x) && (c.movement_flags[0] == 0 || x.movement_flags[0]
        & c.movement_flags[0] != 0) && (c.movement_flags[1] == 0 || x.movement_flags[1]
        & c.movement_flags[1] != 0) && c.weapon_subclass_mask != 0 && x.mainhand_weapon_subclass is Some
        ==> x.mainhand_weapon_subclass->0 < 32
}

fn logic4_of(logic: u32, r0: bool, r1: bool, r2: bool, r3: bool) -> (r: bool)
    ensures
        r == logic4(logic, r0, r1, r2, r3),
{
    let results = [r0, r1, r2, r3];
    assert(results@ =~= seq![r0, r1, r2, r3]);
    player_condition_logic_like_cpp(logic, results)
}

fn check_identity_like_cpp(condition: &PlayerConditionEntry, context: &PlayerConditionContextLikeCpp) -> (r: bool)
    requires
        condition.race_mask != 0 ==> context.race <= 64,
    ensures
        r == identity_met(*condition, *context),
{
    if condition.race_mask != 0 {
        let shift: u8 = if context.race == 0 { 0 } else { context.race - 1 };
        if condition.race_mask & (1i64 << shift) == 0 {
            return false;
        }
    }
    if condition.class_mask != 0 && (context.class_mask & condition.class_mask as u32) == 0 {
        return false;
    }
    if condition.gender >= 0 && context.gender != condition.gender as u8 {
        return false;
    }
    if condition.native_gender >= 0 && context.native_gender != condition.native_gender as u8 {
        return false;
    }
    if condition.power_type != -1 && condition.power_type_comp != 0 {
        let required: i32 = if (condition.flags & 4) != 0 {
            context.max_power
        } else {
            condition.power_type_value as i32
        };
        if condition.power_type != context.power_type || !player_condition_compare_like_cpp(
            condition.power_type_comp as i32,
            context.power,
            required,
        ) {
            return false;
        }
    }
    if condition.chr_specialization_index >= 0 || condition.chr_specialization_role >= 0 {
        if let (Some(_), Some(spec)) = (context.primary_specialization_id, context.primary_specialization) {
            if condition.chr_specialization_index >= 0 && spec.order_index
                != condition.chr_specialization_index {
                return false;
            }
            if condition.chr_specialization_role >= 0 && spec.role != condition.chr_specialization_role {
                return false;
            }
        }
    }
    true
}

fn check_skills_like_cpp(condition: &PlayerConditionEntry, context: &PlayerConditionContextLikeCpp) -> (r: bool)
    ensures
        r == skills_met(*condition, *context),
{
    let ids = condition.skill_id;
    if !(ids[0] != 0 || ids[1] != 0 || ids[2] != 0 || ids[3] != 0) {
        return true;
    }
    let mut results = [true; 4];
    let mut i: usize = 0;
    while i < 4
        invariant
            i <= 4,
            ids == condition.skill_id,
            results@.len() == 4,
            forall|j: int| i <= j < 4 ==> results@[j],
            forall|j: int| 0 <= j < i ==> results@[j] == skill_slot(*condition, *context, j),
        decreases 4 - i,
    {
        if ids[i] != 0 {
            let value = skill_value(context.skills, ids[i]);
            results[i] = value != 0 && value > condition.min_skill[i] && value < condition.max_skill[i];
        }
        i = i + 1;
    }
    assert(results@ =~= seq![
        skill_slot(*condition, *context, 0),
        skill_slot(*condition, *context, 1),
        skill_slot(*condition, *context, 2),
        skill_slot(*condition, *context, 3),
    ]);
    player_condition_logic_like_cpp(condition.skill_logic, results)
}

fn check_reputation_like_cpp(condition: &PlayerConditionEntry, context: &PlayerConditionContextLikeCpp) -> (r: bool)
    ensures
        r == reputation_met(*condition, *context),
{
    let no_min = condition.min_faction_id[0] == 0 && condition.min_faction_id[1] == 0
        && condition.min_faction_id[2] == 0;
    if no_min && condition.max_faction_id == 0 {
        return true;
    }
    let max_ok = reputation_rank(context.reputations, condition.max_faction_id as u32)
        <= condition.max_reputation;
    if no_min {
        return max_ok;
    }
    let mut mins = [true; 3];
    let mut i: usize = 0;
    while i < 3
        invariant
            i <= 3,
            mins@.len() == 3,
            forall|j: int| i <= j < 3 ==> mins@[j],
            forall|j: int| 0 <= j < i ==> mins@[j] == min_reputation_slot(*condition, *context, j),
        decreases 3 - i,
    {
        let id = condition.min_faction_id[i];
        if id != 0 {
            mins[i] = reputation_rank(context.reputations, id) >= condition.min_reputation[i];
        }
        i = i + 1;
    }
    logic4_of(condition.reputation_logic, mins[0], mins[1], mins[2], condition.max_faction_id == 0 || max_ok)
}

fn check_party_status_like_cpp(required: u8, current: PlayerConditionPartyStatusLikeCpp) -> (r: bool)
    ensures
        r == party_met(required, current),
{
    match required {
        1 => current == PlayerConditionPartyStatusLikeCpp::Solo,
        2 => current != PlayerConditionPartyStatusLikeCpp::Solo,
        3 => current == PlayerConditionPartyStatusLikeCpp::InParty,
        4 => current == PlayerConditionPartyStatusLikeCpp::InRaid,
        5 => current != PlayerConditionPartyStatusLikeCpp::InRaid,
        _ => true,
    }
}

fn check_id_array4_like_cpp(ids: [u32; 4], logic: u32, owned: &[u32]) -> (r: bool)
    ensures
        r == id_array4_met(ids@, logic, owned@),
{
    if ids[0] == 0 {
        return true;
    }
    let r0 = ids[0] == 0 || contains_u32(owned, ids[0]);
    let r1 = ids[1] == 0 || contains_u32(owned, ids[1]);
    let r2 = ids[2] == 0 || contains_u32(owned, ids[2]);
    let r3 = ids[3] == 0 || contains_u32(owned, ids[3]);
    logic4_of(logic, r0, r1, r2, r3)
}

fn signed_owned(id: i32, owned: &[u32]) -> (r: bool)
    ensures
        r == (id >= 0 && owned@.contains(id as u32)),
{
    id >= 0 && contains_u32(owned, id as u32)
}

fn check_signed_id_array4_like_cpp(ids: [i32; 4], logic: u32, owned: &[u32]) -> (r: bool)
    ensures
        r == signed_id_array4_met(ids@, logic, owned@),
{
    if ids[0] == 0 {
        return true;
    }
    let r0 = ids[0] == 0 || signed_owned(ids[0], owned);
    let r1 = ids[1] == 0 || signed_owned(ids[1], owned);
    let r2 = ids[2] == 0 || signed_owned(ids[2], owned);
    let r3 = ids[3] == 0 || signed_owned(ids[3], owned);
    logic4_of(logic, r0, r1, r2, r3)
}

fn count_slot_holds(id: i32, count: u32, owned: &[PlayerConditionCountLikeCpp]) -> (r: bool)
    ensures
        r == count_slot(id, count, owned@),
{
    id == 0 || (id >= 0 && count_for(owned, id as u32) >= count)
}

fn check_count_array4_like_cpp(ids: [i32; 4], counts: [u32; 4], logic: u32, owned: &[PlayerConditionCountLikeCpp]) -> (r: bool)
    ensures
        r == count_array4_met(ids@, counts@, logic, owned@),
{
    if ids[0] == 0 {
        return true;
    }
    let r0 = count_slot_holds(ids[0], counts[0], owned);
    let r1 = count_slot_holds(ids[1], counts[1], owned);
    let r2 = count_slot_holds(ids[2], counts[2], owned);
    let r3 = count_slot_holds(ids[3], counts[3], owned);
    logic4_of(logic, r0, r1, r2, r3)
}

fn check_currency_array_like_cpp(condition: &PlayerConditionEntry, context: &PlayerConditionContextLikeCpp) -> (r: bool)
    ensures
        r == currencies_met(*condition, *context),
{
    if condition.currency_id[0] == 0 {
        return true;
    }
    let mut results = [true; 4];
    let mut i: usize = 0;
    while i < 4
        invariant
            i <= 4,
            results@.len() == 4,
            forall|j: int| i <= j < 4 ==> results@[j],
            forall|j: int| 0 <= j < i ==> results@[j] == currency_slot(*condition, *context, j),
        decreases 4 - i,
    {
        let id = condition.currency_id[i];
        if id != 0 {
            results[i] = count_for(context.currencies, id) >= condition.currency_count[i];
        }
        i = i + 1;
    }
    logic4_of(condition.currency_logic, results[0], results[1], results[2], results[3])
}

fn check_auras_like_cpp(condition: &PlayerConditionEntry, context: &PlayerConditionContextLikeCpp) -> (r: bool)
    ensures
        r == auras_met(*condition, *context),
{
    if condition.aura_spell_id[0] == 0 {
        return true;
    }
    let mut results = [true; 4];
    let mut i: usize = 0;
    while i < 4
        invariant
            i <= 4,
            results@.len() == 4,
            forall|j: int| i <= j < 4 ==> results@[j],
            forall|j: int| 0 <= j < i ==> results@[j] == aura_slot(*condition, *context, j),
        decreases 4 - i,
    {
        let id = condition.aura_spell_id[i];
        if id != 0 {
            results[i] = if id < 0 {
                false
            } else {
                match find_aura(context.auras, id as u32) {
                    Some(aura) => condition.aura_stacks[i] == 0 || aura.stacks >= condition.aura_stacks[i],
                    None => false,
                }
            };
        }
        i = i + 1;
    }
    logic4_of(condition.aura_spell_logic, results[0], results[1], results[2], results[3])
}

fn check_u16_array4_like_cpp(ids: [u16; 4], logic: u32, owned: &[u16]) -> (r: bool)
    ensures
        r == u16_array4_met(ids@, logic, owned@),
{
    if ids[0] == 0 {
        return true;
    }
    let r0 = ids[0] == 0 || contains_u16(owned, ids[0]);
    let r1 = ids[1] == 0 || contains_u16(owned, ids[1]);
    let r2 = ids[2] == 0 || contains_u16(owned, ids[2]);
    let r3 = ids[3] == 0 || contains_u16(owned, ids[3]);
    logic4_of(logic, r0, r1, r2, r3)
}

fn check_lfg_like_cpp(condition: &PlayerConditionEntry, context: &PlayerConditionContextLikeCpp) -> (r: bool)
    ensures
        r == lfg_met(*condition, *context),
{
    if condition.lfg_status[0] == 0 {
        return true;
    }
    let mut results = [true; 4];
    let mut i: usize = 0;
    while i < 4
        invariant
            i <= 4,
            results@.len() == 4,
            forall|j: int| i <= j < 4 ==> results@[j],
            forall|j: int| 0 <= j < i ==> results@[j] == lfg_slot(*condition, *context, j),
        decreases 4 - i,
    {
        let status = condition.lfg_status[i];
        if status != 0 {
            results[i] = player_condition_compare_like_cpp(
                condition.lfg_compare[i] as i32,
                count_for(context.lfg_values, status as u32) as i32,
                condition.lfg_value[i] as i32,
            );
        }
        i = i + 1;
    }
    logic4_of(condition.lfg_logic, results[0], results[1], results[2], results[3])
}

fn check_area_like_cpp(condition: &PlayerConditionEntry, context: &PlayerConditionContextLikeCpp) -> (r: bool)
    ensures
        r == area_met(*condition, *context),
{
    if condition.area_id[0] == 0 {
        return true;
    }
    let mut results = [true; 4];
    let mut i: usize = 0;
    while i < 4
        invariant
            i <= 4,
            results@.len() == 4,
            forall|j: int| i <= j < 4 ==> results@[j],
            forall|j: int| 0 <= j < i ==> results@[j] == area_slot(*condition, *context, j),
        decreases 4 - i,
    {
        let id = condition.area_id[i];
        if id != 0 {
            let area = id as u32;
            results[i] = context.area_id == area || contains_u32(context.parent_area_ids, area);
        }
        i = i + 1;
    }
    logic4_of(condition.area_logic, results[0], results[1], results[2], results[3])
}

fn check_quest_kills_like_cpp(condition: &PlayerConditionEntry, context: &PlayerConditionContextLikeCpp) -> (r: bool)
    ensures
        r == quest_kills_met(*condition, *context),
{
    let m = condition.quest_kill_monster;
    if condition.quest_kill_id == 0 || context.quest_kill_id != condition.quest_kill_id || (m[0] == 0
        && m[1] == 0 && m[2] == 0 && m[3] == 0 && m[4] == 0 && m[5] == 0) {
        return true;
    }
    let mut results = [true; 6];
    let mut i: usize = 0;
    while i < 6
        invariant
            i <= 6,
            m == condition.quest_kill_monster,
            results@.len() == 6,
            forall|j: int| i <= j < 6 ==> results@[j],
            forall|j: int| 0 <= j < i ==> results@[j] == kill_slot(*condition, *context, j),
        decreases 6 - i,
    {
        if m[i] != 0 {
            results[i] = find_kill_done(context.quest_kills, m[i]);
        }
        i = i + 1;
    }
    assert(results@ =~= seq![
        kill_slot(*condition, *context, 0),
        kill_slot(*condition, *context, 1),
        kill_slot(*condition, *context, 2),
        kill_slot(*condition, *context, 3),
        kill_slot(*condition, *context, 4),
        kill_slot(*condition, *context, 5),
    ]);
    player_condition_logic_like_cpp(condition.quest_kill_logic, results)
}

/// Whether the player described by `context` meets `condition`: every
/// requirement that the condition sets holds for the player.
pub fn is_player_meeting_condition_like_cpp(
    condition: &PlayerConditionEntry,
    context: &PlayerConditionContextLikeCpp,
) -> (b: bool)
    requires
        condition_evaluable(*condition, *context),
    ensures
        b == meets_player_condition(*condition, *context),
{
    if !check_identity_like_cpp(condition, context) {
        return false;
    }
    if !check_skills_like_cpp(condition, context) {
        return false;
    }
    if condition.language_id != 0 {
        if condition.min_language != 0 && context.language_skill < condition.min_language as i32 {
            return false;
        }
        if condition.max_language != 0 && context.language_skill > condition.max_language {
            return false;
        }
    }
    if !check_reputation_like_cpp(condition, context) {
        return false;
    }
    if condition.current_pvp_faction != 0 && condition.current_pvp_faction - 1 != context.current_pvp_faction {
        return false;
    }
    if condition.pvp_medal != 0 && ((1u32 << (condition.pvp_medal - 1) as u32) & context.pvp_medals_mask) == 0 {
        return false;
    }
    if condition.lifetime_max_pvp_rank != 0 && context.lifetime_max_pvp_rank != condition.lifetime_max_pvp_rank {
        return false;
    }
    if condition.movement_flags[0] != 0 && (context.movement_flags[0] & condition.movement_flags[0]) == 0 {
        return false;
    }
    if condition.movement_flags[1] != 0 && (context.movement_flags[1] & condition.movement_flags[1]) == 0 {
        return false;
    }
    if condition.weapon_subclass_mask != 0 {
        match context.mainhand_weapon_subclass {
            None => {
                return false;
            },
            Some(subclass) => {
                if ((1i32 << subclass) & condition.weapon_subclass_mask) == 0 {
                    return false;
                }
            },
        }
    }
    if !check_party_status_like_cpp(condition.party_status, context.party_status) {
        return false;
    }
    if !check_id_array4_like_cpp(condition.prev_quest_id, condition.prev_quest_logic, context.completed_quests) {
        return false;
    }
    if !check_id_array4_like_cpp(condition.curr_quest_id, condition.curr_quest_logic, context.current_quests) {
        return false;
    }
    if !check_id_array4_like_cpp(
        condition.current_completed_quest_id,
        condition.current_completed_quest_logic,
        context.complete_quests,
    ) {
        return false;
    }
    if !check_signed_id_array4_like_cpp(condition.spell_id, condition.spell_logic, context.spells) {
        return false;
    }
    if !check_count_array4_like_cpp(condition.item_id, condition.item_count, condition.item_logic, context.items) {
        return false;
    }
    if !check_currency_array_like_cpp(condition, context) {
        return false;
    }
    if condition.explored[0] != 0 && !contains_u16(context.explored_area_ids, condition.explored[0]) {
        return false;
    }
    if condition.explored[1] != 0 && !contains_u16(context.explored_area_ids, condition.explored[1]) {
        return false;
    }
    if !check_auras_like_cpp(condition, context) {
        return false;
    }
    if condition.world_state_expression_id != 0 && !contains_u16(
        context.met_world_state_expressions,
        condition.world_state_expression_id,
    ) {
        return false;
    }
    if condition.weather_id != 0 && context.weather_id != condition.weather_id {
        return false;
    }
    if !check_u16_array4_like_cpp(condition.achievement, condition.achievement_logic, context.achievements) {
        return false;
    }
    if !check_lfg_like_cpp(condition, context) {
        return false;
    }
    if !check_area_like_cpp(condition, context) {
        return false;
    }
    if condition.min_expansion_level != -1 && context.expansion < condition.min_expansion_level {
        return false;
    }
    if condition.max_expansion_level != -1 && context.expansion > condition.max_expansion_level {
        return false;
    }
    if condition.min_expansion_level != -1 && condition.min_expansion_tier != -1 && !context.is_game_master && ((
    condition.min_expansion_level == context.server_expansion && condition.min_expansion_tier > 0)
        || condition.min_expansion_level > context.server_expansion) {
        return false;
    }
    if (condition.phase_id != 0 || condition.phase_group_id != 0 || condition.phase_use_flags != 0)
        && !context.phase_satisfied {
        return false;
    }
    if !check_quest_kills_like_cpp(condition, context) {
        return false;
    }
    if condition.min_avg_item_level != 0 && context.avg_item_level < condition.min_avg_item_level {
        return false;
    }
    if condition.max_avg_item_level != 0 && context.avg_item_level > condition.max_avg_item_level {
        return false;
    }
    if condition.min_avg_equipped_item_level != 0 && context.avg_equipped_item_level
        < condition.min_avg_equipped_item_level as u32 {
        return false;
    }
    if condition.max_avg_equipped_item_level != 0 && context.avg_equipped_item_level
        > condition.max_avg_equipped_item_level as u32 {
        return false;
    }
    if condition.modifier_tree_id != 0 && !contains_u32(context.modifier_tree_ids, condition.modifier_tree_id) {
        return false;
    }
    true
}

/// A condition that asks nothing: no mask, id or bound set, the signed
/// "any" markers at `-1`.
pub open spec fn sets_no_requirement(c: PlayerConditionEntry) -> bool {
    &&& c.race_mask == 0 && c.class_mask == 0 && c.gender == -1 && c.native_gender == -1
    &&& c.power_type == -1 && c.chr_specialization_index == -1 && c.chr_specialization_role == -1
    &&& c.language_id == 0 && c.max_faction_id == 0 && c.current_pvp_faction == 0 && c.pvp_medal == 0
    &&& c.lifetime_max_pvp_rank == 0 && c.weapon_subclass_mask == 0 && c.party_status == 0
    &&& c.world_state_expression_id == 0 && c.weather_id == 0 && c.quest_kill_id == 0
    &&& c.min_expansion_level == -1 && c.max_expansion_level == -1
    &&& c.phase_id == 0 && c.phase_group_id == 0 && c.phase_use_flags == 0
    &&& c.min_avg_item_level == 0 && c.max_avg_item_level == 0
    &&& c.min_avg_equipped_item_level == 0 && c.max_avg_equipped_item_level == 0 && c.modifier_tree_id == 0
    &&& forall|i: int| 0 <= i < 4 ==> c.skill_id[i] == 0
    &&& forall|i: int| 0 <= i < 3 ==> c.min_faction_id[i] == 0
    &&& c.prev_quest_id[0] == 0 && c.curr_quest_id[0] == 0 && c.current_completed_quest_id[0] == 0
    &&& c.spell_id[0] == 0 && c.item_id[0] == 0 && c.currency_id[0] == 0 && c.aura_spell_id[0] == 0
    &&& c.achievement[0] == 0 && c.lfg_status[0] == 0 && c.area_id[0] == 0
    &&& c.explored[0] == 0 && c.explored[1] == 0
    &&& c.movement_flags[0] == 0 && c.movement_flags[1] == 0
}

/// A condition that asks nothing is met by every player, and evaluating it
/// never leaves the ranges of its shifts.
pub proof fn lemma_condition_without_requirements_is_met(c: PlayerConditionEntry, x: PlayerConditionContextLikeCpp)
    requires
        sets_no_requirement(c),
    ensures
        condition_evaluable(c, x),
        meets_player_condition(c, x),
{
}

/// The comparison codes come in complementary pairs: `==` and `!=`, `>` and
/// `<=`, `>=` and `<`.
pub proof fn lemma_comparisons_complement(value1: i32, value2: i32)
    ensures
        spec_condition_compare(1, value1, value2) == !spec_condition_compare(2, value1, value2),
        spec_condition_compare(3, value1, value2) == !spec_condition_compare(6, value1, value2),
        spec_condition_compare(4, value1, value2) == !spec_condition_compare(5, value1, value2),
{
}

/// A player who meets a condition meets each requirement that it sets:
/// race and class masks, genders, power type, language, PvP faction, medal
/// and rank, movement flags, main-hand weapon, party, explored areas, world
/// state, weather, expansions, phases, item levels and modifier tree.
pub proof fn lemma_met_condition_requirements(c: PlayerConditionEntry, x: PlayerConditionContextLikeCpp)
    requires
        meets_player_condition(c, x),
    ensures
        c.race_mask != 0 && 1 <= x.race <= 64 ==> c.race_mask & (1i64 << ((x.race - 1) as u8)) != 0,
        c.class_mask != 0 ==> x.class_mask & (c.class_mask as u32) != 0,
        c.gender >= 0 ==> x.gender == c.gender,
        c.native_gender >= 0 ==> x.native_gender == c.native_gender,
        c.power_type != -1 && c.power_type_comp != 0 ==> x.power_type == c.power_type,
        c.language_id != 0 && c.min_language != 0 ==> x.language_skill >= c.min_language,
        c.language_id != 0 && c.max_language != 0 ==> x.language_skill <= c.max_language,
        c.current_pvp_faction != 0 ==> x.current_pvp_faction == c.current_pvp_faction - 1,
        c.pvp_medal != 0 && c.pvp_medal <= 32 ==> (1u32 << ((c.pvp_medal - 1) as u32)) & x.pvp_medals_mask != 0,
        c.lifetime_max_pvp_rank != 0 ==> x.lifetime_max_pvp_rank == c.lifetime_max_pvp_rank,
        c.movement_flags[0] != 0 ==> x.movement_flags[0] & c.movement_flags[0] != 0,
        c.movement_flags[1] != 0 ==> x.movement_flags[1] & c.movement_flags[1] != 0,
        c.weapon_subclass_mask != 0 ==> x.mainhand_weapon_subclass is Some,
        c.party_status == 1 ==> x.party_status == PlayerConditionPartyStatusLikeCpp::Solo,
        c.party_status == 2 ==> x.party_status != PlayerConditionPartyStatusLikeCpp::Solo,
        c.party_status == 3 ==> x.party_status == PlayerConditionPartyStatusLikeCpp::InParty,
        c.party_status == 4 ==> x.party_status == PlayerConditionPartyStatusLikeCpp::InRaid,
        c.party_status == 5 ==> x.party_status != PlayerConditionPartyStatusLikeCpp::InRaid,
        c.explored[0] != 0 ==> x.explored_area_ids@.contains(c.explored[0]),
        c.explored[1] != 0 ==> x.explored_area_ids@.contains(c.explored[1]),
        c.world_state_expression_id != 0 ==> x.met_world_state_expressions@.contains(c.world_state_expression_id),
        c.weather_id != 0 ==> x.weather_id == c.weather_id,
        c.min_expansion_level != -1 ==> x.expansion >= c.min_expansion_level,
        c.max_expansion_level != -1 ==> x.expansion <= c.max_expansion_level,
        c.phase_id != 0 || c.phase_group_id != 0 || c.phase_use_flags != 0 ==> x.phase_satisfied,
        c.min_avg_item_level != 0 ==> x.avg_item_level >= c.min_avg_item_level,
        c.max_avg_item_level != 0 ==> x.avg_item_level <= c.max_avg_item_level,
        c.min_avg_equipped_item_level != 0 ==> x.avg_equipped_item_level >= c.min_avg_equipped_item_level,
        c.max_avg_equipped_item_level != 0 ==> x.avg_equipped_item_level <= c.max_avg_equipped_item_level,
        c.modifier_tree_id != 0 ==> x.modifier_tree_ids@.contains(c.modifier_tree_id),
{
}

/// Under the logic word 0 (no joins, no inversions) only the first result
/// counts.
pub proof fn lemma_logic_zero_takes_first(results: Seq<bool>, n: int)
    requires
        1 <= n <= 16,
        n <= results.len(),
    ensures
        logic_combined(0, results, n) == results[0],
    decreases n,
{
    assert((0u32 >> 16u32) & 1u32 == 0) by (bit_vector);
    if n > 1 {
        lemma_logic_zero_takes_first(results, n - 1);
        let k = (2 * (n - 2)) as u32;
        assert((0u32 >> k) & 3u32 == 0) by (bit_vector);
    }
}

/// Under an "and" join of four results (logic word 21: each pair of bits 1,
/// no inversions) all four must hold; under an "or" join (logic word 42) one
/// must.
pub proof fn lemma_logic_and_or(r0: bool, r1: bool, r2: bool, r3: bool)
    ensures
        logic4(21, r0, r1, r2, r3) == (r0 && r1 && r2 && r3),
        logic4(42, r0, r1, r2, r3) == (r0 || r1 || r2 || r3),
{
    let rs = seq![r0, r1, r2, r3];
    assert((21u32 >> 0u32) & 3u32 == 1 && (21u32 >> 2u32) & 3u32 == 1 && (21u32 >> 4u32) & 3u32 == 1) by (bit_vector);
    assert((42u32 >> 0u32) & 3u32 == 2 && (42u32 >> 2u32) & 3u32 == 2 && (42u32 >> 4u32) & 3u32 == 2) by (bit_vector);
    assert((21u32 >> 16u32) & 1u32 == 0 && (21u32 >> 17u32) & 1u32 == 0 && (21u32 >> 18u32) & 1u32 == 0
        && (21u32 >> 19u32) & 1u32 == 0) by (bit_vector);
    assert((42u32 >> 16u32) & 1u32 == 0 && (42u32 >> 17u32) & 1u32 == 0 && (42u32 >> 18u32) & 1u32 == 0
        && (42u32 >> 19u32) & 1u32 == 0) by (bit_vector);
    reveal_with_fuel(logic_combined, 4);
}

/// Under the logic word 0, a met condition's first quest requirements
/// hold for the player.
pub proof fn lemma_met_condition_first_quests(c: PlayerConditionEntry, x: PlayerConditionContextLikeCpp)
    requires
        meets_player_condition(c, x),
    ensures
        c.prev_quest_logic == 0 && c.prev_quest_id[0] != 0 ==> x.completed_quests@.contains(c.prev_quest_id[0]),
        c.curr_quest_logic == 0 && c.curr_quest_id[0] != 0 ==> x.current_quests@.contains(c.curr_quest_id[0]),
        c.current_completed_quest_logic == 0 && c.current_completed_quest_id[0] != 0
            ==> x.complete_quests@.contains(c.current_completed_quest_id[0]),
{
    lemma_logic_zero_takes_first(seq![
        c.prev_quest_id[0] == 0 || x.completed_quests@.contains(c.prev_quest_id[0]),
        c.prev_quest_id[1] == 0 || x.completed_quests@.contains(c.prev_quest_id[1]),
        c.prev_quest_id[2] == 0 || x.completed_quests@.contains(c.prev_quest_id[2]),
        c.prev_quest_id[3] == 0 || x.completed_quests@.contains(c.prev_quest_id[3]),
    ], 4);
    lemma_logic_zero_takes_first(seq![
        c.curr_quest_id[0] == 0 || x.current_quests@.contains(c.curr_quest_id[0]),
        c.curr_quest_id[1] == 0 || x.current_quests@.contains(c.curr_quest_id[1]),
        c.curr_quest_id[2] == 0 || x.current_quests@.contains(c.curr_quest_id[2]),
        c.curr_quest_id[3] == 0 || x.current_quests@.contains(c.curr_quest_id[3]),
    ], 4);
    lemma_logic_zero_takes_first(seq![
        c.current_completed_quest_id[0] == 0 || x.complete_quests@.contains(c.current_completed_quest_id[0]),
        c.current_completed_quest_id[1] == 0 || x.complete_quests@.contains(c.current_completed_quest_id[1]),
        c.current_completed_quest_id[2] == 0 || x.complete_quests@.contains(c.current_completed_quest_id[2]),
        c.current_completed_quest_id[3] == 0 || x.complete_quests@.contains(c.current_completed_quest_id[3]),
    ], 4);
}

/// Under the logic word 0, a met condition's first spell, item and currency requirements
/// hold for the player.
pub proof fn lemma_met_condition_first_spells_items_currencies(c: PlayerConditionEntry, x: PlayerConditionContextLikeCpp)
    requires
        meets_player_condition(c, x),
    ensures
        c.spell_logic == 0 && c.spell_id[0] != 0 ==> c.spell_id[0] > 0 && x.spells@.contains(c.spell_id[0] as u32),
        c.item_logic == 0 && c.item_id[0] != 0 ==> c.item_id[0] > 0 && count_of(x.items@, c.item_id[0] as u32)
            >= c.item_count[0],
        c.currency_logic == 0 && c.currency_id[0] != 0 ==> count_of(x.currencies@, c.currency_id[0])
            >= c.currency_count[0],
{
    lemma_logic_zero_takes_first(seq![
        c.spell_id[0] == 0 || (c.spell_id[0] >= 0 && x.spells@.contains(c.spell_id[0] as u32)),
        c.spell_id[1] == 0 || (c.spell_id[1] >= 0 && x.spells@.contains(c.spell_id[1] as u32)),
        c.spell_id[2] == 0 || (c.spell_id[2] >= 0 && x.spells@.contains(c.spell_id[2] as u32)),
        c.spell_id[3] == 0 || (c.spell_id[3] >= 0 && x.spells@.contains(c.spell_id[3] as u32)),
    ], 4);
    lemma_logic_zero_takes_first(seq![
        count_slot(c.item_id[0], c.item_count[0], x.items@),
        count_slot(c.item_id[1], c.item_count[1], x.items@),
        count_slot(c.item_id[2], c.item_count[2], x.items@),
        count_slot(c.item_id[3], c.item_count[3], x.items@),
    ], 4);
    lemma_logic_zero_takes_first(seq![
        currency_slot(c, x, 0),
        currency_slot(c, x, 1),
        currency_slot(c, x, 2),
        currency_slot(c, x, 3),
    ], 4);
}

/// Under the logic word 0, a met condition's first aura, achievement and area requirements
/// hold for the player.
pub proof fn lemma_met_condition_first_auras_achievements_areas(c: PlayerConditionEntry, x: PlayerConditionContextLikeCpp)
    requires
        meets_player_condition(c, x),
    ensures
        c.aura_spell_logic == 0 && c.aura_spell_id[0] != 0 ==> c.aura_spell_id[0] > 0 && aura_of(
            x.auras@,
            c.aura_spell_id[0] as u32,
        ) is Some,
        c.achievement_logic == 0 && c.achievement[0] != 0 ==> x.achievements@.contains(c.achievement[0]),
        c.area_logic == 0 && c.area_id[0] != 0 ==> x.area_id == c.area_id[0] as u32
            || x.parent_area_ids@.contains(c.area_id[0] as u32),
{
    lemma_logic_zero_takes_first(seq![aura_slot(c, x, 0), aura_slot(c, x, 1), aura_slot(c, x, 2), aura_slot(c, x, 3)], 4);
    lemma_logic_zero_takes_first(seq![
        c.achievement[0] == 0 || x.achievements@.contains(c.achievement[0]),
        c.achievement[1] == 0 || x.achievements@.contains(c.achievement[1]),
        c.achievement[2] == 0 || x.achievements@.contains(c.achievement[2]),
        c.achievement[3] == 0 || x.achievements@.contains(c.achievement[3]),
    ], 4);
    lemma_logic_zero_takes_first(seq![area_slot(c, x, 0), area_slot(c, x, 1), area_slot(c, x, 2), area_slot(c, x, 3)], 4);
}

/// Under the logic word 0, a met condition's first skill is known and lies
/// strictly between its bounds; with no minimum reputation set, the
/// maximum reputation caps the player's rank with that faction.
pub proof fn lemma_met_condition_skill_and_reputation(c: PlayerConditionEntry, x: PlayerConditionContextLikeCpp)
    requires
        meets_player_condition(c, x),
    ensures
        c.skill_logic == 0 && c.skill_id[0] != 0 ==> {
            let v = skill_value_of(x.skills@, c.skill_id[0]);
            v != 0 && c.min_skill[0] < v < c.max_skill[0]
        },
        c.min_faction_id[0] == 0 && c.min_faction_id[1] == 0 && c.min_faction_id[2] == 0 && c.max_faction_id != 0
            ==> reputation_rank_of(x.reputations@, c.max_faction_id as u32) <= c.max_reputation,
        c.reputation_logic == 0 && c.min_faction_id[0] != 0 ==> reputation_rank_of(x.reputations@, c.min_faction_id[0])
            >= c.min_reputation[0],
{
    lemma_logic_zero_takes_first(seq![skill_slot(c, x, 0), skill_slot(c, x, 1), skill_slot(c, x, 2), skill_slot(c, x, 3)], 4);
    lemma_logic_zero_takes_first(seq![
        min_reputation_slot(c, x, 0),
        min_reputation_slot(c, x, 1),
        min_reputation_slot(c, x, 2),
        c.max_faction_id == 0 || max_reputation_slot(c, x),
    ], 4);
}

/// A condition that asks only for an average item level range (`min` and
/// `max`, 0 meaning no bound) is met exactly by the players whose average
/// item level lies in it.
pub proof fn lemma_item_level_range_decides(c: PlayerConditionEntry, min: i32, max: i32, x: PlayerConditionContextLikeCpp)
    requires
        sets_no_requirement(c),
    ensures
        meets_player_condition(PlayerConditionEntry { min_avg_item_level: min, max_avg_item_level: max, ..c }, x)
            == ((min == 0 || x.avg_item_level >= min) && (max == 0 || x.avg_item_level <= max)),
{
}

/// What each comparison code means: 1 equal, 2 different, 3 greater, 4 at
/// least, 5 less, 6 at most; every other code never holds.
pub proof fn lemma_comparison_codes(code: i32, value1: i32, value2: i32)
    ensures
        spec_condition_compare(1, value1, value2) <==> value1 == value2,
        spec_condition_compare(2, value1, value2) <==> value1 != value2,
        spec_condition_compare(3, value1, value2) <==> value1 > value2,
        spec_condition_compare(4, value1, value2) <==> value1 >= value2,
        spec_condition_compare(5, value1, value2) <==> value1 < value2,
        spec_condition_compare(6, value1, value2) <==> value1 <= value2,
        !(1 <= code <= 6) ==> !spec_condition_compare(code, value1, value2),
{
}

/// Bit 16 of a logic word inverts the first result: under the word
/// `1 << 16` alone the combined value of up to nine results is the first
/// result negated.
pub proof fn lemma_logic_inverts_first(results: Seq<bool>, n: int)
    requires
        1 <= n <= 9,
        n <= results.len(),
    ensures
        logic_combined(0x10000, results, n) == !results[0],
    decreases n,
{
    assert((0x10000u32 >> 16u32) & 1u32 == 1) by (bit_vector);
    if n > 1 {
        lemma_logic_inverts_first(results, n - 1);
        let k = (2 * (n - 2)) as u32;
        assert(k <= 14 ==> (0x10000u32 >> k) & 3u32 == 0) by (bit_vector);
    }
}

} // verus!
