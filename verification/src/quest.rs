//! Quest templates, their objectives, and the creatures that start and end
//! them.
//!
//! Multipliers and weights are single-precision floats, kept as their bit
//! patterns.
use std::collections::HashMap;
use vstd::prelude::*;
use vstd::std_specs::iter::IteratorSpec;
use crate::db2_index::{Keyed, index_by_key, build_index};

verus! {

broadcast use vstd::std_specs::hash::group_hash_axioms;

pub const QUEST_REWARD_ITEM_COUNT: usize = 4;

pub const QUEST_REWARD_CHOICES_COUNT: usize = 6;

pub const QUEST_REWARD_REPUTATIONS_COUNT: usize = 5;

pub const QUEST_REWARD_CURRENCY_COUNT: usize = 4;

pub const QUEST_REWARD_DISPLAY_SPELL_COUNT: usize = 3;

pub const QUEST_ITEM_DROP_COUNT: usize = 4;

/// One objective of a quest (kill, loot, explore and so on).
#[derive(Debug, Clone)]
pub struct QuestObjective {
    pub id: u32,
    pub quest_id: u32,
    pub obj_type: u8,
    pub order: u8,
    pub storage_index: i8,
    pub object_id: i32,
    pub amount: i32,
    pub flags: u32,
    pub flags2: u32,
    pub progress_bar_weight: u32,
    pub description: String,
}

/// A quest template.
#[derive(Debug, Clone)]
pub struct QuestTemplate {
    pub id: u32,
    pub quest_type: u8,
    pub quest_level: i32,
    pub quest_max_scaling_level: i32,
    pub min_level: i32,
    pub quest_sort_id: i32,
    pub quest_info_id: u16,
    pub suggested_group_num: u8,
    pub reward_next_quest: u32,
    pub reward_xp_difficulty: u32,
    pub reward_xp_multiplier: u32,
    pub reward_money_difficulty: u32,
    pub reward_money_multiplier: u32,
    pub reward_bonus_money: u32,
    pub reward_display_spell: [u32; 3],
    pub reward_spell: u32,
    pub reward_honor: u32,
    pub flags: u32,
    pub flags_ex: u32,
    pub flags_ex2: u32,
    pub reward_items: [u32; 4],
    pub reward_amounts: [u32; 4],
    pub item_drop: [u32; 4],
    pub item_drop_quantity: [u32; 4],
    pub log_title: String,
    pub log_description: String,
    pub quest_description: String,
    pub area_description: String,
    pub quest_completion_log: String,
    pub objectives: Vec<QuestObjective>,
    /// Races that may take the quest, bit `race - 1` each; 0 for every race.
    pub allowable_races: u64,
    /// Classes that may take the quest, bit `class - 1` each; 0 for every
    /// class.
    pub allowable_classes: u32,
    /// Highest level that may take the quest; 0 for no limit.
    pub max_level: u8,
    /// The quest that must come first (rewarded where positive, active where
    /// negative); 0 for none.
    pub prev_quest_id: i32,
    /// Reward items to choose from, as (item, quantity); item 0 is an empty
    /// slot.
    pub reward_choice_items: [(u32, u32); 6],
}

impl Keyed for QuestTemplate {
    open spec fn spec_key(&self) -> u32 {
        self.id
    }

    fn key(&self) -> (k: u32) {
        self.id
    }
}

/// `n - 1`, or 0 for 0.
pub open spec fn one_less(n: u8) -> u8 {
    if n == 0 {
        0
    } else {
        (n - 1) as u8
    }
}

/// The race mask lets `race` take the quest.
pub open spec fn race_allowed(q: QuestTemplate, race: u8) -> bool {
    q.allowable_races == 0 || q.allowable_races & (1u64 << (one_less(race) as u64)) != 0
}

/// The class mask lets `class` take the quest.
pub open spec fn class_allowed(q: QuestTemplate, class: u8) -> bool {
    q.allowable_classes == 0 || q.allowable_classes & (1u32 << (one_less(class) as u32)) != 0
}

/// A player of `race`, `class` and `level` may take the quest.
pub open spec fn available_for(q: QuestTemplate, race: u8, class: u8, level: u8) -> bool {
    &&& race_allowed(q, race)
    &&& class_allowed(q, class)
    &&& !(q.min_level > 0 && (level as i32) < q.min_level)
    &&& !(q.max_level > 0 && level > q.max_level)
}

impl QuestTemplate {
    /// Whether the quest is repeatable (the repeatable or the daily flag).
    pub fn is_repeatable(&self) -> (b: bool)
        ensures
            b == (self.flags & 0x1 != 0 || self.flags & 0x4000 != 0),
    {
        self.flags & 0x1 != 0 || self.flags & 0x4000 != 0
    }

    /// Whether a player of `race`, `class` and `level` may take the quest:
    /// its race and class masks (0 for all) name them, and the level is
    /// within its minimum and maximum (0 for none).
    pub fn is_available_for(&self, race: u8, class: u8, level: u8) -> (b: bool)
        requires
            self.allowable_races != 0 ==> race <= 64,
            self.allowable_classes != 0 && race_allowed(*self, race) ==> class <= 32,
        ensures
            b == available_for(*self, race, class, level),
    {
        if self.allowable_races != 0 {
            let shift: u64 = if race == 0 {
                0
            } else {
                (race - 1) as u64
            };
            let race_bit = 1u64 << shift;
            if self.allowable_races & race_bit == 0 {
                return false;
            }
        }
        if self.allowable_classes != 0 {
            let shift: u32 = if class == 0 {
                0
            } else {
                (class - 1) as u32
            };
            let class_bit = 1u32 << shift;
            if self.allowable_classes & class_bit == 0 {
                return false;
            }
        }
        if self.min_level > 0 && (level as i32) < self.min_level {
            return false;
        }
        if self.max_level > 0 && level > self.max_level {
            return false;
        }
        true
    }
}

/// The objective kinds whose progress is a flag rather than a count.
pub open spec fn stores_flag(obj_type: u8) -> bool {
    obj_type == 10 || obj_type == 11 || obj_type == 12 || obj_type == 14 || obj_type == 19 || obj_type == 20
}

impl QuestObjective {
    /// Whether the objective's progress is a flag rather than a count.
    pub fn is_storing_flag_like_cpp(&self) -> (b: bool)
        ensures
            b == stores_flag(self.obj_type),
    {
        match self.obj_type {
            10 | 11 | 12 | 14 | 19 | 20 => true,
            _ => false,
        }
    }

    /// The most progress a condition can ask of the objective: 1 for a flag,
    /// else its amount.
    pub fn condition_progress_limit_like_cpp(&self) -> (r: i32)
        ensures
            r == (if stores_flag(self.obj_type) {
                1
            } else {
                self.amount
            }),
    {
        if self.is_storing_flag_like_cpp() {
            1
        } else {
            self.amount
        }
    }
}

/// The ids of `ids` that `quests` holds, in order.
pub open spec fn held_ids(ids: Seq<u32>, quests: Map<u32, QuestTemplate>) -> Seq<u32>
    decreases ids.len(),
{
    if ids.len() == 0 {
        seq![]
    } else {
        let s = held_ids(ids.drop_last(), quests);
        if quests.contains_key(ids.last()) {
            s.push(ids.last())
        } else {
            s
        }
    }
}

/// The entries of `m` under `k`, none where `k` is absent.
pub open spec fn relation_at(m: Map<u32, Vec<u32>>, k: u32) -> Seq<u32> {
    if m.contains_key(k) {
        m[k]@
    } else {
        seq![]
    }
}

/// Quest templates by id, and the quests each creature starts and ends.
pub struct QuestStore {
    pub quests: HashMap<u32, QuestTemplate>,
    pub starter_quests: HashMap<u32, Vec<u32>>,
    pub ender_quests: HashMap<u32, Vec<u32>>,
}

/// The templates with the objectives of `objectives` appended, in order, to
/// the quest each names.
pub open spec fn objectives_of(objectives: Seq<QuestObjective>, quest_id: u32) -> Seq<QuestObjective>
    decreases objectives.len(),
{
    if objectives.len() == 0 {
        seq![]
    } else {
        let s = objectives_of(objectives.drop_last(), quest_id);
        if objectives.last().quest_id == quest_id {
            s.push(objectives.last())
        } else {
            s
        }
    }
}

/// `q` is `base` with `extra` appended to its objectives.
pub open spec fn with_more_objectives(q: QuestTemplate, base: QuestTemplate, extra: Seq<QuestObjective>) -> bool {
    &&& q.objectives@ == base.objectives@ + extra
    &&& q == QuestTemplate { objectives: q.objectives, ..base }
}

/// The quests that each creature of `pairs` (creature, quest) relates to, in
/// order, keeping only quests in `quests`.
pub open spec fn relations_of(pairs: Seq<(u32, u32)>, quests: Set<u32>) -> Map<u32, Seq<u32>>
    decreases pairs.len(),
{
    if pairs.len() == 0 {
        Map::empty()
    } else {
        let m = relations_of(pairs.drop_last(), quests);
        let (npc, quest) = pairs.last();
        if quests.contains(quest) {
            m.insert(npc, (if m.contains_key(npc) { m[npc] } else { seq![] }).push(quest))
        } else {
            m
        }
    }
}

/// `m` holds, as vectors, the lists of `rel`.
pub open spec fn holds_relations(m: Map<u32, Vec<u32>>, rel: Map<u32, Seq<u32>>) -> bool {
    &&& m.dom() == rel.dom()
    &&& forall|k: u32| #[trigger] m.contains_key(k) ==> m[k]@ == rel[k]
}

/// Appends `quest` to the quests of `npc`.
fn push_relation(m: &mut HashMap<u32, Vec<u32>>, npc: u32, quest: u32)
    ensures
        final(m)@.dom() == old(m)@.dom().insert(npc),
        forall|k: u32| k != npc && old(m)@.contains_key(k) ==> #[trigger] final(m)@[k] == old(m)@[k],
        final(m)@[npc]@ == relation_at(old(m)@, npc).push(quest),
{
    match m.remove(&npc) {
        Some(mut list) => {
            list.push(quest);
            m.insert(npc, list);
        },
        None => {
            let mut list: Vec<u32> = Vec::new();
            list.push(quest);
            m.insert(npc, list);
        },
    }
}

/// Relates each creature of `pairs` to its quest where `quests` holds it.
fn load_relations(pairs: Vec<(u32, u32)>, quests: &HashMap<u32, QuestTemplate>) -> (m: HashMap<u32, Vec<u32>>)
    ensures
        holds_relations(m@, relations_of(pairs@, quests@.dom())),
{
    let ghost all = pairs@;
    let mut m: HashMap<u32, Vec<u32>> = HashMap::new();
    for pair in it: pairs
        invariant
            all == it.seq(),
            holds_relations(m@, relations_of(all.take(it.index() as int), quests@.dom())),
    {
        proof {
            assert(all.take(it.index() + 1).drop_last() =~= all.take(it.index() as int));
        }
        let (npc, quest) = pair;
        if quests.contains_key(&quest) {
            push_relation(&mut m, npc, quest);
        }
    }
    proof {
        assert(all.take(all.len() as int) =~= all);
    }
    m
}

impl QuestStore {
    /// A store with no quest and no relation.
    pub fn new() -> (s: Self)
        ensures
            s.quests@.is_empty(),
            s.starter_quests@.is_empty(),
            s.ender_quests@.is_empty(),
    {
        QuestStore { quests: HashMap::new(), starter_quests: HashMap::new(), ender_quests: HashMap::new() }
    }

    /// A store of the given quests (a later one replacing an earlier one with
    /// the same id) and no relation.
    pub fn from_quests_like_cpp(quests: Vec<QuestTemplate>) -> (s: Self)
        ensures
            s.quests@ == index_by_key(quests@),
            s.starter_quests@.is_empty(),
            s.ender_quests@.is_empty(),
    {
        QuestStore { quests: build_index(quests), starter_quests: HashMap::new(), ender_quests: HashMap::new() }
    }

    /// The quest with id `id`.
    pub fn get(&self, id: u32) -> (r: Option<&QuestTemplate>)
        ensures
            r == (if self.quests@.contains_key(id) {
                Some(&self.quests@[id])
            } else {
                None
            }),
    {
        self.quests.get(&id)
    }

    /// An objective with id `objective_id` of some stored quest, if any has
    /// one.
    pub fn objective_like_cpp(&self, objective_id: u32) -> (r: Option<&QuestObjective>)
        ensures
            r matches Some(o) ==> o.id == objective_id && exists|k: u32| #[trigger] self.quests@.contains_key(k)
                && self.quests@[k].objectives@.contains(*o),
            r is None ==> forall|k: u32, i: int| #![trigger self.quests@[k].objectives@[i]] self.quests@.contains_key(k)
                && 0 <= i < self.quests@[k].objectives@.len() ==> self.quests@[k].objectives@[i].id != objective_id,
    {
        let ghost pairs = vstd::std_specs::hash::spec_hash_map_iter(&self.quests).remaining();
        for pair in it: self.quests.iter()
            invariant
                it.seq() == pairs,
                forall|j: int, i: int| #![trigger pairs[j].1.objectives@[i]] 0 <= j < it.index() && 0 <= i
                    < pairs[j].1.objectives@.len() ==> pairs[j].1.objectives@[i].id != objective_id,
        {
            let (_k, quest) = pair;
            let ghost j = it.index() as int;
            proof {
                assert(pair == pairs[j]);
                assert(pairs.contains(pairs[j]));
                assert(self.quests@.contains_key(*pairs[j].0) && self.quests@[*pairs[j].0] == *quest);
            }
            let mut i: usize = 0;
            while i < quest.objectives.len()
                invariant
                    i <= quest.objectives.len(),
                    0 <= j < pairs.len(),
                    self.quests@.contains_key(*pairs[j].0),
                    self.quests@[*pairs[j].0] == *quest,
                    forall|t: int| 0 <= t < i ==> quest.objectives@[t].id != objective_id,
                decreases quest.objectives.len() - i,
            {
                if quest.objectives[i].id == objective_id {
                    proof {
                        assert(quest.objectives@.contains(quest.objectives@[i as int]));
                        assert(self.quests@[*pairs[j].0].objectives@.contains(quest.objectives@[i as int]));
                    }
                    return Some(&quest.objectives[i]);
                }
                i = i + 1;
            }
        }
        proof {
            assert forall|k: u32, i: int| #![trigger self.quests@[k].objectives@[i]] self.quests@.contains_key(k)
                && 0 <= i < self.quests@[k].objectives@.len() implies self.quests@[k].objectives@[i].id != objective_id by {
                assert(pairs.contains((&k, &self.quests@[k])));
                let j = choose|j: int| 0 <= j < pairs.len() && pairs[j] == (&k, &self.quests@[k]);
                assert(pairs[j].1.objectives@[i] == self.quests@[k].objectives@[i]);
            }
        }
        None
    }

    /// The stored quests of `ids`, in order.
    fn quests_of_ids(&self, ids: &Vec<u32>) -> (r: Vec<&QuestTemplate>)
        ensures
            r@.len() == held_ids(ids@, self.quests@).len(),
            forall|i: int| 0 <= i < r@.len() ==> *r@[i] == self.quests@[held_ids(ids@, self.quests@)[i]],
    {
        let mut r: Vec<&QuestTemplate> = Vec::new();
        let mut i: usize = 0;
        while i < ids.len()
            invariant
                i <= ids.len(),
                r@.len() == held_ids(ids@.take(i as int), self.quests@).len(),
                forall|t: int| 0 <= t < r@.len() ==> *r@[t] == self.quests@[held_ids(
                    ids@.take(i as int),
                    self.quests@,
                )[t]],
            decreases ids.len() - i,
        {
            proof {
                assert(ids@.take(i + 1).drop_last() =~= ids@.take(i as int));
            }
            match self.quests.get(&ids[i]) {
                Some(q) => {
                    r.push(q);
                },
                None => {},
            }
            i = i + 1;
        }
        proof {
            assert(ids@.take(ids.len() as int) =~= ids@);
        }
        r
    }

    /// The quests a creature starts, in relation order.
    pub fn quests_for_starter(&self, npc_entry: u32) -> (r: Vec<&QuestTemplate>)
        ensures
            r@.len() == held_ids(relation_at(self.starter_quests@, npc_entry), self.quests@).len(),
            forall|i: int| 0 <= i < r@.len() ==> *r@[i] == self.quests@[held_ids(
                relation_at(self.starter_quests@, npc_entry),
                self.quests@,
            )[i]],
    {
        match self.starter_quests.get(&npc_entry) {
            Some(ids) => self.quests_of_ids(ids),
            None => Vec::new(),
        }
    }

    /// The quests a creature ends, in relation order.
    pub fn quests_for_ender(&self, npc_entry: u32) -> (r: Vec<&QuestTemplate>)
        ensures
            r@.len() == held_ids(relation_at(self.ender_quests@, npc_entry), self.quests@).len(),
            forall|i: int| 0 <= i < r@.len() ==> *r@[i] == self.quests@[held_ids(
                relation_at(self.ender_quests@, npc_entry),
                self.quests@,
            )[i]],
    {
        match self.ender_quests.get(&npc_entry) {
            Some(ids) => self.quests_of_ids(ids),
            None => Vec::new(),
        }
    }

    /// Whether a creature starts some quest.
    pub fn npc_has_start_quests(&self, npc_entry: u32) -> (b: bool)
        ensures
            b == (relation_at(self.starter_quests@, npc_entry).len() > 0),
    {
        match self.starter_quests.get(&npc_entry) {
            Some(v) => v.len() > 0,
            None => false,
        }
    }

    /// Whether a creature ends some quest.
    pub fn npc_has_end_quests(&self, npc_entry: u32) -> (b: bool)
        ensures
            b == (relation_at(self.ender_quests@, npc_entry).len() > 0),
    {
        match self.ender_quests.get(&npc_entry) {
            Some(v) => v.len() > 0,
            None => false,
        }
    }
}

impl Default for QuestStore {
    fn default() -> (s: Self)
        ensures
            s.quests@.is_empty(),
            s.starter_quests@.is_empty(),
            s.ender_quests@.is_empty(),
    {
        Self::new()
    }
}

/// Builds the quest store from the rows of the quest tables, each in table
/// order.
///
/// Templates are stored by id (a later one replacing an earlier one); each
/// objective is appended to the quest it names where that quest is stored;
/// each starter and ender relation is kept where its quest is stored.
pub fn load_quests(
    templates: Vec<QuestTemplate>,
    objectives: Vec<QuestObjective>,
    starters: Vec<(u32, u32)>,
    enders: Vec<(u32, u32)>,
) -> (s: QuestStore)
    ensures
        s.quests@.dom() == index_by_key(templates@).dom(),
        forall|id: u32| #[trigger] s.quests@.contains_key(id) ==> with_more_objectives(
            s.quests@[id],
            index_by_key(templates@)[id],
            objectives_of(objectives@, id),
        ),
        holds_relations(s.starter_quests@, relations_of(starters@, s.quests@.dom())),
        holds_relations(s.ender_quests@, relations_of(enders@, s.quests@.dom())),
{
    let mut quests = build_index(templates);
    let ghost base = quests@;
    let ghost all = objectives@;
    proof {
        assert forall|id: u32| #[trigger] quests@.contains_key(id) implies with_more_objectives(
            quests@[id],
            base[id],
            objectives_of(all.take(0), id),
        ) by {
            assert(base[id].objectives@ + seq![] =~= base[id].objectives@);
        }
    }
    for obj in it: objectives
        invariant
            all == it.seq(),
            quests@.dom() == base.dom(),
            forall|id: u32| #[trigger] quests@.contains_key(id) ==> with_more_objectives(
                quests@[id],
                base[id],
                objectives_of(all.take(it.index() as int), id),
            ),
    {
        let ghost i = it.index() as int;
        proof {
            assert(all.take(i + 1).drop_last() =~= all.take(i));
            assert(all.take(i + 1).last() == obj);
        }
        let qid = obj.quest_id;
        let ghost obj_copy = obj;
        let ghost before = quests@;
        match quests.remove(&qid) {
            Some(mut quest) => {
                let ghost q0 = quest;
                quest.objectives.push(obj);
                proof {
                    assert(quest.objectives@ == q0.objectives@.push(obj_copy));
                }
                quests.insert(qid, quest);
                proof {
                    assert forall|id: u32| #[trigger] quests@.contains_key(id) implies with_more_objectives(
                        quests@[id],
                        base[id],
                        objectives_of(all.take(i + 1), id),
                    ) by {
                        if id == qid {
                            assert(base[id].objectives@ + objectives_of(all.take(i), id).push(obj_copy) =~= (
                            base[id].objectives@ + objectives_of(all.take(i), id)).push(obj_copy));
                        } else {
                            assert(before.contains_key(id));
                        }
                    }
                    assert(quests@.dom() =~= base.dom());
                }
            },
            None => {
                proof {
                    assert forall|id: u32| #[trigger] quests@.contains_key(id) implies with_more_objectives(
                        quests@[id],
                        base[id],
                        objectives_of(all.take(i + 1), id),
                    ) by {
                        assert(id != qid);
                    }
                }
            },
        }
    }
    proof {
        assert(all.take(all.len() as int) =~= all);
    }
    let starter_quests = load_relations(starters, &quests);
    let ender_quests = load_relations(enders, &quests);
    QuestStore { quests, starter_quests, ender_quests }
}

/// Who may take a quest: a race numbered 1 to 64 needs its bit
/// `1 << (race - 1)` in the race mask, a class numbered 1 to 32 its bit
/// `1 << (class - 1)` in the class mask (a mask of 0 lets everyone), and the
/// level must reach the minimum and not pass the maximum (0 for none).
pub proof fn lemma_quest_availability(q: QuestTemplate, race: u8, class: u8, level: u8)
    requires
        1 <= race <= 64,
        1 <= class <= 32,
    ensures
        available_for(q, race, class, level) <==> {
            &&& (q.allowable_races == 0 || q.allowable_races & (1u64 << ((race - 1) as u64)) != 0)
            &&& (q.allowable_classes == 0 || q.allowable_classes & (1u32 << ((class - 1) as u32)) != 0)
            &&& (q.min_level <= 0 || level >= q.min_level)
            &&& (q.max_level == 0 || level <= q.max_level)
        },
{
}

} // verus!
