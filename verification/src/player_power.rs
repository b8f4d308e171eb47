//! Which power slot each class gives each power type, as records name them.
use std::collections::HashMap;
use vstd::prelude::*;

verus! {

broadcast use vstd::std_specs::hash::group_hash_axioms;

/// A kind of power (resource) a unit can have.
#[derive(Debug, Clone, Copy, PartialEq, Eq, Hash, Structural)]
pub enum PowerType {
    Mana,
    Rage,
    Focus,
    Energy,
    ComboPoints,
    Runes,
    RunicPower,
    SoulShards,
    LunarPower,
    HolyPower,
    AlternatePower,
    Maelstrom,
    Chi,
    Insanity,
    BurningEmbers,
    DemonicFury,
    ArcaneCharges,
    Fury,
    Pain,
    Essence,
    RuneBlood,
    RuneFrost,
    RuneUnholy,
    AlternateQuest,
    AlternateEncounter,
    AlternateMount,
}

/// The number of a power type.
pub open spec fn power_number(p: PowerType) -> u32 {
    match p {
        PowerType::Mana => 0u32,
        PowerType::Rage => 1u32,
        PowerType::Focus => 2u32,
        PowerType::Energy => 3u32,
        PowerType::ComboPoints => 4u32,
        PowerType::Runes => 5u32,
        PowerType::RunicPower => 6u32,
        PowerType::SoulShards => 7u32,
        PowerType::LunarPower => 8u32,
        PowerType::HolyPower => 9u32,
        PowerType::AlternatePower => 10u32,
        PowerType::Maelstrom => 11u32,
        PowerType::Chi => 12u32,
        PowerType::Insanity => 13u32,
        PowerType::BurningEmbers => 14u32,
        PowerType::DemonicFury => 15u32,
        PowerType::ArcaneCharges => 16u32,
        PowerType::Fury => 17u32,
        PowerType::Pain => 18u32,
        PowerType::Essence => 19u32,
        PowerType::RuneBlood => 20u32,
        PowerType::RuneFrost => 21u32,
        PowerType::RuneUnholy => 22u32,
        PowerType::AlternateQuest => 23u32,
        PowerType::AlternateEncounter => 24u32,
        PowerType::AlternateMount => 25u32,
    }
}

impl PowerType {
    /// The number of this power type.
    pub fn number(self) -> (n: u32)
        ensures
            n == power_number(self),
    {
        match self {
            PowerType::Mana => 0,
            PowerType::Rage => 1,
            PowerType::Focus => 2,
            PowerType::Energy => 3,
            PowerType::ComboPoints => 4,
            PowerType::Runes => 5,
            PowerType::RunicPower => 6,
            PowerType::SoulShards => 7,
            PowerType::LunarPower => 8,
            PowerType::HolyPower => 9,
            PowerType::AlternatePower => 10,
            PowerType::Maelstrom => 11,
            PowerType::Chi => 12,
            PowerType::Insanity => 13,
            PowerType::BurningEmbers => 14,
            PowerType::DemonicFury => 15,
            PowerType::ArcaneCharges => 16,
            PowerType::Fury => 17,
            PowerType::Pain => 18,
            PowerType::Essence => 19,
            PowerType::RuneBlood => 20,
            PowerType::RuneFrost => 21,
            PowerType::RuneUnholy => 22,
            PowerType::AlternateQuest => 23,
            PowerType::AlternateEncounter => 24,
            PowerType::AlternateMount => 25,
        }
    }
}

/// A record: the power slot that class `class_id` gives power `power`.
#[derive(Debug, Clone, Copy, PartialEq, Eq, Structural)]
pub struct ClassPowerIndexRecord {
    pub class_id: u8,
    pub power: PowerType,
    pub power_index: usize,
}

impl ClassPowerIndexRecord {
    pub fn new(class_id: u8, power: PowerType, power_index: usize) -> (r: Self)
        ensures
            r == (ClassPowerIndexRecord { class_id, power, power_index }),
    {
        ClassPowerIndexRecord { class_id, power, power_index }
    }
}

/// The map key of a (class, power) pair.
pub open spec fn class_power_key(class_id: u8, power: PowerType) -> u32 {
    (class_id * 256 + power_number(power)) as u32
}

fn key_of(class_id: u8, power: PowerType) -> (k: u32)
    ensures
        k == class_power_key(class_id, power),
{
    (class_id as u32) * 256 + power.number()
}

/// The power slots that inserting `records`, in order, gives, by key; a later
/// record replaces an earlier one for the same pair.
pub open spec fn slots_of_records(records: Seq<ClassPowerIndexRecord>) -> Map<u32, usize>
    decreases records.len(),
{
    if records.len() == 0 {
        Map::empty()
    } else {
        let r = records.last();
        slots_of_records(records.drop_last()).insert(class_power_key(r.class_id, r.power), r.power_index)
    }
}

/// Power slots by (class, power) pair.
pub struct PlayerClassPowerIndexStore {
    indices: HashMap<u32, usize>,
}

impl View for PlayerClassPowerIndexStore {
    type V = Map<u32, usize>;

    closed spec fn view(&self) -> Map<u32, usize> {
        self.indices@
    }
}

impl PlayerClassPowerIndexStore {
    /// A store of the given records.
    pub fn from_records(records: Vec<ClassPowerIndexRecord>) -> (s: Self)
        ensures
            s@ == slots_of_records(records@),
    {
        let ghost all = records@;
        let mut s = PlayerClassPowerIndexStore { indices: HashMap::new() };
        let mut i: usize = 0;
        while i < records.len()
            invariant
                all == records@,
                i <= records.len(),
                s@ == slots_of_records(all.take(i as int)),
            decreases records.len() - i,
        {
            proof {
                assert(all.take(i + 1).drop_last() =~= all.take(i as int));
            }
            s.insert(records[i]);
            i = i + 1;
        }
        proof {
            assert(all.take(records.len() as int) =~= all);
        }
        s
    }

    /// Records that class `record.class_id` gives `record.power` the slot
    /// `record.power_index`, replacing an earlier record for the pair.
    pub fn insert(&mut self, record: ClassPowerIndexRecord)
        ensures
            final(self)@ == old(self)@.insert(class_power_key(record.class_id, record.power), record.power_index),
    {
        self.indices.insert(key_of(record.class_id, record.power), record.power_index);
    }

    /// The slot that class `class_id` gives `power`, if a record names it.
    pub fn power_index_by_class(&self, power: PowerType, class_id: u8) -> (r: Option<usize>)
        ensures
            r == (if self@.contains_key(class_power_key(class_id, power)) {
                Some(self@[class_power_key(class_id, power)])
            } else {
                None
            }),
    {
        match self.indices.get(&key_of(class_id, power)) {
            Some(i) => Some(*i),
            None => None,
        }
    }

    /// Number of (class, power) pairs with a slot.
    pub fn len(&self) -> (n: usize)
        ensures
            n == self@.len(),
    {
        self.indices.len()
    }

    /// Whether no pair has a slot.
    pub fn is_empty(&self) -> (b: bool)
        ensures
            b == self@.is_empty(),
    {
        self.indices.is_empty()
    }
}

/// Answers power slot questions from a record store.
pub struct Db2PlayerPowerIndexResolver {
    store: PlayerClassPowerIndexStore,
}

impl Db2PlayerPowerIndexResolver {
    /// The resolver over the store's slots.
    pub closed spec fn slots(&self) -> Map<u32, usize> {
        self.store@
    }

    pub fn new(store: PlayerClassPowerIndexStore) -> (r: Self)
        ensures
            r.slots() == store@,
    {
        Db2PlayerPowerIndexResolver { store }
    }

    pub fn from_records(records: Vec<ClassPowerIndexRecord>) -> (r: Self)
        ensures
            r.slots() == slots_of_records(records@),
    {
        Self::new(PlayerClassPowerIndexStore::from_records(records))
    }

    /// The store answering the questions.
    pub fn store(&self) -> (s: &PlayerClassPowerIndexStore)
        ensures
            s@ == self.slots(),
    {
        &self.store
    }

    /// The slot that class `class_id` gives `power`, if a record names it.
    pub fn power_index_by_class(&self, power: PowerType, class_id: u8) -> (r: Option<usize>)
        ensures
            r == (if self.slots().contains_key(class_power_key(class_id, power)) {
                Some(self.slots()[class_power_key(class_id, power)])
            } else {
                None
            }),
    {
        self.store.power_index_by_class(power, class_id)
    }
}

/// Distinct (class, power) pairs are stored under distinct keys, so a record
/// for one pair never changes the slot of another.
pub proof fn lemma_class_power_keys_distinct(c1: u8, p1: PowerType, c2: u8, p2: PowerType)
    requires
        (c1, p1) != (c2, p2),
    ensures
        class_power_key(c1, p1) != class_power_key(c2, p2),
{
}

} // verus!
