//! Armor, durability, damage and item effect tables.
use std::collections::HashMap;
use vstd::prelude::*;

use crate::db2_index::{build_index, index_by_key, Keyed};

verus! {

broadcast use vstd::std_specs::hash::group_hash_axioms;

/// A row of the ArmorLocation table.
///
/// Fields that the table stores as 32-bit floats hold their bit patterns.
#[derive(Debug, Clone, Copy, PartialEq, Eq)]
pub struct ArmorLocationEntry {
    pub id: u32,
    pub cloth_modifier: u32,
    pub leather_modifier: u32,
    pub chain_modifier: u32,
    pub plate_modifier: u32,
    pub modifier: u32,
}

impl Keyed for ArmorLocationEntry {
    open spec fn spec_key(&self) -> u32 {
        self.id
    }

    fn key(&self) -> (k: u32) {
        self.id
    }
}

/// A row of the DurabilityCosts table.
#[derive(Debug, Clone, PartialEq, Eq)]
pub struct DurabilityCostsEntry {
    pub id: u32,
    pub weapon_sub_class_cost: [u16; 21],
    pub armor_sub_class_cost: [u16; 8],
}

impl Keyed for DurabilityCostsEntry {
    open spec fn spec_key(&self) -> u32 {
        self.id
    }

    fn key(&self) -> (k: u32) {
        self.id
    }
}

/// A row of the DurabilityQuality table.
///
/// Fields that the table stores as 32-bit floats hold their bit patterns.
#[derive(Debug, Clone, Copy, PartialEq, Eq)]
pub struct DurabilityQualityEntry {
    pub id: u32,
    pub data: u32,
}

impl Keyed for DurabilityQualityEntry {
    open spec fn spec_key(&self) -> u32 {
        self.id
    }

    fn key(&self) -> (k: u32) {
        self.id
    }
}

/// A row of the ItemArmorQuality table.
///
/// Fields that the table stores as 32-bit floats hold their bit patterns.
#[derive(Debug, Clone, PartialEq, Eq)]
pub struct ItemArmorQualityEntry {
    pub id: u32,
    pub quality_mod: [u32; 7],
}

impl Keyed for ItemArmorQualityEntry {
    open spec fn spec_key(&self) -> u32 {
        self.id
    }

    fn key(&self) -> (k: u32) {
        self.id
    }
}

/// A row of the ItemArmorShield table.
///
/// Fields that the table stores as 32-bit floats hold their bit patterns.
#[derive(Debug, Clone, PartialEq, Eq)]
pub struct ItemArmorShieldEntry {
    pub id: u32,
    pub quality: [u32; 7],
    pub item_level: u16,
}

impl Keyed for ItemArmorShieldEntry {
    open spec fn spec_key(&self) -> u32 {
        self.id
    }

    fn key(&self) -> (k: u32) {
        self.id
    }
}

/// A row of the ItemArmorTotal table.
///
/// Fields that the table stores as 32-bit floats hold their bit patterns.
#[derive(Debug, Clone, Copy, PartialEq, Eq)]
pub struct ItemArmorTotalEntry {
    pub id: u32,
    pub item_level: i16,
    pub cloth: u32,
    pub leather: u32,
    pub mail: u32,
    pub plate: u32,
}

impl Keyed for ItemArmorTotalEntry {
    open spec fn spec_key(&self) -> u32 {
        self.id
    }

    fn key(&self) -> (k: u32) {
        self.id
    }
}

/// A row of the ItemBagFamily table.
#[derive(Debug, Clone, PartialEq, Eq)]
pub struct ItemBagFamilyEntry {
    pub id: u32,
    pub name: String,
}

impl Keyed for ItemBagFamilyEntry {
    open spec fn spec_key(&self) -> u32 {
        self.id
    }

    fn key(&self) -> (k: u32) {
        self.id
    }
}

/// A row of the ItemChildEquipment table.
#[derive(Debug, Clone, PartialEq, Eq)]
pub struct ItemChildEquipmentEntry {
    pub id: u32,
    pub child_item_id: i32,
    pub child_item_equip_slot: u8,
    pub parent_item_id: u32,
}

impl Keyed for ItemChildEquipmentEntry {
    open spec fn spec_key(&self) -> u32 {
        self.id
    }

    fn key(&self) -> (k: u32) {
        self.id
    }
}

/// A row of the ItemDamage table.
///
/// Fields that the table stores as 32-bit floats hold their bit patterns.
#[derive(Debug, Clone, PartialEq, Eq)]
pub struct ItemDamageEntry {
    pub id: u32,
    pub item_level: u16,
    pub quality: [u32; 7],
}

impl Keyed for ItemDamageEntry {
    open spec fn spec_key(&self) -> u32 {
        self.id
    }

    fn key(&self) -> (k: u32) {
        self.id
    }
}

/// A row of the ItemEffect table.
#[derive(Debug, Clone, PartialEq, Eq)]
pub struct ItemEffectEntry {
    pub id: u32,
    pub legacy_slot_index: u8,
    pub trigger_type: i8,
    pub charges: i16,
    pub cooldown_msec: i32,
    pub category_cooldown_msec: i32,
    pub spell_category_id: u16,
    pub spell_id: i32,
    pub chr_specialization_id: u16,
    pub parent_item_id: u32,
}

impl Keyed for ItemEffectEntry {
    open spec fn spec_key(&self) -> u32 {
        self.id
    }

    fn key(&self) -> (k: u32) {
        self.id
    }
}

/// Store of ArmorLocation rows indexed by id.
pub struct ArmorLocationStore {
    entries: HashMap<u32, ArmorLocationEntry>,
}

impl View for ArmorLocationStore {
    type V = Map<u32, ArmorLocationEntry>;

    closed spec fn view(&self) -> Map<u32, ArmorLocationEntry> {
        self.entries@
    }
}

impl ArmorLocationStore {
    /// Builds the store; a later row replaces an earlier one with the same id.
    pub fn from_entries(entries: Vec<ArmorLocationEntry>) -> (s: Self)
        ensures
            s@ == index_by_key(entries@),
    {
        ArmorLocationStore { entries: build_index(entries) }
    }

    /// Builds the store from the rows of the ArmorLocation table, in file order.
    pub fn load(rows: Vec<ArmorLocationEntry>) -> (s: Self)
        ensures
            s@ == index_by_key(rows@),
    {
        Self::from_entries(rows)
    }

    pub fn get(&self, id: u32) -> (r: Option<&ArmorLocationEntry>)
        ensures
            r == (if self@.contains_key(id) {
                Some(&self@[id])
            } else {
                None
            }),
    {
        self.entries.get(&id)
    }

    pub fn len(&self) -> (n: usize)
        ensures
            n == self@.len(),
    {
        self.entries.len()
    }

    pub fn is_empty(&self) -> (b: bool)
        ensures
            b == self@.is_empty(),
    {
        self.entries.is_empty()
    }
}

/// Store of DurabilityCosts rows indexed by id.
pub struct DurabilityCostsStore {
    entries: HashMap<u32, DurabilityCostsEntry>,
}

impl View for DurabilityCostsStore {
    type V = Map<u32, DurabilityCostsEntry>;

    closed spec fn view(&self) -> Map<u32, DurabilityCostsEntry> {
        self.entries@
    }
}

impl DurabilityCostsStore {
    /// Builds the store; a later row replaces an earlier one with the same id.
    pub fn from_entries(entries: Vec<DurabilityCostsEntry>) -> (s: Self)
        ensures
            s@ == index_by_key(entries@),
    {
        DurabilityCostsStore { entries: build_index(entries) }
    }

    /// Builds the store from the rows of the DurabilityCosts table, in file order.
    pub fn load(rows: Vec<DurabilityCostsEntry>) -> (s: Self)
        ensures
            s@ == index_by_key(rows@),
    {
        Self::from_entries(rows)
    }

    pub fn get(&self, id: u32) -> (r: Option<&DurabilityCostsEntry>)
        ensures
            r == (if self@.contains_key(id) {
                Some(&self@[id])
            } else {
                None
            }),
    {
        self.entries.get(&id)
    }

    pub fn len(&self) -> (n: usize)
        ensures
            n == self@.len(),
    {
        self.entries.len()
    }

    pub fn is_empty(&self) -> (b: bool)
        ensures
            b == self@.is_empty(),
    {
        self.entries.is_empty()
    }
}

/// Store of DurabilityQuality rows indexed by id.
pub struct DurabilityQualityStore {
    entries: HashMap<u32, DurabilityQualityEntry>,
}

impl View for DurabilityQualityStore {
    type V = Map<u32, DurabilityQualityEntry>;

    closed spec fn view(&self) -> Map<u32, DurabilityQualityEntry> {
        self.entries@
    }
}

impl DurabilityQualityStore {
    /// Builds the store; a later row replaces an earlier one with the same id.
    pub fn from_entries(entries: Vec<DurabilityQualityEntry>) -> (s: Self)
        ensures
            s@ == index_by_key(entries@),
    {
        DurabilityQualityStore { entries: build_index(entries) }
    }

    /// Builds the store from the rows of the DurabilityQuality table, in file order.
    pub fn load(rows: Vec<DurabilityQualityEntry>) -> (s: Self)
        ensures
            s@ == index_by_key(rows@),
    {
        Self::from_entries(rows)
    }

    pub fn get(&self, id: u32) -> (r: Option<&DurabilityQualityEntry>)
        ensures
            r == (if self@.contains_key(id) {
                Some(&self@[id])
            } else {
                None
            }),
    {
        self.entries.get(&id)
    }

    pub fn len(&self) -> (n: usize)
        ensures
            n == self@.len(),
    {
        self.entries.len()
    }

    pub fn is_empty(&self) -> (b: bool)
        ensures
            b == self@.is_empty(),
    {
        self.entries.is_empty()
    }
}

/// Store of ItemArmorQuality rows indexed by id.
pub struct ItemArmorQualityStore {
    entries: HashMap<u32, ItemArmorQualityEntry>,
}

impl View for ItemArmorQualityStore {
    type V = Map<u32, ItemArmorQualityEntry>;

    closed spec fn view(&self) -> Map<u32, ItemArmorQualityEntry> {
        self.entries@
    }
}

impl ItemArmorQualityStore {
    /// Builds the store; a later row replaces an earlier one with the same id.
    pub fn from_entries(entries: Vec<ItemArmorQualityEntry>) -> (s: Self)
        ensures
            s@ == index_by_key(entries@),
    {
        ItemArmorQualityStore { entries: build_index(entries) }
    }

    /// Builds the store from the rows of the ItemArmorQuality table, in file order.
    pub fn load(rows: Vec<ItemArmorQualityEntry>) -> (s: Self)
        ensures
            s@ == index_by_key(rows@),
    {
        Self::from_entries(rows)
    }

    pub fn get(&self, id: u32) -> (r: Option<&ItemArmorQualityEntry>)
        ensures
            r == (if self@.contains_key(id) {
                Some(&self@[id])
            } else {
                None
            }),
    {
        self.entries.get(&id)
    }

    pub fn len(&self) -> (n: usize)
        ensures
            n == self@.len(),
    {
        self.entries.len()
    }

    pub fn is_empty(&self) -> (b: bool)
        ensures
            b == self@.is_empty(),
    {
        self.entries.is_empty()
    }
}

/// Store of ItemArmorShield rows indexed by id.
pub struct ItemArmorShieldStore {
    entries: HashMap<u32, ItemArmorShieldEntry>,
}

impl View for ItemArmorShieldStore {
    type V = Map<u32, ItemArmorShieldEntry>;

    closed spec fn view(&self) -> Map<u32, ItemArmorShieldEntry> {
        self.entries@
    }
}

impl ItemArmorShieldStore {
    /// Builds the store; a later row replaces an earlier one with the same id.
    pub fn from_entries(entries: Vec<ItemArmorShieldEntry>) -> (s: Self)
        ensures
            s@ == index_by_key(entries@),
    {
        ItemArmorShieldStore { entries: build_index(entries) }
    }

    /// Builds the store from the rows of the ItemArmorShield table, in file order.
    pub fn load(rows: Vec<ItemArmorShieldEntry>) -> (s: Self)
        ensures
            s@ == index_by_key(rows@),
    {
        Self::from_entries(rows)
    }

    pub fn get(&self, id: u32) -> (r: Option<&ItemArmorShieldEntry>)
        ensures
            r == (if self@.contains_key(id) {
                Some(&self@[id])
            } else {
                None
            }),
    {
        self.entries.get(&id)
    }

    pub fn len(&self) -> (n: usize)
        ensures
            n == self@.len(),
    {
        self.entries.len()
    }

    pub fn is_empty(&self) -> (b: bool)
        ensures
            b == self@.is_empty(),
    {
        self.entries.is_empty()
    }
}

/// Store of ItemArmorTotal rows indexed by id.
pub struct ItemArmorTotalStore {
    entries: HashMap<u32, ItemArmorTotalEntry>,
}

impl View for ItemArmorTotalStore {
    type V = Map<u32, ItemArmorTotalEntry>;

    closed spec fn view(&self) -> Map<u32, ItemArmorTotalEntry> {
        self.entries@
    }
}

impl ItemArmorTotalStore {
    /// Builds the store; a later row replaces an earlier one with the same id.
    pub fn from_entries(entries: Vec<ItemArmorTotalEntry>) -> (s: Self)
        ensures
            s@ == index_by_key(entries@),
    {
        ItemArmorTotalStore { entries: build_index(entries) }
    }

    /// Builds the store from the rows of the ItemArmorTotal table, in file order.
    pub fn load(rows: Vec<ItemArmorTotalEntry>) -> (s: Self)
        ensures
            s@ == index_by_key(rows@),
    {
        Self::from_entries(rows)
    }

    pub fn get(&self, id: u32) -> (r: Option<&ItemArmorTotalEntry>)
        ensures
            r == (if self@.contains_key(id) {
                Some(&self@[id])
            } else {
                None
            }),
    {
        self.entries.get(&id)
    }

    pub fn len(&self) -> (n: usize)
        ensures
            n == self@.len(),
    {
        self.entries.len()
    }

    pub fn is_empty(&self) -> (b: bool)
        ensures
            b == self@.is_empty(),
    {
        self.entries.is_empty()
    }
}

/// Store of ItemBagFamily rows indexed by id.
pub struct ItemBagFamilyStore {
    entries: HashMap<u32, ItemBagFamilyEntry>,
}

impl View for ItemBagFamilyStore {
    type V = Map<u32, ItemBagFamilyEntry>;

    closed spec fn view(&self) -> Map<u32, ItemBagFamilyEntry> {
        self.entries@
    }
}

impl ItemBagFamilyStore {
    /// Builds the store; a later row replaces an earlier one with the same id.
    pub fn from_entries(entries: Vec<ItemBagFamilyEntry>) -> (s: Self)
        ensures
            s@ == index_by_key(entries@),
    {
        ItemBagFamilyStore { entries: build_index(entries) }
    }

    /// Builds the store from the rows of the ItemBagFamily table, in file order.
    pub fn load(rows: Vec<ItemBagFamilyEntry>) -> (s: Self)
        ensures
            s@ == index_by_key(rows@),
    {
        Self::from_entries(rows)
    }

    pub fn get(&self, id: u32) -> (r: Option<&ItemBagFamilyEntry>)
        ensures
            r == (if self@.contains_key(id) {
                Some(&self@[id])
            } else {
                None
            }),
    {
        self.entries.get(&id)
    }

    pub fn len(&self) -> (n: usize)
        ensures
            n == self@.len(),
    {
        self.entries.len()
    }

    pub fn is_empty(&self) -> (b: bool)
        ensures
            b == self@.is_empty(),
    {
        self.entries.is_empty()
    }
}

/// Store of ItemChildEquipment rows indexed by id.
pub struct ItemChildEquipmentStore {
    entries: HashMap<u32, ItemChildEquipmentEntry>,
}

impl View for ItemChildEquipmentStore {
    type V = Map<u32, ItemChildEquipmentEntry>;

    closed spec fn view(&self) -> Map<u32, ItemChildEquipmentEntry> {
        self.entries@
    }
}

impl ItemChildEquipmentStore {
    /// Builds the store; a later row replaces an earlier one with the same id.
    pub fn from_entries(entries: Vec<ItemChildEquipmentEntry>) -> (s: Self)
        ensures
            s@ == index_by_key(entries@),
    {
        ItemChildEquipmentStore { entries: build_index(entries) }
    }

    /// Builds the store from the rows of the ItemChildEquipment table, in file order.
    pub fn load(rows: Vec<ItemChildEquipmentEntry>) -> (s: Self)
        ensures
            s@ == index_by_key(rows@),
    {
        Self::from_entries(rows)
    }

    pub fn get(&self, id: u32) -> (r: Option<&ItemChildEquipmentEntry>)
        ensures
            r == (if self@.contains_key(id) {
                Some(&self@[id])
            } else {
                None
            }),
    {
        self.entries.get(&id)
    }

    pub fn len(&self) -> (n: usize)
        ensures
            n == self@.len(),
    {
        self.entries.len()
    }

    pub fn is_empty(&self) -> (b: bool)
        ensures
            b == self@.is_empty(),
    {
        self.entries.is_empty()
    }
}

/// Store of ItemDamageAmmo rows indexed by id.
pub struct ItemDamageAmmoStore {
    entries: HashMap<u32, ItemDamageEntry>,
}

impl View for ItemDamageAmmoStore {
    type V = Map<u32, ItemDamageEntry>;

    closed spec fn view(&self) -> Map<u32, ItemDamageEntry> {
        self.entries@
    }
}

impl ItemDamageAmmoStore {
    /// Builds the store; a later row replaces an earlier one with the same id.
    pub fn from_entries(entries: Vec<ItemDamageEntry>) -> (s: Self)
        ensures
            s@ == index_by_key(entries@),
    {
        ItemDamageAmmoStore { entries: build_index(entries) }
    }

    /// Builds the store from the rows of the ItemDamageAmmo table, in file order.
    pub fn load(rows: Vec<ItemDamageEntry>) -> (s: Self)
        ensures
            s@ == index_by_key(rows@),
    {
        Self::from_entries(rows)
    }

    pub fn get(&self, id: u32) -> (r: Option<&ItemDamageEntry>)
        ensures
            r == (if self@.contains_key(id) {
                Some(&self@[id])
            } else {
                None
            }),
    {
        self.entries.get(&id)
    }

    pub fn len(&self) -> (n: usize)
        ensures
            n == self@.len(),
    {
        self.entries.len()
    }

    pub fn is_empty(&self) -> (b: bool)
        ensures
            b == self@.is_empty(),
    {
        self.entries.is_empty()
    }
}

/// Store of ItemDamageOneHand rows indexed by id.
pub struct ItemDamageOneHandStore {
    entries: HashMap<u32, ItemDamageEntry>,
}

impl View for ItemDamageOneHandStore {
    type V = Map<u32, ItemDamageEntry>;

    closed spec fn view(&self) -> Map<u32, ItemDamageEntry> {
        self.entries@
    }
}

impl ItemDamageOneHandStore {
    /// Builds the store; a later row replaces an earlier one with the same id.
    pub fn from_entries(entries: Vec<ItemDamageEntry>) -> (s: Self)
        ensures
            s@ == index_by_key(entries@),
    {
        ItemDamageOneHandStore { entries: build_index(entries) }
    }

    /// Builds the store from the rows of the ItemDamageOneHand table, in file order.
    pub fn load(rows: Vec<ItemDamageEntry>) -> (s: Self)
        ensures
            s@ == index_by_key(rows@),
    {
        Self::from_entries(rows)
    }

    pub fn get(&self, id: u32) -> (r: Option<&ItemDamageEntry>)
        ensures
            r == (if self@.contains_key(id) {
                Some(&self@[id])
            } else {
                None
            }),
    {
        self.entries.get(&id)
    }

    pub fn len(&self) -> (n: usize)
        ensures
            n == self@.len(),
    {
        self.entries.len()
    }

    pub fn is_empty(&self) -> (b: bool)
        ensures
            b == self@.is_empty(),
    {
        self.entries.is_empty()
    }
}

/// Store of ItemDamageOneHandCaster rows indexed by id.
pub struct ItemDamageOneHandCasterStore {
    entries: HashMap<u32, ItemDamageEntry>,
}

impl View for ItemDamageOneHandCasterStore {
    type V = Map<u32, ItemDamageEntry>;

    closed spec fn view(&self) -> Map<u32, ItemDamageEntry> {
        self.entries@
    }
}

impl ItemDamageOneHandCasterStore {
    /// Builds the store; a later row replaces an earlier one with the same id.
    pub fn from_entries(entries: Vec<ItemDamageEntry>) -> (s: Self)
        ensures
            s@ == index_by_key(entries@),
    {
        ItemDamageOneHandCasterStore { entries: build_index(entries) }
    }

    /// Builds the store from the rows of the ItemDamageOneHandCaster table, in file order.
    pub fn load(rows: Vec<ItemDamageEntry>) -> (s: Self)
        ensures
            s@ == index_by_key(rows@),
    {
        Self::from_entries(rows)
    }

    pub fn get(&self, id: u32) -> (r: Option<&ItemDamageEntry>)
        ensures
            r == (if self@.contains_key(id) {
                Some(&self@[id])
            } else {
                None
            }),
    {
        self.entries.get(&id)
    }

    pub fn len(&self) -> (n: usize)
        ensures
            n == self@.len(),
    {
        self.entries.len()
    }

    pub fn is_empty(&self) -> (b: bool)
        ensures
            b == self@.is_empty(),
    {
        self.entries.is_empty()
    }
}

/// Store of ItemDamageTwoHand rows indexed by id.
pub struct ItemDamageTwoHandStore {
    entries: HashMap<u32, ItemDamageEntry>,
}

impl View for ItemDamageTwoHandStore {
    type V = Map<u32, ItemDamageEntry>;

    closed spec fn view(&self) -> Map<u32, ItemDamageEntry> {
        self.entries@
    }
}

impl ItemDamageTwoHandStore {
    /// Builds the store; a later row replaces an earlier one with the same id.
    pub fn from_entries(entries: Vec<ItemDamageEntry>) -> (s: Self)
        ensures
            s@ == index_by_key(entries@),
    {
        ItemDamageTwoHandStore { entries: build_index(entries) }
    }

    /// Builds the store from the rows of the ItemDamageTwoHand table, in file order.
    pub fn load(rows: Vec<ItemDamageEntry>) -> (s: Self)
        ensures
            s@ == index_by_key(rows@),
    {
        Self::from_entries(rows)
    }

    pub fn get(&self, id: u32) -> (r: Option<&ItemDamageEntry>)
        ensures
            r == (if self@.contains_key(id) {
                Some(&self@[id])
            } else {
                None
            }),
    {
        self.entries.get(&id)
    }

    pub fn len(&self) -> (n: usize)
        ensures
            n == self@.len(),
    {
        self.entries.len()
    }

    pub fn is_empty(&self) -> (b: bool)
        ensures
            b == self@.is_empty(),
    {
        self.entries.is_empty()
    }
}

/// Store of ItemDamageTwoHandCaster rows indexed by id.
pub struct ItemDamageTwoHandCasterStore {
    entries: HashMap<u32, ItemDamageEntry>,
}

impl View for ItemDamageTwoHandCasterStore {
    type V = Map<u32, ItemDamageEntry>;

    closed spec fn view(&self) -> Map<u32, ItemDamageEntry> {
        self.entries@
    }
}

impl ItemDamageTwoHandCasterStore {
    /// Builds the store; a later row replaces an earlier one with the same id.
    pub fn from_entries(entries: Vec<ItemDamageEntry>) -> (s: Self)
        ensures
            s@ == index_by_key(entries@),
    {
        ItemDamageTwoHandCasterStore { entries: build_index(entries) }
    }

    /// Builds the store from the rows of the ItemDamageTwoHandCaster table, in file order.
    pub fn load(rows: Vec<ItemDamageEntry>) -> (s: Self)
        ensures
            s@ == index_by_key(rows@),
    {
        Self::from_entries(rows)
    }

    pub fn get(&self, id: u32) -> (r: Option<&ItemDamageEntry>)
        ensures
            r == (if self@.contains_key(id) {
                Some(&self@[id])
            } else {
                None
            }),
    {
        self.entries.get(&id)
    }

    pub fn len(&self) -> (n: usize)
        ensures
            n == self@.len(),
    {
        self.entries.len()
    }

    pub fn is_empty(&self) -> (b: bool)
        ensures
            b == self@.is_empty(),
    {
        self.entries.is_empty()
    }
}

/// Store of ItemEffect rows indexed by id.
pub struct ItemEffectStore {
    entries: HashMap<u32, ItemEffectEntry>,
}

impl View for ItemEffectStore {
    type V = Map<u32, ItemEffectEntry>;

    closed spec fn view(&self) -> Map<u32, ItemEffectEntry> {
        self.entries@
    }
}

impl ItemEffectStore {
    /// Builds the store; a later row replaces an earlier one with the same id.
    pub fn from_entries(entries: Vec<ItemEffectEntry>) -> (s: Self)
        ensures
            s@ == index_by_key(entries@),
    {
        ItemEffectStore { entries: build_index(entries) }
    }

    /// Builds the store from the rows of the ItemEffect table, in file order.
    pub fn load(rows: Vec<ItemEffectEntry>) -> (s: Self)
        ensures
            s@ == index_by_key(rows@),
    {
        Self::from_entries(rows)
    }

    pub fn get(&self, id: u32) -> (r: Option<&ItemEffectEntry>)
        ensures
            r == (if self@.contains_key(id) {
                Some(&self@[id])
            } else {
                None
            }),
    {
        self.entries.get(&id)
    }

    pub fn len(&self) -> (n: usize)
        ensures
            n == self@.len(),
    {
        self.entries.len()
    }

    pub fn is_empty(&self) -> (b: bool)
        ensures
            b == self@.is_empty(),
    {
        self.entries.is_empty()
    }
}


} // verus!
