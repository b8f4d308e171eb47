//! Economy, collection, cosmetic and battle pet tables.
use std::collections::HashMap;
use vstd::prelude::*;

use crate::db2_index::{build_index, index_by_key, index_values, is_stored_value, Keyed};

verus! {

broadcast use vstd::std_specs::hash::group_hash_axioms;

/// A row of the AuctionHouse table.
#[derive(Debug, Clone, PartialEq, Eq)]
pub struct AuctionHouseEntry {
    pub id: u32,
    pub name: String,
    pub faction_id: u16,
    pub deposit_rate: u8,
    pub consignment_rate: u8,
}

impl Keyed for AuctionHouseEntry {
    open spec fn spec_key(&self) -> u32 {
        self.id
    }

    fn key(&self) -> (k: u32) {
        self.id
    }
}

/// A row of the BankBagSlotPrices table.
#[derive(Debug, Clone, PartialEq, Eq)]
pub struct BankBagSlotPricesEntry {
    pub id: u32,
    pub cost: u32,
}

impl Keyed for BankBagSlotPricesEntry {
    open spec fn spec_key(&self) -> u32 {
        self.id
    }

    fn key(&self) -> (k: u32) {
        self.id
    }
}

/// A row of the BattlePetAbility table.
#[derive(Debug, Clone, PartialEq)]
pub struct BattlePetAbilityEntry {
    pub id: u32,
    pub name: String,
    pub description: String,
    pub icon_file_data_id: i32,
    pub pet_type_enum: i8,
    pub cooldown: u32,
    pub battle_pet_visual_id: u16,
    pub flags: u8,
}

impl Keyed for BattlePetAbilityEntry {
    open spec fn spec_key(&self) -> u32 {
        self.id
    }

    fn key(&self) -> (k: u32) {
        self.id
    }
}

/// A row of the BattlePetBreedQuality table.
///
/// Fields that the table stores as 32-bit floats hold their bit patterns.
#[derive(Debug, Clone, Copy, PartialEq, Eq)]
pub struct BattlePetBreedQualityEntry {
    pub id: u32,
    pub state_multiplier: u32,
    pub quality_enum: u8,
}

impl Keyed for BattlePetBreedQualityEntry {
    open spec fn spec_key(&self) -> u32 {
        self.id
    }

    fn key(&self) -> (k: u32) {
        self.id
    }
}

/// A row of the BattlePetBreedState table.
#[derive(Debug, Clone, PartialEq, Eq)]
pub struct BattlePetBreedStateEntry {
    pub id: u32,
    pub battle_pet_state_id: u8,
    pub value: u16,
    pub battle_pet_breed_id: u32,
}

impl Keyed for BattlePetBreedStateEntry {
    open spec fn spec_key(&self) -> u32 {
        self.id
    }

    fn key(&self) -> (k: u32) {
        self.id
    }
}

/// A row of the BattlePetSpeciesState table.
#[derive(Debug, Clone, PartialEq, Eq)]
pub struct BattlePetSpeciesStateEntry {
    pub id: u32,
    pub battle_pet_state_id: u8,
    pub value: i32,
    pub battle_pet_species_id: u32,
}

impl Keyed for BattlePetSpeciesStateEntry {
    open spec fn spec_key(&self) -> u32 {
        self.id
    }

    fn key(&self) -> (k: u32) {
        self.id
    }
}

/// A row of the CurrencyContainer table.
#[derive(Debug, Clone, PartialEq, Eq)]
pub struct CurrencyContainerEntry {
    pub id: u32,
    pub container_name: String,
    pub container_description: String,
    pub min_amount: i32,
    pub max_amount: i32,
    pub container_icon_id: i32,
    pub container_quality: i32,
    pub on_loot_spell_visual_kit_id: i32,
    pub currency_types_id: u32,
}

impl Keyed for CurrencyContainerEntry {
    open spec fn spec_key(&self) -> u32 {
        self.id
    }

    fn key(&self) -> (k: u32) {
        self.id
    }
}

/// A row of the Heirloom table.
#[derive(Debug, Clone, PartialEq, Eq)]
pub struct HeirloomEntry {
    pub id: u32,
    pub source_text: String,
    pub item_id: i32,
    pub legacy_upgraded_item_id: i32,
    pub static_upgraded_item_id: i32,
    pub source_type_enum: i8,
    pub flags: u8,
    pub legacy_item_id: i32,
    pub upgrade_item_id: [i32; 6],
    pub upgrade_item_bonus_list_id: [u16; 6],
}

impl Keyed for HeirloomEntry {
    open spec fn spec_key(&self) -> u32 {
        self.id
    }

    fn key(&self) -> (k: u32) {
        self.id
    }
}

/// A row of the Toy table.
#[derive(Debug, Clone, PartialEq, Eq)]
pub struct ToyEntry {
    pub id: u32,
    pub source_text: String,
    pub item_id: i32,
    pub flags: u8,
    pub source_type_enum: i8,
}

impl Keyed for ToyEntry {
    open spec fn spec_key(&self) -> u32 {
        self.id
    }

    fn key(&self) -> (k: u32) {
        self.id
    }
}

/// A row of the TransmogHoliday table.
#[derive(Debug, Clone, PartialEq, Eq)]
pub struct TransmogHolidayEntry {
    pub id: u32,
    pub required_transmog_holiday: i32,
}

impl Keyed for TransmogHolidayEntry {
    open spec fn spec_key(&self) -> u32 {
        self.id
    }

    fn key(&self) -> (k: u32) {
        self.id
    }
}

/// A row of the TransmogSet table.
#[derive(Debug, PartialEq, Eq)]
pub struct TransmogSetEntry {
    pub id: u32,
    pub name: String,
    pub class_mask: i32,
    pub tracking_quest_id: u32,
    pub flags: i32,
    pub transmog_set_group_id: u32,
    pub item_name_description_id: i32,
    pub parent_transmog_set_id: u16,
    pub expansion_id: u8,
    pub ui_order: i16,
}

impl Keyed for TransmogSetEntry {
    open spec fn spec_key(&self) -> u32 {
        self.id
    }

    fn key(&self) -> (k: u32) {
        self.id
    }
}

/// A row of the TransmogSetGroup table.
#[derive(Debug, Clone, PartialEq, Eq)]
pub struct TransmogSetGroupEntry {
    pub id: u32,
    pub name: String,
}

impl Keyed for TransmogSetGroupEntry {
    open spec fn spec_key(&self) -> u32 {
        self.id
    }

    fn key(&self) -> (k: u32) {
        self.id
    }
}

/// A row of the TransmogSetItem table.
#[derive(Debug, Clone, Copy, PartialEq, Eq)]
pub struct TransmogSetItemEntry {
    pub id: u32,
    pub transmog_set_id: u32,
    pub item_modified_appearance_id: u32,
    pub flags: i32,
}

impl Keyed for TransmogSetItemEntry {
    open spec fn spec_key(&self) -> u32 {
        self.id
    }

    fn key(&self) -> (k: u32) {
        self.id
    }
}

/// Store of AuctionHouse rows indexed by id.
pub struct AuctionHouseStore {
    entries: HashMap<u32, AuctionHouseEntry>,
}

impl View for AuctionHouseStore {
    type V = Map<u32, AuctionHouseEntry>;

    closed spec fn view(&self) -> Map<u32, AuctionHouseEntry> {
        self.entries@
    }
}

impl AuctionHouseStore {
    /// Builds the store; a later row replaces an earlier one with the same id.
    pub fn from_entries(entries: Vec<AuctionHouseEntry>) -> (s: Self)
        ensures
            s@ == index_by_key(entries@),
    {
        AuctionHouseStore { entries: build_index(entries) }
    }

    /// Builds the store from the rows of the AuctionHouse table, in file order.
    pub fn load(rows: Vec<AuctionHouseEntry>) -> (s: Self)
        ensures
            s@ == index_by_key(rows@),
    {
        Self::from_entries(rows)
    }

    pub fn get(&self, id: u32) -> (r: Option<&AuctionHouseEntry>)
        ensures
            r == (if self@.contains_key(id) {
                Some(&self@[id])
            } else {
                None
            }),
    {
        self.entries.get(&id)
    }

    /// All stored rows, each once, in no particular order.
    pub fn values(&self) -> (r: Vec<&AuctionHouseEntry>)
        ensures
            r@.len() == self@.len(),
            forall|i: int| #![trigger r@[i]] 0 <= i < r@.len() ==> is_stored_value(self@, *r@[i]),
            forall|k: u32| #[trigger] self@.contains_key(k) ==> exists|i: int|
                0 <= i < r@.len() && *r@[i] == self@[k],
    {
        index_values(&self.entries)
    }

    pub fn len(&self) -> (n: usize)
        ensures
            n == self@.len(),
    {
        self.entries.len()
    }

    pub fn is_empty(&self) -> (b: bool)
        ensures
            b == self@.is_empty(),
    {
        self.entries.is_empty()
    }
}

/// Store of BankBagSlotPrices rows indexed by id.
pub struct BankBagSlotPricesStore {
    entries: HashMap<u32, BankBagSlotPricesEntry>,
}

impl View for BankBagSlotPricesStore {
    type V = Map<u32, BankBagSlotPricesEntry>;

    closed spec fn view(&self) -> Map<u32, BankBagSlotPricesEntry> {
        self.entries@
    }
}

impl BankBagSlotPricesStore {
    /// Builds the store; a later row replaces an earlier one with the same id.
    pub fn from_entries(entries: Vec<BankBagSlotPricesEntry>) -> (s: Self)
        ensures
            s@ == index_by_key(entries@),
    {
        BankBagSlotPricesStore { entries: build_index(entries) }
    }

    /// Builds the store from the rows of the BankBagSlotPrices table, in file order.
    pub fn load(rows: Vec<BankBagSlotPricesEntry>) -> (s: Self)
        ensures
            s@ == index_by_key(rows@),
    {
        Self::from_entries(rows)
    }

    pub fn get(&self, id: u32) -> (r: Option<&BankBagSlotPricesEntry>)
        ensures
            r == (if self@.contains_key(id) {
                Some(&self@[id])
            } else {
                None
            }),
    {
        self.entries.get(&id)
    }

    /// All stored rows, each once, in no particular order.
    pub fn values(&self) -> (r: Vec<&BankBagSlotPricesEntry>)
        ensures
            r@.len() == self@.len(),
            forall|i: int| #![trigger r@[i]] 0 <= i < r@.len() ==> is_stored_value(self@, *r@[i]),
            forall|k: u32| #[trigger] self@.contains_key(k) ==> exists|i: int|
                0 <= i < r@.len() && *r@[i] == self@[k],
    {
        index_values(&self.entries)
    }

    pub fn len(&self) -> (n: usize)
        ensures
            n == self@.len(),
    {
        self.entries.len()
    }

    pub fn is_empty(&self) -> (b: bool)
        ensures
            b == self@.is_empty(),
    {
        self.entries.is_empty()
    }
}

/// Store of BattlePetAbility rows indexed by id.
pub struct BattlePetAbilityStore {
    entries: HashMap<u32, BattlePetAbilityEntry>,
}

impl View for BattlePetAbilityStore {
    type V = Map<u32, BattlePetAbilityEntry>;

    closed spec fn view(&self) -> Map<u32, BattlePetAbilityEntry> {
        self.entries@
    }
}

impl BattlePetAbilityStore {
    /// Builds the store; a later row replaces an earlier one with the same id.
    pub fn from_entries(entries: Vec<BattlePetAbilityEntry>) -> (s: Self)
        ensures
            s@ == index_by_key(entries@),
    {
        BattlePetAbilityStore { entries: build_index(entries) }
    }

    /// Builds the store from the rows of the BattlePetAbility table, in file order.
    pub fn load(rows: Vec<BattlePetAbilityEntry>) -> (s: Self)
        ensures
            s@ == index_by_key(rows@),
    {
        Self::from_entries(rows)
    }

    pub fn get(&self, id: u32) -> (r: Option<&BattlePetAbilityEntry>)
        ensures
            r == (if self@.contains_key(id) {
                Some(&self@[id])
            } else {
                None
            }),
    {
        self.entries.get(&id)
    }

    /// All stored rows, each once, in no particular order.
    pub fn values(&self) -> (r: Vec<&BattlePetAbilityEntry>)
        ensures
            r@.len() == self@.len(),
            forall|i: int| #![trigger r@[i]] 0 <= i < r@.len() ==> is_stored_value(self@, *r@[i]),
            forall|k: u32| #[trigger] self@.contains_key(k) ==> exists|i: int|
                0 <= i < r@.len() && *r@[i] == self@[k],
    {
        index_values(&self.entries)
    }

    pub fn len(&self) -> (n: usize)
        ensures
            n == self@.len(),
    {
        self.entries.len()
    }

    pub fn is_empty(&self) -> (b: bool)
        ensures
            b == self@.is_empty(),
    {
        self.entries.is_empty()
    }
}

/// Store of BattlePetBreedQuality rows indexed by id.
pub struct BattlePetBreedQualityStore {
    entries: HashMap<u32, BattlePetBreedQualityEntry>,
}

impl View for BattlePetBreedQualityStore {
    type V = Map<u32, BattlePetBreedQualityEntry>;

    closed spec fn view(&self) -> Map<u32, BattlePetBreedQualityEntry> {
        self.entries@
    }
}

impl BattlePetBreedQualityStore {
    /// Builds the store; a later row replaces an earlier one with the same id.
    pub fn from_entries(entries: Vec<BattlePetBreedQualityEntry>) -> (s: Self)
        ensures
            s@ == index_by_key(entries@),
    {
        BattlePetBreedQualityStore { entries: build_index(entries) }
    }

    /// Builds the store from the rows of the BattlePetBreedQuality table, in file order.
    pub fn load(rows: Vec<BattlePetBreedQualityEntry>) -> (s: Self)
        ensures
            s@ == index_by_key(rows@),
    {
        Self::from_entries(rows)
    }

    pub fn get(&self, id: u32) -> (r: Option<&BattlePetBreedQualityEntry>)
        ensures
            r == (if self@.contains_key(id) {
                Some(&self@[id])
            } else {
                None
            }),
    {
        self.entries.get(&id)
    }

    /// All stored rows, each once, in no particular order.
    pub fn values(&self) -> (r: Vec<&BattlePetBreedQualityEntry>)
        ensures
            r@.len() == self@.len(),
            forall|i: int| #![trigger r@[i]] 0 <= i < r@.len() ==> is_stored_value(self@, *r@[i]),
            forall|k: u32| #[trigger] self@.contains_key(k) ==> exists|i: int|
                0 <= i < r@.len() && *r@[i] == self@[k],
    {
        index_values(&self.entries)
    }

    pub fn len(&self) -> (n: usize)
        ensures
            n == self@.len(),
    {
        self.entries.len()
    }

    pub fn is_empty(&self) -> (b: bool)
        ensures
            b == self@.is_empty(),
    {
        self.entries.is_empty()
    }
}

/// Store of BattlePetBreedState rows indexed by id.
pub struct BattlePetBreedStateStore {
    entries: HashMap<u32, BattlePetBreedStateEntry>,
}

impl View for BattlePetBreedStateStore {
    type V = Map<u32, BattlePetBreedStateEntry>;

    closed spec fn view(&self) -> Map<u32, BattlePetBreedStateEntry> {
        self.entries@
    }
}

impl BattlePetBreedStateStore {
    /// Builds the store; a later row replaces an earlier one with the same id.
    pub fn from_entries(entries: Vec<BattlePetBreedStateEntry>) -> (s: Self)
        ensures
            s@ == index_by_key(entries@),
    {
        BattlePetBreedStateStore { entries: build_index(entries) }
    }

    /// Builds the store from the rows of the BattlePetBreedState table, in file order.
    pub fn load(rows: Vec<BattlePetBreedStateEntry>) -> (s: Self)
        ensures
            s@ == index_by_key(rows@),
    {
        Self::from_entries(rows)
    }

    pub fn get(&self, id: u32) -> (r: Option<&BattlePetBreedStateEntry>)
        ensures
            r == (if self@.contains_key(id) {
                Some(&self@[id])
            } else {
                None
            }),
    {
        self.entries.get(&id)
    }

    /// All stored rows, each once, in no particular order.
    pub fn values(&self) -> (r: Vec<&BattlePetBreedStateEntry>)
        ensures
            r@.len() == self@.len(),
            forall|i: int| #![trigger r@[i]] 0 <= i < r@.len() ==> is_stored_value(self@, *r@[i]),
            forall|k: u32| #[trigger] self@.contains_key(k) ==> exists|i: int|
                0 <= i < r@.len() && *r@[i] == self@[k],
    {
        index_values(&self.entries)
    }

    pub fn len(&self) -> (n: usize)
        ensures
            n == self@.len(),
    {
        self.entries.len()
    }

    pub fn is_empty(&self) -> (b: bool)
        ensures
            b == self@.is_empty(),
    {
        self.entries.is_empty()
    }
}

/// Store of BattlePetSpeciesState rows indexed by id.
pub struct BattlePetSpeciesStateStore {
    entries: HashMap<u32, BattlePetSpeciesStateEntry>,
}

impl View for BattlePetSpeciesStateStore {
    type V = Map<u32, BattlePetSpeciesStateEntry>;

    closed spec fn view(&self) -> Map<u32, BattlePetSpeciesStateEntry> {
        self.entries@
    }
}

impl BattlePetSpeciesStateStore {
    /// Builds the store; a later row replaces an earlier one with the same id.
    pub fn from_entries(entries: Vec<BattlePetSpeciesStateEntry>) -> (s: Self)
        ensures
            s@ == index_by_key(entries@),
    {
        BattlePetSpeciesStateStore { entries: build_index(entries) }
    }

    /// Builds the store from the rows of the BattlePetSpeciesState table, in file order.
    pub fn load(rows: Vec<BattlePetSpeciesStateEntry>) -> (s: Self)
        ensures
            s@ == index_by_key(rows@),
    {
        Self::from_entries(rows)
    }

    pub fn get(&self, id: u32) -> (r: Option<&BattlePetSpeciesStateEntry>)
        ensures
            r == (if self@.contains_key(id) {
                Some(&self@[id])
            } else {
                None
            }),
    {
        self.entries.get(&id)
    }

    /// All stored rows, each once, in no particular order.
    pub fn values(&self) -> (r: Vec<&BattlePetSpeciesStateEntry>)
        ensures
            r@.len() == self@.len(),
            forall|i: int| #![trigger r@[i]] 0 <= i < r@.len() ==> is_stored_value(self@, *r@[i]),
            forall|k: u32| #[trigger] self@.contains_key(k) ==> exists|i: int|
                0 <= i < r@.len() && *r@[i] == self@[k],
    {
        index_values(&self.entries)
    }

    pub fn len(&self) -> (n: usize)
        ensures
            n == self@.len(),
    {
        self.entries.len()
    }

    pub fn is_empty(&self) -> (b: bool)
        ensures
            b == self@.is_empty(),
    {
        self.entries.is_empty()
    }
}

/// Store of CurrencyContainer rows indexed by id.
pub struct CurrencyContainerStore {
    entries: HashMap<u32, CurrencyContainerEntry>,
}

impl View for CurrencyContainerStore {
    type V = Map<u32, CurrencyContainerEntry>;

    closed spec fn view(&self) -> Map<u32, CurrencyContainerEntry> {
        self.entries@
    }
}

impl CurrencyContainerStore {
    /// Builds the store; a later row replaces an earlier one with the same id.
    pub fn from_entries(entries: Vec<CurrencyContainerEntry>) -> (s: Self)
        ensures
            s@ == index_by_key(entries@),
    {
        CurrencyContainerStore { entries: build_index(entries) }
    }

    /// Builds the store from the rows of the CurrencyContainer table, in file order.
    pub fn load(rows: Vec<CurrencyContainerEntry>) -> (s: Self)
        ensures
            s@ == index_by_key(rows@),
    {
        Self::from_entries(rows)
    }

    pub fn get(&self, id: u32) -> (r: Option<&CurrencyContainerEntry>)
        ensures
            r == (if self@.contains_key(id) {
                Some(&self@[id])
            } else {
                None
            }),
    {
        self.entries.get(&id)
    }

    /// All stored rows, each once, in no particular order.
    pub fn values(&self) -> (r: Vec<&CurrencyContainerEntry>)
        ensures
            r@.len() == self@.len(),
            forall|i: int| #![trigger r@[i]] 0 <= i < r@.len() ==> is_stored_value(self@, *r@[i]),
            forall|k: u32| #[trigger] self@.contains_key(k) ==> exists|i: int|
                0 <= i < r@.len() && *r@[i] == self@[k],
    {
        index_values(&self.entries)
    }

    pub fn len(&self) -> (n: usize)
        ensures
            n == self@.len(),
    {
        self.entries.len()
    }

    pub fn is_empty(&self) -> (b: bool)
        ensures
            b == self@.is_empty(),
    {
        self.entries.is_empty()
    }
}

/// Store of Heirloom rows indexed by id.
pub struct HeirloomStore {
    entries: HashMap<u32, HeirloomEntry>,
}

impl View for HeirloomStore {
    type V = Map<u32, HeirloomEntry>;

    closed spec fn view(&self) -> Map<u32, HeirloomEntry> {
        self.entries@
    }
}

impl HeirloomStore {
    /// Builds the store; a later row replaces an earlier one with the same id.
    pub fn from_entries(entries: Vec<HeirloomEntry>) -> (s: Self)
        ensures
            s@ == index_by_key(entries@),
    {
        HeirloomStore { entries: build_index(entries) }
    }

    /// Builds the store from the rows of the Heirloom table, in file order.
    pub fn load(rows: Vec<HeirloomEntry>) -> (s: Self)
        ensures
            s@ == index_by_key(rows@),
    {
        Self::from_entries(rows)
    }

    pub fn get(&self, id: u32) -> (r: Option<&HeirloomEntry>)
        ensures
            r == (if self@.contains_key(id) {
                Some(&self@[id])
            } else {
                None
            }),
    {
        self.entries.get(&id)
    }

    /// All stored rows, each once, in no particular order.
    pub fn values(&self) -> (r: Vec<&HeirloomEntry>)
        ensures
            r@.len() == self@.len(),
            forall|i: int| #![trigger r@[i]] 0 <= i < r@.len() ==> is_stored_value(self@, *r@[i]),
            forall|k: u32| #[trigger] self@.contains_key(k) ==> exists|i: int|
                0 <= i < r@.len() && *r@[i] == self@[k],
    {
        index_values(&self.entries)
    }

    pub fn len(&self) -> (n: usize)
        ensures
            n == self@.len(),
    {
        self.entries.len()
    }

    pub fn is_empty(&self) -> (b: bool)
        ensures
            b == self@.is_empty(),
    {
        self.entries.is_empty()
    }
}

/// Store of Toy rows indexed by id.
pub struct ToyStore {
    entries: HashMap<u32, ToyEntry>,
}

impl View for ToyStore {
    type V = Map<u32, ToyEntry>;

    closed spec fn view(&self) -> Map<u32, ToyEntry> {
        self.entries@
    }
}

impl ToyStore {
    /// Builds the store; a later row replaces an earlier one with the same id.
    pub fn from_entries(entries: Vec<ToyEntry>) -> (s: Self)
        ensures
            s@ == index_by_key(entries@),
    {
        ToyStore { entries: build_index(entries) }
    }

    /// Builds the store from the rows of the Toy table, in file order.
    pub fn load(rows: Vec<ToyEntry>) -> (s: Self)
        ensures
            s@ == index_by_key(rows@),
    {
        Self::from_entries(rows)
    }

    pub fn get(&self, id: u32) -> (r: Option<&ToyEntry>)
        ensures
            r == (if self@.contains_key(id) {
                Some(&self@[id])
            } else {
                None
            }),
    {
        self.entries.get(&id)
    }

    /// All stored rows, each once, in no particular order.
    pub fn values(&self) -> (r: Vec<&ToyEntry>)
        ensures
            r@.len() == self@.len(),
            forall|i: int| #![trigger r@[i]] 0 <= i < r@.len() ==> is_stored_value(self@, *r@[i]),
            forall|k: u32| #[trigger] self@.contains_key(k) ==> exists|i: int|
                0 <= i < r@.len() && *r@[i] == self@[k],
    {
        index_values(&self.entries)
    }

    pub fn len(&self) -> (n: usize)
        ensures
            n == self@.len(),
    {
        self.entries.len()
    }

    pub fn is_empty(&self) -> (b: bool)
        ensures
            b == self@.is_empty(),
    {
        self.entries.is_empty()
    }
}

/// Store of TransmogHoliday rows indexed by id.
pub struct TransmogHolidayStore {
    entries: HashMap<u32, TransmogHolidayEntry>,
}

impl View for TransmogHolidayStore {
    type V = Map<u32, TransmogHolidayEntry>;

    closed spec fn view(&self) -> Map<u32, TransmogHolidayEntry> {
        self.entries@
    }
}

impl TransmogHolidayStore {
    /// Builds the store; a later row replaces an earlier one with the same id.
    pub fn from_entries(entries: Vec<TransmogHolidayEntry>) -> (s: Self)
        ensures
            s@ == index_by_key(entries@),
    {
        TransmogHolidayStore { entries: build_index(entries) }
    }

    /// Builds the store from the rows of the TransmogHoliday table, in file order.
    pub fn load(rows: Vec<TransmogHolidayEntry>) -> (s: Self)
        ensures
            s@ == index_by_key(rows@),
    {
        Self::from_entries(rows)
    }

    pub fn get(&self, id: u32) -> (r: Option<&TransmogHolidayEntry>)
        ensures
            r == (if self@.contains_key(id) {
                Some(&self@[id])
            } else {
                None
            }),
    {
        self.entries.get(&id)
    }

    /// All stored rows, each once, in no particular order.
    pub fn values(&self) -> (r: Vec<&TransmogHolidayEntry>)
        ensures
            r@.len() == self@.len(),
            forall|i: int| #![trigger r@[i]] 0 <= i < r@.len() ==> is_stored_value(self@, *r@[i]),
            forall|k: u32| #[trigger] self@.contains_key(k) ==> exists|i: int|
                0 <= i < r@.len() && *r@[i] == self@[k],
    {
        index_values(&self.entries)
    }

    pub fn len(&self) -> (n: usize)
        ensures
            n == self@.len(),
    {
        self.entries.len()
    }

    pub fn is_empty(&self) -> (b: bool)
        ensures
            b == self@.is_empty(),
    {
        self.entries.is_empty()
    }
}

/// Store of TransmogSet rows indexed by id.
pub struct TransmogSetStore {
    entries: HashMap<u32, TransmogSetEntry>,
}

impl View for TransmogSetStore {
    type V = Map<u32, TransmogSetEntry>;

    closed spec fn view(&self) -> Map<u32, TransmogSetEntry> {
        self.entries@
    }
}

impl TransmogSetStore {
    /// Builds the store; a later row replaces an earlier one with the same id.
    pub fn from_entries(entries: Vec<TransmogSetEntry>) -> (s: Self)
        ensures
            s@ == index_by_key(entries@),
    {
        TransmogSetStore { entries: build_index(entries) }
    }

    /// Builds the store from the rows of the TransmogSet table, in file order.
    pub fn load(rows: Vec<TransmogSetEntry>) -> (s: Self)
        ensures
            s@ == index_by_key(rows@),
    {
        Self::from_entries(rows)
    }

    pub fn get(&self, id: u32) -> (r: Option<&TransmogSetEntry>)
        ensures
            r == (if self@.contains_key(id) {
                Some(&self@[id])
            } else {
                None
            }),
    {
        self.entries.get(&id)
    }

    /// All stored rows, each once, in no particular order.
    pub fn values(&self) -> (r: Vec<&TransmogSetEntry>)
        ensures
            r@.len() == self@.len(),
            forall|i: int| #![trigger r@[i]] 0 <= i < r@.len() ==> is_stored_value(self@, *r@[i]),
            forall|k: u32| #[trigger] self@.contains_key(k) ==> exists|i: int|
                0 <= i < r@.len() && *r@[i] == self@[k],
    {
        index_values(&self.entries)
    }

    pub fn len(&self) -> (n: usize)
        ensures
            n == self@.len(),
    {
        self.entries.len()
    }

    pub fn is_empty(&self) -> (b: bool)
        ensures
            b == self@.is_empty(),
    {
        self.entries.is_empty()
    }
}

/// Store of TransmogSetGroup rows indexed by id.
pub struct TransmogSetGroupStore {
    entries: HashMap<u32, TransmogSetGroupEntry>,
}

impl View for TransmogSetGroupStore {
    type V = Map<u32, TransmogSetGroupEntry>;

    closed spec fn view(&self) -> Map<u32, TransmogSetGroupEntry> {
        self.entries@
    }
}

impl TransmogSetGroupStore {
    /// Builds the store; a later row replaces an earlier one with the same id.
    pub fn from_entries(entries: Vec<TransmogSetGroupEntry>) -> (s: Self)
        ensures
            s@ == index_by_key(entries@),
    {
        TransmogSetGroupStore { entries: build_index(entries) }
    }

    /// Builds the store from the rows of the TransmogSetGroup table, in file order.
    pub fn load(rows: Vec<TransmogSetGroupEntry>) -> (s: Self)
        ensures
            s@ == index_by_key(rows@),
    {
        Self::from_entries(rows)
    }

    pub fn get(&self, id: u32) -> (r: Option<&TransmogSetGroupEntry>)
        ensures
            r == (if self@.contains_key(id) {
                Some(&self@[id])
            } else {
                None
            }),
    {
        self.entries.get(&id)
    }

    /// All stored rows, each once, in no particular order.
    pub fn values(&self) -> (r: Vec<&TransmogSetGroupEntry>)
        ensures
            r@.len() == self@.len(),
            forall|i: int| #![trigger r@[i]] 0 <= i < r@.len() ==> is_stored_value(self@, *r@[i]),
            forall|k: u32| #[trigger] self@.contains_key(k) ==> exists|i: int|
                0 <= i < r@.len() && *r@[i] == self@[k],
    {
        index_values(&self.entries)
    }

    pub fn len(&self) -> (n: usize)
        ensures
            n == self@.len(),
    {
        self.entries.len()
    }

    pub fn is_empty(&self) -> (b: bool)
        ensures
            b == self@.is_empty(),
    {
        self.entries.is_empty()
    }
}

impl Clone for TransmogSetEntry {
    fn clone(&self) -> (r: Self)
        ensures
            r == *self,
    {
        TransmogSetEntry {
            id: self.id,
            name: self.name.clone(),
            class_mask: self.class_mask,
            tracking_quest_id: self.tracking_quest_id,
            flags: self.flags,
            transmog_set_group_id: self.transmog_set_group_id,
            item_name_description_id: self.item_name_description_id,
            parent_transmog_set_id: self.parent_transmog_set_id,
            expansion_id: self.expansion_id,
            ui_order: self.ui_order,
        }
    }
}

/// The items of a transmog set, in table order.
pub open spec fn items_of_set(rows: Seq<TransmogSetItemEntry>, set_id: u32) -> Seq<
    TransmogSetItemEntry,
> {
    rows.filter_map(|e: TransmogSetItemEntry| if e.transmog_set_id == set_id {
        Some(e)
    } else {
        None
    })
}

/// The items whose set is among `sets`, in table order.
pub open spec fn items_with_known_set(
    rows: Seq<TransmogSetItemEntry>,
    sets: Map<u32, TransmogSetEntry>,
) -> Seq<TransmogSetItemEntry> {
    rows.filter_map(|e: TransmogSetItemEntry| if sets.contains_key(e.transmog_set_id) {
        Some(e)
    } else {
        None
    })
}

/// The sets that contain an item appearance, one per item row that names it,
/// in table order.
pub open spec fn sets_of_appearance(
    rows: Seq<TransmogSetItemEntry>,
    sets: Map<u32, TransmogSetEntry>,
    appearance_id: u32,
) -> Seq<TransmogSetEntry> {
    rows.filter_map(
        |e: TransmogSetItemEntry|
            if sets.contains_key(e.transmog_set_id) && e.item_modified_appearance_id == appearance_id {
                Some(sets[e.transmog_set_id])
            } else {
                None
            },
    )
}

/// Store of TransmogSetItem rows: by id, grouped by set, and (when built
/// together with the sets) the sets of each item appearance.
pub struct TransmogSetItemStore {
    entries: HashMap<u32, TransmogSetItemEntry>,
    by_transmog_set: HashMap<u32, Vec<TransmogSetItemEntry>>,
    by_item_modified_appearance: HashMap<u32, Vec<TransmogSetEntry>>,
}

impl View for TransmogSetItemStore {
    type V = (
        Map<u32, TransmogSetItemEntry>,
        Map<u32, Seq<TransmogSetItemEntry>>,
        Map<u32, Seq<TransmogSetEntry>>,
    );

    closed spec fn view(&self) -> (
        Map<u32, TransmogSetItemEntry>,
        Map<u32, Seq<TransmogSetItemEntry>>,
        Map<u32, Seq<TransmogSetEntry>>,
    ) {
        (
            self.entries@,
            self.by_transmog_set@.map_values(|v: Vec<TransmogSetItemEntry>| v@),
            self.by_item_modified_appearance@.map_values(|v: Vec<TransmogSetEntry>| v@),
        )
    }
}

/// Appending one row to `rows` extends the items of its set by that row and
/// leaves the other sets unchanged.
proof fn lemma_items_of_set_push(rows: Seq<TransmogSetItemEntry>, i: int, set_id: u32)
    requires
        0 <= i < rows.len(),
    ensures
        items_of_set(rows.take(i + 1), set_id) == items_of_set(rows.take(i), set_id) + (
        if rows[i].transmog_set_id == set_id {
            seq![rows[i]]
        } else {
            Seq::<TransmogSetItemEntry>::empty()
        }),
{
    rows.lemma_filter_map_take_succ(
        |e: TransmogSetItemEntry| if e.transmog_set_id == set_id {
            Some(e)
        } else {
            None
        },
        i,
    );
}

proof fn lemma_known_set_push(
    rows: Seq<TransmogSetItemEntry>,
    sets: Map<u32, TransmogSetEntry>,
    i: int,
)
    requires
        0 <= i < rows.len(),
    ensures
        items_with_known_set(rows.take(i + 1), sets) == items_with_known_set(rows.take(i), sets) + (
        if sets.contains_key(rows[i].transmog_set_id) {
            seq![rows[i]]
        } else {
            Seq::<TransmogSetItemEntry>::empty()
        }),
{
    rows.lemma_filter_map_take_succ(
        |e: TransmogSetItemEntry| if sets.contains_key(e.transmog_set_id) {
            Some(e)
        } else {
            None
        },
        i,
    );
}

proof fn lemma_sets_of_appearance_push(
    rows: Seq<TransmogSetItemEntry>,
    sets: Map<u32, TransmogSetEntry>,
    i: int,
    appearance_id: u32,
)
    requires
        0 <= i < rows.len(),
    ensures
        sets_of_appearance(rows.take(i + 1), sets, appearance_id) == sets_of_appearance(
            rows.take(i),
            sets,
            appearance_id,
        ) + (if sets.contains_key(rows[i].transmog_set_id) && rows[i].item_modified_appearance_id
            == appearance_id {
            seq![sets[rows[i].transmog_set_id]]
        } else {
            Seq::<TransmogSetEntry>::empty()
        }),
{
    rows.lemma_filter_map_take_succ(
        |e: TransmogSetItemEntry|
            if sets.contains_key(e.transmog_set_id) && e.item_modified_appearance_id
                == appearance_id {
                Some(sets[e.transmog_set_id])
            } else {
                None
            },
        i,
    );
}

impl TransmogSetItemStore {
    /// Builds the store: rows by id and every row under its set, in table
    /// order; no appearance index.
    pub fn from_entries(entries: Vec<TransmogSetItemEntry>) -> (s: Self)
        ensures
            s@.0 == index_by_key(entries@),
            forall|t: u32| #[trigger] s@.1.contains_key(t) <==> items_of_set(entries@, t).len() > 0,
            forall|t: u32| #[trigger] s@.1.contains_key(t) ==> s@.1[t] == items_of_set(entries@, t),
            s@.2 == Map::<u32, Seq<TransmogSetEntry>>::empty(),
    {
        let ghost all = entries@;
        let mut by_id: HashMap<u32, TransmogSetItemEntry> = HashMap::new();
        let mut by_transmog_set: HashMap<u32, Vec<TransmogSetItemEntry>> = HashMap::new();
        for entry in it: entries
            invariant
                all == it.seq(),
                by_id@ == index_by_key(all.take(it.index() as int)),
                forall|t: u32| #[trigger] by_transmog_set@.contains_key(t) <==> items_of_set(
                    all.take(it.index() as int),
                    t,
                ).len() > 0,
                forall|t: u32| #[trigger] by_transmog_set@.contains_key(t) ==> by_transmog_set@[t]@
                    == items_of_set(all.take(it.index() as int), t),
        {
            let ghost i = it.index() as int;
            proof {
                assert(all.take(i + 1).drop_last() =~= all.take(i));
            }
            let t = entry.transmog_set_id;
            let mut bucket = match by_transmog_set.remove(&t) {
                Some(v) => v,
                None => Vec::new(),
            };
            bucket.push(entry);
            by_transmog_set.insert(t, bucket);
            by_id.insert(entry.id, entry);
            proof {
                assert forall|t2: u32| #[trigger] by_transmog_set@.contains_key(t2) <==> items_of_set(
                    all.take(i + 1),
                    t2,
                ).len() > 0 by {
                    lemma_items_of_set_push(all, i, t2);
                }
                assert forall|t2: u32| #[trigger] by_transmog_set@.contains_key(t2) implies by_transmog_set@[t2]@
                    == items_of_set(all.take(i + 1), t2) by {
                    lemma_items_of_set_push(all, i, t2);
                }
            }
        }
        proof {
            assert(all.take(all.len() as int) =~= all);
        }
        let by_item_modified_appearance: HashMap<u32, Vec<TransmogSetEntry>> = HashMap::new();
        let s = TransmogSetItemStore { entries: by_id, by_transmog_set, by_item_modified_appearance };
        proof {
            assert(s@.2 =~= Map::<u32, Seq<TransmogSetEntry>>::empty());
        }
        s
    }

    /// Builds the store from item rows and the sets indexed by id.
    fn index_with_sets(entries: Vec<TransmogSetItemEntry>, sets_by_id: &HashMap<u32, TransmogSetEntry>) -> (s:
        Self)
        ensures
            s@.0 == index_by_key(items_with_known_set(entries@, sets_by_id@)),
            forall|t: u32| #[trigger] s@.1.contains_key(t) <==> items_of_set(
                items_with_known_set(entries@, sets_by_id@),
                t,
            ).len() > 0,
            forall|t: u32| #[trigger] s@.1.contains_key(t) ==> s@.1[t] == items_of_set(
                items_with_known_set(entries@, sets_by_id@),
                t,
            ),
            forall|a: u32| #[trigger] s@.2.contains_key(a) <==> sets_of_appearance(
                entries@,
                sets_by_id@,
                a,
            ).len() > 0,
            forall|a: u32| #[trigger] s@.2.contains_key(a) ==> s@.2[a] == sets_of_appearance(
                entries@,
                sets_by_id@,
                a,
            ),
    {
        let ghost known = sets_by_id@;
        let ghost all = entries@;
        let mut by_id: HashMap<u32, TransmogSetItemEntry> = HashMap::new();
        let mut by_transmog_set: HashMap<u32, Vec<TransmogSetItemEntry>> = HashMap::new();
        let mut by_item_modified_appearance: HashMap<u32, Vec<TransmogSetEntry>> = HashMap::new();
        for entry in it: entries
            invariant
                all == it.seq(),
                known == sets_by_id@,
                by_id@ == index_by_key(items_with_known_set(all.take(it.index() as int), known)),
                forall|t: u32| #[trigger] by_transmog_set@.contains_key(t) <==> items_of_set(
                    items_with_known_set(all.take(it.index() as int), known),
                    t,
                ).len() > 0,
                forall|t: u32| #[trigger] by_transmog_set@.contains_key(t) ==> by_transmog_set@[t]@
                    == items_of_set(items_with_known_set(all.take(it.index() as int), known), t),
                forall|a: u32| #[trigger] by_item_modified_appearance@.contains_key(a) <==> sets_of_appearance(
                    all.take(it.index() as int),
                    known,
                    a,
                ).len() > 0,
                forall|a: u32| #[trigger] by_item_modified_appearance@.contains_key(a)
                    ==> by_item_modified_appearance@[a]@ == sets_of_appearance(
                    all.take(it.index() as int),
                    known,
                    a,
                ),
        {
            let ghost i = it.index() as int;
            let ghost kept0 = items_with_known_set(all.take(i), known);
            proof {
                assert(all.take(i + 1).drop_last() =~= all.take(i));
                lemma_known_set_push(all, known, i);
            }
            match sets_by_id.get(&entry.transmog_set_id) {
                Some(set) => {
                    let a = entry.item_modified_appearance_id;
                    let mut sets_bucket = match by_item_modified_appearance.remove(&a) {
                        Some(v) => v,
                        None => Vec::new(),
                    };
                    sets_bucket.push(set.clone());
                    by_item_modified_appearance.insert(a, sets_bucket);
                    let t = entry.transmog_set_id;
                    let mut bucket = match by_transmog_set.remove(&t) {
                        Some(v) => v,
                        None => Vec::new(),
                    };
                    bucket.push(entry);
                    by_transmog_set.insert(t, bucket);
                    by_id.insert(entry.id, entry);
                    proof {
                        let kept1 = items_with_known_set(all.take(i + 1), known);
                        assert(kept1 == kept0.push(entry));
                        assert(kept1.drop_last() =~= kept0);
                        assert forall|t2: u32| #[trigger] by_transmog_set@.contains_key(t2)
                            <==> items_of_set(kept1, t2).len() > 0 by {
                            lemma_items_of_set_push(kept1, kept0.len() as int, t2);
                            assert(kept1.take(kept0.len() as int) =~= kept0);
                            assert(kept1.take(kept0.len() as int + 1) =~= kept1);
                        }
                        assert forall|t2: u32| #[trigger] by_transmog_set@.contains_key(t2) implies by_transmog_set@[t2]@
                            == items_of_set(kept1, t2) by {
                            lemma_items_of_set_push(kept1, kept0.len() as int, t2);
                            assert(kept1.take(kept0.len() as int) =~= kept0);
                            assert(kept1.take(kept0.len() as int + 1) =~= kept1);
                        }
                        assert forall|a2: u32| #[trigger] by_item_modified_appearance@.contains_key(a2)
                            <==> sets_of_appearance(all.take(i + 1), known, a2).len() > 0 by {
                            lemma_sets_of_appearance_push(all, known, i, a2);
                        }
                        assert forall|a2: u32| #[trigger] by_item_modified_appearance@.contains_key(a2)
                            implies by_item_modified_appearance@[a2]@ == sets_of_appearance(
                            all.take(i + 1),
                            known,
                            a2,
                        ) by {
                            lemma_sets_of_appearance_push(all, known, i, a2);
                        }
                    }
                },
                None => {
                    proof {
                        let kept1 = items_with_known_set(all.take(i + 1), known);
                        assert(kept1 == kept0);
                        assert forall|a2: u32| #[trigger] by_item_modified_appearance@.contains_key(a2)
                            <==> sets_of_appearance(all.take(i + 1), known, a2).len() > 0 by {
                            lemma_sets_of_appearance_push(all, known, i, a2);
                        }
                        assert forall|a2: u32| #[trigger] by_item_modified_appearance@.contains_key(a2)
                            implies by_item_modified_appearance@[a2]@ == sets_of_appearance(
                            all.take(i + 1),
                            known,
                            a2,
                        ) by {
                            lemma_sets_of_appearance_push(all, known, i, a2);
                        }
                    }
                },
            }
        }
        proof {
            assert(all.take(all.len() as int) =~= all);
        }
        TransmogSetItemStore { entries: by_id, by_transmog_set, by_item_modified_appearance }
    }

    /// Builds the store together with the sets: item rows whose set is not
    /// among `sets` are left out everywhere; the others are indexed by id and
    /// by set, and each item appearance lists the sets of its rows, in table
    /// order (a later set row replacing an earlier one with the same id).
    pub fn from_entries_and_sets(entries: Vec<TransmogSetItemEntry>, sets: Vec<TransmogSetEntry>) -> (s:
        Self)
        ensures
            s@.0 == index_by_key(items_with_known_set(entries@, index_by_key(sets@))),
            forall|t: u32| #[trigger] s@.1.contains_key(t) <==> items_of_set(
                items_with_known_set(entries@, index_by_key(sets@)),
                t,
            ).len() > 0,
            forall|t: u32| #[trigger] s@.1.contains_key(t) ==> s@.1[t] == items_of_set(
                items_with_known_set(entries@, index_by_key(sets@)),
                t,
            ),
            forall|a: u32| #[trigger] s@.2.contains_key(a) <==> sets_of_appearance(
                entries@,
                index_by_key(sets@),
                a,
            ).len() > 0,
            forall|a: u32| #[trigger] s@.2.contains_key(a) ==> s@.2[a] == sets_of_appearance(
                entries@,
                index_by_key(sets@),
                a,
            ),
    {
        let sets_by_id = build_index(sets);
        Self::index_with_sets(entries, &sets_by_id)
    }

    /// Builds the store from the rows of TransmogSetItem.db2, without the
    /// appearance index.
    pub fn load(rows: Vec<TransmogSetItemEntry>) -> (s: Self)
        ensures
            s@.0 == index_by_key(rows@),
            forall|t: u32| #[trigger] s@.1.contains_key(t) <==> items_of_set(rows@, t).len() > 0,
            forall|t: u32| #[trigger] s@.1.contains_key(t) ==> s@.1[t] == items_of_set(rows@, t),
            s@.2 == Map::<u32, Seq<TransmogSetEntry>>::empty(),
    {
        Self::from_entries(rows)
    }

    /// Builds the store from the rows of TransmogSetItem.db2 and the sets of
    /// a loaded TransmogSet store, with the appearance index.
    pub fn load_with_sets(rows: Vec<TransmogSetItemEntry>, transmog_set_store: &TransmogSetStore) -> (s:
        Self)
        ensures
            s@.0 == index_by_key(items_with_known_set(rows@, transmog_set_store@)),
            forall|t: u32| #[trigger] s@.1.contains_key(t) <==> items_of_set(
                items_with_known_set(rows@, transmog_set_store@),
                t,
            ).len() > 0,
            forall|t: u32| #[trigger] s@.1.contains_key(t) ==> s@.1[t] == items_of_set(
                items_with_known_set(rows@, transmog_set_store@),
                t,
            ),
            forall|a: u32| #[trigger] s@.2.contains_key(a) <==> sets_of_appearance(
                rows@,
                transmog_set_store@,
                a,
            ).len() > 0,
            forall|a: u32| #[trigger] s@.2.contains_key(a) ==> s@.2[a] == sets_of_appearance(
                rows@,
                transmog_set_store@,
                a,
            ),
    {
        Self::index_with_sets(rows, &transmog_set_store.entries)
    }

    pub fn get(&self, id: u32) -> (r: Option<&TransmogSetItemEntry>)
        ensures
            r == (if self@.0.contains_key(id) {
                Some(&self@.0[id])
            } else {
                None
            }),
    {
        self.entries.get(&id)
    }

    /// The items of a set, in table order; none when the set has none.
    pub fn get_transmog_set_items_like_cpp(&self, transmog_set_id: u32) -> (r: Option<
        &[TransmogSetItemEntry],
    >)
        ensures
            r matches Some(v) ==> self@.1.contains_key(transmog_set_id) && v@ == self@.1[transmog_set_id],
            r is None ==> !self@.1.contains_key(transmog_set_id),
    {
        match self.by_transmog_set.get(&transmog_set_id) {
            Some(v) => Some(v.as_slice()),
            None => None,
        }
    }

    /// The sets of an item appearance, in table order; none when it has none.
    pub fn get_transmog_sets_for_item_modified_appearance_like_cpp(
        &self,
        item_modified_appearance_id: u32,
    ) -> (r: Option<&[TransmogSetEntry]>)
        ensures
            r matches Some(v) ==> self@.2.contains_key(item_modified_appearance_id) && v@
                == self@.2[item_modified_appearance_id],
            r is None ==> !self@.2.contains_key(item_modified_appearance_id),
    {
        match self.by_item_modified_appearance.get(&item_modified_appearance_id) {
            Some(v) => Some(v.as_slice()),
            None => None,
        }
    }

    pub fn len(&self) -> (n: usize)
        ensures
            n == self@.0.len(),
    {
        self.entries.len()
    }

    pub fn is_empty(&self) -> (b: bool)
        ensures
            b == self@.0.is_empty(),
    {
        self.entries.is_empty()
    }
}


} // verus!
