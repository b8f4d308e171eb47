//! Area trigger, light, liquid, taxi, transport, UI map and world effect tables.
use std::collections::HashMap;
use vstd::prelude::*;

use crate::db2_index::{build_index, index_by_key, index_values, is_stored_value, Keyed};

verus! {

broadcast use vstd::std_specs::hash::group_hash_axioms;

/// A two-dimensional position whose coordinates are the bit patterns of the
/// 32-bit floats the tables store.
#[derive(Debug, Clone, Copy, PartialEq, Eq)]
pub struct Db2Position2 {
    pub x: u32,
    pub y: u32,
}

/// A three-dimensional position whose coordinates are the bit patterns of the
/// 32-bit floats the tables store.
#[derive(Debug, Clone, Copy, PartialEq, Eq)]
pub struct Db2Position3 {
    pub x: u32,
    pub y: u32,
    pub z: u32,
}

/// A row of the AreaGroupMember table.
#[derive(Debug, Clone, PartialEq, Eq)]
pub struct AreaGroupMemberEntry {
    pub id: u32,
    pub area_id: u16,
    pub area_group_id: u32,
}

impl Keyed for AreaGroupMemberEntry {
    open spec fn spec_key(&self) -> u32 {
        self.id
    }

    fn key(&self) -> (k: u32) {
        self.id
    }
}

/// A row of the AreaTriggerDb2 table.
///
/// Fields that the table stores as 32-bit floats hold their bit patterns.
#[derive(Debug, Clone, PartialEq, Eq)]
pub struct AreaTriggerDb2Entry {
    pub id: u32,
    pub message: String,
    pub pos: Db2Position3,
    pub continent_id: i16,
    pub phase_use_flags: i8,
    pub phase_id: i16,
    pub phase_group_id: i16,
    pub radius: u32,
    pub box_length: u32,
    pub box_width: u32,
    pub box_height: u32,
    pub box_yaw: u32,
    pub shape_type: i8,
    pub shape_id: i16,
    pub area_trigger_action_set_id: i16,
    pub flags: i8,
}

impl Keyed for AreaTriggerDb2Entry {
    open spec fn spec_key(&self) -> u32 {
        self.id
    }

    fn key(&self) -> (k: u32) {
        self.id
    }
}

/// A row of the Light table.
///
/// Fields that the table stores as 32-bit floats hold their bit patterns.
#[derive(Debug, Clone, PartialEq, Eq)]
pub struct LightEntry {
    pub id: u32,
    pub game_coords: Db2Position3,
    pub game_falloff_start: u32,
    pub game_falloff_end: u32,
    pub continent_id: i16,
    pub light_params_id: [u16; 8],
}

impl Keyed for LightEntry {
    open spec fn spec_key(&self) -> u32 {
        self.id
    }

    fn key(&self) -> (k: u32) {
        self.id
    }
}

/// A row of the LiquidType table.
///
/// Fields that the table stores as 32-bit floats hold their bit patterns.
#[derive(Debug, Clone, PartialEq, Eq)]
pub struct LiquidTypeEntry {
    pub id: u32,
    pub name: String,
    pub texture: [String; 6],
    pub flags: u16,
    pub sound_bank: u8,
    pub sound_id: u32,
    pub spell_id: u32,
    pub max_darken_depth: u32,
    pub fog_darken_intensity: u32,
    pub amb_darken_intensity: u32,
    pub dir_darken_intensity: u32,
    pub light_id: u16,
    pub particle_scale: u32,
    pub particle_movement: u8,
    pub particle_tex_slots: u8,
    pub material_id: u8,
    pub minimap_static_col: i32,
    pub frame_count_texture: [u8; 6],
    pub color: [i32; 2],
    pub float_values: [u32; 18],
    pub int_values: [u32; 4],
    pub coefficient: [u32; 4],
}

impl Keyed for LiquidTypeEntry {
    open spec fn spec_key(&self) -> u32 {
        self.id
    }

    fn key(&self) -> (k: u32) {
        self.id
    }
}

/// A row of the MapChallengeMode table.
#[derive(Debug, Clone, PartialEq, Eq)]
pub struct MapChallengeModeEntry {
    pub id: u32,
    pub name: String,
    pub map_id: u16,
    pub flags: u8,
    pub expansion_level: u32,
    pub required_world_state_id: i32,
    pub criteria_count: [i16; 3],
}

impl Keyed for MapChallengeModeEntry {
    open spec fn spec_key(&self) -> u32 {
        self.id
    }

    fn key(&self) -> (k: u32) {
        self.id
    }
}

/// A row of the TaxiNodesDb2 table.
#[derive(Debug, Clone, PartialEq, Eq)]
pub struct TaxiNodesDb2Entry {
    pub id: u32,
}

impl Keyed for TaxiNodesDb2Entry {
    open spec fn spec_key(&self) -> u32 {
        self.id
    }

    fn key(&self) -> (k: u32) {
        self.id
    }
}

/// A row of the TaxiPath table.
#[derive(Debug, Clone, PartialEq, Eq)]
pub struct TaxiPathEntry {
    pub id: u32,
    pub from_taxi_node: u16,
    pub to_taxi_node: u16,
    pub cost: u32,
}

impl Keyed for TaxiPathEntry {
    open spec fn spec_key(&self) -> u32 {
        self.id
    }

    fn key(&self) -> (k: u32) {
        self.id
    }
}

/// A row of the TaxiPathNode table.
#[derive(Debug, Clone, PartialEq)]
pub struct TaxiPathNodeEntry {
    pub id: u32,
    pub loc: Db2Position3,
    pub path_id: u16,
    pub node_index: i32,
    pub continent_id: u16,
    pub flags: i32,
    pub delay: u32,
    pub arrival_event_id: u32,
    pub departure_event_id: u32,
}

impl Keyed for TaxiPathNodeEntry {
    open spec fn spec_key(&self) -> u32 {
        self.id
    }

    fn key(&self) -> (k: u32) {
        self.id
    }
}

/// A row of the TransportAnimation table.
#[derive(Debug, Clone, PartialEq)]
pub struct TransportAnimationEntry {
    pub id: u32,
    pub pos: Db2Position3,
    pub sequence_id: u8,
    pub time_index: u32,
    pub transport_id: u32,
}

impl Keyed for TransportAnimationEntry {
    open spec fn spec_key(&self) -> u32 {
        self.id
    }

    fn key(&self) -> (k: u32) {
        self.id
    }
}

/// A row of the TransportRotation table.
///
/// Fields that the table stores as 32-bit floats hold their bit patterns.
#[derive(Debug, Clone, PartialEq, Eq)]
pub struct TransportRotationEntry {
    pub id: u32,
    pub rot: [u32; 4],
    pub time_index: u32,
    pub game_objects_id: u32,
}

impl Keyed for TransportRotationEntry {
    open spec fn spec_key(&self) -> u32 {
        self.id
    }

    fn key(&self) -> (k: u32) {
        self.id
    }
}

/// A row of the UiMap table.
#[derive(Debug, Clone, PartialEq, Eq)]
pub struct UiMapEntry {
    pub id: u32,
    pub name: String,
    pub parent_ui_map_id: i32,
    pub flags: i32,
    pub system: i8,
    pub map_type: u8,
    pub bounty_set_id: i32,
    pub bounty_display_location: u32,
    pub visibility_player_condition_id_2: i32,
    pub visibility_player_condition_id: i32,
    pub help_text_position: i8,
    pub bkg_atlas_id: i32,
    pub alternate_ui_map_group: u32,
    pub content_tuning_id: u32,
}

impl Keyed for UiMapEntry {
    open spec fn spec_key(&self) -> u32 {
        self.id
    }

    fn key(&self) -> (k: u32) {
        self.id
    }
}

/// A row of the UiMapAssignment table.
#[derive(Debug, Clone, PartialEq)]
pub struct UiMapAssignmentEntry {
    pub id: u32,
    pub ui_min: Db2Position2,
    pub ui_max: Db2Position2,
    pub region: [Db2Position3; 2],
    pub ui_map_id: i32,
    pub order_index: i32,
    pub map_id: i32,
    pub area_id: i32,
    pub wmo_doodad_placement_id: i32,
    pub wmo_group_id: i32,
}

impl Keyed for UiMapAssignmentEntry {
    open spec fn spec_key(&self) -> u32 {
        self.id
    }

    fn key(&self) -> (k: u32) {
        self.id
    }
}

/// A row of the UiMapLink table.
#[derive(Debug, Clone, PartialEq)]
pub struct UiMapLinkEntry {
    pub id: u32,
    pub ui_min: Db2Position2,
    pub ui_max: Db2Position2,
    pub parent_ui_map_id: i32,
    pub order_index: i32,
    pub child_ui_map_id: i32,
    pub override_highlight_file_data_id: i32,
    pub override_highlight_atlas_id: i32,
    pub flags: i32,
}

impl Keyed for UiMapLinkEntry {
    open spec fn spec_key(&self) -> u32 {
        self.id
    }

    fn key(&self) -> (k: u32) {
        self.id
    }
}

/// A row of the WmoAreaTable table.
#[derive(Debug, Clone, PartialEq, Eq)]
pub struct WmoAreaTableEntry {
    pub id: u32,
    pub area_name: String,
    pub wmo_id: u16,
    pub name_set_id: u8,
    pub wmo_group_id: i32,
    pub sound_provider_pref: u8,
    pub sound_provider_pref_underwater: u8,
    pub ambience_id: u16,
    pub uw_ambience: u16,
    pub zone_music: u16,
    pub uw_zone_music: u32,
    pub intro_sound: u16,
    pub uw_intro_sound: u16,
    pub area_table_id: u16,
    pub flags: u8,
}

impl Keyed for WmoAreaTableEntry {
    open spec fn spec_key(&self) -> u32 {
        self.id
    }

    fn key(&self) -> (k: u32) {
        self.id
    }
}

/// A row of the WorldEffect table.
#[derive(Debug, Clone, PartialEq, Eq)]
pub struct WorldEffectEntry {
    pub id: u32,
    pub quest_feedback_effect_id: u32,
    pub when_to_display: u8,
    pub target_type: u8,
    pub target_asset: i32,
    pub player_condition_id: u32,
    pub combat_condition_id: u16,
}

impl Keyed for WorldEffectEntry {
    open spec fn spec_key(&self) -> u32 {
        self.id
    }

    fn key(&self) -> (k: u32) {
        self.id
    }
}

/// A row of the WorldMapOverlay table.
#[derive(Debug, Clone, PartialEq, Eq)]
pub struct WorldMapOverlayEntry {
    pub id: u32,
    pub ui_map_art_id: u32,
    pub texture_width: u16,
    pub texture_height: u16,
    pub offset_x: i32,
    pub offset_y: i32,
    pub hit_rect_top: i32,
    pub hit_rect_bottom: i32,
    pub hit_rect_left: i32,
    pub hit_rect_right: i32,
    pub player_condition_id: u32,
    pub flags: u32,
    pub area_id: [u32; 4],
}

impl Keyed for WorldMapOverlayEntry {
    open spec fn spec_key(&self) -> u32 {
        self.id
    }

    fn key(&self) -> (k: u32) {
        self.id
    }
}

/// Store of AreaGroupMember rows indexed by id.
pub struct AreaGroupMemberStore {
    entries: HashMap<u32, AreaGroupMemberEntry>,
}

impl View for AreaGroupMemberStore {
    type V = Map<u32, AreaGroupMemberEntry>;

    closed spec fn view(&self) -> Map<u32, AreaGroupMemberEntry> {
        self.entries@
    }
}

impl AreaGroupMemberStore {
    /// Builds the store; a later row replaces an earlier one with the same id.
    pub fn from_entries(entries: Vec<AreaGroupMemberEntry>) -> (s: Self)
        ensures
            s@ == index_by_key(entries@),
    {
        AreaGroupMemberStore { entries: build_index(entries) }
    }

    /// Builds the store from the rows of the AreaGroupMember table, in file order.
    pub fn load(rows: Vec<AreaGroupMemberEntry>) -> (s: Self)
        ensures
            s@ == index_by_key(rows@),
    {
        Self::from_entries(rows)
    }

    pub fn get(&self, id: u32) -> (r: Option<&AreaGroupMemberEntry>)
        ensures
            r == (if self@.contains_key(id) {
                Some(&self@[id])
            } else {
                None
            }),
    {
        self.entries.get(&id)
    }

    /// All stored rows, each once, in no particular order.
    pub fn entries(&self) -> (r: Vec<&AreaGroupMemberEntry>)
        ensures
            r@.len() == self@.len(),
            forall|i: int| #![trigger r@[i]] 0 <= i < r@.len() ==> is_stored_value(self@, *r@[i]),
            forall|k: u32| #[trigger] self@.contains_key(k) ==> exists|i: int|
                0 <= i < r@.len() && *r@[i] == self@[k],
    {
        index_values(&self.entries)
    }

    pub fn len(&self) -> (n: usize)
        ensures
            n == self@.len(),
    {
        self.entries.len()
    }

    pub fn is_empty(&self) -> (b: bool)
        ensures
            b == self@.is_empty(),
    {
        self.entries.is_empty()
    }
}

/// Store of AreaTriggerDb2 rows indexed by id.
pub struct AreaTriggerDb2Store {
    entries: HashMap<u32, AreaTriggerDb2Entry>,
}

impl View for AreaTriggerDb2Store {
    type V = Map<u32, AreaTriggerDb2Entry>;

    closed spec fn view(&self) -> Map<u32, AreaTriggerDb2Entry> {
        self.entries@
    }
}

impl AreaTriggerDb2Store {
    /// Builds the store; a later row replaces an earlier one with the same id.
    pub fn from_entries(entries: Vec<AreaTriggerDb2Entry>) -> (s: Self)
        ensures
            s@ == index_by_key(entries@),
    {
        AreaTriggerDb2Store { entries: build_index(entries) }
    }

    /// Builds the store from the rows of the AreaTriggerDb2 table, in file order.
    pub fn load(rows: Vec<AreaTriggerDb2Entry>) -> (s: Self)
        ensures
            s@ == index_by_key(rows@),
    {
        Self::from_entries(rows)
    }

    pub fn get(&self, id: u32) -> (r: Option<&AreaTriggerDb2Entry>)
        ensures
            r == (if self@.contains_key(id) {
                Some(&self@[id])
            } else {
                None
            }),
    {
        self.entries.get(&id)
    }

    /// All stored rows, each once, in no particular order.
    pub fn entries(&self) -> (r: Vec<&AreaTriggerDb2Entry>)
        ensures
            r@.len() == self@.len(),
            forall|i: int| #![trigger r@[i]] 0 <= i < r@.len() ==> is_stored_value(self@, *r@[i]),
            forall|k: u32| #[trigger] self@.contains_key(k) ==> exists|i: int|
                0 <= i < r@.len() && *r@[i] == self@[k],
    {
        index_values(&self.entries)
    }

    pub fn len(&self) -> (n: usize)
        ensures
            n == self@.len(),
    {
        self.entries.len()
    }

    pub fn is_empty(&self) -> (b: bool)
        ensures
            b == self@.is_empty(),
    {
        self.entries.is_empty()
    }
}

/// Store of Light rows indexed by id.
pub struct LightStore {
    entries: HashMap<u32, LightEntry>,
}

impl View for LightStore {
    type V = Map<u32, LightEntry>;

    closed spec fn view(&self) -> Map<u32, LightEntry> {
        self.entries@
    }
}

impl LightStore {
    /// Builds the store; a later row replaces an earlier one with the same id.
    pub fn from_entries(entries: Vec<LightEntry>) -> (s: Self)
        ensures
            s@ == index_by_key(entries@),
    {
        LightStore { entries: build_index(entries) }
    }

    /// Builds the store from the rows of the Light table, in file order.
    pub fn load(rows: Vec<LightEntry>) -> (s: Self)
        ensures
            s@ == index_by_key(rows@),
    {
        Self::from_entries(rows)
    }

    pub fn get(&self, id: u32) -> (r: Option<&LightEntry>)
        ensures
            r == (if self@.contains_key(id) {
                Some(&self@[id])
            } else {
                None
            }),
    {
        self.entries.get(&id)
    }

    /// All stored rows, each once, in no particular order.
    pub fn entries(&self) -> (r: Vec<&LightEntry>)
        ensures
            r@.len() == self@.len(),
            forall|i: int| #![trigger r@[i]] 0 <= i < r@.len() ==> is_stored_value(self@, *r@[i]),
            forall|k: u32| #[trigger] self@.contains_key(k) ==> exists|i: int|
                0 <= i < r@.len() && *r@[i] == self@[k],
    {
        index_values(&self.entries)
    }

    pub fn len(&self) -> (n: usize)
        ensures
            n == self@.len(),
    {
        self.entries.len()
    }

    pub fn is_empty(&self) -> (b: bool)
        ensures
            b == self@.is_empty(),
    {
        self.entries.is_empty()
    }
}

/// Store of LiquidType rows indexed by id.
pub struct LiquidTypeStore {
    entries: HashMap<u32, LiquidTypeEntry>,
}

impl View for LiquidTypeStore {
    type V = Map<u32, LiquidTypeEntry>;

    closed spec fn view(&self) -> Map<u32, LiquidTypeEntry> {
        self.entries@
    }
}

impl LiquidTypeStore {
    /// Builds the store; a later row replaces an earlier one with the same id.
    pub fn from_entries(entries: Vec<LiquidTypeEntry>) -> (s: Self)
        ensures
            s@ == index_by_key(entries@),
    {
        LiquidTypeStore { entries: build_index(entries) }
    }

    /// Builds the store from the rows of the LiquidType table, in file order.
    pub fn load(rows: Vec<LiquidTypeEntry>) -> (s: Self)
        ensures
            s@ == index_by_key(rows@),
    {
        Self::from_entries(rows)
    }

    pub fn get(&self, id: u32) -> (r: Option<&LiquidTypeEntry>)
        ensures
            r == (if self@.contains_key(id) {
                Some(&self@[id])
            } else {
                None
            }),
    {
        self.entries.get(&id)
    }

    /// All stored rows, each once, in no particular order.
    pub fn entries(&self) -> (r: Vec<&LiquidTypeEntry>)
        ensures
            r@.len() == self@.len(),
            forall|i: int| #![trigger r@[i]] 0 <= i < r@.len() ==> is_stored_value(self@, *r@[i]),
            forall|k: u32| #[trigger] self@.contains_key(k) ==> exists|i: int|
                0 <= i < r@.len() && *r@[i] == self@[k],
    {
        index_values(&self.entries)
    }

    pub fn len(&self) -> (n: usize)
        ensures
            n == self@.len(),
    {
        self.entries.len()
    }

    pub fn is_empty(&self) -> (b: bool)
        ensures
            b == self@.is_empty(),
    {
        self.entries.is_empty()
    }
}

/// Store of MapChallengeMode rows indexed by id.
pub struct MapChallengeModeStore {
    entries: HashMap<u32, MapChallengeModeEntry>,
}

impl View for MapChallengeModeStore {
    type V = Map<u32, MapChallengeModeEntry>;

    closed spec fn view(&self) -> Map<u32, MapChallengeModeEntry> {
        self.entries@
    }
}

impl MapChallengeModeStore {
    /// Builds the store; a later row replaces an earlier one with the same id.
    pub fn from_entries(entries: Vec<MapChallengeModeEntry>) -> (s: Self)
        ensures
            s@ == index_by_key(entries@),
    {
        MapChallengeModeStore { entries: build_index(entries) }
    }

    /// Builds the store from the rows of the MapChallengeMode table, in file order.
    pub fn load(rows: Vec<MapChallengeModeEntry>) -> (s: Self)
        ensures
            s@ == index_by_key(rows@),
    {
        Self::from_entries(rows)
    }

    pub fn get(&self, id: u32) -> (r: Option<&MapChallengeModeEntry>)
        ensures
            r == (if self@.contains_key(id) {
                Some(&self@[id])
            } else {
                None
            }),
    {
        self.entries.get(&id)
    }

    /// All stored rows, each once, in no particular order.
    pub fn entries(&self) -> (r: Vec<&MapChallengeModeEntry>)
        ensures
            r@.len() == self@.len(),
            forall|i: int| #![trigger r@[i]] 0 <= i < r@.len() ==> is_stored_value(self@, *r@[i]),
            forall|k: u32| #[trigger] self@.contains_key(k) ==> exists|i: int|
                0 <= i < r@.len() && *r@[i] == self@[k],
    {
        index_values(&self.entries)
    }

    pub fn len(&self) -> (n: usize)
        ensures
            n == self@.len(),
    {
        self.entries.len()
    }

    pub fn is_empty(&self) -> (b: bool)
        ensures
            b == self@.is_empty(),
    {
        self.entries.is_empty()
    }
}

/// Store of TaxiNodesDb2 rows indexed by id.
pub struct TaxiNodesDb2Store {
    entries: HashMap<u32, TaxiNodesDb2Entry>,
}

impl View for TaxiNodesDb2Store {
    type V = Map<u32, TaxiNodesDb2Entry>;

    closed spec fn view(&self) -> Map<u32, TaxiNodesDb2Entry> {
        self.entries@
    }
}

impl TaxiNodesDb2Store {
    /// Builds the store; a later row replaces an earlier one with the same id.
    pub fn from_entries(entries: Vec<TaxiNodesDb2Entry>) -> (s: Self)
        ensures
            s@ == index_by_key(entries@),
    {
        TaxiNodesDb2Store { entries: build_index(entries) }
    }

    /// Builds the store from the rows of the TaxiNodesDb2 table, in file order.
    pub fn load(rows: Vec<TaxiNodesDb2Entry>) -> (s: Self)
        ensures
            s@ == index_by_key(rows@),
    {
        Self::from_entries(rows)
    }

    pub fn get(&self, id: u32) -> (r: Option<&TaxiNodesDb2Entry>)
        ensures
            r == (if self@.contains_key(id) {
                Some(&self@[id])
            } else {
                None
            }),
    {
        self.entries.get(&id)
    }

    /// All stored rows, each once, in no particular order.
    pub fn entries(&self) -> (r: Vec<&TaxiNodesDb2Entry>)
        ensures
            r@.len() == self@.len(),
            forall|i: int| #![trigger r@[i]] 0 <= i < r@.len() ==> is_stored_value(self@, *r@[i]),
            forall|k: u32| #[trigger] self@.contains_key(k) ==> exists|i: int|
                0 <= i < r@.len() && *r@[i] == self@[k],
    {
        index_values(&self.entries)
    }

    pub fn len(&self) -> (n: usize)
        ensures
            n == self@.len(),
    {
        self.entries.len()
    }

    pub fn is_empty(&self) -> (b: bool)
        ensures
            b == self@.is_empty(),
    {
        self.entries.is_empty()
    }
}

/// Store of TaxiPath rows indexed by id.
pub struct TaxiPathStore {
    entries: HashMap<u32, TaxiPathEntry>,
}

impl View for TaxiPathStore {
    type V = Map<u32, TaxiPathEntry>;

    closed spec fn view(&self) -> Map<u32, TaxiPathEntry> {
        self.entries@
    }
}

impl TaxiPathStore {
    /// Builds the store; a later row replaces an earlier one with the same id.
    pub fn from_entries(entries: Vec<TaxiPathEntry>) -> (s: Self)
        ensures
            s@ == index_by_key(entries@),
    {
        TaxiPathStore { entries: build_index(entries) }
    }

    /// Builds the store from the rows of the TaxiPath table, in file order.
    pub fn load(rows: Vec<TaxiPathEntry>) -> (s: Self)
        ensures
            s@ == index_by_key(rows@),
    {
        Self::from_entries(rows)
    }

    pub fn get(&self, id: u32) -> (r: Option<&TaxiPathEntry>)
        ensures
            r == (if self@.contains_key(id) {
                Some(&self@[id])
            } else {
                None
            }),
    {
        self.entries.get(&id)
    }

    /// All stored rows, each once, in no particular order.
    pub fn entries(&self) -> (r: Vec<&TaxiPathEntry>)
        ensures
            r@.len() == self@.len(),
            forall|i: int| #![trigger r@[i]] 0 <= i < r@.len() ==> is_stored_value(self@, *r@[i]),
            forall|k: u32| #[trigger] self@.contains_key(k) ==> exists|i: int|
                0 <= i < r@.len() && *r@[i] == self@[k],
    {
        index_values(&self.entries)
    }

    pub fn len(&self) -> (n: usize)
        ensures
            n == self@.len(),
    {
        self.entries.len()
    }

    pub fn is_empty(&self) -> (b: bool)
        ensures
            b == self@.is_empty(),
    {
        self.entries.is_empty()
    }
}

/// Store of TaxiPathNode rows indexed by id.
pub struct TaxiPathNodeStore {
    entries: HashMap<u32, TaxiPathNodeEntry>,
}

impl View for TaxiPathNodeStore {
    type V = Map<u32, TaxiPathNodeEntry>;

    closed spec fn view(&self) -> Map<u32, TaxiPathNodeEntry> {
        self.entries@
    }
}

impl TaxiPathNodeStore {
    /// Builds the store; a later row replaces an earlier one with the same id.
    pub fn from_entries(entries: Vec<TaxiPathNodeEntry>) -> (s: Self)
        ensures
            s@ == index_by_key(entries@),
    {
        TaxiPathNodeStore { entries: build_index(entries) }
    }

    /// Builds the store from the rows of the TaxiPathNode table, in file order.
    pub fn load(rows: Vec<TaxiPathNodeEntry>) -> (s: Self)
        ensures
            s@ == index_by_key(rows@),
    {
        Self::from_entries(rows)
    }

    pub fn get(&self, id: u32) -> (r: Option<&TaxiPathNodeEntry>)
        ensures
            r == (if self@.contains_key(id) {
                Some(&self@[id])
            } else {
                None
            }),
    {
        self.entries.get(&id)
    }

    /// All stored rows, each once, in no particular order.
    pub fn entries(&self) -> (r: Vec<&TaxiPathNodeEntry>)
        ensures
            r@.len() == self@.len(),
            forall|i: int| #![trigger r@[i]] 0 <= i < r@.len() ==> is_stored_value(self@, *r@[i]),
            forall|k: u32| #[trigger] self@.contains_key(k) ==> exists|i: int|
                0 <= i < r@.len() && *r@[i] == self@[k],
    {
        index_values(&self.entries)
    }

    pub fn len(&self) -> (n: usize)
        ensures
            n == self@.len(),
    {
        self.entries.len()
    }

    pub fn is_empty(&self) -> (b: bool)
        ensures
            b == self@.is_empty(),
    {
        self.entries.is_empty()
    }
}

/// Store of TransportAnimation rows indexed by id.
pub struct TransportAnimationStore {
    entries: HashMap<u32, TransportAnimationEntry>,
}

impl View for TransportAnimationStore {
    type V = Map<u32, TransportAnimationEntry>;

    closed spec fn view(&self) -> Map<u32, TransportAnimationEntry> {
        self.entries@
    }
}

impl TransportAnimationStore {
    /// Builds the store; a later row replaces an earlier one with the same id.
    pub fn from_entries(entries: Vec<TransportAnimationEntry>) -> (s: Self)
        ensures
            s@ == index_by_key(entries@),
    {
        TransportAnimationStore { entries: build_index(entries) }
    }

    /// Builds the store from the rows of the TransportAnimation table, in file order.
    pub fn load(rows: Vec<TransportAnimationEntry>) -> (s: Self)
        ensures
            s@ == index_by_key(rows@),
    {
        Self::from_entries(rows)
    }

    pub fn get(&self, id: u32) -> (r: Option<&TransportAnimationEntry>)
        ensures
            r == (if self@.contains_key(id) {
                Some(&self@[id])
            } else {
                None
            }),
    {
        self.entries.get(&id)
    }

    /// All stored rows, each once, in no particular order.
    pub fn entries(&self) -> (r: Vec<&TransportAnimationEntry>)
        ensures
            r@.len() == self@.len(),
            forall|i: int| #![trigger r@[i]] 0 <= i < r@.len() ==> is_stored_value(self@, *r@[i]),
            forall|k: u32| #[trigger] self@.contains_key(k) ==> exists|i: int|
                0 <= i < r@.len() && *r@[i] == self@[k],
    {
        index_values(&self.entries)
    }

    pub fn len(&self) -> (n: usize)
        ensures
            n == self@.len(),
    {
        self.entries.len()
    }

    pub fn is_empty(&self) -> (b: bool)
        ensures
            b == self@.is_empty(),
    {
        self.entries.is_empty()
    }
}

/// Store of TransportRotation rows indexed by id.
pub struct TransportRotationStore {
    entries: HashMap<u32, TransportRotationEntry>,
}

impl View for TransportRotationStore {
    type V = Map<u32, TransportRotationEntry>;

    closed spec fn view(&self) -> Map<u32, TransportRotationEntry> {
        self.entries@
    }
}

impl TransportRotationStore {
    /// Builds the store; a later row replaces an earlier one with the same id.
    pub fn from_entries(entries: Vec<TransportRotationEntry>) -> (s: Self)
        ensures
            s@ == index_by_key(entries@),
    {
        TransportRotationStore { entries: build_index(entries) }
    }

    /// Builds the store from the rows of the TransportRotation table, in file order.
    pub fn load(rows: Vec<TransportRotationEntry>) -> (s: Self)
        ensures
            s@ == index_by_key(rows@),
    {
        Self::from_entries(rows)
    }

    pub fn get(&self, id: u32) -> (r: Option<&TransportRotationEntry>)
        ensures
            r == (if self@.contains_key(id) {
                Some(&self@[id])
            } else {
                None
            }),
    {
        self.entries.get(&id)
    }

    /// All stored rows, each once, in no particular order.
    pub fn entries(&self) -> (r: Vec<&TransportRotationEntry>)
        ensures
            r@.len() == self@.len(),
            forall|i: int| #![trigger r@[i]] 0 <= i < r@.len() ==> is_stored_value(self@, *r@[i]),
            forall|k: u32| #[trigger] self@.contains_key(k) ==> exists|i: int|
                0 <= i < r@.len() && *r@[i] == self@[k],
    {
        index_values(&self.entries)
    }

    pub fn len(&self) -> (n: usize)
        ensures
            n == self@.len(),
    {
        self.entries.len()
    }

    pub fn is_empty(&self) -> (b: bool)
        ensures
            b == self@.is_empty(),
    {
        self.entries.is_empty()
    }
}

/// Store of UiMap rows indexed by id.
pub struct UiMapStore {
    entries: HashMap<u32, UiMapEntry>,
}

impl View for UiMapStore {
    type V = Map<u32, UiMapEntry>;

    closed spec fn view(&self) -> Map<u32, UiMapEntry> {
        self.entries@
    }
}

impl UiMapStore {
    /// Builds the store; a later row replaces an earlier one with the same id.
    pub fn from_entries(entries: Vec<UiMapEntry>) -> (s: Self)
        ensures
            s@ == index_by_key(entries@),
    {
        UiMapStore { entries: build_index(entries) }
    }

    /// Builds the store from the rows of the UiMap table, in file order.
    pub fn load(rows: Vec<UiMapEntry>) -> (s: Self)
        ensures
            s@ == index_by_key(rows@),
    {
        Self::from_entries(rows)
    }

    pub fn get(&self, id: u32) -> (r: Option<&UiMapEntry>)
        ensures
            r == (if self@.contains_key(id) {
                Some(&self@[id])
            } else {
                None
            }),
    {
        self.entries.get(&id)
    }

    /// All stored rows, each once, in no particular order.
    pub fn entries(&self) -> (r: Vec<&UiMapEntry>)
        ensures
            r@.len() == self@.len(),
            forall|i: int| #![trigger r@[i]] 0 <= i < r@.len() ==> is_stored_value(self@, *r@[i]),
            forall|k: u32| #[trigger] self@.contains_key(k) ==> exists|i: int|
                0 <= i < r@.len() && *r@[i] == self@[k],
    {
        index_values(&self.entries)
    }

    pub fn len(&self) -> (n: usize)
        ensures
            n == self@.len(),
    {
        self.entries.len()
    }

    pub fn is_empty(&self) -> (b: bool)
        ensures
            b == self@.is_empty(),
    {
        self.entries.is_empty()
    }
}

/// Store of UiMapAssignment rows indexed by id.
pub struct UiMapAssignmentStore {
    entries: HashMap<u32, UiMapAssignmentEntry>,
}

impl View for UiMapAssignmentStore {
    type V = Map<u32, UiMapAssignmentEntry>;

    closed spec fn view(&self) -> Map<u32, UiMapAssignmentEntry> {
        self.entries@
    }
}

impl UiMapAssignmentStore {
    /// Builds the store; a later row replaces an earlier one with the same id.
    pub fn from_entries(entries: Vec<UiMapAssignmentEntry>) -> (s: Self)
        ensures
            s@ == index_by_key(entries@),
    {
        UiMapAssignmentStore { entries: build_index(entries) }
    }

    /// Builds the store from the rows of the UiMapAssignment table, in file order.
    pub fn load(rows: Vec<UiMapAssignmentEntry>) -> (s: Self)
        ensures
            s@ == index_by_key(rows@),
    {
        Self::from_entries(rows)
    }

    pub fn get(&self, id: u32) -> (r: Option<&UiMapAssignmentEntry>)
        ensures
            r == (if self@.contains_key(id) {
                Some(&self@[id])
            } else {
                None
            }),
    {
        self.entries.get(&id)
    }

    /// All stored rows, each once, in no particular order.
    pub fn entries(&self) -> (r: Vec<&UiMapAssignmentEntry>)
        ensures
            r@.len() == self@.len(),
            forall|i: int| #![trigger r@[i]] 0 <= i < r@.len() ==> is_stored_value(self@, *r@[i]),
            forall|k: u32| #[trigger] self@.contains_key(k) ==> exists|i: int|
                0 <= i < r@.len() && *r@[i] == self@[k],
    {
        index_values(&self.entries)
    }

    pub fn len(&self) -> (n: usize)
        ensures
            n == self@.len(),
    {
        self.entries.len()
    }

    pub fn is_empty(&self) -> (b: bool)
        ensures
            b == self@.is_empty(),
    {
        self.entries.is_empty()
    }
}

/// Store of UiMapLink rows indexed by id.
pub struct UiMapLinkStore {
    entries: HashMap<u32, UiMapLinkEntry>,
}

impl View for UiMapLinkStore {
    type V = Map<u32, UiMapLinkEntry>;

    closed spec fn view(&self) -> Map<u32, UiMapLinkEntry> {
        self.entries@
    }
}

impl UiMapLinkStore {
    /// Builds the store; a later row replaces an earlier one with the same id.
    pub fn from_entries(entries: Vec<UiMapLinkEntry>) -> (s: Self)
        ensures
            s@ == index_by_key(entries@),
    {
        UiMapLinkStore { entries: build_index(entries) }
    }

    /// Builds the store from the rows of the UiMapLink table, in file order.
    pub fn load(rows: Vec<UiMapLinkEntry>) -> (s: Self)
        ensures
            s@ == index_by_key(rows@),
    {
        Self::from_entries(rows)
    }

    pub fn get(&self, id: u32) -> (r: Option<&UiMapLinkEntry>)
        ensures
            r == (if self@.contains_key(id) {
                Some(&self@[id])
            } else {
                None
            }),
    {
        self.entries.get(&id)
    }

    /// All stored rows, each once, in no particular order.
    pub fn entries(&self) -> (r: Vec<&UiMapLinkEntry>)
        ensures
            r@.len() == self@.len(),
            forall|i: int| #![trigger r@[i]] 0 <= i < r@.len() ==> is_stored_value(self@, *r@[i]),
            forall|k: u32| #[trigger] self@.contains_key(k) ==> exists|i: int|
                0 <= i < r@.len() && *r@[i] == self@[k],
    {
        index_values(&self.entries)
    }

    pub fn len(&self) -> (n: usize)
        ensures
            n == self@.len(),
    {
        self.entries.len()
    }

    pub fn is_empty(&self) -> (b: bool)
        ensures
            b == self@.is_empty(),
    {
        self.entries.is_empty()
    }
}

/// Store of WmoAreaTable rows indexed by id.
pub struct WmoAreaTableStore {
    entries: HashMap<u32, WmoAreaTableEntry>,
}

impl View for WmoAreaTableStore {
    type V = Map<u32, WmoAreaTableEntry>;

    closed spec fn view(&self) -> Map<u32, WmoAreaTableEntry> {
        self.entries@
    }
}

impl WmoAreaTableStore {
    /// Builds the store; a later row replaces an earlier one with the same id.
    pub fn from_entries(entries: Vec<WmoAreaTableEntry>) -> (s: Self)
        ensures
            s@ == index_by_key(entries@),
    {
        WmoAreaTableStore { entries: build_index(entries) }
    }

    /// Builds the store from the rows of the WmoAreaTable table, in file order.
    pub fn load(rows: Vec<WmoAreaTableEntry>) -> (s: Self)
        ensures
            s@ == index_by_key(rows@),
    {
        Self::from_entries(rows)
    }

    pub fn get(&self, id: u32) -> (r: Option<&WmoAreaTableEntry>)
        ensures
            r == (if self@.contains_key(id) {
                Some(&self@[id])
            } else {
                None
            }),
    {
        self.entries.get(&id)
    }

    /// All stored rows, each once, in no particular order.
    pub fn entries(&self) -> (r: Vec<&WmoAreaTableEntry>)
        ensures
            r@.len() == self@.len(),
            forall|i: int| #![trigger r@[i]] 0 <= i < r@.len() ==> is_stored_value(self@, *r@[i]),
            forall|k: u32| #[trigger] self@.contains_key(k) ==> exists|i: int|
                0 <= i < r@.len() && *r@[i] == self@[k],
    {
        index_values(&self.entries)
    }

    pub fn len(&self) -> (n: usize)
        ensures
            n == self@.len(),
    {
        self.entries.len()
    }

    pub fn is_empty(&self) -> (b: bool)
        ensures
            b == self@.is_empty(),
    {
        self.entries.is_empty()
    }
}

/// Store of WorldEffect rows indexed by id.
pub struct WorldEffectStore {
    entries: HashMap<u32, WorldEffectEntry>,
}

impl View for WorldEffectStore {
    type V = Map<u32, WorldEffectEntry>;

    closed spec fn view(&self) -> Map<u32, WorldEffectEntry> {
        self.entries@
    }
}

impl WorldEffectStore {
    /// Builds the store; a later row replaces an earlier one with the same id.
    pub fn from_entries(entries: Vec<WorldEffectEntry>) -> (s: Self)
        ensures
            s@ == index_by_key(entries@),
    {
        WorldEffectStore { entries: build_index(entries) }
    }

    /// Builds the store from the rows of the WorldEffect table, in file order.
    pub fn load(rows: Vec<WorldEffectEntry>) -> (s: Self)
        ensures
            s@ == index_by_key(rows@),
    {
        Self::from_entries(rows)
    }

    pub fn get(&self, id: u32) -> (r: Option<&WorldEffectEntry>)
        ensures
            r == (if self@.contains_key(id) {
                Some(&self@[id])
            } else {
                None
            }),
    {
        self.entries.get(&id)
    }

    /// All stored rows, each once, in no particular order.
    pub fn entries(&self) -> (r: Vec<&WorldEffectEntry>)
        ensures
            r@.len() == self@.len(),
            forall|i: int| #![trigger r@[i]] 0 <= i < r@.len() ==> is_stored_value(self@, *r@[i]),
            forall|k: u32| #[trigger] self@.contains_key(k) ==> exists|i: int|
                0 <= i < r@.len() && *r@[i] == self@[k],
    {
        index_values(&self.entries)
    }

    pub fn len(&self) -> (n: usize)
        ensures
            n == self@.len(),
    {
        self.entries.len()
    }

    pub fn is_empty(&self) -> (b: bool)
        ensures
            b == self@.is_empty(),
    {
        self.entries.is_empty()
    }
}

/// Store of WorldMapOverlay rows indexed by id.
pub struct WorldMapOverlayStore {
    entries: HashMap<u32, WorldMapOverlayEntry>,
}

impl View for WorldMapOverlayStore {
    type V = Map<u32, WorldMapOverlayEntry>;

    closed spec fn view(&self) -> Map<u32, WorldMapOverlayEntry> {
        self.entries@
    }
}

impl WorldMapOverlayStore {
    /// Builds the store; a later row replaces an earlier one with the same id.
    pub fn from_entries(entries: Vec<WorldMapOverlayEntry>) -> (s: Self)
        ensures
            s@ == index_by_key(entries@),
    {
        WorldMapOverlayStore { entries: build_index(entries) }
    }

    /// Builds the store from the rows of the WorldMapOverlay table, in file order.
    pub fn load(rows: Vec<WorldMapOverlayEntry>) -> (s: Self)
        ensures
            s@ == index_by_key(rows@),
    {
        Self::from_entries(rows)
    }

    pub fn get(&self, id: u32) -> (r: Option<&WorldMapOverlayEntry>)
        ensures
            r == (if self@.contains_key(id) {
                Some(&self@[id])
            } else {
                None
            }),
    {
        self.entries.get(&id)
    }

    /// All stored rows, each once, in no particular order.
    pub fn entries(&self) -> (r: Vec<&WorldMapOverlayEntry>)
        ensures
            r@.len() == self@.len(),
            forall|i: int| #![trigger r@[i]] 0 <= i < r@.len() ==> is_stored_value(self@, *r@[i]),
            forall|k: u32| #[trigger] self@.contains_key(k) ==> exists|i: int|
                0 <= i < r@.len() && *r@[i] == self@[k],
    {
        index_values(&self.entries)
    }

    pub fn len(&self) -> (n: usize)
        ensures
            n == self@.len(),
    {
        self.entries.len()
    }

    pub fn is_empty(&self) -> (b: bool)
        ensures
            b == self@.is_empty(),
    {
        self.entries.is_empty()
    }
}


} // verus!
