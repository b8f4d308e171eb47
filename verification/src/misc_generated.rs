//! Assorted id-keyed DB2 tables: adventure journal, garrison, guild, holiday, LFG, scene, sound and other rows.
use std::collections::HashMap;
use vstd::prelude::*;

use crate::db2_index::{build_index, index_by_key, Keyed};
use vstd::std_specs::iter::IteratorSpec;

verus! {

broadcast use vstd::std_specs::hash::group_hash_axioms;

pub const MAX_BROADCAST_TEXT_EMOTES: usize = 3;

pub const KEYCHAIN_SIZE: usize = 32;

pub const MAX_HOLIDAY_DURATIONS: usize = 10;

pub const MAX_HOLIDAY_DATES: usize = 16;

pub const MAX_HOLIDAY_FLAGS: usize = 10;

pub const MAX_OVERRIDE_SPELL: usize = 10;

pub const TACTKEY_SIZE: usize = 16;

/// A row of the ConditionalChrModel table.
#[derive(Debug, Clone, PartialEq, Eq)]
pub struct ConditionalChrModelEntry {
    pub id: u32,
    pub db2_id: i32,
    pub chr_model_id: u32,
    pub chr_customization_req_id: i32,
    pub player_condition_id: i32,
    pub flags: i32,
    pub chr_customization_category_id: i32,
}

impl Keyed for ConditionalChrModelEntry {
    open spec fn spec_key(&self) -> u32 {
        self.id
    }

    fn key(&self) -> (k: u32) {
        self.id
    }
}

/// A row of the ConditionalContentTuning table.
#[derive(Debug, Clone, PartialEq, Eq)]
pub struct ConditionalContentTuningEntry {
    pub id: u32,
    pub order_index: i32,
    pub redirect_content_tuning_id: i32,
    pub redirect_flag: i32,
    pub parent_content_tuning_id: u32,
}

impl Keyed for ConditionalContentTuningEntry {
    open spec fn spec_key(&self) -> u32 {
        self.id
    }

    fn key(&self) -> (k: u32) {
        self.id
    }
}

/// A row of the AdventureJournal table.
#[derive(Debug, Clone, PartialEq)]
pub struct AdventureJournalEntry {
    pub id: u32,
    pub name: String,
    pub description: String,
    pub button_text: String,
    pub reward_description: String,
    pub continue_description: String,
    pub journal_type: u8,
    pub player_condition_id: u32,
    pub flags: i32,
    pub button_action_type: u8,
    pub texture_file_data_id: i32,
    pub lfg_dungeon_id: u16,
    pub quest_id: u32,
    pub battle_master_list_id: u16,
    pub priority_min: u8,
    pub priority_max: u8,
    pub item_id: i32,
    pub item_quantity: u32,
    pub currency_type: u16,
    pub currency_quantity: u8,
    pub ui_map_id: u16,
    pub bonus_player_condition_id: [u32; 2],
    pub bonus_value: [u8; 2],
}

impl Keyed for AdventureJournalEntry {
    open spec fn spec_key(&self) -> u32 {
        self.id
    }

    fn key(&self) -> (k: u32) {
        self.id
    }
}

/// A row of the AdventureMapPoi table.
///
/// Fields that the table stores as 32-bit floats hold their bit patterns.
#[derive(Debug, Clone, PartialEq, Eq)]
pub struct AdventureMapPoiEntry {
    pub id: u32,
    pub title: String,
    pub description: String,
    pub world_position: [u32; 2],
    pub poi_type: i8,
    pub player_condition_id: u32,
    pub quest_id: u32,
    pub lfg_dungeon_id: u32,
    pub reward_item_id: i32,
    pub ui_texture_atlas_member_id: u32,
    pub ui_texture_kit_id: u32,
    pub map_id: i32,
    pub area_table_id: u32,
}

impl Keyed for AdventureMapPoiEntry {
    open spec fn spec_key(&self) -> u32 {
        self.id
    }

    fn key(&self) -> (k: u32) {
        self.id
    }
}

/// A row of the BannedAddons table.
#[derive(Debug, Clone, PartialEq, Eq)]
pub struct BannedAddonsEntry {
    pub id: u32,
    pub name: String,
    pub version: String,
    pub flags: u8,
}

impl Keyed for BannedAddonsEntry {
    open spec fn spec_key(&self) -> u32 {
        self.id
    }

    fn key(&self) -> (k: u32) {
        self.id
    }
}

/// A row of the BroadcastText table.
#[derive(Debug, Clone, PartialEq, Eq)]
pub struct BroadcastTextEntry {
    pub id: u32,
    pub text: String,
    pub text1: String,
    pub language_id: i32,
    pub condition_id: i32,
    pub emotes_id: u16,
    pub flags: u8,
    pub chat_bubble_duration_ms: u32,
    pub voice_over_priority_id: i32,
    pub sound_kit_id: [u32; 2],
    pub emote_id: [u16; MAX_BROADCAST_TEXT_EMOTES],
    pub emote_delay: [u16; MAX_BROADCAST_TEXT_EMOTES],
}

impl Keyed for BroadcastTextEntry {
    open spec fn spec_key(&self) -> u32 {
        self.id
    }

    fn key(&self) -> (k: u32) {
        self.id
    }
}

/// A row of the CfgCategories table.
#[derive(Debug, Clone, PartialEq, Eq)]
pub struct CfgCategoriesEntry {
    pub id: u32,
    pub name: String,
    pub locale_mask: u16,
    pub create_charset_mask: u8,
    pub existing_charset_mask: u8,
    pub flags: u8,
    pub order: i8,
}

impl Keyed for CfgCategoriesEntry {
    open spec fn spec_key(&self) -> u32 {
        self.id
    }

    fn key(&self) -> (k: u32) {
        self.id
    }
}

/// A row of the CfgRegions table.
#[derive(Debug, Clone, PartialEq, Eq)]
pub struct CfgRegionsEntry {
    pub id: u32,
    pub tag: String,
    pub region_id: u16,
    pub raid_origin: u32,
    pub region_group_mask: u8,
    pub challenge_origin: u32,
}

impl Keyed for CfgRegionsEntry {
    open spec fn spec_key(&self) -> u32 {
        self.id
    }

    fn key(&self) -> (k: u32) {
        self.id
    }
}

/// A row of the ChatChannels table.
#[derive(Debug, Clone, PartialEq, Eq)]
pub struct ChatChannelsEntry {
    pub id: u32,
    pub name: String,
    pub shortcut: String,
    pub flags: i32,
    pub faction_group: i8,
    pub ruleset: i32,
}

impl Keyed for ChatChannelsEntry {
    open spec fn spec_key(&self) -> u32 {
        self.id
    }

    fn key(&self) -> (k: u32) {
        self.id
    }
}

/// A row of the CinematicCamera table.
///
/// Fields that the table stores as 32-bit floats hold their bit patterns.
#[derive(Debug, Clone, PartialEq, Eq)]
pub struct CinematicCameraEntry {
    pub id: u32,
    pub origin: [u32; 3],
    pub sound_id: u32,
    pub origin_facing: u32,
    pub file_data_id: u32,
}

impl Keyed for CinematicCameraEntry {
    open spec fn spec_key(&self) -> u32 {
        self.id
    }

    fn key(&self) -> (k: u32) {
        self.id
    }
}

/// A row of the CinematicSequences table.
#[derive(Debug, Clone, PartialEq, Eq)]
pub struct CinematicSequencesEntry {
    pub id: u32,
    pub sound_id: u32,
    pub camera: [u16; 8],
}

impl Keyed for CinematicSequencesEntry {
    open spec fn spec_key(&self) -> u32 {
        self.id
    }

    fn key(&self) -> (k: u32) {
        self.id
    }
}

/// A row of the GossipNpcOption table.
#[derive(Debug, Clone, PartialEq, Eq)]
pub struct GossipNpcOptionEntry {
    pub id: u32,
    pub gossip_npc_option: i32,
    pub lfg_dungeons_id: i32,
    pub unk_341: [i32; 9],
    pub gossip_option_id: i32,
}

impl Keyed for GossipNpcOptionEntry {
    open spec fn spec_key(&self) -> u32 {
        self.id
    }

    fn key(&self) -> (k: u32) {
        self.id
    }
}

/// A row of the GuildColor table.
#[derive(Debug, Clone, PartialEq, Eq)]
pub struct GuildColorEntry {
    pub id: u32,
    pub red: u8,
    pub blue: u8,
    pub green: u8,
}

impl Keyed for GuildColorEntry {
    open spec fn spec_key(&self) -> u32 {
        self.id
    }

    fn key(&self) -> (k: u32) {
        self.id
    }
}

/// A row of the GuildPerkSpells table.
#[derive(Debug, Clone, PartialEq, Eq)]
pub struct GuildPerkSpellsEntry {
    pub id: u32,
    pub spell_id: i32,
}

impl Keyed for GuildPerkSpellsEntry {
    open spec fn spec_key(&self) -> u32 {
        self.id
    }

    fn key(&self) -> (k: u32) {
        self.id
    }
}

/// A row of the ExpectedStat table.
///
/// Fields that the table stores as 32-bit floats hold their bit patterns.
#[derive(Debug, Clone, PartialEq, Eq)]
pub struct ExpectedStatEntry {
    pub id: u32,
    pub expansion_id: i32,
    pub creature_health: u32,
    pub player_health: u32,
    pub creature_auto_attack_dps: u32,
    pub creature_armor: u32,
    pub player_mana: u32,
    pub player_primary_stat: u32,
    pub player_secondary_stat: u32,
    pub armor_constant: u32,
    pub creature_spell_damage: u32,
    pub lvl: u32,
}

impl Keyed for ExpectedStatEntry {
    open spec fn spec_key(&self) -> u32 {
        self.id
    }

    fn key(&self) -> (k: u32) {
        self.id
    }
}

/// A row of the ExpectedStatMod table.
///
/// Fields that the table stores as 32-bit floats hold their bit patterns.
#[derive(Debug, Clone, PartialEq, Eq)]
pub struct ExpectedStatModEntry {
    pub id: u32,
    pub creature_health_mod: u32,
    pub player_health_mod: u32,
    pub creature_auto_attack_dps_mod: u32,
    pub creature_armor_mod: u32,
    pub player_mana_mod: u32,
    pub player_primary_stat_mod: u32,
    pub player_secondary_stat_mod: u32,
    pub armor_constant_mod: u32,
    pub creature_spell_damage_mod: u32,
}

impl Keyed for ExpectedStatModEntry {
    open spec fn spec_key(&self) -> u32 {
        self.id
    }

    fn key(&self) -> (k: u32) {
        self.id
    }
}

/// A row of the GarrAbility table.
#[derive(Debug, Clone, PartialEq, Eq)]
pub struct GarrAbilityEntry {
    pub id: u32,
    pub name: String,
    pub description: String,
    pub garr_ability_category_id: u8,
    pub garr_follower_type_id: u8,
    pub icon_file_data_id: i32,
    pub faction_change_garr_ability_id: u16,
    pub flags: u16,
}

impl Keyed for GarrAbilityEntry {
    open spec fn spec_key(&self) -> u32 {
        self.id
    }

    fn key(&self) -> (k: u32) {
        self.id
    }
}

/// A row of the GarrBuilding table.
#[derive(Debug, Clone, PartialEq, Eq)]
pub struct GarrBuildingEntry {
    pub id: u32,
    pub horde_name: String,
    pub alliance_name: String,
    pub description: String,
    pub tooltip: String,
    pub garr_type_id: u8,
    pub building_type: u8,
    pub horde_game_object_id: i32,
    pub alliance_game_object_id: i32,
    pub garr_site_id: u8,
    pub upgrade_level: u8,
    pub build_seconds: i32,
    pub currency_type_id: u16,
    pub currency_qty: i32,
    pub horde_ui_texture_kit_id: u16,
    pub alliance_ui_texture_kit_id: u16,
    pub icon_file_data_id: i32,
    pub alliance_scene_script_package_id: u16,
    pub horde_scene_script_package_id: u16,
    pub max_assignments: i32,
    pub shipment_capacity: u8,
    pub garr_ability_id: u16,
    pub bonus_garr_ability_id: u16,
    pub gold_cost: u16,
    pub flags: u8,
}

impl Keyed for GarrBuildingEntry {
    open spec fn spec_key(&self) -> u32 {
        self.id
    }

    fn key(&self) -> (k: u32) {
        self.id
    }
}

/// A row of the GarrBuildingPlotInst table.
///
/// Fields that the table stores as 32-bit floats hold their bit patterns.
#[derive(Debug, Clone, PartialEq, Eq)]
pub struct GarrBuildingPlotInstEntry {
    pub id: u32,
    pub map_offset: [u32; 2],
    pub garr_building_id: u32,
    pub garr_site_level_plot_inst_id: u16,
    pub ui_texture_atlas_member_id: u16,
}

impl Keyed for GarrBuildingPlotInstEntry {
    open spec fn spec_key(&self) -> u32 {
        self.id
    }

    fn key(&self) -> (k: u32) {
        self.id
    }
}

/// A row of the GarrClassSpec table.
#[derive(Debug, Clone, PartialEq, Eq)]
pub struct GarrClassSpecEntry {
    pub id: u32,
    pub class_spec: String,
    pub class_spec_male: String,
    pub class_spec_female: String,
    pub ui_texture_atlas_member_id: u16,
    pub garr_foll_item_set_id: u16,
    pub follower_class_limit: u8,
    pub flags: u8,
}

impl Keyed for GarrClassSpecEntry {
    open spec fn spec_key(&self) -> u32 {
        self.id
    }

    fn key(&self) -> (k: u32) {
        self.id
    }
}

/// A row of the GarrFollower table.
#[derive(Debug, Clone, PartialEq, Eq)]
pub struct GarrFollowerEntry {
    pub id: u32,
    pub horde_source_text: String,
    pub alliance_source_text: String,
    pub title_name: String,
    pub garr_type_id: u8,
    pub garr_follower_type_id: u8,
    pub horde_creature_id: i32,
    pub alliance_creature_id: i32,
    pub horde_garr_foll_race_id: u8,
    pub alliance_garr_foll_race_id: u8,
    pub horde_garr_class_spec_id: u8,
    pub alliance_garr_class_spec_id: u8,
    pub quality: u8,
    pub follower_level: u8,
    pub item_level_weapon: u16,
    pub item_level_armor: u16,
    pub horde_source_type_enum: i8,
    pub alliance_source_type_enum: i8,
    pub horde_icon_file_data_id: i32,
    pub alliance_icon_file_data_id: i32,
    pub horde_garr_foll_item_set_id: u16,
    pub alliance_garr_foll_item_set_id: u16,
    pub horde_ui_texture_kit_id: u16,
    pub alliance_ui_texture_kit_id: u16,
    pub vitality: u8,
    pub horde_flavor_garr_string_id: u8,
    pub alliance_flavor_garr_string_id: u8,
    pub horde_slotting_broadcast_text_id: u32,
    pub ally_slotting_broadcast_text_id: u32,
    pub chr_class_id: u8,
    pub flags: u8,
    pub gender: u8,
}

impl Keyed for GarrFollowerEntry {
    open spec fn spec_key(&self) -> u32 {
        self.id
    }

    fn key(&self) -> (k: u32) {
        self.id
    }
}

/// A row of the GarrFollowerXAbility table.
#[derive(Debug, Clone, PartialEq, Eq)]
pub struct GarrFollowerXAbilityEntry {
    pub id: u32,
    pub order_index: u8,
    pub faction_index: u8,
    pub garr_ability_id: u16,
    pub garr_follower_id: u32,
}

impl Keyed for GarrFollowerXAbilityEntry {
    open spec fn spec_key(&self) -> u32 {
        self.id
    }

    fn key(&self) -> (k: u32) {
        self.id
    }
}

/// A row of the GarrMission table.
///
/// Fields that the table stores as 32-bit floats hold their bit patterns.
#[derive(Debug, Clone, PartialEq, Eq)]
pub struct GarrMissionEntry {
    pub id: u32,
    pub name: String,
    pub location: String,
    pub description: String,
    pub map_pos: [u32; 2],
    pub world_pos: [u32; 2],
    pub garr_type_id: u8,
    pub garr_mission_type_id: u8,
    pub garr_follower_type_id: u8,
    pub max_followers: u8,
    pub mission_cost: u32,
    pub mission_cost_currency_types_id: u16,
    pub offered_garr_mission_texture_id: u8,
    pub ui_texture_kit_id: u16,
    pub env_garr_mechanic_id: u32,
    pub env_garr_mechanic_type_id: u8,
    pub player_condition_id: u32,
    pub target_level: i8,
    pub target_item_level: u16,
    pub mission_duration: i32,
    pub travel_duration: i32,
    pub offer_duration: u32,
    pub base_completion_chance: u8,
    pub base_follower_xp: u32,
    pub overmax_reward_pack_id: u32,
    pub follower_death_chance: u8,
    pub area_id: u32,
    pub flags: u32,
    pub garr_mission_set_id: u32,
}

impl Keyed for GarrMissionEntry {
    open spec fn spec_key(&self) -> u32 {
        self.id
    }

    fn key(&self) -> (k: u32) {
        self.id
    }
}

/// A row of the GarrPlot table.
#[derive(Debug, Clone, PartialEq, Eq)]
pub struct GarrPlotEntry {
    pub id: u32,
    pub name: String,
    pub plot_type: u8,
    pub horde_construct_obj_id: i32,
    pub alliance_construct_obj_id: i32,
    pub flags: u8,
    pub ui_category_id: u8,
    pub upgrade_requirement: [u32; 2],
}

impl Keyed for GarrPlotEntry {
    open spec fn spec_key(&self) -> u32 {
        self.id
    }

    fn key(&self) -> (k: u32) {
        self.id
    }
}

/// A row of the GarrPlotBuilding table.
#[derive(Debug, Clone, PartialEq, Eq)]
pub struct GarrPlotBuildingEntry {
    pub id: u32,
    pub garr_plot_id: u8,
    pub garr_building_id: u8,
}

impl Keyed for GarrPlotBuildingEntry {
    open spec fn spec_key(&self) -> u32 {
        self.id
    }

    fn key(&self) -> (k: u32) {
        self.id
    }
}

/// A row of the GarrPlotInstance table.
#[derive(Debug, Clone, PartialEq, Eq)]
pub struct GarrPlotInstanceEntry {
    pub id: u32,
    pub name: String,
    pub garr_plot_id: u8,
}

impl Keyed for GarrPlotInstanceEntry {
    open spec fn spec_key(&self) -> u32 {
        self.id
    }

    fn key(&self) -> (k: u32) {
        self.id
    }
}

/// A row of the GarrSiteLevel table.
///
/// Fields that the table stores as 32-bit floats hold their bit patterns.
#[derive(Debug, Clone, PartialEq, Eq)]
pub struct GarrSiteLevelEntry {
    pub id: u32,
    pub town_hall_ui_pos: [u32; 2],
    pub garr_site_id: u32,
    pub garr_level: u8,
    pub map_id: u16,
    pub upgrade_movie_id: u16,
    pub ui_texture_kit_id: u16,
    pub max_building_level: u8,
    pub upgrade_cost: u16,
    pub upgrade_gold_cost: u16,
}

impl Keyed for GarrSiteLevelEntry {
    open spec fn spec_key(&self) -> u32 {
        self.id
    }

    fn key(&self) -> (k: u32) {
        self.id
    }
}

/// A row of the GarrSiteLevelPlotInst table.
///
/// Fields that the table stores as 32-bit floats hold their bit patterns.
#[derive(Debug, Clone, PartialEq, Eq)]
pub struct GarrSiteLevelPlotInstEntry {
    pub id: u32,
    pub ui_marker_pos: [u32; 2],
    pub garr_site_level_id: u32,
    pub garr_plot_instance_id: u8,
    pub ui_marker_size: u8,
}

impl Keyed for GarrSiteLevelPlotInstEntry {
    open spec fn spec_key(&self) -> u32 {
        self.id
    }

    fn key(&self) -> (k: u32) {
        self.id
    }
}

/// A row of the GarrTalentTree table.
#[derive(Debug, Clone, PartialEq, Eq)]
pub struct GarrTalentTreeEntry {
    pub id: u32,
    pub name: String,
    pub garr_type_id: i32,
    pub class_id: i32,
    pub max_tiers: i8,
    pub ui_order: i8,
    pub flags: i8,
    pub ui_texture_kit_id: u16,
}

impl Keyed for GarrTalentTreeEntry {
    open spec fn spec_key(&self) -> u32 {
        self.id
    }

    fn key(&self) -> (k: u32) {
        self.id
    }
}

/// A row of the GemProperties table.
#[derive(Debug, Clone, PartialEq, Eq)]
pub struct GemPropertiesEntry {
    pub id: u32,
    pub enchant_id: u16,
    pub gem_type: i32,
    pub min_item_level: u16,
}

impl Keyed for GemPropertiesEntry {
    open spec fn spec_key(&self) -> u32 {
        self.id
    }

    fn key(&self) -> (k: u32) {
        self.id
    }
}

/// A row of the Holidays table.
#[derive(Debug, Clone, PartialEq, Eq)]
pub struct HolidaysEntry {
    pub id: u32,
    pub region: u16,
    pub looping: u8,
    pub holiday_name_id: u32,
    pub holiday_description_id: u32,
    pub priority: u8,
    pub calendar_filter_type: i8,
    pub flags: u8,
    pub world_state_expression_id: u32,
    pub duration: [u16; MAX_HOLIDAY_DURATIONS],
    pub date: [u32; MAX_HOLIDAY_DATES],
    pub calendar_flags: [u8; MAX_HOLIDAY_FLAGS],
    pub texture_file_data_id: [i32; 3],
}

impl Keyed for HolidaysEntry {
    open spec fn spec_key(&self) -> u32 {
        self.id
    }

    fn key(&self) -> (k: u32) {
        self.id
    }
}

/// A row of the Keychain table.
#[derive(Debug, Clone, PartialEq, Eq)]
pub struct KeychainEntry {
    pub id: u32,
    pub key: [u8; KEYCHAIN_SIZE],
}

impl Keyed for KeychainEntry {
    open spec fn spec_key(&self) -> u32 {
        self.id
    }

    fn key(&self) -> (k: u32) {
        self.id
    }
}

/// A row of the KeystoneAffix table.
#[derive(Debug, Clone, PartialEq, Eq)]
pub struct KeystoneAffixEntry {
    pub id: u32,
    pub name: String,
    pub description: String,
    pub file_data_id: i32,
}

impl Keyed for KeystoneAffixEntry {
    open spec fn spec_key(&self) -> u32 {
        self.id
    }

    fn key(&self) -> (k: u32) {
        self.id
    }
}

/// A row of the LfgDungeons table.
///
/// Fields that the table stores as 32-bit floats hold their bit patterns.
#[derive(Debug, Clone, PartialEq, Eq)]
pub struct LfgDungeonsEntry {
    pub id: u32,
    pub name: String,
    pub description: String,
    pub min_level: u8,
    pub max_level: u16,
    pub type_id: u8,
    pub subtype: u8,
    pub faction: i8,
    pub icon_texture_file_id: i32,
    pub rewards_bg_texture_file_id: i32,
    pub popup_bg_texture_file_id: i32,
    pub expansion_level: u8,
    pub map_id: i16,
    pub difficulty_id: u8,
    pub min_gear: u32,
    pub group_id: u8,
    pub order_index: u8,
    pub required_player_condition_id: u32,
    pub target_level: u8,
    pub target_level_min: u8,
    pub target_level_max: u16,
    pub random_id: u16,
    pub scenario_id: u16,
    pub final_encounter_id: u16,
    pub count_tank: u8,
    pub count_healer: u8,
    pub count_damage: u8,
    pub min_count_tank: u8,
    pub min_count_healer: u8,
    pub min_count_damage: u8,
    pub bonus_reputation_amount: u16,
    pub mentor_item_level: u16,
    pub mentor_char_level: u8,
    pub flags: [i32; 2],
}

impl Keyed for LfgDungeonsEntry {
    open spec fn spec_key(&self) -> u32 {
        self.id
    }

    fn key(&self) -> (k: u32) {
        self.id
    }
}

/// A row of the LanguageWords table.
#[derive(Debug, Clone, PartialEq, Eq)]
pub struct LanguageWordsEntry {
    pub id: u32,
    pub word: String,
    pub language_id: u8,
}

impl Keyed for LanguageWordsEntry {
    open spec fn spec_key(&self) -> u32 {
        self.id
    }

    fn key(&self) -> (k: u32) {
        self.id
    }
}

/// A row of the Languages table.
#[derive(Debug, Clone, PartialEq, Eq)]
pub struct LanguagesEntry {
    pub id: u32,
    pub name: String,
    pub flags: i32,
    pub ui_texture_kit_id: i32,
    pub ui_texture_kit_element_count: i32,
    pub learning_curve_id: i32,
}

impl Keyed for LanguagesEntry {
    open spec fn spec_key(&self) -> u32 {
        self.id
    }

    fn key(&self) -> (k: u32) {
        self.id
    }
}

/// A row of the MailTemplate table.
#[derive(Debug, Clone, PartialEq, Eq)]
pub struct MailTemplateEntry {
    pub id: u32,
    pub body: String,
}

impl Keyed for MailTemplateEntry {
    open spec fn spec_key(&self) -> u32 {
        self.id
    }

    fn key(&self) -> (k: u32) {
        self.id
    }
}

/// A row of the Movie table.
#[derive(Debug, Clone, PartialEq, Eq)]
pub struct MovieEntry {
    pub id: u32,
    pub volume: u8,
    pub key_id: u8,
    pub audio_file_data_id: u32,
    pub subtitle_file_data_id: u32,
}

impl Keyed for MovieEntry {
    open spec fn spec_key(&self) -> u32 {
        self.id
    }

    fn key(&self) -> (k: u32) {
        self.id
    }
}

/// A row of the MythicPlusSeason table.
#[derive(Debug, Clone, PartialEq, Eq)]
pub struct MythicPlusSeasonEntry {
    pub id: u32,
    pub milestone_season: i32,
    pub expansion_level: i32,
    pub heroic_lfg_dungeon_min_gear: i32,
}

impl Keyed for MythicPlusSeasonEntry {
    open spec fn spec_key(&self) -> u32 {
        self.id
    }

    fn key(&self) -> (k: u32) {
        self.id
    }
}

/// A row of the NamesProfanity table.
#[derive(Debug, Clone, PartialEq, Eq)]
pub struct NamesProfanityEntry {
    pub id: u32,
    pub name: String,
    pub language: i8,
}

impl Keyed for NamesProfanityEntry {
    open spec fn spec_key(&self) -> u32 {
        self.id
    }

    fn key(&self) -> (k: u32) {
        self.id
    }
}

/// A row of the NamesReserved table.
#[derive(Debug, Clone, PartialEq, Eq)]
pub struct NamesReservedEntry {
    pub id: u32,
    pub name: String,
}

impl Keyed for NamesReservedEntry {
    open spec fn spec_key(&self) -> u32 {
        self.id
    }

    fn key(&self) -> (k: u32) {
        self.id
    }
}

/// A row of the NamesReservedLocale table.
#[derive(Debug, Clone, PartialEq, Eq)]
pub struct NamesReservedLocaleEntry {
    pub id: u32,
    pub name: String,
    pub locale_mask: u8,
}

impl Keyed for NamesReservedLocaleEntry {
    open spec fn spec_key(&self) -> u32 {
        self.id
    }

    fn key(&self) -> (k: u32) {
        self.id
    }
}

/// A row of the OverrideSpellData table.
#[derive(Debug, Clone, PartialEq, Eq)]
pub struct OverrideSpellDataEntry {
    pub id: u32,
    pub spells: [i32; MAX_OVERRIDE_SPELL],
    pub player_action_bar_file_data_id: i32,
    pub flags: u8,
}

impl Keyed for OverrideSpellDataEntry {
    open spec fn spec_key(&self) -> u32 {
        self.id
    }

    fn key(&self) -> (k: u32) {
        self.id
    }
}

/// A row of the PvpDifficulty table.
#[derive(Debug, Clone, PartialEq, Eq)]
pub struct PvpDifficultyEntry {
    pub id: u32,
    pub range_index: u8,
    pub min_level: u8,
    pub max_level: u8,
    pub map_id: u32,
}

impl Keyed for PvpDifficultyEntry {
    open spec fn spec_key(&self) -> u32 {
        self.id
    }

    fn key(&self) -> (k: u32) {
        self.id
    }
}

/// A row of the PvpItem table.
#[derive(Debug, Clone, PartialEq, Eq)]
pub struct PvpItemEntry {
    pub id: u32,
    pub item_id: i32,
    pub item_level_delta: u8,
}

impl Keyed for PvpItemEntry {
    open spec fn spec_key(&self) -> u32 {
        self.id
    }

    fn key(&self) -> (k: u32) {
        self.id
    }
}

/// A row of the PrestigeLevelInfo table.
#[derive(Debug, Clone, PartialEq, Eq)]
pub struct PrestigeLevelInfoEntry {
    pub id: u32,
    pub name: String,
    pub prestige_level: i32,
    pub badge_texture_file_data_id: i32,
    pub flags: u8,
    pub awarded_achievement_id: i32,
}

impl Keyed for PrestigeLevelInfoEntry {
    open spec fn spec_key(&self) -> u32 {
        self.id
    }

    fn key(&self) -> (k: u32) {
        self.id
    }
}

/// A row of the Scenario table.
#[derive(Debug, Clone, PartialEq, Eq)]
pub struct ScenarioEntry {
    pub id: u32,
    pub name: String,
    pub area_table_id: u16,
    pub scenario_type: u8,
    pub flags: u8,
    pub ui_texture_kit_id: u32,
}

impl Keyed for ScenarioEntry {
    open spec fn spec_key(&self) -> u32 {
        self.id
    }

    fn key(&self) -> (k: u32) {
        self.id
    }
}

/// A row of the SceneScript table.
#[derive(Debug, Clone, PartialEq, Eq)]
pub struct SceneScriptEntry {
    pub id: u32,
    pub first_scene_script_id: u16,
    pub next_scene_script_id: u16,
    pub unknown_915: i32,
}

impl Keyed for SceneScriptEntry {
    open spec fn spec_key(&self) -> u32 {
        self.id
    }

    fn key(&self) -> (k: u32) {
        self.id
    }
}

/// A row of the SceneScriptText table.
#[derive(Debug, Clone, PartialEq, Eq)]
pub struct SceneScriptTextEntry {
    pub id: u32,
    pub name: String,
    pub script: String,
}

impl Keyed for SceneScriptTextEntry {
    open spec fn spec_key(&self) -> u32 {
        self.id
    }

    fn key(&self) -> (k: u32) {
        self.id
    }
}

/// A row of the ServerMessages table.
#[derive(Debug, Clone, PartialEq, Eq)]
pub struct ServerMessagesEntry {
    pub id: u32,
    pub text: String,
}

impl Keyed for ServerMessagesEntry {
    open spec fn spec_key(&self) -> u32 {
        self.id
    }

    fn key(&self) -> (k: u32) {
        self.id
    }
}

/// A row of the SoundKit table.
///
/// Fields that the table stores as 32-bit floats hold their bit patterns.
#[derive(Debug, Clone, PartialEq, Eq)]
pub struct SoundKitEntry {
    pub id: u32,
    pub sound_type: u8,
    pub volume_float: u32,
    pub flags: u16,
    pub min_distance: u32,
    pub distance_cutoff: u32,
    pub eax_def: u8,
    pub sound_kit_advanced_id: u32,
    pub volume_variation_plus: u32,
    pub volume_variation_minus: u32,
    pub pitch_variation_plus: u32,
    pub pitch_variation_minus: u32,
    pub dialog_type: i8,
    pub pitch_adjust: u32,
    pub bus_overwrite_id: u16,
    pub max_instances: u8,
    pub sound_mix_group_id: u32,
}

impl Keyed for SoundKitEntry {
    open spec fn spec_key(&self) -> u32 {
        self.id
    }

    fn key(&self) -> (k: u32) {
        self.id
    }
}

/// A row of the SpecSetMember table.
#[derive(Debug, Clone, PartialEq, Eq)]
pub struct SpecSetMemberEntry {
    pub id: u32,
    pub chr_specialization_id: i32,
    pub spec_set_id: u32,
}

impl Keyed for SpecSetMemberEntry {
    open spec fn spec_key(&self) -> u32 {
        self.id
    }

    fn key(&self) -> (k: u32) {
        self.id
    }
}

/// A row of the SpecializationSpells table.
#[derive(Debug, Clone, PartialEq, Eq)]
pub struct SpecializationSpellsEntry {
    pub id: u32,
    pub description: String,
    pub spec_id: u16,
    pub spell_id: i32,
    pub overrides_spell_id: i32,
    pub display_order: u8,
}

impl Keyed for SpecializationSpellsEntry {
    open spec fn spec_key(&self) -> u32 {
        self.id
    }

    fn key(&self) -> (k: u32) {
        self.id
    }
}

/// A row of the SummonProperties table.
#[derive(Debug, Clone, PartialEq, Eq)]
pub struct SummonPropertiesEntry {
    pub id: u32,
    pub control: i32,
    pub faction: i32,
    pub title: i32,
    pub slot: i32,
    pub flags: [i32; 2],
}

impl Keyed for SummonPropertiesEntry {
    open spec fn spec_key(&self) -> u32 {
        self.id
    }

    fn key(&self) -> (k: u32) {
        self.id
    }
}

/// A row of the TactKey table.
#[derive(Debug, Clone, PartialEq, Eq)]
pub struct TactKeyEntry {
    pub id: u32,
    pub key: [u8; TACTKEY_SIZE],
}

impl Keyed for TactKeyEntry {
    open spec fn spec_key(&self) -> u32 {
        self.id
    }

    fn key(&self) -> (k: u32) {
        self.id
    }
}

/// A row of the TotemCategory table.
#[derive(Debug, Clone, PartialEq, Eq)]
pub struct TotemCategoryEntry {
    pub id: u32,
    pub name: String,
    pub totem_category_type: u8,
    pub totem_category_mask: i32,
}

impl Keyed for TotemCategoryEntry {
    open spec fn spec_key(&self) -> u32 {
        self.id
    }

    fn key(&self) -> (k: u32) {
        self.id
    }
}

/// Store of AdventureJournal rows indexed by id.
pub struct AdventureJournalStore {
    entries: HashMap<u32, AdventureJournalEntry>,
}

impl View for AdventureJournalStore {
    type V = Map<u32, AdventureJournalEntry>;

    closed spec fn view(&self) -> Map<u32, AdventureJournalEntry> {
        self.entries@
    }
}

impl AdventureJournalStore {
    /// Builds the store; a later row replaces an earlier one with the same id.
    pub fn from_entries(entries: Vec<AdventureJournalEntry>) -> (s: Self)
        ensures
            s@ == index_by_key(entries@),
    {
        AdventureJournalStore { entries: build_index(entries) }
    }

    /// Builds the store from the rows of the AdventureJournal table, in file order.
    pub fn load(rows: Vec<AdventureJournalEntry>) -> (s: Self)
        ensures
            s@ == index_by_key(rows@),
    {
        Self::from_entries(rows)
    }

    pub fn get(&self, id: u32) -> (r: Option<&AdventureJournalEntry>)
        ensures
            r == (if self@.contains_key(id) {
                Some(&self@[id])
            } else {
                None
            }),
    {
        self.entries.get(&id)
    }

    pub fn len(&self) -> (n: usize)
        ensures
            n == self@.len(),
    {
        self.entries.len()
    }

    pub fn is_empty(&self) -> (b: bool)
        ensures
            b == self@.is_empty(),
    {
        self.entries.is_empty()
    }
}

/// Store of AdventureMapPoi rows indexed by id.
pub struct AdventureMapPoiStore {
    entries: HashMap<u32, AdventureMapPoiEntry>,
}

impl View for AdventureMapPoiStore {
    type V = Map<u32, AdventureMapPoiEntry>;

    closed spec fn view(&self) -> Map<u32, AdventureMapPoiEntry> {
        self.entries@
    }
}

impl AdventureMapPoiStore {
    /// Builds the store; a later row replaces an earlier one with the same id.
    pub fn from_entries(entries: Vec<AdventureMapPoiEntry>) -> (s: Self)
        ensures
            s@ == index_by_key(entries@),
    {
        AdventureMapPoiStore { entries: build_index(entries) }
    }

    /// Builds the store from the rows of the AdventureMapPoi table, in file order.
    pub fn load(rows: Vec<AdventureMapPoiEntry>) -> (s: Self)
        ensures
            s@ == index_by_key(rows@),
    {
        Self::from_entries(rows)
    }

    pub fn get(&self, id: u32) -> (r: Option<&AdventureMapPoiEntry>)
        ensures
            r == (if self@.contains_key(id) {
                Some(&self@[id])
            } else {
                None
            }),
    {
        self.entries.get(&id)
    }

    pub fn len(&self) -> (n: usize)
        ensures
            n == self@.len(),
    {
        self.entries.len()
    }

    pub fn is_empty(&self) -> (b: bool)
        ensures
            b == self@.is_empty(),
    {
        self.entries.is_empty()
    }
}

/// Store of BannedAddons rows indexed by id.
pub struct BannedAddonsStore {
    entries: HashMap<u32, BannedAddonsEntry>,
}

impl View for BannedAddonsStore {
    type V = Map<u32, BannedAddonsEntry>;

    closed spec fn view(&self) -> Map<u32, BannedAddonsEntry> {
        self.entries@
    }
}

impl BannedAddonsStore {
    /// Builds the store; a later row replaces an earlier one with the same id.
    pub fn from_entries(entries: Vec<BannedAddonsEntry>) -> (s: Self)
        ensures
            s@ == index_by_key(entries@),
    {
        BannedAddonsStore { entries: build_index(entries) }
    }

    /// Builds the store from the rows of the BannedAddons table, in file order.
    pub fn load(rows: Vec<BannedAddonsEntry>) -> (s: Self)
        ensures
            s@ == index_by_key(rows@),
    {
        Self::from_entries(rows)
    }

    pub fn get(&self, id: u32) -> (r: Option<&BannedAddonsEntry>)
        ensures
            r == (if self@.contains_key(id) {
                Some(&self@[id])
            } else {
                None
            }),
    {
        self.entries.get(&id)
    }

    pub fn len(&self) -> (n: usize)
        ensures
            n == self@.len(),
    {
        self.entries.len()
    }

    pub fn is_empty(&self) -> (b: bool)
        ensures
            b == self@.is_empty(),
    {
        self.entries.is_empty()
    }
}

/// Store of BroadcastText rows indexed by id.
pub struct BroadcastTextStore {
    entries: HashMap<u32, BroadcastTextEntry>,
}

impl View for BroadcastTextStore {
    type V = Map<u32, BroadcastTextEntry>;

    closed spec fn view(&self) -> Map<u32, BroadcastTextEntry> {
        self.entries@
    }
}

impl BroadcastTextStore {
    /// Builds the store; a later row replaces an earlier one with the same id.
    pub fn from_entries(entries: Vec<BroadcastTextEntry>) -> (s: Self)
        ensures
            s@ == index_by_key(entries@),
    {
        BroadcastTextStore { entries: build_index(entries) }
    }

    /// Builds the store from the rows of the BroadcastText table, in file order.
    pub fn load(rows: Vec<BroadcastTextEntry>) -> (s: Self)
        ensures
            s@ == index_by_key(rows@),
    {
        Self::from_entries(rows)
    }

    pub fn get(&self, id: u32) -> (r: Option<&BroadcastTextEntry>)
        ensures
            r == (if self@.contains_key(id) {
                Some(&self@[id])
            } else {
                None
            }),
    {
        self.entries.get(&id)
    }

    pub fn len(&self) -> (n: usize)
        ensures
            n == self@.len(),
    {
        self.entries.len()
    }

    pub fn is_empty(&self) -> (b: bool)
        ensures
            b == self@.is_empty(),
    {
        self.entries.is_empty()
    }
}

/// Store of CfgCategories rows indexed by id.
pub struct CfgCategoriesStore {
    entries: HashMap<u32, CfgCategoriesEntry>,
}

impl View for CfgCategoriesStore {
    type V = Map<u32, CfgCategoriesEntry>;

    closed spec fn view(&self) -> Map<u32, CfgCategoriesEntry> {
        self.entries@
    }
}

impl CfgCategoriesStore {
    /// Builds the store; a later row replaces an earlier one with the same id.
    pub fn from_entries(entries: Vec<CfgCategoriesEntry>) -> (s: Self)
        ensures
            s@ == index_by_key(entries@),
    {
        CfgCategoriesStore { entries: build_index(entries) }
    }

    /// Builds the store from the rows of the CfgCategories table, in file order.
    pub fn load(rows: Vec<CfgCategoriesEntry>) -> (s: Self)
        ensures
            s@ == index_by_key(rows@),
    {
        Self::from_entries(rows)
    }

    pub fn get(&self, id: u32) -> (r: Option<&CfgCategoriesEntry>)
        ensures
            r == (if self@.contains_key(id) {
                Some(&self@[id])
            } else {
                None
            }),
    {
        self.entries.get(&id)
    }

    pub fn len(&self) -> (n: usize)
        ensures
            n == self@.len(),
    {
        self.entries.len()
    }

    pub fn is_empty(&self) -> (b: bool)
        ensures
            b == self@.is_empty(),
    {
        self.entries.is_empty()
    }
}

/// Store of CfgRegions rows indexed by id.
pub struct CfgRegionsStore {
    entries: HashMap<u32, CfgRegionsEntry>,
}

impl View for CfgRegionsStore {
    type V = Map<u32, CfgRegionsEntry>;

    closed spec fn view(&self) -> Map<u32, CfgRegionsEntry> {
        self.entries@
    }
}

impl CfgRegionsStore {
    /// Builds the store; a later row replaces an earlier one with the same id.
    pub fn from_entries(entries: Vec<CfgRegionsEntry>) -> (s: Self)
        ensures
            s@ == index_by_key(entries@),
    {
        CfgRegionsStore { entries: build_index(entries) }
    }

    /// Builds the store from the rows of the CfgRegions table, in file order.
    pub fn load(rows: Vec<CfgRegionsEntry>) -> (s: Self)
        ensures
            s@ == index_by_key(rows@),
    {
        Self::from_entries(rows)
    }

    pub fn get(&self, id: u32) -> (r: Option<&CfgRegionsEntry>)
        ensures
            r == (if self@.contains_key(id) {
                Some(&self@[id])
            } else {
                None
            }),
    {
        self.entries.get(&id)
    }

    pub fn len(&self) -> (n: usize)
        ensures
            n == self@.len(),
    {
        self.entries.len()
    }

    pub fn is_empty(&self) -> (b: bool)
        ensures
            b == self@.is_empty(),
    {
        self.entries.is_empty()
    }
}

/// Store of ChatChannels rows indexed by id.
pub struct ChatChannelsStore {
    entries: HashMap<u32, ChatChannelsEntry>,
}

impl View for ChatChannelsStore {
    type V = Map<u32, ChatChannelsEntry>;

    closed spec fn view(&self) -> Map<u32, ChatChannelsEntry> {
        self.entries@
    }
}

impl ChatChannelsStore {
    /// Builds the store; a later row replaces an earlier one with the same id.
    pub fn from_entries(entries: Vec<ChatChannelsEntry>) -> (s: Self)
        ensures
            s@ == index_by_key(entries@),
    {
        ChatChannelsStore { entries: build_index(entries) }
    }

    /// Builds the store from the rows of the ChatChannels table, in file order.
    pub fn load(rows: Vec<ChatChannelsEntry>) -> (s: Self)
        ensures
            s@ == index_by_key(rows@),
    {
        Self::from_entries(rows)
    }

    pub fn get(&self, id: u32) -> (r: Option<&ChatChannelsEntry>)
        ensures
            r == (if self@.contains_key(id) {
                Some(&self@[id])
            } else {
                None
            }),
    {
        self.entries.get(&id)
    }

    pub fn len(&self) -> (n: usize)
        ensures
            n == self@.len(),
    {
        self.entries.len()
    }

    pub fn is_empty(&self) -> (b: bool)
        ensures
            b == self@.is_empty(),
    {
        self.entries.is_empty()
    }
}

/// Store of CinematicCamera rows indexed by id.
pub struct CinematicCameraStore {
    entries: HashMap<u32, CinematicCameraEntry>,
}

impl View for CinematicCameraStore {
    type V = Map<u32, CinematicCameraEntry>;

    closed spec fn view(&self) -> Map<u32, CinematicCameraEntry> {
        self.entries@
    }
}

impl CinematicCameraStore {
    /// Builds the store; a later row replaces an earlier one with the same id.
    pub fn from_entries(entries: Vec<CinematicCameraEntry>) -> (s: Self)
        ensures
            s@ == index_by_key(entries@),
    {
        CinematicCameraStore { entries: build_index(entries) }
    }

    /// Builds the store from the rows of the CinematicCamera table, in file order.
    pub fn load(rows: Vec<CinematicCameraEntry>) -> (s: Self)
        ensures
            s@ == index_by_key(rows@),
    {
        Self::from_entries(rows)
    }

    pub fn get(&self, id: u32) -> (r: Option<&CinematicCameraEntry>)
        ensures
            r == (if self@.contains_key(id) {
                Some(&self@[id])
            } else {
                None
            }),
    {
        self.entries.get(&id)
    }

    pub fn len(&self) -> (n: usize)
        ensures
            n == self@.len(),
    {
        self.entries.len()
    }

    pub fn is_empty(&self) -> (b: bool)
        ensures
            b == self@.is_empty(),
    {
        self.entries.is_empty()
    }
}

/// Store of CinematicSequences rows indexed by id.
pub struct CinematicSequencesStore {
    entries: HashMap<u32, CinematicSequencesEntry>,
}

impl View for CinematicSequencesStore {
    type V = Map<u32, CinematicSequencesEntry>;

    closed spec fn view(&self) -> Map<u32, CinematicSequencesEntry> {
        self.entries@
    }
}

impl CinematicSequencesStore {
    /// Builds the store; a later row replaces an earlier one with the same id.
    pub fn from_entries(entries: Vec<CinematicSequencesEntry>) -> (s: Self)
        ensures
            s@ == index_by_key(entries@),
    {
        CinematicSequencesStore { entries: build_index(entries) }
    }

    /// Builds the store from the rows of the CinematicSequences table, in file order.
    pub fn load(rows: Vec<CinematicSequencesEntry>) -> (s: Self)
        ensures
            s@ == index_by_key(rows@),
    {
        Self::from_entries(rows)
    }

    pub fn get(&self, id: u32) -> (r: Option<&CinematicSequencesEntry>)
        ensures
            r == (if self@.contains_key(id) {
                Some(&self@[id])
            } else {
                None
            }),
    {
        self.entries.get(&id)
    }

    pub fn len(&self) -> (n: usize)
        ensures
            n == self@.len(),
    {
        self.entries.len()
    }

    pub fn is_empty(&self) -> (b: bool)
        ensures
            b == self@.is_empty(),
    {
        self.entries.is_empty()
    }
}

/// Store of ConditionalChrModel rows indexed by id.
pub struct ConditionalChrModelStore {
    entries: HashMap<u32, ConditionalChrModelEntry>,
}

impl View for ConditionalChrModelStore {
    type V = Map<u32, ConditionalChrModelEntry>;

    closed spec fn view(&self) -> Map<u32, ConditionalChrModelEntry> {
        self.entries@
    }
}

impl ConditionalChrModelStore {
    /// Builds the store; a later row replaces an earlier one with the same id.
    pub fn from_entries(entries: Vec<ConditionalChrModelEntry>) -> (s: Self)
        ensures
            s@ == index_by_key(entries@),
    {
        ConditionalChrModelStore { entries: build_index(entries) }
    }

    /// Builds the store from the rows of the ConditionalChrModel table, in file order.
    pub fn load(rows: Vec<ConditionalChrModelEntry>) -> (s: Self)
        ensures
            s@ == index_by_key(rows@),
    {
        Self::from_entries(rows)
    }

    pub fn get(&self, id: u32) -> (r: Option<&ConditionalChrModelEntry>)
        ensures
            r == (if self@.contains_key(id) {
                Some(&self@[id])
            } else {
                None
            }),
    {
        self.entries.get(&id)
    }

    pub fn len(&self) -> (n: usize)
        ensures
            n == self@.len(),
    {
        self.entries.len()
    }

    pub fn is_empty(&self) -> (b: bool)
        ensures
            b == self@.is_empty(),
    {
        self.entries.is_empty()
    }
}

/// Store of ConditionalContentTuning rows indexed by id.
pub struct ConditionalContentTuningStore {
    entries: HashMap<u32, ConditionalContentTuningEntry>,
}

impl View for ConditionalContentTuningStore {
    type V = Map<u32, ConditionalContentTuningEntry>;

    closed spec fn view(&self) -> Map<u32, ConditionalContentTuningEntry> {
        self.entries@
    }
}

impl ConditionalContentTuningStore {
    /// Builds the store; a later row replaces an earlier one with the same id.
    pub fn from_entries(entries: Vec<ConditionalContentTuningEntry>) -> (s: Self)
        ensures
            s@ == index_by_key(entries@),
    {
        ConditionalContentTuningStore { entries: build_index(entries) }
    }

    /// Builds the store from the rows of the ConditionalContentTuning table, in file order.
    pub fn load(rows: Vec<ConditionalContentTuningEntry>) -> (s: Self)
        ensures
            s@ == index_by_key(rows@),
    {
        Self::from_entries(rows)
    }

    pub fn get(&self, id: u32) -> (r: Option<&ConditionalContentTuningEntry>)
        ensures
            r == (if self@.contains_key(id) {
                Some(&self@[id])
            } else {
                None
            }),
    {
        self.entries.get(&id)
    }

    pub fn len(&self) -> (n: usize)
        ensures
            n == self@.len(),
    {
        self.entries.len()
    }

    pub fn is_empty(&self) -> (b: bool)
        ensures
            b == self@.is_empty(),
    {
        self.entries.is_empty()
    }
}

/// Store of ExpectedStat rows indexed by id.
pub struct ExpectedStatStore {
    entries: HashMap<u32, ExpectedStatEntry>,
}

impl View for ExpectedStatStore {
    type V = Map<u32, ExpectedStatEntry>;

    closed spec fn view(&self) -> Map<u32, ExpectedStatEntry> {
        self.entries@
    }
}

impl ExpectedStatStore {
    /// Builds the store; a later row replaces an earlier one with the same id.
    pub fn from_entries(entries: Vec<ExpectedStatEntry>) -> (s: Self)
        ensures
            s@ == index_by_key(entries@),
    {
        ExpectedStatStore { entries: build_index(entries) }
    }

    /// Builds the store from the rows of the ExpectedStat table, in file order.
    pub fn load(rows: Vec<ExpectedStatEntry>) -> (s: Self)
        ensures
            s@ == index_by_key(rows@),
    {
        Self::from_entries(rows)
    }

    pub fn get(&self, id: u32) -> (r: Option<&ExpectedStatEntry>)
        ensures
            r == (if self@.contains_key(id) {
                Some(&self@[id])
            } else {
                None
            }),
    {
        self.entries.get(&id)
    }

    pub fn len(&self) -> (n: usize)
        ensures
            n == self@.len(),
    {
        self.entries.len()
    }

    pub fn is_empty(&self) -> (b: bool)
        ensures
            b == self@.is_empty(),
    {
        self.entries.is_empty()
    }
}

/// Store of ExpectedStatMod rows indexed by id.
pub struct ExpectedStatModStore {
    entries: HashMap<u32, ExpectedStatModEntry>,
}

impl View for ExpectedStatModStore {
    type V = Map<u32, ExpectedStatModEntry>;

    closed spec fn view(&self) -> Map<u32, ExpectedStatModEntry> {
        self.entries@
    }
}

impl ExpectedStatModStore {
    /// Builds the store; a later row replaces an earlier one with the same id.
    pub fn from_entries(entries: Vec<ExpectedStatModEntry>) -> (s: Self)
        ensures
            s@ == index_by_key(entries@),
    {
        ExpectedStatModStore { entries: build_index(entries) }
    }

    /// Builds the store from the rows of the ExpectedStatMod table, in file order.
    pub fn load(rows: Vec<ExpectedStatModEntry>) -> (s: Self)
        ensures
            s@ == index_by_key(rows@),
    {
        Self::from_entries(rows)
    }

    pub fn get(&self, id: u32) -> (r: Option<&ExpectedStatModEntry>)
        ensures
            r == (if self@.contains_key(id) {
                Some(&self@[id])
            } else {
                None
            }),
    {
        self.entries.get(&id)
    }

    pub fn len(&self) -> (n: usize)
        ensures
            n == self@.len(),
    {
        self.entries.len()
    }

    pub fn is_empty(&self) -> (b: bool)
        ensures
            b == self@.is_empty(),
    {
        self.entries.is_empty()
    }
}

/// Store of GarrAbility rows indexed by id.
pub struct GarrAbilityStore {
    entries: HashMap<u32, GarrAbilityEntry>,
}

impl View for GarrAbilityStore {
    type V = Map<u32, GarrAbilityEntry>;

    closed spec fn view(&self) -> Map<u32, GarrAbilityEntry> {
        self.entries@
    }
}

impl GarrAbilityStore {
    /// Builds the store; a later row replaces an earlier one with the same id.
    pub fn from_entries(entries: Vec<GarrAbilityEntry>) -> (s: Self)
        ensures
            s@ == index_by_key(entries@),
    {
        GarrAbilityStore { entries: build_index(entries) }
    }

    /// Builds the store from the rows of the GarrAbility table, in file order.
    pub fn load(rows: Vec<GarrAbilityEntry>) -> (s: Self)
        ensures
            s@ == index_by_key(rows@),
    {
        Self::from_entries(rows)
    }

    pub fn get(&self, id: u32) -> (r: Option<&GarrAbilityEntry>)
        ensures
            r == (if self@.contains_key(id) {
                Some(&self@[id])
            } else {
                None
            }),
    {
        self.entries.get(&id)
    }

    pub fn len(&self) -> (n: usize)
        ensures
            n == self@.len(),
    {
        self.entries.len()
    }

    pub fn is_empty(&self) -> (b: bool)
        ensures
            b == self@.is_empty(),
    {
        self.entries.is_empty()
    }
}

/// Store of GarrBuilding rows indexed by id.
pub struct GarrBuildingStore {
    entries: HashMap<u32, GarrBuildingEntry>,
}

impl View for GarrBuildingStore {
    type V = Map<u32, GarrBuildingEntry>;

    closed spec fn view(&self) -> Map<u32, GarrBuildingEntry> {
        self.entries@
    }
}

impl GarrBuildingStore {
    /// Builds the store; a later row replaces an earlier one with the same id.
    pub fn from_entries(entries: Vec<GarrBuildingEntry>) -> (s: Self)
        ensures
            s@ == index_by_key(entries@),
    {
        GarrBuildingStore { entries: build_index(entries) }
    }

    /// Builds the store from the rows of the GarrBuilding table, in file order.
    pub fn load(rows: Vec<GarrBuildingEntry>) -> (s: Self)
        ensures
            s@ == index_by_key(rows@),
    {
        Self::from_entries(rows)
    }

    pub fn get(&self, id: u32) -> (r: Option<&GarrBuildingEntry>)
        ensures
            r == (if self@.contains_key(id) {
                Some(&self@[id])
            } else {
                None
            }),
    {
        self.entries.get(&id)
    }

    pub fn len(&self) -> (n: usize)
        ensures
            n == self@.len(),
    {
        self.entries.len()
    }

    pub fn is_empty(&self) -> (b: bool)
        ensures
            b == self@.is_empty(),
    {
        self.entries.is_empty()
    }
}

/// Store of GarrBuildingPlotInst rows indexed by id.
pub struct GarrBuildingPlotInstStore {
    entries: HashMap<u32, GarrBuildingPlotInstEntry>,
}

impl View for GarrBuildingPlotInstStore {
    type V = Map<u32, GarrBuildingPlotInstEntry>;

    closed spec fn view(&self) -> Map<u32, GarrBuildingPlotInstEntry> {
        self.entries@
    }
}

impl GarrBuildingPlotInstStore {
    /// Builds the store; a later row replaces an earlier one with the same id.
    pub fn from_entries(entries: Vec<GarrBuildingPlotInstEntry>) -> (s: Self)
        ensures
            s@ == index_by_key(entries@),
    {
        GarrBuildingPlotInstStore { entries: build_index(entries) }
    }

    /// Builds the store from the rows of the GarrBuildingPlotInst table, in file order.
    pub fn load(rows: Vec<GarrBuildingPlotInstEntry>) -> (s: Self)
        ensures
            s@ == index_by_key(rows@),
    {
        Self::from_entries(rows)
    }

    pub fn get(&self, id: u32) -> (r: Option<&GarrBuildingPlotInstEntry>)
        ensures
            r == (if self@.contains_key(id) {
                Some(&self@[id])
            } else {
                None
            }),
    {
        self.entries.get(&id)
    }

    pub fn len(&self) -> (n: usize)
        ensures
            n == self@.len(),
    {
        self.entries.len()
    }

    pub fn is_empty(&self) -> (b: bool)
        ensures
            b == self@.is_empty(),
    {
        self.entries.is_empty()
    }
}

/// Store of GarrClassSpec rows indexed by id.
pub struct GarrClassSpecStore {
    entries: HashMap<u32, GarrClassSpecEntry>,
}

impl View for GarrClassSpecStore {
    type V = Map<u32, GarrClassSpecEntry>;

    closed spec fn view(&self) -> Map<u32, GarrClassSpecEntry> {
        self.entries@
    }
}

impl GarrClassSpecStore {
    /// Builds the store; a later row replaces an earlier one with the same id.
    pub fn from_entries(entries: Vec<GarrClassSpecEntry>) -> (s: Self)
        ensures
            s@ == index_by_key(entries@),
    {
        GarrClassSpecStore { entries: build_index(entries) }
    }

    /// Builds the store from the rows of the GarrClassSpec table, in file order.
    pub fn load(rows: Vec<GarrClassSpecEntry>) -> (s: Self)
        ensures
            s@ == index_by_key(rows@),
    {
        Self::from_entries(rows)
    }

    pub fn get(&self, id: u32) -> (r: Option<&GarrClassSpecEntry>)
        ensures
            r == (if self@.contains_key(id) {
                Some(&self@[id])
            } else {
                None
            }),
    {
        self.entries.get(&id)
    }

    pub fn len(&self) -> (n: usize)
        ensures
            n == self@.len(),
    {
        self.entries.len()
    }

    pub fn is_empty(&self) -> (b: bool)
        ensures
            b == self@.is_empty(),
    {
        self.entries.is_empty()
    }
}

/// Store of GarrFollower rows indexed by id.
pub struct GarrFollowerStore {
    entries: HashMap<u32, GarrFollowerEntry>,
}

impl View for GarrFollowerStore {
    type V = Map<u32, GarrFollowerEntry>;

    closed spec fn view(&self) -> Map<u32, GarrFollowerEntry> {
        self.entries@
    }
}

impl GarrFollowerStore {
    /// Builds the store; a later row replaces an earlier one with the same id.
    pub fn from_entries(entries: Vec<GarrFollowerEntry>) -> (s: Self)
        ensures
            s@ == index_by_key(entries@),
    {
        GarrFollowerStore { entries: build_index(entries) }
    }

    /// Builds the store from the rows of the GarrFollower table, in file order.
    pub fn load(rows: Vec<GarrFollowerEntry>) -> (s: Self)
        ensures
            s@ == index_by_key(rows@),
    {
        Self::from_entries(rows)
    }

    pub fn get(&self, id: u32) -> (r: Option<&GarrFollowerEntry>)
        ensures
            r == (if self@.contains_key(id) {
                Some(&self@[id])
            } else {
                None
            }),
    {
        self.entries.get(&id)
    }

    pub fn len(&self) -> (n: usize)
        ensures
            n == self@.len(),
    {
        self.entries.len()
    }

    pub fn is_empty(&self) -> (b: bool)
        ensures
            b == self@.is_empty(),
    {
        self.entries.is_empty()
    }
}

/// Store of GarrFollowerXAbility rows indexed by id.
pub struct GarrFollowerXAbilityStore {
    entries: HashMap<u32, GarrFollowerXAbilityEntry>,
}

impl View for GarrFollowerXAbilityStore {
    type V = Map<u32, GarrFollowerXAbilityEntry>;

    closed spec fn view(&self) -> Map<u32, GarrFollowerXAbilityEntry> {
        self.entries@
    }
}

impl GarrFollowerXAbilityStore {
    /// Builds the store; a later row replaces an earlier one with the same id.
    pub fn from_entries(entries: Vec<GarrFollowerXAbilityEntry>) -> (s: Self)
        ensures
            s@ == index_by_key(entries@),
    {
        GarrFollowerXAbilityStore { entries: build_index(entries) }
    }

    /// Builds the store from the rows of the GarrFollowerXAbility table, in file order.
    pub fn load(rows: Vec<GarrFollowerXAbilityEntry>) -> (s: Self)
        ensures
            s@ == index_by_key(rows@),
    {
        Self::from_entries(rows)
    }

    pub fn get(&self, id: u32) -> (r: Option<&GarrFollowerXAbilityEntry>)
        ensures
            r == (if self@.contains_key(id) {
                Some(&self@[id])
            } else {
                None
            }),
    {
        self.entries.get(&id)
    }

    pub fn len(&self) -> (n: usize)
        ensures
            n == self@.len(),
    {
        self.entries.len()
    }

    pub fn is_empty(&self) -> (b: bool)
        ensures
            b == self@.is_empty(),
    {
        self.entries.is_empty()
    }
}

/// Store of GarrMission rows indexed by id.
pub struct GarrMissionStore {
    entries: HashMap<u32, GarrMissionEntry>,
}

impl View for GarrMissionStore {
    type V = Map<u32, GarrMissionEntry>;

    closed spec fn view(&self) -> Map<u32, GarrMissionEntry> {
        self.entries@
    }
}

impl GarrMissionStore {
    /// Builds the store; a later row replaces an earlier one with the same id.
    pub fn from_entries(entries: Vec<GarrMissionEntry>) -> (s: Self)
        ensures
            s@ == index_by_key(entries@),
    {
        GarrMissionStore { entries: build_index(entries) }
    }

    /// Builds the store from the rows of the GarrMission table, in file order.
    pub fn load(rows: Vec<GarrMissionEntry>) -> (s: Self)
        ensures
            s@ == index_by_key(rows@),
    {
        Self::from_entries(rows)
    }

    pub fn get(&self, id: u32) -> (r: Option<&GarrMissionEntry>)
        ensures
            r == (if self@.contains_key(id) {
                Some(&self@[id])
            } else {
                None
            }),
    {
        self.entries.get(&id)
    }

    pub fn len(&self) -> (n: usize)
        ensures
            n == self@.len(),
    {
        self.entries.len()
    }

    pub fn is_empty(&self) -> (b: bool)
        ensures
            b == self@.is_empty(),
    {
        self.entries.is_empty()
    }
}

/// Store of GarrPlot rows indexed by id.
pub struct GarrPlotStore {
    entries: HashMap<u32, GarrPlotEntry>,
}

impl View for GarrPlotStore {
    type V = Map<u32, GarrPlotEntry>;

    closed spec fn view(&self) -> Map<u32, GarrPlotEntry> {
        self.entries@
    }
}

impl GarrPlotStore {
    /// Builds the store; a later row replaces an earlier one with the same id.
    pub fn from_entries(entries: Vec<GarrPlotEntry>) -> (s: Self)
        ensures
            s@ == index_by_key(entries@),
    {
        GarrPlotStore { entries: build_index(entries) }
    }

    /// Builds the store from the rows of the GarrPlot table, in file order.
    pub fn load(rows: Vec<GarrPlotEntry>) -> (s: Self)
        ensures
            s@ == index_by_key(rows@),
    {
        Self::from_entries(rows)
    }

    pub fn get(&self, id: u32) -> (r: Option<&GarrPlotEntry>)
        ensures
            r == (if self@.contains_key(id) {
                Some(&self@[id])
            } else {
                None
            }),
    {
        self.entries.get(&id)
    }

    pub fn len(&self) -> (n: usize)
        ensures
            n == self@.len(),
    {
        self.entries.len()
    }

    pub fn is_empty(&self) -> (b: bool)
        ensures
            b == self@.is_empty(),
    {
        self.entries.is_empty()
    }
}

/// Store of GarrPlotBuilding rows indexed by id.
pub struct GarrPlotBuildingStore {
    entries: HashMap<u32, GarrPlotBuildingEntry>,
}

impl View for GarrPlotBuildingStore {
    type V = Map<u32, GarrPlotBuildingEntry>;

    closed spec fn view(&self) -> Map<u32, GarrPlotBuildingEntry> {
        self.entries@
    }
}

impl GarrPlotBuildingStore {
    /// Builds the store; a later row replaces an earlier one with the same id.
    pub fn from_entries(entries: Vec<GarrPlotBuildingEntry>) -> (s: Self)
        ensures
            s@ == index_by_key(entries@),
    {
        GarrPlotBuildingStore { entries: build_index(entries) }
    }

    /// Builds the store from the rows of the GarrPlotBuilding table, in file order.
    pub fn load(rows: Vec<GarrPlotBuildingEntry>) -> (s: Self)
        ensures
            s@ == index_by_key(rows@),
    {
        Self::from_entries(rows)
    }

    pub fn get(&self, id: u32) -> (r: Option<&GarrPlotBuildingEntry>)
        ensures
            r == (if self@.contains_key(id) {
                Some(&self@[id])
            } else {
                None
            }),
    {
        self.entries.get(&id)
    }

    pub fn len(&self) -> (n: usize)
        ensures
            n == self@.len(),
    {
        self.entries.len()
    }

    pub fn is_empty(&self) -> (b: bool)
        ensures
            b == self@.is_empty(),
    {
        self.entries.is_empty()
    }
}

/// Store of GarrPlotInstance rows indexed by id.
pub struct GarrPlotInstanceStore {
    entries: HashMap<u32, GarrPlotInstanceEntry>,
}

impl View for GarrPlotInstanceStore {
    type V = Map<u32, GarrPlotInstanceEntry>;

    closed spec fn view(&self) -> Map<u32, GarrPlotInstanceEntry> {
        self.entries@
    }
}

impl GarrPlotInstanceStore {
    /// Builds the store; a later row replaces an earlier one with the same id.
    pub fn from_entries(entries: Vec<GarrPlotInstanceEntry>) -> (s: Self)
        ensures
            s@ == index_by_key(entries@),
    {
        GarrPlotInstanceStore { entries: build_index(entries) }
    }

    /// Builds the store from the rows of the GarrPlotInstance table, in file order.
    pub fn load(rows: Vec<GarrPlotInstanceEntry>) -> (s: Self)
        ensures
            s@ == index_by_key(rows@),
    {
        Self::from_entries(rows)
    }

    pub fn get(&self, id: u32) -> (r: Option<&GarrPlotInstanceEntry>)
        ensures
            r == (if self@.contains_key(id) {
                Some(&self@[id])
            } else {
                None
            }),
    {
        self.entries.get(&id)
    }

    pub fn len(&self) -> (n: usize)
        ensures
            n == self@.len(),
    {
        self.entries.len()
    }

    pub fn is_empty(&self) -> (b: bool)
        ensures
            b == self@.is_empty(),
    {
        self.entries.is_empty()
    }
}

/// Store of GarrSiteLevel rows indexed by id.
pub struct GarrSiteLevelStore {
    entries: HashMap<u32, GarrSiteLevelEntry>,
}

impl View for GarrSiteLevelStore {
    type V = Map<u32, GarrSiteLevelEntry>;

    closed spec fn view(&self) -> Map<u32, GarrSiteLevelEntry> {
        self.entries@
    }
}

impl GarrSiteLevelStore {
    /// Builds the store; a later row replaces an earlier one with the same id.
    pub fn from_entries(entries: Vec<GarrSiteLevelEntry>) -> (s: Self)
        ensures
            s@ == index_by_key(entries@),
    {
        GarrSiteLevelStore { entries: build_index(entries) }
    }

    /// Builds the store from the rows of the GarrSiteLevel table, in file order.
    pub fn load(rows: Vec<GarrSiteLevelEntry>) -> (s: Self)
        ensures
            s@ == index_by_key(rows@),
    {
        Self::from_entries(rows)
    }

    pub fn get(&self, id: u32) -> (r: Option<&GarrSiteLevelEntry>)
        ensures
            r == (if self@.contains_key(id) {
                Some(&self@[id])
            } else {
                None
            }),
    {
        self.entries.get(&id)
    }

    pub fn len(&self) -> (n: usize)
        ensures
            n == self@.len(),
    {
        self.entries.len()
    }

    pub fn is_empty(&self) -> (b: bool)
        ensures
            b == self@.is_empty(),
    {
        self.entries.is_empty()
    }
}

/// Store of GarrSiteLevelPlotInst rows indexed by id.
pub struct GarrSiteLevelPlotInstStore {
    entries: HashMap<u32, GarrSiteLevelPlotInstEntry>,
}

impl View for GarrSiteLevelPlotInstStore {
    type V = Map<u32, GarrSiteLevelPlotInstEntry>;

    closed spec fn view(&self) -> Map<u32, GarrSiteLevelPlotInstEntry> {
        self.entries@
    }
}

impl GarrSiteLevelPlotInstStore {
    /// Builds the store; a later row replaces an earlier one with the same id.
    pub fn from_entries(entries: Vec<GarrSiteLevelPlotInstEntry>) -> (s: Self)
        ensures
            s@ == index_by_key(entries@),
    {
        GarrSiteLevelPlotInstStore { entries: build_index(entries) }
    }

    /// Builds the store from the rows of the GarrSiteLevelPlotInst table, in file order.
    pub fn load(rows: Vec<GarrSiteLevelPlotInstEntry>) -> (s: Self)
        ensures
            s@ == index_by_key(rows@),
    {
        Self::from_entries(rows)
    }

    pub fn get(&self, id: u32) -> (r: Option<&GarrSiteLevelPlotInstEntry>)
        ensures
            r == (if self@.contains_key(id) {
                Some(&self@[id])
            } else {
                None
            }),
    {
        self.entries.get(&id)
    }

    pub fn len(&self) -> (n: usize)
        ensures
            n == self@.len(),
    {
        self.entries.len()
    }

    pub fn is_empty(&self) -> (b: bool)
        ensures
            b == self@.is_empty(),
    {
        self.entries.is_empty()
    }
}

/// Store of GarrTalentTree rows indexed by id.
pub struct GarrTalentTreeStore {
    entries: HashMap<u32, GarrTalentTreeEntry>,
}

impl View for GarrTalentTreeStore {
    type V = Map<u32, GarrTalentTreeEntry>;

    closed spec fn view(&self) -> Map<u32, GarrTalentTreeEntry> {
        self.entries@
    }
}

impl GarrTalentTreeStore {
    /// Builds the store; a later row replaces an earlier one with the same id.
    pub fn from_entries(entries: Vec<GarrTalentTreeEntry>) -> (s: Self)
        ensures
            s@ == index_by_key(entries@),
    {
        GarrTalentTreeStore { entries: build_index(entries) }
    }

    /// Builds the store from the rows of the GarrTalentTree table, in file order.
    pub fn load(rows: Vec<GarrTalentTreeEntry>) -> (s: Self)
        ensures
            s@ == index_by_key(rows@),
    {
        Self::from_entries(rows)
    }

    pub fn get(&self, id: u32) -> (r: Option<&GarrTalentTreeEntry>)
        ensures
            r == (if self@.contains_key(id) {
                Some(&self@[id])
            } else {
                None
            }),
    {
        self.entries.get(&id)
    }

    pub fn len(&self) -> (n: usize)
        ensures
            n == self@.len(),
    {
        self.entries.len()
    }

    pub fn is_empty(&self) -> (b: bool)
        ensures
            b == self@.is_empty(),
    {
        self.entries.is_empty()
    }
}

/// Store of GemProperties rows indexed by id.
pub struct GemPropertiesStore {
    entries: HashMap<u32, GemPropertiesEntry>,
}

impl View for GemPropertiesStore {
    type V = Map<u32, GemPropertiesEntry>;

    closed spec fn view(&self) -> Map<u32, GemPropertiesEntry> {
        self.entries@
    }
}

impl GemPropertiesStore {
    /// Builds the store; a later row replaces an earlier one with the same id.
    pub fn from_entries(entries: Vec<GemPropertiesEntry>) -> (s: Self)
        ensures
            s@ == index_by_key(entries@),
    {
        GemPropertiesStore { entries: build_index(entries) }
    }

    /// Builds the store from the rows of the GemProperties table, in file order.
    pub fn load(rows: Vec<GemPropertiesEntry>) -> (s: Self)
        ensures
            s@ == index_by_key(rows@),
    {
        Self::from_entries(rows)
    }

    pub fn get(&self, id: u32) -> (r: Option<&GemPropertiesEntry>)
        ensures
            r == (if self@.contains_key(id) {
                Some(&self@[id])
            } else {
                None
            }),
    {
        self.entries.get(&id)
    }

    pub fn len(&self) -> (n: usize)
        ensures
            n == self@.len(),
    {
        self.entries.len()
    }

    pub fn is_empty(&self) -> (b: bool)
        ensures
            b == self@.is_empty(),
    {
        self.entries.is_empty()
    }
}

/// Store of GossipNpcOption rows indexed by id.
pub struct GossipNpcOptionStore {
    entries: HashMap<u32, GossipNpcOptionEntry>,
}

impl View for GossipNpcOptionStore {
    type V = Map<u32, GossipNpcOptionEntry>;

    closed spec fn view(&self) -> Map<u32, GossipNpcOptionEntry> {
        self.entries@
    }
}

impl GossipNpcOptionStore {
    /// Builds the store; a later row replaces an earlier one with the same id.
    pub fn from_entries(entries: Vec<GossipNpcOptionEntry>) -> (s: Self)
        ensures
            s@ == index_by_key(entries@),
    {
        GossipNpcOptionStore { entries: build_index(entries) }
    }

    /// Builds the store from the rows of the GossipNpcOption table, in file order.
    pub fn load(rows: Vec<GossipNpcOptionEntry>) -> (s: Self)
        ensures
            s@ == index_by_key(rows@),
    {
        Self::from_entries(rows)
    }

    pub fn get(&self, id: u32) -> (r: Option<&GossipNpcOptionEntry>)
        ensures
            r == (if self@.contains_key(id) {
                Some(&self@[id])
            } else {
                None
            }),
    {
        self.entries.get(&id)
    }

    pub fn len(&self) -> (n: usize)
        ensures
            n == self@.len(),
    {
        self.entries.len()
    }

    pub fn is_empty(&self) -> (b: bool)
        ensures
            b == self@.is_empty(),
    {
        self.entries.is_empty()
    }
}

/// Store of GuildColorBackground rows indexed by id.
pub struct GuildColorBackgroundStore {
    entries: HashMap<u32, GuildColorEntry>,
}

impl View for GuildColorBackgroundStore {
    type V = Map<u32, GuildColorEntry>;

    closed spec fn view(&self) -> Map<u32, GuildColorEntry> {
        self.entries@
    }
}

impl GuildColorBackgroundStore {
    /// Builds the store; a later row replaces an earlier one with the same id.
    pub fn from_entries(entries: Vec<GuildColorEntry>) -> (s: Self)
        ensures
            s@ == index_by_key(entries@),
    {
        GuildColorBackgroundStore { entries: build_index(entries) }
    }

    /// Builds the store from the rows of the GuildColorBackground table, in file order.
    pub fn load(rows: Vec<GuildColorEntry>) -> (s: Self)
        ensures
            s@ == index_by_key(rows@),
    {
        Self::from_entries(rows)
    }

    pub fn get(&self, id: u32) -> (r: Option<&GuildColorEntry>)
        ensures
            r == (if self@.contains_key(id) {
                Some(&self@[id])
            } else {
                None
            }),
    {
        self.entries.get(&id)
    }

    pub fn len(&self) -> (n: usize)
        ensures
            n == self@.len(),
    {
        self.entries.len()
    }

    pub fn is_empty(&self) -> (b: bool)
        ensures
            b == self@.is_empty(),
    {
        self.entries.is_empty()
    }
}

/// Store of GuildColorBorder rows indexed by id.
pub struct GuildColorBorderStore {
    entries: HashMap<u32, GuildColorEntry>,
}

impl View for GuildColorBorderStore {
    type V = Map<u32, GuildColorEntry>;

    closed spec fn view(&self) -> Map<u32, GuildColorEntry> {
        self.entries@
    }
}

impl GuildColorBorderStore {
    /// Builds the store; a later row replaces an earlier one with the same id.
    pub fn from_entries(entries: Vec<GuildColorEntry>) -> (s: Self)
        ensures
            s@ == index_by_key(entries@),
    {
        GuildColorBorderStore { entries: build_index(entries) }
    }

    /// Builds the store from the rows of the GuildColorBorder table, in file order.
    pub fn load(rows: Vec<GuildColorEntry>) -> (s: Self)
        ensures
            s@ == index_by_key(rows@),
    {
        Self::from_entries(rows)
    }

    pub fn get(&self, id: u32) -> (r: Option<&GuildColorEntry>)
        ensures
            r == (if self@.contains_key(id) {
                Some(&self@[id])
            } else {
                None
            }),
    {
        self.entries.get(&id)
    }

    pub fn len(&self) -> (n: usize)
        ensures
            n == self@.len(),
    {
        self.entries.len()
    }

    pub fn is_empty(&self) -> (b: bool)
        ensures
            b == self@.is_empty(),
    {
        self.entries.is_empty()
    }
}

/// Store of GuildColorEmblem rows indexed by id.
pub struct GuildColorEmblemStore {
    entries: HashMap<u32, GuildColorEntry>,
}

impl View for GuildColorEmblemStore {
    type V = Map<u32, GuildColorEntry>;

    closed spec fn view(&self) -> Map<u32, GuildColorEntry> {
        self.entries@
    }
}

impl GuildColorEmblemStore {
    /// Builds the store; a later row replaces an earlier one with the same id.
    pub fn from_entries(entries: Vec<GuildColorEntry>) -> (s: Self)
        ensures
            s@ == index_by_key(entries@),
    {
        GuildColorEmblemStore { entries: build_index(entries) }
    }

    /// Builds the store from the rows of the GuildColorEmblem table, in file order.
    pub fn load(rows: Vec<GuildColorEntry>) -> (s: Self)
        ensures
            s@ == index_by_key(rows@),
    {
        Self::from_entries(rows)
    }

    pub fn get(&self, id: u32) -> (r: Option<&GuildColorEntry>)
        ensures
            r == (if self@.contains_key(id) {
                Some(&self@[id])
            } else {
                None
            }),
    {
        self.entries.get(&id)
    }

    pub fn len(&self) -> (n: usize)
        ensures
            n == self@.len(),
    {
        self.entries.len()
    }

    pub fn is_empty(&self) -> (b: bool)
        ensures
            b == self@.is_empty(),
    {
        self.entries.is_empty()
    }
}

/// Store of GuildPerkSpells rows indexed by id.
pub struct GuildPerkSpellsStore {
    entries: HashMap<u32, GuildPerkSpellsEntry>,
}

impl View for GuildPerkSpellsStore {
    type V = Map<u32, GuildPerkSpellsEntry>;

    closed spec fn view(&self) -> Map<u32, GuildPerkSpellsEntry> {
        self.entries@
    }
}

impl GuildPerkSpellsStore {
    /// Builds the store; a later row replaces an earlier one with the same id.
    pub fn from_entries(entries: Vec<GuildPerkSpellsEntry>) -> (s: Self)
        ensures
            s@ == index_by_key(entries@),
    {
        GuildPerkSpellsStore { entries: build_index(entries) }
    }

    /// Builds the store from the rows of the GuildPerkSpells table, in file order.
    pub fn load(rows: Vec<GuildPerkSpellsEntry>) -> (s: Self)
        ensures
            s@ == index_by_key(rows@),
    {
        Self::from_entries(rows)
    }

    pub fn get(&self, id: u32) -> (r: Option<&GuildPerkSpellsEntry>)
        ensures
            r == (if self@.contains_key(id) {
                Some(&self@[id])
            } else {
                None
            }),
    {
        self.entries.get(&id)
    }

    pub fn len(&self) -> (n: usize)
        ensures
            n == self@.len(),
    {
        self.entries.len()
    }

    pub fn is_empty(&self) -> (b: bool)
        ensures
            b == self@.is_empty(),
    {
        self.entries.is_empty()
    }
}

/// Store of Holidays rows indexed by id.
pub struct HolidaysStore {
    entries: HashMap<u32, HolidaysEntry>,
}

impl View for HolidaysStore {
    type V = Map<u32, HolidaysEntry>;

    closed spec fn view(&self) -> Map<u32, HolidaysEntry> {
        self.entries@
    }
}

impl HolidaysStore {
    /// Builds the store; a later row replaces an earlier one with the same id.
    pub fn from_entries(entries: Vec<HolidaysEntry>) -> (s: Self)
        ensures
            s@ == index_by_key(entries@),
    {
        HolidaysStore { entries: build_index(entries) }
    }

    /// Builds the store from the rows of the Holidays table, in file order.
    pub fn load(rows: Vec<HolidaysEntry>) -> (s: Self)
        ensures
            s@ == index_by_key(rows@),
    {
        Self::from_entries(rows)
    }

    pub fn get(&self, id: u32) -> (r: Option<&HolidaysEntry>)
        ensures
            r == (if self@.contains_key(id) {
                Some(&self@[id])
            } else {
                None
            }),
    {
        self.entries.get(&id)
    }

    pub fn len(&self) -> (n: usize)
        ensures
            n == self@.len(),
    {
        self.entries.len()
    }

    pub fn is_empty(&self) -> (b: bool)
        ensures
            b == self@.is_empty(),
    {
        self.entries.is_empty()
    }
}

/// Store of Keychain rows indexed by id.
pub struct KeychainStore {
    entries: HashMap<u32, KeychainEntry>,
}

impl View for KeychainStore {
    type V = Map<u32, KeychainEntry>;

    closed spec fn view(&self) -> Map<u32, KeychainEntry> {
        self.entries@
    }
}

impl KeychainStore {
    /// Builds the store; a later row replaces an earlier one with the same id.
    pub fn from_entries(entries: Vec<KeychainEntry>) -> (s: Self)
        ensures
            s@ == index_by_key(entries@),
    {
        KeychainStore { entries: build_index(entries) }
    }

    /// Builds the store from the rows of the Keychain table, in file order.
    pub fn load(rows: Vec<KeychainEntry>) -> (s: Self)
        ensures
            s@ == index_by_key(rows@),
    {
        Self::from_entries(rows)
    }

    pub fn get(&self, id: u32) -> (r: Option<&KeychainEntry>)
        ensures
            r == (if self@.contains_key(id) {
                Some(&self@[id])
            } else {
                None
            }),
    {
        self.entries.get(&id)
    }

    pub fn len(&self) -> (n: usize)
        ensures
            n == self@.len(),
    {
        self.entries.len()
    }

    pub fn is_empty(&self) -> (b: bool)
        ensures
            b == self@.is_empty(),
    {
        self.entries.is_empty()
    }
}

/// Store of KeystoneAffix rows indexed by id.
pub struct KeystoneAffixStore {
    entries: HashMap<u32, KeystoneAffixEntry>,
}

impl View for KeystoneAffixStore {
    type V = Map<u32, KeystoneAffixEntry>;

    closed spec fn view(&self) -> Map<u32, KeystoneAffixEntry> {
        self.entries@
    }
}

impl KeystoneAffixStore {
    /// Builds the store; a later row replaces an earlier one with the same id.
    pub fn from_entries(entries: Vec<KeystoneAffixEntry>) -> (s: Self)
        ensures
            s@ == index_by_key(entries@),
    {
        KeystoneAffixStore { entries: build_index(entries) }
    }

    /// Builds the store from the rows of the KeystoneAffix table, in file order.
    pub fn load(rows: Vec<KeystoneAffixEntry>) -> (s: Self)
        ensures
            s@ == index_by_key(rows@),
    {
        Self::from_entries(rows)
    }

    pub fn get(&self, id: u32) -> (r: Option<&KeystoneAffixEntry>)
        ensures
            r == (if self@.contains_key(id) {
                Some(&self@[id])
            } else {
                None
            }),
    {
        self.entries.get(&id)
    }

    pub fn len(&self) -> (n: usize)
        ensures
            n == self@.len(),
    {
        self.entries.len()
    }

    pub fn is_empty(&self) -> (b: bool)
        ensures
            b == self@.is_empty(),
    {
        self.entries.is_empty()
    }
}

/// Store of LfgDungeons rows indexed by id.
pub struct LfgDungeonsStore {
    entries: HashMap<u32, LfgDungeonsEntry>,
}

impl View for LfgDungeonsStore {
    type V = Map<u32, LfgDungeonsEntry>;

    closed spec fn view(&self) -> Map<u32, LfgDungeonsEntry> {
        self.entries@
    }
}

impl LfgDungeonsStore {
    /// Builds the store; a later row replaces an earlier one with the same id.
    pub fn from_entries(entries: Vec<LfgDungeonsEntry>) -> (s: Self)
        ensures
            s@ == index_by_key(entries@),
    {
        LfgDungeonsStore { entries: build_index(entries) }
    }

    /// Builds the store from the rows of the LfgDungeons table, in file order.
    pub fn load(rows: Vec<LfgDungeonsEntry>) -> (s: Self)
        ensures
            s@ == index_by_key(rows@),
    {
        Self::from_entries(rows)
    }

    pub fn get(&self, id: u32) -> (r: Option<&LfgDungeonsEntry>)
        ensures
            r == (if self@.contains_key(id) {
                Some(&self@[id])
            } else {
                None
            }),
    {
        self.entries.get(&id)
    }

    pub fn len(&self) -> (n: usize)
        ensures
            n == self@.len(),
    {
        self.entries.len()
    }

    pub fn is_empty(&self) -> (b: bool)
        ensures
            b == self@.is_empty(),
    {
        self.entries.is_empty()
    }
}

/// Store of LanguageWords rows indexed by id.
pub struct LanguageWordsStore {
    entries: HashMap<u32, LanguageWordsEntry>,
}

impl View for LanguageWordsStore {
    type V = Map<u32, LanguageWordsEntry>;

    closed spec fn view(&self) -> Map<u32, LanguageWordsEntry> {
        self.entries@
    }
}

impl LanguageWordsStore {
    /// Builds the store; a later row replaces an earlier one with the same id.
    pub fn from_entries(entries: Vec<LanguageWordsEntry>) -> (s: Self)
        ensures
            s@ == index_by_key(entries@),
    {
        LanguageWordsStore { entries: build_index(entries) }
    }

    /// Builds the store from the rows of the LanguageWords table, in file order.
    pub fn load(rows: Vec<LanguageWordsEntry>) -> (s: Self)
        ensures
            s@ == index_by_key(rows@),
    {
        Self::from_entries(rows)
    }

    pub fn get(&self, id: u32) -> (r: Option<&LanguageWordsEntry>)
        ensures
            r == (if self@.contains_key(id) {
                Some(&self@[id])
            } else {
                None
            }),
    {
        self.entries.get(&id)
    }

    pub fn len(&self) -> (n: usize)
        ensures
            n == self@.len(),
    {
        self.entries.len()
    }

    pub fn is_empty(&self) -> (b: bool)
        ensures
            b == self@.is_empty(),
    {
        self.entries.is_empty()
    }
}

/// Store of Languages rows indexed by id.
pub struct LanguagesStore {
    entries: HashMap<u32, LanguagesEntry>,
}

impl View for LanguagesStore {
    type V = Map<u32, LanguagesEntry>;

    closed spec fn view(&self) -> Map<u32, LanguagesEntry> {
        self.entries@
    }
}

impl LanguagesStore {
    /// Builds the store; a later row replaces an earlier one with the same id.
    pub fn from_entries(entries: Vec<LanguagesEntry>) -> (s: Self)
        ensures
            s@ == index_by_key(entries@),
    {
        LanguagesStore { entries: build_index(entries) }
    }

    /// Builds the store from the rows of the Languages table, in file order.
    pub fn load(rows: Vec<LanguagesEntry>) -> (s: Self)
        ensures
            s@ == index_by_key(rows@),
    {
        Self::from_entries(rows)
    }

    pub fn get(&self, id: u32) -> (r: Option<&LanguagesEntry>)
        ensures
            r == (if self@.contains_key(id) {
                Some(&self@[id])
            } else {
                None
            }),
    {
        self.entries.get(&id)
    }

    pub fn len(&self) -> (n: usize)
        ensures
            n == self@.len(),
    {
        self.entries.len()
    }

    pub fn is_empty(&self) -> (b: bool)
        ensures
            b == self@.is_empty(),
    {
        self.entries.is_empty()
    }
}

/// Store of MailTemplate rows indexed by id.
pub struct MailTemplateStore {
    entries: HashMap<u32, MailTemplateEntry>,
}

impl View for MailTemplateStore {
    type V = Map<u32, MailTemplateEntry>;

    closed spec fn view(&self) -> Map<u32, MailTemplateEntry> {
        self.entries@
    }
}

impl MailTemplateStore {
    /// Builds the store; a later row replaces an earlier one with the same id.
    pub fn from_entries(entries: Vec<MailTemplateEntry>) -> (s: Self)
        ensures
            s@ == index_by_key(entries@),
    {
        MailTemplateStore { entries: build_index(entries) }
    }

    /// Builds the store from the rows of the MailTemplate table, in file order.
    pub fn load(rows: Vec<MailTemplateEntry>) -> (s: Self)
        ensures
            s@ == index_by_key(rows@),
    {
        Self::from_entries(rows)
    }

    pub fn get(&self, id: u32) -> (r: Option<&MailTemplateEntry>)
        ensures
            r == (if self@.contains_key(id) {
                Some(&self@[id])
            } else {
                None
            }),
    {
        self.entries.get(&id)
    }

    pub fn len(&self) -> (n: usize)
        ensures
            n == self@.len(),
    {
        self.entries.len()
    }

    pub fn is_empty(&self) -> (b: bool)
        ensures
            b == self@.is_empty(),
    {
        self.entries.is_empty()
    }
}

/// Store of Movie rows indexed by id.
pub struct MovieStore {
    entries: HashMap<u32, MovieEntry>,
}

impl View for MovieStore {
    type V = Map<u32, MovieEntry>;

    closed spec fn view(&self) -> Map<u32, MovieEntry> {
        self.entries@
    }
}

impl MovieStore {
    /// Builds the store; a later row replaces an earlier one with the same id.
    pub fn from_entries(entries: Vec<MovieEntry>) -> (s: Self)
        ensures
            s@ == index_by_key(entries@),
    {
        MovieStore { entries: build_index(entries) }
    }

    /// Builds the store from the rows of the Movie table, in file order.
    pub fn load(rows: Vec<MovieEntry>) -> (s: Self)
        ensures
            s@ == index_by_key(rows@),
    {
        Self::from_entries(rows)
    }

    pub fn get(&self, id: u32) -> (r: Option<&MovieEntry>)
        ensures
            r == (if self@.contains_key(id) {
                Some(&self@[id])
            } else {
                None
            }),
    {
        self.entries.get(&id)
    }

    pub fn len(&self) -> (n: usize)
        ensures
            n == self@.len(),
    {
        self.entries.len()
    }

    pub fn is_empty(&self) -> (b: bool)
        ensures
            b == self@.is_empty(),
    {
        self.entries.is_empty()
    }
}

/// Store of MythicPlusSeason rows indexed by id.
pub struct MythicPlusSeasonStore {
    entries: HashMap<u32, MythicPlusSeasonEntry>,
}

impl View for MythicPlusSeasonStore {
    type V = Map<u32, MythicPlusSeasonEntry>;

    closed spec fn view(&self) -> Map<u32, MythicPlusSeasonEntry> {
        self.entries@
    }
}

impl MythicPlusSeasonStore {
    /// Builds the store; a later row replaces an earlier one with the same id.
    pub fn from_entries(entries: Vec<MythicPlusSeasonEntry>) -> (s: Self)
        ensures
            s@ == index_by_key(entries@),
    {
        MythicPlusSeasonStore { entries: build_index(entries) }
    }

    /// Builds the store from the rows of the MythicPlusSeason table, in file order.
    pub fn load(rows: Vec<MythicPlusSeasonEntry>) -> (s: Self)
        ensures
            s@ == index_by_key(rows@),
    {
        Self::from_entries(rows)
    }

    pub fn get(&self, id: u32) -> (r: Option<&MythicPlusSeasonEntry>)
        ensures
            r == (if self@.contains_key(id) {
                Some(&self@[id])
            } else {
                None
            }),
    {
        self.entries.get(&id)
    }

    pub fn len(&self) -> (n: usize)
        ensures
            n == self@.len(),
    {
        self.entries.len()
    }

    pub fn is_empty(&self) -> (b: bool)
        ensures
            b == self@.is_empty(),
    {
        self.entries.is_empty()
    }
}

/// Store of NamesProfanity rows indexed by id.
pub struct NamesProfanityStore {
    entries: HashMap<u32, NamesProfanityEntry>,
}

impl View for NamesProfanityStore {
    type V = Map<u32, NamesProfanityEntry>;

    closed spec fn view(&self) -> Map<u32, NamesProfanityEntry> {
        self.entries@
    }
}

impl NamesProfanityStore {
    /// Builds the store; a later row replaces an earlier one with the same id.
    pub fn from_entries(entries: Vec<NamesProfanityEntry>) -> (s: Self)
        ensures
            s@ == index_by_key(entries@),
    {
        NamesProfanityStore { entries: build_index(entries) }
    }

    /// Builds the store from the rows of the NamesProfanity table, in file order.
    pub fn load(rows: Vec<NamesProfanityEntry>) -> (s: Self)
        ensures
            s@ == index_by_key(rows@),
    {
        Self::from_entries(rows)
    }

    pub fn get(&self, id: u32) -> (r: Option<&NamesProfanityEntry>)
        ensures
            r == (if self@.contains_key(id) {
                Some(&self@[id])
            } else {
                None
            }),
    {
        self.entries.get(&id)
    }

    pub fn len(&self) -> (n: usize)
        ensures
            n == self@.len(),
    {
        self.entries.len()
    }

    pub fn is_empty(&self) -> (b: bool)
        ensures
            b == self@.is_empty(),
    {
        self.entries.is_empty()
    }
}

/// Store of NamesReserved rows indexed by id.
pub struct NamesReservedStore {
    entries: HashMap<u32, NamesReservedEntry>,
}

impl View for NamesReservedStore {
    type V = Map<u32, NamesReservedEntry>;

    closed spec fn view(&self) -> Map<u32, NamesReservedEntry> {
        self.entries@
    }
}

impl NamesReservedStore {
    /// Builds the store; a later row replaces an earlier one with the same id.
    pub fn from_entries(entries: Vec<NamesReservedEntry>) -> (s: Self)
        ensures
            s@ == index_by_key(entries@),
    {
        NamesReservedStore { entries: build_index(entries) }
    }

    /// Builds the store from the rows of the NamesReserved table, in file order.
    pub fn load(rows: Vec<NamesReservedEntry>) -> (s: Self)
        ensures
            s@ == index_by_key(rows@),
    {
        Self::from_entries(rows)
    }

    pub fn get(&self, id: u32) -> (r: Option<&NamesReservedEntry>)
        ensures
            r == (if self@.contains_key(id) {
                Some(&self@[id])
            } else {
                None
            }),
    {
        self.entries.get(&id)
    }

    pub fn len(&self) -> (n: usize)
        ensures
            n == self@.len(),
    {
        self.entries.len()
    }

    pub fn is_empty(&self) -> (b: bool)
        ensures
            b == self@.is_empty(),
    {
        self.entries.is_empty()
    }
}

/// Store of NamesReservedLocale rows indexed by id.
pub struct NamesReservedLocaleStore {
    entries: HashMap<u32, NamesReservedLocaleEntry>,
}

impl View for NamesReservedLocaleStore {
    type V = Map<u32, NamesReservedLocaleEntry>;

    closed spec fn view(&self) -> Map<u32, NamesReservedLocaleEntry> {
        self.entries@
    }
}

impl NamesReservedLocaleStore {
    /// Builds the store; a later row replaces an earlier one with the same id.
    pub fn from_entries(entries: Vec<NamesReservedLocaleEntry>) -> (s: Self)
        ensures
            s@ == index_by_key(entries@),
    {
        NamesReservedLocaleStore { entries: build_index(entries) }
    }

    /// Builds the store from the rows of the NamesReservedLocale table, in file order.
    pub fn load(rows: Vec<NamesReservedLocaleEntry>) -> (s: Self)
        ensures
            s@ == index_by_key(rows@),
    {
        Self::from_entries(rows)
    }

    pub fn get(&self, id: u32) -> (r: Option<&NamesReservedLocaleEntry>)
        ensures
            r == (if self@.contains_key(id) {
                Some(&self@[id])
            } else {
                None
            }),
    {
        self.entries.get(&id)
    }

    pub fn len(&self) -> (n: usize)
        ensures
            n == self@.len(),
    {
        self.entries.len()
    }

    pub fn is_empty(&self) -> (b: bool)
        ensures
            b == self@.is_empty(),
    {
        self.entries.is_empty()
    }
}

/// Store of OverrideSpellData rows indexed by id.
pub struct OverrideSpellDataStore {
    entries: HashMap<u32, OverrideSpellDataEntry>,
}

impl View for OverrideSpellDataStore {
    type V = Map<u32, OverrideSpellDataEntry>;

    closed spec fn view(&self) -> Map<u32, OverrideSpellDataEntry> {
        self.entries@
    }
}

impl OverrideSpellDataStore {
    /// Builds the store; a later row replaces an earlier one with the same id.
    pub fn from_entries(entries: Vec<OverrideSpellDataEntry>) -> (s: Self)
        ensures
            s@ == index_by_key(entries@),
    {
        OverrideSpellDataStore { entries: build_index(entries) }
    }

    /// Builds the store from the rows of the OverrideSpellData table, in file order.
    pub fn load(rows: Vec<OverrideSpellDataEntry>) -> (s: Self)
        ensures
            s@ == index_by_key(rows@),
    {
        Self::from_entries(rows)
    }

    pub fn get(&self, id: u32) -> (r: Option<&OverrideSpellDataEntry>)
        ensures
            r == (if self@.contains_key(id) {
                Some(&self@[id])
            } else {
                None
            }),
    {
        self.entries.get(&id)
    }

    pub fn len(&self) -> (n: usize)
        ensures
            n == self@.len(),
    {
        self.entries.len()
    }

    pub fn is_empty(&self) -> (b: bool)
        ensures
            b == self@.is_empty(),
    {
        self.entries.is_empty()
    }
}

/// Store of PvpDifficulty rows indexed by id.
pub struct PvpDifficultyStore {
    entries: HashMap<u32, PvpDifficultyEntry>,
}

impl View for PvpDifficultyStore {
    type V = Map<u32, PvpDifficultyEntry>;

    closed spec fn view(&self) -> Map<u32, PvpDifficultyEntry> {
        self.entries@
    }
}

impl PvpDifficultyStore {
    /// Builds the store; a later row replaces an earlier one with the same id.
    pub fn from_entries(entries: Vec<PvpDifficultyEntry>) -> (s: Self)
        ensures
            s@ == index_by_key(entries@),
    {
        PvpDifficultyStore { entries: build_index(entries) }
    }

    /// Builds the store from the rows of the PvpDifficulty table, in file order.
    pub fn load(rows: Vec<PvpDifficultyEntry>) -> (s: Self)
        ensures
            s@ == index_by_key(rows@),
    {
        Self::from_entries(rows)
    }

    pub fn get(&self, id: u32) -> (r: Option<&PvpDifficultyEntry>)
        ensures
            r == (if self@.contains_key(id) {
                Some(&self@[id])
            } else {
                None
            }),
    {
        self.entries.get(&id)
    }

    pub fn len(&self) -> (n: usize)
        ensures
            n == self@.len(),
    {
        self.entries.len()
    }

    pub fn is_empty(&self) -> (b: bool)
        ensures
            b == self@.is_empty(),
    {
        self.entries.is_empty()
    }
}

/// Store of PvpItem rows indexed by id.
pub struct PvpItemStore {
    entries: HashMap<u32, PvpItemEntry>,
}

impl View for PvpItemStore {
    type V = Map<u32, PvpItemEntry>;

    closed spec fn view(&self) -> Map<u32, PvpItemEntry> {
        self.entries@
    }
}

impl PvpItemStore {
    /// Builds the store; a later row replaces an earlier one with the same id.
    pub fn from_entries(entries: Vec<PvpItemEntry>) -> (s: Self)
        ensures
            s@ == index_by_key(entries@),
    {
        PvpItemStore { entries: build_index(entries) }
    }

    /// Builds the store from the rows of the PvpItem table, in file order.
    pub fn load(rows: Vec<PvpItemEntry>) -> (s: Self)
        ensures
            s@ == index_by_key(rows@),
    {
        Self::from_entries(rows)
    }

    pub fn get(&self, id: u32) -> (r: Option<&PvpItemEntry>)
        ensures
            r == (if self@.contains_key(id) {
                Some(&self@[id])
            } else {
                None
            }),
    {
        self.entries.get(&id)
    }

    pub fn len(&self) -> (n: usize)
        ensures
            n == self@.len(),
    {
        self.entries.len()
    }

    pub fn is_empty(&self) -> (b: bool)
        ensures
            b == self@.is_empty(),
    {
        self.entries.is_empty()
    }
}

/// Store of PrestigeLevelInfo rows indexed by id.
pub struct PrestigeLevelInfoStore {
    entries: HashMap<u32, PrestigeLevelInfoEntry>,
}

impl View for PrestigeLevelInfoStore {
    type V = Map<u32, PrestigeLevelInfoEntry>;

    closed spec fn view(&self) -> Map<u32, PrestigeLevelInfoEntry> {
        self.entries@
    }
}

impl PrestigeLevelInfoStore {
    /// Builds the store; a later row replaces an earlier one with the same id.
    pub fn from_entries(entries: Vec<PrestigeLevelInfoEntry>) -> (s: Self)
        ensures
            s@ == index_by_key(entries@),
    {
        PrestigeLevelInfoStore { entries: build_index(entries) }
    }

    /// Builds the store from the rows of the PrestigeLevelInfo table, in file order.
    pub fn load(rows: Vec<PrestigeLevelInfoEntry>) -> (s: Self)
        ensures
            s@ == index_by_key(rows@),
    {
        Self::from_entries(rows)
    }

    pub fn get(&self, id: u32) -> (r: Option<&PrestigeLevelInfoEntry>)
        ensures
            r == (if self@.contains_key(id) {
                Some(&self@[id])
            } else {
                None
            }),
    {
        self.entries.get(&id)
    }

    pub fn len(&self) -> (n: usize)
        ensures
            n == self@.len(),
    {
        self.entries.len()
    }

    pub fn is_empty(&self) -> (b: bool)
        ensures
            b == self@.is_empty(),
    {
        self.entries.is_empty()
    }
}

/// Store of Scenario rows indexed by id.
pub struct ScenarioStore {
    entries: HashMap<u32, ScenarioEntry>,
}

impl View for ScenarioStore {
    type V = Map<u32, ScenarioEntry>;

    closed spec fn view(&self) -> Map<u32, ScenarioEntry> {
        self.entries@
    }
}

impl ScenarioStore {
    /// Builds the store; a later row replaces an earlier one with the same id.
    pub fn from_entries(entries: Vec<ScenarioEntry>) -> (s: Self)
        ensures
            s@ == index_by_key(entries@),
    {
        ScenarioStore { entries: build_index(entries) }
    }

    /// Builds the store from the rows of the Scenario table, in file order.
    pub fn load(rows: Vec<ScenarioEntry>) -> (s: Self)
        ensures
            s@ == index_by_key(rows@),
    {
        Self::from_entries(rows)
    }

    pub fn get(&self, id: u32) -> (r: Option<&ScenarioEntry>)
        ensures
            r == (if self@.contains_key(id) {
                Some(&self@[id])
            } else {
                None
            }),
    {
        self.entries.get(&id)
    }

    pub fn len(&self) -> (n: usize)
        ensures
            n == self@.len(),
    {
        self.entries.len()
    }

    pub fn is_empty(&self) -> (b: bool)
        ensures
            b == self@.is_empty(),
    {
        self.entries.is_empty()
    }
}

/// Store of SceneScript rows indexed by id.
pub struct SceneScriptStore {
    entries: HashMap<u32, SceneScriptEntry>,
}

impl View for SceneScriptStore {
    type V = Map<u32, SceneScriptEntry>;

    closed spec fn view(&self) -> Map<u32, SceneScriptEntry> {
        self.entries@
    }
}

impl SceneScriptStore {
    /// Builds the store; a later row replaces an earlier one with the same id.
    pub fn from_entries(entries: Vec<SceneScriptEntry>) -> (s: Self)
        ensures
            s@ == index_by_key(entries@),
    {
        SceneScriptStore { entries: build_index(entries) }
    }

    /// Builds the store from the rows of the SceneScript table, in file order.
    pub fn load(rows: Vec<SceneScriptEntry>) -> (s: Self)
        ensures
            s@ == index_by_key(rows@),
    {
        Self::from_entries(rows)
    }

    pub fn get(&self, id: u32) -> (r: Option<&SceneScriptEntry>)
        ensures
            r == (if self@.contains_key(id) {
                Some(&self@[id])
            } else {
                None
            }),
    {
        self.entries.get(&id)
    }

    pub fn len(&self) -> (n: usize)
        ensures
            n == self@.len(),
    {
        self.entries.len()
    }

    pub fn is_empty(&self) -> (b: bool)
        ensures
            b == self@.is_empty(),
    {
        self.entries.is_empty()
    }
}

/// Store of SceneScriptGlobalText rows indexed by id.
pub struct SceneScriptGlobalTextStore {
    entries: HashMap<u32, SceneScriptTextEntry>,
}

impl View for SceneScriptGlobalTextStore {
    type V = Map<u32, SceneScriptTextEntry>;

    closed spec fn view(&self) -> Map<u32, SceneScriptTextEntry> {
        self.entries@
    }
}

impl SceneScriptGlobalTextStore {
    /// Builds the store; a later row replaces an earlier one with the same id.
    pub fn from_entries(entries: Vec<SceneScriptTextEntry>) -> (s: Self)
        ensures
            s@ == index_by_key(entries@),
    {
        SceneScriptGlobalTextStore { entries: build_index(entries) }
    }

    /// Builds the store from the rows of the SceneScriptGlobalText table, in file order.
    pub fn load(rows: Vec<SceneScriptTextEntry>) -> (s: Self)
        ensures
            s@ == index_by_key(rows@),
    {
        Self::from_entries(rows)
    }

    pub fn get(&self, id: u32) -> (r: Option<&SceneScriptTextEntry>)
        ensures
            r == (if self@.contains_key(id) {
                Some(&self@[id])
            } else {
                None
            }),
    {
        self.entries.get(&id)
    }

    pub fn len(&self) -> (n: usize)
        ensures
            n == self@.len(),
    {
        self.entries.len()
    }

    pub fn is_empty(&self) -> (b: bool)
        ensures
            b == self@.is_empty(),
    {
        self.entries.is_empty()
    }
}

/// Store of SceneScriptText rows indexed by id.
pub struct SceneScriptTextStore {
    entries: HashMap<u32, SceneScriptTextEntry>,
}

impl View for SceneScriptTextStore {
    type V = Map<u32, SceneScriptTextEntry>;

    closed spec fn view(&self) -> Map<u32, SceneScriptTextEntry> {
        self.entries@
    }
}

impl SceneScriptTextStore {
    /// Builds the store; a later row replaces an earlier one with the same id.
    pub fn from_entries(entries: Vec<SceneScriptTextEntry>) -> (s: Self)
        ensures
            s@ == index_by_key(entries@),
    {
        SceneScriptTextStore { entries: build_index(entries) }
    }

    /// Builds the store from the rows of the SceneScriptText table, in file order.
    pub fn load(rows: Vec<SceneScriptTextEntry>) -> (s: Self)
        ensures
            s@ == index_by_key(rows@),
    {
        Self::from_entries(rows)
    }

    pub fn get(&self, id: u32) -> (r: Option<&SceneScriptTextEntry>)
        ensures
            r == (if self@.contains_key(id) {
                Some(&self@[id])
            } else {
                None
            }),
    {
        self.entries.get(&id)
    }

    pub fn len(&self) -> (n: usize)
        ensures
            n == self@.len(),
    {
        self.entries.len()
    }

    pub fn is_empty(&self) -> (b: bool)
        ensures
            b == self@.is_empty(),
    {
        self.entries.is_empty()
    }
}

/// Store of ServerMessages rows indexed by id.
pub struct ServerMessagesStore {
    entries: HashMap<u32, ServerMessagesEntry>,
}

impl View for ServerMessagesStore {
    type V = Map<u32, ServerMessagesEntry>;

    closed spec fn view(&self) -> Map<u32, ServerMessagesEntry> {
        self.entries@
    }
}

impl ServerMessagesStore {
    /// Builds the store; a later row replaces an earlier one with the same id.
    pub fn from_entries(entries: Vec<ServerMessagesEntry>) -> (s: Self)
        ensures
            s@ == index_by_key(entries@),
    {
        ServerMessagesStore { entries: build_index(entries) }
    }

    /// Builds the store from the rows of the ServerMessages table, in file order.
    pub fn load(rows: Vec<ServerMessagesEntry>) -> (s: Self)
        ensures
            s@ == index_by_key(rows@),
    {
        Self::from_entries(rows)
    }

    pub fn get(&self, id: u32) -> (r: Option<&ServerMessagesEntry>)
        ensures
            r == (if self@.contains_key(id) {
                Some(&self@[id])
            } else {
                None
            }),
    {
        self.entries.get(&id)
    }

    pub fn len(&self) -> (n: usize)
        ensures
            n == self@.len(),
    {
        self.entries.len()
    }

    pub fn is_empty(&self) -> (b: bool)
        ensures
            b == self@.is_empty(),
    {
        self.entries.is_empty()
    }
}

/// Store of SoundKit rows indexed by id.
pub struct SoundKitStore {
    entries: HashMap<u32, SoundKitEntry>,
}

impl View for SoundKitStore {
    type V = Map<u32, SoundKitEntry>;

    closed spec fn view(&self) -> Map<u32, SoundKitEntry> {
        self.entries@
    }
}

impl SoundKitStore {
    /// Builds the store; a later row replaces an earlier one with the same id.
    pub fn from_entries(entries: Vec<SoundKitEntry>) -> (s: Self)
        ensures
            s@ == index_by_key(entries@),
    {
        SoundKitStore { entries: build_index(entries) }
    }

    /// Builds the store from the rows of the SoundKit table, in file order.
    pub fn load(rows: Vec<SoundKitEntry>) -> (s: Self)
        ensures
            s@ == index_by_key(rows@),
    {
        Self::from_entries(rows)
    }

    pub fn get(&self, id: u32) -> (r: Option<&SoundKitEntry>)
        ensures
            r == (if self@.contains_key(id) {
                Some(&self@[id])
            } else {
                None
            }),
    {
        self.entries.get(&id)
    }

    pub fn len(&self) -> (n: usize)
        ensures
            n == self@.len(),
    {
        self.entries.len()
    }

    pub fn is_empty(&self) -> (b: bool)
        ensures
            b == self@.is_empty(),
    {
        self.entries.is_empty()
    }
}

/// Store of SpecSetMember rows indexed by id.
pub struct SpecSetMemberStore {
    entries: HashMap<u32, SpecSetMemberEntry>,
}

impl View for SpecSetMemberStore {
    type V = Map<u32, SpecSetMemberEntry>;

    closed spec fn view(&self) -> Map<u32, SpecSetMemberEntry> {
        self.entries@
    }
}

impl SpecSetMemberStore {
    /// Builds the store; a later row replaces an earlier one with the same id.
    pub fn from_entries(entries: Vec<SpecSetMemberEntry>) -> (s: Self)
        ensures
            s@ == index_by_key(entries@),
    {
        SpecSetMemberStore { entries: build_index(entries) }
    }

    /// Builds the store from the rows of the SpecSetMember table, in file order.
    pub fn load(rows: Vec<SpecSetMemberEntry>) -> (s: Self)
        ensures
            s@ == index_by_key(rows@),
    {
        Self::from_entries(rows)
    }

    pub fn get(&self, id: u32) -> (r: Option<&SpecSetMemberEntry>)
        ensures
            r == (if self@.contains_key(id) {
                Some(&self@[id])
            } else {
                None
            }),
    {
        self.entries.get(&id)
    }

    pub fn len(&self) -> (n: usize)
        ensures
            n == self@.len(),
    {
        self.entries.len()
    }

    pub fn is_empty(&self) -> (b: bool)
        ensures
            b == self@.is_empty(),
    {
        self.entries.is_empty()
    }
}

/// Store of SpecializationSpells rows indexed by id.
pub struct SpecializationSpellsStore {
    entries: HashMap<u32, SpecializationSpellsEntry>,
}

impl View for SpecializationSpellsStore {
    type V = Map<u32, SpecializationSpellsEntry>;

    closed spec fn view(&self) -> Map<u32, SpecializationSpellsEntry> {
        self.entries@
    }
}

impl SpecializationSpellsStore {
    /// Builds the store; a later row replaces an earlier one with the same id.
    pub fn from_entries(entries: Vec<SpecializationSpellsEntry>) -> (s: Self)
        ensures
            s@ == index_by_key(entries@),
    {
        SpecializationSpellsStore { entries: build_index(entries) }
    }

    /// Builds the store from the rows of the SpecializationSpells table, in file order.
    pub fn load(rows: Vec<SpecializationSpellsEntry>) -> (s: Self)
        ensures
            s@ == index_by_key(rows@),
    {
        Self::from_entries(rows)
    }

    pub fn get(&self, id: u32) -> (r: Option<&SpecializationSpellsEntry>)
        ensures
            r == (if self@.contains_key(id) {
                Some(&self@[id])
            } else {
                None
            }),
    {
        self.entries.get(&id)
    }

    pub fn len(&self) -> (n: usize)
        ensures
            n == self@.len(),
    {
        self.entries.len()
    }

    pub fn is_empty(&self) -> (b: bool)
        ensures
            b == self@.is_empty(),
    {
        self.entries.is_empty()
    }
}

/// Store of SummonProperties rows indexed by id.
pub struct SummonPropertiesStore {
    entries: HashMap<u32, SummonPropertiesEntry>,
}

impl View for SummonPropertiesStore {
    type V = Map<u32, SummonPropertiesEntry>;

    closed spec fn view(&self) -> Map<u32, SummonPropertiesEntry> {
        self.entries@
    }
}

impl SummonPropertiesStore {
    /// Builds the store; a later row replaces an earlier one with the same id.
    pub fn from_entries(entries: Vec<SummonPropertiesEntry>) -> (s: Self)
        ensures
            s@ == index_by_key(entries@),
    {
        SummonPropertiesStore { entries: build_index(entries) }
    }

    /// Builds the store from the rows of the SummonProperties table, in file order.
    pub fn load(rows: Vec<SummonPropertiesEntry>) -> (s: Self)
        ensures
            s@ == index_by_key(rows@),
    {
        Self::from_entries(rows)
    }

    pub fn get(&self, id: u32) -> (r: Option<&SummonPropertiesEntry>)
        ensures
            r == (if self@.contains_key(id) {
                Some(&self@[id])
            } else {
                None
            }),
    {
        self.entries.get(&id)
    }

    pub fn len(&self) -> (n: usize)
        ensures
            n == self@.len(),
    {
        self.entries.len()
    }

    pub fn is_empty(&self) -> (b: bool)
        ensures
            b == self@.is_empty(),
    {
        self.entries.is_empty()
    }
}

/// Store of TactKey rows indexed by id.
pub struct TactKeyStore {
    entries: HashMap<u32, TactKeyEntry>,
}

impl View for TactKeyStore {
    type V = Map<u32, TactKeyEntry>;

    closed spec fn view(&self) -> Map<u32, TactKeyEntry> {
        self.entries@
    }
}

impl TactKeyStore {
    /// Builds the store; a later row replaces an earlier one with the same id.
    pub fn from_entries(entries: Vec<TactKeyEntry>) -> (s: Self)
        ensures
            s@ == index_by_key(entries@),
    {
        TactKeyStore { entries: build_index(entries) }
    }

    /// Builds the store from the rows of the TactKey table, in file order.
    pub fn load(rows: Vec<TactKeyEntry>) -> (s: Self)
        ensures
            s@ == index_by_key(rows@),
    {
        Self::from_entries(rows)
    }

    pub fn get(&self, id: u32) -> (r: Option<&TactKeyEntry>)
        ensures
            r == (if self@.contains_key(id) {
                Some(&self@[id])
            } else {
                None
            }),
    {
        self.entries.get(&id)
    }

    pub fn len(&self) -> (n: usize)
        ensures
            n == self@.len(),
    {
        self.entries.len()
    }

    pub fn is_empty(&self) -> (b: bool)
        ensures
            b == self@.is_empty(),
    {
        self.entries.is_empty()
    }
}

/// Store of TotemCategory rows indexed by id.
pub struct TotemCategoryStore {
    entries: HashMap<u32, TotemCategoryEntry>,
}

impl View for TotemCategoryStore {
    type V = Map<u32, TotemCategoryEntry>;

    closed spec fn view(&self) -> Map<u32, TotemCategoryEntry> {
        self.entries@
    }
}

impl TotemCategoryStore {
    /// Builds the store; a later row replaces an earlier one with the same id.
    pub fn from_entries(entries: Vec<TotemCategoryEntry>) -> (s: Self)
        ensures
            s@ == index_by_key(entries@),
    {
        TotemCategoryStore { entries: build_index(entries) }
    }

    /// Builds the store from the rows of the TotemCategory table, in file order.
    pub fn load(rows: Vec<TotemCategoryEntry>) -> (s: Self)
        ensures
            s@ == index_by_key(rows@),
    {
        Self::from_entries(rows)
    }

    pub fn get(&self, id: u32) -> (r: Option<&TotemCategoryEntry>)
        ensures
            r == (if self@.contains_key(id) {
                Some(&self@[id])
            } else {
                None
            }),
    {
        self.entries.get(&id)
    }

    pub fn len(&self) -> (n: usize)
        ensures
            n == self@.len(),
    {
        self.entries.len()
    }

    pub fn is_empty(&self) -> (b: bool)
        ensures
            b == self@.is_empty(),
    {
        self.entries.is_empty()
    }
}

impl LfgDungeonsStore {
    /// A dungeon of the given map and difficulty, if there is one; when
    /// several match, any one of them.
    pub fn get_by_map_and_difficulty_like_cpp(&self, map_id: u32, difficulty_id: u8) -> (r: Option<
        &LfgDungeonsEntry,
    >)
        ensures
            r matches Some(e) ==> (exists|k: u32| #[trigger] self@.contains_key(k) && *e == self@[k])
                && lfg_dungeon_matches(*e, map_id, difficulty_id),
            r is None ==> forall|k: u32| #[trigger] self@.contains_key(k) ==> !lfg_dungeon_matches(
                self@[k],
                map_id,
                difficulty_id,
            ),
    {
        let ghost pairs = vstd::std_specs::hash::spec_hash_map_iter(&self.entries).remaining();
        for pair in it: self.entries.iter()
            invariant
                it.seq() == pairs,
                forall|j: int| #![trigger pairs[j]] 0 <= j < it.index() ==> !lfg_dungeon_matches(
                    *pairs[j].1,
                    map_id,
                    difficulty_id,
                ),
        {
            let (_k, e) = pair;
            if e.map_id == map_id as i16 && e.difficulty_id == difficulty_id {
                proof {
                    let k = *pairs[it.index() as int].0;
                    assert(self.entries@.contains_key(k));
                    assert(self@.contains_key(k) && *e == self@[k]);
                }
                return Some(e);
            }
        }
        proof {
            assert forall|k: u32| #[trigger] self@.contains_key(k) implies !lfg_dungeon_matches(
                self@[k],
                map_id,
                difficulty_id,
            ) by {
                assert(pairs.contains((&k, &self.entries@[k])));
                let j = choose|j: int| 0 <= j < pairs.len() && pairs[j] == (&k, &self.entries@[k]);
                assert(pairs[j] == (&k, &self.entries@[k]));
            }
        }
        None
    }
}

/// Whether a dungeon belongs to the given map and difficulty (the map id is
/// compared as the 16-bit value the table stores).
pub open spec fn lfg_dungeon_matches(e: LfgDungeonsEntry, map_id: u32, difficulty_id: u8) -> bool {
    e.map_id == map_id as i16 && e.difficulty_id == difficulty_id
}

} // verus!
