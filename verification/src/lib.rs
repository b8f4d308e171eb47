//! Game data tables of a world server: typed rows, the stores that index
//! them, and the lookups and load-time validations performed on them.
use vstd::prelude::*;

pub mod area;
pub mod db2_index;
pub mod game_tele;
pub mod gameobject_template;
pub mod gossip;
pub mod graveyard;
pub mod hotfix_cache;
pub mod item;
pub mod item_bonus;
pub mod item_appearance;
pub mod item_class;
pub mod item_collections;
pub mod item_currency_cost;
pub mod item_disenchant_loot;
pub mod item_equipment;
pub mod item_extended_cost;
pub mod item_stats;
pub mod jump_charge;
pub mod mail;
pub mod map;
pub mod maps_world;
pub mod misc_generated;
pub mod mount;
pub mod phase;
pub mod phasing;
pub mod player_choice;
pub mod poi;
pub mod player_condition;
pub mod player_create;
pub mod player_power;
pub mod predicates;
pub mod progression_rewards;
pub mod quest;
pub mod quest_xp;
pub mod reputation;
pub mod sorting;
pub mod text;

verus! {

} // verus!
