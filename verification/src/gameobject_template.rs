//! Game object templates with their addons, the spawn overrides, and the
//! lifecycle template that object creation consumes.
use std::collections::HashMap;
use vstd::prelude::*;
use vstd::std_specs::iter::IteratorSpec;
use crate::db2_index::{Keyed, index_by_key, build_index, index_values, is_stored_value};

verus! {

broadcast use vstd::std_specs::hash::group_hash_axioms;

/// Number of data slots of a game object template.
pub const MAX_GAMEOBJECT_DATA: usize = 35;

/// A row of the game object template addon table.
#[derive(Debug, Clone, Copy, PartialEq, Eq, Default, Structural)]
pub struct GameObjectTemplateAddonLifecycleRecordLikeCpp {
    pub entry: u32,
    pub faction: u32,
    pub flags: u32,
    pub world_effect_id: u32,
    pub anim_kit_id: u16,
}

/// A row of the game object spawn override table.
#[derive(Debug, Clone, Copy, PartialEq, Eq, Default, Structural)]
pub struct GameObjectOverrideLifecycleRecordLikeCpp {
    pub spawn_id: u64,
    pub faction: u32,
    pub flags: u32,
}

/// A game object template with its addon, if it has one.
///
/// The size is a single-precision float kept as its bit pattern.
#[derive(Debug, Clone, PartialEq)]
pub struct GameObjectTemplateLifecycleRecordLikeCpp {
    pub entry: u32,
    pub go_type: u32,
    pub display_id: u32,
    pub name: String,
    pub size: u32,
    pub data: [u32; 35],
    pub content_tuning_id: u32,
    pub ai_name: String,
    pub script_name: String,
    pub string_id: String,
    pub addon: Option<GameObjectTemplateAddonLifecycleRecordLikeCpp>,
}

impl Keyed for GameObjectTemplateLifecycleRecordLikeCpp {
    open spec fn spec_key(&self) -> u32 {
        self.entry
    }

    fn key(&self) -> (k: u32) {
        self.entry
    }
}

/// The template that creating a game object without a spawn row uses.
///
/// The scale is a single-precision float kept as its bit pattern.
#[derive(Debug, Clone, PartialEq)]
pub struct GameObjectTemplateLifecycleRecord {
    pub entry: u32,
    pub name: String,
    pub go_type: u32,
    pub display_id: u32,
    pub scale: u32,
    pub faction: u32,
    pub flags: u32,
    pub data: [u32; 35],
    pub world_effect_id: u32,
    pub anim_kit_id: u16,
    pub level: u32,
    pub percent_health: u32,
    pub custom_param: u32,
}

/// Game object templates by entry.
pub struct GameObjectTemplateLifecycleStoreLikeCpp {
    templates: HashMap<u32, GameObjectTemplateLifecycleRecordLikeCpp>,
}

impl View for GameObjectTemplateLifecycleStoreLikeCpp {
    type V = Map<u32, GameObjectTemplateLifecycleRecordLikeCpp>;

    closed spec fn view(&self) -> Map<u32, GameObjectTemplateLifecycleRecordLikeCpp> {
        self.templates@
    }
}

impl GameObjectTemplateLifecycleStoreLikeCpp {
    /// Builds the store; a later template replaces an earlier one with the
    /// same entry.
    pub fn from_templates(templates: Vec<GameObjectTemplateLifecycleRecordLikeCpp>) -> (s: Self)
        ensures
            s@ == index_by_key(templates@),
    {
        GameObjectTemplateLifecycleStoreLikeCpp { templates: build_index(templates) }
    }

    pub fn get(&self, entry: u32) -> (r: Option<&GameObjectTemplateLifecycleRecordLikeCpp>)
        ensures
            r == (if self@.contains_key(entry) {
                Some(&self@[entry])
            } else {
                None
            }),
    {
        self.templates.get(&entry)
    }

    /// Every template, each once, in the map's iteration order.
    pub fn entries_like_cpp(&self) -> (r: Vec<&GameObjectTemplateLifecycleRecordLikeCpp>)
        ensures
            r@.len() == self@.len(),
            forall|i: int| #![trigger r@[i]] 0 <= i < r@.len() ==> is_stored_value(self@, *r@[i]),
            forall|k: u32| #[trigger] self@.contains_key(k) ==> exists|i: int|
                0 <= i < r@.len() && *r@[i] == self@[k],
    {
        index_values(&self.templates)
    }

    pub fn len(&self) -> (n: usize)
        ensures
            n == self@.len(),
    {
        self.templates.len()
    }

    pub fn is_empty(&self) -> (b: bool)
        ensures
            b == self@.is_empty(),
    {
        self.templates.is_empty()
    }
}

/// The lifecycle template made from `t`: its own fields, the faction, flags,
/// world effect and anim kit of its addon (0 without one), its content tuning
/// as level, full health and no custom parameter.
pub open spec fn lifecycle_record_matches(
    r: GameObjectTemplateLifecycleRecord,
    t: GameObjectTemplateLifecycleRecordLikeCpp,
) -> bool {
    &&& r.entry == t.entry
    &&& r.name@ == t.name@
    &&& r.go_type == t.go_type
    &&& r.display_id == t.display_id
    &&& r.scale == t.size
    &&& r.data == t.data
    &&& r.faction == (if let Some(a) = t.addon { a.faction } else { 0 })
    &&& r.flags == (if let Some(a) = t.addon { a.flags } else { 0 })
    &&& r.world_effect_id == (if let Some(a) = t.addon { a.world_effect_id } else { 0 })
    &&& r.anim_kit_id == (if let Some(a) = t.addon { a.anim_kit_id } else { 0 })
    &&& r.level == t.content_tuning_id
    &&& r.percent_health == 100
    &&& r.custom_param == 0
}

/// The template that creating a game object from `template` alone (with no
/// spawn row, so no spawn override) uses.
pub fn gameobject_template_lifecycle_record_like_cpp(
    template: &GameObjectTemplateLifecycleRecordLikeCpp,
) -> (r: GameObjectTemplateLifecycleRecord)
    ensures
        lifecycle_record_matches(r, *template),
{
    let (faction, flags, world_effect_id, anim_kit_id) = match template.addon {
        Some(a) => (a.faction, a.flags, a.world_effect_id, a.anim_kit_id),
        None => (0, 0, 0, 0),
    };
    GameObjectTemplateLifecycleRecord {
        entry: template.entry,
        name: template.name.clone(),
        go_type: template.go_type,
        display_id: template.display_id,
        scale: template.size,
        faction,
        flags,
        data: template.data,
        world_effect_id,
        anim_kit_id,
        level: template.content_tuning_id,
        percent_health: 100,
        custom_param: 0,
    }
}

/// The map that inserting `rows`, in order, under their spawn ids gives.
pub open spec fn overrides_by_spawn(rows: Seq<GameObjectOverrideLifecycleRecordLikeCpp>) -> Map<
    u64,
    GameObjectOverrideLifecycleRecordLikeCpp,
>
    decreases rows.len(),
{
    if rows.len() == 0 {
        Map::empty()
    } else {
        overrides_by_spawn(rows.drop_last()).insert(rows.last().spawn_id, rows.last())
    }
}

/// Spawn overrides by spawn id.
pub struct GameObjectOverrideLifecycleStoreLikeCpp {
    overrides: HashMap<u64, GameObjectOverrideLifecycleRecordLikeCpp>,
}

impl View for GameObjectOverrideLifecycleStoreLikeCpp {
    type V = Map<u64, GameObjectOverrideLifecycleRecordLikeCpp>;

    closed spec fn view(&self) -> Map<u64, GameObjectOverrideLifecycleRecordLikeCpp> {
        self.overrides@
    }
}

impl GameObjectOverrideLifecycleStoreLikeCpp {
    /// Builds the store; a later override replaces an earlier one with the
    /// same spawn id.
    pub fn from_overrides(overrides: Vec<GameObjectOverrideLifecycleRecordLikeCpp>) -> (s: Self)
        ensures
            s@ == overrides_by_spawn(overrides@),
    {
        let ghost all = overrides@;
        let mut m: HashMap<u64, GameObjectOverrideLifecycleRecordLikeCpp> = HashMap::new();
        for record in it: overrides
            invariant
                all == it.seq(),
                m@ == overrides_by_spawn(all.take(it.index() as int)),
        {
            proof {
                assert(all.take(it.index() + 1).drop_last() =~= all.take(it.index() as int));
            }
            m.insert(record.spawn_id, record);
        }
        proof {
            assert(all.take(all.len() as int) =~= all);
        }
        GameObjectOverrideLifecycleStoreLikeCpp { overrides: m }
    }

    /// The override of a spawn.
    pub fn get(&self, spawn_id: u64) -> (r: Option<&GameObjectOverrideLifecycleRecordLikeCpp>)
        ensures
            r == (if self@.contains_key(spawn_id) {
                Some(&self@[spawn_id])
            } else {
                None
            }),
    {
        self.overrides.get(&spawn_id)
    }

    pub fn len(&self) -> (n: usize)
        ensures
            n == self@.len(),
    {
        self.overrides.len()
    }

    pub fn is_empty(&self) -> (b: bool)
        ensures
            b == self@.is_empty(),
    {
        self.overrides.is_empty()
    }
}

} // verus!
