//! Mount.db2, MountCapability.db2, MountTypeXCapability.db2 and
//! MountXDisplay.db2 stores, and the selection of the capability that a
//! mount uses.
use std::collections::HashMap;
use vstd::prelude::*;

use crate::db2_index::{all_values_copied, apply_rows, build_index, index_by_key, lemma_index_by_key_consistent, lists_all_values, Keyed};
use crate::predicates::{holds, is_predicate, lemma_predicate_answer};

verus! {

broadcast use vstd::std_specs::hash::group_hash_axioms;

pub const AREA_MOUNT_FLAG_ALLOW_GROUND_MOUNTS: u8 = 0x1;

pub const AREA_MOUNT_FLAG_ALLOW_FLYING_MOUNTS: u8 = 0x2;

pub const AREA_MOUNT_FLAG_ALLOW_SURFACE_SWIMMING_MOUNTS: u8 = 0x4;

pub const AREA_MOUNT_FLAG_ALLOW_UNDERWATER_SWIMMING_MOUNTS: u8 = 0x8;

pub const MOUNT_CAPABILITY_FLAG_GROUND: u8 = 0x1;

pub const MOUNT_CAPABILITY_FLAG_FLYING: u8 = 0x2;

pub const MOUNT_CAPABILITY_FLAG_FLOAT: u8 = 0x4;

pub const MOUNT_CAPABILITY_FLAG_UNDERWATER: u8 = 0x8;

pub const MOUNT_CAPABILITY_FLAG_IGNORE_RESTRICTIONS: u8 = 0x20;

pub const MOUNT_FLAG_SELF_MOUNT: u16 = 0x2;

pub const DISPLAYID_HIDDEN_MOUNT: i32 = 73_200;

/// A row of Mount.db2. The fly ride height is kept as the bit pattern of
/// the table's 32-bit float.
#[derive(Debug, Clone, Copy, PartialEq, Eq)]
pub struct MountEntry {
    pub id: u32,
    pub mount_type_id: u16,
    pub flags: u16,
    pub source_type_enum: i8,
    pub source_spell_id: i32,
    pub player_condition_id: u32,
    pub mount_fly_ride_height: u32,
    pub ui_model_scene_id: i32,
}

impl Keyed for MountEntry {
    open spec fn spec_key(&self) -> u32 {
        self.id
    }

    fn key(&self) -> (k: u32) {
        self.id
    }
}

/// The source spell index of Mount rows: every non-negative source spell
/// names the id of the last row that teaches it.
pub open spec fn source_spell_index(rows: Seq<MountEntry>) -> Map<u32, u32>
    decreases rows.len(),
{
    if rows.len() == 0 {
        Map::empty()
    } else {
        let prev = source_spell_index(rows.drop_last());
        if rows.last().source_spell_id >= 0 {
            prev.insert(rows.last().source_spell_id as u32, rows.last().id)
        } else {
            prev
        }
    }
}

/// Store of Mount.db2 rows, by id and by source spell.
pub struct MountStore {
    by_id: HashMap<u32, MountEntry>,
    by_source_spell_id: HashMap<u32, u32>,
}

impl View for MountStore {
    type V = (Map<u32, MountEntry>, Map<u32, u32>);

    closed spec fn view(&self) -> (Map<u32, MountEntry>, Map<u32, u32>) {
        (self.by_id@, self.by_source_spell_id@)
    }
}

impl MountStore {
    pub fn from_entries(entries: Vec<MountEntry>) -> (s: Self)
        ensures
            s@.0 == index_by_key(entries@),
            s@.1 == source_spell_index(entries@),
    {
        let ghost all = entries@;
        let mut by_id: HashMap<u32, MountEntry> = HashMap::new();
        let mut by_source_spell_id: HashMap<u32, u32> = HashMap::new();
        for entry in it: entries
            invariant
                all == it.seq(),
                by_id@ == index_by_key(all.take(it.index() as int)),
                by_source_spell_id@ == source_spell_index(all.take(it.index() as int)),
        {
            proof {
                assert(all.take(it.index() + 1).drop_last() =~= all.take(it.index() as int));
            }
            if entry.source_spell_id >= 0 {
                by_source_spell_id.insert(entry.source_spell_id as u32, entry.id);
            }
            by_id.insert(entry.id, entry);
        }
        proof {
            assert(all.take(all.len() as int) =~= all);
        }
        MountStore { by_id, by_source_spell_id }
    }

    /// Builds the store from the rows of Mount.db2, in file order.
    pub fn load(rows: Vec<MountEntry>) -> (s: Self)
        ensures
            s@.0 == index_by_key(rows@),
            s@.1 == source_spell_index(rows@),
    {
        Self::from_entries(rows)
    }

    pub fn get_by_id(&self, id: u32) -> (r: Option<&MountEntry>)
        ensures
            r == (if self@.0.contains_key(id) {
                Some(&self@.0[id])
            } else {
                None
            }),
    {
        self.by_id.get(&id)
    }

    /// Indexes the source spells of all stored mounts again, taking them in
    /// the map's iteration order (a spell taught by several mounts names one
    /// of them).
    fn rebuild_source_spell_index(&mut self)
        ensures
            final(self)@.0 == old(self)@.0,
            exists|vs: Seq<&MountEntry>| #[trigger] lists_all_values(final(self)@.0, vs)
                && final(self)@.1 == source_spell_index(vs.map_values(|e: &MountEntry| *e)),
    {
        let values = all_values_copied(&self.by_id);
        let ghost vals = values@;
        let mut by_source_spell_id: HashMap<u32, u32> = HashMap::new();
        let mut i: usize = 0;
        while i < values.len()
            invariant
                i <= values.len(),
                vals == values@,
                by_source_spell_id@ == source_spell_index(vals.take(i as int)),
            decreases values.len() - i,
        {
            proof {
                assert(vals.take(i + 1).drop_last() =~= vals.take(i as int));
            }
            let entry = values[i];
            if entry.source_spell_id >= 0 {
                by_source_spell_id.insert(entry.source_spell_id as u32, entry.id);
            }
            i = i + 1;
        }
        proof {
            assert(vals.take(values.len() as int) =~= vals);
        }
        self.by_source_spell_id = by_source_spell_id;
        proof {
            let vs = choose|vs: Seq<&MountEntry>| #[trigger] lists_all_values(self.by_id@, vs) && vals
                == vs.map_values(|e: &MountEntry| *e);
            assert(lists_all_values(self@.0, vs) && self@.1 == source_spell_index(
                vs.map_values(|e: &MountEntry| *e),
            ));
        }
    }

    /// Applies hotfix rows, each replacing the mount with its id, then
    /// indexes the source spells of all stored mounts again (a spell taught
    /// by several mounts names one of them); gives the number of rows.
    pub fn load_hotfix_rows(&mut self, rows: Vec<MountEntry>) -> (n: usize)
        ensures
            n == rows@.len(),
            final(self)@.0 == old(self)@.0.union_prefer_right(index_by_key(rows@)),
            exists|vs: Seq<&MountEntry>| #[trigger] lists_all_values(final(self)@.0, vs)
                && final(self)@.1 == source_spell_index(vs.map_values(|e: &MountEntry| *e)),
    {
        let n = apply_rows(&mut self.by_id, rows);
        self.rebuild_source_spell_index();
        n
    }

    /// The mount that a source spell teaches.
    pub fn get_by_source_spell_id_like_cpp(&self, spell_id: u32) -> (r: Option<&MountEntry>)
        ensures
            r == (if self@.1.contains_key(spell_id) && self@.0.contains_key(self@.1[spell_id]) {
                Some(&self@.0[self@.1[spell_id]])
            } else {
                None
            }),
    {
        match self.by_source_spell_id.get(&spell_id) {
            Some(id) => self.by_id.get(id),
            None => None,
        }
    }

    pub fn len(&self) -> (n: usize)
        ensures
            n == self@.0.len(),
    {
        self.by_id.len()
    }

    pub fn is_empty(&self) -> (b: bool)
        ensures
            b == self@.0.is_empty(),
    {
        self.by_id.is_empty()
    }
}

/// A row of MountCapability.db2.
#[derive(Debug, Clone, Copy, PartialEq, Eq)]
pub struct MountCapabilityEntry {
    pub id: u32,
    pub flags: u8,
    pub req_riding_skill: u16,
    pub req_area_id: u16,
    pub req_spell_aura_id: u32,
    pub req_spell_known_id: i32,
    pub mod_spell_aura_id: i32,
    pub req_map_id: i16,
}

impl Keyed for MountCapabilityEntry {
    open spec fn spec_key(&self) -> u32 {
        self.id
    }

    fn key(&self) -> (k: u32) {
        self.id
    }
}

/// The rider's situation that a mount capability is checked against.
#[derive(Debug, Clone, Copy, PartialEq, Eq)]
pub struct MountCapabilityContextLikeCpp {
    pub riding_skill: u32,
    pub mount_flags: u8,
    pub is_submerged: bool,
    pub is_in_water: bool,
    pub map_id: i32,
    pub cosmetic_parent_map_id: i32,
    pub parent_map_id: i32,
}

/// The area restrictions of a capability allow it where the rider is.
pub open spec fn capability_area_flags_allow(c: MountCapabilityEntry, ctx: MountCapabilityContextLikeCpp) -> bool {
    c.flags & MOUNT_CAPABILITY_FLAG_IGNORE_RESTRICTIONS != 0 || (
    !(c.flags & MOUNT_CAPABILITY_FLAG_GROUND != 0 && ctx.mount_flags & AREA_MOUNT_FLAG_ALLOW_GROUND_MOUNTS == 0)
    && !(c.flags & MOUNT_CAPABILITY_FLAG_FLYING != 0 && ctx.mount_flags & AREA_MOUNT_FLAG_ALLOW_FLYING_MOUNTS == 0)
    && !(c.flags & MOUNT_CAPABILITY_FLAG_FLOAT != 0 && ctx.mount_flags & AREA_MOUNT_FLAG_ALLOW_SURFACE_SWIMMING_MOUNTS == 0)
    && !(c.flags & MOUNT_CAPABILITY_FLAG_UNDERWATER != 0 && ctx.mount_flags & AREA_MOUNT_FLAG_ALLOW_UNDERWATER_SWIMMING_MOUNTS == 0))
}

/// The capability moves in the medium the rider is in: on land it must be
/// a ground capability, on the water surface a floating one, under water an
/// underwater one, and submerged out of water a floating one.
pub open spec fn capability_medium_allows(c: MountCapabilityEntry, ctx: MountCapabilityContextLikeCpp) -> bool {
    if !ctx.is_submerged {
        if !ctx.is_in_water {
            c.flags & MOUNT_CAPABILITY_FLAG_GROUND != 0
        } else {
            c.flags & MOUNT_CAPABILITY_FLAG_FLOAT != 0
        }
    } else if ctx.is_in_water {
        c.flags & MOUNT_CAPABILITY_FLAG_UNDERWATER != 0
    } else {
        c.flags & MOUNT_CAPABILITY_FLAG_FLOAT != 0
    }
}

/// A capability can be used by the rider: riding skill, area flags, medium,
/// required map (the map itself, its cosmetic parent or its parent), area,
/// aura and known spell all allow it.
pub open spec fn capability_usable<A: Fn(u16) -> bool, H: Fn(u32) -> bool, S: Fn(i32) -> bool>(
    c: MountCapabilityEntry,
    ctx: MountCapabilityContextLikeCpp,
    area_matches: A,
    has_aura: H,
    has_spell: S,
) -> bool {
    &&& ctx.riding_skill >= c.req_riding_skill
    &&& capability_area_flags_allow(c, ctx)
    &&& capability_medium_allows(c, ctx)
    &&& (c.req_map_id == -1 || ctx.map_id == c.req_map_id || ctx.cosmetic_parent_map_id
        == c.req_map_id || ctx.parent_map_id == c.req_map_id)
    &&& (c.req_area_id == 0 || holds(area_matches, c.req_area_id))
    &&& (c.req_spell_aura_id == 0 || holds(has_aura, c.req_spell_aura_id))
    &&& (c.req_spell_known_id == 0 || holds(has_spell, c.req_spell_known_id))
}

/// The capability in slot `i` of a mount type's list exists in `store` and
/// can be used by the rider.
pub open spec fn capability_slot_usable<A: Fn(u16) -> bool, H: Fn(u32) -> bool, S: Fn(i32) -> bool>(
    store: Map<u32, MountCapabilityEntry>,
    caps: Seq<MountTypeXCapabilityEntry>,
    i: int,
    ctx: MountCapabilityContextLikeCpp,
    area_matches: A,
    has_aura: H,
    has_spell: S,
) -> bool {
    store.contains_key(caps[i].mount_capability_id as u32) && capability_usable(
        store[caps[i].mount_capability_id as u32],
        ctx,
        area_matches,
        has_aura,
        has_spell,
    )
}

/// The capability list of a mount type in a type store (empty for type 0).
pub open spec fn capability_list(
    types: Map<u16, Seq<MountTypeXCapabilityEntry>>,
    mount_type_id: u16,
) -> Seq<MountTypeXCapabilityEntry> {
    if mount_type_id != 0 && types.contains_key(mount_type_id) {
        types[mount_type_id]
    } else {
        Seq::empty()
    }
}

/// Store of MountCapability.db2 rows indexed by id.
pub struct MountCapabilityStore {
    by_id: HashMap<u32, MountCapabilityEntry>,
}

impl View for MountCapabilityStore {
    type V = Map<u32, MountCapabilityEntry>;

    closed spec fn view(&self) -> Map<u32, MountCapabilityEntry> {
        self.by_id@
    }
}

impl MountCapabilityStore {
    pub fn from_entries(entries: Vec<MountCapabilityEntry>) -> (s: Self)
        ensures
            s@ == index_by_key(entries@),
    {
        MountCapabilityStore { by_id: build_index(entries) }
    }

    /// Builds the store from the rows of MountCapability.db2, in file order.
    pub fn load(rows: Vec<MountCapabilityEntry>) -> (s: Self)
        ensures
            s@ == index_by_key(rows@),
    {
        Self::from_entries(rows)
    }

    pub fn get(&self, id: u32) -> (r: Option<&MountCapabilityEntry>)
        ensures
            r == (if self@.contains_key(id) {
                Some(&self@[id])
            } else {
                None
            }),
    {
        self.by_id.get(&id)
    }

    /// Applies hotfix rows, each replacing the capability with its id; gives
    /// the number of rows.
    pub fn load_hotfix_rows(&mut self, rows: Vec<MountCapabilityEntry>) -> (n: usize)
        ensures
            n == rows@.len(),
            final(self)@ == old(self)@.union_prefer_right(index_by_key(rows@)),
    {
        apply_rows(&mut self.by_id, rows)
    }

    /// The capability a mount of `mount_type_id` uses: the first one, in
    /// the type's order, that exists in this store and that the rider can
    /// use. Mount type 0 and types without capabilities give none.
    pub fn select_for_mount_type_like_cpp<A: Fn(u16) -> bool, H: Fn(u32) -> bool, S: Fn(i32) -> bool>(
        &self,
        type_store: &MountTypeXCapabilityStore,
        mount_type_id: u16,
        context: &MountCapabilityContextLikeCpp,
        area_matches: A,
        has_aura: H,
        has_spell: S,
    ) -> (r: Option<&MountCapabilityEntry>)
        requires
            is_predicate(area_matches),
            is_predicate(has_aura),
            is_predicate(has_spell),
        ensures
            r matches Some(c) ==> capability_usable(*c, *context, area_matches, has_aura, has_spell)
                && c.req_riding_skill <= context.riding_skill,
            r is None <==> forall|i: int|
                0 <= i < capability_list(type_store@.1, mount_type_id).len() ==> !#[trigger] capability_slot_usable(
                    self@,
                    capability_list(type_store@.1, mount_type_id),
                    i,
                    *context,
                    area_matches,
                    has_aura,
                    has_spell,
                ),
            r matches Some(c) ==> exists|i: int|
                0 <= i < capability_list(type_store@.1, mount_type_id).len() && capability_slot_usable(
                    self@,
                    capability_list(type_store@.1, mount_type_id),
                    i,
                    *context,
                    area_matches,
                    has_aura,
                    has_spell,
                ) && *c == self@[capability_list(type_store@.1, mount_type_id)[i].mount_capability_id as u32]
                    && forall|j: int|
                    0 <= j < i ==> !#[trigger] capability_slot_usable(
                        self@,
                        capability_list(type_store@.1, mount_type_id),
                        j,
                        *context,
                        area_matches,
                        has_aura,
                        has_spell,
                    ),
    {
        let ghost caps = capability_list(type_store@.1, mount_type_id);
        if mount_type_id == 0 {
            return None;
        }
        let capabilities = match type_store.capabilities_for_mount_type_like_cpp(mount_type_id) {
            Some(c) => c,
            None => {
                return None;
            },
        };
        let mut i: usize = 0;
        while i < capabilities.len()
            invariant
                0 <= i <= capabilities@.len(),
                capabilities@ == caps,
                is_predicate(area_matches),
                is_predicate(has_aura),
                is_predicate(has_spell),
                caps == capability_list(type_store@.1, mount_type_id),
                forall|j: int|
                    0 <= j < i ==> !#[trigger] capability_slot_usable(
                        self@,
                        caps,
                        j,
                        *context,
                        area_matches,
                        has_aura,
                        has_spell,
                    ),
            decreases capabilities@.len() - i,
        {
            let cap_id: u32 = capabilities[i].mount_capability_id as u32;
            let found = self.by_id.get(&cap_id);
            if let Some(capability) = found {
                let c = *capability;
                let mut usable = context.riding_skill >= c.req_riding_skill as u32;
                if usable && c.flags & MOUNT_CAPABILITY_FLAG_IGNORE_RESTRICTIONS == 0 {
                    if c.flags & MOUNT_CAPABILITY_FLAG_GROUND != 0 && context.mount_flags
                        & AREA_MOUNT_FLAG_ALLOW_GROUND_MOUNTS == 0 {
                        usable = false;
                    }
                    if c.flags & MOUNT_CAPABILITY_FLAG_FLYING != 0 && context.mount_flags
                        & AREA_MOUNT_FLAG_ALLOW_FLYING_MOUNTS == 0 {
                        usable = false;
                    }
                    if c.flags & MOUNT_CAPABILITY_FLAG_FLOAT != 0 && context.mount_flags
                        & AREA_MOUNT_FLAG_ALLOW_SURFACE_SWIMMING_MOUNTS == 0 {
                        usable = false;
                    }
                    if c.flags & MOUNT_CAPABILITY_FLAG_UNDERWATER != 0 && context.mount_flags
                        & AREA_MOUNT_FLAG_ALLOW_UNDERWATER_SWIMMING_MOUNTS == 0 {
                        usable = false;
                    }
                }
                if usable {
                    if !context.is_submerged {
                        if !context.is_in_water {
                            if c.flags & MOUNT_CAPABILITY_FLAG_GROUND == 0 {
                                usable = false;
                            }
                        } else if c.flags & MOUNT_CAPABILITY_FLAG_FLOAT == 0 {
                            usable = false;
                        }
                    } else if context.is_in_water {
                        if c.flags & MOUNT_CAPABILITY_FLAG_UNDERWATER == 0 {
                            usable = false;
                        }
                    } else if c.flags & MOUNT_CAPABILITY_FLAG_FLOAT == 0 {
                        usable = false;
                    }
                }
                if usable && c.req_map_id != -1 && context.map_id != c.req_map_id as i32
                    && context.cosmetic_parent_map_id != c.req_map_id as i32 && context.parent_map_id
                    != c.req_map_id as i32 {
                    usable = false;
                }
                if usable && c.req_area_id != 0 {
                    let a = area_matches(c.req_area_id);
                    proof {
                        lemma_predicate_answer(area_matches, c.req_area_id, a);
                    }
                    if !a {
                        usable = false;
                    }
                }
                if usable && c.req_spell_aura_id != 0 {
                    let a = has_aura(c.req_spell_aura_id);
                    proof {
                        lemma_predicate_answer(has_aura, c.req_spell_aura_id, a);
                    }
                    if !a {
                        usable = false;
                    }
                }
                if usable && c.req_spell_known_id != 0 {
                    let a = has_spell(c.req_spell_known_id);
                    proof {
                        lemma_predicate_answer(has_spell, c.req_spell_known_id, a);
                    }
                    if !a {
                        usable = false;
                    }
                }
                assert(usable == capability_slot_usable(self@, caps, i as int, *context, area_matches, has_aura, has_spell));
                if usable {
                    return Some(capability);
                }
            } else {
                assert(!capability_slot_usable(self@, caps, i as int, *context, area_matches, has_aura, has_spell));
            }
            i = i + 1;
        }
        None
    }

    pub fn len(&self) -> (n: usize)
        ensures
            n == self@.len(),
    {
        self.by_id.len()
    }

    pub fn is_empty(&self) -> (b: bool)
        ensures
            b == self@.is_empty(),
    {
        self.by_id.is_empty()
    }
}

/// A row of MountTypeXCapability.db2.
#[derive(Debug, Clone, Copy, PartialEq, Eq)]
pub struct MountTypeXCapabilityEntry {
    pub id: u32,
    pub mount_type_id: u16,
    pub mount_capability_id: u16,
    pub order_index: u8,
}

impl Keyed for MountTypeXCapabilityEntry {
    open spec fn spec_key(&self) -> u32 {
        self.id
    }

    fn key(&self) -> (k: u32) {
        self.id
    }
}

/// The position at which a capability of order `o` goes into a bucket:
/// before the first entry with a greater order.
pub open spec fn capability_insert_position(b: Seq<MountTypeXCapabilityEntry>, o: u8) -> int
    decreases b.len(),
{
    if b.len() == 0 {
        0
    } else if b[0].order_index > o {
        0
    } else {
        1 + capability_insert_position(b.drop_first(), o)
    }
}

/// A bucket after `e` is offered to it: an entry with the same order index
/// keeps its place and `e` is dropped; otherwise `e` goes in at its order.
pub open spec fn capability_bucket_add(b: Seq<MountTypeXCapabilityEntry>, e: MountTypeXCapabilityEntry) -> Seq<
    MountTypeXCapabilityEntry,
> {
    if exists|j: int| 0 <= j < b.len() && b[j].order_index == e.order_index {
        b
    } else {
        b.insert(capability_insert_position(b, e.order_index), e)
    }
}

/// The capability bucket of a mount type: its rows offered in table order,
/// so that it holds the first row of each order index, sorted by order.
pub open spec fn capability_bucket(rows: Seq<MountTypeXCapabilityEntry>, mount_type_id: u16) -> Seq<
    MountTypeXCapabilityEntry,
>
    decreases rows.len(),
{
    if rows.len() == 0 {
        Seq::empty()
    } else {
        let b = capability_bucket(rows.drop_last(), mount_type_id);
        if rows.last().mount_type_id == mount_type_id {
            capability_bucket_add(b, rows.last())
        } else {
            b
        }
    }
}

proof fn lemma_capability_insert_position(b: Seq<MountTypeXCapabilityEntry>, o: u8, p: int)
    requires
        0 <= p <= b.len(),
        forall|j: int| 0 <= j < p ==> b[j].order_index <= o,
        p == b.len() || b[p].order_index > o,
    ensures
        capability_insert_position(b, o) == p,
    decreases p,
{
    if p > 0 {
        lemma_capability_insert_position(b.drop_first(), o, p - 1);
    }
}

/// The entries of a capability bucket are in non-decreasing order index.
pub open spec fn capability_bucket_sorted(b: Seq<MountTypeXCapabilityEntry>) -> bool {
    forall|i: int, j: int| 0 <= i < j < b.len() ==> b[i].order_index <= b[j].order_index
}

/// Store of MountTypeXCapability rows, by id and by mount type.
pub struct MountTypeXCapabilityStore {
    by_id: HashMap<u32, MountTypeXCapabilityEntry>,
    by_mount_type: HashMap<u16, Vec<MountTypeXCapabilityEntry>>,
}

impl View for MountTypeXCapabilityStore {
    type V = (Map<u32, MountTypeXCapabilityEntry>, Map<u16, Seq<MountTypeXCapabilityEntry>>);

    closed spec fn view(&self) -> (Map<u32, MountTypeXCapabilityEntry>, Map<u16, Seq<MountTypeXCapabilityEntry>>) {
        (self.by_id@, self.by_mount_type@.map_values(|v: Vec<MountTypeXCapabilityEntry>| v@))
    }
}

impl MountTypeXCapabilityStore {
    /// Builds the store: rows by id, and per mount type the first row of
    /// each order index, sorted by order index.
    pub fn from_entries(entries: Vec<MountTypeXCapabilityEntry>) -> (s: Self)
        ensures
            s@.0 == index_by_key(entries@),
            forall|t: u16| #[trigger] s@.1.contains_key(t) <==> capability_bucket(entries@, t).len() > 0,
            forall|t: u16| #[trigger] s@.1.contains_key(t) ==> s@.1[t] == capability_bucket(entries@, t),
    {
        let ghost all = entries@;
        let mut by_id: HashMap<u32, MountTypeXCapabilityEntry> = HashMap::new();
        let mut by_mount_type: HashMap<u16, Vec<MountTypeXCapabilityEntry>> = HashMap::new();
        for entry in it: entries
            invariant
                all == it.seq(),
                by_id@ == index_by_key(all.take(it.index() as int)),
                forall|t: u16| #[trigger] by_mount_type@.contains_key(t) <==> capability_bucket(
                    all.take(it.index() as int),
                    t,
                ).len() > 0,
                forall|t: u16| #[trigger] by_mount_type@.contains_key(t) ==> by_mount_type@[t]@
                    == capability_bucket(all.take(it.index() as int), t),
                forall|t: u16| #[trigger] by_mount_type@.contains_key(t) ==> capability_bucket_sorted(
                    by_mount_type@[t]@,
                ),
        {
            let ghost i = it.index() as int;
            proof {
                assert(all.take(i + 1).drop_last() =~= all.take(i));
            }
            let t = entry.mount_type_id;
            let ghost pre = by_mount_type@;
            let mut bucket = match by_mount_type.remove(&t) {
                Some(v) => v,
                None => Vec::new(),
            };
            let ghost old_b = bucket@;
            assert(old_b == capability_bucket(all.take(i), t));
            let mut pos: usize = 0;
            let mut dup = false;
            while pos < bucket.len() && bucket[pos].order_index <= entry.order_index
                invariant
                    bucket@ == old_b,
                    pos <= bucket@.len(),
                    forall|j: int| 0 <= j < pos ==> bucket@[j].order_index <= entry.order_index,
                    dup == exists|j: int| 0 <= j < pos && bucket@[j].order_index == entry.order_index,
                decreases bucket@.len() - pos,
            {
                if bucket[pos].order_index == entry.order_index {
                    dup = true;
                }
                pos = pos + 1;
            }
            proof {
                lemma_capability_insert_position(old_b, entry.order_index, pos as int);
            }
            proof {
                if pre.contains_key(t) {
                    assert(capability_bucket_sorted(old_b));
                } else {
                    assert(old_b.len() == 0);
                }
                if !dup {
                    assert forall|j: int| 0 <= j < old_b.len() implies old_b[j].order_index
                        != entry.order_index by {
                        if j >= pos {
                            assert(old_b[pos as int].order_index > entry.order_index);
                        }
                    }
                } else {
                    let j = choose|j: int| 0 <= j < pos && old_b[j].order_index == entry.order_index;
                    assert(0 <= j < old_b.len() && old_b[j].order_index == entry.order_index);
                }
                assert(capability_bucket(all.take(i + 1), t) == capability_bucket_add(old_b, entry));
            }
            if !dup {
                bucket.insert(pos, entry);
                proof {
                    let nb = bucket@;
                    assert(nb == old_b.insert(pos as int, entry));
                    assert forall|a: int, b: int| 0 <= a < b < nb.len() implies nb[a].order_index
                        <= nb[b].order_index by {
                        if b < pos {
                        } else if b == pos {
                        } else if a < pos {
                            assert(nb[b] == old_b[b - 1]);
                            assert(old_b[pos as int].order_index > entry.order_index);
                        } else if a == pos {
                            assert(nb[b] == old_b[b - 1]);
                            assert(old_b[pos as int].order_index > entry.order_index);
                        } else {
                        }
                    }
                }
            }
            by_mount_type.insert(t, bucket);
            by_id.insert(entry.id, entry);
        }
        proof {
            assert(all.take(all.len() as int) =~= all);
        }
        MountTypeXCapabilityStore { by_id, by_mount_type }
    }

    /// Builds the store from the rows of MountTypeXCapability.db2.
    pub fn load(rows: Vec<MountTypeXCapabilityEntry>) -> (s: Self)
        ensures
            s@.0 == index_by_key(rows@),
            forall|t: u16| #[trigger] s@.1.contains_key(t) <==> capability_bucket(rows@, t).len() > 0,
            forall|t: u16| #[trigger] s@.1.contains_key(t) ==> s@.1[t] == capability_bucket(rows@, t),
    {
        Self::from_entries(rows)
    }

    /// Groups all stored rows by mount type again, taking them in the map's
    /// iteration order.
    fn rebuild_mount_type_index(&mut self)
        ensures
            final(self)@.0 == old(self)@.0,
            exists|vs: Seq<&MountTypeXCapabilityEntry>| #[trigger] lists_all_values(final(self)@.0, vs) && ({
                let es = vs.map_values(|e: &MountTypeXCapabilityEntry| *e);
                &&& forall|t: u16| #[trigger] final(self)@.1.contains_key(t) <==> capability_bucket(es, t).len() > 0
                &&& forall|t: u16| #[trigger] final(self)@.1.contains_key(t) ==> final(self)@.1[t]
                    == capability_bucket(es, t)
            }),
    {
        let values = all_values_copied(&self.by_id);
        let ghost vals = values@;
        let rebuilt = Self::from_entries(values);
        let ghost rb = rebuilt@;
        self.by_mount_type = rebuilt.by_mount_type;
        proof {
            let vs = choose|vs: Seq<&MountTypeXCapabilityEntry>| #[trigger] lists_all_values(self.by_id@, vs)
                && vals == vs.map_values(|e: &MountTypeXCapabilityEntry| *e);
            assert(self@.1 == rb.1);
            assert(lists_all_values(self@.0, vs));
        }
    }

    /// Applies hotfix rows, each replacing the row with its id, then groups
    /// all stored rows by mount type again, taking them in the map's
    /// iteration order; gives the number of rows.
    pub fn load_hotfix_rows(&mut self, rows: Vec<MountTypeXCapabilityEntry>) -> (n: usize)
        ensures
            n == rows@.len(),
            final(self)@.0 == old(self)@.0.union_prefer_right(index_by_key(rows@)),
            exists|vs: Seq<&MountTypeXCapabilityEntry>| #[trigger] lists_all_values(final(self)@.0, vs) && ({
                let es = vs.map_values(|e: &MountTypeXCapabilityEntry| *e);
                &&& forall|t: u16| #[trigger] final(self)@.1.contains_key(t) <==> capability_bucket(es, t).len() > 0
                &&& forall|t: u16| #[trigger] final(self)@.1.contains_key(t) ==> final(self)@.1[t]
                    == capability_bucket(es, t)
            }),
    {
        let n = apply_rows(&mut self.by_id, rows);
        self.rebuild_mount_type_index();
        n
    }

    pub fn get(&self, id: u32) -> (r: Option<&MountTypeXCapabilityEntry>)
        ensures
            r == (if self@.0.contains_key(id) {
                Some(&self@.0[id])
            } else {
                None
            }),
    {
        self.by_id.get(&id)
    }

    /// The capability rows of a mount type, by order index; none when it has
    /// none.
    pub fn capabilities_for_mount_type_like_cpp(&self, mount_type_id: u16) -> (r: Option<
        &[MountTypeXCapabilityEntry],
    >)
        ensures
            r matches Some(s) ==> self@.1.contains_key(mount_type_id) && s@ == self@.1[mount_type_id]
                && s@.len() > 0,
            r is None ==> !self@.1.contains_key(mount_type_id) || self@.1[mount_type_id].len() == 0,
    {
        match self.by_mount_type.get(&mount_type_id) {
            Some(v) => {
                if v.len() == 0 {
                    None
                } else {
                    Some(v.as_slice())
                }
            },
            None => None,
        }
    }

    pub fn len(&self) -> (n: usize)
        ensures
            n == self@.0.len(),
    {
        self.by_id.len()
    }

    pub fn is_empty(&self) -> (b: bool)
        ensures
            b == self@.0.is_empty(),
    {
        self.by_id.is_empty()
    }
}

/// A row of MountXDisplay.db2.
#[derive(Debug, Clone, Copy, PartialEq, Eq)]
pub struct MountXDisplayEntry {
    pub id: u32,
    pub creature_display_info_id: i32,
    pub player_condition_id: u32,
    pub mount_id: u32,
}

impl Keyed for MountXDisplayEntry {
    open spec fn spec_key(&self) -> u32 {
        self.id
    }

    fn key(&self) -> (k: u32) {
        self.id
    }
}

/// The display rows of a mount, in table order.
pub open spec fn displays_of(rows: Seq<MountXDisplayEntry>, mount_id: u32) -> Seq<MountXDisplayEntry> {
    rows.filter_map(|e: MountXDisplayEntry| if e.mount_id == mount_id {
        Some(e)
    } else {
        None
    })
}

/// Store of MountXDisplay rows, by id and grouped by mount.
pub struct MountXDisplayStore {
    by_id: HashMap<u32, MountXDisplayEntry>,
    by_mount_id: HashMap<u32, Vec<MountXDisplayEntry>>,
}

impl View for MountXDisplayStore {
    type V = (Map<u32, MountXDisplayEntry>, Map<u32, Seq<MountXDisplayEntry>>);

    closed spec fn view(&self) -> (Map<u32, MountXDisplayEntry>, Map<u32, Seq<MountXDisplayEntry>>) {
        (self.by_id@, self.by_mount_id@.map_values(|v: Vec<MountXDisplayEntry>| v@))
    }
}

impl MountXDisplayStore {
    /// Builds the store: rows by id, and every row under its mount in table
    /// order.
    pub fn from_entries(entries: Vec<MountXDisplayEntry>) -> (s: Self)
        ensures
            s@.0 == index_by_key(entries@),
            forall|m: u32| #[trigger] s@.1.contains_key(m) <==> displays_of(entries@, m).len() > 0,
            forall|m: u32| #[trigger] s@.1.contains_key(m) ==> s@.1[m] == displays_of(entries@, m),
    {
        let ghost all = entries@;
        let mut by_id: HashMap<u32, MountXDisplayEntry> = HashMap::new();
        let mut by_mount_id: HashMap<u32, Vec<MountXDisplayEntry>> = HashMap::new();
        for entry in it: entries
            invariant
                all == it.seq(),
                by_id@ == index_by_key(all.take(it.index() as int)),
                forall|m: u32| #[trigger] by_mount_id@.contains_key(m) <==> displays_of(
                    all.take(it.index() as int),
                    m,
                ).len() > 0,
                forall|m: u32| #[trigger] by_mount_id@.contains_key(m) ==> by_mount_id@[m]@
                    == displays_of(all.take(it.index() as int), m),
        {
            let ghost i = it.index() as int;
            proof {
                assert(all.take(i + 1).drop_last() =~= all.take(i));
                assert forall|m: u32| true implies #[trigger] displays_of(all.take(i + 1), m)
                    =~= displays_of(all.take(i), m) + (if all[i].mount_id == m {
                    seq![all[i]]
                } else {
                    Seq::<MountXDisplayEntry>::empty()
                }) by {
                    all.lemma_filter_map_take_succ(
                        |e: MountXDisplayEntry| if e.mount_id == m {
                            Some(e)
                        } else {
                            None
                        },
                        i,
                    );
                }
            }
            let m = entry.mount_id;
            let mut bucket = match by_mount_id.remove(&m) {
                Some(v) => v,
                None => Vec::new(),
            };
            bucket.push(entry);
            by_mount_id.insert(m, bucket);
            by_id.insert(entry.id, entry);
            proof {
                assert forall|m2: u32| #[trigger] by_mount_id@.contains_key(m2) <==> displays_of(
                    all.take(i + 1),
                    m2,
                ).len() > 0 by {
                    assert(displays_of(all.take(i + 1), m2) =~= displays_of(all.take(i), m2) + (
                    if all[i].mount_id == m2 {
                        seq![all[i]]
                    } else {
                        Seq::<MountXDisplayEntry>::empty()
                    }));
                }
                assert forall|m2: u32| #[trigger] by_mount_id@.contains_key(m2) implies by_mount_id@[m2]@
                    == displays_of(all.take(i + 1), m2) by {
                    assert(displays_of(all.take(i + 1), m2) =~= displays_of(all.take(i), m2) + (
                    if all[i].mount_id == m2 {
                        seq![all[i]]
                    } else {
                        Seq::<MountXDisplayEntry>::empty()
                    }));
                }
            }
        }
        proof {
            assert(all.take(all.len() as int) =~= all);
        }
        MountXDisplayStore { by_id, by_mount_id }
    }

    /// Builds the store from the rows of MountXDisplay.db2.
    pub fn load(rows: Vec<MountXDisplayEntry>) -> (s: Self)
        ensures
            s@.0 == index_by_key(rows@),
            forall|m: u32| #[trigger] s@.1.contains_key(m) <==> displays_of(rows@, m).len() > 0,
            forall|m: u32| #[trigger] s@.1.contains_key(m) ==> s@.1[m] == displays_of(rows@, m),
    {
        Self::from_entries(rows)
    }

    /// Groups all stored rows by mount again, taking them in the map's
    /// iteration order.
    fn rebuild_mount_index(&mut self)
        ensures
            final(self)@.0 == old(self)@.0,
            exists|vs: Seq<&MountXDisplayEntry>| #[trigger] lists_all_values(final(self)@.0, vs) && ({
                let es = vs.map_values(|e: &MountXDisplayEntry| *e);
                &&& forall|m: u32| #[trigger] final(self)@.1.contains_key(m) <==> displays_of(es, m).len() > 0
                &&& forall|m: u32| #[trigger] final(self)@.1.contains_key(m) ==> final(self)@.1[m] == displays_of(es, m)
            }),
    {
        let values = all_values_copied(&self.by_id);
        let ghost vals = values@;
        let rebuilt = Self::from_entries(values);
        let ghost rb = rebuilt@;
        self.by_mount_id = rebuilt.by_mount_id;
        proof {
            let vs = choose|vs: Seq<&MountXDisplayEntry>| #[trigger] lists_all_values(self.by_id@, vs)
                && vals == vs.map_values(|e: &MountXDisplayEntry| *e);
            assert(self@.1 == rb.1);
            assert(lists_all_values(self@.0, vs));
        }
    }

    /// Applies hotfix rows, each replacing the row with its id, then groups
    /// all stored rows by mount again, taking them in the map's iteration
    /// order; gives the number of rows.
    pub fn load_hotfix_rows(&mut self, rows: Vec<MountXDisplayEntry>) -> (n: usize)
        ensures
            n == rows@.len(),
            final(self)@.0 == old(self)@.0.union_prefer_right(index_by_key(rows@)),
            exists|vs: Seq<&MountXDisplayEntry>| #[trigger] lists_all_values(final(self)@.0, vs) && ({
                let es = vs.map_values(|e: &MountXDisplayEntry| *e);
                &&& forall|m: u32| #[trigger] final(self)@.1.contains_key(m) <==> displays_of(es, m).len() > 0
                &&& forall|m: u32| #[trigger] final(self)@.1.contains_key(m) ==> final(self)@.1[m] == displays_of(es, m)
            }),
    {
        let n = apply_rows(&mut self.by_id, rows);
        self.rebuild_mount_index();
        n
    }

    pub fn get(&self, id: u32) -> (r: Option<&MountXDisplayEntry>)
        ensures
            r == (if self@.0.contains_key(id) {
                Some(&self@.0[id])
            } else {
                None
            }),
    {
        self.by_id.get(&id)
    }

    /// The display rows of a mount, in table order; none when it has none.
    pub fn displays_for_mount_like_cpp(&self, mount_id: u32) -> (r: Option<&[MountXDisplayEntry]>)
        ensures
            r matches Some(s) ==> self@.1.contains_key(mount_id) && s@ == self@.1[mount_id] && s@.len()
                > 0,
            r is None ==> !self@.1.contains_key(mount_id) || self@.1[mount_id].len() == 0,
    {
        match self.by_mount_id.get(&mount_id) {
            Some(v) => {
                if v.len() == 0 {
                    None
                } else {
                    Some(v.as_slice())
                }
            },
            None => None,
        }
    }

    pub fn len(&self) -> (n: usize)
        ensures
            n == self@.0.len(),
    {
        self.by_id.len()
    }

    pub fn is_empty(&self) -> (b: bool)
        ensures
            b == self@.0.is_empty(),
    {
        self.by_id.is_empty()
    }
}

/// What a usable capability asks of the rider: enough riding skill; area
/// flags that allow its kinds of movement (ground 0x1, flying 0x2, surface
/// 0x4, underwater 0x8) unless it ignores restrictions (0x20); the medium the
/// rider is in; the required map, area, aura and spell. A capability meeting
/// all of these is usable.
pub proof fn lemma_usable_capability_requirements<A: Fn(u16) -> bool, H: Fn(u32) -> bool, S: Fn(i32) -> bool>(
    c: MountCapabilityEntry,
    ctx: MountCapabilityContextLikeCpp,
    area_matches: A,
    has_aura: H,
    has_spell: S,
)
    ensures
        capability_usable(c, ctx, area_matches, has_aura, has_spell) <==> {
            &&& c.req_riding_skill <= ctx.riding_skill
            &&& (c.flags & 0x20 != 0 || {
                &&& (c.flags & 0x1 != 0 ==> ctx.mount_flags & 0x1 != 0)
                &&& (c.flags & 0x2 != 0 ==> ctx.mount_flags & 0x2 != 0)
                &&& (c.flags & 0x4 != 0 ==> ctx.mount_flags & 0x4 != 0)
                &&& (c.flags & 0x8 != 0 ==> ctx.mount_flags & 0x8 != 0)
            })
            &&& (!ctx.is_submerged && !ctx.is_in_water ==> c.flags & 0x1 != 0)
            &&& (!ctx.is_submerged && ctx.is_in_water ==> c.flags & 0x4 != 0)
            &&& (ctx.is_submerged && ctx.is_in_water ==> c.flags & 0x8 != 0)
            &&& (ctx.is_submerged && !ctx.is_in_water ==> c.flags & 0x4 != 0)
            &&& (c.req_map_id != -1 ==> (ctx.map_id == c.req_map_id || ctx.cosmetic_parent_map_id == c.req_map_id
                || ctx.parent_map_id == c.req_map_id))
            &&& (c.req_area_id != 0 ==> holds(area_matches, c.req_area_id))
            &&& (c.req_spell_aura_id != 0 ==> holds(has_aura, c.req_spell_aura_id))
            &&& (c.req_spell_known_id != 0 ==> holds(has_spell, c.req_spell_known_id))
        },
{
}

} // verus!
