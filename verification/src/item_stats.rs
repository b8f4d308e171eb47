//! Item stat modifiers and the sparse item template subset, decoded from the
//! raw records of the sparse item table.
//!
//! The sparse item records store their string fields inline, so a record is
//! decoded by walking its fields in order: a string field runs to its NUL
//! terminator, every other field has a fixed byte width.
use std::collections::HashMap;
use vstd::prelude::*;
use vstd::std_specs::iter::IteratorSpec;
use crate::db2_index::{map_from_pairs, pairs_to_map};

verus! {

broadcast use vstd::std_specs::hash::group_hash_axioms;

/// Item stat modifier kinds that the stat sums know of.
#[derive(Debug, Clone, Copy, PartialEq, Eq, Structural)]
pub enum ItemModType {
    Unused,
    Mana,
    Health,
    Agility,
    Strength,
    Intellect,
    Spirit,
    Stamina,
    DefenseSkillRating,
    DodgeRating,
    ParryRating,
    BlockRating,
    HitMeleeRating,
    CritMeleeRating,
    CritRangedRating,
    CritSpellRating,
    HitRating,
    CritRating,
    HasteRating,
    AttackPower,
    RangedAttackPower,
    SpellPower,
    ArmorPenetrationRating,
    ExpertiseRating,
}

/// The stat type code that a record stores for each modifier kind.
pub open spec fn mod_type_code(t: ItemModType) -> i8 {
    match t {
        ItemModType::Unused => -1i8,
        ItemModType::Mana => 0i8,
        ItemModType::Health => 1i8,
        ItemModType::Agility => 3i8,
        ItemModType::Strength => 4i8,
        ItemModType::Intellect => 5i8,
        ItemModType::Spirit => 6i8,
        ItemModType::Stamina => 7i8,
        ItemModType::DefenseSkillRating => 12i8,
        ItemModType::DodgeRating => 13i8,
        ItemModType::ParryRating => 14i8,
        ItemModType::BlockRating => 15i8,
        ItemModType::HitMeleeRating => 16i8,
        ItemModType::CritMeleeRating => 19i8,
        ItemModType::CritRangedRating => 20i8,
        ItemModType::CritSpellRating => 21i8,
        ItemModType::HitRating => 31i8,
        ItemModType::CritRating => 32i8,
        ItemModType::HasteRating => 36i8,
        ItemModType::AttackPower => 38i8,
        ItemModType::RangedAttackPower => 39i8,
        ItemModType::SpellPower => 45i8,
        ItemModType::ArmorPenetrationRating => 44i8,
        ItemModType::ExpertiseRating => 37i8,
    }
}

impl ItemModType {
    /// The stat type code of this kind.
    pub fn code(self) -> (c: i8)
        ensures
            c == mod_type_code(self),
    {
        match self {
            ItemModType::Unused => -1,
            ItemModType::Mana => 0,
            ItemModType::Health => 1,
            ItemModType::Agility => 3,
            ItemModType::Strength => 4,
            ItemModType::Intellect => 5,
            ItemModType::Spirit => 6,
            ItemModType::Stamina => 7,
            ItemModType::DefenseSkillRating => 12,
            ItemModType::DodgeRating => 13,
            ItemModType::ParryRating => 14,
            ItemModType::BlockRating => 15,
            ItemModType::HitMeleeRating => 16,
            ItemModType::CritMeleeRating => 19,
            ItemModType::CritRangedRating => 20,
            ItemModType::CritSpellRating => 21,
            ItemModType::HitRating => 31,
            ItemModType::CritRating => 32,
            ItemModType::HasteRating => 36,
            ItemModType::AttackPower => 38,
            ItemModType::RangedAttackPower => 39,
            ItemModType::SpellPower => 45,
            ItemModType::ArmorPenetrationRating => 44,
            ItemModType::ExpertiseRating => 37,
        }
    }
}

/// Stat modifiers for a single item.
#[derive(Debug, Clone, Copy, PartialEq, Eq)]
pub struct ItemStatEntry {
    /// Ten stat modifier slots of (stat type, bonus amount); type -1 marks an
    /// unused slot.
    pub stats: [(i8, i16); 10],
    /// Physical armor (the first resistance).
    pub armor: i32,
}

/// Sum of the amounts of the slots whose stat type is `t`.
pub open spec fn amount_of_type(stats: Seq<(i8, i16)>, t: i8) -> int
    decreases stats.len(),
{
    if stats.len() == 0 {
        0
    } else {
        amount_of_type(stats.drop_last(), t) + if stats.last().0 == t {
            stats.last().1 as int
        } else {
            0
        }
    }
}

/// Whether a slot of stat type `t` counts toward combat rating `idx`.
///
/// The unified hit, crit and haste ratings count toward their melee, ranged
/// and spell ratings alike.
pub open spec fn feeds_rating(t: i8, idx: int) -> bool {
    if idx == 1 {
        t == 12
    } else if idx == 2 {
        t == 13
    } else if idx == 3 {
        t == 14
    } else if idx == 4 {
        t == 15
    } else if idx == 5 {
        t == 16 || t == 31
    } else if idx == 6 || idx == 7 {
        t == 31
    } else if idx == 8 {
        t == 19 || t == 32
    } else if idx == 9 {
        t == 20 || t == 32
    } else if idx == 10 {
        t == 21 || t == 32
    } else if 17 <= idx <= 19 {
        t == 36
    } else if idx == 23 {
        t == 37
    } else if idx == 24 {
        t == 44
    } else {
        false
    }
}

/// Sum of the amounts of the slots that count toward combat rating `idx`.
pub open spec fn rating_total(stats: Seq<(i8, i16)>, idx: int) -> int
    decreases stats.len(),
{
    if stats.len() == 0 {
        0
    } else {
        rating_total(stats.drop_last(), idx) + if feeds_rating(stats.last().0, idx) {
            stats.last().1 as int
        } else {
            0
        }
    }
}

/// Whether some slot has a real stat type and a non-zero amount.
pub open spec fn has_real_stat(stats: Seq<(i8, i16)>) -> bool {
    exists|i: int| 0 <= i < stats.len() && stats[i].0 != -1 && stats[i].1 != 0
}

proof fn lemma_amount_bound(stats: Seq<(i8, i16)>, t: i8)
    ensures
        -32768 * stats.len() <= amount_of_type(stats, t) <= 32767 * stats.len(),
    decreases stats.len(),
{
    if stats.len() > 0 {
        lemma_amount_bound(stats.drop_last(), t);
    }
}

impl ItemStatEntry {
    /// Sum of the amounts of the slots of stat type `t`.
    fn total_of_type(&self, t: i8) -> (r: i32)
        ensures
            r == amount_of_type(self.stats@, t),
    {
        let mut sum: i32 = 0;
        let mut i: usize = 0;
        while i < 10
            invariant
                i <= 10,
                self.stats@.len() == 10,
                sum == amount_of_type(self.stats@.take(i as int), t),
                -32768 * i <= sum <= 32767 * i,
            decreases 10 - i,
        {
            let (st, amount) = self.stats[i];
            proof {
                assert(self.stats@.take(i + 1).drop_last() == self.stats@.take(i as int));
            }
            if st == t {
                sum = sum + amount as i32;
            }
            i = i + 1;
        }
        proof {
            assert(self.stats@.take(10) == self.stats@);
        }
        sum
    }

    /// Base stat bonuses in the order strength, agility, stamina, intellect,
    /// spirit.
    pub fn base_stat_bonuses(&self) -> (r: [i32; 5])
        ensures
            r[0] == amount_of_type(self.stats@, 4),
            r[1] == amount_of_type(self.stats@, 3),
            r[2] == amount_of_type(self.stats@, 7),
            r[3] == amount_of_type(self.stats@, 5),
            r[4] == amount_of_type(self.stats@, 6),
    {
        [
            self.total_of_type(4),
            self.total_of_type(3),
            self.total_of_type(7),
            self.total_of_type(5),
            self.total_of_type(6),
        ]
    }

    /// Total attack power bonus.
    pub fn attack_power_bonus(&self) -> (r: i32)
        ensures
            r == amount_of_type(self.stats@, 38),
    {
        self.total_of_type(38)
    }

    /// Total ranged attack power bonus.
    pub fn ranged_attack_power_bonus(&self) -> (r: i32)
        ensures
            r == amount_of_type(self.stats@, 39),
    {
        self.total_of_type(39)
    }

    /// Total health bonus.
    pub fn health_bonus(&self) -> (r: i32)
        ensures
            r == amount_of_type(self.stats@, 1),
    {
        self.total_of_type(1)
    }

    /// Total mana bonus.
    pub fn mana_bonus(&self) -> (r: i32)
        ensures
            r == amount_of_type(self.stats@, 0),
    {
        self.total_of_type(0)
    }

    /// Total spell power bonus.
    pub fn spell_power_bonus(&self) -> (r: i32)
        ensures
            r == amount_of_type(self.stats@, 45),
    {
        self.total_of_type(45)
    }

    /// Combat rating bonuses, indexed by combat rating.
    pub fn combat_rating_bonuses(&self) -> (cr: [i32; 25])
        ensures
            forall|idx: int| 0 <= idx < 25 ==> #[trigger] cr[idx] == rating_total(self.stats@, idx),
    {
        let mut cr = [0i32; 25];
        let mut i: usize = 0;
        while i < 10
            invariant
                i <= 10,
                self.stats@.len() == 10,
                forall|idx: int| 0 <= idx < 25 ==> #[trigger] cr[idx] == rating_total(
                    self.stats@.take(i as int),
                    idx,
                ),
                forall|idx: int| 0 <= idx < 25 ==> -32768 * i <= #[trigger] cr[idx] <= 32767 * i,
            decreases 10 - i,
        {
            let (st, amount) = self.stats[i];
            let a = amount as i32;
            let ghost before = cr@;
            proof {
                assert(self.stats@.take(i + 1).drop_last() == self.stats@.take(i as int));
                assert(self.stats@.take(i + 1).last() == (st, amount));
            }
            match st {
                12 => { cr[1] = cr[1] + a; },
                13 => { cr[2] = cr[2] + a; },
                14 => { cr[3] = cr[3] + a; },
                15 => { cr[4] = cr[4] + a; },
                16 => { cr[5] = cr[5] + a; },
                19 => { cr[8] = cr[8] + a; },
                20 => { cr[9] = cr[9] + a; },
                21 => { cr[10] = cr[10] + a; },
                31 => {
                    cr[5] = cr[5] + a;
                    cr[6] = cr[6] + a;
                    cr[7] = cr[7] + a;
                },
                32 => {
                    cr[8] = cr[8] + a;
                    cr[9] = cr[9] + a;
                    cr[10] = cr[10] + a;
                },
                36 => {
                    cr[17] = cr[17] + a;
                    cr[18] = cr[18] + a;
                    cr[19] = cr[19] + a;
                },
                37 => { cr[23] = cr[23] + a; },
                44 => { cr[24] = cr[24] + a; },
                _ => {},
            }
            proof {
                assert forall|idx: int| 0 <= idx < 25 implies #[trigger] cr[idx] == rating_total(
                    self.stats@.take(i + 1),
                    idx,
                ) && -32768 * (i + 1) <= cr[idx] <= 32767 * (i + 1) by {
                    assert(cr[idx] == before[idx] + if feeds_rating(st, idx) {
                        a as int
                    } else {
                        0
                    });
                }
            }
            i = i + 1;
        }
        proof {
            assert(self.stats@.take(10) == self.stats@);
        }
        cr
    }

    /// Whether at least one slot has a real stat type and a non-zero amount.
    pub fn has_stats(&self) -> (r: bool)
        ensures
            r == has_real_stat(self.stats@),
    {
        let mut i: usize = 0;
        while i < 10
            invariant
                i <= 10,
                self.stats@.len() == 10,
                forall|j: int| 0 <= j < i ==> !(self.stats@[j].0 != -1 && self.stats@[j].1 != 0),
            decreases 10 - i,
        {
            let (st, amount) = self.stats[i];
            if st != -1 && amount != 0 {
                return true;
            }
            i = i + 1;
        }
        false
    }
}

/// The sparse item template fields that entity templates are built from.
///
/// The two price factors are single-precision floats; they are kept as their
/// IEEE-754 bit patterns.
#[derive(Debug, Clone, Copy, PartialEq, Eq)]
pub struct ItemSparseTemplateEntry {
    pub flags: [u32; 4],
    pub bag_family: u32,
    pub start_quest_id: i32,
    pub stackable: i32,
    pub max_count: i32,
    pub lock_id: u16,
    pub required_reputation_rank: i32,
    pub sell_price: u32,
    pub buy_price: u32,
    pub vendor_stack_count: u32,
    pub price_variance: u32,
    pub price_random_value: u32,
    pub max_durability: u32,
    pub other_faction_item_id: i32,
    pub content_tuning_id: i32,
    pub player_level_to_item_level_curve_id: i32,
    pub limit_category: u16,
    pub instance_bound: u16,
    pub zone_bound: [u16; 2],
    pub required_reputation_faction: u16,
    pub allowable_class: i16,
    pub required_expansion: u8,
    pub bonding: u8,
    pub container_slots: u8,
    pub inventory_type: i8,
}

/// The sparse item fields used when generating random properties.
#[derive(Debug, Clone, Copy, PartialEq, Eq)]
pub struct ItemRandomPropertyTemplateEntry {
    pub item_level: u16,
    pub quality: i8,
    pub inventory_type: i8,
}

/// The stack size meaning "no limit".
pub const UNLIMITED_STACK_SIZE: u32 = 0x7FFF_FFFE;

/// The `u32` with the same bits as `v`.
pub open spec fn i32_bits(v: i32) -> u32 {
    if v >= 0 {
        v as u32
    } else {
        (v + 0x1_0000_0000) as u32
    }
}

/// Reinterprets the bits of `v` as a `u32`.
pub fn to_u32_bits(v: i32) -> (r: u32)
    ensures
        r == i32_bits(v),
{
    if v >= 0 {
        v as u32
    } else {
        ((v + 1 + 0x7FFF_FFFF) as u32) + 0x8000_0000
    }
}

impl ItemSparseTemplateEntry {
    /// The largest stack of this item: the stackable count, or
    /// [`UNLIMITED_STACK_SIZE`] where that count is not positive or is
    /// `i32::MAX`.
    pub fn max_stack_size(&self) -> (r: u32)
        ensures
            r == (if self.stackable == i32::MAX || self.stackable <= 0 {
                UNLIMITED_STACK_SIZE
            } else {
                self.stackable as u32
            }),
    {
        if self.stackable == i32::MAX || self.stackable <= 0 {
            UNLIMITED_STACK_SIZE
        } else {
            self.stackable as u32
        }
    }

    /// The item flag bits (the first flag word).
    pub fn item_flags(&self) -> (r: u64)
        ensures
            r == self.flags[0],
    {
        self.flags[0] as u64
    }

    /// The item of the other faction, as an unsigned id.
    pub fn other_faction_item_id_like_cpp(&self) -> (r: u32)
        ensures
            r == i32_bits(self.other_faction_item_id),
    {
        to_u32_bits(self.other_faction_item_id)
    }

    /// The content tuning that scales this item's stats, as an unsigned id.
    pub fn scaling_stat_content_tuning_like_cpp(&self) -> (r: u32)
        ensures
            r == i32_bits(self.content_tuning_id),
    {
        to_u32_bits(self.content_tuning_id)
    }

    /// The player-level-to-item-level curve, as an unsigned id.
    pub fn player_level_to_item_level_curve_id_like_cpp(&self) -> (r: u32)
        ensures
            r == i32_bits(self.player_level_to_item_level_curve_id),
    {
        to_u32_bits(self.player_level_to_item_level_curve_id)
    }
}

/// Number of fields of a sparse item record.
pub const SPARSE_FIELD_COUNT: usize = 73;

/// Whether field `fi` is an inline NUL-terminated string.
pub open spec fn field_is_string(fi: int) -> bool {
    1 <= fi <= 5
}

/// Byte width of the fixed-width field `fi`.
pub open spec fn field_width(fi: int) -> int {
    if fi == 0 {
        8
    } else if 1 <= fi <= 5 {
        0
    } else if fi <= 11 {
        4
    } else if fi == 12 || fi == 13 {
        40
    } else if fi <= 22 {
        4
    } else if fi == 23 {
        16
    } else if fi <= 28 {
        4
    } else if fi <= 36 {
        2
    } else if fi == 37 {
        4
    } else if fi <= 48 {
        2
    } else if fi == 49 || fi == 50 {
        10
    } else if fi == 51 {
        14
    } else if fi == 52 {
        2
    } else if fi == 53 {
        20
    } else if fi <= 57 {
        1
    } else if fi == 58 {
        3
    } else if fi <= 64 {
        1
    } else if fi == 65 {
        10
    } else {
        1
    }
}

/// The layout of field `fi`: its byte width and whether it is a string.
fn field_layout(fi: usize) -> (r: (u8, bool))
    requires
        fi < SPARSE_FIELD_COUNT,
    ensures
        r.0 == field_width(fi as int),
        r.1 == field_is_string(fi as int),
{
    if fi == 0 {
        (8, false)
    } else if fi <= 5 {
        (0, true)
    } else if fi <= 11 {
        (4, false)
    } else if fi <= 13 {
        (40, false)
    } else if fi <= 22 {
        (4, false)
    } else if fi == 23 {
        (16, false)
    } else if fi <= 28 {
        (4, false)
    } else if fi <= 36 {
        (2, false)
    } else if fi == 37 {
        (4, false)
    } else if fi <= 48 {
        (2, false)
    } else if fi <= 50 {
        (10, false)
    } else if fi == 51 {
        (14, false)
    } else if fi == 52 {
        (2, false)
    } else if fi == 53 {
        (20, false)
    } else if fi <= 57 {
        (1, false)
    } else if fi == 58 {
        (3, false)
    } else if fi <= 64 {
        (1, false)
    } else if fi == 65 {
        (10, false)
    } else {
        (1, false)
    }
}

/// The first position at or after `p` that holds a NUL byte, or the end of
/// the record.
pub open spec fn nul_at_or_after(r: Seq<u8>, p: int) -> int
    decreases r.len() - p,
{
    if p < 0 || p >= r.len() {
        p
    } else if r[p] == 0 {
        p
    } else {
        nul_at_or_after(r, p + 1)
    }
}

/// The position just past an inline string that starts at `p`: past its NUL
/// terminator, or the end of the record when the string is unterminated.
pub open spec fn past_string(r: Seq<u8>, p: int) -> int {
    let z = nul_at_or_after(r, p);
    if z < r.len() {
        z + 1
    } else {
        z
    }
}

/// The position at which field `fi` of record `r` starts.
pub open spec fn field_offset(r: Seq<u8>, fi: nat) -> int
    decreases fi,
{
    if fi == 0 {
        0
    } else {
        let p = field_offset(r, (fi - 1) as nat);
        if field_is_string(fi - 1) {
            past_string(r, p)
        } else {
            p + field_width(fi - 1)
        }
    }
}

proof fn lemma_nul_at_or_after_bound(r: Seq<u8>, p: int)
    requires
        0 <= p,
    ensures
        p <= nul_at_or_after(r, p),
        nul_at_or_after(r, p) <= if p > r.len() { p } else { r.len() as int },
    decreases r.len() - p,
{
    if p < r.len() && r[p] != 0 {
        lemma_nul_at_or_after_bound(r, p + 1);
    }
}

proof fn lemma_field_offset_bound(r: Seq<u8>, fi: nat)
    ensures
        0 <= field_offset(r, fi) <= r.len() + 64 * fi,
    decreases fi,
{
    if fi > 0 {
        let p = field_offset(r, (fi - 1) as nat);
        lemma_field_offset_bound(r, (fi - 1) as nat);
        if field_is_string(fi - 1) {
            lemma_nul_at_or_after_bound(r, p);
        }
    }
}

/// The start position of every field of `record`, and one past the last.
fn field_offsets(record: &Vec<u8>) -> (offs: Vec<usize>)
    requires
        record.len() + 64 * SPARSE_FIELD_COUNT <= usize::MAX,
    ensures
        offs.len() == SPARSE_FIELD_COUNT + 1,
        forall|fi: int| 0 <= fi <= SPARSE_FIELD_COUNT ==> #[trigger] offs[fi] == field_offset(
            record@,
            fi as nat,
        ),
{
    let len = record.len();
    let mut offs: Vec<usize> = Vec::new();
    let mut pos: usize = 0;
    let mut fi: usize = 0;
    while fi < SPARSE_FIELD_COUNT
        invariant
            fi <= SPARSE_FIELD_COUNT,
            len == record.len(),
            len + 64 * SPARSE_FIELD_COUNT <= usize::MAX,
            offs.len() == fi,
            pos == field_offset(record@, fi as nat),
            forall|j: int| 0 <= j < fi ==> #[trigger] offs[j] == field_offset(record@, j as nat),
        decreases SPARSE_FIELD_COUNT - fi,
    {
        proof {
            lemma_field_offset_bound(record@, fi as nat);
        }
        offs.push(pos);
        let (width, is_string) = field_layout(fi);
        if is_string {
            let ghost start = pos as int;
            while pos < len && record[pos] != 0
                invariant
                    len == record.len(),
                    start <= pos,
                    nul_at_or_after(record@, pos as int) == nul_at_or_after(record@, start),
                decreases len - pos,
            {
                pos = pos + 1;
            }
            if pos < len {
                pos = pos + 1;
            }
        } else {
            pos = pos + width as usize;
        }
        fi = fi + 1;
    }
    proof {
        lemma_field_offset_bound(record@, fi as nat);
    }
    offs.push(pos);
    offs
}

/// Whether a record is short enough for its field positions to be counted in
/// a `usize`.
pub open spec fn record_fits(r: Seq<u8>) -> bool {
    r.len() + 8192 <= usize::MAX
}

/// The start position of field `fi` of record `r`.
pub open spec fn off(r: Seq<u8>, fi: int) -> int {
    field_offset(r, fi as nat)
}

/// `offs` holds the start position of every field of `r`.
pub open spec fn offsets_of(offs: Seq<usize>, r: Seq<u8>) -> bool {
    &&& offs.len() == SPARSE_FIELD_COUNT + 1
    &&& forall|fi: int| 0 <= fi <= SPARSE_FIELD_COUNT ==> #[trigger] offs[fi] == off(r, fi)
    &&& forall|fi: int| 0 <= fi <= SPARSE_FIELD_COUNT ==> offs[fi] + 64 <= usize::MAX
}

/// The little-endian 16-bit value at `o`.
pub open spec fn le_u16(r: Seq<u8>, o: int) -> int {
    r[o] + 256 * r[o + 1]
}

/// The little-endian 32-bit value at `o`.
pub open spec fn le_u32(r: Seq<u8>, o: int) -> int {
    r[o] + 256 * r[o + 1] + 65536 * r[o + 2] + 16777216 * r[o + 3]
}

/// The two's complement value of the byte `b`.
pub open spec fn signed8(b: int) -> int {
    if b >= 0x80 {
        b - 0x100
    } else {
        b
    }
}

/// The two's complement value of the 16-bit word `u`.
pub open spec fn signed16(u: int) -> int {
    if u >= 0x8000 {
        u - 0x1_0000
    } else {
        u
    }
}

/// The two's complement value of the 32-bit word `u`.
pub open spec fn signed32(u: int) -> int {
    if u >= 0x8000_0000 {
        u - 0x1_0000_0000
    } else {
        u
    }
}

fn read_u16(record: &Vec<u8>, o: usize) -> (v: u16)
    requires
        o + 2 <= record.len(),
    ensures
        v == le_u16(record@, o as int),
{
    record[o] as u16 + (record[o + 1] as u16) * 256
}

fn read_u32(record: &Vec<u8>, o: usize) -> (v: u32)
    requires
        o + 4 <= record.len(),
    ensures
        v == le_u32(record@, o as int),
{
    record[o] as u32 + (record[o + 1] as u32) * 256 + (record[o + 2] as u32) * 65536 + (record[o
        + 3] as u32) * 16777216
}

fn read_i16(record: &Vec<u8>, o: usize) -> (v: i16)
    requires
        o + 2 <= record.len(),
    ensures
        v == signed16(le_u16(record@, o as int)),
{
    let u = read_u16(record, o);
    if u < 0x8000 {
        u as i16
    } else {
        ((u - 0x8000) as i16) + i16::MIN
    }
}

fn read_i32(record: &Vec<u8>, o: usize) -> (v: i32)
    requires
        o + 4 <= record.len(),
    ensures
        v == signed32(le_u32(record@, o as int)),
{
    let u = read_u32(record, o);
    if u < 0x8000_0000 {
        u as i32
    } else {
        ((u - 0x8000_0000) as i32) + i32::MIN
    }
}

fn read_i8(record: &Vec<u8>, o: usize) -> (v: i8)
    requires
        o < record.len(),
    ensures
        v == signed8(record@[o as int] as int),
{
    let b = record[o];
    if b < 0x80 {
        b as i8
    } else {
        ((b - 0x80) as i8) + i8::MIN
    }
}

/// Whether the ten stat types and the ten stat amounts lie inside `r`.
pub open spec fn stat_slots_present(r: Seq<u8>) -> bool {
    off(r, 53) + 20 <= r.len() && off(r, 65) + 10 <= r.len()
}

/// Whether the four flag words lie inside `r`.
pub open spec fn flags_present(r: Seq<u8>) -> bool {
    off(r, 23) + 16 <= r.len()
}

/// Whether every field of the sparse template lies inside `r`.
pub open spec fn sparse_fields_present(r: Seq<u8>) -> bool {
    &&& off(r, 9) + 4 <= r.len()
    &&& off(r, 10) + 4 <= r.len()
    &&& off(r, 14) + 4 <= r.len()
    &&& off(r, 15) + 4 <= r.len()
    &&& off(r, 39) + 2 <= r.len()
    &&& off(r, 16) + 4 <= r.len()
    &&& off(r, 18) + 4 <= r.len()
    &&& off(r, 19) + 4 <= r.len()
    &&& off(r, 20) + 4 <= r.len()
    &&& off(r, 21) + 4 <= r.len()
    &&& off(r, 22) + 4 <= r.len()
    &&& off(r, 23) + 16 <= r.len()
    &&& off(r, 24) + 4 <= r.len()
    &&& off(r, 26) + 4 <= r.len()
    &&& off(r, 27) + 4 <= r.len()
    &&& off(r, 28) + 4 <= r.len()
    &&& off(r, 32) + 2 <= r.len()
    &&& off(r, 36) + 2 <= r.len()
    &&& off(r, 37) + 4 <= r.len()
    &&& off(r, 42) + 2 <= r.len()
    &&& off(r, 48) + 2 <= r.len()
    &&& off(r, 54) < r.len()
    &&& off(r, 63) < r.len()
    &&& off(r, 66) < r.len()
    &&& off(r, 69) < r.len()
}

/// Whether the item level, inventory type and quality lie inside `r`.
pub open spec fn random_fields_present(r: Seq<u8>) -> bool {
    off(r, 43) + 2 <= r.len() && off(r, 69) < r.len() && off(r, 70) < r.len()
}

/// The physical armor of `r`: its first resistance, or 0 where that lies
/// outside the record.
pub open spec fn record_armor(r: Seq<u8>) -> int {
    if off(r, 51) + 2 <= r.len() {
        signed16(le_u16(r, off(r, 51)))
    } else {
        0
    }
}

/// The stat type of slot `k` of `r`.
pub open spec fn slot_type(r: Seq<u8>, k: int) -> int {
    signed8(r[off(r, 65) + k] as int)
}

/// The stat amount of slot `k` of `r`.
pub open spec fn slot_amount(r: Seq<u8>, k: int) -> int {
    signed16(le_u16(r, off(r, 53) + 2 * k))
}

/// Whether `r` gives its item any stat: positive armor, or a slot with a real
/// stat type and a non-zero amount.
pub open spec fn record_has_stats(r: Seq<u8>) -> bool {
    record_armor(r) > 0 || exists|k: int| 0 <= k < 10 && slot_type(r, k) != -1 && slot_amount(r, k) != 0
}

/// `f` holds the four flag words of `r`.
pub open spec fn flags_match(f: Seq<u32>, r: Seq<u8>) -> bool {
    f.len() == 4 && forall|k: int| 0 <= k < 4 ==> #[trigger] f[k] == le_u32(r, off(r, 23) + 4 * k)
}

/// `e` holds the stat slots and the armor of `r`.
pub open spec fn stat_entry_matches(e: ItemStatEntry, r: Seq<u8>) -> bool {
    &&& e.armor == record_armor(r)
    &&& forall|k: int| 0 <= k < 10 ==> (#[trigger] e.stats@[k]).0 == slot_type(r, k) && e.stats@[k].1
        == slot_amount(r, k)
}

/// `t` holds the sparse template fields of `r`.
pub open spec fn sparse_template_matches(t: ItemSparseTemplateEntry, r: Seq<u8>) -> bool {
    &&& flags_match(t.flags@, r)
    &&& t.bag_family == le_u32(r, off(r, 9))
    &&& t.start_quest_id == signed32(le_u32(r, off(r, 10)))
    &&& t.stackable == signed32(le_u32(r, off(r, 14)))
    &&& t.max_count == signed32(le_u32(r, off(r, 15)))
    &&& t.lock_id == le_u16(r, off(r, 39))
    &&& t.required_reputation_rank == signed32(le_u32(r, off(r, 16)))
    &&& t.sell_price == le_u32(r, off(r, 18))
    &&& t.buy_price == le_u32(r, off(r, 19))
    &&& t.vendor_stack_count == le_u32(r, off(r, 20))
    &&& t.price_variance == le_u32(r, off(r, 21))
    &&& t.price_random_value == le_u32(r, off(r, 22))
    &&& t.other_faction_item_id == signed32(le_u32(r, off(r, 24)))
    &&& t.content_tuning_id == signed32(le_u32(r, off(r, 26)))
    &&& t.player_level_to_item_level_curve_id == signed32(le_u32(r, off(r, 27)))
    &&& t.max_durability == le_u32(r, off(r, 28))
    &&& t.limit_category == le_u16(r, off(r, 32))
    &&& t.instance_bound == le_u16(r, off(r, 36))
    &&& t.zone_bound[0] == le_u16(r, off(r, 37))
    &&& t.zone_bound[1] == le_u16(r, off(r, 37) + 2)
    &&& t.required_reputation_faction == le_u16(r, off(r, 42))
    &&& t.allowable_class == signed16(le_u16(r, off(r, 48)))
    &&& t.required_expansion == r[off(r, 54)]
    &&& t.bonding == r[off(r, 63)]
    &&& t.container_slots == r[off(r, 66)]
    &&& t.inventory_type == signed8(r[off(r, 69)] as int)
}

/// `t` holds the random-property fields of `r`.
pub open spec fn random_property_matches(t: ItemRandomPropertyTemplateEntry, r: Seq<u8>) -> bool {
    &&& t.item_level == le_u16(r, off(r, 43))
    &&& t.quality == signed8(r[off(r, 70)] as int)
    &&& t.inventory_type == signed8(r[off(r, 69)] as int)
}

fn decode_flags(record: &Vec<u8>, offs: &Vec<usize>) -> (f: [u32; 4])
    requires
        offsets_of(offs@, record@),
        flags_present(record@),
    ensures
        flags_match(f@, record@),
{
    let o = offs[23];
    let f = [read_u32(record, o), read_u32(record, o + 4), read_u32(record, o + 8), read_u32(record, o + 12)];
    proof {
        assert(f@.len() == 4);
        assert forall|k: int| 0 <= k < 4 implies #[trigger] f@[k] == le_u32(record@, off(record@, 23) + 4 * k) by {
            if k == 0 {
            } else if k == 1 {
            } else if k == 2 {
            } else {
            }
        }
    }
    f
}

fn decode_stat_entry(record: &Vec<u8>, offs: &Vec<usize>) -> (e: ItemStatEntry)
    requires
        offsets_of(offs@, record@),
        stat_slots_present(record@),
    ensures
        stat_entry_matches(e, record@),
{
    let ghost r = record@;
    let armor: i32 = if offs[51] + 2 <= record.len() {
        read_i16(record, offs[51]) as i32
    } else {
        0
    };
    let type_at = offs[65];
    let amount_at = offs[53];
    let mut stats = [(-1i8, 0i16); 10];
    let mut i: usize = 0;
    while i < 10
        invariant
            i <= 10,
            r == record@,
            type_at == off(r, 65),
            amount_at == off(r, 53),
            stat_slots_present(r),
            type_at + 10 <= record.len(),
            amount_at + 20 <= record.len(),
            forall|k: int| 0 <= k < i ==> (#[trigger] stats@[k]).0 == slot_type(r, k) && stats@[k].1
                == slot_amount(r, k),
        decreases 10 - i,
    {
        let t = read_i8(record, type_at + i);
        let a = read_i16(record, amount_at + 2 * i);
        stats[i] = (t, a);
        i = i + 1;
    }
    ItemStatEntry { stats, armor }
}

/// Whether the slots and armor decoded from `r` give its item any stat.
fn decoded_has_stats(e: &ItemStatEntry, Ghost(r): Ghost<Seq<u8>>) -> (b: bool)
    requires
        stat_entry_matches(*e, r),
    ensures
        b == record_has_stats(r),
{
    let mut has_any = e.armor > 0;
    let mut i: usize = 0;
    while i < 10
        invariant
            i <= 10,
            stat_entry_matches(*e, r),
            has_any == (record_armor(r) > 0 || exists|k: int| 0 <= k < i && slot_type(r, k) != -1 && slot_amount(
                r,
                k,
            ) != 0),
        decreases 10 - i,
    {
        let (t, a) = e.stats[i];
        proof {
            assert(e.stats@[i as int] == (t, a));
        }
        if t != -1 && a != 0 {
            has_any = true;
        }
        i = i + 1;
    }
    has_any
}

fn decode_sparse_template(record: &Vec<u8>, offs: &Vec<usize>, flags: [u32; 4]) -> (t: Option<ItemSparseTemplateEntry>)
    requires
        offsets_of(offs@, record@),
        flags_present(record@) ==> flags_match(flags@, record@),
    ensures
        t is Some <==> sparse_fields_present(record@),
        t matches Some(t) ==> sparse_template_matches(t, record@),
{
    let len = record.len();
    if offs[9] + 4 <= len && offs[10] + 4 <= len && offs[14] + 4 <= len && offs[15] + 4 <= len
        && offs[39] + 2 <= len && offs[16] + 4 <= len && offs[18] + 4 <= len && offs[19] + 4 <= len
        && offs[20] + 4 <= len && offs[21] + 4 <= len && offs[22] + 4 <= len && offs[23] + 16 <= len
        && offs[24] + 4 <= len && offs[26] + 4 <= len && offs[27] + 4 <= len && offs[28] + 4 <= len
        && offs[32] + 2 <= len && offs[36] + 2 <= len && offs[37] + 4 <= len && offs[42] + 2 <= len
        && offs[48] + 2 <= len && offs[54] < len && offs[63] < len && offs[66] < len && offs[69] < len {
        let zone_bound = [read_u16(record, offs[37]), read_u16(record, offs[37] + 2)];
        Some(
            ItemSparseTemplateEntry {
                flags,
                bag_family: read_u32(record, offs[9]),
                start_quest_id: read_i32(record, offs[10]),
                stackable: read_i32(record, offs[14]),
                max_count: read_i32(record, offs[15]),
                lock_id: read_u16(record, offs[39]),
                required_reputation_rank: read_i32(record, offs[16]),
                sell_price: read_u32(record, offs[18]),
                buy_price: read_u32(record, offs[19]),
                vendor_stack_count: read_u32(record, offs[20]),
                price_variance: read_u32(record, offs[21]),
                price_random_value: read_u32(record, offs[22]),
                other_faction_item_id: read_i32(record, offs[24]),
                content_tuning_id: read_i32(record, offs[26]),
                player_level_to_item_level_curve_id: read_i32(record, offs[27]),
                max_durability: read_u32(record, offs[28]),
                limit_category: read_u16(record, offs[32]),
                instance_bound: read_u16(record, offs[36]),
                zone_bound,
                required_reputation_faction: read_u16(record, offs[42]),
                allowable_class: read_i16(record, offs[48]),
                required_expansion: record[offs[54]],
                bonding: record[offs[63]],
                container_slots: record[offs[66]],
                inventory_type: read_i8(record, offs[69]),
            },
        )
    } else {
        None
    }
}

fn decode_random_property(record: &Vec<u8>, offs: &Vec<usize>) -> (t: Option<ItemRandomPropertyTemplateEntry>)
    requires
        offsets_of(offs@, record@),
    ensures
        t is Some <==> random_fields_present(record@),
        t matches Some(t) ==> random_property_matches(t, record@),
{
    let len = record.len();
    if offs[43] + 2 <= len && offs[69] < len && offs[70] < len {
        Some(
            ItemRandomPropertyTemplateEntry {
                item_level: read_u16(record, offs[43]),
                quality: read_i8(record, offs[70]),
                inventory_type: read_i8(record, offs[69]),
            },
        )
    } else {
        None
    }
}

/// The four things a sparse record can give its item.
#[derive(Debug, Clone, Copy, PartialEq, Eq, Structural)]
pub enum SparsePart {
    Flags,
    Template,
    RandomProperty,
    Stats,
}

/// Whether record `r` gives its item the part `part`.
///
/// A record whose stat slots do not lie inside it gives nothing.
pub open spec fn record_gives(part: SparsePart, r: Seq<u8>) -> bool {
    stat_slots_present(r) && match part {
        SparsePart::Flags => flags_present(r),
        SparsePart::Template => sparse_fields_present(r),
        SparsePart::RandomProperty => random_fields_present(r),
        SparsePart::Stats => record_has_stats(r),
    }
}

/// For each item id, the last of `records` with that id that gives `part`.
pub open spec fn records_giving(records: Seq<(u32, Vec<u8>)>, part: SparsePart) -> Map<u32, Seq<u8>>
    decreases records.len(),
{
    if records.len() == 0 {
        Map::empty()
    } else {
        let m = records_giving(records.drop_last(), part);
        if record_gives(part, records.last().1@) {
            m.insert(records.last().0, records.last().1@)
        } else {
            m
        }
    }
}

/// `m` holds, for each record of `src`, the flags that record gives.
pub open spec fn holds_flags_of(m: Map<u32, [u32; 4]>, src: Map<u32, Seq<u8>>) -> bool {
    m.dom() == src.dom() && forall|id: u32| #[trigger] m.contains_key(id) ==> flags_match(m[id]@, src[id])
}

/// `m` holds, for each record of `src`, the sparse template it gives.
pub open spec fn holds_templates_of(m: Map<u32, ItemSparseTemplateEntry>, src: Map<u32, Seq<u8>>) -> bool {
    m.dom() == src.dom() && forall|id: u32| #[trigger] m.contains_key(id) ==> sparse_template_matches(
        m[id],
        src[id],
    )
}

/// `m` holds, for each record of `src`, the random-property fields it gives.
pub open spec fn holds_random_properties_of(
    m: Map<u32, ItemRandomPropertyTemplateEntry>,
    src: Map<u32, Seq<u8>>,
) -> bool {
    m.dom() == src.dom() && forall|id: u32| #[trigger] m.contains_key(id) ==> random_property_matches(
        m[id],
        src[id],
    )
}

/// `m` holds, for each record of `src`, the stat modifiers it gives.
pub open spec fn holds_stats_of(m: Map<u32, ItemStatEntry>, src: Map<u32, Seq<u8>>) -> bool {
    m.dom() == src.dom() && forall|id: u32| #[trigger] m.contains_key(id) ==> stat_entry_matches(m[id], src[id])
}

/// Item stat modifiers and sparse template data, by item id.
pub struct ItemStatsStore {
    stats: HashMap<u32, ItemStatEntry>,
    flags: HashMap<u32, [u32; 4]>,
    sparse_templates: HashMap<u32, ItemSparseTemplateEntry>,
    random_property_templates: HashMap<u32, ItemRandomPropertyTemplateEntry>,
}

/// Builds the sparse templates of `pairs` and, beside them, their flags.
fn templates_with_flags(pairs: Vec<(u32, ItemSparseTemplateEntry)>) -> (r: (
    HashMap<u32, ItemSparseTemplateEntry>,
    HashMap<u32, [u32; 4]>,
))
    ensures
        r.0@ == pairs_to_map(pairs@),
        r.1@.dom() == r.0@.dom(),
        forall|id: u32| #[trigger] r.1@.contains_key(id) ==> r.1@[id] == r.0@[id].flags,
{
    let ghost all = pairs@;
    let mut templates: HashMap<u32, ItemSparseTemplateEntry> = HashMap::new();
    let mut flags: HashMap<u32, [u32; 4]> = HashMap::new();
    for pair in it: pairs
        invariant
            all == it.seq(),
            templates@ == pairs_to_map(all.take(it.index() as int)),
            flags@.dom() == templates@.dom(),
            forall|id: u32| #[trigger] flags@.contains_key(id) ==> flags@[id] == templates@[id].flags,
    {
        proof {
            assert(all.take(it.index() + 1).drop_last() =~= all.take(it.index() as int));
        }
        let (id, template) = pair;
        flags.insert(id, template.flags);
        templates.insert(id, template);
    }
    proof {
        assert(all.take(all.len() as int) =~= all);
    }
    (templates, flags)
}

impl ItemStatsStore {
    /// The stat modifiers by item id.
    pub closed spec fn stats_map(&self) -> Map<u32, ItemStatEntry> {
        self.stats@
    }

    /// The four flag words by item id.
    pub closed spec fn flags_map(&self) -> Map<u32, [u32; 4]> {
        self.flags@
    }

    /// The sparse templates by item id.
    pub closed spec fn sparse_map(&self) -> Map<u32, ItemSparseTemplateEntry> {
        self.sparse_templates@
    }

    /// The random-property fields by item id.
    pub closed spec fn random_property_map(&self) -> Map<u32, ItemRandomPropertyTemplateEntry> {
        self.random_property_templates@
    }

    /// A store of the given stat modifiers and flags, later pairs replacing
    /// earlier ones with the same id.
    pub fn from_parts(stats: Vec<(u32, ItemStatEntry)>, flags: Vec<(u32, [u32; 4])>) -> (s: Self)
        ensures
            s.stats_map() == pairs_to_map(stats@),
            s.flags_map() == pairs_to_map(flags@),
            s.sparse_map().is_empty(),
            s.random_property_map().is_empty(),
    {
        ItemStatsStore {
            stats: map_from_pairs(stats),
            flags: map_from_pairs(flags),
            sparse_templates: HashMap::new(),
            random_property_templates: HashMap::new(),
        }
    }

    /// A store of the given sparse templates, with their flags.
    pub fn from_sparse_templates(sparse_templates: Vec<(u32, ItemSparseTemplateEntry)>) -> (s: Self)
        ensures
            s.stats_map().is_empty(),
            s.sparse_map() == pairs_to_map(sparse_templates@),
            s.flags_map().dom() == s.sparse_map().dom(),
            forall|id: u32| #[trigger] s.flags_map().contains_key(id) ==> s.flags_map()[id] == s.sparse_map()[id].flags,
            s.random_property_map().is_empty(),
    {
        let (templates, flags) = templates_with_flags(sparse_templates);
        ItemStatsStore {
            stats: HashMap::new(),
            flags,
            sparse_templates: templates,
            random_property_templates: HashMap::new(),
        }
    }

    /// A store of the given random-property fields.
    pub fn from_random_property_templates(
        random_property_templates: Vec<(u32, ItemRandomPropertyTemplateEntry)>,
    ) -> (s: Self)
        ensures
            s.stats_map().is_empty(),
            s.flags_map().is_empty(),
            s.sparse_map().is_empty(),
            s.random_property_map() == pairs_to_map(random_property_templates@),
    {
        ItemStatsStore {
            stats: HashMap::new(),
            flags: HashMap::new(),
            sparse_templates: HashMap::new(),
            random_property_templates: map_from_pairs(random_property_templates),
        }
    }

    /// A store of the given sparse templates, with their flags, and
    /// random-property fields.
    pub fn from_sparse_and_random_property_templates(
        sparse_templates: Vec<(u32, ItemSparseTemplateEntry)>,
        random_property_templates: Vec<(u32, ItemRandomPropertyTemplateEntry)>,
    ) -> (s: Self)
        ensures
            s.stats_map().is_empty(),
            s.sparse_map() == pairs_to_map(sparse_templates@),
            s.flags_map().dom() == s.sparse_map().dom(),
            forall|id: u32| #[trigger] s.flags_map().contains_key(id) ==> s.flags_map()[id] == s.sparse_map()[id].flags,
            s.random_property_map() == pairs_to_map(random_property_templates@),
    {
        let (templates, flags) = templates_with_flags(sparse_templates);
        ItemStatsStore {
            stats: HashMap::new(),
            flags,
            sparse_templates: templates,
            random_property_templates: map_from_pairs(random_property_templates),
        }
    }

    /// A store of the given stat modifiers, sparse templates, with their
    /// flags, and random-property fields.
    pub fn from_stats_sparse_and_random_property_templates(
        stats: Vec<(u32, ItemStatEntry)>,
        sparse_templates: Vec<(u32, ItemSparseTemplateEntry)>,
        random_property_templates: Vec<(u32, ItemRandomPropertyTemplateEntry)>,
    ) -> (s: Self)
        ensures
            s.stats_map() == pairs_to_map(stats@),
            s.sparse_map() == pairs_to_map(sparse_templates@),
            s.flags_map().dom() == s.sparse_map().dom(),
            forall|id: u32| #[trigger] s.flags_map().contains_key(id) ==> s.flags_map()[id] == s.sparse_map()[id].flags,
            s.random_property_map() == pairs_to_map(random_property_templates@),
    {
        let (templates, flags) = templates_with_flags(sparse_templates);
        ItemStatsStore {
            stats: map_from_pairs(stats),
            flags,
            sparse_templates: templates,
            random_property_templates: map_from_pairs(random_property_templates),
        }
    }

    /// Decodes the sparse item records, given as (item id, record bytes) in
    /// table order.
    ///
    /// A record whose stat slots do not lie inside it is skipped. Every other
    /// record gives its flags where they lie inside it, its sparse template
    /// and its random-property fields where all of their fields do, and its
    /// stat modifiers where it has armor or a real stat.
    pub fn load(records: Vec<(u32, Vec<u8>)>) -> (s: Self)
        requires
            forall|i: int| 0 <= i < records.len() ==> record_fits(#[trigger] records@[i].1@),
        ensures
            holds_flags_of(s.flags_map(), records_giving(records@, SparsePart::Flags)),
            holds_templates_of(s.sparse_map(), records_giving(records@, SparsePart::Template)),
            holds_random_properties_of(
                s.random_property_map(),
                records_giving(records@, SparsePart::RandomProperty),
            ),
            holds_stats_of(s.stats_map(), records_giving(records@, SparsePart::Stats)),
    {
        let mut stats: HashMap<u32, ItemStatEntry> = HashMap::new();
        let mut flags: HashMap<u32, [u32; 4]> = HashMap::new();
        let mut sparse_templates: HashMap<u32, ItemSparseTemplateEntry> = HashMap::new();
        let mut random_property_templates: HashMap<u32, ItemRandomPropertyTemplateEntry> =
            HashMap::new();
        let n = records.len();
        let mut i: usize = 0;
        while i < n
            invariant
                i <= n,
                n == records.len(),
                forall|j: int| 0 <= j < records.len() ==> record_fits(#[trigger] records@[j].1@),
                holds_flags_of(flags@, records_giving(records@.take(i as int), SparsePart::Flags)),
                holds_templates_of(
                    sparse_templates@,
                    records_giving(records@.take(i as int), SparsePart::Template),
                ),
                holds_random_properties_of(
                    random_property_templates@,
                    records_giving(records@.take(i as int), SparsePart::RandomProperty),
                ),
                holds_stats_of(stats@, records_giving(records@.take(i as int), SparsePart::Stats)),
            decreases n - i,
        {
            let id = records[i].0;
            let record = &records[i].1;
            let ghost r = record@;
            let ghost pre = records@.take(i as int);
            let ghost post = records@.take(i + 1);
            proof {
                assert(post.drop_last() =~= pre);
                assert(post.last() == records@[i as int]);
                assert(record_fits(records@[i as int].1@));
            }
            let offs = field_offsets(record);
            proof {
                assert forall|fi: int| 0 <= fi <= SPARSE_FIELD_COUNT implies offs@[fi] + 64
                    <= usize::MAX by {
                    lemma_field_offset_bound(r, fi as nat);
                }
            }
            if offs[53] + 20 <= record.len() && offs[65] + 10 <= record.len() {
                let mut raw_flags = [0u32; 4];
                if offs[23] + 16 <= record.len() {
                    raw_flags = decode_flags(record, &offs);
                    flags.insert(id, raw_flags);
                }
                if let Some(t) = decode_sparse_template(record, &offs, raw_flags) {
                    sparse_templates.insert(id, t);
                }
                if let Some(t) = decode_random_property(record, &offs) {
                    random_property_templates.insert(id, t);
                }
                let entry = decode_stat_entry(record, &offs);
                if decoded_has_stats(&entry, Ghost(r)) {
                    stats.insert(id, entry);
                }
            }
            i = i + 1;
        }
        proof {
            assert(records@.take(n as int) =~= records@);
        }
        ItemStatsStore { stats, flags, sparse_templates, random_property_templates }
    }

    /// The stat modifiers of an item.
    pub fn get(&self, item_id: u32) -> (r: Option<&ItemStatEntry>)
        ensures
            r matches Some(e) ==> self.stats_map().contains_key(item_id) && *e == self.stats_map()[item_id],
            r is None ==> !self.stats_map().contains_key(item_id),
    {
        self.stats.get(&item_id)
    }

    /// The four flag words of an item.
    pub fn raw_flags(&self, item_id: u32) -> (r: Option<[u32; 4]>)
        ensures
            r matches Some(f) ==> self.flags_map().contains_key(item_id) && f == self.flags_map()[item_id],
            r is None ==> !self.flags_map().contains_key(item_id),
    {
        match self.flags.get(&item_id) {
            Some(f) => Some(*f),
            None => None,
        }
    }

    /// The item flag bits (the first flag word) of an item.
    pub fn item_flags(&self, item_id: u32) -> (r: Option<u64>)
        ensures
            r matches Some(f) ==> self.flags_map().contains_key(item_id) && f == self.flags_map()[item_id][0],
            r is None ==> !self.flags_map().contains_key(item_id),
    {
        match self.raw_flags(item_id) {
            Some(f) => Some(f[0] as u64),
            None => None,
        }
    }

    /// The sparse template of an item.
    pub fn sparse_template(&self, item_id: u32) -> (r: Option<&ItemSparseTemplateEntry>)
        ensures
            r matches Some(t) ==> self.sparse_map().contains_key(item_id) && *t == self.sparse_map()[item_id],
            r is None ==> !self.sparse_map().contains_key(item_id),
    {
        self.sparse_templates.get(&item_id)
    }

    /// Every sparse template with its item id, each once, in some order.
    pub fn sparse_templates_like_cpp(&self) -> (r: Vec<(u32, ItemSparseTemplateEntry)>)
        ensures
            r@.len() == self.sparse_map().len(),
            forall|i: int| 0 <= i < r@.len() ==> self.sparse_map().contains_key(#[trigger] r@[i].0)
                && self.sparse_map()[r@[i].0] == r@[i].1,
            forall|id: u32| #[trigger] self.sparse_map().contains_key(id) ==> exists|i: int|
                0 <= i < r@.len() && r@[i].0 == id,
    {
        let mut r: Vec<(u32, ItemSparseTemplateEntry)> = Vec::new();
        let ghost pairs = vstd::std_specs::hash::spec_hash_map_iter(&self.sparse_templates).remaining();
        for pair in it: self.sparse_templates.iter()
            invariant
                r@.len() == it.index(),
                it.seq() == pairs,
                forall|i: int| 0 <= i < r@.len() ==> r@[i] == (*pairs[i].0, *pairs[i].1),
        {
            let (id, t) = pair;
            r.push((*id, *t));
        }
        proof {
            assert forall|i: int| 0 <= i < r@.len() implies self.sparse_map().contains_key(#[trigger] r@[i].0)
                && self.sparse_map()[r@[i].0] == r@[i].1 by {
                assert(pairs.contains(pairs[i]));
            }
            assert forall|id: u32| #[trigger] self.sparse_map().contains_key(id) implies exists|i: int|
                0 <= i < r@.len() && r@[i].0 == id by {
                assert(pairs.contains((&id, &self.sparse_templates@[id])));
                let i = choose|i: int| 0 <= i < pairs.len() && pairs[i] == (&id, &self.sparse_templates@[id]);
                assert(r@[i].0 == id);
            }
        }
        r
    }

    /// The random-property fields of an item.
    pub fn random_property_template(&self, item_id: u32) -> (r: Option<&ItemRandomPropertyTemplateEntry>)
        ensures
            r matches Some(t) ==> self.random_property_map().contains_key(item_id) && *t
                == self.random_property_map()[item_id],
            r is None ==> !self.random_property_map().contains_key(item_id),
    {
        self.random_property_templates.get(&item_id)
    }

    /// Number of items with stat modifiers.
    pub fn len(&self) -> (n: usize)
        ensures
            n == self.stats_map().len(),
    {
        self.stats.len()
    }

    /// Whether no item has stat modifiers.
    pub fn is_empty(&self) -> (b: bool)
        ensures
            b == (self.stats_map().len() == 0),
    {
        self.stats.len() == 0
    }
}

} // verus!
