//! Spells cast on a newly created character, by race, class and create mode.
//!
//! Each row names its races and classes by bit masks (an empty mask meaning
//! every race or class) and is expanded to one assignment per race and class
//! it names.
use std::collections::HashMap;
use vstd::prelude::*;
use vstd::std_specs::iter::IteratorSpec;

verus! {

broadcast use vstd::std_specs::hash::group_hash_axioms;

pub const PLAYER_CREATE_MODE_NORMAL_LIKE_CPP: u8 = 0;

pub const PLAYER_CREATE_MODE_NPE_LIKE_CPP: u8 = 1;

pub const PLAYER_CREATE_MODE_MAX_LIKE_CPP: u8 = 2;

/// The first playable race id.
pub const RACE_HUMAN_LIKE_CPP: u8 = 1;

/// One past the last race id.
pub const MAX_RACES_LIKE_CPP: u8 = 78;

/// The first class id.
pub const CLASS_WARRIOR_LIKE_CPP: u8 = 1;

/// One past the last class id.
pub const MAX_CLASSES_LIKE_CPP: u8 = 15;

/// The race mask bits of every playable race.
pub const RACEMASK_ALL_PLAYABLE_LIKE_CPP: u64 = 0x0003_007F_FFFF;

/// The class mask bits of every playable class.
pub const CLASSMASK_ALL_PLAYABLE_LIKE_CPP: u32 = 0x1FFF;

/// A row of the create-info cast spell table.
#[derive(Debug, Clone, Copy, PartialEq, Eq)]
pub struct PlayerCreateInfoCastSpellRowLikeCpp {
    pub race_mask: u64,
    pub class_mask: u32,
    pub spell_id: u32,
    pub create_mode: i8,
}

/// What loading the cast spell table did.
#[derive(Debug, Clone, Copy, PartialEq, Eq, Default)]
pub struct PlayerCreateInfoCastSpellLoadReportLikeCpp {
    pub loaded_assignments: usize,
    pub skipped_invalid_race_mask: usize,
    pub skipped_invalid_class_mask: usize,
    pub skipped_invalid_create_mode: usize,
}

/// The mask bit of a race, or 0 for a race that has none.
pub open spec fn race_bit(race: u8) -> u64 {
    if (1 <= race <= 10) || race == 22 || (24 <= race <= 30) {
        1u64 << ((race - 1) as u64)
    } else if race == 34 {
        1u64 << 11u64
    } else if race == 35 {
        1u64 << 12u64
    } else if race == 36 {
        1u64 << 13u64
    } else if race == 37 {
        1u64 << 14u64
    } else if race == 70 {
        1u64 << 16u64
    } else if race == 52 {
        1u64 << 15u64
    } else {
        0
    }
}

/// The mask bit of a class, or 0 for a class that has none.
pub open spec fn class_bit(class: u8) -> u32 {
    if class == 0 || class >= 33 {
        0
    } else {
        1u32 << ((class - 1) as u32)
    }
}

pub fn race_mask_bit_like_cpp(race: u8) -> (b: u64)
    ensures
        b == race_bit(race),
{
    if (1 <= race && race <= 10) || race == 22 || (24 <= race && race <= 30) {
        1u64 << ((race - 1) as u64)
    } else if race == 34 {
        1u64 << 11u64
    } else if race == 35 {
        1u64 << 12u64
    } else if race == 36 {
        1u64 << 13u64
    } else if race == 37 {
        1u64 << 14u64
    } else if race == 70 {
        1u64 << 16u64
    } else if race == 52 {
        1u64 << 15u64
    } else {
        0
    }
}

pub fn class_mask_bit_like_cpp(class: u8) -> (b: u32)
    ensures
        b == class_bit(class),
{
    if class == 0 || class >= 33 {
        0
    } else {
        1u32 << ((class - 1) as u32)
    }
}

/// The row names races, none of them playable.
pub open spec fn bad_race_mask(row: PlayerCreateInfoCastSpellRowLikeCpp) -> bool {
    row.race_mask != 0 && row.race_mask & RACEMASK_ALL_PLAYABLE_LIKE_CPP == 0
}

/// The row names classes, none of them playable.
pub open spec fn bad_class_mask(row: PlayerCreateInfoCastSpellRowLikeCpp) -> bool {
    row.class_mask != 0 && row.class_mask & CLASSMASK_ALL_PLAYABLE_LIKE_CPP == 0
}

/// The row's create mode is not one of the known modes.
pub open spec fn bad_create_mode(row: PlayerCreateInfoCastSpellRowLikeCpp) -> bool {
    row.create_mode < 0 || row.create_mode >= PLAYER_CREATE_MODE_MAX_LIKE_CPP
}

/// The row is kept: its masks name something playable and its mode is known.
pub open spec fn row_is_valid(row: PlayerCreateInfoCastSpellRowLikeCpp) -> bool {
    !bad_race_mask(row) && !bad_class_mask(row) && !bad_create_mode(row)
}

/// The row names `race` (an empty mask names every race).
pub open spec fn names_race(row: PlayerCreateInfoCastSpellRowLikeCpp, race: u8) -> bool {
    row.race_mask == 0 || row.race_mask & race_bit(race) != 0
}

/// The row names `class` (an empty mask names every class).
pub open spec fn names_class(row: PlayerCreateInfoCastSpellRowLikeCpp, class: u8) -> bool {
    row.class_mask == 0 || row.class_mask & class_bit(class) != 0
}

/// The row assigns its spell to `(race, class, mode)`.
pub open spec fn assigns(row: PlayerCreateInfoCastSpellRowLikeCpp, race: u8, class: u8, mode: u8) -> bool {
    &&& row_is_valid(row)
    &&& RACE_HUMAN_LIKE_CPP <= race < MAX_RACES_LIKE_CPP
    &&& CLASS_WARRIOR_LIKE_CPP <= class < MAX_CLASSES_LIKE_CPP
    &&& names_race(row, race)
    &&& names_class(row, class)
    &&& row.create_mode == mode
}

/// The spells that `rows` cast on characters of `(race, class, mode)`, in
/// row order.
pub open spec fn cast_spells(rows: Seq<PlayerCreateInfoCastSpellRowLikeCpp>, race: u8, class: u8, mode: u8) -> Seq<
    u32,
>
    decreases rows.len(),
{
    if rows.len() == 0 {
        seq![]
    } else {
        let s = cast_spells(rows.drop_last(), race, class, mode);
        if assigns(rows.last(), race, class, mode) {
            s.push(rows.last().spell_id)
        } else {
            s
        }
    }
}

/// Number of the classes `class..MAX_CLASSES` that the row names.
pub open spec fn classes_named_from(row: PlayerCreateInfoCastSpellRowLikeCpp, class: int) -> nat
    decreases MAX_CLASSES_LIKE_CPP - class,
{
    if class < CLASS_WARRIOR_LIKE_CPP || class >= MAX_CLASSES_LIKE_CPP {
        0
    } else {
        classes_named_from(row, class + 1) + if names_class(row, class as u8) {
            1nat
        } else {
            0nat
        }
    }
}

/// Number of (race, class) pairs with races in `race..MAX_RACES` that the row
/// names.
pub open spec fn pairs_named_from(row: PlayerCreateInfoCastSpellRowLikeCpp, race: int) -> nat
    decreases MAX_RACES_LIKE_CPP - race,
{
    if race < RACE_HUMAN_LIKE_CPP || race >= MAX_RACES_LIKE_CPP {
        0
    } else {
        pairs_named_from(row, race + 1) + if names_race(row, race as u8) {
            classes_named_from(row, CLASS_WARRIOR_LIKE_CPP as int)
        } else {
            0nat
        }
    }
}

/// Number of assignments that `rows` make.
pub open spec fn assignment_count(rows: Seq<PlayerCreateInfoCastSpellRowLikeCpp>) -> nat
    decreases rows.len(),
{
    if rows.len() == 0 {
        0
    } else {
        assignment_count(rows.drop_last()) + if row_is_valid(rows.last()) {
            pairs_named_from(rows.last(), RACE_HUMAN_LIKE_CPP as int)
        } else {
            0nat
        }
    }
}

/// Number of `rows` that fail on their race mask.
pub open spec fn race_mask_failures(rows: Seq<PlayerCreateInfoCastSpellRowLikeCpp>) -> nat
    decreases rows.len(),
{
    if rows.len() == 0 {
        0
    } else {
        race_mask_failures(rows.drop_last()) + if bad_race_mask(rows.last()) {
            1nat
        } else {
            0nat
        }
    }
}

/// Number of `rows` that pass on their race mask and fail on their class mask.
pub open spec fn class_mask_failures(rows: Seq<PlayerCreateInfoCastSpellRowLikeCpp>) -> nat
    decreases rows.len(),
{
    if rows.len() == 0 {
        0
    } else {
        class_mask_failures(rows.drop_last()) + if !bad_race_mask(rows.last()) && bad_class_mask(
            rows.last(),
        ) {
            1nat
        } else {
            0nat
        }
    }
}

/// Number of `rows` that pass on both masks and fail on their create mode.
pub open spec fn create_mode_failures(rows: Seq<PlayerCreateInfoCastSpellRowLikeCpp>) -> nat
    decreases rows.len(),
{
    if rows.len() == 0 {
        0
    } else {
        create_mode_failures(rows.drop_last()) + if !bad_race_mask(rows.last()) && !bad_class_mask(
            rows.last(),
        ) && bad_create_mode(rows.last()) {
            1nat
        } else {
            0nat
        }
    }
}

/// The map key of `(race, class, mode)`.
pub open spec fn slot_key(race: u8, class: u8, mode: u8) -> u32 {
    (race * 65536 + class * 256 + mode) as u32
}

fn key_of(race: u8, class: u8, mode: u8) -> (k: u32)
    ensures
        k == slot_key(race, class, mode),
{
    (race as u32) * 65536 + (class as u32) * 256 + mode as u32
}

proof fn lemma_slot_key_injective(r1: u8, c1: u8, m1: u8, r2: u8, c2: u8, m2: u8)
    requires
        slot_key(r1, c1, m1) == slot_key(r2, c2, m2),
    ensures
        r1 == r2 && c1 == c2 && m1 == m2,
{
}

/// The spells stored under `key`, none where the key is absent.
pub open spec fn spells_at(m: Map<u32, Vec<u32>>, key: u32) -> Seq<u32> {
    if m.contains_key(key) {
        m[key]@
    } else {
        seq![]
    }
}

/// Cast spells by race, class and create mode.
pub struct PlayerCreateInfoCastSpellStoreLikeCpp {
    spells_by_key: HashMap<u32, Vec<u32>>,
    load_report: PlayerCreateInfoCastSpellLoadReportLikeCpp,
}

/// The spells for `(r, c, mo)` once the row `row` has been expanded for the
/// races before `race` and, of `race`, the classes before `class`.
pub open spec fn partly_expanded(
    done: Seq<PlayerCreateInfoCastSpellRowLikeCpp>,
    row: PlayerCreateInfoCastSpellRowLikeCpp,
    r: u8,
    c: u8,
    mo: u8,
    race: int,
    class: int,
) -> Seq<u32> {
    let s = cast_spells(done, r, c, mo);
    if assigns(row, r, c, mo) && (r < race || (r == race && c < class)) {
        s.push(row.spell_id)
    } else {
        s
    }
}

proof fn lemma_classes_bound(row: PlayerCreateInfoCastSpellRowLikeCpp, class: int)
    requires
        CLASS_WARRIOR_LIKE_CPP <= class <= MAX_CLASSES_LIKE_CPP,
    ensures
        classes_named_from(row, class) <= MAX_CLASSES_LIKE_CPP - class,
    decreases MAX_CLASSES_LIKE_CPP - class,
{
    if class < MAX_CLASSES_LIKE_CPP {
        lemma_classes_bound(row, class + 1);
    }
}

proof fn lemma_pairs_bound(row: PlayerCreateInfoCastSpellRowLikeCpp, race: int)
    requires
        RACE_HUMAN_LIKE_CPP <= race <= MAX_RACES_LIKE_CPP,
    ensures
        pairs_named_from(row, race) <= 14 * (MAX_RACES_LIKE_CPP - race),
    decreases MAX_RACES_LIKE_CPP - race,
{
    if race < MAX_RACES_LIKE_CPP {
        lemma_pairs_bound(row, race + 1);
        lemma_classes_bound(row, CLASS_WARRIOR_LIKE_CPP as int);
    }
}

proof fn lemma_assignment_count_bound(rows: Seq<PlayerCreateInfoCastSpellRowLikeCpp>)
    ensures
        assignment_count(rows) <= 1078 * rows.len(),
    decreases rows.len(),
{
    if rows.len() > 0 {
        lemma_assignment_count_bound(rows.drop_last());
        lemma_pairs_bound(rows.last(), RACE_HUMAN_LIKE_CPP as int);
    }
}

/// Appends `spell` to the spells stored under `key`.
fn push_spell(m: &mut HashMap<u32, Vec<u32>>, key: u32, spell: u32)
    ensures
        final(m)@ == old(m)@.insert(key, final(m)@[key]),
        final(m)@[key]@ == spells_at(old(m)@, key).push(spell),
{
    match m.remove(&key) {
        Some(mut spells) => {
            spells.push(spell);
            m.insert(key, spells);
        },
        None => {
            let mut spells: Vec<u32> = Vec::new();
            spells.push(spell);
            m.insert(key, spells);
        },
    }
}

impl PlayerCreateInfoCastSpellStoreLikeCpp {
    /// The spells stored under each key.
    pub closed spec fn spells_map(&self) -> Map<u32, Vec<u32>> {
        self.spells_by_key@
    }

    /// What loading did.
    pub closed spec fn report(&self) -> PlayerCreateInfoCastSpellLoadReportLikeCpp {
        self.load_report
    }

    /// Loads the cast spell rows.
    ///
    /// A row whose race mask names no playable race, whose class mask names no
    /// playable class, or whose create mode is unknown is counted as skipped;
    /// every other row casts its spell on each race and class it names, in its
    /// create mode.
    pub fn from_rows_like_cpp(rows: Vec<PlayerCreateInfoCastSpellRowLikeCpp>) -> (s: Self)
        requires
            1078 * rows.len() <= usize::MAX,
        ensures
            forall|r: u8, c: u8, mo: u8| #[trigger] spells_at(s.spells_map(), slot_key(r, c, mo))
                == cast_spells(rows@, r, c, mo),
            s.report().loaded_assignments == assignment_count(rows@),
            s.report().skipped_invalid_race_mask == race_mask_failures(rows@),
            s.report().skipped_invalid_class_mask == class_mask_failures(rows@),
            s.report().skipped_invalid_create_mode == create_mode_failures(rows@),
    {
        let ghost all = rows@;
        let n = rows.len();
        let mut m: HashMap<u32, Vec<u32>> = HashMap::new();
        let mut loaded: usize = 0;
        let mut bad_race: usize = 0;
        let mut bad_class: usize = 0;
        let mut bad_mode: usize = 0;
        for row in it: rows
            invariant
                all == it.seq(),
                all.len() == n,
                1078 * n <= usize::MAX,
                it.index() <= n,
                forall|r: u8, c: u8, mo: u8| #[trigger] spells_at(m@, slot_key(r, c, mo))
                    == cast_spells(all.take(it.index() as int), r, c, mo),
                loaded == assignment_count(all.take(it.index() as int)),
                bad_race == race_mask_failures(all.take(it.index() as int)),
                bad_class == class_mask_failures(all.take(it.index() as int)),
                bad_mode == create_mode_failures(all.take(it.index() as int)),
                bad_race <= it.index(),
                bad_class <= it.index(),
                bad_mode <= it.index(),
        {
            let ghost i = it.index() as int;
            let ghost done = all.take(i);
            proof {
                assert(all.take(i + 1).drop_last() =~= done);
                assert(all.take(i + 1).last() == row);
                lemma_assignment_count_bound(done);
                lemma_pairs_bound(row, RACE_HUMAN_LIKE_CPP as int);
            }
            if row.race_mask != 0 && row.race_mask & RACEMASK_ALL_PLAYABLE_LIKE_CPP == 0 {
                bad_race = bad_race + 1;
            } else if row.class_mask != 0 && row.class_mask & CLASSMASK_ALL_PLAYABLE_LIKE_CPP == 0 {
                bad_class = bad_class + 1;
            } else if row.create_mode < 0 || row.create_mode >= 2 {
                bad_mode = bad_mode + 1;
            } else {
                let mode = row.create_mode as u8;
                let ghost base = loaded as int;
                let mut race: u8 = RACE_HUMAN_LIKE_CPP;
                while race < MAX_RACES_LIKE_CPP
                    invariant
                        RACE_HUMAN_LIKE_CPP <= race <= MAX_RACES_LIKE_CPP,
                        row_is_valid(row),
                        mode == row.create_mode,
                        base == assignment_count(done),
                        base <= 1078 * i,
                        i < n,
                        1078 * n <= usize::MAX,
                        pairs_named_from(row, RACE_HUMAN_LIKE_CPP as int) <= 1078,
                        loaded == base + pairs_named_from(row, RACE_HUMAN_LIKE_CPP as int) - pairs_named_from(
                            row,
                            race as int,
                        ),
                        forall|r: u8, c: u8, mo: u8| #[trigger] spells_at(m@, slot_key(r, c, mo))
                            == partly_expanded(done, row, r, c, mo, race as int, 0),
                    decreases MAX_RACES_LIKE_CPP - race,
                {
                    let race_bit_of = race_mask_bit_like_cpp(race);
                    if row.race_mask == 0 || row.race_mask & race_bit_of != 0 {
                        let mut class: u8 = CLASS_WARRIOR_LIKE_CPP;
                        while class < MAX_CLASSES_LIKE_CPP
                            invariant
                                RACE_HUMAN_LIKE_CPP <= race < MAX_RACES_LIKE_CPP,
                                CLASS_WARRIOR_LIKE_CPP <= class <= MAX_CLASSES_LIKE_CPP,
                                row_is_valid(row),
                                names_race(row, race),
                                mode == row.create_mode,
                                base == assignment_count(done),
                                base <= 1078 * i,
                                i < n,
                                1078 * n <= usize::MAX,
                                pairs_named_from(row, RACE_HUMAN_LIKE_CPP as int) <= 1078,
                                pairs_named_from(row, race as int) == pairs_named_from(row, race + 1)
                                    + classes_named_from(row, CLASS_WARRIOR_LIKE_CPP as int),
                                loaded == base + pairs_named_from(row, RACE_HUMAN_LIKE_CPP as int)
                                    - pairs_named_from(row, race as int) + classes_named_from(
                                    row,
                                    CLASS_WARRIOR_LIKE_CPP as int,
                                ) - classes_named_from(row, class as int),
                                forall|r: u8, c: u8, mo: u8| #[trigger] spells_at(m@, slot_key(r, c, mo))
                                    == partly_expanded(done, row, r, c, mo, race as int, class as int),
                            decreases MAX_CLASSES_LIKE_CPP - class,
                        {
                            let class_bit_of = class_mask_bit_like_cpp(class);
                            if row.class_mask == 0 || row.class_mask & class_bit_of != 0 {
                                let ghost before = m@;
                                let key = key_of(race, class, mode);
                                push_spell(&mut m, key, row.spell_id);
                                proof {
                                    assert forall|r: u8, c: u8, mo: u8| #[trigger] spells_at(
                                        m@,
                                        slot_key(r, c, mo),
                                    ) == partly_expanded(done, row, r, c, mo, race as int, class + 1) by {
                                        if slot_key(r, c, mo) == key {
                                            lemma_slot_key_injective(r, c, mo, race, class, mode);
                                        }
                                        assert(spells_at(before, slot_key(r, c, mo)) == partly_expanded(
                                            done,
                                            row,
                                            r,
                                            c,
                                            mo,
                                            race as int,
                                            class as int,
                                        ));
                                    }
                                    lemma_pairs_bound(row, race + 1);
                                }
                                loaded = loaded + 1;
                            } else {
                                proof {
                                    assert forall|r: u8, c: u8, mo: u8| #[trigger] spells_at(
                                        m@,
                                        slot_key(r, c, mo),
                                    ) == partly_expanded(done, row, r, c, mo, race as int, class + 1) by {
                                        assert(spells_at(m@, slot_key(r, c, mo)) == partly_expanded(
                                            done,
                                            row,
                                            r,
                                            c,
                                            mo,
                                            race as int,
                                            class as int,
                                        ));
                                    }
                                }
                            }
                            class = class + 1;
                        }
                    }
                    proof {
                        assert forall|r: u8, c: u8, mo: u8| #[trigger] spells_at(m@, slot_key(r, c, mo))
                            == partly_expanded(done, row, r, c, mo, race + 1, 0) by {
                            assert(spells_at(m@, slot_key(r, c, mo)) == partly_expanded(
                                done,
                                row,
                                r,
                                c,
                                mo,
                                race as int,
                                if names_race(row, race) {
                                    MAX_CLASSES_LIKE_CPP as int
                                } else {
                                    0
                                },
                            ));
                        }
                    }
                    race = race + 1;
                }
            }
            proof {
                assert forall|r: u8, c: u8, mo: u8| #[trigger] spells_at(m@, slot_key(r, c, mo))
                    == cast_spells(all.take(i + 1), r, c, mo) by {
                    if row_is_valid(row) {
                        assert(spells_at(m@, slot_key(r, c, mo)) == partly_expanded(
                            done,
                            row,
                            r,
                            c,
                            mo,
                            MAX_RACES_LIKE_CPP as int,
                            0,
                        ));
                    }
                }
            }
        }
        proof {
            assert(all.take(n as int) =~= all);
        }
        PlayerCreateInfoCastSpellStoreLikeCpp {
            spells_by_key: m,
            load_report: PlayerCreateInfoCastSpellLoadReportLikeCpp {
                loaded_assignments: loaded,
                skipped_invalid_race_mask: bad_race,
                skipped_invalid_class_mask: bad_class,
                skipped_invalid_create_mode: bad_mode,
            },
        }
    }

    /// The spells cast on a new character of `(race, class, create_mode)`.
    pub fn cast_spells_like_cpp(&self, race: u8, class: u8, create_mode: u8) -> (r: &[u32])
        ensures
            r@ == spells_at(self.spells_map(), slot_key(race, class, create_mode)),
    {
        let key = key_of(race, class, create_mode);
        match self.spells_by_key.get(&key) {
            Some(spells) => spells.as_slice(),
            None => &[],
        }
    }

    /// What loading did.
    pub fn load_report_like_cpp(&self) -> (r: &PlayerCreateInfoCastSpellLoadReportLikeCpp)
        ensures
            *r == self.report(),
    {
        &self.load_report
    }
}

/// No spell is cast on a race or class outside the known ranges, nor in an
/// unknown create mode.
pub proof fn lemma_no_spells_outside_known_ranges(
    rows: Seq<PlayerCreateInfoCastSpellRowLikeCpp>,
    race: u8,
    class: u8,
    mode: u8,
)
    requires
        !(RACE_HUMAN_LIKE_CPP <= race < MAX_RACES_LIKE_CPP) || !(CLASS_WARRIOR_LIKE_CPP <= class
            < MAX_CLASSES_LIKE_CPP) || mode >= PLAYER_CREATE_MODE_MAX_LIKE_CPP,
    ensures
        cast_spells(rows, race, class, mode) == Seq::<u32>::empty(),
    decreases rows.len(),
{
    if rows.len() > 0 {
        lemma_no_spells_outside_known_ranges(rows.drop_last(), race, class, mode);
    }
}

/// Distinct (race, class, mode) triples are stored under distinct keys.
pub proof fn lemma_slot_keys_distinct(r1: u8, c1: u8, m1: u8, r2: u8, c2: u8, m2: u8)
    requires
        (r1, c1, m1) != (r2, c2, m2),
    ensures
        slot_key(r1, c1, m1) != slot_key(r2, c2, m2),
{
    if slot_key(r1, c1, m1) == slot_key(r2, c2, m2) {
        lemma_slot_key_injective(r1, c1, m1, r2, c2, m2);
    }
}

/// Classes numbered 1 to 32 have the mask bit `1 << (class - 1)`, distinct
/// classes distinct bits; other classes have none.
pub proof fn lemma_class_bits(class: u8, other: u8)
    ensures
        1 <= class <= 32 ==> class_bit(class) == 1u32 << ((class - 1) as u32),
        !(1 <= class <= 32) ==> class_bit(class) == 0,
        1 <= class <= 32 && 1 <= other <= 32 && class != other ==> class_bit(class) != class_bit(other),
{
    if 1 <= class <= 32 && 1 <= other <= 32 && class != other {
        let a = (class - 1) as u32;
        let b = (other - 1) as u32;
        assert(a < 32 && b < 32 && a != b ==> (1u32 << a) != (1u32 << b)) by (bit_vector);
    }
}

/// The playable races 1 to 10, 22 and 24 to 30 have the mask bit
/// `1 << (race - 1)`, and every race with a bit has a single nonzero bit.
pub proof fn lemma_race_bits(race: u8)
    ensures
        (1 <= race <= 10) || race == 22 || (24 <= race <= 30) ==> race_bit(race) == 1u64 << ((race - 1) as u64),
        race_bit(race) != 0 ==> race_bit(race) & (race_bit(race) - 1) as u64 == 0,
{
    let b = race_bit(race);
    if (1 <= race <= 10) || race == 22 || (24 <= race <= 30) {
        let k = (race - 1) as u64;
        assert(k < 64 ==> (1u64 << k) != 0 && (1u64 << k) & (((1u64 << k) - 1) as u64) == 0) by (bit_vector);
    } else if b != 0 {
        assert(forall|k: u64| k < 64 ==> #[trigger] (1u64 << k) & (((1u64 << k) - 1) as u64) == 0) by (bit_vector);
    }
}

} // verus!
