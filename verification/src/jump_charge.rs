//! Jump charge parameters: the speed (or move time) and gravity of a jump
//! charge, with their optional visual and curves, validated at load.
//!
//! Speeds and gravities are single-precision floats, kept as their bit
//! patterns.
use std::collections::HashMap;
use vstd::prelude::*;
use vstd::std_specs::iter::IteratorSpec;
use crate::predicates::{holds, is_predicate, lemma_predicate_answer};

verus! {

broadcast use vstd::std_specs::hash::group_hash_axioms;

/// The charge speed used where a row's speed is not positive (42.0).
pub const SPEED_CHARGE_LIKE_CPP: u32 = 0x4228_0000;

/// The gravity used where a row's gravity is not positive (19.2911053).
pub const MOVEMENT_GRAVITY_LIKE_CPP: u32 = 0x419A_542F;

/// How a jump charge is timed.
#[derive(Debug, Clone, Copy, PartialEq, Eq, Structural)]
pub enum JumpChargeSpec {
    /// Moves at this speed.
    Speed(u32),
    /// Takes this many seconds.
    MoveTimeSeconds(u32),
}

/// The parameters of a jump charge.
#[derive(Debug, Clone, Copy, PartialEq, Eq, Structural)]
pub struct JumpChargeParams {
    pub spec: JumpChargeSpec,
    pub jump_gravity: u32,
    pub spell_visual_id: Option<u32>,
    pub progress_curve_id: Option<u32>,
    pub parabolic_curve_id: Option<u32>,
}

/// A row of the jump charge parameter table.
#[derive(Debug, Clone, Copy, PartialEq, Eq, Structural)]
pub struct JumpChargeParamsRowLikeCpp {
    pub id: i32,
    pub speed: u32,
    pub treat_speed_as_move_time_seconds: bool,
    pub jump_gravity: u32,
    pub spell_visual_id: Option<i32>,
    pub progress_curve_id: Option<i32>,
    pub parabolic_curve_id: Option<i32>,
}

/// What loading the jump charge parameter table did.
#[derive(Debug, Default, Clone, PartialEq)]
pub struct JumpChargeParamsLoadReportLikeCpp {
    pub rows_seen: usize,
    pub loaded_params: usize,
    pub corrected_invalid_speeds: Vec<(i32, u32)>,
    pub corrected_invalid_jump_gravities: Vec<(i32, u32)>,
    pub ignored_missing_spell_visuals: Vec<(i32, i32)>,
    /// The row's spell visual column is reported beside the missing curve.
    pub ignored_missing_progress_curves: Vec<(i32, i32, Option<i32>)>,
    pub ignored_missing_parabolic_curves: Vec<(i32, i32)>,
}

/// Jump charge parameters by id.
pub struct JumpChargeParamsStoreLikeCpp {
    params_by_id: HashMap<i32, JumpChargeParams>,
}

/// A loaded store with what loading it did.
pub struct JumpChargeParamsLoadOutcomeLikeCpp {
    pub store: JumpChargeParamsStoreLikeCpp,
    pub report: JumpChargeParamsLoadReportLikeCpp,
}

/// Whether the single-precision float with bits `b` is at most zero: a zero
/// of either sign or a negative number (not a NaN).
pub open spec fn f32_bits_at_most_zero(b: u32) -> bool {
    b == 0 || (0x8000_0000 <= b && b <= 0xFF80_0000)
}

fn at_most_zero(b: u32) -> (r: bool)
    ensures
        r == f32_bits_at_most_zero(b),
{
    b == 0 || (0x8000_0000 <= b && b <= 0xFF80_0000)
}

/// The reference kept for an optional id: the id where it is not negative and
/// `known_ids` knows it, else none.
pub open spec fn kept_reference<F: Fn(u32) -> bool>(id: Option<i32>, known_ids: F) -> Option<u32> {
    match id {
        Some(v) => if v >= 0 && holds(known_ids, v as u32) {
            Some(v as u32)
        } else {
            None
        },
        None => None,
    }
}

/// Whether an optional id names something that `known_ids` does not know.
pub open spec fn reference_missing<F: Fn(u32) -> bool>(id: Option<i32>, known_ids: F) -> bool {
    id is Some && kept_reference(id, known_ids) is None
}

/// The parameters that a row gives: a speed or gravity at most zero replaced
/// by the default, and each optional reference kept where it exists.
pub open spec fn params_of<F: Fn(u32) -> bool, G: Fn(u32) -> bool>(
    row: JumpChargeParamsRowLikeCpp,
    spell_visual_exists: F,
    curve_exists: G,
) -> JumpChargeParams {
    let value = if f32_bits_at_most_zero(row.speed) {
        SPEED_CHARGE_LIKE_CPP
    } else {
        row.speed
    };
    JumpChargeParams {
        spec: if row.treat_speed_as_move_time_seconds {
            JumpChargeSpec::MoveTimeSeconds(value)
        } else {
            JumpChargeSpec::Speed(value)
        },
        jump_gravity: if f32_bits_at_most_zero(row.jump_gravity) {
            MOVEMENT_GRAVITY_LIKE_CPP
        } else {
            row.jump_gravity
        },
        spell_visual_id: kept_reference(row.spell_visual_id, spell_visual_exists),
        progress_curve_id: kept_reference(row.progress_curve_id, curve_exists),
        parabolic_curve_id: kept_reference(row.parabolic_curve_id, curve_exists),
    }
}

/// The parameters that loading `rows` stores, by id, a later row replacing an
/// earlier one.
pub open spec fn params_loaded<F: Fn(u32) -> bool, G: Fn(u32) -> bool>(
    rows: Seq<JumpChargeParamsRowLikeCpp>,
    spell_visual_exists: F,
    curve_exists: G,
) -> Map<i32, JumpChargeParams>
    decreases rows.len(),
{
    if rows.len() == 0 {
        Map::empty()
    } else {
        params_loaded(rows.drop_last(), spell_visual_exists, curve_exists).insert(
            rows.last().id,
            params_of(rows.last(), spell_visual_exists, curve_exists),
        )
    }
}

/// The (id, speed) of each row whose speed is at most zero, in order.
pub open spec fn speeds_corrected(rows: Seq<JumpChargeParamsRowLikeCpp>) -> Seq<(i32, u32)>
    decreases rows.len(),
{
    if rows.len() == 0 {
        seq![]
    } else {
        let s = speeds_corrected(rows.drop_last());
        if f32_bits_at_most_zero(rows.last().speed) {
            s.push((rows.last().id, rows.last().speed))
        } else {
            s
        }
    }
}

/// The (id, gravity) of each row whose gravity is at most zero, in order.
pub open spec fn gravities_corrected(rows: Seq<JumpChargeParamsRowLikeCpp>) -> Seq<(i32, u32)>
    decreases rows.len(),
{
    if rows.len() == 0 {
        seq![]
    } else {
        let s = gravities_corrected(rows.drop_last());
        if f32_bits_at_most_zero(rows.last().jump_gravity) {
            s.push((rows.last().id, rows.last().jump_gravity))
        } else {
            s
        }
    }
}

/// The (id, visual) of each row whose spell visual is missing, in order.
pub open spec fn visuals_missing<F: Fn(u32) -> bool>(rows: Seq<JumpChargeParamsRowLikeCpp>, spell_visual_exists: F) -> Seq<
    (i32, i32),
>
    decreases rows.len(),
{
    if rows.len() == 0 {
        seq![]
    } else {
        let s = visuals_missing(rows.drop_last(), spell_visual_exists);
        let r = rows.last();
        if reference_missing(r.spell_visual_id, spell_visual_exists) {
            s.push((r.id, r.spell_visual_id->0))
        } else {
            s
        }
    }
}

/// The (id, curve, visual column) of each row whose progress curve is
/// missing, in order.
pub open spec fn progress_curves_missing<G: Fn(u32) -> bool>(rows: Seq<JumpChargeParamsRowLikeCpp>, curve_exists: G) -> Seq<
    (i32, i32, Option<i32>),
>
    decreases rows.len(),
{
    if rows.len() == 0 {
        seq![]
    } else {
        let s = progress_curves_missing(rows.drop_last(), curve_exists);
        let r = rows.last();
        if reference_missing(r.progress_curve_id, curve_exists) {
            s.push((r.id, r.progress_curve_id->0, r.spell_visual_id))
        } else {
            s
        }
    }
}

/// The (id, curve) of each row whose parabolic curve is missing, in order.
pub open spec fn parabolic_curves_missing<G: Fn(u32) -> bool>(rows: Seq<JumpChargeParamsRowLikeCpp>, curve_exists: G) -> Seq<
    (i32, i32),
>
    decreases rows.len(),
{
    if rows.len() == 0 {
        seq![]
    } else {
        let s = parabolic_curves_missing(rows.drop_last(), curve_exists);
        let r = rows.last();
        if reference_missing(r.parabolic_curve_id, curve_exists) {
            s.push((r.id, r.parabolic_curve_id->0))
        } else {
            s
        }
    }
}

/// Keeps an optional reference where it exists.
fn check_reference<F: Fn(u32) -> bool>(id: Option<i32>, known_ids: &F) -> (r: Option<u32>)
    requires
        is_predicate(*known_ids),
    ensures
        r == kept_reference(id, *known_ids),
{
    match id {
        Some(v) => {
            if v >= 0 {
                let known = known_ids(v as u32);
                proof {
                    lemma_predicate_answer(*known_ids, v as u32, known);
                }
                if known {
                    Some(v as u32)
                } else {
                    None
                }
            } else {
                None
            }
        },
        None => None,
    }
}

impl JumpChargeParamsStoreLikeCpp {
    /// The parameters by id.
    pub closed spec fn params_map(&self) -> Map<i32, JumpChargeParams> {
        self.params_by_id@
    }

    /// Loads the jump charge rows.
    ///
    /// A speed or gravity at most zero is replaced by its default and
    /// reported; a spell visual, progress curve or parabolic curve that is
    /// negative or unknown (as `spell_visual_exists` and `curve_exists`
    /// answer) is dropped and reported. A later row replaces an earlier one
    /// with the same id.
    pub fn from_rows_like_cpp<F: Fn(u32) -> bool, G: Fn(u32) -> bool>(
        rows: Vec<JumpChargeParamsRowLikeCpp>,
        spell_visual_exists: F,
        curve_exists: G,
    ) -> (out: JumpChargeParamsLoadOutcomeLikeCpp)
        requires
            is_predicate(spell_visual_exists),
            is_predicate(curve_exists),
        ensures
            out.store.params_map() == params_loaded(rows@, spell_visual_exists, curve_exists),
            out.report.rows_seen == rows@.len(),
            out.report.loaded_params == out.store.params_map().len(),
            out.report.corrected_invalid_speeds@ == speeds_corrected(rows@),
            out.report.corrected_invalid_jump_gravities@ == gravities_corrected(rows@),
            out.report.ignored_missing_spell_visuals@ == visuals_missing(rows@, spell_visual_exists),
            out.report.ignored_missing_progress_curves@ == progress_curves_missing(rows@, curve_exists),
            out.report.ignored_missing_parabolic_curves@ == parabolic_curves_missing(rows@, curve_exists),
    {
        let ghost all = rows@;
        let n = rows.len();
        let mut params_by_id: HashMap<i32, JumpChargeParams> = HashMap::new();
        let mut seen: usize = 0;
        let mut speeds: Vec<(i32, u32)> = Vec::new();
        let mut gravities: Vec<(i32, u32)> = Vec::new();
        let mut visuals: Vec<(i32, i32)> = Vec::new();
        let mut progress: Vec<(i32, i32, Option<i32>)> = Vec::new();
        let mut parabolic: Vec<(i32, i32)> = Vec::new();
        for row in it: rows
            invariant
                all == it.seq(),
                all.len() == n,
                it.index() <= n,
                is_predicate(spell_visual_exists),
                is_predicate(curve_exists),
                seen == it.index(),
                params_by_id@ == params_loaded(all.take(it.index() as int), spell_visual_exists, curve_exists),
                speeds@ == speeds_corrected(all.take(it.index() as int)),
                gravities@ == gravities_corrected(all.take(it.index() as int)),
                visuals@ == visuals_missing(all.take(it.index() as int), spell_visual_exists),
                progress@ == progress_curves_missing(all.take(it.index() as int), curve_exists),
                parabolic@ == parabolic_curves_missing(all.take(it.index() as int), curve_exists),
        {
            let ghost i = it.index() as int;
            proof {
                assert(all.take(i + 1).drop_last() =~= all.take(i));
                assert(all.take(i + 1).last() == row);
            }
            seen = seen + 1;
            let mut value = row.speed;
            if at_most_zero(row.speed) {
                speeds.push((row.id, row.speed));
                value = SPEED_CHARGE_LIKE_CPP;
            }
            let mut jump_gravity = row.jump_gravity;
            if at_most_zero(row.jump_gravity) {
                gravities.push((row.id, row.jump_gravity));
                jump_gravity = MOVEMENT_GRAVITY_LIKE_CPP;
            }
            let spec = if row.treat_speed_as_move_time_seconds {
                JumpChargeSpec::MoveTimeSeconds(value)
            } else {
                JumpChargeSpec::Speed(value)
            };
            let spell_visual_id = check_reference(row.spell_visual_id, &spell_visual_exists);
            if row.spell_visual_id.is_some() && spell_visual_id.is_none() {
                visuals.push((row.id, row.spell_visual_id.unwrap()));
            }
            let progress_curve_id = check_reference(row.progress_curve_id, &curve_exists);
            if row.progress_curve_id.is_some() && progress_curve_id.is_none() {
                progress.push((row.id, row.progress_curve_id.unwrap(), row.spell_visual_id));
            }
            let parabolic_curve_id = check_reference(row.parabolic_curve_id, &curve_exists);
            if row.parabolic_curve_id.is_some() && parabolic_curve_id.is_none() {
                parabolic.push((row.id, row.parabolic_curve_id.unwrap()));
            }
            let params = JumpChargeParams {
                spec,
                jump_gravity,
                spell_visual_id,
                progress_curve_id,
                parabolic_curve_id,
            };
            params_by_id.insert(row.id, params);
        }
        proof {
            assert(all.take(n as int) =~= all);
        }
        let loaded = params_by_id.len();
        JumpChargeParamsLoadOutcomeLikeCpp {
            store: JumpChargeParamsStoreLikeCpp { params_by_id },
            report: JumpChargeParamsLoadReportLikeCpp {
                rows_seen: seen,
                loaded_params: loaded,
                corrected_invalid_speeds: speeds,
                corrected_invalid_jump_gravities: gravities,
                ignored_missing_spell_visuals: visuals,
                ignored_missing_progress_curves: progress,
                ignored_missing_parabolic_curves: parabolic,
            },
        }
    }

    /// The parameters of a jump charge.
    pub fn get_jump_charge_params_like_cpp(&self, id: i32) -> (r: Option<&JumpChargeParams>)
        ensures
            r == (if self.params_map().contains_key(id) {
                Some(&self.params_map()[id])
            } else {
                None
            }),
    {
        self.params_by_id.get(&id)
    }

    pub fn len(&self) -> (n: usize)
        ensures
            n == self.params_map().len(),
    {
        self.params_by_id.len()
    }

    pub fn is_empty(&self) -> (b: bool)
        ensures
            b == self.params_map().is_empty(),
    {
        self.params_by_id.is_empty()
    }
}

/// No loaded jump charge has a speed or a gravity at most zero: such values
/// are replaced by the defaults, which are positive.
pub proof fn lemma_loaded_params_are_positive<F: Fn(u32) -> bool, G: Fn(u32) -> bool>(
    rows: Seq<JumpChargeParamsRowLikeCpp>,
    spell_visual_exists: F,
    curve_exists: G,
    id: i32,
)
    requires
        params_loaded(rows, spell_visual_exists, curve_exists).contains_key(id),
    ensures
        ({
            let p = params_loaded(rows, spell_visual_exists, curve_exists)[id];
            &&& !f32_bits_at_most_zero(p.jump_gravity)
            &&& match p.spec {
                JumpChargeSpec::Speed(v) => !f32_bits_at_most_zero(v),
                JumpChargeSpec::MoveTimeSeconds(v) => !f32_bits_at_most_zero(v),
            }
        }),
    decreases rows.len(),
{
    if rows.len() > 0 && rows.last().id != id {
        lemma_loaded_params_are_positive(rows.drop_last(), spell_visual_exists, curve_exists, id);
    }
}

} // verus!
