use lib::jump_charge::{
    JumpChargeParamsRowLikeCpp, JumpChargeParamsStoreLikeCpp, JumpChargeSpec, MOVEMENT_GRAVITY_LIKE_CPP,
    SPEED_CHARGE_LIKE_CPP,
};

const EPSILON: f32 = 0.000_01;

fn row(id: i32) -> JumpChargeParamsRowLikeCpp {
    JumpChargeParamsRowLikeCpp {
        id,
        speed: 30.0f32.to_bits(),
        treat_speed_as_move_time_seconds: false,
        jump_gravity: 10.0f32.to_bits(),
        spell_visual_id: None,
        progress_curve_id: None,
        parabolic_curve_id: None,
    }
}

fn assert_close(actual: u32, expected: f32) {
    let actual = f32::from_bits(actual);
    assert!((actual - expected).abs() < EPSILON, "expected {expected}, got {actual}");
}

#[test]
fn jump_charge_params_load_valid_rows_like_cpp() {
    let mut valid = row(7);
    valid.treat_speed_as_move_time_seconds = true;
    valid.spell_visual_id = Some(10);
    valid.progress_curve_id = Some(20);
    valid.parabolic_curve_id = Some(21);

    let outcome = JumpChargeParamsStoreLikeCpp::from_rows_like_cpp(vec![valid], |id| id == 10, |id| id >= 20);

    assert_eq!(outcome.report.rows_seen, 1);
    assert_eq!(outcome.report.loaded_params, 1);
    let loaded = outcome.store.get_jump_charge_params_like_cpp(7).unwrap();
    assert_eq!(loaded.spec, JumpChargeSpec::MoveTimeSeconds(30.0f32.to_bits()));
    assert_close(loaded.jump_gravity, 10.0);
    assert_eq!(loaded.spell_visual_id, Some(10));
    assert_eq!(loaded.progress_curve_id, Some(20));
    assert_eq!(loaded.parabolic_curve_id, Some(21));
}

#[test]
fn jump_charge_params_correct_invalid_speed_and_gravity_like_cpp() {
    let mut invalid = row(8);
    invalid.speed = 0.0f32.to_bits();
    invalid.jump_gravity = (-1.0f32).to_bits();

    let outcome = JumpChargeParamsStoreLikeCpp::from_rows_like_cpp(vec![invalid], |_| true, |_| true);

    let loaded = outcome.store.get_jump_charge_params_like_cpp(8).unwrap();
    assert_eq!(loaded.spec, JumpChargeSpec::Speed(SPEED_CHARGE_LIKE_CPP));
    assert_close(loaded.jump_gravity, f32::from_bits(MOVEMENT_GRAVITY_LIKE_CPP));
    assert_eq!(outcome.report.corrected_invalid_speeds, [(8, 0.0f32.to_bits())]);
    assert_eq!(outcome.report.corrected_invalid_jump_gravities, [(8, (-1.0f32).to_bits())]);
}

#[test]
fn jump_charge_params_ignore_missing_optional_refs_like_cpp() {
    let mut invalid = row(9);
    invalid.spell_visual_id = Some(11);
    invalid.progress_curve_id = Some(22);
    invalid.parabolic_curve_id = Some(33);

    let outcome = JumpChargeParamsStoreLikeCpp::from_rows_like_cpp(vec![invalid], |_| false, |_| false);

    let loaded = outcome.store.get_jump_charge_params_like_cpp(9).unwrap();
    assert_eq!(loaded.spell_visual_id, None);
    assert_eq!(loaded.progress_curve_id, None);
    assert_eq!(loaded.parabolic_curve_id, None);
    assert_eq!(outcome.report.ignored_missing_spell_visuals, [(9, 11)]);
    assert_eq!(outcome.report.ignored_missing_progress_curves, [(9, 22, Some(11))]);
    assert_eq!(outcome.report.ignored_missing_parabolic_curves, [(9, 33)]);
}

#[test]
fn jump_charge_params_duplicate_id_overwrites_like_cpp() {
    let mut first = row(10);
    first.speed = 1.0f32.to_bits();
    let mut second = row(10);
    second.speed = 2.0f32.to_bits();

    let outcome = JumpChargeParamsStoreLikeCpp::from_rows_like_cpp(vec![first, second], |_| true, |_| true);

    assert_eq!(outcome.report.rows_seen, 2);
    assert_eq!(outcome.report.loaded_params, 1);
    assert_eq!(
        outcome.store.get_jump_charge_params_like_cpp(10).unwrap().spec,
        JumpChargeSpec::Speed(2.0f32.to_bits())
    );
}

#[test]
fn defaults_are_the_documented_values_and_negative_refs_are_dropped() {
    assert_eq!(f32::from_bits(SPEED_CHARGE_LIKE_CPP), 42.0);
    assert_eq!(f32::from_bits(MOVEMENT_GRAVITY_LIKE_CPP), 19.291_105_270_385_74_f32);
    let mut r = row(1);
    r.speed = (-0.0f32).to_bits();
    r.jump_gravity = f32::NAN.to_bits();
    r.spell_visual_id = Some(-5);
    let outcome = JumpChargeParamsStoreLikeCpp::from_rows_like_cpp(vec![r], |_| true, |_| true);
    let p = outcome.store.get_jump_charge_params_like_cpp(1).unwrap();
    assert_eq!(p.spec, JumpChargeSpec::Speed(SPEED_CHARGE_LIKE_CPP));
    assert_eq!(p.jump_gravity, f32::NAN.to_bits());
    assert_eq!(p.spell_visual_id, None);
    assert_eq!(outcome.report.ignored_missing_spell_visuals, [(1, -5)]);
    assert_eq!(outcome.store.len(), 1);
    assert!(!outcome.store.is_empty());
}
