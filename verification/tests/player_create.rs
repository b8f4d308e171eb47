use lib::player_create::{
    class_mask_bit_like_cpp, race_mask_bit_like_cpp, PlayerCreateInfoCastSpellLoadReportLikeCpp,
    PlayerCreateInfoCastSpellRowLikeCpp, PlayerCreateInfoCastSpellStoreLikeCpp,
    PLAYER_CREATE_MODE_NORMAL_LIKE_CPP, PLAYER_CREATE_MODE_NPE_LIKE_CPP,
};

#[test]
fn player_create_cast_spell_expands_masks_and_modes_like_cpp() {
    let store = PlayerCreateInfoCastSpellStoreLikeCpp::from_rows_like_cpp(vec![
        PlayerCreateInfoCastSpellRowLikeCpp {
            race_mask: race_mask_bit_like_cpp(1) | race_mask_bit_like_cpp(2),
            class_mask: class_mask_bit_like_cpp(1),
            spell_id: 100,
            create_mode: PLAYER_CREATE_MODE_NORMAL_LIKE_CPP as i8,
        },
        PlayerCreateInfoCastSpellRowLikeCpp {
            race_mask: 0,
            class_mask: 0,
            spell_id: 200,
            create_mode: PLAYER_CREATE_MODE_NPE_LIKE_CPP as i8,
        },
    ]);

    assert_eq!(store.cast_spells_like_cpp(1, 1, 0), &[100]);
    assert_eq!(store.cast_spells_like_cpp(2, 1, 0), &[100]);
    assert!(store.cast_spells_like_cpp(3, 1, 0).is_empty());
    assert_eq!(store.cast_spells_like_cpp(1, 1, 1), &[200]);
    assert_eq!(store.cast_spells_like_cpp(77, 13, 1), &[200]);
}

#[test]
fn player_create_cast_spell_rejects_invalid_rows_like_cpp() {
    let store = PlayerCreateInfoCastSpellStoreLikeCpp::from_rows_like_cpp(vec![
        PlayerCreateInfoCastSpellRowLikeCpp { race_mask: 1_u64 << 62, class_mask: 0, spell_id: 100, create_mode: 0 },
        PlayerCreateInfoCastSpellRowLikeCpp { race_mask: 0, class_mask: 1_u32 << 31, spell_id: 101, create_mode: 0 },
        PlayerCreateInfoCastSpellRowLikeCpp { race_mask: 0, class_mask: 0, spell_id: 102, create_mode: 2 },
        PlayerCreateInfoCastSpellRowLikeCpp { race_mask: 0, class_mask: 0, spell_id: 103, create_mode: -1 },
    ]);

    assert_eq!(
        *store.load_report_like_cpp(),
        PlayerCreateInfoCastSpellLoadReportLikeCpp {
            skipped_invalid_race_mask: 1,
            skipped_invalid_class_mask: 1,
            skipped_invalid_create_mode: 2,
            ..PlayerCreateInfoCastSpellLoadReportLikeCpp::default()
        }
    );
    assert!(store.cast_spells_like_cpp(1, 1, 0).is_empty());
}

#[test]
fn an_empty_mask_expands_to_every_race_and_class() {
    let store = PlayerCreateInfoCastSpellStoreLikeCpp::from_rows_like_cpp(vec![
        PlayerCreateInfoCastSpellRowLikeCpp { race_mask: 0, class_mask: 0, spell_id: 7, create_mode: 0 },
        PlayerCreateInfoCastSpellRowLikeCpp {
            race_mask: race_mask_bit_like_cpp(52),
            class_mask: class_mask_bit_like_cpp(13),
            spell_id: 8,
            create_mode: 0,
        },
    ]);
    assert_eq!(store.load_report_like_cpp().loaded_assignments, 77 * 14 + 1);
    assert_eq!(store.cast_spells_like_cpp(52, 13, 0), &[7, 8]);
    assert_eq!(store.cast_spells_like_cpp(52, 12, 0), &[7]);
    assert!(store.cast_spells_like_cpp(78, 1, 0).is_empty());
    assert!(store.cast_spells_like_cpp(1, 15, 0).is_empty());
    assert_eq!(race_mask_bit_like_cpp(70), 1 << 16);
    assert_eq!(race_mask_bit_like_cpp(11), 0);
    assert_eq!(class_mask_bit_like_cpp(33), 0);
}
