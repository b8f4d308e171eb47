use lib::progression_rewards::{FactionEntry, FactionStore};
use lib::reputation::ReputationRankLikeCpp::{
    Exalted, Friendly, Hated, Honored, Hostile, Neutral, Revered, Unfriendly,
};
use lib::reputation::{
    reputation_rank_from_standing_like_cpp, CreatureOnKillReputationEntryLikeCpp,
    CreatureOnKillReputationRowLikeCpp, CreatureOnKillReputationSkipReasonLikeCpp,
    CreatureOnKillReputationStoreLikeCpp, RepSpilloverTemplateLikeCpp,
    RepSpilloverTemplateRowLikeCpp, RepSpilloverTemplateSkipReasonLikeCpp,
    RepSpilloverTemplateStoreLikeCpp, ReputationFlagsLikeCpp, ReputationRankLikeCpp,
    ReputationRewardRateEntryLikeCpp, ReputationRewardRateRowLikeCpp,
    ReputationRewardRateSkipReasonLikeCpp, ReputationRewardRateStoreLikeCpp,
    REPUTATION_BOTTOM_LIKE_CPP, REPUTATION_CAP_LIKE_CPP, REPUTATION_RANK_THRESHOLDS_LIKE_CPP,
};

fn rates(value: f32) -> ReputationRewardRateEntryLikeCpp {
    let v = value.to_bits();
    ReputationRewardRateEntryLikeCpp {
        quest_rate: v,
        quest_daily_rate: v,
        quest_weekly_rate: v,
        quest_monthly_rate: v,
        quest_repeatable_rate: v,
        creature_rate: v,
        spell_rate: v,
    }
}

fn faction_store(ids: impl IntoIterator<Item = u32>) -> FactionStore {
    FactionStore::from_entries(
        ids.into_iter()
            .map(|id| FactionEntry::for_test_like_cpp(id, id as i16))
            .collect(),
    )
}

fn creature_template_store(ids: Vec<u32>) -> impl Fn(u32) -> bool {
    move |entry| ids.contains(&entry)
}

#[test]
fn reputation_reward_rate_load_validates_faction_like_cpp() {
    let factions = faction_store([7]);
    let (store, report) = ReputationRewardRateStoreLikeCpp::from_rows_like_cpp(
        vec![
            ReputationRewardRateRowLikeCpp { faction_id: 7, rates: rates(1.5) },
            ReputationRewardRateRowLikeCpp { faction_id: 8, rates: rates(2.0) },
        ],
        &factions,
    );

    assert_eq!(store.len(), 1);
    assert_eq!(store.get(7).map(|rate| f32::from_bits(rate.quest_rate)), Some(1.5));
    assert_eq!(report.loaded, 1);
    assert_eq!(report.skipped.len(), 1);
    assert_eq!(report.skipped[0].reason, ReputationRewardRateSkipReasonLikeCpp::MissingFaction);
}

#[test]
fn reputation_reward_rate_load_rejects_negative_rate_like_cpp() {
    let factions = faction_store([7]);
    let mut invalid = rates(1.0);
    invalid.quest_weekly_rate = (-0.1f32).to_bits();

    let (store, report) = ReputationRewardRateStoreLikeCpp::from_rows_like_cpp(
        vec![ReputationRewardRateRowLikeCpp { faction_id: 7, rates: invalid }],
        &factions,
    );

    assert!(store.is_empty());
    assert_eq!(report.loaded, 0);
    assert_eq!(report.skipped.len(), 1);
    assert_eq!(
        report.skipped[0].reason,
        ReputationRewardRateSkipReasonLikeCpp::NegativeQuestWeeklyRate
    );
}

#[test]
fn creature_onkill_reputation_load_validates_creature_and_factions_like_cpp() {
    let creatures = creature_template_store(vec![100]);
    let factions = faction_store([7, 8]);
    let valid = CreatureOnKillReputationEntryLikeCpp {
        rep_faction_1: 7,
        rep_faction_2: 8,
        reputation_max_cap_1: ReputationRankLikeCpp::Honored.as_u8(),
        rep_value_1: 10,
        reputation_max_cap_2: ReputationRankLikeCpp::Friendly.as_u8(),
        rep_value_2: 20,
        is_team_award_1: true,
        is_team_award_2: false,
        team_dependent: true,
    };

    let (store, report) = CreatureOnKillReputationStoreLikeCpp::from_rows_like_cpp(
        vec![
            CreatureOnKillReputationRowLikeCpp { creature_id: 100, entry: valid },
            CreatureOnKillReputationRowLikeCpp { creature_id: 999, entry: valid },
            CreatureOnKillReputationRowLikeCpp {
                creature_id: 100,
                entry: CreatureOnKillReputationEntryLikeCpp { rep_faction_1: 999, ..valid },
            },
            CreatureOnKillReputationRowLikeCpp {
                creature_id: 100,
                entry: CreatureOnKillReputationEntryLikeCpp {
                    rep_faction_1: 0,
                    rep_faction_2: 999,
                    ..valid
                },
            },
        ],
        &creatures,
        &factions,
    );

    assert_eq!(store.len(), 1);
    assert_eq!(store.get(100), Some(&valid));
    assert_eq!(report.loaded, 1);
    assert_eq!(
        report.skipped.iter().map(|skipped| skipped.reason).collect::<Vec<_>>(),
        vec![
            CreatureOnKillReputationSkipReasonLikeCpp::MissingCreatureTemplate,
            CreatureOnKillReputationSkipReasonLikeCpp::MissingFaction1 { faction_id: 999 },
            CreatureOnKillReputationSkipReasonLikeCpp::MissingFaction2 { faction_id: 999 },
        ]
    );
}

#[test]
fn reputation_spillover_template_load_validates_like_cpp() {
    let mut source = FactionEntry::for_test_like_cpp(10, 1);
    source.parent_faction_id = 1;
    let spill = FactionEntry::for_test_like_cpp(11, 2);
    let missing_parent = FactionEntry::for_test_like_cpp(12, 3);
    let mut hidden = FactionEntry::for_test_like_cpp(13, -1);
    hidden.parent_faction_id = 1;
    let factions = FactionStore::from_entries(vec![source, spill, missing_parent, hidden]);

    let mut valid_template = RepSpilloverTemplateLikeCpp::empty_like_cpp();
    valid_template.faction[0] = 11;
    valid_template.faction_rate[0] = 0.5f32.to_bits();
    valid_template.faction_rank[0] = ReputationRankLikeCpp::Honored.as_u8();

    let mut missing_spillover = RepSpilloverTemplateLikeCpp::empty_like_cpp();
    missing_spillover.faction[0] = 999;

    let mut invalid_rank = RepSpilloverTemplateLikeCpp::empty_like_cpp();
    invalid_rank.faction[0] = 11;
    invalid_rank.faction_rank[0] = 8;

    let mut cannot_have_reputation = RepSpilloverTemplateLikeCpp::empty_like_cpp();
    cannot_have_reputation.faction[0] = 13;

    let (store, report) = RepSpilloverTemplateStoreLikeCpp::from_rows_like_cpp(
        vec![
            RepSpilloverTemplateRowLikeCpp { faction_id: 10, template: valid_template },
            RepSpilloverTemplateRowLikeCpp {
                faction_id: 12,
                template: RepSpilloverTemplateLikeCpp::empty_like_cpp(),
            },
            RepSpilloverTemplateRowLikeCpp { faction_id: 10, template: missing_spillover },
            RepSpilloverTemplateRowLikeCpp { faction_id: 10, template: invalid_rank },
            RepSpilloverTemplateRowLikeCpp { faction_id: 10, template: cannot_have_reputation },
            RepSpilloverTemplateRowLikeCpp {
                faction_id: 999,
                template: RepSpilloverTemplateLikeCpp::empty_like_cpp(),
            },
        ],
        &factions,
    );

    assert_eq!(store.len(), 1);
    assert_eq!(store.get(10).expect("stored template").faction[0], 11);
    assert_eq!(report.loaded, 1);
    assert_eq!(
        report.skipped.iter().map(|skipped| skipped.reason).collect::<Vec<_>>(),
        vec![
            RepSpilloverTemplateSkipReasonLikeCpp::SourceFactionHasNoParent,
            RepSpilloverTemplateSkipReasonLikeCpp::MissingSpilloverFaction { slot: 0, faction_id: 999 },
            RepSpilloverTemplateSkipReasonLikeCpp::InvalidRank { slot: 0, rank: 8 },
            RepSpilloverTemplateSkipReasonLikeCpp::SpilloverFactionCannotHaveReputation {
                slot: 0,
                faction_id: 13,
            },
            RepSpilloverTemplateSkipReasonLikeCpp::MissingSourceFaction,
        ]
    );
}

#[test]
fn reputation_rank_thresholds_match_cpp_boundaries() {
    assert_eq!(REPUTATION_BOTTOM_LIKE_CPP, -42000);
    assert_eq!(REPUTATION_CAP_LIKE_CPP, 42000);
    assert_eq!(
        REPUTATION_RANK_THRESHOLDS_LIKE_CPP,
        [-42000, -6000, -3000, 0, 3000, 9000, 21000, 42000]
    );

    for (standing, expected) in [
        (-50000, Hated),
        (-42000, Hated),
        (-6001, Hated),
        (-6000, Hostile),
        (-3001, Hostile),
        (-3000, Unfriendly),
        (-1, Unfriendly),
        (0, Neutral),
        (2999, Neutral),
        (3000, Friendly),
        (8999, Friendly),
        (9000, Honored),
        (20999, Honored),
        (21000, Revered),
        (41999, Revered),
        (42000, Exalted),
        (50000, Exalted),
    ] {
        assert_eq!(reputation_rank_from_standing_like_cpp(standing), expected);
    }
}

#[test]
fn reputation_flags_match_cpp_underlying_bits() {
    assert_eq!(ReputationFlagsLikeCpp::VISIBLE, 0x0001);
    assert_eq!(ReputationFlagsLikeCpp::AT_WAR, 0x0002);
    assert_eq!(ReputationFlagsLikeCpp::HIDDEN, 0x0004);
    assert_eq!(ReputationFlagsLikeCpp::HEADER, 0x0008);
    assert_eq!(ReputationFlagsLikeCpp::PEACEFUL, 0x0010);
    assert_eq!(ReputationFlagsLikeCpp::INACTIVE, 0x0020);
    assert_eq!(ReputationFlagsLikeCpp::SHOW_PROPAGATED, 0x0040);
    assert_eq!(ReputationFlagsLikeCpp::HEADER_SHOWS_BAR, 0x0080);
    assert_eq!(ReputationFlagsLikeCpp::CAPITAL_CITY_FOR_RACE_CHANGE, 0x0100);
    assert_eq!(ReputationFlagsLikeCpp::GUILD, 0x0200);
    assert_eq!(ReputationFlagsLikeCpp::GARRISON_INVASION, 0x0400);
}

#[test]
fn rank_numbers_round_trip() {
    for n in 0..8u8 {
        assert_eq!(ReputationRankLikeCpp::from_u8_like_cpp(n).unwrap().as_u8(), n);
    }
    assert_eq!(ReputationRankLikeCpp::from_u8_like_cpp(8), None);
    assert!(ReputationRankLikeCpp::Hated < ReputationRankLikeCpp::Exalted);
}

#[test]
fn flags_set_and_clear_bits() {
    let f = ReputationFlagsLikeCpp::empty()
        .union(ReputationFlagsLikeCpp::VISIBLE | ReputationFlagsLikeCpp::AT_WAR);
    assert!(f.contains(ReputationFlagsLikeCpp::AT_WAR));
    assert!(!f.contains(ReputationFlagsLikeCpp::HIDDEN));
    let g = f.difference(ReputationFlagsLikeCpp::AT_WAR);
    assert_eq!(g.bits(), 0x0001);
    assert_eq!(ReputationFlagsLikeCpp::from_bits_retain(0x8000).bits(), 0x8000);
}

#[test]
fn negative_zero_and_nan_rates_are_not_below_zero() {
    let factions = faction_store([7]);
    let mut odd = rates(0.0);
    odd.quest_rate = (-0.0f32).to_bits();
    odd.spell_rate = f32::NAN.to_bits() | 0x8000_0000;
    let mut negative_spell = rates(3.0);
    negative_spell.spell_rate = f32::NEG_INFINITY.to_bits();
    let (store, report) = ReputationRewardRateStoreLikeCpp::from_rows_like_cpp(
        vec![
            ReputationRewardRateRowLikeCpp { faction_id: 7, rates: odd },
            ReputationRewardRateRowLikeCpp { faction_id: 7, rates: negative_spell },
        ],
        &factions,
    );
    assert_eq!(store.get(7), Some(&odd));
    assert_eq!(report.loaded, 1);
    assert_eq!(report.skipped[0].reason, ReputationRewardRateSkipReasonLikeCpp::NegativeSpellRate);
}
