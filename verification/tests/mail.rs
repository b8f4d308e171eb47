use lib::mail::{MailLevelRewardRowLikeCpp, MailLevelRewardStoreLikeCpp, MAX_LEVEL_LIKE_CPP};

const RACE_HUMAN_MASK: u64 = 1 << (1 - 1);
const RACE_ORC_MASK: u64 = 1 << (2 - 1);
const RACE_DRACTHYR_ALLIANCE_MASK: u64 = 1 << 16;

fn row(level: u8, race_mask: u64, mail_template_id: u32, sender_entry: u32) -> MailLevelRewardRowLikeCpp {
    MailLevelRewardRowLikeCpp { level, race_mask, mail_template_id, sender_entry }
}

#[test]
fn load_mail_level_rewards_filters_invalid_rows_like_cpp() {
    let outcome = MailLevelRewardStoreLikeCpp::from_rows_like_cpp(
        vec![
            row(10, RACE_HUMAN_MASK, 100, 200),
            row(MAX_LEVEL_LIKE_CPP + 1, RACE_HUMAN_MASK, 100, 200),
            row(11, 0, 100, 200),
            row(12, RACE_HUMAN_MASK, 999, 200),
            row(13, RACE_HUMAN_MASK, 100, 999),
        ],
        |mail_template_id| mail_template_id == 100,
        |sender_entry| sender_entry == 200,
    );

    assert_eq!(outcome.report.rows_seen, 5);
    assert_eq!(outcome.report.loaded_rows, 1);
    assert_eq!(outcome.report.skipped_level_too_high, vec![MAX_LEVEL_LIKE_CPP + 1]);
    assert_eq!(outcome.report.skipped_invalid_race_mask, vec![(11, 0)]);
    assert_eq!(outcome.report.skipped_missing_mail_template, vec![(12, 999)]);
    assert_eq!(outcome.report.skipped_missing_sender_creature, vec![(13, 999)]);
    assert_eq!(outcome.store.len(), 1);
}

#[test]
fn get_mail_level_reward_returns_first_matching_race_like_cpp() {
    let outcome = MailLevelRewardStoreLikeCpp::from_rows_like_cpp(
        vec![row(20, RACE_ORC_MASK, 101, 201), row(20, RACE_HUMAN_MASK, 102, 202), row(20, RACE_HUMAN_MASK, 103, 203)],
        |_| true,
        |_| true,
    );

    let reward = outcome.store.mail_level_reward_like_cpp(20, 1).expect("human reward should match");

    assert_eq!(reward.mail_template_id, 102);
    assert_eq!(reward.sender_entry, 202);
    assert!(outcome.store.mail_level_reward_like_cpp(20, 3).is_none());
}

#[test]
fn get_mail_level_reward_uses_extended_race_masks_like_cpp() {
    let outcome = MailLevelRewardStoreLikeCpp::from_rows_like_cpp(
        vec![row(30, RACE_DRACTHYR_ALLIANCE_MASK, 104, 204)],
        |_| true,
        |_| true,
    );

    assert_eq!(
        outcome
            .store
            .mail_level_reward_like_cpp(30, 52)
            .expect("dracthyr alliance reward should match")
            .mail_template_id,
        104
    );
}

#[test]
fn rewards_keep_row_order_per_level_and_count_over_levels() {
    let outcome = MailLevelRewardStoreLikeCpp::from_rows_like_cpp(
        vec![row(5, RACE_HUMAN_MASK, 1, 1), row(6, RACE_ORC_MASK, 2, 2), row(5, RACE_ORC_MASK, 3, 3)],
        |_| true,
        |_| true,
    );
    let at5: Vec<u32> = outcome.store.rewards_for_level_like_cpp(5).iter().map(|r| r.mail_template_id).collect();
    assert_eq!(at5, vec![1, 3]);
    assert!(outcome.store.rewards_for_level_like_cpp(7).is_empty());
    assert_eq!(outcome.store.len(), 3);
    assert!(!outcome.store.is_empty());
    assert!(outcome.store.mail_level_reward_like_cpp(5, 0).is_none());
    assert!(outcome.store.mail_level_reward_like_cpp(5, 200).is_none());
    let empty = MailLevelRewardStoreLikeCpp::from_rows_like_cpp(vec![], |_| true, |_| true);
    assert!(empty.store.is_empty());
    assert_eq!(empty.store.len(), 0);
}
