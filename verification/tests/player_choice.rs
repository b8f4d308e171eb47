use lib::player_choice::{
    PlayerChoiceResponseRewardCurrencyRowLikeCpp, PlayerChoiceResponseRewardFactionRowLikeCpp,
    PlayerChoiceResponseRewardItemRowLikeCpp, PlayerChoiceResponseRewardRowLikeCpp,
    PlayerChoiceResponseRowLikeCpp, PlayerChoiceRowLikeCpp, PlayerChoiceStoreLikeCpp,
};
fn choice(choice_id: i32, question: &str) -> PlayerChoiceRowLikeCpp {
    PlayerChoiceRowLikeCpp {
        choice_id,
        ui_texture_kit_id: 11,
        sound_kit_id: 22,
        close_sound_kit_id: 33,
        duration: 44,
        question: question.to_string(),
        pending_choice_text: "pending".to_string(),
        hide_warboard_header: 1,
        keep_open_after_choice: 0,
    }
}

fn response(
    choice_id: i32,
    response_id: i32,
    response_identifier: u16,
) -> PlayerChoiceResponseRowLikeCpp {
    PlayerChoiceResponseRowLikeCpp {
        choice_id,
        response_id,
        response_identifier,
        choice_art_file_id: 1,
        flags: 2,
        widget_set_id: 3,
        ui_texture_atlas_element_id: 4,
        sound_kit_id: 5,
        group_id: 6,
        ui_texture_kit_id: 7,
        answer: format!("answer {response_id}"),
        header: "header".to_string(),
        sub_header: "sub".to_string(),
        button_tooltip: "tip".to_string(),
        description: "desc".to_string(),
        confirmation: "confirm".to_string(),
        reward_quest_id: Some(42),
    }
}

fn reward(choice_id: i32, response_id: i32) -> PlayerChoiceResponseRewardRowLikeCpp {
    PlayerChoiceResponseRewardRowLikeCpp {
        choice_id,
        response_id,
        title_id: 100,
        package_id: 200,
        skill_line_id: 300,
        skill_point_count: 4,
        arena_point_count: 5,
        honor_point_count: 6,
        money: 7,
        xp: 8,
    }
}

fn reward_item(
    choice_id: i32,
    response_id: i32,
    item_id: u32,
    bonus_list_ids_raw: &str,
) -> PlayerChoiceResponseRewardItemRowLikeCpp {
    PlayerChoiceResponseRewardItemRowLikeCpp {
        choice_id,
        response_id,
        item_id,
        bonus_list_ids_raw: bonus_list_ids_raw.to_string(),
        quantity: 3,
    }
}

fn reward_currency(
    choice_id: i32,
    response_id: i32,
    currency_id: u32,
) -> PlayerChoiceResponseRewardCurrencyRowLikeCpp {
    PlayerChoiceResponseRewardCurrencyRowLikeCpp {
        choice_id,
        response_id,
        currency_id,
        quantity: 5,
    }
}

fn reward_faction(
    choice_id: i32,
    response_id: i32,
    faction_id: u32,
) -> PlayerChoiceResponseRewardFactionRowLikeCpp {
    PlayerChoiceResponseRewardFactionRowLikeCpp {
        choice_id,
        response_id,
        faction_id,
        quantity: 6,
    }
}

#[test]
fn player_choices_load_core_fields_and_response_order_like_cpp() {
    let outcome = PlayerChoiceStoreLikeCpp::from_rows_like_cpp(
        vec![choice(10, "question")],
        vec![response(10, 200, 2), response(10, 100, 1)],
    );

    assert_eq!(outcome.report.choice_rows_seen, 1);
    assert_eq!(outcome.report.response_rows_seen, 2);
    assert_eq!(outcome.report.loaded_responses, 2);
    assert_eq!(outcome.report.loaded_rewards, 0);
    assert!(outcome.report.locales_pending);

    let loaded = outcome.store.get_player_choice_like_cpp(10).unwrap();
    assert_eq!(loaded.choice_id, 10);
    assert_eq!(loaded.ui_texture_kit_id, 11);
    assert_eq!(loaded.sound_kit_id, 22);
    assert_eq!(loaded.close_sound_kit_id, 33);
    assert_eq!(loaded.duration, 44);
    assert_eq!(loaded.question, "question");
    assert_eq!(loaded.pending_choice_text, "pending");
    assert!(loaded.hide_warboard_header);
    assert!(!loaded.keep_open_after_choice);
    assert_eq!(loaded.responses[0].response_id, 200);
    assert_eq!(loaded.responses[1].response_id, 100);
    assert_eq!(
        loaded
            .get_response_like_cpp(100)
            .unwrap()
            .response_identifier,
        1
    );
    assert_eq!(
        loaded
            .get_response_by_identifier_like_cpp(2)
            .unwrap()
            .answer,
        "answer 200"
    );
}

#[test]
fn player_choices_skip_responses_with_missing_choice_like_cpp() {
    let outcome = PlayerChoiceStoreLikeCpp::from_rows_like_cpp(
        vec![choice(1, "kept")],
        vec![response(99, 7, 1), response(1, 8, 2)],
    );

    assert_eq!(outcome.report.response_rows_seen, 2);
    assert_eq!(outcome.report.loaded_responses, 1);
    assert_eq!(outcome.report.skipped_responses_missing_choice, vec![(99, 7)]);
    assert_eq!(
        outcome
            .store
            .get_player_choice_like_cpp(1)
            .unwrap()
            .responses
            .len(),
        1
    );
}

#[test]
fn player_choices_duplicate_choice_id_overwrites_base_row_like_cpp() {
    let outcome = PlayerChoiceStoreLikeCpp::from_rows_like_cpp(
        vec![choice(1, "first"), choice(1, "second")],
        vec![response(1, 77, 9)],
    );

    let loaded = outcome.store.get_player_choice_like_cpp(1).unwrap();
    assert_eq!(loaded.question, "second");
    assert_eq!(loaded.responses.len(), 1);
}

#[test]
fn player_choices_attach_and_validate_base_rewards_like_cpp() {
    let outcome = PlayerChoiceStoreLikeCpp::from_rows_and_rewards_like_cpp(
        vec![choice(1, "rewarded")],
        vec![response(1, 10, 1)],
        vec![reward(1, 10)],
        |id| id == 100,
        |id| id == 200,
        |id| id == 300,
    );

    assert_eq!(outcome.report.reward_rows_seen, 1);
    assert_eq!(outcome.report.loaded_rewards, 1);
    let reward = outcome
        .store
        .get_player_choice_like_cpp(1)
        .unwrap()
        .get_response_like_cpp(10)
        .unwrap()
        .reward
        .as_ref()
        .unwrap();
    assert_eq!(reward.title_id, 100);
    assert_eq!(reward.package_id, 200);
    assert_eq!(reward.skill_line_id, 300);
    assert_eq!(reward.skill_point_count, 4);
    assert_eq!(reward.money, 7);
    assert_eq!(reward.xp, 8);
    assert!(reward.items.is_empty());
    assert!(reward.currency.is_empty());
    assert!(reward.faction.is_empty());
    assert!(reward.item_choices.is_empty());
}

#[test]
fn player_choices_skip_rewards_with_missing_choice_or_response_like_cpp() {
    let outcome = PlayerChoiceStoreLikeCpp::from_rows_and_rewards_like_cpp(
        vec![choice(1, "rewarded")],
        vec![response(1, 10, 1)],
        vec![reward(99, 10), reward(1, 77), reward(1, 10)],
        |_| true,
        |_| true,
        |_| true,
    );

    assert_eq!(outcome.report.reward_rows_seen, 3);
    assert_eq!(outcome.report.loaded_rewards, 1);
    assert_eq!(outcome.report.skipped_rewards_missing_choice, vec![(99, 10)]);
    assert_eq!(outcome.report.skipped_rewards_missing_response, vec![(1, 77)]);
}

#[test]
fn player_choices_zero_invalid_reward_references_like_cpp() {
    let outcome = PlayerChoiceStoreLikeCpp::from_rows_and_rewards_like_cpp(
        vec![choice(1, "rewarded")],
        vec![response(1, 10, 1)],
        vec![reward(1, 10)],
        |_| false,
        |_| false,
        |_| false,
    );

    let reward = outcome
        .store
        .get_player_choice_like_cpp(1)
        .unwrap()
        .get_response_like_cpp(10)
        .unwrap()
        .reward
        .as_ref()
        .unwrap();
    assert_eq!(reward.title_id, 0);
    assert_eq!(reward.package_id, 0);
    assert_eq!(reward.skill_line_id, 0);
    assert_eq!(reward.skill_point_count, 0);
    assert_eq!(outcome.report.invalid_reward_titles, vec![(1, 10, 100)]);
    assert_eq!(outcome.report.invalid_reward_packages, vec![(1, 10, 200)]);
    assert_eq!(outcome.report.invalid_reward_skill_lines, vec![(1, 10, 300)]);
}

#[test]
fn player_choices_duplicate_reward_overwrites_like_cpp_emplace() {
    let mut second = reward(1, 10);
    second.title_id = 101;
    second.package_id = 201;

    let outcome = PlayerChoiceStoreLikeCpp::from_rows_and_rewards_like_cpp(
        vec![choice(1, "rewarded")],
        vec![response(1, 10, 1)],
        vec![reward(1, 10), second],
        |_| true,
        |_| true,
        |_| true,
    );

    assert_eq!(outcome.report.loaded_rewards, 2);
    let reward = outcome
        .store
        .get_player_choice_like_cpp(1)
        .unwrap()
        .get_response_like_cpp(10)
        .unwrap()
        .reward
        .as_ref()
        .unwrap();
    assert_eq!(reward.title_id, 101);
    assert_eq!(reward.package_id, 201);
}

#[test]
fn player_choices_attach_reward_items_and_parse_bonus_lists_like_cpp() {
    let outcome = PlayerChoiceStoreLikeCpp::from_rows_rewards_and_items_like_cpp(
        vec![choice(1, "rewarded")],
        vec![response(1, 10, 1)],
        vec![reward(1, 10)],
        vec![
            reward_item(1, 10, 700, "7 bad -9 7 0x10 12"),
            reward_item(1, 10, 701, ""),
        ],
        |_| true,
        |_| true,
        |_| true,
        |item_id| item_id == 700 || item_id == 701,
    );

    assert_eq!(outcome.report.reward_item_rows_seen, 2);
    assert_eq!(outcome.report.loaded_reward_items, 2);
    let items = &outcome
        .store
        .get_player_choice_like_cpp(1)
        .unwrap()
        .get_response_like_cpp(10)
        .unwrap()
        .reward
        .as_ref()
        .unwrap()
        .items;
    assert_eq!(items[0].id, 700);
    assert_eq!(items[0].bonus_list_ids, vec![7, -9, 7, 12]);
    assert_eq!(items[0].quantity, 3);
    assert_eq!(items[1].id, 701);
    assert!(items[1].bonus_list_ids.is_empty());
}

#[test]
fn player_choices_skip_reward_items_with_missing_refs_like_cpp() {
    let outcome = PlayerChoiceStoreLikeCpp::from_rows_rewards_and_items_like_cpp(
        vec![choice(1, "rewarded"), choice(2, "no reward")],
        vec![response(1, 10, 1), response(2, 20, 2)],
        vec![reward(1, 10)],
        vec![
            reward_item(99, 10, 700, ""),
            reward_item(1, 77, 700, ""),
            reward_item(2, 20, 700, ""),
            reward_item(1, 10, 999, ""),
            reward_item(1, 10, 700, ""),
        ],
        |_| true,
        |_| true,
        |_| true,
        |item_id| item_id == 700,
    );

    assert_eq!(outcome.report.reward_item_rows_seen, 5);
    assert_eq!(outcome.report.loaded_reward_items, 1);
    assert_eq!(
        outcome.report.skipped_reward_items_missing_choice,
        vec![(99, 10)]
    );
    assert_eq!(
        outcome.report.skipped_reward_items_missing_response,
        vec![(1, 77)]
    );
    assert_eq!(
        outcome.report.skipped_reward_items_missing_reward,
        vec![(2, 20)]
    );
    assert_eq!(
        outcome.report.skipped_reward_items_missing_item,
        vec![(1, 10, 999)]
    );
}

#[test]
fn player_choices_attach_reward_currencies_like_cpp() {
    let outcome = PlayerChoiceStoreLikeCpp::from_rows_rewards_items_and_currencies_like_cpp(
        vec![choice(1, "rewarded")],
        vec![response(1, 10, 1)],
        vec![reward(1, 10)],
        vec![],
        vec![reward_currency(1, 10, 777), reward_currency(1, 10, 778)],
        |_| true,
        |_| true,
        |_| true,
        |_| true,
        |currency_id| currency_id == 777 || currency_id == 778,
    );

    assert_eq!(outcome.report.reward_currency_rows_seen, 2);
    assert_eq!(outcome.report.loaded_reward_currencies, 2);
    let currency = &outcome
        .store
        .get_player_choice_like_cpp(1)
        .unwrap()
        .get_response_like_cpp(10)
        .unwrap()
        .reward
        .as_ref()
        .unwrap()
        .currency;
    assert_eq!(currency[0].id, 777);
    assert_eq!(currency[0].quantity, 5);
    assert_eq!(currency[1].id, 778);
}

#[test]
fn player_choices_skip_reward_currencies_with_missing_refs_like_cpp() {
    let outcome = PlayerChoiceStoreLikeCpp::from_rows_rewards_items_and_currencies_like_cpp(
        vec![choice(1, "rewarded"), choice(2, "no reward")],
        vec![response(1, 10, 1), response(2, 20, 2)],
        vec![reward(1, 10)],
        vec![],
        vec![
            reward_currency(99, 10, 777),
            reward_currency(1, 77, 777),
            reward_currency(2, 20, 777),
            reward_currency(1, 10, 999),
            reward_currency(1, 10, 777),
        ],
        |_| true,
        |_| true,
        |_| true,
        |_| true,
        |currency_id| currency_id == 777,
    );

    assert_eq!(outcome.report.reward_currency_rows_seen, 5);
    assert_eq!(outcome.report.loaded_reward_currencies, 1);
    assert_eq!(
        outcome.report.skipped_reward_currencies_missing_choice,
        vec![(99, 10)]
    );
    assert_eq!(
        outcome.report.skipped_reward_currencies_missing_response,
        vec![(1, 77)]
    );
    assert_eq!(
        outcome.report.skipped_reward_currencies_missing_reward,
        vec![(2, 20)]
    );
    assert_eq!(
        outcome.report.skipped_reward_currencies_missing_currency,
        vec![(1, 10, 999)]
    );
}

#[test]
fn player_choices_attach_reward_factions_like_cpp() {
    let outcome =
        PlayerChoiceStoreLikeCpp::from_rows_rewards_items_currencies_and_factions_like_cpp(
            vec![choice(1, "rewarded")],
            vec![response(1, 10, 1)],
            vec![reward(1, 10)],
            vec![],
            vec![],
            vec![reward_faction(1, 10, 777), reward_faction(1, 10, 778)],
            |_| true,
            |_| true,
            |_| true,
            |_| true,
            |_| true,
            |faction_id| faction_id == 777 || faction_id == 778,
        );

    assert_eq!(outcome.report.reward_faction_rows_seen, 2);
    assert_eq!(outcome.report.loaded_reward_factions, 2);
    let faction = &outcome
        .store
        .get_player_choice_like_cpp(1)
        .unwrap()
        .get_response_like_cpp(10)
        .unwrap()
        .reward
        .as_ref()
        .unwrap()
        .faction;
    assert_eq!(faction[0].id, 777);
    assert_eq!(faction[0].quantity, 6);
    assert_eq!(faction[1].id, 778);
}

#[test]
fn player_choices_skip_reward_factions_with_missing_refs_like_cpp() {
    let outcome =
        PlayerChoiceStoreLikeCpp::from_rows_rewards_items_currencies_and_factions_like_cpp(
            vec![choice(1, "rewarded"), choice(2, "no reward")],
            vec![response(1, 10, 1), response(2, 20, 2)],
            vec![reward(1, 10)],
            vec![],
            vec![],
            vec![
                reward_faction(99, 10, 777),
                reward_faction(1, 77, 777),
                reward_faction(2, 20, 777),
                reward_faction(1, 10, 999),
                reward_faction(1, 10, 777),
            ],
            |_| true,
            |_| true,
            |_| true,
            |_| true,
            |_| true,
            |faction_id| faction_id == 777,
        );

    assert_eq!(outcome.report.reward_faction_rows_seen, 5);
    assert_eq!(outcome.report.loaded_reward_factions, 1);
    assert_eq!(
        outcome.report.skipped_reward_factions_missing_choice,
        vec![(99, 10)]
    );
    assert_eq!(
        outcome.report.skipped_reward_factions_missing_response,
        vec![(1, 77)]
    );
    assert_eq!(
        outcome.report.skipped_reward_factions_missing_reward,
        vec![(2, 20)]
    );
    assert_eq!(
        outcome.report.skipped_reward_factions_missing_faction,
        vec![(1, 10, 999)]
    );
}

#[test]
fn player_choices_attach_reward_item_choices_and_parse_bonus_lists_like_cpp() {
    let outcome =
        PlayerChoiceStoreLikeCpp::from_rows_rewards_items_currencies_factions_and_item_choices_like_cpp(
            vec![choice(1, "rewarded")],
            vec![response(1, 10, 1)],
            vec![reward(1, 10)],
            vec![],
            vec![],
            vec![],
            vec![
                reward_item(1, 10, 700, "7 bad -9 7 0x10 12"),
                reward_item(1, 10, 701, ""),
            ],
            |_| true,
            |_| true,
            |_| true,
            |item_id| item_id == 700 || item_id == 701,
            |_| true,
            |_| true,
        );

    assert_eq!(outcome.report.reward_item_choice_rows_seen, 2);
    assert_eq!(outcome.report.loaded_reward_item_choices, 2);
    let item_choices = &outcome
        .store
        .get_player_choice_like_cpp(1)
        .unwrap()
        .get_response_like_cpp(10)
        .unwrap()
        .reward
        .as_ref()
        .unwrap()
        .item_choices;
    assert_eq!(item_choices[0].id, 700);
    assert_eq!(item_choices[0].bonus_list_ids, vec![7, -9, 7, 12]);
    assert_eq!(item_choices[0].quantity, 3);
    assert_eq!(item_choices[1].id, 701);
    assert!(item_choices[1].bonus_list_ids.is_empty());
}

#[test]
fn player_choices_skip_reward_item_choices_with_missing_refs_like_cpp() {
    let outcome =
        PlayerChoiceStoreLikeCpp::from_rows_rewards_items_currencies_factions_and_item_choices_like_cpp(
            vec![choice(1, "rewarded"), choice(2, "no reward")],
            vec![response(1, 10, 1), response(2, 20, 2)],
            vec![reward(1, 10)],
            vec![],
            vec![],
            vec![],
            vec![
                reward_item(99, 10, 700, ""),
                reward_item(1, 77, 700, ""),
                reward_item(2, 20, 700, ""),
                reward_item(1, 10, 999, ""),
                reward_item(1, 10, 700, ""),
            ],
            |_| true,
            |_| true,
            |_| true,
            |item_id| item_id == 700,
            |_| true,
            |_| true,
        );

    assert_eq!(outcome.report.reward_item_choice_rows_seen, 5);
    assert_eq!(outcome.report.loaded_reward_item_choices, 1);
    assert_eq!(
        outcome.report.skipped_reward_item_choices_missing_choice,
        vec![(99, 10)]
    );
    assert_eq!(
        outcome.report.skipped_reward_item_choices_missing_response,
        vec![(1, 77)]
    );
    assert_eq!(
        outcome.report.skipped_reward_item_choices_missing_reward,
        vec![(2, 20)]
    );
    assert_eq!(
        outcome.report.skipped_reward_item_choices_missing_item,
        vec![(1, 10, 999)]
    );
}
