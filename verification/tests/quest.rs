use lib::quest::{load_quests, QuestObjective, QuestStore, QuestTemplate};

fn quest(id: u32) -> QuestTemplate {
    QuestTemplate {
        id,
        quest_type: 2,
        quest_level: 10,
        quest_max_scaling_level: 0,
        min_level: 5,
        quest_sort_id: 0,
        quest_info_id: 0,
        suggested_group_num: 0,
        reward_next_quest: 0,
        reward_xp_difficulty: 0,
        reward_xp_multiplier: 1.0f32.to_bits(),
        reward_money_difficulty: 0,
        reward_money_multiplier: 1.0f32.to_bits(),
        reward_bonus_money: 0,
        reward_display_spell: [0; 3],
        reward_spell: 0,
        reward_honor: 0,
        flags: 0,
        flags_ex: 0,
        flags_ex2: 0,
        reward_items: [0; 4],
        reward_amounts: [0; 4],
        item_drop: [0; 4],
        item_drop_quantity: [0; 4],
        log_title: format!("quest {id}"),
        log_description: String::new(),
        quest_description: String::new(),
        area_description: String::new(),
        quest_completion_log: String::new(),
        objectives: Vec::new(),
        allowable_races: 0,
        allowable_classes: 0,
        max_level: 0,
        prev_quest_id: 0,
        reward_choice_items: [(0, 0); 6],
    }
}

fn objective(id: u32, quest_id: u32, obj_type: u8, amount: i32) -> QuestObjective {
    QuestObjective {
        id,
        quest_id,
        obj_type,
        order: 0,
        storage_index: 0,
        object_id: 0,
        amount,
        flags: 0,
        flags2: 0,
        progress_bar_weight: 0,
        description: String::new(),
    }
}

#[test]
fn loading_attaches_objectives_and_keeps_relations_of_known_quests() {
    let store = load_quests(
        vec![quest(1), quest(2)],
        vec![objective(10, 1, 0, 8), objective(11, 3, 0, 1), objective(12, 1, 10, 5)],
        vec![(100, 1), (100, 3), (100, 2), (101, 2)],
        vec![(200, 2)],
    );
    let ids: Vec<u32> = store.get(1).unwrap().objectives.iter().map(|o| o.id).collect();
    assert_eq!(ids, vec![10, 12]);
    assert!(store.get(2).unwrap().objectives.is_empty());
    let started: Vec<u32> = store.quests_for_starter(100).iter().map(|q| q.id).collect();
    assert_eq!(started, vec![1, 2]);
    assert!(store.npc_has_start_quests(101));
    assert!(!store.npc_has_start_quests(200));
    assert!(store.npc_has_end_quests(200));
    assert_eq!(store.quests_for_ender(200).len(), 1);
    assert!(store.quests_for_ender(100).is_empty());
    assert_eq!(store.objective_like_cpp(12).map(|o| o.quest_id), Some(1));
    assert!(store.objective_like_cpp(11).is_none());
}

#[test]
fn availability_checks_masks_and_levels() {
    let mut q = quest(1);
    assert!(q.is_available_for(1, 1, 5));
    assert!(!q.is_available_for(1, 1, 4));
    q.max_level = 20;
    assert!(!q.is_available_for(1, 1, 21));
    q.allowable_races = 1 << 1;
    assert!(q.is_available_for(2, 1, 10));
    assert!(!q.is_available_for(1, 1, 10));
    q.allowable_classes = 1 << 3;
    assert!(q.is_available_for(2, 4, 10));
    assert!(!q.is_available_for(2, 3, 10));
    assert!(!q.is_repeatable());
    q.flags = 0x4000;
    assert!(q.is_repeatable());
}

#[test]
fn flag_objectives_need_one_unit_of_progress() {
    assert!(objective(1, 1, 14, 9).is_storing_flag_like_cpp());
    assert_eq!(objective(1, 1, 14, 9).condition_progress_limit_like_cpp(), 1);
    assert_eq!(objective(1, 1, 0, 9).condition_progress_limit_like_cpp(), 9);
    let store = QuestStore::from_quests_like_cpp(vec![quest(5), quest(5)]);
    assert!(store.get(5).is_some());
    assert!(QuestStore::default().get(5).is_none());
    assert!(QuestStore::new().quests_for_starter(1).is_empty());
}
