use lib::gameobject_template::{
    gameobject_template_lifecycle_record_like_cpp, GameObjectOverrideLifecycleRecordLikeCpp,
    GameObjectOverrideLifecycleStoreLikeCpp, GameObjectTemplateAddonLifecycleRecordLikeCpp,
    GameObjectTemplateLifecycleRecordLikeCpp, GameObjectTemplateLifecycleStoreLikeCpp, MAX_GAMEOBJECT_DATA,
};

fn template(addon: Option<GameObjectTemplateAddonLifecycleRecordLikeCpp>) -> GameObjectTemplateLifecycleRecordLikeCpp {
    let mut data = [0_u32; MAX_GAMEOBJECT_DATA];
    data[3] = 333;
    GameObjectTemplateLifecycleRecordLikeCpp {
        entry: 42,
        go_type: 5,
        display_id: 700,
        name: "summoned object".to_string(),
        size: 1.25f32.to_bits(),
        data,
        content_tuning_id: 80,
        ai_name: "SmartGameObjectAI".to_string(),
        script_name: "scripted_go".to_string(),
        string_id: "string-id".to_string(),
        addon,
    }
}

#[test]
fn gameobject_template_lifecycle_record_without_addon_uses_cpp_create_defaults() {
    let resolved = gameobject_template_lifecycle_record_like_cpp(&template(None));

    assert_eq!(resolved.entry, 42);
    assert_eq!(resolved.name, "summoned object");
    assert_eq!(resolved.go_type, 5);
    assert_eq!(resolved.display_id, 700);
    assert_eq!(f32::from_bits(resolved.scale), 1.25);
    assert_eq!(resolved.data[3], 333);
    assert_eq!(resolved.faction, 0);
    assert_eq!(resolved.flags, 0);
    assert_eq!(resolved.world_effect_id, 0);
    assert_eq!(resolved.anim_kit_id, 0);
    assert_eq!(resolved.level, 80);
    assert_eq!(resolved.percent_health, 100);
    assert_eq!(resolved.custom_param, 0);
}

#[test]
fn gameobject_template_lifecycle_record_applies_template_addon_like_cpp() {
    let addon = GameObjectTemplateAddonLifecycleRecordLikeCpp {
        entry: 42,
        faction: 35,
        flags: 0x20,
        world_effect_id: 77,
        anim_kit_id: 9,
    };

    let resolved = gameobject_template_lifecycle_record_like_cpp(&template(Some(addon)));

    assert_eq!(resolved.faction, 35);
    assert_eq!(resolved.flags, 0x20);
    assert_eq!(resolved.world_effect_id, 77);
    assert_eq!(resolved.anim_kit_id, 9);
    assert_eq!(resolved.level, 80);
}

#[test]
fn stores_index_templates_and_overrides() {
    let store = GameObjectTemplateLifecycleStoreLikeCpp::from_templates(vec![template(None)]);
    assert_eq!(store.get(42).map(|t| t.display_id), Some(700));
    assert!(store.get(43).is_none());
    assert_eq!(store.entries_like_cpp().len(), 1);
    assert_eq!(store.len(), 1);
    assert!(!store.is_empty());

    let overrides = GameObjectOverrideLifecycleStoreLikeCpp::from_overrides(vec![
        GameObjectOverrideLifecycleRecordLikeCpp { spawn_id: 1 << 40, faction: 1, flags: 2 },
        GameObjectOverrideLifecycleRecordLikeCpp { spawn_id: 1 << 40, faction: 3, flags: 4 },
    ]);
    assert_eq!(overrides.get(1 << 40).map(|o| o.faction), Some(3));
    assert!(overrides.get(1).is_none());
    assert_eq!(overrides.len(), 1);
    assert!(!overrides.is_empty());
}
