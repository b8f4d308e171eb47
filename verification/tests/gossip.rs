use lib::gossip::{GossipMenuAddonRowLikeCpp, GossipMenuItem, GossipMenuItemsLocaleRowLikeCpp, GossipStore, Locale};

#[test]
fn gossip_menu_item_full_rows_preserve_object_mgr_fields_like_cpp() {
    let mut gossip = GossipStore::<()>::default();
    gossip.add_menu_item_full_like_cpp(GossipMenuItem {
        menu_id: 7,
        gossip_option_id: 11,
        order_index: 2,
        option_npc: 3,
        option_text: "Train me".to_string(),
        option_broadcast_text_id: 44,
        language: 1,
        flags: 5,
        action_menu_id: 8,
        action_poi_id: 9,
        gossip_npc_option_id: Some(10),
        box_coded: true,
        box_money: 123,
        box_text: "Pay?".to_string(),
        box_broadcast_text_id: 45,
        spell_id: Some(46),
        override_icon_id: Some(47),
        conditions: (),
    });

    let item = &gossip.menu_items_for_id(7).unwrap()[0];
    assert_eq!(item.gossip_option_id, 11);
    assert_eq!(item.option_text, "Train me");
    assert_eq!(item.gossip_npc_option_id, Some(10));
    assert!(item.box_coded);
    assert_eq!(item.spell_id, Some(46));
}

#[test]
fn gossip_menu_item_locales_skip_enus_like_cpp() {
    let mut gossip = GossipStore::<()>::default();
    gossip.add_menu_item_locale_like_cpp(GossipMenuItemsLocaleRowLikeCpp {
        menu_id: 7,
        option_id: 2,
        locale: "enUS".to_string(),
        option_text: "Hello".to_string(),
        box_text: "Box".to_string(),
    });
    gossip.add_menu_item_locale_like_cpp(GossipMenuItemsLocaleRowLikeCpp {
        menu_id: 7,
        option_id: 2,
        locale: "esES".to_string(),
        option_text: "Hola".to_string(),
        box_text: "Caja".to_string(),
    });

    let locale = gossip.menu_item_locale_like_cpp(7, 2).unwrap();
    assert_eq!(locale.option_text_like_cpp(Locale::EsES), Some("Hola"));
    assert_eq!(locale.box_text_like_cpp(Locale::EsES), Some("Caja"));
    assert_eq!(locale.option_text_like_cpp(Locale::EnUS), None);
}

#[test]
fn gossip_menu_addon_overwrites_by_menu_id_like_cpp() {
    let mut gossip = GossipStore::<()>::default();
    gossip.add_menu_addon_like_cpp(GossipMenuAddonRowLikeCpp { menu_id: 7, friendship_faction_id: 100 });
    gossip.add_menu_addon_like_cpp(GossipMenuAddonRowLikeCpp { menu_id: 7, friendship_faction_id: 200 });

    assert_eq!(gossip.menu_addon_count(), 1);
    assert_eq!(gossip.menu_addon_like_cpp(7).unwrap().friendship_faction_id, 200);
}

#[test]
fn menus_and_options_keep_their_order_and_are_counted() {
    let mut gossip = GossipStore::<()>::new();
    gossip.add_menu_like_cpp(7, 10);
    gossip.add_menu_like_cpp(7, 20);
    gossip.add_menu_like_cpp(8, 30);
    gossip.add_menu_item_like_cpp(7, 2);
    gossip.add_menu_item_like_cpp(7, 1);
    let texts: Vec<u32> = gossip.menus_for_id(7).unwrap().iter().map(|m| m.text_id).collect();
    assert_eq!(texts, vec![10, 20]);
    let orders: Vec<u32> = gossip.menu_items_for_id(7).unwrap().iter().map(|i| i.order_index).collect();
    assert_eq!(orders, vec![2, 1]);
    assert_eq!(gossip.menu_row_count(), 3);
    assert_eq!(gossip.menu_item_row_count(), 2);
    assert!(gossip.menus_for_id(9).is_none());
    assert!(gossip.menu_items_for_id(8).is_none());
}

#[test]
fn unknown_locale_names_are_passed_over() {
    let mut gossip = GossipStore::<()>::new();
    gossip.add_menu_item_locale_like_cpp(GossipMenuItemsLocaleRowLikeCpp {
        menu_id: 1,
        option_id: 1,
        locale: "xxXX".to_string(),
        option_text: "?".to_string(),
        box_text: "?".to_string(),
    });
    assert_eq!(gossip.menu_item_locale_count(), 0);
    gossip.add_menu_item_locale_like_cpp(GossipMenuItemsLocaleRowLikeCpp {
        menu_id: 1,
        option_id: 1,
        locale: "none".to_string(),
        option_text: "a".to_string(),
        box_text: "b".to_string(),
    });
    gossip.add_menu_item_locale_like_cpp(GossipMenuItemsLocaleRowLikeCpp {
        menu_id: 1,
        option_id: 1,
        locale: "deDE".to_string(),
        option_text: "c".to_string(),
        box_text: "d".to_string(),
    });
    let locale = gossip.menu_item_locale_like_cpp(1, 1).unwrap();
    assert_eq!(locale.option_text_like_cpp(Locale::Unset), Some("a"));
    assert_eq!(locale.box_text_like_cpp(Locale::DeDE), Some("d"));
    assert_eq!(gossip.menu_item_locale_count(), 1);
    assert!(gossip.menu_item_locale_like_cpp(1, 2).is_none());
}

#[test]
fn added_menus_and_options_start_without_conditions() {
    let mut gossip = GossipStore::<u32>::default();
    gossip.add_menu_like_cpp(1, 100);
    gossip.add_menu_item_like_cpp(1, 0);
    assert_eq!(gossip.menus_for_id(1).map(|m| m[0].conditions), Some(0));
    assert_eq!(gossip.menu_items_for_id(1).map(|m| m[0].conditions), Some(0));
}
