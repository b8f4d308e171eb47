use lib::player_power::{ClassPowerIndexRecord, Db2PlayerPowerIndexResolver, PlayerClassPowerIndexStore, PowerType};

const CLASS_PALADIN: u8 = 2;

#[test]
fn db2_player_power_index_resolver_returns_record_backed_indices() {
    let resolver = Db2PlayerPowerIndexResolver::from_records(vec![
        ClassPowerIndexRecord::new(CLASS_PALADIN, PowerType::Mana, 0),
        ClassPowerIndexRecord::new(CLASS_PALADIN, PowerType::Energy, 3),
    ]);

    assert_eq!(resolver.power_index_by_class(PowerType::Mana, CLASS_PALADIN), Some(0));
    assert_eq!(resolver.power_index_by_class(PowerType::Energy, CLASS_PALADIN), Some(3));
    assert_eq!(resolver.power_index_by_class(PowerType::Focus, CLASS_PALADIN), None);
    assert_eq!(resolver.store().len(), 2);
}

#[test]
fn later_records_replace_earlier_ones_for_the_same_pair() {
    let mut store = PlayerClassPowerIndexStore::from_records(vec![
        ClassPowerIndexRecord::new(1, PowerType::Rage, 1),
        ClassPowerIndexRecord::new(1, PowerType::Rage, 4),
        ClassPowerIndexRecord::new(11, PowerType::Rage, 2),
    ]);
    assert_eq!(store.power_index_by_class(PowerType::Rage, 1), Some(4));
    assert_eq!(store.power_index_by_class(PowerType::Rage, 11), Some(2));
    assert_eq!(store.len(), 2);
    store.insert(ClassPowerIndexRecord::new(255, PowerType::AlternateMount, 7));
    assert_eq!(store.power_index_by_class(PowerType::AlternateMount, 255), Some(7));
    assert!(!store.is_empty());
    let resolver = Db2PlayerPowerIndexResolver::new(store);
    assert_eq!(resolver.power_index_by_class(PowerType::Mana, 255), None);
}
