use lib::item_stats::{
    ItemModType, ItemRandomPropertyTemplateEntry, ItemSparseTemplateEntry, ItemStatEntry,
    ItemStatsStore,
};

const IS_BOUND_TO_ACCOUNT: u32 = 0x0800_0000;

fn widths() -> Vec<(usize, bool)> {
    let mut w = Vec::new();
    for fi in 0..73usize {
        let entry = match fi {
            0 => (8, false),
            1..=5 => (0, true),
            6..=11 => (4, false),
            12 | 13 => (40, false),
            14..=22 => (4, false),
            23 => (16, false),
            24..=28 => (4, false),
            29..=36 => (2, false),
            37 => (4, false),
            38..=48 => (2, false),
            49 | 50 => (10, false),
            51 => (14, false),
            52 => (2, false),
            53 => (20, false),
            54..=57 => (1, false),
            58 => (3, false),
            59..=64 => (1, false),
            65 => (10, false),
            _ => (1, false),
        };
        w.push(entry);
    }
    w
}

/// A sparse record with the given inline strings, whose fixed fields are
/// filled by `fill(field index, field bytes)`.
fn record(strings: [&str; 5], fill: impl Fn(usize, &mut Vec<u8>)) -> Vec<u8> {
    let mut out = Vec::new();
    for (fi, (width, is_string)) in widths().into_iter().enumerate() {
        if is_string {
            out.extend_from_slice(strings[fi - 1].as_bytes());
            out.push(0);
        } else {
            let mut field = vec![0u8; width];
            fill(fi, &mut field);
            out.extend_from_slice(&field);
        }
    }
    out
}

fn stat_record(slots: &[(i8, i16)], armor: i16) -> Vec<u8> {
    let slots = slots.to_vec();
    record(["desc", "", "", "", "Name"], move |fi, field| {
        if fi == 65 {
            for k in 0..10 {
                field[k] = slots.get(k).map_or(-1i8, |s| s.0) as u8;
            }
        }
        if fi == 53 {
            for k in 0..10 {
                let amount = slots.get(k).map_or(0i16, |s| s.1).to_le_bytes();
                field[2 * k] = amount[0];
                field[2 * k + 1] = amount[1];
            }
        }
        if fi == 51 {
            let a = armor.to_le_bytes();
            field[0] = a[0];
            field[1] = a[1];
        }
    })
}

#[test]
fn test_base_stat_bonuses() {
    let entry = ItemStatEntry {
        armor: 0,
        stats: [
            (4, 100), // STR=100
            (7, 80),  // STA=80
            (3, 50),  // AGI=50
            (32, 40), // CritRating=40 (not a base stat)
            (-1, 0),
            (-1, 0),
            (-1, 0),
            (-1, 0),
            (-1, 0),
            (-1, 0),
        ],
    };
    let [str, agi, sta, int, spi] = entry.base_stat_bonuses();
    assert_eq!(str, 100);
    assert_eq!(agi, 50);
    assert_eq!(sta, 80);
    assert_eq!(int, 0);
    assert_eq!(spi, 0);
}

#[test]
fn test_attack_power_bonus() {
    let entry = ItemStatEntry {
        armor: 0,
        stats: [
            (38, 120), // AttackPower=120
            (4, 50),   // STR=50
            (-1, 0),
            (-1, 0),
            (-1, 0),
            (-1, 0),
            (-1, 0),
            (-1, 0),
            (-1, 0),
            (-1, 0),
        ],
    };
    assert_eq!(entry.attack_power_bonus(), 120);
    assert_eq!(entry.health_bonus(), 0);
}

#[test]
fn item_sparse_flags_are_exposed_like_cpp_extended_data() {
    let store = ItemStatsStore::from_parts(vec![], vec![(1, [IS_BOUND_TO_ACCOUNT, 0x20000, 0x400, 0])]);

    assert_eq!(store.raw_flags(1), Some([0x0800_0000, 0x20000, 0x400, 0]));
    assert!(store
        .item_flags(1)
        .is_some_and(|flags| flags & u64::from(IS_BOUND_TO_ACCOUNT) != 0));
    assert_eq!(store.item_flags(2), None);
}

fn sample_template() -> ItemSparseTemplateEntry {
    ItemSparseTemplateEntry {
        flags: [IS_BOUND_TO_ACCOUNT, 0, 0, 0],
        bag_family: 0x20,
        start_quest_id: 0,
        stackable: 20,
        max_count: 5,
        lock_id: 456,
        required_reputation_rank: 0,
        sell_price: 123,
        buy_price: 456,
        vendor_stack_count: 2,
        price_variance: 1.25f32.to_bits(),
        price_random_value: 0.75f32.to_bits(),
        other_faction_item_id: 999,
        content_tuning_id: 321,
        player_level_to_item_level_curve_id: 654,
        max_durability: 77,
        limit_category: 9,
        instance_bound: 11,
        zone_bound: [22, 33],
        required_reputation_faction: 0,
        allowable_class: -1,
        required_expansion: 4,
        bonding: 2,
        container_slots: 16,
        inventory_type: 18,
    }
}

#[test]
fn item_sparse_template_entry_matches_cpp_template_helpers() {
    let template = sample_template();
    let store = ItemStatsStore::from_sparse_templates(vec![(1, template)]);

    let loaded = store.sparse_template(1).unwrap();
    assert_eq!(loaded.max_stack_size(), 20);
    assert_eq!(loaded.max_count, 5);
    assert_eq!(loaded.lock_id, 456);
    assert_eq!(loaded.required_reputation_rank, 0);
    assert_eq!(loaded.required_reputation_faction, 0);
    assert_eq!(loaded.sell_price, 123);
    assert_eq!(loaded.buy_price, 456);
    assert_eq!(loaded.vendor_stack_count, 2);
    assert_eq!(f32::from_bits(loaded.price_variance), 1.25);
    assert_eq!(f32::from_bits(loaded.price_random_value), 0.75);
    assert_eq!(loaded.other_faction_item_id_like_cpp(), 999);
    assert_eq!(loaded.scaling_stat_content_tuning_like_cpp(), 321);
    assert_eq!(loaded.player_level_to_item_level_curve_id_like_cpp(), 654);
    assert_eq!(loaded.instance_bound, 11);
    assert_eq!(loaded.zone_bound, [22, 33]);
    assert_eq!(loaded.required_expansion, 4);
    assert_eq!(loaded.container_slots, 16);
    assert_eq!(loaded.inventory_type, 18);
    assert_eq!(loaded.allowable_class, -1);
    assert!(loaded.item_flags() & u64::from(IS_BOUND_TO_ACCOUNT) != 0);
    assert_eq!(store.raw_flags(1), Some(template.flags));

    let unlimited = ItemSparseTemplateEntry { stackable: 0, ..template };
    assert_eq!(unlimited.max_stack_size(), 0x7FFF_FFFE);
}

#[test]
fn test_load_item_stats_store() {
    let mut records = Vec::new();
    for id in 1..=1001u32 {
        records.push((id, stat_record(&[(4, 10), (7, 12)], 0)));
    }
    // Shadowmourne: strength, stamina and crit rating.
    records.push((49623, stat_record(&[(4, 223), (7, 198), (32, 114)], 0)));
    // Hearthstone: no stat at all.
    records.push((6948, stat_record(&[], 0)));

    let store = ItemStatsStore::load(records);

    assert!(store.len() > 1000, "expected >1000 items with stats, got {}", store.len());

    let entry = store.get(49623).expect("Shadowmourne has stats");
    let [str, _agi, sta, _int, _spi] = entry.base_stat_bonuses();
    assert!(str > 100, "Shadowmourne STR should be >100, got {str}");
    assert!(sta > 100, "Shadowmourne STA should be >100, got {sta}");

    assert!(store.get(6948).is_none(), "Hearthstone should have no stats");
}

#[test]
fn load_decodes_every_part_of_a_record() {
    let rec = record(["a longer description", "x", "", "yz", "Item"], |fi, field| {
        let put32 = |field: &mut Vec<u8>, v: u32| field[..4].copy_from_slice(&v.to_le_bytes());
        match fi {
            9 => put32(field, 0x20),
            10 => put32(field, (-5i32) as u32),
            14 => put32(field, 200),
            15 => put32(field, 1),
            16 => put32(field, 3),
            18 => put32(field, 1500),
            19 => put32(field, 6000),
            20 => put32(field, 1),
            21 => put32(field, 1.5f32.to_bits()),
            22 => put32(field, 0.25f32.to_bits()),
            23 => {
                for (k, w) in [7u32, 8, 9, 10].iter().enumerate() {
                    field[4 * k..4 * k + 4].copy_from_slice(&w.to_le_bytes());
                }
            }
            24 => put32(field, 4242),
            26 => put32(field, 17),
            27 => put32(field, 18),
            28 => put32(field, 100),
            32 => field[..2].copy_from_slice(&7u16.to_le_bytes()),
            36 => field[..2].copy_from_slice(&8u16.to_le_bytes()),
            37 => {
                field[..2].copy_from_slice(&40u16.to_le_bytes());
                field[2..4].copy_from_slice(&41u16.to_le_bytes());
            }
            39 => field[..2].copy_from_slice(&99u16.to_le_bytes()),
            42 => field[..2].copy_from_slice(&1037u16.to_le_bytes()),
            43 => field[..2].copy_from_slice(&264u16.to_le_bytes()),
            48 => field[..2].copy_from_slice(&(-1i16).to_le_bytes()),
            51 => field[..2].copy_from_slice(&350i16.to_le_bytes()),
            53 => field[..2].copy_from_slice(&(-3i16).to_le_bytes()),
            54 => field[0] = 2,
            63 => field[0] = 1,
            65 => {
                for b in field.iter_mut() {
                    *b = 0xFF;
                }
                field[0] = 6;
            }
            66 => field[0] = 12,
            69 => field[0] = 0xFE,
            70 => field[0] = 4,
            _ => {}
        }
    });
    let store = ItemStatsStore::load(vec![(77, rec)]);

    let t = store.sparse_template(77).expect("template decoded");
    assert_eq!(t.flags, [7, 8, 9, 10]);
    assert_eq!(t.bag_family, 0x20);
    assert_eq!(t.start_quest_id, -5);
    assert_eq!(t.stackable, 200);
    assert_eq!(t.max_count, 1);
    assert_eq!(t.lock_id, 99);
    assert_eq!(t.required_reputation_rank, 3);
    assert_eq!(t.sell_price, 1500);
    assert_eq!(t.buy_price, 6000);
    assert_eq!(t.vendor_stack_count, 1);
    assert_eq!(f32::from_bits(t.price_variance), 1.5);
    assert_eq!(f32::from_bits(t.price_random_value), 0.25);
    assert_eq!(t.other_faction_item_id, 4242);
    assert_eq!(t.content_tuning_id, 17);
    assert_eq!(t.player_level_to_item_level_curve_id, 18);
    assert_eq!(t.max_durability, 100);
    assert_eq!(t.limit_category, 7);
    assert_eq!(t.instance_bound, 8);
    assert_eq!(t.zone_bound, [40, 41]);
    assert_eq!(t.required_reputation_faction, 1037);
    assert_eq!(t.allowable_class, -1);
    assert_eq!(t.required_expansion, 2);
    assert_eq!(t.bonding, 1);
    assert_eq!(t.container_slots, 12);
    assert_eq!(t.inventory_type, -2);

    assert_eq!(store.raw_flags(77), Some([7, 8, 9, 10]));
    assert_eq!(
        store.random_property_template(77),
        Some(&ItemRandomPropertyTemplateEntry { item_level: 264, quality: 4, inventory_type: -2 })
    );

    let e = store.get(77).expect("armor alone gives stats");
    assert_eq!(e.armor, 350);
    assert_eq!(e.stats[0], (6, -3));
    assert_eq!(e.stats[1], (-1, 0));
    assert_eq!(store.sparse_templates_like_cpp(), vec![(77, *t)]);
}

#[test]
fn load_skips_a_record_too_short_for_its_stat_slots() {
    let mut rec = stat_record(&[(4, 10)], 5);
    rec.truncate(rec.len() - 10);
    let store = ItemStatsStore::load(vec![(5, rec)]);
    assert!(store.is_empty());
    assert_eq!(store.raw_flags(5), None);
    assert!(store.sparse_template(5).is_none());
    assert!(store.random_property_template(5).is_none());
}

#[test]
fn load_leaves_out_an_item_whose_slots_are_all_empty() {
    let store = ItemStatsStore::load(vec![(1, stat_record(&[(-1, 40), (7, 0)], 0)), (2, stat_record(&[(0, 25)], 0))]);
    assert!(store.get(1).is_none());
    assert_eq!(store.get(2).unwrap().mana_bonus(), 25);
    assert_eq!(store.len(), 1);
    assert!(store.raw_flags(1).is_some());
}

#[test]
fn unified_ratings_count_toward_every_sub_rating() {
    let entry = ItemStatEntry {
        armor: 0,
        stats: [(31, 10), (32, 20), (36, 30), (16, 1), (19, 2), (37, 3), (44, 4), (12, 5), (45, 60), (39, 70)],
    };
    let cr = entry.combat_rating_bonuses();
    assert_eq!(cr[5], 11);
    assert_eq!(cr[6], 10);
    assert_eq!(cr[7], 10);
    assert_eq!(cr[8], 22);
    assert_eq!(cr[9], 20);
    assert_eq!(cr[10], 20);
    assert_eq!(cr[17], 30);
    assert_eq!(cr[18], 30);
    assert_eq!(cr[19], 30);
    assert_eq!(cr[23], 3);
    assert_eq!(cr[24], 4);
    assert_eq!(cr[1], 5);
    assert_eq!(cr[0], 0);
    assert_eq!(entry.spell_power_bonus(), 60);
    assert_eq!(entry.ranged_attack_power_bonus(), 70);
    assert!(entry.has_stats());
    assert_eq!(ItemModType::HasteRating.code(), 36);
    assert_eq!(ItemModType::Unused.code(), -1);
}

#[test]
fn negative_faction_ids_read_as_unsigned() {
    let t = ItemSparseTemplateEntry { other_faction_item_id: -1, ..sample_template() };
    assert_eq!(t.other_faction_item_id_like_cpp(), u32::MAX);
    let t = ItemSparseTemplateEntry { stackable: i32::MAX, ..sample_template() };
    assert_eq!(t.max_stack_size(), 0x7FFF_FFFE);
}
