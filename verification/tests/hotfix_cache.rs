use lib::hotfix_cache::{
    hotfix_locale_mask, HotfixBlobCache, HotfixBlobRowLikeCpp, HotfixDataRowLikeCpp, HotfixId,
    HotfixOptionalDataRowLikeCpp, HotfixRecordStatus,
};

#[test]
fn hotfix_record_status_matches_cpp_values() {
    assert_eq!(HotfixRecordStatus::from(0), HotfixRecordStatus::NotSet);
    assert_eq!(HotfixRecordStatus::from(1), HotfixRecordStatus::Valid);
    assert_eq!(
        HotfixRecordStatus::from(2),
        HotfixRecordStatus::RecordRemoved
    );
    assert_eq!(HotfixRecordStatus::from(3), HotfixRecordStatus::Invalid);
    assert_eq!(HotfixRecordStatus::from(4), HotfixRecordStatus::NotPublic);
}

#[test]
fn locale_masks_match_dbc_locale_order() {
    assert_eq!(hotfix_locale_mask("enUS"), 1);
    assert_eq!(hotfix_locale_mask("esES"), 1 << 6);
    assert_eq!(hotfix_locale_mask("itIT"), 1 << 11);
    assert_eq!(hotfix_locale_mask("bad"), 0);
}

#[test]
fn insert_blob_indexes_by_table_hash_and_record_id() {
    let mut cache = HotfixBlobCache::new();
    cache.insert_blob(0x919B_E54E, 58256, vec![1, 2, 3]);

    assert_eq!(cache.get(0x919B_E54E, 58256), Some(&[1, 2, 3][..]));
    assert!(cache.has_table(0x919B_E54E));
    assert_eq!(cache.total_blobs(), 1);
}

#[test]
fn optional_data_is_indexed_by_locale_table_and_record() {
    let mut cache = HotfixBlobCache::new();
    let loaded = cache.load_hotfix_optional_data_rows(
        vec![HotfixOptionalDataRowLikeCpp {
            table_hash: 0xDF2F_53CF,
            record_id: 67,
            locale: "enUS".to_string(),
            key: 0x1234_5678,
            data: vec![9, 8, 7],
        }],
        "enUS",
    );
    assert_eq!(loaded, 1);

    let entries = cache
        .get_optional_data(0xDF2F_53CF, 67, "enUS")
        .expect("optional data should exist");
    assert_eq!(entries.len(), 1);
    assert_eq!(entries[0].key, 0x1234_5678);
    assert_eq!(entries[0].data, [9, 8, 7]);
    assert!(cache.get_optional_data(0xDF2F_53CF, 67, "esES").is_none());
}

#[test]
fn hotfix_blob_rows_keep_only_the_requested_locale() {
    let mut cache = HotfixBlobCache::new();
    let loaded = cache.load_hotfix_blob_rows(
        vec![
            HotfixBlobRowLikeCpp {
                table_hash: 7,
                record_id: 1,
                locale: "enUS".to_string(),
                blob: vec![1],
            },
            HotfixBlobRowLikeCpp {
                table_hash: 7,
                record_id: 2,
                locale: "deDE".to_string(),
                blob: vec![2],
            },
            HotfixBlobRowLikeCpp {
                table_hash: 7,
                record_id: 1,
                locale: "enUS".to_string(),
                blob: vec![3],
            },
        ],
        "enUS",
    );
    assert_eq!(loaded, 2);
    assert_eq!(cache.get(7, 1), Some(&[3][..]));
    assert!(cache.get(7, 2).is_none());
    assert_eq!(cache.total_blobs(), 1);
}

#[test]
fn hotfix_data_rows_group_by_push_and_skip_valid_rows_of_unknown_tables() {
    let mut cache = HotfixBlobCache::new();
    cache.load_db2(100, vec![(5, vec![0])]);
    let loaded = cache.load_hotfix_data_rows(
        vec![
            HotfixDataRowLikeCpp { push_id: 3, unique_id: 30, table_hash: 100, record_id: 5, status: 1 },
            HotfixDataRowLikeCpp { push_id: 9, unique_id: 90, table_hash: 200, record_id: 6, status: 1 },
            HotfixDataRowLikeCpp { push_id: 3, unique_id: 31, table_hash: 200, record_id: 7, status: 2 },
            HotfixDataRowLikeCpp { push_id: 1, unique_id: 10, table_hash: 100, record_id: 8, status: 1 },
        ],
        "esES",
    );
    assert_eq!(loaded, 3);
    assert_eq!(cache.hotfix_count(), 3);
    assert_eq!(cache.max_hotfix_id(), 3);
    assert!(cache.hotfix_push(9).is_none());
    let push = cache.hotfix_push(3).unwrap();
    assert_eq!(push.records.len(), 2);
    assert_eq!(push.records[1].status, HotfixRecordStatus::RecordRemoved);
    assert_eq!(push.available_locales_mask, 1 << 6);
    assert_eq!(
        cache.available_hotfix_ids("esES"),
        vec![
            HotfixId { push_id: 1, unique_id: 10 },
            HotfixId { push_id: 3, unique_id: 30 },
        ]
    );
    assert!(cache.available_hotfix_ids("enUS").is_empty());
}

#[test]
fn a_table_loaded_without_records_has_no_data() {
    let mut cache = HotfixBlobCache::new();
    assert_eq!(cache.load_db2(0x1234, vec![]), 0);
    assert!(!cache.has_table(0x1234));
    assert_eq!(cache.total_blobs(), 0);
    let loaded = cache.load_hotfix_data_rows(
        vec![HotfixDataRowLikeCpp { push_id: 4, unique_id: 40, table_hash: 0x1234, record_id: 1, status: 1 }],
        "enUS",
    );
    assert_eq!(loaded, 0);
    assert!(cache.hotfix_pushes().is_empty());
}

#[test]
fn pushes_read_back_after_loading() {
    let mut cache = HotfixBlobCache::new();
    assert!(cache.hotfix_pushes().is_empty());
    assert_eq!(cache.max_hotfix_id(), 0);
    cache.load_hotfix_data_rows(
        vec![
            HotfixDataRowLikeCpp { push_id: 7, unique_id: 70, table_hash: 1, record_id: 1, status: 2 },
            HotfixDataRowLikeCpp { push_id: -2, unique_id: 20, table_hash: 1, record_id: 2, status: 2 },
        ],
        "deDE",
    );
    let pushes = cache.hotfix_pushes();
    assert_eq!(pushes.keys().copied().collect::<Vec<_>>(), vec![-2, 7]);
    assert_eq!(pushes[&7].records[0].id.push_id, 7);
    assert_eq!(pushes[&-2].available_locales_mask, 1 << 3);
    assert_eq!(cache.max_hotfix_id(), 7);
}

#[test]
fn inserting_a_blob_counts_only_new_records() {
    let mut cache = HotfixBlobCache::new();
    cache.insert_blob(1, 5, vec![1]);
    cache.insert_blob(1, 6, vec![2]);
    assert_eq!(cache.total_blobs(), 2);
    cache.insert_blob(1, 5, vec![3]);
    assert_eq!(cache.total_blobs(), 2);
    cache.insert_blob(2, 5, vec![4]);
    assert_eq!(cache.total_blobs(), 3);
}
