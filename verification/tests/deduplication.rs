use rustltfs::dedup::{
    csv_header, csv_row, import_csv_rows, record_from_csv_row, DeduplicationDatabase, DeduplicationManager,
    FileHashRecord, HashType, TapeLocation,
};

fn record(path: &str, size: u64, sha1: &str, first_seen: &str) -> FileHashRecord {
    FileHashRecord {
        file_path: path.to_string(),
        file_size: size,
        last_modified: 1234567890,
        hashes: vec![(HashType::Sha1, sha1.to_string())],
        first_seen: first_seen.to_string(),
        tape_location: None,
    }
}

#[test]
fn test_hash_type_ltfs_keys() {
    assert_eq!(HashType::Sha1.ltfs_key(), "ltfs.hash.sha1sum");
    assert_eq!(HashType::Sha256.ltfs_key(), "ltfs.hash.sha256sum");
    assert_eq!(HashType::Blake3.ltfs_key(), "ltfs.hash.blake3sum");
    assert_eq!(HashType::XxHash3.ltfs_key(), "ltfs.hash.xxhash3sum");
    assert_eq!(HashType::XxHash128.ltfs_key(), "ltfs.hash.xxhash128sum");
}

#[test]
fn test_deduplication_database_basic() {
    let mut db = DeduplicationDatabase::default();
    let rec = FileHashRecord {
        file_path: "/test/file1.txt".to_string(),
        file_size: 1024,
        last_modified: 1234567890,
        hashes: vec![(HashType::Sha1, "abc123".to_string())],
        first_seen: "2023-01-01T00:00:00Z".to_string(),
        tape_location: None,
    };
    db.add_file_record(rec);
    assert!(db.check_duplicate("abc123").is_some());
    assert!(db.check_duplicate("xyz789").is_none());
}

#[test]
fn test_duplicate_stats() {
    let mut db = DeduplicationDatabase::default();
    for i in 1..=2 {
        let rec = FileHashRecord {
            file_path: format!("/test/file{}.txt", i),
            file_size: 1024,
            last_modified: 1234567890,
            hashes: vec![(HashType::Sha1, "same_hash".to_string())],
            first_seen: "2023-01-01T00:00:00Z".to_string(),
            tape_location: None,
        };
        db.add_file_record(rec);
    }
    let stats = db.get_duplicate_stats();
    assert_eq!(stats.total_files, 2);
    assert_eq!(stats.duplicate_groups, 1);
    assert_eq!(stats.total_duplicates, 1);
    assert_eq!(stats.space_saved, 1024);
}

#[test]
fn hash_key_round_trip_and_names() {
    for t in HashType::recommended_order() {
        assert_eq!(HashType::from_ltfs_key(t.ltfs_key()), Some(t));
    }
    assert_eq!(HashType::from_ltfs_key("ltfs.hash.md5sum"), None);
    assert_eq!(HashType::XxHash128.display_name(), "XXHash128");
    assert_eq!(HashType::recommended_order().len(), 5);
    assert_eq!(HashType::recommended_order()[0], HashType::Sha1);
}

#[test]
fn added_record_is_last_of_its_group_and_path_is_replaced() {
    let mut db = DeduplicationDatabase::default();
    db.add_file_record(record("/a", 10, "h1", "2023-01-01T00:00:00Z"));
    db.add_file_record(record("/b", 20, "h1", "2023-01-02T00:00:00Z"));
    let group = db.check_duplicate("h1").unwrap();
    assert_eq!(group.len(), 2);
    assert_eq!(group[1].file_path, "/b");
    // the same path again: the path record is replaced, the group grows
    db.add_file_record(record("/a", 30, "h2", "2023-01-03T00:00:00Z"));
    assert_eq!(db.path_to_record.len(), 2);
    assert_eq!(db.path_to_record[0].1.file_size, 30);
    assert_eq!(db.check_duplicate("h2").unwrap().len(), 1);
}

#[test]
fn record_without_sha1_joins_no_group() {
    let mut db = DeduplicationDatabase::default();
    let mut r = record("/x", 5, "unused", "2023-01-01T00:00:00Z");
    r.hashes = vec![(HashType::Sha256, "s".to_string())];
    db.add_file_record(r);
    assert_eq!(db.hash_to_records.len(), 0);
    assert_eq!(db.path_to_record.len(), 1);
}

#[test]
fn stats_space_saved_uses_first_record_size() {
    let mut db = DeduplicationDatabase::default();
    db.add_file_record(record("/a", 100, "h", "t"));
    db.add_file_record(record("/b", 7, "h", "t"));
    db.add_file_record(record("/c", 9, "h", "t"));
    db.add_file_record(record("/d", 50, "other", "t"));
    let s = db.get_duplicate_stats();
    assert_eq!(s.total_files, 4);
    assert_eq!(s.unique_files, 2);
    assert_eq!(s.duplicate_groups, 1);
    assert_eq!(s.total_duplicates, 2);
    assert_eq!(s.space_saved, 200);
}

#[test]
fn compact_drops_records_of_unknown_paths_and_empty_groups() {
    let mut db = DeduplicationDatabase::default();
    db.add_file_record(record("/a", 1, "h1", "t"));
    db.add_file_record(record("/b", 1, "h2", "t"));
    // a record whose path has no path entry, and a path entry no group holds
    db.hash_to_records.push(("h3".to_string(), vec![record("/ghost", 1, "h3", "t")]));
    db.path_to_record.push(("/lonely".to_string(), record("/lonely", 1, "h4", "t")));
    let removed = db.compact().unwrap();
    assert_eq!(removed, 2);
    assert_eq!(db.hash_to_records.len(), 2);
    assert_eq!(db.path_to_record.len(), 2);
    assert!(db.check_duplicate("h3").is_none());
}

#[test]
fn stale_records_are_removed_by_cutoff() {
    let mut db = DeduplicationDatabase::default();
    db.add_file_record(record("/old", 1, "h", "2020-01-01T00:00:00Z"));
    db.add_file_record(record("/new", 1, "h", "2024-06-01T00:00:00Z"));
    db.add_file_record(record("/old2", 1, "g", "2019-01-01T00:00:00Z"));
    let n = db.remove_stale_records("2023-01-01T00:00:00Z");
    assert_eq!(n, 2);
    assert_eq!(db.path_to_record.len(), 1);
    assert_eq!(db.path_to_record[0].0, "/new");
    assert_eq!(db.check_duplicate("h").unwrap().len(), 1);
    assert!(db.check_duplicate("g").is_none());
}

#[test]
fn cleanup_with_the_clock_keeps_recent_records() {
    let mut db = DeduplicationDatabase::default();
    db.add_file_record(record("/ancient", 1, "h", "1990-01-01T00:00:00Z"));
    db.add_file_record(record("/future", 1, "h", "2999-01-01T00:00:00Z"));
    let n = db.cleanup_stale_records(30).unwrap();
    assert_eq!(n, 1);
    assert_eq!(db.path_to_record[0].0, "/future");
}

#[test]
fn default_database_is_stamped_now() {
    let db = DeduplicationDatabase::default();
    assert_eq!(db.version, 1);
    assert_eq!(db.created_at, db.updated_at);
    assert_eq!(db.created_at.len(), 20);
    assert!(db.created_at.ends_with('Z'));
}

#[test]
fn database_info_counts() {
    let mut db = DeduplicationDatabase::default();
    let mut r = record("/a", 1, "h", "t");
    r.hashes.push((HashType::Blake3, "b".to_string()));
    db.add_file_record(r);
    db.add_file_record(record("/b", 1, "h", "t"));
    db.add_file_record(record("/c", 1, "k", "t"));
    let info = db.get_database_info();
    assert_eq!(info.total_hash_entries, 2);
    assert_eq!(info.total_path_entries, 3);
    assert_eq!(info.total_file_records, 3);
    assert_eq!(info.algorithm_counts, vec![(HashType::Sha1, 3), (HashType::Blake3, 1)]);
    assert_eq!(info.group_sizes, vec![(2, 1), (1, 1)]);
}

#[test]
fn csv_round_trip_of_a_row() {
    assert_eq!(csv_header().len(), 12);
    assert_eq!(csv_header()[10], "tape_start_block");
    let mut r = record("/p", 42, "aa", "2023-01-01T00:00:00Z");
    r.tape_location = Some(TapeLocation { partition: 1, start_block: 77, file_uid: 9 });
    let row = csv_row(&r);
    assert_eq!(
        row,
        vec!["/p", "42", "1234567890", "2023-01-01T00:00:00Z", "aa", "", "", "", "", "1", "77", "9"]
    );
    // the importer wants 13 fields: the exported row is too short
    assert!(record_from_csv_row(&row).is_none());
    let mut longer = row.clone();
    longer.push(String::new());
    let back = record_from_csv_row(&longer).unwrap();
    assert_eq!(back.file_size, 42);
    assert_eq!(back.hashes, vec![(HashType::Sha1, "aa".to_string())]);
    assert_eq!(back.tape_location, Some(TapeLocation { partition: 1, start_block: 77, file_uid: 9 }));
}

#[test]
fn csv_import_parses_numbers_leniently() {
    let row: Vec<String> = vec!["/q", "x12", "+5", "s", "", "h256", "", "", "", "300", "1", ""]
        .into_iter()
        .map(|s| s.to_string())
        .chain(std::iter::once(String::new()))
        .collect();
    let r = record_from_csv_row(&row).unwrap();
    assert_eq!(r.file_size, 0);
    assert_eq!(r.last_modified, 5);
    assert_eq!(r.hashes, vec![(HashType::Sha256, "h256".to_string())]);
    assert_eq!(r.tape_location, None);
    let db = import_csv_rows(&vec![row.clone(), vec!["short".to_string()]]).unwrap();
    assert_eq!(db.path_to_record.len(), 1);
    assert_eq!(db.hash_to_records.len(), 0);
}

#[test]
fn manager_checks_and_registers_only_when_enabled() {
    let mut m = DeduplicationManager::new(DeduplicationDatabase::default(), "/tmp/dedup.json", false);
    let hashes = vec![
        ("ltfs.hash.sha1sum".to_string(), "abc".to_string()),
        ("user.other".to_string(), "zzz".to_string()),
    ];
    m.register_file("/f", 10, &hashes, None, 5).unwrap();
    assert!(m.check_file_exists(&hashes).is_none());
    assert_eq!(m.database.path_to_record.len(), 0);
    m.set_enabled(true);
    assert!(m.is_enabled());
    m.register_file_at("/f", 10, &hashes, None, 5, "2023-01-01T00:00:00Z".to_string()).unwrap();
    let found = m.check_file_exists(&hashes).unwrap();
    assert_eq!(found.len(), 1);
    assert_eq!(found[0].hashes, vec![(HashType::Sha1, "abc".to_string())]);
    assert_eq!(m.get_stats().total_files, 1);
    m.register_file("/g", 10, &hashes, None, 5).unwrap();
    assert_eq!(m.get_stats().duplicate_groups, 1);
}

#[test]
fn a_later_hash_of_one_algorithm_replaces_the_earlier() {
    let mut m = DeduplicationManager::new(DeduplicationDatabase::default(), "/tmp/dedup.json", true);
    let hashes = vec![
        ("ltfs.hash.sha1sum".to_string(), "old".to_string()),
        ("ltfs.hash.sha256sum".to_string(), "s256".to_string()),
        ("ltfs.hash.sha1sum".to_string(), "new".to_string()),
    ];
    m.register_file_at("/f", 1, &hashes, None, 0, "t".to_string()).unwrap();
    let r = &m.database.path_to_record[0].1;
    assert_eq!(
        r.hashes,
        vec![(HashType::Sha1, "new".to_string()), (HashType::Sha256, "s256".to_string())]
    );
    assert_eq!(m.database.hash_to_records[0].0, "new");
}
