use rustltfs::error::RustLtfsError;
use rustltfs::index::{File, ExtentInfo};
use rustltfs::ops::{TapeOperations, TapePosition};
use rustltfs::write::{
    entry_target_path, name_le_exec, sort_file_names, speed_limit_delay_ms, EntryTimes, FileWriteDecision,
};

fn online() -> TapeOperations {
    TapeOperations::new("/dev/nst0", false)
}

fn no_times() -> EntryTimes {
    EntryTimes { creation: None, modify: None, access: None }
}

#[test]
fn names_sort_by_code_points_and_keep_all() {
    let names: Vec<String> = vec!["b.txt", "A.txt", "a.txt", "ab", "a", "é"].into_iter().map(String::from).collect();
    let sorted = sort_file_names(names);
    assert_eq!(sorted, vec!["A.txt", "a", "a.txt", "ab", "b.txt", "é"]);
    assert!(name_le_exec("abc", "abd"));
    assert!(name_le_exec("ab", "abc"));
    assert!(!name_le_exec("abc", "ab"));
    assert!(name_le_exec("same", "same"));
}

#[test]
fn sort_keeps_duplicates() {
    let names: Vec<String> = vec!["z", "a", "z"].into_iter().map(String::from).collect();
    assert_eq!(sort_file_names(names), vec!["a", "z", "z"]);
}

#[test]
fn target_paths_join_with_slash() {
    assert_eq!(entry_target_path("/backup", "file.txt"), "/backup/file.txt");
    assert_eq!(entry_target_path("", "x"), "/x");
}

#[test]
fn speed_limit_delay() {
    // 10 MiB at 5 MiB/s: 2000 ms
    assert_eq!(speed_limit_delay_ms(10 * 1024 * 1024, 5), 2000);
    assert_eq!(speed_limit_delay_ms(1000, 100), 0);
}

#[test]
fn admission_skips_and_refuses() {
    let mut ops = online();
    assert_eq!(ops.write_file_admission(Some("XATTR"), false, None, 10), Ok(FileWriteDecision::SkipXattr));
    ops.write_options.excluded_extensions = vec!["TMP".to_string()];
    assert_eq!(ops.write_file_admission(Some("tmp"), false, None, 10), Ok(FileWriteDecision::SkipExcluded));
    assert!(!ops.is_excluded_extension("txt"));
    ops.write_options.skip_symlinks = true;
    assert_eq!(ops.write_file_admission(Some("txt"), true, None, 10), Ok(FileWriteDecision::SkipSymlink));
    assert_eq!(ops.write_file_admission(None, false, Some(true), 10), Ok(FileWriteDecision::SkipIdentical));
    assert_eq!(ops.write_file_admission(None, false, Some(false), 10), Ok(FileWriteDecision::SkipExisting));
    ops.write_options.overwrite = true;
    assert_eq!(ops.write_file_admission(None, false, Some(false), 10), Ok(FileWriteDecision::Write));
    let too_big = 9 * 1024 * 1024 * 1024 * 1024u64;
    match ops.write_file_admission(None, false, None, too_big) {
        Err(RustLtfsError::TapeDevice(m)) => assert_eq!(
            m,
            "Insufficient space on tape: Tape device error: File too large for tape capacity"
        ),
        other => panic!("unexpected {:?}", other),
    }
}

#[test]
fn default_exclusion_list_does_not_match_bare_extension() {
    let ops = online();
    // the list holds ".xattr" with its dot, extensions come without one
    assert!(!ops.is_excluded_extension("xattr"));
    assert!(ops.is_excluded_extension(".XATTR"));
}

#[test]
fn begin_write_honours_stop_and_offline() {
    let mut ops = TapeOperations::new("/dev/nst0", true);
    assert_eq!(ops.begin_file_write(), Ok(false));
    assert_eq!(ops.write_progress.current_files_processed, 1);
    assert_eq!(ops.begin_directory_write(), Ok(false));
    ops.stop_write();
    assert!(matches!(ops.begin_file_write(), Err(RustLtfsError::OperationCancelled(_))));
    assert!(matches!(ops.ensure_not_stopped(), Err(RustLtfsError::OperationCancelled(_))));
    let mut on = online();
    assert_eq!(on.begin_file_write(), Ok(true));
    assert_eq!(on.begin_directory_write(), Ok(true));
    assert_eq!(on.ensure_not_stopped(), Ok(()));
}

#[test]
fn written_files_are_counted_until_the_interval() {
    let mut ops = online();
    ops.write_options.index_write_interval = 100;
    assert!(!ops.record_file_written(60));
    assert!(ops.record_file_written(40));
    assert_eq!(ops.write_progress.current_files_processed, 2);
    assert_eq!(ops.write_progress.current_bytes_processed, 100);
    assert_eq!(ops.write_progress.total_bytes_unindexed, 100);
}

fn tape_file(length: u64, modify: &str) -> File {
    File {
        name: "f".to_string(),
        uid: 3,
        length,
        creation_time: String::new(),
        change_time: String::new(),
        modify_time: modify.to_string(),
        access_time: String::new(),
        backup_time: String::new(),
        read_only: false,
        openforwrite: false,
        symlink: None,
        extent_info: ExtentInfo { extents: vec![] },
        extended_attributes: None,
    }
}

#[test]
fn same_file_by_size_and_time() {
    let ops = online();
    let f = tape_file(10, "2023-01-01T00:00:00+00:00");
    let t = 1672531200i64; // 2023-01-01T00:00:00Z
    assert!(ops.is_same_file(10, Some(t + 2), &f));
    assert!(!ops.is_same_file(10, Some(t + 3), &f));
    assert!(!ops.is_same_file(11, Some(t), &f));
    assert!(ops.is_same_file(10, None, &f));
    // an unparsable tape time only compares sizes
    assert!(ops.is_same_file(10, Some(0), &tape_file(10, "yesterday")));
}

#[test]
fn enhanced_update_records_times_and_hashes() {
    let mut ops = online();
    let pos = TapePosition { partition: 1, block_number: 500, file_number: 2, set_number: 0 };
    let times = EntryTimes { creation: Some("C".to_string()), modify: None, access: Some("A".to_string()) };
    let hashes = vec![("ltfs.hash.sha1sum".to_string(), "ABC".to_string())];
    ops.update_index_for_file_write_enhanced("f.bin", "/dir", 77, &pos, times, Some(hashes)).unwrap();
    assert!(ops.modified);
    let idx = ops.index.as_ref().unwrap();
    assert_eq!(idx.generationnumber, 2);
    let d = &idx.root_directory.contents.directories[0];
    assert_eq!(d.name, "dir");
    let f = &d.contents.files[0];
    assert_eq!(f.name, "f.bin");
    assert_eq!(f.length, 77);
    assert_eq!(f.creation_time, "C");
    assert_eq!(f.access_time, "A");
    assert_eq!(f.modify_time, f.backup_time);
    assert_eq!(f.extent_info.extents[0].partition, "b");
    assert_eq!(f.extent_info.extents[0].start_block, 500);
    let attrs = &f.extended_attributes.as_ref().unwrap().attributes;
    assert_eq!(attrs.len(), 2);
    assert_eq!(attrs[0].key, "ltfs.hash.sha1sum");
    assert_eq!(attrs[0].value, "ABC");
    assert_eq!(attrs[1].key, "ltfscopygui.capacityremain");
    assert_eq!(attrs[1].value, "12");
    assert_eq!(idx.highestfileuid, Some(f.uid));
    let written = ops.schema.as_ref().unwrap();
    assert_eq!(written.root_directory.contents.directories[0].contents.files[0].name, "f.bin");
    assert_eq!(written.highestfileuid, idx.highestfileuid);
}

#[test]
fn enhanced_update_without_hashes_has_no_attributes() {
    let mut ops = online();
    let pos = TapePosition { partition: 0, block_number: 9, file_number: 0, set_number: 0 };
    ops.update_index_for_file_write_enhanced("g", "", 1, &pos, no_times(), None).unwrap();
    let f = &ops.index.as_ref().unwrap().root_directory.contents.files[0];
    assert!(f.extended_attributes.is_none());
    assert_eq!(f.extent_info.extents[0].partition, "a");
}

#[test]
fn directory_is_created_at_the_root_with_the_next_uid() {
    let mut ops = online();
    ops.create_directory_in_index("photos", "/ignored", no_times()).unwrap();
    let idx = ops.index.as_ref().unwrap();
    assert_eq!(idx.highestfileuid, Some(2));
    assert_eq!(idx.generationnumber, 2);
    let d = &idx.root_directory.contents.directories[0];
    assert_eq!(d.name, "photos");
    assert_eq!(d.uid, 2);
    assert_eq!(d.creation_time, d.backup_time);
    assert!(ops.modified);
    let written = ops.schema.as_ref().unwrap();
    assert_eq!(written.root_directory.contents.directories[0].name, "photos");
    assert_eq!(written.highestfileuid, Some(2));
}
