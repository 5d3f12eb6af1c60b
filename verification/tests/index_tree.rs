use rustltfs::index::{
    calculate_total_size, count_directories_in_directory, count_files_in_directory, find_directory_by_path,
    find_file_by_name_recursive, search_file_by_uid, split_path, Directory, DirectoryContents, ExtentInfo, File,
    FileExtent, LtfsIndex, Location,
};
use rustltfs::listing::{ExtractAction, ExtractionResult};
use rustltfs::ops::{TapeOperations, TapePosition};

fn file(name: &str, uid: u64, length: u64) -> File {
    File {
        name: name.to_string(),
        uid,
        length,
        creation_time: "t0".to_string(),
        change_time: "t0".to_string(),
        modify_time: "t0".to_string(),
        access_time: "t0".to_string(),
        backup_time: "t0".to_string(),
        read_only: false,
        openforwrite: false,
        symlink: None,
        extent_info: ExtentInfo {
            extents: vec![FileExtent {
                partition: "b".to_string(),
                start_block: 100,
                byte_count: length,
                file_offset: 0,
                byte_offset: 0,
            }],
        },
        extended_attributes: None,
    }
}

fn dir(name: &str, uid: u64, files: Vec<File>, directories: Vec<Directory>) -> Directory {
    Directory {
        name: name.to_string(),
        uid,
        creation_time: "t0".to_string(),
        change_time: "t0".to_string(),
        modify_time: "t0".to_string(),
        access_time: "t0".to_string(),
        backup_time: "t0".to_string(),
        read_only: false,
        contents: DirectoryContents { files, directories },
    }
}

fn index_with(root: Directory, highest: Option<u64>) -> LtfsIndex {
    LtfsIndex {
        version: "2.4.0".to_string(),
        creator: "test".to_string(),
        volumeuuid: "uuid-1".to_string(),
        generationnumber: 3,
        updatetime: "t0".to_string(),
        location: Location { partition: "a".to_string(), startblock: 5 },
        previousgenerationlocation: None,
        allowpolicyupdate: Some(true),
        volumelockstate: None,
        highestfileuid: highest,
        root_directory: root,
    }
}

fn sample_tree() -> Directory {
    let docs = dir("docs", 2, vec![file("a.txt", 3, 10), file("B.TXT", 4, 20)], vec![]);
    let deep = dir("deep", 6, vec![file("c.bin", 7, 300)], vec![]);
    let media = dir("media", 5, vec![], vec![deep]);
    dir("", 1, vec![file("root.dat", 8, 5)], vec![docs, media])
}

#[test]
fn counts_over_the_tree() {
    let root = sample_tree();
    assert_eq!(count_files_in_directory(&root), 4);
    assert_eq!(count_directories_in_directory(&root), 3);
    assert_eq!(calculate_total_size(&root), 335);
}

#[test]
fn split_path_trims_slashes_and_keeps_empty_parts() {
    assert_eq!(split_path("/a/b/"), vec!["a".to_string(), "b".to_string()]);
    assert_eq!(split_path("a//b"), vec!["a".to_string(), "".to_string(), "b".to_string()]);
    assert!(split_path("///").is_empty());
    assert!(split_path("").is_empty());
}

#[test]
fn find_directory_follows_path() {
    let root = sample_tree();
    let found = find_directory_by_path(&root, "/media/deep").expect("present");
    assert_eq!(found.uid, 6);
    assert_eq!(find_directory_by_path(&root, "/").map(|d| d.uid), Some(1));
    assert!(find_directory_by_path(&root, "media/none").is_none());
}

#[test]
fn search_by_uid_and_by_name() {
    let root = sample_tree();
    assert_eq!(search_file_by_uid(&root, 7).map(|f| f.name.clone()), Some("c.bin".to_string()));
    assert!(search_file_by_uid(&root, 99).is_none());
    let f = find_file_by_name_recursive(&root, "b.txt").expect("case-insensitive match");
    assert_eq!(f.uid, 4);
    assert!(find_file_by_name_recursive(&root, "missing").is_err());
}

#[test]
fn add_file_creates_directories_and_assigns_next_uids() {
    let ops = TapeOperations::new("TAPE0", true);
    let mut index = index_with(sample_tree(), Some(8));
    ops.add_file_to_target_directory(&mut index, file("new.bin", 0, 42), "/media/fresh/sub/").unwrap();
    // two directories (9, 10) then the file (11)
    assert_eq!(index.highestfileuid, Some(11));
    let sub = find_directory_by_path(&index.root_directory, "media/fresh/sub").expect("created");
    assert_eq!(sub.uid, 10);
    assert_eq!(sub.contents.files.len(), 1);
    assert_eq!(sub.contents.files[0].uid, 11);
    assert_eq!(sub.contents.files[0].name, "new.bin");
    assert_eq!(count_files_in_directory(&index.root_directory), 5);
    assert_eq!(index.generationnumber, 3);
    assert!(!sub.read_only);
    assert_eq!(sub.creation_time, sub.backup_time);
    assert!(sub.creation_time.ends_with('Z'));
    // off the path nothing changes
    let docs = find_directory_by_path(&index.root_directory, "docs").unwrap();
    let uids: Vec<u64> = docs.contents.files.iter().map(|f| f.uid).collect();
    assert_eq!((docs.uid, uids), (2, vec![3, 4]));
    let deep = find_directory_by_path(&index.root_directory, "media/deep").unwrap();
    assert_eq!((deep.uid, deep.contents.files.len()), (6, 1));
    let media_before = find_directory_by_path(&sample_tree(), "media").map(|d| d.creation_time.clone());
    let media_after = find_directory_by_path(&index.root_directory, "media").map(|d| d.creation_time.clone());
    assert_eq!(media_before, media_after);
}

fn collect_uids(d: &Directory, out: &mut Vec<u64>) {
    out.push(d.uid);
    for f in &d.contents.files {
        out.push(f.uid);
    }
    for s in &d.contents.directories {
        collect_uids(s, out);
    }
}

#[test]
fn added_uids_stay_pairwise_distinct() {
    let ops = TapeOperations::new("TAPE0", true);
    let mut index = index_with(sample_tree(), Some(8));
    let mut before = Vec::new();
    collect_uids(&index.root_directory, &mut before);
    ops.add_file_to_target_directory(&mut index, file("x", 0, 1), "/a/b").unwrap();
    ops.add_file_to_target_directory(&mut index, file("y", 0, 1), "/a/c").unwrap();
    ops.add_file_to_target_directory(&mut index, file("z", 0, 1), "/docs").unwrap();
    let mut after = Vec::new();
    collect_uids(&index.root_directory, &mut after);
    // exactly the uids 9..=14 were handed out, once each
    assert_eq!(index.highestfileuid, Some(14));
    let mut added: Vec<u64> = after.iter().copied().filter(|u| !before.contains(u)).collect();
    added.sort();
    assert_eq!(added, vec![9, 10, 11, 12, 13, 14]);
    assert_eq!(after.len(), before.len() + 6);
    let mut sorted = after.clone();
    sorted.sort();
    sorted.dedup();
    let mut b = before.clone();
    b.sort();
    b.dedup();
    assert_eq!(sorted.len() - b.len(), 6);
}

#[test]
fn add_file_to_root_and_existing_directory() {
    let ops = TapeOperations::new("TAPE0", true);
    let mut index = index_with(sample_tree(), None);
    ops.add_file_to_target_directory(&mut index, file("top", 0, 1), "/").unwrap();
    assert_eq!(index.highestfileuid, Some(1));
    assert_eq!(index.root_directory.contents.files.last().unwrap().uid, 1);
    ops.add_file_to_target_directory(&mut index, file("d", 0, 1), "docs").unwrap();
    assert_eq!(index.highestfileuid, Some(2));
    let docs = find_directory_by_path(&index.root_directory, "docs").unwrap();
    assert_eq!(docs.contents.files.len(), 3);
    assert_eq!(count_directories_in_directory(&index.root_directory), 3);
}

#[test]
fn update_index_for_file_write_creates_index_and_bumps_generation() {
    let mut ops = TapeOperations::new("TAPE0", true);
    let pos = TapePosition { partition: 1, block_number: 77, file_number: 2, set_number: 0 };
    ops.update_index_for_file_write("movie.mkv", "/videos", 1234, &pos).unwrap();
    let idx = ops.index.as_ref().unwrap();
    assert_eq!(idx.generationnumber, 2);
    assert_eq!(idx.highestfileuid, Some(3));
    let videos = find_directory_by_path(&idx.root_directory, "videos").unwrap();
    assert_eq!(videos.uid, 2);
    let f = &videos.contents.files[0];
    assert_eq!(f.uid, 3);
    assert_eq!(f.length, 1234);
    assert_eq!(f.extent_info.extents[0].partition, "b");
    assert_eq!(f.extent_info.extents[0].start_block, 77);

    let pos0 = TapePosition { partition: 0, block_number: 5, file_number: 0, set_number: 0 };
    ops.update_index_for_file_write("notes.txt", "videos", 10, &pos0).unwrap();
    let idx = ops.index.as_ref().unwrap();
    assert_eq!(idx.generationnumber, 3);
    assert_eq!(idx.highestfileuid, Some(4));
    let videos = find_directory_by_path(&idx.root_directory, "videos").unwrap();
    assert_eq!(videos.contents.files[1].extent_info.extents[0].partition, "a");
}

#[test]
fn index_statistics_and_partition_usage() {
    let mut ops = TapeOperations::new("TAPE0", false);
    assert!(ops.get_index_statistics().is_none());
    assert_eq!(ops.get_partition_usage('b'), 0);
    ops.index = Some(index_with(sample_tree(), Some(8)));
    let st = ops.get_index_statistics().unwrap();
    assert_eq!(st.total_files, 4);
    assert_eq!(st.total_directories, 3);
    assert_eq!(st.total_size, 335);
    assert_eq!(st.volume_uuid, "uuid-1");
    assert_eq!(st.generation_number, 3);
    assert_eq!(ops.get_partition_usage('B'), 335);
    assert_eq!(ops.get_partition_usage('a'), 0);
}

#[test]
fn find_file_by_uid_reports_missing() {
    let ops = TapeOperations::new("TAPE0", false);
    let index = index_with(sample_tree(), Some(8));
    assert_eq!(ops.find_file_by_uid(&index, 3).unwrap().name, "a.txt");
    assert!(ops.find_file_by_uid(&index, 1000).is_err());
    assert_eq!(ops.find_existing_file_in_index(&index, "/", "ROOT.DAT").unwrap().uid, 8);
    assert_eq!(ops.directory_exists_in_index(&index, "/", "docs").unwrap(), false);
}

#[test]
fn new_index_is_fresh() {
    let ops = TapeOperations::new("TAPE0", false);
    let idx = ops.create_new_ltfs_index();
    assert_eq!(idx.version, "2.4.0");
    assert_eq!(idx.generationnumber, 1);
    assert_eq!(idx.highestfileuid, Some(1));
    assert_eq!(idx.location.partition, "b");
    assert_eq!(idx.root_directory.uid, 1);
    assert_eq!(idx.volumeuuid.len(), 36);
}

#[test]
fn extraction_steps_cover_two_levels_in_order() {
    let ops = TapeOperations::new("TAPE0", true);
    let root = sample_tree();
    let plan = ops.extract_directory(&root);
    assert_eq!(
        plan,
        vec![
            ExtractAction::CreateRoot,
            ExtractAction::ExtractRootFile(0),
            ExtractAction::CreateSubdir(0),
            ExtractAction::ExtractSubdirFile(0, 0),
            ExtractAction::ExtractSubdirFile(0, 1),
            ExtractAction::CreateSubdir(1),
        ]
    );
    let mut total = ExtractionResult { files_extracted: 1, directories_created: 1, total_bytes: 10, verification_passed: true };
    total.absorb(&ExtractionResult { files_extracted: 2, directories_created: 0, total_bytes: 5, verification_passed: false });
    assert_eq!((total.files_extracted, total.directories_created, total.total_bytes), (3, 1, 15));
    assert!(!total.verification_passed);
}
