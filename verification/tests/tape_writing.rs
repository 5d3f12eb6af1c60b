use rustltfs::error::RustLtfsError;
use rustltfs::index::find_directory_by_path;
use rustltfs::index_read::{TapeCommand, TapeReply};
use rustltfs::listing::WriteResult;
use rustltfs::ops::{TapeOperations, TapePosition};
use rustltfs::search::{blank_tape_check, SearchStep};
use rustltfs::tape_write::{
    file_extension, DataWriteCommand, DataWriteProgress, DataWriteReply, DirListing, DirWriteCommand,
    DirWriteProgress, DirWriteReply, FileWriteCommand, FileWriteProgress, FileWriteReply, LocalDirInfo,
    LocalFileInfo,
};
use rustltfs::volume_read::{VolumeReadCommand, VolumeReadOutcome, VolumeReadProgress, VolumeReadReply};
use rustltfs::write::EntryTimes;

fn pos(partition: u8, block_number: u64) -> TapePosition {
    TapePosition { partition, block_number, file_number: 0, set_number: 0 }
}

fn no_times() -> EntryTimes {
    EntryTimes { creation: None, modify: None, access: None }
}

fn info(name: &str, size: u64) -> LocalFileInfo {
    LocalFileInfo { name: name.to_string(), size, is_symlink: false, modified: None, times: no_times() }
}

fn dcmd(p: DataWriteProgress) -> DataWriteCommand {
    match p {
        DataWriteProgress::Command(c) => c,
        DataWriteProgress::Finished(_) => panic!("finished early"),
    }
}

fn fcmd(p: FileWriteProgress) -> FileWriteCommand {
    match p {
        FileWriteProgress::Command(c) => c,
        FileWriteProgress::Finished(r) => panic!("finished early: {:?}", r),
    }
}

fn dircmd(p: DirWriteProgress) -> DirWriteCommand {
    match p {
        DirWriteProgress::Command(c) => c,
        DirWriteProgress::Finished(r) => panic!("finished early: {:?}", r),
    }
}

#[test]
fn extensions_follow_the_last_dot() {
    assert_eq!(file_extension("a.tar.gz"), Some("gz".to_string()));
    assert_eq!(file_extension("README"), None);
    assert_eq!(file_extension(".bashrc"), None);
    assert_eq!(file_extension("name."), Some(String::new()));
    assert_eq!(file_extension(".."), None);
}

#[test]
fn file_data_is_padded_to_whole_blocks_on_the_data_partition() {
    let ops = TapeOperations::new("/dev/nst0", false);
    let (mut w, first) = ops.write_file_data_to_tape(70000);
    assert_eq!(first, DataWriteCommand::ReadSource);
    assert_eq!(dcmd(w.step(Ok(DataWriteReply::Content(vec![1u8; 70000])))), DataWriteCommand::ReadPosition);
    assert_eq!(dcmd(w.step(Ok(DataWriteReply::Position(pos(0, 5))))), DataWriteCommand::LocateBlock(1, 100));
    assert_eq!(dcmd(w.step(Ok(DataWriteReply::Done))), DataWriteCommand::ReadPosition);
    match dcmd(w.step(Ok(DataWriteReply::Position(pos(1, 120))))) {
        DataWriteCommand::WriteBlocks(n, buffer) => {
            assert_eq!(n, 2);
            assert_eq!(buffer.len(), 131072);
            assert_eq!(buffer[69999], 1);
            assert_eq!(buffer[70000], 0);
        },
        c => panic!("unexpected command {:?}", c),
    }
    assert_eq!(dcmd(w.step(Ok(DataWriteReply::BlocksWritten(2)))), DataWriteCommand::WriteFileMark);
    match w.step(Ok(DataWriteReply::Done)) {
        DataWriteProgress::Finished(Ok(WriteResult { position, blocks_written, bytes_written })) => {
            assert_eq!(position, pos(1, 120));
            assert_eq!((blocks_written, bytes_written), (2, 70000));
        },
        _ => panic!("expected the write result"),
    }
}

#[test]
fn file_data_write_failures() {
    let ops = TapeOperations::new("/dev/nst0", false);
    let (mut w, _) = ops.write_file_data_to_tape(10);
    match w.step(Err(RustLtfsError::FileOperation("boom".to_string()))) {
        DataWriteProgress::Finished(Err(e)) => {
            assert_eq!(e, RustLtfsError::FileOperation("Unable to read file: boom".to_string()))
        },
        _ => panic!("expected a file error"),
    }
    let (mut w, _) = ops.write_file_data_to_tape(70000);
    w.step(Ok(DataWriteReply::Content(vec![7u8; 10])));
    assert_eq!(dcmd(w.step(Ok(DataWriteReply::Position(pos(1, 7))))), DataWriteCommand::ReadPosition);
    w.step(Ok(DataWriteReply::Position(pos(1, 7))));
    match w.step(Ok(DataWriteReply::BlocksWritten(1))) {
        DataWriteProgress::Finished(Err(e)) => {
            assert_eq!(e, RustLtfsError::Scsi("Expected to write 2 blocks, but wrote 1".to_string()))
        },
        _ => panic!("expected a short write error"),
    }
}

#[test]
fn file_write_records_the_file_in_the_index() {
    let mut ops = TapeOperations::new("/dev/nst0", false);
    let (mut w, first) = ops.write_file_to_tape("/docs");
    assert_eq!(fcmd(first), FileWriteCommand::StatSource);
    assert_eq!(fcmd(w.step(&mut ops, Ok(FileWriteReply::Stat(info("a.txt", 10))))), FileWriteCommand::ComputeHashes);
    let hashes = vec![("ltfs.hash.sha1sum".to_string(), "abc".to_string())];
    assert_eq!(fcmd(w.step(&mut ops, Ok(FileWriteReply::Hashes(hashes)))), FileWriteCommand::WriteData(10));
    let written = WriteResult { position: pos(1, 100), blocks_written: 1, bytes_written: 10 };
    assert!(matches!(w.step(&mut ops, Ok(FileWriteReply::Written(written))), FileWriteProgress::Finished(Ok(()))));
    let index = ops.index.as_ref().unwrap();
    let docs = find_directory_by_path(&index.root_directory, "docs").unwrap();
    let f = &docs.contents.files[0];
    assert_eq!((f.name.as_str(), f.length), ("a.txt", 10));
    assert_eq!(f.extent_info.extents[0].start_block, 100);
    let attrs = &f.extended_attributes.as_ref().unwrap().attributes;
    assert_eq!((attrs[0].key.as_str(), attrs[0].value.as_str()), ("ltfs.hash.sha1sum", "abc"));
    assert_eq!(ops.write_progress.current_files_processed, 1);
    assert_eq!(ops.write_progress.current_bytes_processed, 10);
    assert_eq!(ops.write_progress.total_bytes_unindexed, 10);
    assert!(ops.modified);
    // the same file offered again is skipped
    let (mut w, _) = ops.write_file_to_tape("/docs");
    assert!(matches!(w.step(&mut ops, Ok(FileWriteReply::Stat(info("A.TXT", 10)))), FileWriteProgress::Finished(Ok(()))));
    assert_eq!(ops.write_progress.current_files_processed, 1);
}

#[test]
fn file_write_skips_refuses_and_stops() {
    let mut ops = TapeOperations::new("/dev/nst0", false);
    let (mut w, _) = ops.write_file_to_tape("/");
    assert!(matches!(w.step(&mut ops, Ok(FileWriteReply::Stat(info("meta.XATTR", 3)))), FileWriteProgress::Finished(Ok(()))));
    let (mut w, _) = ops.write_file_to_tape("/");
    match w.step(&mut ops, Ok(FileWriteReply::Stat(info("huge.bin", 9 << 40)))) {
        FileWriteProgress::Finished(Err(e)) => assert_eq!(
            e,
            RustLtfsError::TapeDevice(
                "Insufficient space on tape: Tape device error: File too large for tape capacity".to_string()
            )
        ),
        _ => panic!("expected a space error"),
    }
    let (mut w, _) = ops.write_file_to_tape("/");
    match w.step(&mut ops, Err(RustLtfsError::FileOperation("nope".to_string()))) {
        FileWriteProgress::Finished(Err(e)) => {
            assert_eq!(e, RustLtfsError::FileOperation("Unable to get file information: nope".to_string()))
        },
        _ => panic!("expected a file error"),
    }
    ops.pause_flag = true;
    let (mut w, _) = ops.write_file_to_tape("/");
    assert_eq!(fcmd(w.step(&mut ops, Ok(FileWriteReply::Stat(info("x.bin", 1))))), FileWriteCommand::WaitWhilePaused);
    ops.stop_flag = true;
    match w.step(&mut ops, Ok(FileWriteReply::Resumed)) {
        FileWriteProgress::Finished(Err(e)) => {
            assert_eq!(e, RustLtfsError::OperationCancelled("Write operation stopped".to_string()))
        },
        _ => panic!("expected a stop"),
    }
    let (_, first) = ops.write_file_to_tape("/");
    assert!(matches!(first, FileWriteProgress::Finished(Err(RustLtfsError::OperationCancelled(_)))));
    let mut offline = TapeOperations::new("/dev/nst0", true);
    let (_, first) = offline.write_file_to_tape("/");
    assert!(matches!(first, FileWriteProgress::Finished(Ok(()))));
    assert_eq!(offline.write_progress.current_files_processed, 1);
}

#[test]
fn file_write_waits_for_the_speed_limit_and_updates_the_index_at_the_interval() {
    let mut ops = TapeOperations::new("/dev/nst0", false);
    ops.write_options.speed_limit = Some(1);
    ops.write_options.hash_on_write = false;
    ops.write_options.index_write_interval = 5;
    let (mut w, _) = ops.write_file_to_tape("/");
    assert_eq!(fcmd(w.step(&mut ops, Ok(FileWriteReply::Stat(info("big.bin", 2 * 1024 * 1024))))), FileWriteCommand::Sleep(2000));
    assert_eq!(fcmd(w.step(&mut ops, Ok(FileWriteReply::Done))), FileWriteCommand::WriteData(2 * 1024 * 1024));
    let written = WriteResult { position: pos(1, 100), blocks_written: 32, bytes_written: 2 * 1024 * 1024 };
    assert_eq!(fcmd(w.step(&mut ops, Ok(FileWriteReply::Written(written)))), FileWriteCommand::UpdateIndexOnTape);
    assert!(matches!(w.step(&mut ops, Ok(FileWriteReply::Done)), FileWriteProgress::Finished(Ok(()))));
    let f = &ops.index.as_ref().unwrap().root_directory.contents.files[0];
    assert!(f.extended_attributes.is_none());
}

#[test]
fn directory_write_creates_the_entry_and_walks_files_then_subdirectories() {
    let mut ops = TapeOperations::new("/dev/nst0", false);
    let (mut w, first) = ops.write_directory_to_tape("/backup");
    assert_eq!(dircmd(first), DirWriteCommand::StatDirectory);
    let dir = LocalDirInfo { name: "photos".to_string(), is_symlink: false, times: no_times() };
    assert_eq!(dircmd(w.step(&mut ops, Ok(DirWriteReply::Stat(dir)))), DirWriteCommand::ListDirectory);
    let root = &ops.index.as_ref().unwrap().root_directory;
    assert_eq!(root.contents.directories[0].name, "photos");
    assert_eq!(root.contents.directories[0].uid, 2);
    let listing = DirListing {
        files: vec!["b.jpg".to_string(), "a.jpg".to_string(), "c.xattr".to_string()],
        subdirs: vec!["sub".to_string()],
    };
    assert_eq!(
        dircmd(w.step(&mut ops, Ok(DirWriteReply::Listing(listing)))),
        DirWriteCommand::WriteFile("a.jpg".to_string(), "/backup/a.jpg".to_string())
    );
    assert_eq!(
        dircmd(w.step(&mut ops, Ok(DirWriteReply::Done))),
        DirWriteCommand::WriteFile("b.jpg".to_string(), "/backup/b.jpg".to_string())
    );
    assert_eq!(
        dircmd(w.step(&mut ops, Err(RustLtfsError::Scsi("failed".to_string())))),
        DirWriteCommand::WriteFile("c.xattr".to_string(), "/backup/c.xattr".to_string())
    );
    assert_eq!(
        dircmd(w.step(&mut ops, Ok(DirWriteReply::Done))),
        DirWriteCommand::WriteSubdirectory("sub".to_string(), "/backup/sub".to_string())
    );
    assert!(matches!(w.step(&mut ops, Ok(DirWriteReply::Done)), DirWriteProgress::Finished(Ok(()))));
}

#[test]
fn sequential_directory_write_skips_excluded_extensions_and_honours_a_stop() {
    let mut ops = TapeOperations::new("/dev/nst0", false);
    ops.write_options.parallel_add = false;
    ops.write_options.excluded_extensions = vec!["TMP".to_string()];
    let (mut w, _) = ops.write_directory_to_tape("t");
    let dir = LocalDirInfo { name: "d".to_string(), is_symlink: false, times: no_times() };
    w.step(&mut ops, Ok(DirWriteReply::Stat(dir)));
    let listing = DirListing {
        files: vec!["x.tmp".to_string(), "y.txt".to_string(), "z.tmp".to_string()],
        subdirs: vec!["s1".to_string(), "s2".to_string()],
    };
    assert_eq!(
        dircmd(w.step(&mut ops, Ok(DirWriteReply::Listing(listing)))),
        DirWriteCommand::WriteFile("y.txt".to_string(), "t/y.txt".to_string())
    );
    assert_eq!(
        dircmd(w.step(&mut ops, Ok(DirWriteReply::Done))),
        DirWriteCommand::WriteSubdirectory("s1".to_string(), "t/s1".to_string())
    );
    ops.stop_flag = true;
    assert!(matches!(w.step(&mut ops, Ok(DirWriteReply::Done)), DirWriteProgress::Finished(Ok(()))));
}

#[test]
fn directory_write_special_cases() {
    let mut ops = TapeOperations::new("/dev/nst0", false);
    ops.write_options.skip_symlinks = true;
    let (mut w, _) = ops.write_directory_to_tape("t");
    let link = LocalDirInfo { name: "l".to_string(), is_symlink: true, times: no_times() };
    assert!(matches!(w.step(&mut ops, Ok(DirWriteReply::Stat(link))), DirWriteProgress::Finished(Ok(()))));
    assert!(ops.index.is_none());
    let (mut w, _) = ops.write_directory_to_tape("t");
    match w.step(&mut ops, Err(RustLtfsError::FileOperation("gone".to_string()))) {
        DirWriteProgress::Finished(Err(e)) => {
            assert_eq!(e, RustLtfsError::FileOperation("Cannot get directory metadata: gone".to_string()))
        },
        _ => panic!("expected a file error"),
    }
    ops.pause_flag = true;
    let (mut w, _) = ops.write_directory_to_tape("t");
    let dir = LocalDirInfo { name: "d".to_string(), is_symlink: false, times: no_times() };
    w.step(&mut ops, Ok(DirWriteReply::Stat(dir)));
    let listing = DirListing { files: vec!["f".to_string()], subdirs: vec![] };
    assert_eq!(dircmd(w.step(&mut ops, Ok(DirWriteReply::Listing(listing)))), DirWriteCommand::WaitWhilePaused);
    ops.pause_flag = false;
    assert_eq!(
        dircmd(w.step(&mut ops, Ok(DirWriteReply::Resumed))),
        DirWriteCommand::WriteFile("f".to_string(), "t/f".to_string())
    );
    let offline = TapeOperations::new("/dev/nst0", true);
    assert!(matches!(offline.write_directory_to_tape("t").1, DirWriteProgress::Finished(Ok(()))));
}

fn vcmd(p: VolumeReadProgress) -> VolumeReadCommand {
    match p {
        VolumeReadProgress::Command(c) => c,
        VolumeReadProgress::Finished(_) => panic!("finished early"),
    }
}

#[test]
fn volume_label_read_follows_the_label_to_the_index() {
    let mut ops = TapeOperations::new("/dev/nst0", false);
    let (mut r, first) = ops.read_index_from_tape_new();
    assert!(matches!(vcmd(first), VolumeReadCommand::TestUnitReady));
    assert!(matches!(vcmd(r.step(&mut ops, Ok(VolumeReadReply::Ready))), VolumeReadCommand::DetectPartitionCount));
    assert!(matches!(
        vcmd(r.step(&mut ops, Ok(VolumeReadReply::PartitionCount(2)))),
        VolumeReadCommand::Tape(TapeCommand::LocateBlock(0, 0))
    ));
    assert!(matches!(
        vcmd(r.step(&mut ops, Ok(VolumeReadReply::Tape(TapeReply::Done)))),
        VolumeReadCommand::Tape(TapeCommand::ReadBlocks(1, 524288))
    ));
    assert!(matches!(
        vcmd(r.step(&mut ops, Err(RustLtfsError::Scsi("too big".to_string())))),
        VolumeReadCommand::Tape(TapeCommand::ReadBlocks(1, 80))
    ));
    let mut vol1 = vec![0u8; 80];
    vol1[..4].copy_from_slice(b"VOL1");
    vol1[24..28].copy_from_slice(b"LTFS");
    assert!(matches!(
        vcmd(r.step(&mut ops, Ok(VolumeReadReply::Tape(TapeReply::Bytes(vol1))))),
        VolumeReadCommand::Tape(TapeCommand::LocateBlock(0, 1))
    ));
    assert!(matches!(
        vcmd(r.step(&mut ops, Ok(VolumeReadReply::Tape(TapeReply::Done)))),
        VolumeReadCommand::Tape(TapeCommand::ReadBlocks(1, 65536))
    ));
    let mut label = vec![0u8; 64];
    label[0..4].copy_from_slice(b"LTFS");
    label[8..12].copy_from_slice(&20u32.to_le_bytes());
    match vcmd(r.step(&mut ops, Ok(VolumeReadReply::Tape(TapeReply::Bytes(label))))) {
        VolumeReadCommand::ReadIndexAt(plan) => assert_eq!((plan.partition, plan.block, plan.block_size), (0, 20, 65536)),
        _ => panic!("expected the index read"),
    }
    match r.step(&mut ops, Ok(VolumeReadReply::Index("<ltfsindex/>".to_string()))) {
        VolumeReadProgress::Finished(Ok(VolumeReadOutcome::Index(t))) => assert_eq!(t, "<ltfsindex/>"),
        _ => panic!("expected the index"),
    }
}

#[test]
fn volume_label_read_failures_and_alternatives() {
    let mut ops = TapeOperations::new("/dev/nst0", false);
    let (mut r, _) = ops.read_index_from_tape_new();
    match r.step(&mut ops, Err(RustLtfsError::Scsi("no medium".to_string()))) {
        VolumeReadProgress::Finished(Err(e)) => {
            assert_eq!(e, RustLtfsError::Scsi("Device not ready: SCSI error: no medium".to_string()))
        },
        _ => panic!("expected a readiness error"),
    }
    let start = |ops: &mut TapeOperations| {
        let (mut r, _) = ops.read_index_from_tape_new();
        r.step(ops, Ok(VolumeReadReply::Ready));
        r.step(ops, Ok(VolumeReadReply::PartitionCount(1)));
        r.step(ops, Ok(VolumeReadReply::Tape(TapeReply::Done)));
        r
    };
    let mut r = start(&mut ops);
    match r.step(&mut ops, Ok(VolumeReadReply::Tape(TapeReply::Bytes(vec![0u8; 524288])))) {
        VolumeReadProgress::Finished(Err(e)) => {
            assert_eq!(e, RustLtfsError::LtfsIndex("Blank tape detected - no LTFS index found".to_string()))
        },
        _ => panic!("expected a blank tape"),
    }
    let mut r = start(&mut ops);
    let mut other = vec![0u8; 524288];
    other[0..4].copy_from_slice(b"HDR1");
    assert!(matches!(
        r.step(&mut ops, Ok(VolumeReadReply::Tape(TapeReply::Bytes(other)))),
        VolumeReadProgress::Finished(Ok(VolumeReadOutcome::Alternative(1)))
    ));
    let mut r = start(&mut ops);
    r.step(&mut ops, Err(RustLtfsError::Scsi("a".to_string())));
    match r.step(&mut ops, Err(RustLtfsError::Scsi("b".to_string()))) {
        VolumeReadProgress::Finished(Err(e)) => {
            assert_eq!(e, RustLtfsError::Scsi("Failed to read VOL1 label: SCSI error: b".to_string()))
        },
        _ => panic!("expected a read error"),
    }
}

#[test]
fn asynchronous_alternative_routes_and_blank_check() {
    let ops = TapeOperations::new("/dev/nst0", false);
    let mut p = ops.try_alternative_index_reading_strategies_async(1);
    assert_eq!(p.common.next_position(), Some((0, 10)));
    assert!(matches!(p.common.record_attempt(Ok("x".to_string())), SearchStep::TryAt(0, 2)));
    assert_eq!((p.blank_check_block, p.label_block), ((0, 0), (0, 1)));
    assert_eq!(p.last.candidates[0], (0, 50));
    assert_eq!(ops.try_alternative_index_reading_strategies_async(2).last.candidates[0], (1, 1000));
    assert!(blank_tape_check(&vec![0u8; 65536]).is_err());
    let mut b = vec![0u8; 65536];
    b[4095] = 1;
    assert_eq!(blank_tape_check(&b), Ok(()));
    b[4095] = 0;
    b[4096] = 1;
    assert!(blank_tape_check(&b).is_err());
}
