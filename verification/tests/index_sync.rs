use rustltfs::error::RustLtfsError;
use rustltfs::index_sync::{SyncCommand, SyncProgress, SyncReply, XmlWriteProgress};
use rustltfs::ops::{TapeOperations, TapePosition};

fn pos(partition: u8, block_number: u64) -> TapePosition {
    TapePosition { partition, block_number, file_number: 0, set_number: 0 }
}

fn cmd(p: SyncProgress) -> SyncCommand {
    match p {
        SyncProgress::Command(c) => c,
        SyncProgress::Finished(r) => panic!("finished early: {:?}", r),
    }
}

#[test]
fn dual_partition_update_writes_both_copies() {
    let mut ops = TapeOperations::new("/dev/nst0", false);
    ops.extra_partition_count = Some(1);
    ops.index = Some(ops.create_new_ltfs_index());
    ops.modified = true;
    ops.write_progress.total_bytes_unindexed = 500;
    let (mut u, first) = ops.update_index_on_tape_with_options_dual_partition(false);
    assert_eq!(cmd(first), SyncCommand::ReadPosition);
    assert_eq!(cmd(u.step(&mut ops, Ok(SyncReply::Position(pos(0, 3))))), SyncCommand::LocateBlock(1, 0));
    assert_eq!(cmd(u.step(&mut ops, Ok(SyncReply::Done))), SyncCommand::SpaceToEndOfData);
    assert_eq!(cmd(u.step(&mut ops, Ok(SyncReply::Done))), SyncCommand::ReadPosition);
    assert_eq!(cmd(u.step(&mut ops, Ok(SyncReply::Position(pos(1, 900))))), SyncCommand::WriteFileMark);
    assert_eq!(cmd(u.step(&mut ops, Ok(SyncReply::Done))), SyncCommand::ReadPosition);
    assert_eq!(cmd(u.step(&mut ops, Ok(SyncReply::Position(pos(1, 901))))), SyncCommand::WriteIndex);
    {
        let i = u.index.as_ref().unwrap();
        assert_eq!(i.generationnumber, 2);
        assert_eq!((i.location.partition.as_str(), i.location.startblock), ("b", 901));
        let prev = i.previousgenerationlocation.as_ref().unwrap();
        assert_eq!((prev.partition.as_str(), prev.startblock), ("b", 0));
    }
    assert_eq!(cmd(u.step(&mut ops, Ok(SyncReply::Done))), SyncCommand::WriteFileMark);
    assert_eq!(cmd(u.step(&mut ops, Ok(SyncReply::Done))), SyncCommand::ReadPosition);
    assert_eq!(cmd(u.step(&mut ops, Ok(SyncReply::Position(pos(1, 905))))), SyncCommand::LocateToFileMark(3, 0));
    assert_eq!(cmd(u.step(&mut ops, Ok(SyncReply::Done))), SyncCommand::ReadPosition);
    assert_eq!(cmd(u.step(&mut ops, Ok(SyncReply::Position(pos(0, 6))))), SyncCommand::WriteFileMark);
    assert_eq!(cmd(u.step(&mut ops, Ok(SyncReply::Done))), SyncCommand::ReadPosition);
    assert_eq!(cmd(u.step(&mut ops, Ok(SyncReply::Position(pos(0, 7))))), SyncCommand::WriteIndex);
    {
        let i = u.index.as_ref().unwrap();
        assert_eq!((i.location.partition.as_str(), i.location.startblock), ("a", 7));
        let prev = i.previousgenerationlocation.as_ref().unwrap();
        assert_eq!((prev.partition.as_str(), prev.startblock), ("b", 901));
    }
    // the session is untouched until the update completes
    assert_eq!(ops.index.as_ref().unwrap().generationnumber, 1);
    assert_eq!(cmd(u.step(&mut ops, Ok(SyncReply::Done))), SyncCommand::WriteFileMark);
    assert_eq!(cmd(u.step(&mut ops, Ok(SyncReply::Done))), SyncCommand::ReadPosition);
    assert!(matches!(u.step(&mut ops, Ok(SyncReply::Position(pos(0, 9)))), SyncProgress::Finished(Ok(()))));
    let i = ops.index.as_ref().unwrap();
    assert_eq!(i.generationnumber, 2);
    assert_eq!(i.location.partition, "a");
    assert!(!ops.modified);
    assert_eq!(ops.write_progress.total_bytes_unindexed, 0);
}

#[test]
fn dual_partition_update_special_cases() {
    let mut ops = TapeOperations::new("/dev/nst0", false);
    let (_, first) = ops.update_index_on_tape_with_options_dual_partition(false);
    assert!(matches!(first, SyncProgress::Finished(Ok(()))));
    assert!(ops.index.is_none());
    // a single-partition tape gets only the data copy, on partition 0
    let (mut u, _) = ops.update_index_on_tape_with_options_dual_partition(true);
    assert_eq!(cmd(u.step(&mut ops, Ok(SyncReply::Position(pos(0, 3))))), SyncCommand::SpaceToEndOfData);
    u.step(&mut ops, Ok(SyncReply::Done));
    u.step(&mut ops, Ok(SyncReply::Position(pos(0, 50))));
    u.step(&mut ops, Ok(SyncReply::Done));
    u.step(&mut ops, Ok(SyncReply::Position(pos(0, 51))));
    u.step(&mut ops, Ok(SyncReply::Done));
    u.step(&mut ops, Ok(SyncReply::Done));
    assert!(matches!(u.step(&mut ops, Ok(SyncReply::Position(pos(0, 53)))), SyncProgress::Finished(Ok(()))));
    let i = ops.index.as_ref().unwrap();
    assert_eq!((i.generationnumber, i.location.startblock), (2, 51));
    assert_eq!(i.root_directory.name, ".");
    // an end of data before the index is refused
    let mut ops = TapeOperations::new("/dev/nst0", false);
    ops.extra_partition_count = Some(1);
    let mut idx = ops.create_new_ltfs_index();
    idx.location.startblock = 100;
    ops.index = Some(idx);
    let (mut u, _) = ops.update_index_on_tape_with_options_dual_partition(true);
    u.step(&mut ops, Ok(SyncReply::Position(pos(1, 3))));
    u.step(&mut ops, Ok(SyncReply::Done));
    match u.step(&mut ops, Ok(SyncReply::Position(pos(1, 80)))) {
        SyncProgress::Finished(Err(e)) => assert_eq!(
            e,
            RustLtfsError::TapeDevice(
                "Current position p1b80 not allowed for index write, index at startblock 100".to_string()
            )
        ),
        _ => panic!("expected a refusal"),
    }
    assert_eq!(ops.index.as_ref().unwrap().generationnumber, 1);
    let mut offline = TapeOperations::new("/dev/nst0", true);
    offline.write_progress.total_bytes_unindexed = 9;
    offline.update_index_on_tape_with_options_dual_partition(true);
    assert_eq!(offline.write_progress.total_bytes_unindexed, 0);
}

#[test]
fn xml_is_written_in_padded_blocks() {
    let mut ops = TapeOperations::new("/dev/nst0", false);
    ops.block_size = 4;
    let mut w = ops.write_xml_to_tape("abcdefghij");
    let mut blocks = Vec::new();
    let mut last = Ok(());
    loop {
        match w.next(last) {
            XmlWriteProgress::WriteBlock(b) => {
                blocks.push(b);
                last = Ok(());
            },
            XmlWriteProgress::Finished(r) => {
                assert_eq!(r, Ok(()));
                break;
            },
        }
    }
    assert_eq!(blocks, vec![b"abcd".to_vec(), b"efgh".to_vec(), vec![b'i', b'j', 0, 0]]);
    let mut w = ops.write_xml_to_tape("abcdefghij");
    w.next(Ok(()));
    w.next(Ok(()));
    match w.next(Err(RustLtfsError::Scsi("x".to_string()))) {
        XmlWriteProgress::Finished(Err(e)) => assert_eq!(
            e,
            RustLtfsError::TapeDevice("Failed to write XML block at offset 4: SCSI error: x".to_string())
        ),
        _ => panic!("expected an error"),
    }
}

#[test]
fn dual_partition_data_copy_points_back_on_partition_b() {
    let mut ops = TapeOperations::new("/dev/nst0", false);
    ops.extra_partition_count = Some(1);
    let mut loaded = ops.create_new_ltfs_index();
    loaded.generationnumber = 4;
    loaded.location.partition = "a".to_string();
    loaded.location.startblock = 6;
    ops.index = Some(loaded);
    let (mut u, _) = ops.update_index_on_tape_with_options_dual_partition(true);
    u.step(&mut ops, Ok(SyncReply::Position(pos(1, 0))));
    u.step(&mut ops, Ok(SyncReply::Done));
    u.step(&mut ops, Ok(SyncReply::Position(pos(1, 40))));
    u.step(&mut ops, Ok(SyncReply::Done));
    assert_eq!(cmd(u.step(&mut ops, Ok(SyncReply::Position(pos(1, 41))))), SyncCommand::WriteIndex);
    let i = u.index.as_ref().unwrap();
    assert_eq!(i.generationnumber, 5);
    assert_eq!((i.location.partition.as_str(), i.location.startblock), ("b", 41));
    let prev = i.previousgenerationlocation.as_ref().unwrap();
    assert_eq!((prev.partition.as_str(), prev.startblock), ("b", 6));
    let uuid = i.volumeuuid.clone();
    // the copy written is the one the session takes
    u.step(&mut ops, Ok(SyncReply::Done));
    u.step(&mut ops, Ok(SyncReply::Done));
    u.step(&mut ops, Ok(SyncReply::Position(pos(1, 45))));
    u.step(&mut ops, Ok(SyncReply::Done));
    u.step(&mut ops, Ok(SyncReply::Position(pos(0, 6))));
    u.step(&mut ops, Ok(SyncReply::Done));
    u.step(&mut ops, Ok(SyncReply::Position(pos(0, 9))));
    u.step(&mut ops, Ok(SyncReply::Done));
    u.step(&mut ops, Ok(SyncReply::Done));
    assert!(matches!(u.step(&mut ops, Ok(SyncReply::Position(pos(0, 12)))), SyncProgress::Finished(Ok(()))));
    let n = ops.index.as_ref().unwrap();
    assert_eq!((n.generationnumber, n.location.partition.as_str(), n.location.startblock), (5, "a", 9));
    assert_eq!(n.volumeuuid, uuid);
    let prev = n.previousgenerationlocation.as_ref().unwrap();
    assert_eq!((prev.partition.as_str(), prev.startblock), ("b", 41));
    assert_eq!(ops.schema.as_ref().unwrap().generationnumber, 5);
}
