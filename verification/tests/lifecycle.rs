use rustltfs::error::RustLtfsError;
use rustltfs::lifecycle::{InitCommand, InitProgress, InitReply, OperationRetry, Recovery, RetryDecision};
use rustltfs::ops::{OperationType, TapeOperations, TapePosition};
use rustltfs::partition::{MediaType, PartitionInfo, PartitionManager};

fn pos(partition: u8, block_number: u64) -> TapePosition {
    TapePosition { partition, block_number, file_number: 0, set_number: 0 }
}

fn cmd(p: InitProgress) -> InitCommand {
    match p {
        InitProgress::Command(c) => c,
        InitProgress::Finished(r) => panic!("finished early: {:?}", r),
    }
}

fn scsi(m: &str) -> RustLtfsError {
    RustLtfsError::Scsi(m.to_string())
}

#[test]
fn initialisation_for_a_read_loads_the_index() {
    let mut ops = TapeOperations::new("/dev/nst0", false);
    let (mut run, first) = ops.initialize(Some(OperationType::Read));
    assert_eq!(first, InitCommand::OpenDevice);
    assert_eq!(cmd(run.step(&mut ops, Ok(InitReply::Done))), InitCommand::WaitForDeviceReady);
    assert_eq!(cmd(run.step(&mut ops, Ok(InitReply::Done))), InitCommand::CheckMediaStatus);
    assert_eq!(cmd(run.step(&mut ops, Ok(InitReply::Media(MediaType::Lto8Rw)))), InitCommand::ModeSensePartitionInfo);
    assert_eq!(cmd(run.step(&mut ops, Ok(InitReply::ModeData(Some(vec![0, 0, 0, 1]))))), InitCommand::ReadIndex);
    assert_eq!(ops.extra_partition_count, Some(1));
    match run.step(&mut ops, Err(scsi("no index"))) {
        InitProgress::Finished(Err(e)) => {
            assert_eq!(e, RustLtfsError::LtfsIndex("Index reading failed: SCSI error: no index".to_string()))
        },
        _ => panic!("expected a failure"),
    }
    assert!(ops.partition_label.is_none());
}

#[test]
fn initialisation_for_a_write_or_a_space_query() {
    let mut ops = TapeOperations::new("/dev/nst0", false);
    let (mut run, _) = ops.initialize(None);
    run.step(&mut ops, Ok(InitReply::Done));
    run.step(&mut ops, Ok(InitReply::Done));
    run.step(&mut ops, Ok(InitReply::Media(MediaType::Unknown(7))));
    assert_eq!(cmd(run.step(&mut ops, Ok(InitReply::ModeData(None)))), InitCommand::ReadIndex);
    assert_eq!(ops.extra_partition_count, Some(0));
    assert!(matches!(run.step(&mut ops, Err(scsi("blank"))), InitProgress::Finished(Ok(()))));
    assert_eq!(ops.partition_label.as_ref().unwrap().blocksize, 65536);
    let mut ops = TapeOperations::new("/dev/nst0", false);
    let (mut run, _) = ops.initialize(Some(OperationType::Space));
    run.step(&mut ops, Ok(InitReply::Done));
    run.step(&mut ops, Ok(InitReply::Done));
    run.step(&mut ops, Ok(InitReply::Media(MediaType::Lto7Rw)));
    assert!(matches!(run.step(&mut ops, Ok(InitReply::ModeData(None))), InitProgress::Finished(Ok(()))));
    assert!(ops.partition_label.is_none());
    let (mut run, _) = ops.initialize(Some(OperationType::Space));
    run.step(&mut ops, Ok(InitReply::Done));
    run.step(&mut ops, Ok(InitReply::Done));
    match run.step(&mut ops, Ok(InitReply::Media(MediaType::NoTape))) {
        InitProgress::Finished(Err(e)) => assert_eq!(e, RustLtfsError::TapeDevice("No tape loaded".to_string())),
        _ => panic!("expected an empty drive"),
    }
    let (mut run, _) = ops.initialize(None);
    assert!(matches!(run.step(&mut ops, Err(scsi("open"))), InitProgress::Finished(Err(_))));
}

#[test]
fn recovery_reset_load_and_retry() {
    let ops = TapeOperations::new("/dev/nst0", false);
    match ops.recover_from_scsi_error(Ok(MediaType::NoTape), Ok(pos(0, 0))) {
        Recovery::Fail(e) => {
            assert_eq!(e, RustLtfsError::TapeDevice("No tape loaded - manual intervention required".to_string()))
        },
        r => panic!("unexpected {:?}", r),
    }
    assert_eq!(ops.recover_from_scsi_error(Err(scsi("x")), Err(scsi("y"))), Recovery::ResetDrive);
    assert_eq!(ops.recover_from_scsi_error(Ok(MediaType::Lto6Rw), Ok(pos(1, 2))), Recovery::Settle(1000));
    assert_eq!(
        ops.attempt_drive_reset(Err(scsi("stuck")), Ok(pos(0, 0))),
        Err(RustLtfsError::TapeDevice("Drive reset failed - cannot rewind: SCSI error: stuck".to_string()))
    );
    assert_eq!(
        ops.attempt_drive_reset(Ok(()), Err(scsi("mute"))),
        Err(RustLtfsError::TapeDevice("Drive reset failed - position unreadable: SCSI error: mute".to_string()))
    );
    assert_eq!(ops.attempt_drive_reset(Ok(()), Ok(pos(0, 0))), Ok(()));
    assert_eq!(ops.load_tape(Ok(false)), Ok(()));
    assert_eq!(ops.load_tape(Err(scsi("jam"))), Err(scsi("jam")));
    assert_eq!(TapeOperations::new("x", true).load_tape(Err(scsi("jam"))), Ok(()));
    let mut r = OperationRetry::verify_operation_with_retry("locate", 2);
    assert!(matches!(r.record_failure(scsi("a")), RetryDecision::Retry(1000, _)));
    assert!(matches!(r.record_failure(scsi("b")), RetryDecision::Retry(2000, _)));
    match r.record_failure(scsi("c")) {
        RetryDecision::GiveUp(e) => assert_eq!(e, scsi("c")),
        _ => panic!("expected to give up"),
    }
    let mut r = OperationRetry::verify_operation_with_retry("locate", 20);
    for _ in 0..11 {
        r.record_failure(scsi("a"));
    }
    assert!(matches!(r.record_failure(scsi("a")), RetryDecision::Retry(10000, _)));
    let mut o = TapeOperations::new("/dev/nst0", false);
    assert_eq!(o.set_encryption_key("secret"), Ok(()));
}

#[test]
fn partition_manager_layout_decisions() {
    let m = PartitionManager::new(false);
    assert_eq!(m.check_multi_partition_support(Some((100, 0)), true), Ok(false));
    assert_eq!(m.check_multi_partition_support(Some((100, 5)), false), Ok(true));
    assert_eq!(m.check_multi_partition_support(None, true), Ok(true));
    assert_eq!(m.check_partition_support(None, false), Ok(false));
    assert_eq!(PartitionManager::new(true).check_multi_partition_support(None, false), Ok(true));
    assert_eq!(m.read_partition_info_from_tape(Some((1, 2)), false), Ok((1, 2)));
    assert_eq!(
        m.read_partition_info_from_tape(None, true),
        Err(scsi("READ POSITION doesn't provide partition size information"))
    );
    assert_eq!(
        m.read_partition_info_from_tape(None, false),
        Err(scsi("All SCSI partition detection methods failed, will use estimated values"))
    );
    let single = m.detect_partition_sizes(Err(scsi("x")), Some(MediaType::Lto6Rw), 0, Ok((1, 1))).unwrap();
    assert_eq!(single, PartitionInfo { partition_0_size: 2_500_000_000_000, partition_1_size: 0, has_multi_partition: false });
    let read = m.get_partition_info(Ok(true), None, 0, Ok((7, 8))).unwrap();
    assert_eq!((read.partition_0_size, read.partition_1_size), (7, 8));
    let est = m.detect_partition_sizes(Ok(true), Some(MediaType::Lto7Ro), 0, Err(scsi("x"))).unwrap();
    assert_eq!((est.partition_0_size, est.partition_1_size), (100_000_000_000, 5_900_000_000_000));
    assert_eq!(m.get_partition_sizes(Ok(est)), Ok((100_000_000_000, 5_900_000_000_000)));
    assert_eq!(m.partition_health_check(Ok(est), Ok(()), Err(scsi("p1")), Ok(())), Ok(false));
    assert_eq!(m.partition_health_check(Ok(est), Ok(()), Ok(()), Err(scsi("back"))), Err(scsi("back")));
    assert_eq!(m.partition_health_check(Ok(single), Ok(()), Err(scsi("p1")), Ok(())), Ok(true));
    assert_eq!(m.partition_health_check(Ok(single), Err(scsi("p0")), Ok(()), Ok(())), Ok(false));
}

#[test]
fn session_layout_from_the_extra_partition_count() {
    let mut o = TapeOperations::new("/dev/nst0", false);
    assert_eq!(o.check_multi_partition_support(), Ok(false));
    assert_eq!(o.get_partition_sizes(Some(MediaType::Lto7Rw)), Ok((6_000_000_000_000, 0)));
    o.extra_partition_count = Some(1);
    assert_eq!(o.check_multi_partition_support(), Ok(true));
    assert_eq!(o.get_partition_sizes(None), Ok((215_999_999_999, 11_784_000_000_001)));
    let info = o.get_partition_info(Some(MediaType::Lto8Rw)).unwrap();
    assert_eq!((info.partition_0_size, info.partition_1_size), (200_000_000_000, 11_800_000_000_000));
    assert_eq!(o.partition_health_check(None, Ok(()), Err(scsi("p1")), Ok(())), Ok(false));
    assert_eq!(o.partition_health_check(None, Ok(()), Ok(()), Ok(())), Ok(true));
}
