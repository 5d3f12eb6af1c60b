use rustltfs::error::RustLtfsError;
use rustltfs::index_read::{
    blocksize_from_label_text, AttemptPhase, AttemptProgress, AttemptReply, Progress, ReadStage, RetryStep,
    TapeCommand, TapeReply,
};
use rustltfs::ops::{LtfsPartitionLabel, TapeOperations, TapePosition};

fn pos(file_number: u64) -> TapePosition {
    TapePosition { partition: 0, block_number: 0, file_number, set_number: 0 }
}

fn cmd(p: &Progress) -> TapeCommand {
    match p {
        Progress::Command(c) => *c,
        Progress::Finished(_) => panic!("finished early"),
    }
}

const INDEX: &str = "<ltfsindex version=\"2.4.0\"><directory></directory></ltfsindex>";

#[test]
fn latest_eod_read_walks_to_file_mark_three_on_partition_zero() {
    let ops = TapeOperations::new("/dev/nst0", false);
    let mut m = ops.try_read_latest_index_from_eod(0);
    assert_eq!(m.pending_command(), TapeCommand::LocateBlock(0, 0));
    assert_eq!(cmd(&m.step(Ok(TapeReply::Done))), TapeCommand::LocateToEod(0));
    assert_eq!(cmd(&m.step(Ok(TapeReply::Done))), TapeCommand::ReadPosition);
    assert_eq!(cmd(&m.step(Ok(TapeReply::Position(pos(7))))), TapeCommand::LocateToFileMark(3, 0));
    assert_eq!(cmd(&m.step(Ok(TapeReply::Done))), TapeCommand::SpaceFileMarks(1));
    assert_eq!(cmd(&m.step(Ok(TapeReply::Done))), TapeCommand::ReadToFileMark(65536));
    match m.step(Ok(TapeReply::Text(INDEX.to_string()))) {
        Progress::Finished(Ok(t)) => assert_eq!(t, INDEX),
        _ => panic!("expected the index"),
    }
}

#[test]
fn latest_eod_read_on_data_partition_uses_last_but_one_mark() {
    let mut ops = TapeOperations::new("/dev/nst0", false);
    let mut label = LtfsPartitionLabel::default();
    label.blocksize = 524288;
    ops.partition_label = Some(label);
    let mut m = ops.try_read_latest_index_from_eod(1);
    m.step(Ok(TapeReply::Done));
    m.step(Ok(TapeReply::Done));
    assert_eq!(cmd(&m.step(Ok(TapeReply::Position(pos(7))))), TapeCommand::LocateToFileMark(6, 1));
    m.step(Ok(TapeReply::Done));
    assert_eq!(cmd(&m.step(Ok(TapeReply::Done))), TapeCommand::ReadToFileMark(524288));
    match m.step(Ok(TapeReply::Text("not an index".to_string()))) {
        Progress::Finished(Err(RustLtfsError::LtfsIndex(msg))) => {
            assert_eq!(msg, "No valid latest index found at partition 1 EOD")
        },
        _ => panic!("expected an index error"),
    }
}

#[test]
fn latest_eod_read_errors() {
    let ops = TapeOperations::new("/dev/nst0", false);
    let mut m = ops.try_read_latest_index_from_eod(0);
    m.step(Ok(TapeReply::Done));
    match m.step(Err(RustLtfsError::Scsi("no EOD".to_string()))) {
        Progress::Finished(Err(RustLtfsError::LtfsIndex(msg))) => {
            assert_eq!(msg, "Cannot locate to EOD: SCSI error: no EOD")
        },
        _ => panic!("expected an index error"),
    }
    let mut m = ops.try_read_latest_index_from_eod(0);
    m.step(Ok(TapeReply::Done));
    m.step(Ok(TapeReply::Done));
    match m.step(Ok(TapeReply::Position(pos(1)))) {
        Progress::Finished(Err(RustLtfsError::LtfsIndex(msg))) => {
            assert_eq!(msg, "Insufficient file marks in partition 0 for index reading")
        },
        _ => panic!("expected an index error"),
    }
}

#[test]
fn dual_partition_read_returns_the_text() {
    let ops = TapeOperations::new("/dev/nst0", false);
    let mut m = ops.try_read_index_dual_partition();
    assert_eq!(m.pending_command(), TapeCommand::LocateToFileMark(3, 0));
    assert_eq!(cmd(&m.step(Ok(TapeReply::Done))), TapeCommand::ReadPosition);
    assert_eq!(cmd(&m.step(Ok(TapeReply::Position(pos(4))))), TapeCommand::ReadFileMark);
    assert_eq!(cmd(&m.step(Ok(TapeReply::Done))), TapeCommand::ReadToFileMark(65536));
    assert!(matches!(m.step(Ok(TapeReply::Text("x".to_string()))), Progress::Finished(Ok(_))));
}

#[test]
fn single_partition_read_falls_back_with_few_file_marks() {
    let ops = TapeOperations::new("/dev/nst0", false);
    let mut m = ops.try_read_index_single_partition();
    assert_eq!(m.pending_command(), TapeCommand::LocateToEod(0));
    m.step(&ops, Ok(TapeReply::Done));
    assert_eq!(cmd(&m.step(&ops, Ok(TapeReply::Position(pos(1))))), TapeCommand::SpaceFileMarks(-2));
    assert_eq!(cmd(&m.step(&ops, Ok(TapeReply::Done))), TapeCommand::ReadFileMark);
    assert_eq!(cmd(&m.step(&ops, Ok(TapeReply::Done))), TapeCommand::ReadToFileMarkRaw(524288));
    let data = b"<?xml?><ltfsindex xmlns=\"XMLSchema\"></ltfsindex>".to_vec();
    match m.step(&ops, Ok(TapeReply::Bytes(data))) {
        Progress::Finished(Ok(t)) => assert!(t.contains("XMLSchema")),
        _ => panic!("expected text"),
    }
    let mut m = ops.try_read_index_single_partition();
    m.step(&ops, Ok(TapeReply::Done));
    assert_eq!(cmd(&m.step(&ops, Ok(TapeReply::Position(pos(5))))), TapeCommand::LocateToFileMark(4, 0));
}

#[test]
fn data_partition_eod_read() {
    let ops = TapeOperations::new("/dev/nst0", false);
    let mut m = ops.read_index_from_data_partition_eod();
    assert_eq!(m.pending_command(), TapeCommand::LocateBlock(1, 0));
    assert_eq!(cmd(&m.step(Ok(TapeReply::Done))), TapeCommand::LocateToEod(1));
    assert_eq!(cmd(&m.step(Ok(TapeReply::Done))), TapeCommand::ReadPosition);
    assert_eq!(cmd(&m.step(Ok(TapeReply::Position(pos(9))))), TapeCommand::LocateToFileMark(8, 1));
    assert_eq!(cmd(&m.step(Ok(TapeReply::Done))), TapeCommand::SpaceFileMarks(1));
    assert_eq!(cmd(&m.step(Ok(TapeReply::Done))), TapeCommand::ReadPosition);
    assert_eq!(cmd(&m.step(Ok(TapeReply::Position(pos(9))))), TapeCommand::ReadToFileMark(65536));
    assert!(matches!(m.step(Ok(TapeReply::Text(INDEX.to_string()))), Progress::Finished(Ok(_))));
}

#[test]
fn label_block_size_parsing() {
    assert_eq!(blocksize_from_label_text("<label><blocksize>262144</blocksize></label>"), 262144);
    assert_eq!(blocksize_from_label_text("<blocksize>junk</blocksize>"), 524288);
    assert_eq!(blocksize_from_label_text("<blocksize>5"), 524288);
    assert_eq!(blocksize_from_label_text("nothing here"), 524288);
    assert_eq!(blocksize_from_label_text("<blocksize>99999999999</blocksize>"), 524288);
}

#[test]
fn partition_label_read() {
    let ops = TapeOperations::new("/dev/nst0", false);
    let mut m = ops.read_and_parse_partition_label(0);
    assert_eq!(m.pending_command(), TapeCommand::LocateToFileMark(1, 0));
    m.step(Ok(TapeReply::Done));
    m.step(Ok(TapeReply::Done));
    assert_eq!(m.pending_command(), TapeCommand::ReadToFileMark(1048576));
    match m.step(Ok(TapeReply::Text("<blocksize>65536</blocksize>".to_string()))) {
        rustltfs::index_read::LabelProgress::Finished(Ok(l)) => assert_eq!(l.blocksize, 65536),
        _ => panic!("expected a label"),
    }
}

fn tape_step(m: &mut rustltfs::index_read::IndexReadAttempt, ops: &mut TapeOperations, r: Result<TapeReply, RustLtfsError>) -> AttemptProgress {
    m.step(ops, AttemptReply::Tape(r))
}

#[test]
fn attempt_falls_back_to_partition_zero_end_and_fails_without_index() {
    let mut ops = TapeOperations::new("/dev/nst0", false);
    let (mut m, first) = ops.read_index_from_tape_attempt();
    assert_eq!(first, TapeCommand::LocateToFileMark(1, 0));
    // the label cannot be read: 512 KiB is assumed
    let p = tape_step(&mut m, &mut ops, Err(RustLtfsError::Scsi("x".to_string())));
    assert!(matches!(p, AttemptProgress::Command(TapeCommand::SetBlockSize(0))));
    assert_eq!(ops.partition_label.as_ref().unwrap().blocksize, 524288);
    // no extra partition: the single-partition route
    let p = tape_step(&mut m, &mut ops, Ok(TapeReply::Done));
    assert!(matches!(p, AttemptProgress::Command(TapeCommand::LocateToEod(0))));
    // it fails: the VOL1 check follows
    let p = tape_step(&mut m, &mut ops, Err(RustLtfsError::Scsi("y".to_string())));
    assert!(matches!(p, AttemptProgress::Command(TapeCommand::LocateBlock(0, 0))));
    assert!(matches!(m.phase, AttemptPhase::LocateLabelBlock));
    let p = tape_step(&mut m, &mut ops, Ok(TapeReply::Done));
    assert!(matches!(p, AttemptProgress::Command(TapeCommand::ReadBlocks(1, 65536))));
    // not a VOL1 label: the end of partition 0
    let p = tape_step(&mut m, &mut ops, Ok(TapeReply::Bytes(vec![0u8; 80])));
    assert!(matches!(p, AttemptProgress::Command(TapeCommand::LocateBlock(0, 0))));
    assert!(matches!(m.phase, AttemptPhase::LatestEod(_)));
    tape_step(&mut m, &mut ops, Ok(TapeReply::Done));
    tape_step(&mut m, &mut ops, Ok(TapeReply::Done));
    let p = tape_step(&mut m, &mut ops, Ok(TapeReply::Position(pos(0))));
    assert!(matches!(p, AttemptProgress::Finished(Err(RustLtfsError::LtfsIndex(_)))));
    assert!(ops.index.is_none());
}

#[test]
fn attempt_loads_the_index_that_parses() {
    let mut ops = TapeOperations::new("/dev/nst0", false);
    ops.extra_partition_count = Some(1);
    let (mut m, _) = ops.read_index_from_tape_attempt();
    tape_step(&mut m, &mut ops, Ok(TapeReply::Done));
    tape_step(&mut m, &mut ops, Ok(TapeReply::Done));
    let p = tape_step(&mut m, &mut ops, Ok(TapeReply::Text("<blocksize>262144</blocksize>".to_string())));
    assert!(matches!(p, AttemptProgress::Command(TapeCommand::SetBlockSize(0))));
    assert_eq!(ops.partition_label.as_ref().unwrap().blocksize, 262144);
    let p = tape_step(&mut m, &mut ops, Err(RustLtfsError::Scsi("mode".to_string())));
    assert!(matches!(p, AttemptProgress::Command(TapeCommand::LocateToFileMark(3, 0))));
    tape_step(&mut m, &mut ops, Ok(TapeReply::Done));
    tape_step(&mut m, &mut ops, Ok(TapeReply::Position(pos(4))));
    let p = tape_step(&mut m, &mut ops, Ok(TapeReply::Done));
    assert!(matches!(p, AttemptProgress::Command(TapeCommand::ReadToFileMark(262144))));
    let p = tape_step(&mut m, &mut ops, Ok(TapeReply::Text(INDEX.to_string())));
    assert!(matches!(p, AttemptProgress::Parse(_)));
    let idx = ops.create_new_ltfs_index();
    let p = m.step(&mut ops, AttemptReply::Parsed(Ok(idx)));
    assert!(matches!(p, AttemptProgress::Finished(Ok(()))));
    assert!(ops.index.is_some());
    assert!(ops.schema.is_some());
    assert!(matches!(m.phase, AttemptPhase::Finished));
}

#[test]
fn attempt_walks_the_data_partition_routes_then_partition_zero() {
    let mut ops = TapeOperations::new("/dev/nst0", false);
    ops.extra_partition_count = Some(1);
    let (mut m, _) = ops.read_index_from_tape_attempt();
    tape_step(&mut m, &mut ops, Err(RustLtfsError::Scsi("no label".to_string())));
    let p = tape_step(&mut m, &mut ops, Ok(TapeReply::Done));
    assert!(matches!(p, AttemptProgress::Command(TapeCommand::LocateToFileMark(3, 0))));
    // file mark 3 cannot be reached: the VOL1 check
    let p = tape_step(&mut m, &mut ops, Err(RustLtfsError::Scsi("fm".to_string())));
    assert!(matches!(p, AttemptProgress::Command(TapeCommand::LocateBlock(0, 0))));
    tape_step(&mut m, &mut ops, Ok(TapeReply::Done));
    let mut label = vec![0u8; 80];
    label[..4].copy_from_slice(b"VOL1");
    label[24..28].copy_from_slice(b"LTFS");
    let p = tape_step(&mut m, &mut ops, Ok(TapeReply::Bytes(label)));
    assert!(matches!(p, AttemptProgress::Command(TapeCommand::LocateBlock(1, 0))));
    assert!(matches!(m.phase, AttemptPhase::DataEod(_)));
    let p = tape_step(&mut m, &mut ops, Ok(TapeReply::Done));
    assert!(matches!(p, AttemptProgress::Command(TapeCommand::LocateToEod(1))));
    let p = tape_step(&mut m, &mut ops, Ok(TapeReply::Done));
    assert!(matches!(p, AttemptProgress::Command(TapeCommand::ReadPosition)));
    // one file mark only: the text at the file mark
    let p = tape_step(&mut m, &mut ops, Ok(TapeReply::Position(pos(1))));
    assert!(matches!(p, AttemptProgress::Command(TapeCommand::ReadToFileMark(524288))));
    assert!(matches!(m.phase, AttemptPhase::FileMark));
    // no index there: the end of partition 0
    let p = tape_step(&mut m, &mut ops, Ok(TapeReply::Text("not an index".to_string())));
    assert!(matches!(p, AttemptProgress::Command(TapeCommand::LocateBlock(0, 0))));
    assert!(matches!(m.phase, AttemptPhase::LatestEod(_)));
    tape_step(&mut m, &mut ops, Ok(TapeReply::Done));
    tape_step(&mut m, &mut ops, Ok(TapeReply::Done));
    let p = tape_step(&mut m, &mut ops, Ok(TapeReply::Position(pos(5))));
    assert!(matches!(p, AttemptProgress::Command(TapeCommand::LocateToFileMark(3, 0))));
    tape_step(&mut m, &mut ops, Ok(TapeReply::Done));
    let p = tape_step(&mut m, &mut ops, Ok(TapeReply::Done));
    assert!(matches!(p, AttemptProgress::Command(TapeCommand::ReadToFileMark(524288))));
    match tape_step(&mut m, &mut ops, Ok(TapeReply::Text(INDEX.to_string()))) {
        AttemptProgress::Parse(x) => assert_eq!(x, INDEX),
        _ => panic!("expected a parse"),
    }
    // the text does not parse: the attempt fails
    match m.step(&mut ops, AttemptReply::Parsed(Err(RustLtfsError::Parse("bad".to_string())))) {
        AttemptProgress::Finished(Err(RustLtfsError::LtfsIndex(msg))) => assert_eq!(msg, "Index validation failed"),
        _ => panic!("expected the validation error"),
    }
    assert!(ops.index.is_none());
    assert!(ops.schema.is_none());
}

#[test]
fn validation_needs_tags_and_a_parse() {
    let mut ops = TapeOperations::new("/dev/nst0", false);
    let idx = ops.create_new_ltfs_index();
    assert_eq!(ops.validate_and_process_index("<x/>", Ok(idx)), Ok(false));
    assert!(ops.index.is_none());
    assert_eq!(ops.validate_and_process_index(INDEX, Err(RustLtfsError::Parse("bad".to_string()))), Ok(false));
    let idx = ops.create_new_ltfs_index();
    assert_eq!(ops.validate_and_process_index(INDEX, Ok(idx)), Ok(true));
    assert!(ops.index.is_some());
    assert_eq!(ops.schema.as_ref().unwrap().volumeuuid, ops.index.as_ref().unwrap().volumeuuid);
}

#[test]
fn retries_three_times() {
    let ops = TapeOperations::new("/dev/nst0", false);
    let mut r = ops.read_index_from_tape();
    assert_eq!(r.attempt, 1);
    assert_eq!(r.attempt_finished(Err(RustLtfsError::Scsi("a".to_string()))), RetryStep::Retry(2));
    assert_eq!(r.attempt_finished(Err(RustLtfsError::Scsi("b".to_string()))), RetryStep::Retry(3));
    assert_eq!(
        r.attempt_finished(Err(RustLtfsError::Scsi("c".to_string()))),
        RetryStep::GiveUp(RustLtfsError::Scsi("c".to_string()))
    );
    let mut r = ops.read_index_from_tape();
    assert_eq!(r.attempt_finished(Ok(())), RetryStep::Loaded);
}

#[test]
fn file_mark_scripts_and_advanced_read() {
    let ops = TapeOperations::new("/dev/nst0", false);
    let mut m = ops.ltfscopygui_standard_filemark_strategy(1);
    assert_eq!(m.pending_command(), TapeCommand::LocateToFileMark(1, 1));
    assert_eq!(cmd(&m.step(&ops, Ok(TapeReply::Done))), TapeCommand::ReadFileMark);
    assert_eq!(cmd(&m.step(&ops, Ok(TapeReply::Done))), TapeCommand::ReadToFileMarkRaw(524288));
    let m2 = ops.ltfscopygui_disable_partition_fallback();
    assert_eq!(m2.pending_command(), TapeCommand::SpaceFileMarks(-2));
    assert_eq!(m2.stage, ReadStage::First);
    assert_eq!(
        ops.try_read_index_at_current_position_advanced_sync(Ok("\0 <ltfsindex/> \0".to_string())),
        Ok("<ltfsindex/>".to_string())
    );
    assert!(matches!(
        ops.try_read_index_at_current_position_advanced_sync(Ok("\0\0  ".to_string())),
        Err(RustLtfsError::LtfsIndex(_))
    ));
    assert_eq!(ops.try_read_index_at_current_position_advanced(), TapeCommand::ReadToFileMark(65536));
    assert_eq!(ops.read_index_xml_from_tape_with_file_mark(), TapeCommand::ReadToFileMark(65536));
}
