use rustltfs::error::RustLtfsError;
use rustltfs::format::MkltfsParams;
use rustltfs::format_flow::{MamAttributeFormat, MkltfsCommand, MkltfsProgress, MkltfsReply, PartitionPlan};
use rustltfs::ops::{LtfsPartitionLabel, TapeOperations};
use rustltfs::partition::MediaType;
use rustltfs::status::LtfsFormatStatus;

fn cmd(p: MkltfsProgress) -> MkltfsCommand {
    match p {
        MkltfsProgress::Command(c) => c,
        MkltfsProgress::Finished(r) => panic!("finished early: {:?}", r),
    }
}

fn spaces(text: &[u8], n: usize) -> Vec<u8> {
    let mut v = text.to_vec();
    v.resize(n, b' ');
    v
}

#[test]
fn mkltfs_runs_the_full_sequence() {
    let ops = TapeOperations::new("/dev/nst0", false);
    let mut params = MkltfsParams::default();
    params.volume_label = "VOL007".to_string();
    params.barcode = "ABC123".to_string();
    let (mut run, first) = ops.mkltfs(params, "0.1.0");
    assert_eq!(cmd(first), MkltfsCommand::LoadTape);
    assert_eq!(cmd(run.step(&ops, Ok(MkltfsReply::Loaded(true)))), MkltfsCommand::ModeSensePartitionInfo);
    let mode = vec![0, 0, 3, 0];
    assert_eq!(cmd(run.step(&ops, Ok(MkltfsReply::ModeData(mode.clone())))), MkltfsCommand::SetCapacity(0xFFFF));
    assert_eq!(cmd(run.step(&ops, Ok(MkltfsReply::Done))), MkltfsCommand::CheckMediaStatus);
    assert_eq!(cmd(run.step(&ops, Ok(MkltfsReply::Media(MediaType::Lto8Rw)))), MkltfsCommand::FormatTape);
    assert_eq!(
        cmd(run.step(&ops, Ok(MkltfsReply::Done))),
        MkltfsCommand::ModeSelectPartition(3, 1, mode, 1, 0xFFFF)
    );
    assert_eq!(cmd(run.step(&ops, Ok(MkltfsReply::Done))), MkltfsCommand::PartitionTape(1));
    let expected = vec![
        (0x800, spaces(b"OPEN", 8), MamAttributeFormat::Text),
        (0x801, spaces(b"RustLTFS", 32), MamAttributeFormat::Text),
        (0x802, spaces(b"0.1.0", 8), MamAttributeFormat::Text),
        (0x803, spaces(b"", 160), MamAttributeFormat::Text),
        (0x805, vec![0u8], MamAttributeFormat::Binary),
        (0x80B, spaces(b"2.4.0", 16), MamAttributeFormat::Text),
    ];
    for (id, value, format) in expected {
        assert_eq!(cmd(run.step(&ops, Ok(MkltfsReply::Done))), MkltfsCommand::SetMamAttribute(id, value, format));
    }
    assert_eq!(cmd(run.step(&ops, Ok(MkltfsReply::Done))), MkltfsCommand::SetBarcode("ABC123".to_string()));
    assert_eq!(cmd(run.step(&ops, Ok(MkltfsReply::Done))), MkltfsCommand::LocateBlock(0, 0));
    match cmd(run.step(&ops, Ok(MkltfsReply::Done))) {
        MkltfsCommand::WriteBlocks(n, b) => {
            assert_eq!(n, 1);
            assert_eq!(b.len(), 524288);
            assert_eq!(&b[0..10], b"VOL1VOL007");
            assert_eq!(&b[24..28], b"LTFS");
            assert!(b[80..].iter().all(|&x| x == 0));
        },
        c => panic!("unexpected command {:?}", c),
    }
    assert!(matches!(run.step(&ops, Ok(MkltfsReply::Done)), MkltfsProgress::Finished(Ok(true))));
}

#[test]
fn mkltfs_single_partition_on_lto9_skips_format_and_partitioning() {
    let ops = TapeOperations::new("/dev/nst0", false);
    let mut params = MkltfsParams::default();
    params.extra_partition_count = 0;
    let (mut run, _) = ops.mkltfs(params, "1.2");
    run.step(&ops, Ok(MkltfsReply::Loaded(true)));
    run.step(&ops, Ok(MkltfsReply::ModeData(vec![])));
    run.step(&ops, Ok(MkltfsReply::Done));
    assert_eq!(
        cmd(run.step(&ops, Ok(MkltfsReply::Media(MediaType::Lto9Rw)))),
        MkltfsCommand::SetMamAttribute(0x800, spaces(b"OPEN", 8), MamAttributeFormat::Text)
    );
    for _ in 0..4 {
        run.step(&ops, Ok(MkltfsReply::Done));
    }
    assert_eq!(
        cmd(run.step(&ops, Ok(MkltfsReply::Done))),
        MkltfsCommand::SetMamAttribute(0x80B, spaces(b"2.4.1", 16), MamAttributeFormat::Text)
    );
    assert_eq!(cmd(run.step(&ops, Ok(MkltfsReply::Done))), MkltfsCommand::LocateBlock(0, 0));
}

#[test]
fn mkltfs_refusals_and_failures() {
    let ops = TapeOperations::new("/dev/nst0", false);
    let mut bad = MkltfsParams::default();
    bad.block_length = 100;
    assert!(matches!(ops.mkltfs(bad, "1").1, MkltfsProgress::Finished(Err(RustLtfsError::ParameterValidation(_)))));
    let offline = TapeOperations::new("/dev/nst0", true);
    assert!(matches!(offline.mkltfs(MkltfsParams::default(), "1").1, MkltfsProgress::Finished(Ok(false))));
    let (mut run, _) = ops.mkltfs(MkltfsParams::default(), "1");
    match run.step(&ops, Ok(MkltfsReply::Loaded(false))) {
        MkltfsProgress::Finished(Err(e)) => assert_eq!(e, RustLtfsError::Scsi("Failed to load tape".to_string())),
        _ => panic!("expected a load failure"),
    }
    let (mut run, _) = ops.mkltfs(MkltfsParams::default(), "1");
    run.step(&ops, Ok(MkltfsReply::Loaded(true)));
    run.step(&ops, Ok(MkltfsReply::ModeData(vec![0, 0, 1])));
    run.step(&ops, Ok(MkltfsReply::Done));
    assert_eq!(cmd(run.step(&ops, Err(RustLtfsError::Scsi("no media info".to_string())))), MkltfsCommand::FormatTape);
    let e = RustLtfsError::Scsi("format failed".to_string());
    assert!(matches!(run.step(&ops, Err(e.clone())), MkltfsProgress::Finished(Err(f)) if f == e));
}

#[test]
fn format_tape_checks_the_medium_and_existing_format() {
    let ops = TapeOperations::new("/dev/nst0", false);
    assert_eq!(
        ops.format_tape(false, Ok(MediaType::NoTape), Ok(LtfsFormatStatus::BlankTape), "1").err(),
        Some(RustLtfsError::TapeDevice("No tape loaded".to_string()))
    );
    assert_eq!(
        ops.format_tape(false, Ok(MediaType::Lto8Rw), Ok(LtfsFormatStatus::LtfsFormatted(100)), "1").err(),
        Some(RustLtfsError::ParameterValidation(
            "Tape already contains LTFS format. Use --force to overwrite".to_string()
        ))
    );
    let (run, first) = ops
        .format_tape(true, Ok(MediaType::Lto8Rw), Ok(LtfsFormatStatus::LtfsFormatted(100)), "1")
        .unwrap()
        .unwrap();
    assert_eq!(cmd(first), MkltfsCommand::LoadTape);
    assert!(run.params.volume_label.starts_with("RUSTLTFS_"));
    assert_eq!(run.params.volume_label.len(), 17);
    assert!(ops.format_tape(false, Ok(MediaType::Lto8Rw), Err(RustLtfsError::Scsi("x".to_string())), "1").is_ok());
    let offline = TapeOperations::new("/dev/nst0", true);
    assert!(offline.format_tape(false, Ok(MediaType::NoTape), Ok(LtfsFormatStatus::BlankTape), "1").unwrap().is_none());
}

#[test]
fn create_ltfs_format_builds_the_parameters() {
    let ops = TapeOperations::new("/dev/nst0", false);
    let (run, first) = ops.create_ltfs_format(
        Some("LBL".to_string()),
        Some("BARCODE-WITH-MORE-THAN-TWENTY".to_string()),
        Some(5),
        None,
        Some(262144),
        "1",
    );
    assert_eq!(cmd(first), MkltfsCommand::LoadTape);
    assert_eq!(run.params.volume_label, "LBL");
    assert_eq!(run.params.barcode, "BARCODE-WITH-MORE-TH");
    assert_eq!((run.params.p0_size, run.params.p1_size), (5, 0xFFFF));
    assert_eq!(run.params.block_length, 262144);
    let (run, _) = ops.create_ltfs_format(None, None, Some(5), Some(7), None, "1");
    assert_eq!((run.params.p0_size, run.params.p1_size), (0xFFFF, 7));
    let (_, first) = ops.initialize_tape_format(MkltfsParams::default(), "1");
    assert_eq!(cmd(first), MkltfsCommand::LoadTape);
}

#[test]
fn partitioning_plan() {
    let ops = TapeOperations::new("/dev/nst0", false);
    assert_eq!(
        ops.create_partitions(5, 0xFFFF, Ok(vec![0, 0, 1, 0])),
        Ok(Some(PartitionPlan {
            max_extra_partitions: 1,
            extra_partitions: 1,
            mode_data: vec![0, 0, 1, 0],
            p0_size: 5,
            p1_size: 0xFFFF,
            partition_type: 1,
        }))
    );
    assert!(matches!(ops.create_partitions(0xFFFF, 0xFFFF, Ok(vec![0, 0, 1])), Err(RustLtfsError::ParameterValidation(_))));
    assert_eq!(
        ops.create_partitions(5, 0xFFFF, Ok(vec![0, 0])),
        Err(RustLtfsError::Unsupported("Drive does not support partitioning".to_string()))
    );
    let offline = TapeOperations::new("/dev/nst0", true);
    assert_eq!(offline.create_partitions(0xFFFF, 0xFFFF, Ok(vec![])), Ok(None));
    assert!(!ops.should_skip_format_for_lto9_plus(Err(RustLtfsError::Scsi("x".to_string()))));
    assert!(ops.should_skip_format_for_lto9_plus(Ok(MediaType::Lto9Worm)));
}

#[test]
fn labels_and_parameters_change_the_session() {
    let mut ops = TapeOperations::new("/dev/nst0", false);
    let mut label = LtfsPartitionLabel::default();
    label.blocksize = 262144;
    let err = RustLtfsError::Scsi("locate failed".to_string());
    assert_eq!(ops.setup_partition_labels(LtfsPartitionLabel::default(), Err(err.clone())), Err(err));
    assert!(ops.partition_label.is_none());
    assert_eq!(ops.setup_partition_labels(label, Ok(())), Ok(()));
    assert_eq!(ops.block_size, 262144);
    let block = ops.write_volume_labels().unwrap();
    assert_eq!(block.len(), 262144);
    assert_eq!(&block[0..4], b"VOL1");
    assert_eq!(&block[24..28], b"LTFS");
    ops.volume_labels_written(Some("uuid-9".to_string()));
    assert_eq!(ops.partition_label.as_ref().unwrap().volume_uuid, "uuid-9");
    ops.volume_labels_written(None);
    assert_eq!(ops.partition_label.as_ref().unwrap().volume_uuid.len(), 36);
    let mut params = MkltfsParams::default();
    params.block_length = 131072;
    assert_eq!(ops.configure_ltfs_parameters(params), Ok(()));
    assert_eq!(ops.block_size, 131072);
    assert_eq!(ops.partition_label.as_ref().unwrap().blocksize, 131072);
    let mut bad = MkltfsParams::default();
    bad.extra_partition_count = 2;
    assert!(ops.configure_ltfs_parameters(bad).is_err());
    assert_eq!(ops.block_size, 131072);
}

#[test]
fn format_checks() {
    let ops = TapeOperations::new("/dev/nst0", false);
    assert_eq!(ops.verify_format(Ok(LtfsFormatStatus::LtfsFormatted(10)), true), Ok(true));
    assert_eq!(ops.verify_format(Ok(LtfsFormatStatus::LtfsFormatted(10)), false), Ok(false));
    assert_eq!(ops.verify_format(Ok(LtfsFormatStatus::BlankTape), true), Ok(false));
    let e = RustLtfsError::Scsi("x".to_string());
    assert_eq!(ops.check_format_integrity(Err(e.clone()), true), Err(e));
    assert_eq!(ops.validate_ltfs_structure(Ok(LtfsFormatStatus::LtfsFormatted(10)), true, false), Ok(false));
    assert_eq!(ops.validate_ltfs_structure(Ok(LtfsFormatStatus::LtfsFormatted(10)), true, true), Ok(true));
    let offline = TapeOperations::new("/dev/nst0", true);
    assert_eq!(offline.verify_format(Ok(LtfsFormatStatus::BlankTape), false), Ok(true));
}
