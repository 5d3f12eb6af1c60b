use rustltfs::capacity::TapeCapacityInfo;
use rustltfs::diagnostic::{
    BacktrackOutcome, Block38Diagnostic, DataPartitionError, DataPartitionIndexReader, DiagnosticReport,
    FileMarkBacktrack, TroubleshootingTopic,
};
use rustltfs::error::RustLtfsError;
use rustltfs::index::{ExtentInfo, File, FileExtent};
use rustltfs::listing::{LtfsAccess, PathContent};
use rustltfs::ops::{TapeOperations, TapePosition};
use rustltfs::partition::PartitionStrategy;
use rustltfs::viewer::{ExportFormat, IndexViewer, TapeFileLocation};

fn pos(partition: u8, block_number: u64) -> TapePosition {
    TapePosition { partition, block_number, file_number: 0, set_number: 0 }
}

fn online() -> TapeOperations {
    TapeOperations::new("/dev/nst0", false)
}

fn capacity(p0_remaining: u64, p0_maximum: u64, p1_remaining: u64, p1_maximum: u64) -> TapeCapacityInfo {
    TapeCapacityInfo { p0_remaining, p0_maximum, p1_remaining, p1_maximum }
}

fn extent(partition: &str, start_block: u64, byte_count: u64) -> FileExtent {
    FileExtent { partition: partition.to_string(), start_block, byte_count, file_offset: 0, byte_offset: 0 }
}

fn file(name: &str, length: u64) -> File {
    File {
        name: name.to_string(),
        uid: 0,
        length,
        creation_time: "c".to_string(),
        change_time: "c".to_string(),
        modify_time: "m".to_string(),
        access_time: "a".to_string(),
        backup_time: "b".to_string(),
        read_only: false,
        openforwrite: false,
        symlink: None,
        extent_info: ExtentInfo { extents: vec![extent("b", 10, length)] },
        extended_attributes: None,
    }
}

#[test]
fn capacity_is_read_from_the_log_page() {
    let mut page = vec![0x31, 0, 0, 20];
    page.extend_from_slice(&[0, 1, 0, 4, 0, 0, 0x10, 0]);
    page.extend_from_slice(&[0, 3, 0, 8, 0, 0, 0, 0, 0, 0, 1, 0]);
    let o = online();
    let c = o.refresh_capacity(Some(page)).unwrap();
    assert_eq!((c.p0_remaining, c.p0_maximum, c.p1_remaining, c.p1_maximum), (4096, 256, 0, 0));
    let c = o.refresh_capacity(None).unwrap();
    assert_eq!((c.p0_remaining, c.p0_maximum, c.p1_remaining, c.p1_maximum), (0, 0, 0, 0));
}

#[test]
fn space_is_computed_from_kilobytes() {
    let mut o = online();
    let s = o.get_tape_capacity_info(&capacity(100, 300, 0, 0)).unwrap();
    assert_eq!((s.total_capacity, s.used_space, s.available_space), (307200, 204800, 102400));
    o.extra_partition_count = Some(1);
    let s = o.get_tape_capacity_info(&capacity(100, 300, 50, 0)).unwrap();
    assert_eq!((s.total_capacity, s.used_space, s.available_space), (153600, 0, 153600));
    let s = o.get_tape_capacity_info(&capacity(100, 300, 50, 80)).unwrap();
    assert_eq!((s.total_capacity, s.used_space, s.available_space), (153600, 235520, 0));
}

#[test]
fn cleaning_status_from_the_log_page() {
    let o = online();
    let c = o.parse_cleaning_log_data(&[0, 0, 0, 0, 1, 0, 7, 0]).unwrap();
    assert_eq!((c.cleaning_required, c.cycles_used, c.cycles_remaining), (true, 7, 43));
    let c = o.parse_cleaning_log_data(&[0, 0, 0, 0, 2, 0, 60, 0]).unwrap();
    assert_eq!((c.cleaning_required, c.cycles_used, c.cycles_remaining), (false, 60, 0));
    let c = o.parse_cleaning_log_data(&[1, 2, 3]).unwrap();
    assert_eq!((c.cleaning_required, c.cycles_used, c.cycles_remaining), (false, 0, 50));
    let offline = TapeOperations::new("/dev/nst0", true);
    let c = offline.get_cleaning_status(Some(&[0, 0, 0, 0, 1, 0, 7, 0])).unwrap();
    assert_eq!((c.cleaning_required, c.cycles_used, c.cycles_remaining), (false, 0, 50));
    let c = o.get_cleaning_status(None).unwrap();
    assert_eq!(c.cycles_remaining, 50);
}

#[test]
fn encryption_and_eject() {
    let mut o = online();
    let e = o.get_encryption_status().unwrap();
    assert!(!e.encryption_enabled);
    assert_eq!(e.encryption_algorithm.as_deref(), Some("AES-256"));
    assert_eq!(e.key_management.as_deref(), Some("Application Managed"));
    assert!(o.clear_encryption_key().is_ok());
    o.index = Some(o.create_new_ltfs_index());
    assert_eq!(o.eject_tape(Ok(false)), Ok(()));
    assert!(o.index.is_some());
    let err = RustLtfsError::Scsi("eject failed".to_string());
    assert_eq!(o.eject_tape(Err(err.clone())), Err(err));
    assert!(o.index.is_some());
    assert_eq!(o.eject_tape(Ok(true)), Ok(()));
    assert!(o.index.is_none());
}

#[test]
fn space_check_and_partition_detection() {
    let mut o = online();
    assert_eq!(o.check_available_space(1 << 40), Ok(()));
    assert_eq!(
        o.check_available_space(9 << 40),
        Err(RustLtfsError::TapeDevice("File too large for tape capacity".to_string()))
    );
    assert_eq!(o.detect_partition_count(Some(&[0, 0, 0, 3]), false), Ok(2));
    assert_eq!(o.detect_partition_count(Some(&[0, 0, 0, 0]), true), Ok(1));
    assert_eq!(o.detect_partition_count(Some(&[1]), true), Ok(1));
    assert_eq!(o.detect_partition_count(None, true), Ok(2));
    assert_eq!(o.detect_partition_count(None, false), Ok(1));
    assert_eq!(o.detect_partition_strategy(), Ok(PartitionStrategy::SinglePartitionFallback));
    o.initialize_partition_detection(Some(&[0, 0, 0, 3])).unwrap();
    assert_eq!(o.extra_partition_count, Some(1));
    assert!(o.modified);
    assert_eq!(o.detect_partition_strategy(), Ok(PartitionStrategy::StandardMultiPartition));
    o.initialize_partition_detection(None).unwrap();
    assert_eq!(o.extra_partition_count, Some(0));
    assert!(!o.modified);
}

#[test]
fn barcode_commands_and_reply() {
    let o = online();
    assert_eq!(o.barcode_header_cdb(), vec![0x8C, 0, 0, 0, 0, 0, 0, 0, 0x04, 0x08, 0, 0, 0, 9, 0, 0]);
    assert_eq!(o.barcode_data_cdb(0x0123), vec![0x8C, 0, 0, 0, 0, 0, 0, 0, 0x04, 0x08, 1, 0x23, 0, 0, 0, 0]);
    assert_eq!(o.barcode_data_request(&[0, 0, 0, 0, 0, 0, 0, 0, 6]), Some(vec![0x8C, 0, 0, 0, 0, 0, 0, 0, 0x04, 0x08, 0, 15, 0, 0, 0, 0]));
    assert_eq!(o.barcode_data_request(&[0, 0, 0, 0, 0, 0, 0, 0, 0]), None);
    assert_eq!(o.barcode_data_request(&[0, 0, 0]), None);
    let header = vec![0, 0, 0, 0, 0, 0, 0, 0, 10];
    let mut data = vec![0u8; 9];
    data.extend_from_slice(b"ABC123L8\0\0");
    assert_eq!(o.read_barcode(Ok(header.clone()), Ok(data)), Ok("ABC123L8".to_string()));
    assert_eq!(
        o.read_barcode(Ok(vec![0; 5]), Ok(vec![0; 9])),
        Err(RustLtfsError::TapeDevice("Incomplete MAM header".to_string()))
    );
    assert_eq!(
        o.read_barcode(Ok(vec![0; 9]), Ok(vec![0; 9])),
        Err(RustLtfsError::TapeDevice("MAM volume serial number not available".to_string()))
    );
    assert_eq!(
        o.read_barcode(Err(RustLtfsError::Scsi("x".to_string())), Ok(vec![0; 9])),
        Err(RustLtfsError::Scsi("Failed to get MAM data length: SCSI error: x".to_string()))
    );
    assert_eq!(
        o.read_barcode(Ok(header), Err(RustLtfsError::Scsi("y".to_string()))),
        Err(RustLtfsError::Scsi("Failed to read MAM data: SCSI error: y".to_string()))
    );
    let offline = TapeOperations::new("/dev/nst0", true);
    assert_eq!(offline.read_barcode(Ok(vec![]), Ok(vec![0; 9])), Ok("OFFLINE_MODE_BARCODE".to_string()));
    let m = o.get_tape_medium_info(Err(RustLtfsError::Scsi("x".to_string()))).unwrap();
    assert_eq!((m.barcode.as_str(), m.medium_type.as_str(), m.medium_serial.as_str()), ("UNKNOWN", "LTO", "UNKNOWN"));
    let m = o.get_tape_medium_info(Ok("XYZ".to_string())).unwrap();
    assert_eq!(m.medium_serial, "XYZ");
}

#[test]
fn data_partition_error_messages() {
    assert_eq!(
        DataPartitionError::Block38PositioningFailed { current_block: 39 }.message(),
        "P1 Block38定位失败: 当前位置 Block39, 期望位置 Block38"
    );
    assert_eq!(
        DataPartitionError::PositionVerificationFailed {
            expected_partition: 1,
            expected_block: 38,
            actual_partition: 0,
            actual_block: 5
        }
        .message(),
        "位置验证失败: 期望P1 B38, 实际P0 B5"
    );
    assert_eq!(
        DataPartitionError::BacktrackLogicError { details: "d".to_string() }.into_ltfs_error(),
        RustLtfsError::LtfsIndex("ReadFileMark回退逻辑错误: d".to_string())
    );
}

#[test]
fn block38_diagnosis_reports_findings_and_advice() {
    let r = DataPartitionIndexReader::new();
    assert_eq!(r.verify_block38_positioning(pos(1, 38)), Ok(true));
    assert_eq!(r.verify_block38_positioning(pos(0, 38)), Ok(false));
    let rep = r.diagnose_block38_issue(pos(0, 0), Ok(pos(1, 37)), Ok((true, pos(1, 39)))).unwrap();
    assert!(!rep.block38_reached);
    assert_eq!(rep.actual_block, 39);
    assert_eq!(rep.errors, vec!["ReadFileMark回退逻辑可能未正确执行".to_string()]);
    assert_eq!(rep.recommendations.len(), 2);
    assert!(rep.filemark_detected);
    let rep = r
        .diagnose_block38_issue(pos(0, 0), Err(RustLtfsError::Scsi("x".to_string())), Ok((true, pos(1, 38))))
        .unwrap();
    assert_eq!(rep.errors, vec!["FileMark 5定位失败: SCSI error: x".to_string()]);
    assert_eq!(rep.recommendations.len(), 3);
    assert_eq!(rep.recommendations[0], "意外的块位置0，需要检查整个定位流程");
    let rep = r.diagnose_block38_issue(pos(0, 0), Ok(pos(1, 37)), Ok((false, pos(1, 38)))).unwrap();
    assert!(rep.block38_reached);
    assert!(rep.errors.is_empty() && rep.recommendations.is_empty());
    let mut fresh = DiagnosticReport::new();
    fresh.generate_recommendations();
    assert_eq!(fresh.recommendations.len(), 3);
    let c = r.compare_with_ltfscopygui_positioning(pos(0, 0), pos(1, 37), true, pos(1, 38)).unwrap();
    assert!(c.positioning_correct);
    assert_eq!((c.expected_final_block, c.actual_final_block), (38, 38));
}

#[test]
fn read_file_mark_backtracking() {
    let r = DataPartitionIndexReader::new();
    assert_eq!(r.read_file_mark_enhanced(true, pos(1, 39)), FileMarkBacktrack::StepBack(1, 38));
    assert_eq!(r.read_file_mark_enhanced(false, pos(1, 39)), FileMarkBacktrack::AtFileMark);
    assert_eq!(r.read_file_mark_enhanced(true, pos(1, 0)), FileMarkBacktrack::AtBlockZero);
    assert_eq!(r.check_backtrack(38, pos(1, 38), None), Ok(false));
    assert_eq!(r.check_backtrack(38, pos(1, 39), Some(pos(1, 38))), Ok(false));
    assert_eq!(
        r.check_backtrack(38, pos(1, 39), Some(pos(1, 40))),
        Err(RustLtfsError::LtfsIndex("ReadFileMark回退逻辑错误: 强制校正也失败: 期望B38, 实际B40".to_string()))
    );
    assert!(matches!(r.check_backtrack(38, pos(1, 39), None), Err(RustLtfsError::LtfsIndex(_))));
    assert_eq!(
        r.read_data_partition_index_fixed(true, pos(1, 39), None, Ok(Vec::new())),
        Err(RustLtfsError::LtfsIndex("P1 Block38定位失败: 当前位置 Block39, 期望位置 Block38".to_string()))
    );
    let good = b"<?xml version=\"1.0\"?><ltfsindex version=\"2.4.0\"><volumeuuid>u</volumeuuid><generationnumber>2</generationnumber><updatetime>t</updatetime><directory><name>r</name></directory></ltfsindex>".to_vec();
    assert_eq!(r.read_data_partition_index_fixed(false, pos(1, 38), None, Ok(good.clone())), Ok(good.clone()));
    assert_eq!(
        r.read_data_partition_index_fixed(false, pos(1, 37), Some(pos(1, 38)), Ok(good.clone())),
        Ok(good.clone())
    );
    assert!(r.read_data_partition_index_fixed(false, pos(1, 37), None, Ok(good.clone())).is_err());
    assert!(r.read_data_partition_index_fixed(false, pos(1, 38), None, Ok(vec![0u8; 8])).is_err());
    let e = RustLtfsError::Scsi("read".to_string());
    assert_eq!(r.read_data_partition_index_fixed(false, pos(1, 38), None, Err(e.clone())), Err(e));
    let d = Block38Diagnostic::new("/dev/nst0".to_string());
    assert_eq!(d.backtrack_outcome(pos(1, 38)), BacktrackOutcome::ReachedBlock38);
    assert_eq!(d.backtrack_outcome(pos(1, 39)), BacktrackOutcome::StuckAtBlock39);
    assert_eq!(d.backtrack_outcome(pos(1, 7)), BacktrackOutcome::Unexpected(7));
    let e = RustLtfsError::LtfsIndex("Block38PositioningFailed at 39".to_string());
    assert_eq!(d.troubleshooting_topic(&e), TroubleshootingTopic::Block38Positioning);
    let e = RustLtfsError::Scsi("other".to_string());
    assert_eq!(d.troubleshooting_topic(&e), TroubleshootingTopic::General);
}

#[test]
fn data_partition_index_validation() {
    let r = DataPartitionIndexReader::new();
    let good = "<ltfsindex><volumeuuid>u</volumeuuid><generationnumber>1</generationnumber>\
<updatetime>t</updatetime><directory></directory></ltfsindex>";
    assert_eq!(r.validate_index_data(good.as_bytes()), Ok(()));
    assert_eq!(
        r.validate_index_data(b""),
        Err(RustLtfsError::LtfsIndex("数据分区索引为空或无效: 验证器错误: LTFS index error: 索引数据为空".to_string()))
    );
}

#[test]
fn file_list_export_formats() {
    let ls = vec![TapeFileLocation {
        file_name: "a.txt".to_string(),
        file_uid: 5,
        file_size: 10,
        extents: vec![extent("b", 100, 10)],
    }];
    assert_eq!(
        IndexViewer::export_file_list(&ls, ExportFormat::Tsv).unwrap(),
        "Partition\tStartblock\tLength\tPath\nb\t100\t10\ta.txt\n"
    );
    assert_eq!(IndexViewer::export_file_list(&ls, ExportFormat::Json).unwrap(), "{\"files\": 1}");
    assert_eq!(
        IndexViewer::export_file_list(&ls, ExportFormat::Xml).unwrap(),
        "<?xml version=\"1.0\" encoding=\"UTF-8\"?>\n<files>\n  <file name=\"a.txt\" uid=\"5\" size=\"10\"/>\n</files>\n"
    );
    assert_eq!(
        IndexViewer::export_file_list(&ls, ExportFormat::Batch).unwrap(),
        "chcp 65001\necho Writing: a.txt\nrem File UID: 5, Size: 10 bytes\n"
    );
    assert_eq!(IndexViewer::export_file_list(&[], ExportFormat::Json).unwrap(), "{\"files\": 0}");
}

#[test]
fn listing_a_path_of_the_loaded_index() {
    let mut o = TapeOperations::new("TAPE0", true);
    assert!(matches!(o.list_path_content("/"), Ok(None)));
    let mut index = o.create_new_ltfs_index();
    o.add_file_to_target_directory(&mut index, file("a.txt", 10), "/docs").unwrap();
    o.index = Some(index);
    match o.list_path_content("/") {
        Ok(Some(PathContent::Directory(es))) => {
            assert_eq!(es.len(), 1);
            assert_eq!(es[0].name, "docs");
            assert!(es[0].is_directory);
            assert_eq!(es[0].file_count, Some(1));
            assert_eq!(es[0].file_uid, Some(2));
        },
        _ => panic!("expected the root listing"),
    }
    match o.list_path_content("/docs/") {
        Ok(Some(PathContent::Directory(es))) => {
            assert_eq!(es.len(), 1);
            assert!(!es[0].is_directory);
            assert_eq!(es[0].size, Some(10));
            assert_eq!(es[0].modified_time.as_deref(), Some("m"));
        },
        _ => panic!("expected the docs listing"),
    }
    match o.list_path_content("/docs/a.txt") {
        Ok(Some(PathContent::File(info))) => {
            assert_eq!((info.name.as_str(), info.size, info.file_uid), ("a.txt", 10, 3));
            assert_eq!(info.access_time.as_deref(), Some("a"));
        },
        _ => panic!("expected the file"),
    }
    assert!(matches!(o.list_path_content("/docs/missing"), Ok(None)));
    assert_eq!(LtfsAccess::new("/dev/nst1").unwrap().device_path, "/dev/nst1");
}

#[test]
fn backtrack_comparison_and_quick_diagnosis() {
    let d = rustltfs::diagnostic::Block38Diagnostic::new("/dev/nst0".to_string());
    assert_eq!(d.compare_backtrack(pos(1, 39), pos(1, 38)), rustltfs::diagnostic::BacktrackComparison::FixResolvedIt);
    assert_eq!(d.compare_backtrack(pos(1, 40), pos(1, 38)), rustltfs::diagnostic::BacktrackComparison::Differ);
    assert_eq!(d.compare_backtrack(pos(1, 38), pos(1, 38)), rustltfs::diagnostic::BacktrackComparison::BothCorrect);
    assert_eq!(d.compare_backtrack(pos(1, 39), pos(1, 39)), rustltfs::diagnostic::BacktrackComparison::BothWrong);
    assert_eq!(d.run_quick_diagnostic(pos(1, 38), None), Some(rustltfs::diagnostic::QuickDiagnosis::Correct));
    assert_eq!(d.run_quick_diagnostic(pos(1, 39), Some(pos(1, 38))), Some(rustltfs::diagnostic::QuickDiagnosis::Repaired));
    assert_eq!(d.run_quick_diagnostic(pos(1, 39), Some(pos(1, 39))), Some(rustltfs::diagnostic::QuickDiagnosis::RepairFailed));
    assert_eq!(d.run_quick_diagnostic(pos(0, 39), None), None);
}

#[test]
fn capacity_from_the_log_page() {
    let o = TapeOperations::new("/dev/nst0", false);
    let mut page = vec![0u8; 16];
    page[8..12].copy_from_slice(&[0, 0, 0x10, 0]);
    page[12..16].copy_from_slice(&[0, 0, 0x01, 0]);
    let c = o.get_tape_capacity(Ok(page.clone())).unwrap();
    assert_eq!(c.total_capacity, 4096 * 1024 * 1024);
    assert_eq!(c.used_capacity, 256 * 1024 * 1024);
    assert_eq!(c.free_capacity, 3840 * 1024 * 1024);
    assert_eq!(c.tape_type, "LTO-8");
    let e = o.get_tape_capacity(Err(RustLtfsError::Scsi("x".to_string()))).unwrap();
    assert_eq!(e.total_capacity, 12 * 1024 * 1024 * 1024 * 1024);
    assert_eq!(e.free_capacity, e.total_capacity);
    assert_eq!(o.parse_capacity_log_data(&page[..8]).unwrap().used_capacity, 0);
    let off = TapeOperations::new("/dev/nst0", true);
    assert_eq!(off.get_tape_capacity(Ok(page)).unwrap().used_capacity, 0);
    assert!(o.get_cleaning_status(None).unwrap().last_cleaning.is_none());
}
