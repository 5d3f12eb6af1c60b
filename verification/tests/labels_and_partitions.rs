use rustltfs::capacity::{read_be, CapacityPageParser};
use rustltfs::error::RustLtfsError;
use rustltfs::format::MkltfsParams;
use rustltfs::label::{
    detect_blocksize_heuristic, find_current_index_location, find_ltfs_signature, get_partition_id, is_all_zeros,
    parse_index_locations_from_volume_label, parse_ltfs_volume_label, parse_vol1_label, parse_volume_label,
};
use rustltfs::ops::TapeOperations;
use rustltfs::partition::{
    estimate_standard_partition_sizes, estimate_tape_capacity_bytes, MediaType, PartitionInfo, PartitionManager,
    PartitionStrategy,
};
use rustltfs::status::LtfsFormatStatus;

fn vol1() -> Vec<u8> {
    let mut b = vec![0u8; 80];
    b[..4].copy_from_slice(b"VOL1");
    b[24..28].copy_from_slice(b"LTFS");
    b
}

#[test]
fn capacity_page_values() {
    // page header, then parameter 1 (4-byte value) and parameter 3 (8-byte value)
    let mut page = vec![0x31, 0, 0, 20];
    page.extend_from_slice(&[0, 1, 0, 4, 0, 0, 0x10, 0]);
    page.extend_from_slice(&[0, 3, 0, 8, 0, 0, 0, 0, 0, 0, 1, 0]);
    let p = CapacityPageParser::new(page);
    assert_eq!(p.get_remaining_capacity(0), Ok(4096));
    assert_eq!(p.get_maximum_capacity(0), Ok(256));
    assert_eq!(p.extract_capacity_value(9), Ok(0));
    assert_eq!(CapacityPageParser::new(vec![1, 2]).extract_capacity_value(1), Ok(0));
    assert_eq!(read_be(&[1, 2, 3], 0, 3), 0x010203);
}

#[test]
fn vol1_and_signature() {
    let b = vol1();
    assert!(parse_vol1_label(&b));
    assert!(!parse_vol1_label(&b[..79]));
    assert_eq!(find_ltfs_signature(&b), Some(24));
    assert_eq!(find_ltfs_signature(b"none"), None);
    assert_eq!(parse_volume_label(&b).unwrap().unwrap().start_block, 5);
    assert!(parse_volume_label(b"xxxx").unwrap().is_none());
    let loc = find_current_index_location(None).unwrap();
    assert_eq!((loc.partition.as_str(), loc.start_block), ("a", 5));
}

#[test]
fn index_location_scan() {
    let mut b = vec![0u8; 64];
    b[0..4].copy_from_slice(b"LTFS");
    b[8..12].copy_from_slice(&20u32.to_le_bytes());
    let loc = parse_index_locations_from_volume_label(&b).unwrap();
    assert_eq!((loc.partition.as_str(), loc.start_block), ("a", 20));
    let mut c = vec![0u8; 64];
    c[0..4].copy_from_slice(b"LTFS");
    c[12..16].copy_from_slice(&5000u32.to_le_bytes());
    let loc = parse_index_locations_from_volume_label(&c).unwrap();
    assert_eq!((loc.partition.as_str(), loc.start_block), ("b", 5000));
    assert!(matches!(parse_index_locations_from_volume_label(&[0u8; 16]), Err(RustLtfsError::LtfsIndex(_))));
}

#[test]
fn partition_ids_and_zeros() {
    assert_eq!(get_partition_id("A"), Ok(0));
    assert_eq!(get_partition_id("b"), Ok(1));
    assert_eq!(get_partition_id("c"), Err(RustLtfsError::LtfsIndex("Invalid partition: c".to_string())));
    assert!(is_all_zeros(&[0, 0, 1], 2));
    assert!(!is_all_zeros(&[0, 0, 1], 3));
    assert!(is_all_zeros(&[0], 10));
}

#[test]
fn block_size_guesses() {
    assert_eq!(detect_blocksize_heuristic(&vec![0u8; 100]).unwrap().blocksize, 524288);
    assert_eq!(detect_blocksize_heuristic(&vec![1u8; 40000]).unwrap().blocksize, 65536);
    assert_eq!(detect_blocksize_heuristic(&vec![1u8; 100]).unwrap().blocksize, 524288);
    // a VOL1 label's four-byte field cannot hold an allowed size
    let mut b = vol1();
    b[40..44].copy_from_slice(b"6553");
    assert_eq!(parse_ltfs_volume_label(&b).unwrap().blocksize, 65536);
}

#[test]
fn mkltfs_parameters() {
    let mut p = MkltfsParams::new(0);
    assert_eq!(p.extra_partition_count, 0);
    assert_eq!(p.validate(), Ok(()));
    p.set_barcode("ABC123é-01234567890123456789");
    assert_eq!(p.barcode, "ABC123-0123456789012");
    assert_eq!(p.barcode.len(), 20);
    p.set_p0_size(10);
    assert_eq!((p.p0_size, p.p1_size), (10, 0xFFFF));
    p.set_p1_size(0xFFFF);
    assert_eq!((p.p0_size, p.p1_size), (1, 0xFFFF));
    p.block_length = 100;
    assert_eq!(
        p.validate(),
        Err(RustLtfsError::ParameterValidation("Block length must be between 512 and 2097152, got 100".to_string()))
    );
    p.block_length = 512;
    p.extra_partition_count = 2;
    assert!(matches!(p.validate(), Err(RustLtfsError::ParameterValidation(_))));
}

#[test]
fn volume_label_creation() {
    let ops = TapeOperations::new("/dev/nst0", false);
    let mut p = MkltfsParams::new(1);
    p.volume_label = "TAPE01X".to_string();
    let l = ops.create_ltfs_volume_label(&p, 1).unwrap();
    assert_eq!(l.len(), 80);
    assert_eq!(&l[..10], b"VOL1TAPE01");
    assert_eq!(&l[24..28], b"LTFS");
    // without a volume label the time gives six digits
    let q = MkltfsParams::new(1);
    let l = ops.create_ltfs_volume_label(&q, 1).unwrap();
    assert!(l[4..10].iter().all(|c| c.is_ascii_digit()));
    assert!(parse_vol1_label(&l));
    let label = ops.parse_partition_label(&l).unwrap();
    assert_eq!(label.volume_uuid, "detected-ltfs-volume");
    assert!(!label.format_time.is_empty());
    assert!(matches!(ops.parse_partition_label(b"no sig"), Err(RustLtfsError::LtfsIndex(_))));
    assert_eq!(ops.get_partition_type_for_drive(), 1);
}

#[test]
fn partition_manager_rules() {
    let m = PartitionManager::new(false);
    assert_eq!(m.detect_extra_partition_count(Some(&[0, 0, 0, 3])), Ok(1));
    assert_eq!(m.detect_extra_partition_count(Some(&[0, 0])), Ok(0));
    assert_eq!(PartitionManager::new(true).detect_extra_partition_count(None), Ok(1));
    assert_eq!(m.determine_partition_strategy(0), PartitionStrategy::SinglePartitionFallback);
    assert_eq!(m.map_partition_number(1, 0), 0);
    assert_eq!(m.map_partition_number(1, 1), 1);
    assert_eq!(m.validate_extra_partition_count(7, 0), 0);
    let info = PartitionInfo { has_multi_partition: true, partition_0_size: 0, partition_1_size: 5 };
    assert_eq!(m.validate_partition_configuration(info), Ok(false));
    assert_eq!(m.switch_to_partition(1), Some((1, 0)));
    assert_eq!(PartitionManager::new(true).position_to_partition(1, 9), None);
    assert_eq!(estimate_tape_capacity_bytes(Some(MediaType::Lto7Rw)), 6_000_000_000_000);
    assert_eq!(estimate_tape_capacity_bytes(None), 12_000_000_000_000);
    assert_eq!(
        estimate_standard_partition_sizes(Some(MediaType::Lto8Rw), 12_000_000_000_000, 0),
        (200_000_000_000, 11_800_000_000_000)
    );
    assert_eq!(estimate_standard_partition_sizes(None, 10, 5), (1_000_000_000, 0));
    let label_block = Ok(vol1());
    assert!(m.get_latest_index_location_from_volume_label(Err(RustLtfsError::Scsi("x".to_string()))).is_err());
    assert!(matches!(m.check_index_location_from_volume_label(label_block), Err(RustLtfsError::LtfsIndex(_))));
}

#[test]
fn format_status_of_errors_and_reads() {
    let ops = TapeOperations::new("/dev/nst0", false);
    assert_eq!(
        ops.classify_format_detection_error(RustLtfsError::Scsi("boom".to_string())),
        Ok(LtfsFormatStatus::HardwareError)
    );
    assert_eq!(
        ops.classify_format_detection_error(RustLtfsError::TapeDevice("cannot locate".to_string())),
        Ok(LtfsFormatStatus::PositioningFailed)
    );
    assert_eq!(
        ops.detect_ltfs_format_status(Ok(()), Ok("<ltfsindex>".to_string())),
        Ok(LtfsFormatStatus::LtfsFormatted(11))
    );
    assert_eq!(ops.detect_ltfs_format_status(Ok(()), Ok("   ".to_string())), Ok(LtfsFormatStatus::BlankTape));
    assert_eq!(ops.detect_ltfs_format_status(Ok(()), Ok("junk".to_string())), Ok(LtfsFormatStatus::CorruptedIndex));
    assert_eq!(
        ops.detect_ltfs_format_status(Err(RustLtfsError::Scsi("x".to_string())), Ok(String::new())),
        Ok(LtfsFormatStatus::PositioningFailed)
    );
    assert!(ops.validate_index_xml("").is_err());
    assert!(!ops.is_valid_ltfs_index("<ltfsindex></ltfsindex>"));
    assert_eq!(LtfsFormatStatus::BlankTape.description(), "Blank tape (no data)");
}
