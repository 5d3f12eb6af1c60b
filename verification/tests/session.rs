use rustltfs::checksum::{compute_hashes, CheckSumBlockwiseCalculator};
use rustltfs::error::RustLtfsError;
use rustltfs::hash::{enabled_hash_keys, hex_bytes, hex_u64, HashManager};
use rustltfs::dedup::HashType;
use rustltfs::label::find_pattern_in_data;
use rustltfs::ops::{TapeOperations, TapePosition, WriteOptions};
use rustltfs::timestamp::{format_ltfs_timestamp, get_current_ltfs_timestamp, system_time_to_ltfs_timestamp};
use rustltfs::ready::{ReadyProbe, ReadyStep};
use rustltfs::search::{all_strategies_failed, Vol1Check};
use rustltfs::update::{
    check_blocks_written, data_partition_locate, stage_next_generation, IndexUpdateCommand, IndexUpdateProgress,
    IndexUpdateReply, IndexUpdateStart,
};

#[test]
fn ready_wait_retries_then_gives_up() {
    let ops = TapeOperations::new("/dev/nst0", false);
    let mut w = ops.wait_for_device_ready();
    assert_eq!(w.remaining, 5);
    assert_eq!(w.probe_result(ReadyProbe::Clear), ReadyStep::Ready);
    assert_eq!(w.probe_result(ReadyProbe::Sense("Good status".to_string())), ReadyStep::Ready);
    for _ in 0..4 {
        assert_eq!(w.probe_result(ReadyProbe::Sense("Unit attention".to_string())), ReadyStep::RetryAfter(200));
    }
    assert_eq!(w.remaining, 1);
    assert_eq!(
        w.probe_result(ReadyProbe::Sense("Unit attention".to_string())),
        ReadyStep::Fail(RustLtfsError::Scsi("Device not ready after 5 retries: Unit attention".to_string()))
    );
    let mut w = ops.wait_for_device_ready();
    assert_eq!(
        w.probe_result(ReadyProbe::Sense("Medium error".to_string())),
        ReadyStep::Fail(RustLtfsError::Scsi("TestUnitReady failed: Medium error".to_string()))
    );
    let mut w = ops.wait_for_device_ready();
    for _ in 0..4 {
        assert_eq!(w.probe_result(ReadyProbe::Sense("Not ready".to_string())), ReadyStep::RetryAfter(200));
    }
    assert_eq!(
        w.probe_result(ReadyProbe::Sense("Not ready".to_string())),
        ReadyStep::Fail(RustLtfsError::Scsi("Device not ready after 5 retries: Not ready".to_string()))
    );
    let mut w = ops.wait_for_device_ready();
    w.remaining = 1;
    assert_eq!(
        w.probe_result(ReadyProbe::Failed(RustLtfsError::Scsi("io".to_string()))),
        ReadyStep::Fail(RustLtfsError::Scsi("TestUnitReady failed after 5 retries: SCSI error: io".to_string()))
    );
}

#[test]
fn index_update_start() {
    let mut off = TapeOperations::new("/dev/nst0", true);
    off.write_progress.total_bytes_unindexed = 99;
    assert!(matches!(off.update_index_on_tape(false), Ok(IndexUpdateStart::Offline)));
    assert_eq!(off.write_progress.total_bytes_unindexed, 0);
    let mut on = TapeOperations::new("/dev/nst0", false);
    assert!(matches!(on.update_index_on_tape(false), Err(RustLtfsError::TapeDevice(_))));
    assert!(matches!(on.update_index_on_tape(true), Ok(IndexUpdateStart::NotModified)));
    on.modified = true;
    assert!(matches!(on.update_index_on_tape(true), Ok(IndexUpdateStart::Proceed(_))));
}

fn pos(partition: u8, block: u64) -> TapePosition {
    TapePosition { partition, block_number: block, file_number: 0, set_number: 0 }
}

#[test]
fn index_update_writes_the_next_generation_pointing_back() {
    let mut ops = TapeOperations::new("/dev/nst0", false);
    let mut loaded = ops.create_new_ltfs_index();
    loaded.generationnumber = 7;
    loaded.location.partition = "a".to_string();
    loaded.location.startblock = 6;
    let mut written = ops.create_new_ltfs_index();
    written.generationnumber = 7;
    written.location.startblock = 40;
    ops.index = Some(loaded);
    ops.schema = Some(written);
    ops.modified = true;
    ops.write_progress.total_bytes_unindexed = 10;
    ops.write_progress.current_files_processed = 3;
    let mut run = match ops.update_index_on_tape(true) {
        Ok(IndexUpdateStart::Proceed(run)) => run,
        _ => panic!("expected an update"),
    };
    let s = run.step(&mut ops, Ok(IndexUpdateReply::Position(pos(0, 9))));
    assert!(matches!(s, IndexUpdateProgress::Command(IndexUpdateCommand::LocateBlock(1, 0))));
    let s = run.step(&mut ops, Ok(IndexUpdateReply::Done));
    assert!(matches!(s, IndexUpdateProgress::Command(IndexUpdateCommand::SpaceToEndOfData)));
    let s = run.step(&mut ops, Ok(IndexUpdateReply::Done));
    assert!(matches!(s, IndexUpdateProgress::Command(IndexUpdateCommand::ReadPosition)));
    let s = run.step(&mut ops, Ok(IndexUpdateReply::Position(pos(1, 99))));
    assert!(matches!(s, IndexUpdateProgress::Command(IndexUpdateCommand::WriteFileMark)));
    let s = run.step(&mut ops, Ok(IndexUpdateReply::Done));
    assert!(matches!(s, IndexUpdateProgress::Command(IndexUpdateCommand::ReadPosition)));
    let s = run.step(&mut ops, Ok(IndexUpdateReply::Position(pos(1, 100))));
    assert!(matches!(s, IndexUpdateProgress::Command(IndexUpdateCommand::WriteIndex)));
    let s = run.step(&mut ops, Ok(IndexUpdateReply::Written { needed: 2, written: 2 }));
    assert!(matches!(s, IndexUpdateProgress::Command(IndexUpdateCommand::WriteFileMark)));
    let s = run.step(&mut ops, Ok(IndexUpdateReply::Done));
    assert!(matches!(s, IndexUpdateProgress::Command(IndexUpdateCommand::ReadPosition)));
    assert!(ops.modified);
    let s = run.step(&mut ops, Ok(IndexUpdateReply::Position(pos(1, 103))));
    assert!(matches!(s, IndexUpdateProgress::Finished(Ok(()))));
    let n = ops.index.as_ref().unwrap();
    assert_eq!(n.generationnumber, 8);
    assert_eq!(n.location.partition, "b");
    assert_eq!(n.location.startblock, 100);
    let p = n.previousgenerationlocation.as_ref().unwrap();
    assert_eq!((p.partition.as_str(), p.startblock), ("a", 6));
    assert_eq!(ops.schema.as_ref().unwrap().generationnumber, 8);
    assert!(!ops.modified);
    assert_eq!(ops.write_progress.total_bytes_unindexed, 0);
    assert_eq!(ops.write_progress.current_files_processed, 0);
}

#[test]
fn index_update_refuses_a_short_write() {
    let mut ops = TapeOperations::new("/dev/nst0", false);
    ops.modified = true;
    let mut run = match ops.update_index_on_tape(true) {
        Ok(IndexUpdateStart::Proceed(run)) => run,
        _ => panic!("expected an update"),
    };
    run.step(&mut ops, Ok(IndexUpdateReply::Position(pos(1, 0))));
    run.step(&mut ops, Ok(IndexUpdateReply::Done));
    run.step(&mut ops, Ok(IndexUpdateReply::Position(pos(1, 5))));
    run.step(&mut ops, Ok(IndexUpdateReply::Done));
    run.step(&mut ops, Ok(IndexUpdateReply::Position(pos(1, 6))));
    match run.step(&mut ops, Ok(IndexUpdateReply::Written { needed: 3, written: 2 })) {
        IndexUpdateProgress::Finished(Err(RustLtfsError::Scsi(m))) => {
            assert_eq!(m, "Expected to write 3 blocks for index, but wrote 2")
        },
        _ => panic!("expected a SCSI error"),
    }
    assert!(ops.modified);
    assert!(ops.index.is_none());
}

#[test]
fn next_generation_and_completion() {
    let mut ops = TapeOperations::new("/dev/nst0", false);
    let base = ops.create_new_ltfs_index();
    ops.index = Some(base.clone());
    let prev = ops.previous_generation_location();
    assert_eq!(prev.as_ref().unwrap().partition, "b");
    let next = stage_next_generation(base, prev, 1234);
    assert_eq!(next.generationnumber, 2);
    assert_eq!(next.location.partition, "b");
    assert_eq!(next.location.startblock, 1234);
    assert_eq!(next.previousgenerationlocation.as_ref().unwrap().startblock, 0);
    ops.modified = true;
    ops.write_progress.current_files_processed = 4;
    ops.complete_index_update(next);
    assert!(!ops.modified);
    assert_eq!(ops.write_progress.current_files_processed, 0);
    assert_eq!(ops.index.as_ref().unwrap().generationnumber, 2);
    assert_eq!(data_partition_locate(TapePosition { partition: 0, block_number: 5, file_number: 0, set_number: 0 }), Some((1, 0)));
    assert_eq!(data_partition_locate(TapePosition { partition: 1, block_number: 5, file_number: 0, set_number: 0 }), None);
    assert_eq!(check_blocks_written(3, 3), Ok(()));
    assert_eq!(
        check_blocks_written(3, 2),
        Err(RustLtfsError::Scsi("Expected to write 3 blocks, but wrote 2".to_string()))
    );
}

#[test]
fn refresh_keeps_the_index_and_reports_coherency() {
    let mut ops = TapeOperations::new("/dev/nst0", false);
    assert!(matches!(ops.refresh_index_partition(), Err(RustLtfsError::LtfsIndex(_))));
    let mut idx = ops.create_new_ltfs_index();
    idx.location.partition = "a".to_string();
    idx.location.startblock = 6;
    idx.previousgenerationlocation = Some(rustltfs::index::Location { partition: "b".to_string(), startblock: 900 });
    ops.index = Some(idx.clone());
    match ops.refresh_index_partition() {
        Err(RustLtfsError::LtfsIndex(m)) => assert_eq!(m, "No index available for refresh"),
        _ => panic!("expected an index error"),
    }
    ops.schema = Some(idx);
    ops.index = None;
    ops.modified = true;
    let v = ops.refresh_index_partition().unwrap().unwrap();
    assert_eq!(ops.index.as_ref().unwrap().location.startblock, 6);
    assert_eq!(ops.schema.as_ref().unwrap().location.startblock, 6);
    assert_eq!(v.index_block, 6);
    assert_eq!(v.data_block, 900);
    assert_eq!(v.generation, 1);
    assert!(!ops.modified);
    let mut offline = TapeOperations::new("/dev/nst0", true);
    assert!(matches!(offline.refresh_index_partition(), Ok(None)));
}

#[test]
fn first_block_checks() {
    let ops = TapeOperations::new("/dev/nst0", false);
    assert_eq!(ops.check_first_block(&[0u8; 40]), Ok(Vol1Check::Alternative));
    assert!(matches!(ops.check_first_block(&[0u8; 8192]), Err(RustLtfsError::LtfsIndex(_))));
    let mut b = vec![0u8; 80];
    b[..4].copy_from_slice(b"VOL1");
    b[24..28].copy_from_slice(b"LTFS");
    assert_eq!(ops.check_first_block(&b), Ok(Vol1Check::Valid));
    b[24..28].copy_from_slice(b"IBM ");
    assert_eq!(ops.check_first_block(&b), Ok(Vol1Check::Alternative));
    let plan = ops.try_alternative_index_reading_strategies(2);
    assert_eq!(plan.label_block, (0, 1));
    assert_eq!(plan.common.candidates, vec![(0, 2), (0, 5), (0, 6), (0, 10), (0, 20), (0, 100)]);
    assert_eq!(plan.last.candidates, vec![(1, 1000), (1, 2000), (1, 5000), (1, 10000)]);
    let single = ops.try_alternative_index_reading_strategies(1);
    assert_eq!(single.last.candidates[0], (0, 50));
    assert!(matches!(all_strategies_failed(), RustLtfsError::LtfsIndex(_)));
}

#[test]
fn hex_and_hash_keys() {
    assert_eq!(hex_bytes(&[0x00, 0xAB, 0x7f], true), "00AB7F");
    assert_eq!(hex_bytes(&[0x00, 0xAB, 0x7f], false), "00ab7f");
    assert_eq!(hex_u64(0xbeef, 16, false), "000000000000beef");
    assert_eq!(hex_u64(0, 0, true), "0");
    assert_eq!(hex_u64(0x1234_5678_9abc_def0, 32, true), "0000000000000000123456789ABCDEF0");
    let mut o = WriteOptions::default();
    assert_eq!(enabled_hash_keys(&o), vec!["ltfs.hash.sha1sum", "ltfs.hash.md5sum", "ltfs.hash.sha256sum"]);
    o.hash_sha1_enabled = false;
    o.hash_md5_enabled = false;
    o.hash_xxhash128_enabled = true;
    assert_eq!(enabled_hash_keys(&o), vec!["ltfs.hash.sha256sum", "ltfs.hash.xxhash128sum"]);
}

#[test]
fn hash_manager_algorithms() {
    let mut m = HashManager::new(vec![HashType::Sha1]);
    assert_eq!(m.chunk_size, 65536);
    m.enable_algorithm(HashType::Blake3);
    m.enable_algorithm(HashType::Sha1);
    assert_eq!(m.enabled_algorithms(), &[HashType::Sha1, HashType::Blake3]);
    m.disable_algorithm(&HashType::Sha1);
    assert_eq!(m.enabled_algorithms(), &[HashType::Blake3]);
    m.with_chunk_size(4096).with_chunk_size(8192);
    assert_eq!(m.chunk_size, 8192);
    let computed = vec![("a".to_string(), "1".to_string()), ("b".to_string(), "2".to_string())];
    assert!(m.verify_hashes(&computed, &vec![("b".to_string(), "2".to_string())]));
    assert!(!m.verify_hashes(&computed, &vec![("b".to_string(), "3".to_string())]));
    assert!(!m.verify_hashes(&computed, &vec![("c".to_string(), "2".to_string())]));
}

#[test]
fn pattern_search() {
    assert_eq!(find_pattern_in_data(b"abcLTFSx", b"LTFS"), Some(3));
    assert_eq!(find_pattern_in_data(b"abc", b"abcd"), None);
    assert_eq!(find_pattern_in_data(b"aaa", b"a"), Some(0));
}

#[test]
fn blockwise_hashes_match_whole_data() {
    let mut o = WriteOptions::default();
    o.hash_sha1_enabled = true;
    o.hash_md5_enabled = true;
    o.hash_blake3_enabled = true;
    let mut c = CheckSumBlockwiseCalculator::new_with_options(&o);
    c.propagate(b"ab");
    c.propagate(b"c");
    c.process_final_block();
    assert_eq!(c.bytes_processed, 3);
    assert_eq!(c.sha1_value(), "A9993E364706816ABA3E25717850C26C9CD0D89D");
    assert_eq!(c.md5_value(), "900150983CD24FB0D6963F7D28E17F72");
    assert_eq!(c.sha256_value(), "BA7816BF8F01CFEA414140DE5DAE2223B00361A396177A9CB410FF61F20015AD");
    assert!(c.xxhash3_value().is_none());
    let pairs = c.get_enabled_hashes(&o);
    let keys: Vec<&str> = pairs.iter().map(|p| p.0.as_str()).collect();
    assert_eq!(keys, vec!["ltfs.hash.sha1sum", "ltfs.hash.md5sum", "ltfs.hash.sha256sum", "ltfs.hash.blake3sum"]);
    assert_eq!(pairs, compute_hashes(b"abc", &o));
    assert_eq!(pairs[3].1, "6437B3AC38465133FFB63B75273A8DB548C558465D79DB03FD359C6CD5BD9D85");
}

#[test]
fn file_hashes_in_chunks() {
    let m = HashManager::new(vec![HashType::Sha1, HashType::XxHash3, HashType::XxHash128]);
    let mut c = m.compute_file_hashes();
    c.feed(b"a");
    c.feed(b"bc");
    assert_eq!(c.total_read, 3);
    let r = c.results();
    assert_eq!(r[0], ("ltfs.hash.sha1sum".to_string(), "a9993e364706816aba3e25717850c26c9cd0d89d".to_string()));
    assert_eq!(r[1], ("ltfs.hash.xxhash3sum".to_string(), "44bc2cf5ad770999".to_string()));
    assert_eq!(r[2], ("ltfs.hash.xxhash128sum".to_string(), "000000000000000044bc2cf5ad770999".to_string()));
    assert!(m.verify_file_hashes(&c, &vec![("ltfs.hash.sha1sum".to_string(), "a9993e364706816aba3e25717850c26c9cd0d89d".to_string())]));
    assert!(!m.verify_file_hashes(&c, &vec![("ltfs.hash.sha256sum".to_string(), "x".to_string())]));
    let mut s = HashType::Sha256.compute_file_hash();
    s.feed(b"abc");
    assert_eq!(s.results()[0].1, "ba7816bf8f01cfea414140de5dae2223b00361a396177a9cb410ff61f20015ad");
    let mut t = TapeOperations::new("/dev/nst0", false).calculate_file_hash();
    t.feed(b"abc");
    assert_eq!(t.results(), s.results());
}

#[test]
fn hash_manager_from_write_options_follows_the_flags() {
    let mut o = WriteOptions::default();
    o.hash_sha1_enabled = true;
    o.hash_blake3_enabled = false;
    o.hash_xxhash3_enabled = false;
    o.hash_xxhash128_enabled = true;
    let m = HashManager::from_write_options(&o);
    assert_eq!(m.enabled_algorithms, vec![HashType::Sha1, HashType::Sha256, HashType::XxHash128]);
    assert_eq!(m.chunk_size, 65536);
    o.hash_sha1_enabled = false;
    o.hash_xxhash128_enabled = false;
    o.hash_blake3_enabled = true;
    let m = HashManager::from_write_options(&o);
    assert_eq!(m.enabled_algorithms, vec![HashType::Sha256, HashType::Blake3]);
}

#[test]
fn ltfs_timestamps_have_nanoseconds_and_a_closing_z() {
    assert_eq!(format_ltfs_timestamp(1672531200, 0), "2023-01-01T00:00:00.000000000Z");
    assert_eq!(format_ltfs_timestamp(1672531200, 123456789), "2023-01-01T00:00:00.123456789Z");
    assert_eq!(system_time_to_ltfs_timestamp(-1, 500_000_000), "1969-12-31T23:59:59.500000000Z");
    let now = get_current_ltfs_timestamp();
    assert!(now.ends_with('Z'));
    assert_eq!(now.len(), 30);
}
