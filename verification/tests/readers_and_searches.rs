use rustltfs::error::RustLtfsError;
use rustltfs::label::IndexLocation;
use rustltfs::ops::TapeOperations;
use rustltfs::reader::{BlockRead, ExpansionStep, FileMarkStep, IndexBlockReader};
use rustltfs::search::{
    all_strategies_failed, is_label_block_parsable, AlternativeCommand, AlternativeIndexRead, AlternativeReply,
    AlternativeStage, AlternativeStep, BackwardSearch, EodIndexRoute, FileMarkRoute, IndexReadPlan, LatestIndexStep, SearchStep};

fn ops() -> TapeOperations {
    TapeOperations::new("/dev/nst0", false)
}

fn padded(text: &str, len: usize) -> Vec<u8> {
    let mut v = text.as_bytes().to_vec();
    v.resize(len, 0);
    v
}

#[test]
fn block_reader_stops_at_the_closing_tag() {
    let mut r = ops().try_read_ltfs_index();
    assert_eq!(r.max_blocks, 50);
    r.feed(BlockRead::Block(padded("<ltfsindex>abc", 32)));
    assert!(!r.stopped);
    assert!(r.wants_block());
    r.feed(BlockRead::Block(padded("</ltfsindex>", 32)));
    assert!(r.stopped);
    assert_eq!(r.blocks_read, 2);
    assert_eq!(r.finish_at_position().unwrap(), "<ltfsindex>abc</ltfsindex>");
    assert_eq!(r.finish_format_probe().unwrap(), "<ltfsindex>abc</ltfsindex>");
}

#[test]
fn block_reader_stops_on_a_zero_block_a_file_mark_or_bad_text() {
    let mut r = ops().try_read_index_at_current_position_sync();
    r.feed(BlockRead::Block(vec![0u8; 16]));
    assert!(r.stopped);
    assert!(!r.has_data);
    assert_eq!(r.finish_format_probe().unwrap(), "");
    assert!(matches!(r.finish_at_position(), Err(RustLtfsError::LtfsIndex(_))));

    let mut r = IndexBlockReader::new(5);
    r.feed(BlockRead::NoBlock);
    assert!(r.stopped);
    assert!(!r.failed_without_data);

    let mut r = IndexBlockReader::new(5);
    r.feed(BlockRead::Block(vec![0xff, 0x41]));
    assert!(r.stopped);
    assert!(r.has_data);
    assert!(r.xml.is_empty());
}

#[test]
fn block_reader_reports_a_failed_first_read() {
    let mut r = IndexBlockReader::new(5);
    r.feed(BlockRead::Failed);
    assert!(r.failed_without_data);
    assert_eq!(
        r.finish_format_probe(),
        Err(RustLtfsError::LtfsIndex("No data could be read from tape".to_string()))
    );
}

#[test]
fn block_reader_respects_its_limit() {
    let mut r = IndexBlockReader::new(2);
    r.feed(BlockRead::Block(padded("<a>", 8)));
    r.feed(BlockRead::Block(padded("<b>", 8)));
    assert!(!r.stopped);
    assert!(!r.wants_block());
    assert_eq!(r.finish_at_position().unwrap(), "<a><b>");
}

#[test]
fn expanding_read_doubles_up_to_two_hundred_blocks() {
    let mut e = ops().read_index_xml_from_tape();
    assert_eq!(e.blocks_to_read, 10);
    let mut seen = Vec::new();
    loop {
        match e.feed(Ok(padded("<ltfsindex><directory>", 64))) {
            ExpansionStep::ReadMore(n) => seen.push(n),
            ExpansionStep::Done(t) => {
                assert_eq!(t, "<ltfsindex><directory>");
                break;
            },
            ExpansionStep::Failed(_) => panic!("unexpected failure"),
        }
    }
    assert_eq!(seen, vec![20, 40, 80, 160, 200]);
}

#[test]
fn expanding_read_finishes_at_the_closing_tag() {
    let mut e = ops().read_index_xml_from_tape();
    match e.feed(Ok(padded("<ltfsindex></ltfsindex>", 100))) {
        ExpansionStep::Done(t) => assert_eq!(t, "<ltfsindex></ltfsindex>"),
        _ => panic!("expected the index"),
    }
}

#[test]
fn expanding_read_errors() {
    let mut e = ops().read_index_xml_from_tape();
    match e.feed(Err(RustLtfsError::Scsi("Direct block read operation failed".to_string()))) {
        ExpansionStep::Failed(RustLtfsError::Scsi(m)) => assert_eq!(
            m,
            "Failed to read index from tape: SCSI error: Direct block read operation failed. Possible causes: blank tape, incorrect position, hardware issue, SCSI problem. Try --skip-index option."
        ),
        _ => panic!("expected a SCSI error"),
    }
    match e.feed(Ok(vec![0xff, 0xfe])) {
        ExpansionStep::Failed(RustLtfsError::LtfsIndex(m)) => assert_eq!(m, "Failed to parse index data as UTF-8"),
        _ => panic!("expected an index error"),
    }
    match e.feed(Ok(padded("</ltfsindex>", 20))) {
        ExpansionStep::Failed(RustLtfsError::LtfsIndex(m)) => {
            assert_eq!(m, "Invalid LTFS index format - missing ltfsindex element")
        },
        _ => panic!("expected an index error"),
    }
    e.blocks_to_read = 200;
    match e.feed(Ok(vec![0u8; 8])) {
        ExpansionStep::Failed(RustLtfsError::LtfsIndex(m)) => assert_eq!(m, "Index XML is empty"),
        _ => panic!("expected an index error"),
    }
}

#[test]
fn file_mark_reader_collects_blocks_until_the_mark() {
    let mut f = ops().read_to_file_mark_with_temp_file(65536);
    assert_eq!(f.max_blocks, 50);
    assert!(matches!(f.feed_block(Some(b"  <ltfsindex/>".to_vec())), FileMarkStep::Continue));
    assert_eq!(f.max_blocks, 200);
    assert!(matches!(f.feed_block(Some(b"\0\0 ".to_vec())), FileMarkStep::Continue));
    assert!(matches!(f.feed_block(None), FileMarkStep::Stop));
    assert_eq!(f.blocks_read, 2);
    assert_eq!(f.finish().unwrap(), "<ltfsindex/>");
}

#[test]
fn file_mark_reader_keeps_fifty_blocks_without_an_index_start() {
    let mut f = ops().read_to_file_mark_with_temp_file(4);
    for _ in 0..50 {
        assert!(f.wants_block());
        assert!(matches!(f.feed_block(Some(b"data".to_vec())), FileMarkStep::Continue));
    }
    assert_eq!(f.max_blocks, 50);
    assert!(!f.wants_block());
}

#[test]
fn file_mark_reader_error_handling() {
    let err = RustLtfsError::Scsi("x".to_string());
    let mut f = ops().read_to_file_mark_with_temp_file(65536);
    match f.feed_error(&err) {
        FileMarkStep::Failed(RustLtfsError::Scsi(m)) => {
            assert_eq!(m, "Failed to read any data (Debug Mode - No Retry): SCSI error: x")
        },
        _ => panic!("expected a SCSI error"),
    }
    let mut f = ops().read_to_file_mark_with_temp_file(65536);
    f.feed_block(Some(vec![b'a', 0xff]));
    assert!(matches!(f.feed_error(&err), FileMarkStep::Stop));
    assert_eq!(f.finish().unwrap(), "a\u{FFFD}");
    let mut f = ops().read_to_file_mark_with_temp_file(65536);
    f.feed_block(Some(b" \0 ".to_vec()));
    assert_eq!(f.finish(), Err(RustLtfsError::LtfsIndex("Cleaned XML is empty".to_string())));
}

#[test]
fn read_errors_are_judged_by_their_text() {
    let o = ops();
    let direct = RustLtfsError::Scsi("Direct block read operation failed".to_string());
    assert_eq!(o.handle_scsi_read_error(&direct, 0, 2, false), Ok(true));
    assert_eq!(o.handle_scsi_read_error(&direct, 0, 3, false), Ok(false));
    assert_eq!(o.handle_scsi_read_error(&direct, 1, 0, false), Ok(false));
    let not_ready = RustLtfsError::TapeDevice("Device not ready".to_string());
    assert!(o.read_error_needs_unit_ready_probe(&not_ready));
    assert!(!o.read_error_needs_unit_ready_probe(&direct));
    assert_eq!(o.handle_scsi_read_error(&not_ready, 0, 5, true), Ok(true));
    assert_eq!(o.handle_scsi_read_error(&not_ready, 0, 2, false), Ok(false));
    let medium = RustLtfsError::Scsi("Medium error".to_string());
    assert_eq!(o.handle_scsi_read_error(&medium, 11, 0, false), Ok(false));
    assert_eq!(o.handle_scsi_read_error(&medium, 10, 1, false), Ok(true));
    let illegal = RustLtfsError::Scsi("Illegal request".to_string());
    assert_eq!(o.handle_scsi_read_error(&illegal, 0, 0, false), Ok(false));
    let hardware = RustLtfsError::Scsi("Hardware error".to_string());
    assert_eq!(o.handle_scsi_read_error(&hardware, 0, 2, false), Ok(false));
    let other = RustLtfsError::Scsi("something else".to_string());
    assert_eq!(o.handle_scsi_read_error(&other, 0, 2, false), Ok(true));
}

#[test]
fn read_at_current_position_needs_more_than_a_hundred_bytes() {
    let o = ops();
    let long = format!("\0 {} \0", "a".repeat(120));
    assert_eq!(o.try_read_index_at_current_position(Ok(long.into_bytes())), Ok("a".repeat(120)));
    assert_eq!(
        o.try_read_index_at_current_position(Ok(padded("short", 4096))),
        Err(RustLtfsError::LtfsIndex("No sufficient data at position".to_string()))
    );
    let e = RustLtfsError::Scsi("read failed".to_string());
    assert_eq!(o.try_read_index_at_current_position(Err(e.clone())), Err(e));
}

#[test]
fn schema_text_is_rewritten_as_ltfscopygui_does() {
    let o = ops();
    let s = "<ltfsindex><_directory><directory><_file><file>a%25b</file></_file></directory></_directory></ltfsindex>\0"
        .to_string();
    assert_eq!(
        o.ltfscopygui_from_schema_text(s).unwrap(),
        "<ltfsindex><directory><file>a%b</file></directory></ltfsindex>"
    );
    let s1 = "<_directory><directory><name>a%25b</name></directory></_directory>\0\0".to_string();
    assert_eq!(
        o.ltfscopygui_from_schema_text(s1).unwrap(),
        "<directory><name>a%b</name></directory>"
    );
    assert!(o.ltfscopygui_from_schema_text("\0\0abc".to_string()).is_err());
    assert_eq!(
        o.ltfscopygui_from_schema_text("abc\0".to_string()),
        Err(RustLtfsError::LtfsIndex("Schema text too short after null removal: 3 bytes".to_string()))
    );
    assert_eq!(
        o.ltfscopygui_from_schema_text("x".repeat(30)),
        Err(RustLtfsError::LtfsIndex("No LTFS structure found in processed text".to_string()))
    );
    let schema = b"<?xml?><ltfsindex xmlns:xs=\"XMLSchema\"><file></file>";
    assert_eq!(
        o.index_text_from_file_mark_data(schema).unwrap(),
        String::from_utf8(schema.to_vec()).unwrap()
    );
    assert_eq!(
        o.index_text_from_file_mark_data(b"<ltfsindex><_file><file>abc</file></_file></ltfsindex>").unwrap(),
        "<ltfsindex><file>abc</file></ltfsindex>"
    );
}

#[test]
fn fixed_position_search_tries_each_block_in_turn() {
    let o = ops();
    let mut s = o.common_index_locations(0);
    assert_eq!(s.next_position(), Some((0, 2)));
    assert!(matches!(s.record_attempt(Ok("junk".to_string())), SearchStep::TryAt(0, 5)));
    assert!(matches!(s.record_attempt(Ok("   ".to_string())), SearchStep::TryAt(0, 6)));
    match s.record_attempt(Ok("<ltfsindex></ltfsindex>".to_string())) {
        SearchStep::Found(t) => assert_eq!(t, "<ltfsindex></ltfsindex>"),
        _ => panic!("expected the index"),
    }
}

#[test]
fn data_partition_search_needs_a_complete_index() {
    let o = ops();
    let mut s = o.search_index_copies_in_data_partition();
    assert_eq!(s.next_position(), Some((1, 100)));
    let small = "<ltfsindex><directory></directory></ltfsindex>".to_string();
    assert!(matches!(s.record_attempt(Ok(small)), SearchStep::TryAt(1, 500)));
    let big = format!("<ltfsindex><directory>{}</directory></ltfsindex>", "x".repeat(200));
    match s.record_attempt(Ok(big.clone())) {
        SearchStep::Found(t) => assert_eq!(t, big),
        _ => panic!("expected the index"),
    }
    let mut s = o.try_read_from_data_partition();
    let e = || Err(RustLtfsError::Scsi("locate failed".to_string()));
    assert!(matches!(s.record_attempt(e()), SearchStep::TryAt(1, 2000)));
    assert!(matches!(s.record_attempt(e()), SearchStep::TryAt(1, 5000)));
    assert!(matches!(s.record_attempt(e()), SearchStep::TryAt(1, 10000)));
    match s.record_attempt(e()) {
        SearchStep::Exhausted(RustLtfsError::LtfsIndex(m)) => {
            assert_eq!(m, "No valid index found at the searched positions")
        },
        _ => panic!("expected the search to end"),
    }
    assert_eq!(s.next_position(), None);
}

#[test]
fn alternative_routes_depend_on_the_partition_count() {
    let o = ops();
    let p = o.try_alternative_index_reading_strategies(2);
    assert_eq!(p.label_block, (0, 1));
    assert_eq!(p.common.candidates, vec![(0, 2), (0, 5), (0, 6), (0, 10), (0, 20), (0, 100)]);
    assert_eq!(p.last.candidates, vec![(1, 1000), (1, 2000), (1, 5000), (1, 10000)]);
    let p = o.try_alternative_index_reading_strategies(1);
    assert_eq!(p.last.candidates, vec![(0, 50), (0, 200), (0, 500), (0, 1000), (0, 2000)]);
    assert!(matches!(all_strategies_failed(), RustLtfsError::LtfsIndex(_)));
}

#[test]
fn backward_search_steps_ten_blocks_at_a_time() {
    let mut b = ops().search_backward_for_last_index();
    assert_eq!(b.next_step_back(), Some(1));
    assert!(matches!(b.record_attempt(true, Ok("nothing".to_string())), SearchStep::TryAt(0, 11)));
    assert!(matches!(b.record_attempt(false, Ok("nothing".to_string())), SearchStep::Exhausted(_)));
    let mut b = BackwardSearch::new();
    b.distance = 991;
    assert!(matches!(
        b.record_attempt(true, Err(RustLtfsError::Scsi("x".to_string()))),
        SearchStep::Exhausted(RustLtfsError::LtfsIndex(_))
    ));
    assert_eq!(b.next_step_back(), None);
}

#[test]
fn index_location_gives_partition_block_and_block_size() {
    let o = ops();
    let loc = IndexLocation { partition: "B".to_string(), start_block: 42 };
    assert_eq!(
        o.read_index_from_specific_location(&loc),
        Ok(IndexReadPlan { partition: 1, block: 42, block_size: 65536 })
    );
    let loc = IndexLocation { partition: "c".to_string(), start_block: 42 };
    assert!(matches!(o.read_index_from_specific_location(&loc), Err(RustLtfsError::LtfsIndex(_))));
}

#[test]
fn ltfscopygui_routes() {
    let o = ops();
    assert_eq!(o.read_index_ltfscopygui_method(Some(&[0, 0, 0, 1])), EodIndexRoute::MultiPartition(1));
    assert_eq!(o.read_index_ltfscopygui_method(Some(&[0, 0])), EodIndexRoute::SinglePartition);
    assert_eq!(o.read_index_ltfscopygui_method(None), EodIndexRoute::SinglePartition);
    let offline = TapeOperations::new("/dev/nst0", true);
    assert_eq!(offline.read_index_ltfscopygui_method(None), EodIndexRoute::MultiPartition(1));
    assert!(matches!(o.read_index_single_partition_ltfscopygui(1), Err(RustLtfsError::LtfsIndex(_))));
    assert_eq!(o.read_index_single_partition_ltfscopygui(2), Ok(FileMarkRoute::LocateFileMark1(0)));
    assert_eq!(o.read_index_multi_partition_ltfscopygui(1), FileMarkRoute::BackTwoFileMarks);
    assert_eq!(o.read_index_multi_partition_ltfscopygui(5), FileMarkRoute::LocateFileMark1(1));
}

#[test]
fn latest_index_of_the_data_partition() {
    let o = ops();
    let loc = IndexLocation { partition: "b".to_string(), start_block: 7 };
    match o.read_latest_index_from_data_partition(Ok(loc)) {
        LatestIndexStep::ReadAt(plan) => assert_eq!(plan, IndexReadPlan { partition: 1, block: 7, block_size: 65536 }),
        _ => panic!("expected a read at the label's location"),
    }
    let loc = IndexLocation { partition: "z".to_string(), start_block: 7 };
    match o.read_latest_index_from_data_partition(Ok(loc)) {
        LatestIndexStep::Search(s) => assert_eq!(s.candidates[0], (1, 100)),
        _ => panic!("expected a search"),
    }
    match o.latest_index_after_read(Ok("<ltfsindex/>".to_string())) {
        LatestIndexStep::Found(t) => assert_eq!(t, "<ltfsindex/>"),
        _ => panic!("expected the index"),
    }
    match o.latest_index_after_read(Err(RustLtfsError::Scsi("x".to_string()))) {
        LatestIndexStep::Search(s) => assert_eq!(s.candidates.len(), 5),
        _ => panic!("expected a search"),
    }
}

#[test]
fn copygui_read_stops_at_short_block() {
    let mut r = ops().try_read_index_with_ltfscopygui_method(38);
    assert!(r.wants_block());
    r.feed(Ok(vec![b'a'; 65536]));
    assert!(r.wants_block());
    r.feed(Ok(b"<ltfsindex/>".to_vec()));
    assert!(!r.wants_block());
    assert_eq!(r.blocks_read, 2);
    let text = r.finish().unwrap();
    assert_eq!(text.len(), 65536 + 12);
    assert!(text.ends_with("<ltfsindex/>"));
}

#[test]
fn copygui_read_error_and_bad_text() {
    let mut r = ops().try_read_index_with_ltfscopygui_method(0);
    r.feed(Ok(vec![0xff, 0xfe]));
    assert!(!r.wants_block());
    assert!(matches!(r.finish(), Err(RustLtfsError::FileOperation(_))));
    let mut e = ops().try_read_index_with_ltfscopygui_method(0);
    e.feed(Err(RustLtfsError::Scsi("x".to_string())));
    assert!(!e.wants_block());
    assert_eq!(e.finish().unwrap(), "");
    let mut z = ops().try_read_index_with_ltfscopygui_method(0);
    z.feed(Ok(Vec::new()));
    assert!(!z.wants_block());
    assert_eq!(z.blocks_read, 0);
}

#[test]
fn all_strategies_failed_names_causes() {
    match all_strategies_failed() {
        RustLtfsError::LtfsIndex(m) => {
            assert!(m.starts_with("All alternative index reading strategies failed."));
            assert!(m.contains("4. Hardware communication issues"));
        }
        _ => panic!("wrong kind"),
    }
}

fn no_text() -> AlternativeReply {
    AlternativeReply::Text(Err(RustLtfsError::Scsi("nothing".to_string())))
}

fn alt_cmd(s: AlternativeStep) -> AlternativeCommand {
    match s {
        AlternativeStep::Command(c) => c,
        AlternativeStep::Finished(_) => panic!("finished early"),
    }
}

#[test]
fn alternative_read_refuses_a_blank_tape() {
    let o = ops();
    let (mut m, first) = AlternativeIndexRead::begin(o.try_alternative_index_reading_strategies_async(1));
    assert_eq!(first, AlternativeCommand::ReadIndexAt(0, 10));
    for b in [2u64, 5, 6, 20, 100] {
        assert_eq!(alt_cmd(m.step(&o, no_text())), AlternativeCommand::ReadIndexAt(0, b));
    }
    assert_eq!(alt_cmd(m.step(&o, no_text())), AlternativeCommand::ReadBlockAt(0, 0));
    match m.step(&o, AlternativeReply::Block(Ok(vec![0u8; 65536]))) {
        AlternativeStep::Finished(Err(RustLtfsError::LtfsIndex(msg))) => {
            assert_eq!(msg, "Blank tape detected - no LTFS index found")
        },
        _ => panic!("expected the blank tape error"),
    }
    assert_eq!(m.stage, AlternativeStage::Finished);
}

#[test]
fn alternative_read_takes_the_first_index_at_the_usual_positions() {
    let o = ops();
    let (mut m, _) = AlternativeIndexRead::begin(o.try_alternative_index_reading_strategies_async(2));
    m.step(&o, AlternativeReply::Text(Ok("<ltfsindex> no end".to_string())));
    match m.step(&o, AlternativeReply::Text(Ok("<ltfsindex></ltfsindex>".to_string()))) {
        AlternativeStep::Finished(Ok(x)) => assert_eq!(x, "<ltfsindex></ltfsindex>"),
        _ => panic!("expected the index"),
    }
}

#[test]
fn alternative_read_follows_the_label_then_searches_the_data_partition() {
    let o = ops();
    let (mut m, _) = AlternativeIndexRead::begin(o.try_alternative_index_reading_strategies_async(2));
    for _ in 0..6 {
        m.step(&o, no_text());
    }
    assert_eq!(alt_cmd(m.step(&o, AlternativeReply::Block(Ok(vec![1u8; 65536])))), AlternativeCommand::ReadBlockAt(0, 1));
    let mut label = vec![0u8; 65536];
    label[100..104].copy_from_slice(b"LTFS");
    label[104] = 40;
    assert!(is_label_block_parsable(&label));
    assert_eq!(
        alt_cmd(m.step(&o, AlternativeReply::Block(Ok(label)))),
        AlternativeCommand::ReadToFileMarkAt(0, 40, 65536)
    );
    // nothing there: the data partition
    assert_eq!(alt_cmd(m.step(&o, no_text())), AlternativeCommand::ReadIndexAt(1, 1000));
    assert_eq!(alt_cmd(m.step(&o, no_text())), AlternativeCommand::ReadIndexAt(1, 2000));
    assert_eq!(alt_cmd(m.step(&o, no_text())), AlternativeCommand::ReadIndexAt(1, 5000));
    assert_eq!(alt_cmd(m.step(&o, no_text())), AlternativeCommand::ReadIndexAt(1, 10000));
    match m.step(&o, no_text()) {
        AlternativeStep::Finished(Err(e)) => assert_eq!(e, all_strategies_failed()),
        _ => panic!("expected every route to fail"),
    }
}

#[test]
fn alternative_read_returns_what_the_label_location_holds() {
    let o = ops();
    let (mut m, _) = AlternativeIndexRead::begin(o.try_alternative_index_reading_strategies_async(1));
    for _ in 0..6 {
        m.step(&o, no_text());
    }
    m.step(&o, AlternativeReply::Block(Err(RustLtfsError::Scsi("locate".to_string()))));
    let mut label = vec![0u8; 2048];
    label[0..4].copy_from_slice(b"LTFS");
    label[8] = 0x40;
    label[9] = 0x42;
    label[10] = 0x0f;
    assert_eq!(
        alt_cmd(m.step(&o, AlternativeReply::Block(Ok(label)))),
        AlternativeCommand::ReadToFileMarkAt(1, 1000000, 65536)
    );
    match m.step(&o, AlternativeReply::Text(Ok("whatever was read".to_string()))) {
        AlternativeStep::Finished(Ok(x)) => assert_eq!(x, "whatever was read"),
        _ => panic!("expected the text"),
    }
    let mut short = vec![0u8; 10];
    short[6..10].copy_from_slice(b"LTFS");
    assert!(!is_label_block_parsable(&short));
}
