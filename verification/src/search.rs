use vstd::prelude::*;
use crate::error::RustLtfsError;
use crate::label::{
    find_ltfs_signature, has_prefix_at, label_area_len, label_index_location, ltfs_signature_at, ltfs_tag, vol1_tag,
    IndexLocation,
};
use crate::index_read::label_block_size;
use crate::ops::{TapeOperations, LTO_BLOCK_SIZE};
use crate::status::looks_like_ltfs_index;
use crate::text::{contains, contains_str, lowercase, str_to_chars, to_lowercase, trim, trim_bounds};

verus! {

/// What makes a text read during a search an index.
#[derive(Debug, Clone, Copy, PartialEq, Eq, Structural)]
pub enum Acceptance {
    /// Both root tags, a directory, more than 200 bytes.
    CompleteIndex,
    /// Both root tags.
    BothRootTags,
    /// Not blank, and both root tags.
    NonBlankBothRootTags,
}

pub open spec fn accepts(a: Acceptance, x: Seq<char>) -> bool {
    match a {
        Acceptance::CompleteIndex => looks_like_ltfs_index(x),
        Acceptance::BothRootTags => contains(x, "<ltfsindex"@) && contains(x, "</ltfsindex>"@),
        Acceptance::NonBlankBothRootTags => trim(x).len() > 0 && contains(x, "<ltfsindex"@) && contains(
            x,
            "</ltfsindex>"@,
        ),
    }
}

fn accepts_exec(a: Acceptance, x: &str) -> (b: bool)
    ensures
        b == accepts(a, x@),
{
    let t = str_to_chars(x);
    match a {
        Acceptance::CompleteIndex => {
            contains_str(&t, "<ltfsindex") && contains_str(&t, "</ltfsindex>") && contains_str(&t, "<directory")
                && x.len() > 200
        },
        Acceptance::BothRootTags => contains_str(&t, "<ltfsindex") && contains_str(&t, "</ltfsindex>"),
        Acceptance::NonBlankBothRootTags => {
            let (s, e) = trim_bounds(&t);
            e > s && contains_str(&t, "<ltfsindex") && contains_str(&t, "</ltfsindex>")
        },
    }
}

/// The next step of a search.
pub enum SearchStep {
    /// Position at this partition and block and read there.
    TryAt(u8, u64),
    /// The index text.
    Found(String),
    /// Every position was tried.
    Exhausted(RustLtfsError),
}

/// A search for an index copy over fixed positions: at each one the caller
/// positions the tape and reads to the file mark; the first text the
/// acceptance admits is the index.
pub struct IndexSearch {
    pub candidates: Vec<(u8, u64)>,
    pub next: usize,
    pub acceptance: Acceptance,
}

impl IndexSearch {
    pub open spec fn valid(&self) -> bool {
        self.next <= self.candidates@.len()
    }

    /// Where to read next, if any position is left.
    pub fn next_position(&self) -> (r: Option<(u8, u64)>)
        requires
            self.valid(),
        ensures
            match r {
                Some(p) => self.next < self.candidates@.len() && p == self.candidates@[self.next as int],
                None => self.next == self.candidates@.len(),
            },
    {
        if self.next < self.candidates.len() {
            Some(self.candidates[self.next])
        } else {
            None
        }
    }

    /// Takes the outcome of positioning and reading at the current position
    /// (an error when either failed): an accepted text ends the search;
    /// otherwise the next position is tried, and after the last one the
    /// search fails.
    pub fn record_attempt(&mut self, outcome: Result<String, RustLtfsError>) -> (r: SearchStep)
        requires
            old(self).valid(),
            old(self).next < old(self).candidates@.len(),
        ensures
            final(self).valid(),
            final(self).candidates@ == old(self).candidates@,
            final(self).acceptance == old(self).acceptance,
            match outcome {
                Ok(x) if accepts(old(self).acceptance, x@) => r matches SearchStep::Found(s) && s@ == x@
                    && final(self).next == old(self).next,
                _ => final(self).next == old(self).next + 1 && if final(self).next < final(self).candidates@.len() {
                    r == SearchStep::TryAt(
                        final(self).candidates@[final(self).next as int].0,
                        final(self).candidates@[final(self).next as int].1,
                    )
                } else {
                    r matches SearchStep::Exhausted(e) && e is LtfsIndex
                },
            },
    {
        if let Ok(x) = outcome {
            if accepts_exec(self.acceptance, x.as_str()) {
                return SearchStep::Found(x);
            }
        }
        assert(self.next < self.candidates.len());
        self.next = self.next + 1;
        if self.next < self.candidates.len() {
            let (p, b) = self.candidates[self.next];
            SearchStep::TryAt(p, b)
        } else {
            SearchStep::Exhausted(RustLtfsError::LtfsIndex("No valid index found at the searched positions".to_owned()))
        }
    }
}

fn positions(partition: u8, blocks: &[u64]) -> (v: Vec<(u8, u64)>)
    ensures
        v@.len() == blocks@.len(),
        forall|i: int| 0 <= i < blocks@.len() ==> #[trigger] v@[i] == (partition, blocks@[i]),
{
    let mut v: Vec<(u8, u64)> = Vec::new();
    let mut i: usize = 0;
    while i < blocks.len()
        invariant
            i <= blocks@.len(),
            v@.len() == i,
            forall|j: int| 0 <= j < i ==> #[trigger] v@[j] == (partition, blocks@[j]),
        decreases blocks@.len() - i,
    {
        v.push((partition, blocks[i]));
        i = i + 1;
    }
    v
}

/// The positions of a search: `blocks` of `partition`, in order.
pub open spec fn search_over(s: IndexSearch, partition: u8, blocks: Seq<u64>, a: Acceptance) -> bool {
    &&& s.next == 0
    &&& s.acceptance == a
    &&& s.candidates@.len() == blocks.len()
    &&& forall|i: int| 0 <= i < blocks.len() ==> #[trigger] s.candidates@[i] == (partition, blocks[i])
}

impl TapeOperations {
    /// The search for index copies in the data partition: blocks 100, 500,
    /// 1000, 5000 and 10000 of partition 1, for a complete index.
    pub fn search_index_copies_in_data_partition(&self) -> (s: IndexSearch)
        ensures
            search_over(s, 1, seq![100u64, 500, 1000, 5000, 10000], Acceptance::CompleteIndex),
    {
        let blocks: [u64; 5] = [100, 500, 1000, 5000, 10000];
        assert(blocks@ == seq![100u64, 500, 1000, 5000, 10000]);
        IndexSearch { candidates: positions(1, &blocks), next: 0, acceptance: Acceptance::CompleteIndex }
    }

    /// The data partition search of the alternative strategies: blocks
    /// 1000, 2000, 5000 and 10000 of partition 1, for both root tags.
    pub fn try_read_from_data_partition(&self) -> (s: IndexSearch)
        ensures
            search_over(s, 1, seq![1000u64, 2000, 5000, 10000], Acceptance::BothRootTags),
    {
        let blocks: [u64; 4] = [1000, 2000, 5000, 10000];
        assert(blocks@ == seq![1000u64, 2000, 5000, 10000]);
        IndexSearch { candidates: positions(1, &blocks), next: 0, acceptance: Acceptance::BothRootTags }
    }

    /// The extended search of a single-partition tape: blocks 50, 200, 500,
    /// 1000 and 2000 of partition 0, for both root tags.
    pub fn try_single_partition_extended_search(&self) -> (s: IndexSearch)
        ensures
            search_over(s, 0, seq![50u64, 200, 500, 1000, 2000], Acceptance::BothRootTags),
    {
        let blocks: [u64; 5] = [50, 200, 500, 1000, 2000];
        assert(blocks@ == seq![50u64, 200, 500, 1000, 2000]);
        IndexSearch { candidates: positions(0, &blocks), next: 0, acceptance: Acceptance::BothRootTags }
    }

    /// The search of the usual index positions of `partition`: blocks 2, 5,
    /// 6, 10, 20 and 100, for a non-blank text with both root tags.
    pub fn common_index_locations(&self, partition: u8) -> (s: IndexSearch)
        ensures
            search_over(s, partition, seq![2u64, 5, 6, 10, 20, 100], Acceptance::NonBlankBothRootTags),
    {
        let blocks: [u64; 6] = [2, 5, 6, 10, 20, 100];
        assert(blocks@ == seq![2u64, 5, 6, 10, 20, 100]);
        IndexSearch { candidates: positions(partition, &blocks), next: 0, acceptance: Acceptance::NonBlankBothRootTags }
    }
}

/// A search backwards from the end of data: 1, 11, 21, ... blocks back
/// (relative to the current position), up to 1000.
pub struct BackwardSearch {
    pub distance: u32,
}

impl BackwardSearch {
    pub fn new() -> (s: Self)
        ensures
            s.distance == 1,
    {
        BackwardSearch { distance: 1 }
    }

    /// The next relative move (blocks back), while within 1000 blocks.
    pub fn next_step_back(&self) -> (r: Option<u32>)
        ensures
            r == if self.distance <= 1000 { Some(self.distance) } else { None::<u32> },
    {
        if self.distance <= 1000 {
            Some(self.distance)
        } else {
            None
        }
    }

    /// Takes the outcome of moving back (`moved`) and reading there: a
    /// complete index ends the search; a failed move ends it unsuccessfully;
    /// otherwise the search goes 10 blocks further.
    pub fn record_attempt(&mut self, moved: bool, read: Result<String, RustLtfsError>) -> (r: SearchStep)
        requires
            old(self).distance <= 1000,
        ensures
            !moved ==> (r matches SearchStep::Exhausted(e) && e is LtfsIndex),
            moved ==> match read {
                Ok(x) if looks_like_ltfs_index(x@) => r matches SearchStep::Found(s) && s@ == x@,
                _ => final(self).distance == old(self).distance + 10 && if final(self).distance <= 1000 {
                    r == SearchStep::TryAt(0, final(self).distance as u64)
                } else {
                    r matches SearchStep::Exhausted(e) && e is LtfsIndex
                },
            },
    {
        if !moved {
            return SearchStep::Exhausted(RustLtfsError::LtfsIndex("No valid index found in data partition".to_owned()));
        }
        if let Ok(x) = read {
            if accepts_exec(Acceptance::CompleteIndex, x.as_str()) {
                return SearchStep::Found(x);
            }
        }
        self.distance = self.distance + 10;
        if self.distance <= 1000 {
            SearchStep::TryAt(0, self.distance as u64)
        } else {
            SearchStep::Exhausted(RustLtfsError::LtfsIndex("No valid index found in data partition".to_owned()))
        }
    }
}

/// Where and how to read an index: partition, first block, block size.
#[derive(Debug, Clone, Copy, PartialEq, Eq)]
pub struct IndexReadPlan {
    pub partition: u8,
    pub block: u64,
    pub block_size: u32,
}

impl TapeOperations {
    /// The read of the index at `location`: partition "a" is 0 and "b" is 1
    /// (in either case), read with the partition label's block size, 64 KiB
    /// without a label.
    pub fn read_index_from_specific_location(&self, location: &IndexLocation) -> (r: Result<IndexReadPlan, RustLtfsError>)
        ensures
            match r {
                Ok(plan) => {
                    &&& ((lowercase(location.partition@) == seq!['a'] && plan.partition == 0) || (lowercase(
                        location.partition@,
                    ) == seq!['b'] && plan.partition == 1))
                    &&& plan.block == location.start_block
                    &&& plan.block_size == match self.partition_label {
                        Some(l) => l.blocksize,
                        None => LTO_BLOCK_SIZE,
                    }
                },
                Err(e) => lowercase(location.partition@) != seq!['a'] && lowercase(location.partition@) != seq!['b']
                    && (e matches RustLtfsError::LtfsIndex(m) && m@ == "Invalid partition: "@ + location.partition@),
            },
    {
        let partition = match crate::label::get_partition_id(location.partition.as_str()) {
            Ok(p) => p,
            Err(e) => {
                return Err(e);
            },
        };
        let block_size = match &self.partition_label {
            Some(l) => l.blocksize,
            None => LTO_BLOCK_SIZE,
        };
        Ok(IndexReadPlan { partition, block: location.start_block, block_size })
    }
}

/// How LTFSCopyGUI reads the index from the end of data.
#[derive(Debug, Clone, Copy, PartialEq, Eq, Structural)]
pub enum EodIndexRoute {
    /// No extra partition: from the end of partition 0.
    SinglePartition,
    /// From the end of the data partition.
    MultiPartition(u8),
}

/// What to do once the file mark number at the end of data is known.
#[derive(Debug, Clone, Copy, PartialEq, Eq, Structural)]
pub enum FileMarkRoute {
    /// Locate file mark 1 of this partition, skip it, read to the next.
    LocateFileMark1(u8),
    /// Space back two file marks, skip one, read to the next.
    BackTwoFileMarks,
    /// Not an LTFS tape.
    NotLtfs,
}

impl TapeOperations {
    /// The route of LTFSCopyGUI's index read: offline a multi-partition
    /// tape is assumed; otherwise byte 3 of the MODE SENSE page 0x11 reply
    /// (`None` when the command failed, and too short a reply, mean 0).
    pub fn read_index_ltfscopygui_method(&self, mode_sense: Option<&[u8]>) -> (r: EodIndexRoute)
        ensures
            r == if self.offline_mode {
                EodIndexRoute::MultiPartition(1)
            } else {
                match mode_sense {
                    Some(d) => if d@.len() >= 4 && d@[3] != 0 {
                        EodIndexRoute::MultiPartition(d@[3])
                    } else {
                        EodIndexRoute::SinglePartition
                    },
                    None => EodIndexRoute::SinglePartition,
                }
            },
    {
        let extra: u8 = if self.offline_mode {
            1
        } else {
            match mode_sense {
                Some(d) => if d.len() >= 4 { d[3] } else { 0 },
                None => 0,
            }
        };
        if extra == 0 {
            EodIndexRoute::SinglePartition
        } else {
            EodIndexRoute::MultiPartition(extra)
        }
    }

    /// Single-partition tape: with more than one file mark before the end
    /// of data, read after file mark 1 of partition 0; otherwise the tape is
    /// not LTFS.
    pub fn read_index_single_partition_ltfscopygui(&self, file_number: u64) -> (r: Result<FileMarkRoute, RustLtfsError>)
        ensures
            file_number <= 1 ==> (r matches Err(e) && e is LtfsIndex),
            file_number > 1 ==> r == Ok::<FileMarkRoute, RustLtfsError>(FileMarkRoute::LocateFileMark1(0)),
    {
        if file_number <= 1 {
            return Err(RustLtfsError::LtfsIndex(
                "Invalid LTFS tape: FileMark number <= 1, this is not a valid LTFS tape".to_owned(),
            ));
        }
        Ok(FileMarkRoute::LocateFileMark1(0))
    }

    /// Multi-partition tape: with more than one file mark before the end of
    /// the data partition, read after its file mark 1; otherwise space back
    /// two file marks.
    pub fn read_index_multi_partition_ltfscopygui(&self, file_number: u64) -> (r: FileMarkRoute)
        ensures
            r == if file_number <= 1 { FileMarkRoute::BackTwoFileMarks } else { FileMarkRoute::LocateFileMark1(1) },
    {
        if file_number <= 1 {
            FileMarkRoute::BackTwoFileMarks
        } else {
            FileMarkRoute::LocateFileMark1(1)
        }
    }
}


/// The next step of the read of the latest index of the data partition.
pub enum LatestIndexStep {
    /// Read the index where the volume label points.
    ReadAt(IndexReadPlan),
    /// Search the usual copy positions of the data partition.
    Search(IndexSearch),
    /// The index text.
    Found(String),
}

impl TapeOperations {
    /// First step: `label_location` is where the volume label points (an
    /// error when it could not be read or parsed).  A readable location is
    /// read; otherwise the copies of the data partition are searched.
    pub fn read_latest_index_from_data_partition(&self, label_location: Result<IndexLocation, RustLtfsError>) -> (r: LatestIndexStep)
        ensures
            match label_location {
                Ok(loc) => match r {
                    LatestIndexStep::ReadAt(plan) => plan.block == loc.start_block,
                    LatestIndexStep::Search(s) => search_over(s, 1, seq![100u64, 500, 1000, 5000, 10000], Acceptance::CompleteIndex)
                        && lowercase(loc.partition@) != seq!['a'] && lowercase(loc.partition@) != seq!['b'],
                    LatestIndexStep::Found(_) => false,
                },
                Err(_) => r matches LatestIndexStep::Search(s) && search_over(
                    s,
                    1,
                    seq![100u64, 500, 1000, 5000, 10000],
                    Acceptance::CompleteIndex,
                ),
            },
    {
        match label_location {
            Ok(loc) => match self.read_index_from_specific_location(&loc) {
                Ok(plan) => LatestIndexStep::ReadAt(plan),
                Err(_) => LatestIndexStep::Search(self.search_index_copies_in_data_partition()),
            },
            Err(_) => LatestIndexStep::Search(self.search_index_copies_in_data_partition()),
        }
    }

    /// Second step, after reading at the label's location: the text read,
    /// or else the search of the copies.
    pub fn latest_index_after_read(&self, read: Result<String, RustLtfsError>) -> (r: LatestIndexStep)
        ensures
            match read {
                Ok(x) => r matches LatestIndexStep::Found(s) && s@ == x@,
                Err(_) => r matches LatestIndexStep::Search(s) && search_over(
                    s,
                    1,
                    seq![100u64, 500, 1000, 5000, 10000],
                    Acceptance::CompleteIndex,
                ),
            },
    {
        match read {
            Ok(x) => LatestIndexStep::Found(x),
            Err(_) => LatestIndexStep::Search(self.search_index_copies_in_data_partition()),
        }
    }
}

impl TapeOperations {
    /// Starts the backward search for the last index from the end of data.
    pub fn search_backward_for_last_index(&self) -> (s: BackwardSearch)
        ensures
            s.distance == 1,
    {
        BackwardSearch::new()
    }
}

/// The alternative routes to the index when the volume label is not
/// usable: the label block (block 1 of partition 0) and the location it
/// gives, then the usual index positions of partition 0, then the data
/// partition (more than one partition) or an extended search.
pub struct AlternativeReadPlan {
    pub label_block: (u8, u64),
    pub common: IndexSearch,
    pub last: IndexSearch,
}

impl TapeOperations {
    /// The alternative routes for a tape of `partition_count` partitions.
    pub fn try_alternative_index_reading_strategies(&self, partition_count: u8) -> (p: AlternativeReadPlan)
        ensures
            p.label_block == (0u8, 1u64),
            search_over(p.common, 0, seq![2u64, 5, 6, 10, 20, 100], Acceptance::NonBlankBothRootTags),
            partition_count > 1 ==> search_over(p.last, 1, seq![1000u64, 2000, 5000, 10000], Acceptance::BothRootTags),
            partition_count <= 1 ==> search_over(p.last, 0, seq![50u64, 200, 500, 1000, 2000], Acceptance::BothRootTags),
    {
        let last = if partition_count > 1 {
            self.try_read_from_data_partition()
        } else {
            self.try_single_partition_extended_search()
        };
        AlternativeReadPlan { label_block: (0, 1), common: self.common_index_locations(0), last }
    }
}

/// The routes of the asynchronous alternative read: the usual index
/// positions of partition 0 first (block 10 leading), then a blank-tape
/// check of block 0 of partition 0, then the label block (block 1 of
/// partition 0) and the location it gives, then the data partition (more
/// than one partition) or an extended search.
pub struct AsyncAlternativeReadPlan {
    pub common: IndexSearch,
    pub blank_check_block: (u8, u64),
    pub label_block: (u8, u64),
    pub last: IndexSearch,
}

impl TapeOperations {
    /// The asynchronous alternative routes for a tape of `partition_count`
    /// partitions.
    pub fn try_alternative_index_reading_strategies_async(&self, partition_count: u8) -> (p: AsyncAlternativeReadPlan)
        ensures
            search_over(p.common, 0, seq![10u64, 2, 5, 6, 20, 100], Acceptance::NonBlankBothRootTags),
            p.blank_check_block == (0u8, 0u64),
            p.label_block == (0u8, 1u64),
            partition_count > 1 ==> search_over(p.last, 1, seq![1000u64, 2000, 5000, 10000], Acceptance::BothRootTags),
            partition_count <= 1 ==> search_over(p.last, 0, seq![50u64, 200, 500, 1000, 2000], Acceptance::BothRootTags),
    {
        let blocks: [u64; 6] = [10, 2, 5, 6, 20, 100];
        assert(blocks@ == seq![10u64, 2, 5, 6, 20, 100]);
        let common = IndexSearch { candidates: positions(0, &blocks), next: 0, acceptance: Acceptance::NonBlankBothRootTags };
        let last = if partition_count > 1 {
            self.try_read_from_data_partition()
        } else {
            self.try_single_partition_extended_search()
        };
        AsyncAlternativeReadPlan { common, blank_check_block: (0, 0), label_block: (0, 1), last }
    }
}

/// A command of the alternative read: position the tape, then read.
#[derive(Debug, Clone, Copy, PartialEq, Eq, Structural)]
pub enum AlternativeCommand {
    /// Locate block `1` of partition `0` and read the index text there,
    /// block by block (`try_read_index_at_current_position_sync`).
    ReadIndexAt(u8, u64),
    /// Locate block `1` of partition `0` and read one 64 KiB block.
    ReadBlockAt(u8, u64),
    /// Locate block `1` of partition `0` and read to the next file mark in
    /// blocks of `2` bytes.
    ReadToFileMarkAt(u8, u64, u32),
}

/// What a command of the alternative read gave: the text read, or the
/// block read (an error when positioning or reading failed).
pub enum AlternativeReply {
    Text(Result<String, RustLtfsError>),
    Block(Result<Vec<u8>, RustLtfsError>),
}

/// Where the alternative read stands.
#[derive(Debug, Clone, Copy, PartialEq, Eq, Structural)]
pub enum AlternativeStage {
    /// Searching the usual index positions of partition 0.
    Common,
    /// Reading block 0 of partition 0 to refuse a blank tape.
    BlankCheck,
    /// Reading the label block (block 1 of partition 0).
    LabelBlock,
    /// Reading the index at the location the label block gave.
    LabelLocation,
    /// Searching the data partition, or the extended positions.
    Last,
    Finished,
}

/// The next move of the alternative read.
pub enum AlternativeStep {
    /// Carry out this command and hand its outcome back.
    Command(AlternativeCommand),
    /// The index text, or why none was found.
    Finished(Result<String, RustLtfsError>),
}

/// The alternative read of the index: the routes of an
/// `AsyncAlternativeReadPlan` tried in turn; the first text a route admits
/// is the index.
pub struct AlternativeIndexRead {
    pub plan: AsyncAlternativeReadPlan,
    pub stage: AlternativeStage,
    pub location: IndexReadPlan,
}

/// The partition that a label's partition name stands for.
pub open spec fn partition_number(name: Seq<char>) -> Option<u8> {
    if lowercase(name) == seq!['a'] {
        Some(0u8)
    } else if lowercase(name) == seq!['b'] {
        Some(1u8)
    } else {
        None
    }
}

/// A label block that the location parse can take: where it holds "LTFS",
/// at least 8 bytes follow from there.
pub open spec fn label_block_parsable(b: Seq<u8>) -> bool {
    ltfs_signature_at(b) >= 0 ==> label_area_len(b, ltfs_signature_at(b)) >= 8
}

/// Whether `b` is a label block that the location parse can take.
pub fn is_label_block_parsable(b: &[u8]) -> (r: bool)
    ensures
        r == label_block_parsable(b@),
{
    match find_ltfs_signature(b) {
        Some(p) => b.len() - p >= 8,
        None => true,
    }
}

impl AlternativeIndexRead {
    pub open spec fn wf(&self) -> bool {
        &&& self.plan.common.valid()
        &&& self.plan.last.valid()
        &&& self.plan.last.candidates@.len() > 0
        &&& self.stage == AlternativeStage::Common ==> self.plan.common.next < self.plan.common.candidates@.len()
        &&& self.stage == AlternativeStage::Last ==> self.plan.last.next < self.plan.last.candidates@.len()
        &&& (self.stage != AlternativeStage::Last && self.stage != AlternativeStage::Finished) ==> self.plan.last.next == 0
    }

    /// The command the read waits on.
    pub open spec fn pending(&self) -> AlternativeCommand {
        match self.stage {
            AlternativeStage::Common => AlternativeCommand::ReadIndexAt(
                self.plan.common.candidates@[self.plan.common.next as int].0,
                self.plan.common.candidates@[self.plan.common.next as int].1,
            ),
            AlternativeStage::BlankCheck => AlternativeCommand::ReadBlockAt(0, 0),
            AlternativeStage::LabelBlock => AlternativeCommand::ReadBlockAt(0, 1),
            AlternativeStage::LabelLocation => AlternativeCommand::ReadToFileMarkAt(
                self.location.partition,
                self.location.block,
                self.location.block_size,
            ),
            _ => AlternativeCommand::ReadIndexAt(
                self.plan.last.candidates@[self.plan.last.next as int].0,
                self.plan.last.candidates@[self.plan.last.next as int].1,
            ),
        }
    }

    /// The reply the read waits for fits `r`.
    pub open spec fn accepts(&self, r: AlternativeReply) -> bool {
        &&& self.wf()
        &&& match self.stage {
            AlternativeStage::BlankCheck => r is Block,
            AlternativeStage::LabelBlock => r matches AlternativeReply::Block(b) && (b matches Ok(x) ==> label_block_parsable(x@)),
            AlternativeStage::Finished => false,
            _ => r is Text,
        }
    }

    /// The read goes on to the last search, at its first position.
    pub open spec fn to_last(&self, next: Self, r: AlternativeStep) -> bool {
        &&& next.stage == AlternativeStage::Last
        &&& next.plan.last.next == 0
        &&& r == AlternativeStep::Command(AlternativeCommand::ReadIndexAt(
            self.plan.last.candidates@[0].0,
            self.plan.last.candidates@[0].1,
        ))
    }

    /// Starts the alternative read along `plan`; its first command is the
    /// first of the usual positions.
    pub fn begin(plan: AsyncAlternativeReadPlan) -> (r: (AlternativeIndexRead, AlternativeCommand))
        requires
            plan.common.valid(),
            plan.common.next < plan.common.candidates@.len(),
            plan.last.next == 0,
            plan.last.candidates@.len() > 0,
        ensures
            r.0.plan == plan,
            r.0.stage == AlternativeStage::Common,
            r.0.wf(),
            r.1 == r.0.pending(),
    {
        let (p, b) = plan.common.candidates[plan.common.next];
        let read = AlternativeIndexRead {
            plan,
            stage: AlternativeStage::Common,
            location: IndexReadPlan { partition: 0, block: 0, block_size: 0 },
        };
        (read, AlternativeCommand::ReadIndexAt(p, b))
    }

    fn go_to_last(&mut self) -> (r: AlternativeStep)
        requires
            old(self).plan.last.candidates@.len() > 0,
            old(self).plan.last.next == 0,
            old(self).plan.common.valid(),
            old(self).plan.last.valid(),
        ensures
            old(self).to_last(*final(self), r),
            final(self).plan == old(self).plan,
            final(self).wf(),
    {
        self.stage = AlternativeStage::Last;
        let (p, b) = self.plan.last.candidates[0];
        AlternativeStep::Command(AlternativeCommand::ReadIndexAt(p, b))
    }

    /// Takes the outcome of the pending command.  The usual positions come
    /// first: the first text they admit is the index.  After them a tape
    /// whose block 0 is blank is refused; then the location the label
    /// block gives is read, and what it gives is the index; then the last
    /// search; when it finds nothing, every route failed.
    pub fn step(&mut self, ops: &TapeOperations, reply: AlternativeReply) -> (r: AlternativeStep)
        requires
            old(self).accepts(reply),
        ensures
            r is Finished <==> final(self).stage == AlternativeStage::Finished,
            r is Command ==> final(self).wf() && r == AlternativeStep::Command(final(self).pending()),
            final(self).plan.common.candidates@ == old(self).plan.common.candidates@,
            final(self).plan.common.acceptance == old(self).plan.common.acceptance,
            final(self).plan.last.candidates@ == old(self).plan.last.candidates@,
            final(self).plan.last.acceptance == old(self).plan.last.acceptance,
            match (old(self).stage, reply) {
                (AlternativeStage::Common, AlternativeReply::Text(res)) => match res {
                    Ok(x) if accepts(old(self).plan.common.acceptance, x@) => r matches AlternativeStep::Finished(Ok(s)) && s@ == x@,
                    _ => if old(self).plan.common.next + 1 < old(self).plan.common.candidates@.len() {
                        final(self).stage == AlternativeStage::Common && final(self).plan.common.next == old(self).plan.common.next + 1
                    } else {
                        final(self).stage == AlternativeStage::BlankCheck && r == AlternativeStep::Command(AlternativeCommand::ReadBlockAt(0, 0))
                    },
                },
                (AlternativeStage::BlankCheck, AlternativeReply::Block(res)) => if res matches Ok(b) && blank_prefix(b@) {
                    r matches AlternativeStep::Finished(Err(RustLtfsError::LtfsIndex(m))) && m@ == "Blank tape detected - no LTFS index found"@
                } else {
                    final(self).stage == AlternativeStage::LabelBlock && r == AlternativeStep::Command(AlternativeCommand::ReadBlockAt(0, 1))
                },
                (AlternativeStage::LabelBlock, AlternativeReply::Block(res)) => match res {
                    Ok(b) => match label_index_location(b@) {
                        Some((c, v)) => match partition_number(seq![c]) {
                            Some(p) => final(self).stage == AlternativeStage::LabelLocation
                                && r == AlternativeStep::Command(AlternativeCommand::ReadToFileMarkAt(p, v as u64, label_block_size(*ops))),
                            None => old(self).to_last(*final(self), r),
                        },
                        None => old(self).to_last(*final(self), r),
                    },
                    Err(_) => old(self).to_last(*final(self), r),
                },
                (AlternativeStage::LabelLocation, AlternativeReply::Text(res)) => match res {
                    Ok(s) => r == AlternativeStep::Finished(Ok(s)),
                    Err(_) => old(self).to_last(*final(self), r),
                },
                (AlternativeStage::Last, AlternativeReply::Text(res)) => match res {
                    Ok(x) if accepts(old(self).plan.last.acceptance, x@) => r matches AlternativeStep::Finished(Ok(s)) && s@ == x@,
                    _ => if old(self).plan.last.next + 1 < old(self).plan.last.candidates@.len() {
                        final(self).stage == AlternativeStage::Last && final(self).plan.last.next == old(self).plan.last.next + 1
                    } else {
                        r matches AlternativeStep::Finished(Err(RustLtfsError::LtfsIndex(m))) && m@ == all_strategies_failed_message()
                    },
                },
                _ => false,
            },
    {
        match self.stage {
            AlternativeStage::Common => {
                let res = match reply {
                    AlternativeReply::Text(t) => t,
                    AlternativeReply::Block(_) => {
                        return AlternativeStep::Finished(Ok(String::new()));
                    },
                };
                match self.plan.common.record_attempt(res) {
                    SearchStep::Found(s) => {
                        self.stage = AlternativeStage::Finished;
                        AlternativeStep::Finished(Ok(s))
                    },
                    SearchStep::TryAt(p, b) => AlternativeStep::Command(AlternativeCommand::ReadIndexAt(p, b)),
                    SearchStep::Exhausted(_) => {
                        self.stage = AlternativeStage::BlankCheck;
                        AlternativeStep::Command(AlternativeCommand::ReadBlockAt(0, 0))
                    },
                }
            },
            AlternativeStage::BlankCheck => {
                if let AlternativeReply::Block(Ok(b)) = &reply {
                    if let Err(e) = blank_tape_check(b.as_slice()) {
                        self.stage = AlternativeStage::Finished;
                        return AlternativeStep::Finished(Err(e));
                    }
                }
                self.stage = AlternativeStage::LabelBlock;
                AlternativeStep::Command(AlternativeCommand::ReadBlockAt(0, 1))
            },
            AlternativeStage::LabelBlock => {
                if let AlternativeReply::Block(Ok(b)) = &reply {
                    if let Ok(loc) = crate::label::parse_index_locations_from_volume_label(b.as_slice()) {
                        if let Ok(plan) = ops.read_index_from_specific_location(&loc) {
                            assert(seq!['a'][0] != seq!['b'][0]);
                            assert(label_index_location(b@) matches Some((c, v)) && plan.block == v as u64
                                && partition_number(seq![c]) == Some(plan.partition));
                            self.location = plan;
                            self.stage = AlternativeStage::LabelLocation;
                            return AlternativeStep::Command(
                                AlternativeCommand::ReadToFileMarkAt(plan.partition, plan.block, plan.block_size),
                            );
                        }
                    }
                }
                self.go_to_last()
            },
            AlternativeStage::LabelLocation => match reply {
                AlternativeReply::Text(Ok(s)) => {
                    self.stage = AlternativeStage::Finished;
                    AlternativeStep::Finished(Ok(s))
                },
                _ => self.go_to_last(),
            },
            _ => {
                let res = match reply {
                    AlternativeReply::Text(t) => t,
                    AlternativeReply::Block(_) => {
                        return AlternativeStep::Finished(Ok(String::new()));
                    },
                };
                match self.plan.last.record_attempt(res) {
                    SearchStep::Found(s) => {
                        self.stage = AlternativeStage::Finished;
                        AlternativeStep::Finished(Ok(s))
                    },
                    SearchStep::TryAt(p, b) => AlternativeStep::Command(AlternativeCommand::ReadIndexAt(p, b)),
                    SearchStep::Exhausted(_) => {
                        self.stage = AlternativeStage::Finished;
                        AlternativeStep::Finished(Err(all_strategies_failed()))
                    },
                }
            },
        }
    }
}

/// The first 4 KiB of the block (all of a shorter one) are zero.
pub open spec fn blank_prefix(b: Seq<u8>) -> bool {
    forall|i: int| 0 <= i < b.len() && i < 4096 ==> b[i] == 0
}

/// Refuses a blank tape: the block read at its start is zero throughout
/// its first 4 KiB.
pub fn blank_tape_check(buffer: &[u8]) -> (r: Result<(), RustLtfsError>)
    ensures
        r is Ok <==> !blank_prefix(buffer@),
        r matches Err(e) ==> (e matches RustLtfsError::LtfsIndex(m) && m@ == "Blank tape detected - no LTFS index found"@),
{
    let n = if buffer.len() < 4096 { buffer.len() } else { 4096 };
    let mut i: usize = 0;
    while i < n
        invariant
            i <= n <= buffer@.len(),
            n == if buffer@.len() < 4096 { buffer@.len() } else { 4096 },
            forall|j: int| 0 <= j < i ==> buffer@[j] == 0,
        decreases n - i,
    {
        if buffer[i] != 0 {
            return Ok(());
        }
        i = i + 1;
    }
    Err(RustLtfsError::LtfsIndex("Blank tape detected - no LTFS index found".to_owned()))
}

/// The message given when every alternative route failed: the likely
/// causes and what to try.
pub open spec fn all_strategies_failed_message() -> Seq<char> {
    "All alternative index reading strategies failed. Possible causes:\n1. Blank or unformatted tape\n2. Corrupted LTFS index\n3. Non-LTFS tape format\n4. Hardware communication issues\n\nSuggestions:\n- Check if tape is properly loaded\n- Try using --skip-index option for file operations\n- Verify tape format with original LTFS tools"@
}

/// The error when every alternative route failed.
pub fn all_strategies_failed() -> (e: RustLtfsError)
    ensures
        e matches RustLtfsError::LtfsIndex(m) && m@ == all_strategies_failed_message(),
{
    RustLtfsError::LtfsIndex(
        "All alternative index reading strategies failed. Possible causes:\n1. Blank or unformatted tape\n2. Corrupted LTFS index\n3. Non-LTFS tape format\n4. Hardware communication issues\n\nSuggestions:\n- Check if tape is properly loaded\n- Try using --skip-index option for file operations\n- Verify tape format with original LTFS tools".to_owned(),
    )
}

/// What the first block of a tape says before its index is read.
#[derive(Debug, Clone, Copy, PartialEq, Eq, Structural)]
pub enum Vol1Check {
    /// An LTFS VOL1 label: read the label block next.
    Valid,
    /// Too short, or not an LTFS VOL1 label: try the alternative routes.
    Alternative,
    /// The first 4 KiB (or all of a shorter block) are zero.
    Blank,
}

/// The check of the first block: fewer than 80 bytes need the alternative
/// routes; zeros throughout the first 4 KiB mean a blank tape; otherwise
/// `VOL1` at 0 and `LTFS` at 24 make an LTFS label.
pub open spec fn vol1_check(b: Seq<u8>) -> Vol1Check {
    if b.len() < 80 {
        Vol1Check::Alternative
    } else if forall|i: int| 0 <= i < b.len() && i < 4096 ==> b[i] == 0 {
        Vol1Check::Blank
    } else if has_prefix_at(b, 0, vol1_tag()) && has_prefix_at(b, 24, ltfs_tag()) {
        Vol1Check::Valid
    } else {
        Vol1Check::Alternative
    }
}

impl TapeOperations {
    /// Checks the first block read from partition 0 (see `vol1_check`); a
    /// blank tape is an error.
    pub fn check_first_block(&self, buffer: &[u8]) -> (r: Result<Vol1Check, RustLtfsError>)
        ensures
            vol1_check(buffer@) is Blank ==> (r matches Err(e) && e is LtfsIndex),
            !(vol1_check(buffer@) is Blank) ==> r == Ok::<Vol1Check, RustLtfsError>(vol1_check(buffer@)),
    {
        if buffer.len() < 80 {
            return Ok(Vol1Check::Alternative);
        }
        let n = if buffer.len() < 4096 { buffer.len() } else { 4096 };
        let mut i: usize = 0;
        let mut blank = true;
        while i < n
            invariant
                i <= n <= buffer@.len(),
                n == if buffer@.len() < 4096 { buffer@.len() } else { 4096 },
                blank == forall|j: int| 0 <= j < i ==> buffer@[j] == 0,
            decreases n - i,
        {
            if buffer[i] != 0 {
                blank = false;
            }
            i = i + 1;
        }
        if blank {
            return Err(RustLtfsError::LtfsIndex("Blank tape detected - no LTFS index found".to_owned()));
        }
        if crate::label::parse_vol1_label(buffer) {
            Ok(Vol1Check::Valid)
        } else {
            Ok(Vol1Check::Alternative)
        }
    }
}

} // verus!
