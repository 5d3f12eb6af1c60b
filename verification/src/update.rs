use vstd::prelude::*;
use crate::timestamp::now_rfc3339;
use crate::error::{error_text, RustLtfsError};
use crate::index::{index_deep, opt_index_deep, File, Location, LtfsIndex};
use crate::ops::{TapeOperations, TapePosition, LTO_BLOCK_SIZE};
use crate::text::{chars_to_string, contains, decimal, decimal_exec, match_at, push_chars, push_str};

verus! {


pub open spec fn file_lines(fs: Seq<File>) -> Seq<char>
    decreases fs.len(),
{
    if fs.len() == 0 {
        seq![]
    } else {
        file_lines(fs.drop_last()) + "    <file><name>"@ + fs.last().name@ + "</name><length>"@ + decimal(
            fs.last().length as nat,
        ) + "</length></file>\n"@
    }
}

/// The short XML form of an index written at time `t`: version 2.4.0, the
/// volume UUID, the creator, the time, and the files of the root directory
/// with their lengths.
pub open spec fn index_xml(i: LtfsIndex, t: Seq<char>) -> Seq<char> {
    "<?xml version=\"1.0\" encoding=\"UTF-8\"?>\n<ltfsindex version=\"2.4.0\">\n"@ + "  <volume>"@
        + i.volumeuuid@ + "</volume>\n"@ + "  <creator>RustLTFS</creator>\n"@ + "  <formattime>"@ + t
        + "</formattime>\n"@ + "  <directory>\n"@ + file_lines(i.root_directory.contents.files@)
        + "  </directory>\n"@ + "</ltfsindex>\n"@
}

/// The line that lists file `f`: its name and its length.
pub open spec fn file_line(f: File) -> Seq<char> {
    "    <file><name>"@ + f.name@ + "</name><length>"@ + decimal(f.length as nat) + "</length></file>\n"@
}

proof fn lemma_contains_in_concat(a: Seq<char>, s: Seq<char>, b: Seq<char>, p: Seq<char>)
    requires
        contains(s, p),
    ensures
        contains(a + s + b, p),
{
    let i = choose|i: int| match_at(s, i, p);
    assert((a + s + b).subrange(a.len() + i, a.len() + i + p.len()) =~= s.subrange(i, i + p.len()));
    assert(match_at(a + s + b, a.len() + i, p));
}

/// Every file of `fs` has its line, with its own length, among the lines.
proof fn lemma_file_lines_list_each(fs: Seq<File>, k: int)
    requires
        0 <= k < fs.len(),
    ensures
        contains(file_lines(fs), file_line(fs[k])),
    decreases fs.len(),
{
    let d = fs.drop_last();
    let l = file_line(fs.last());
    assert(file_lines(fs) =~= file_lines(d) + l);
    if k == fs.len() - 1 {
        assert(file_lines(fs).subrange(file_lines(d).len() as int, (file_lines(d).len() + l.len()) as int) =~= l);
        assert(match_at(file_lines(fs), file_lines(d).len() as int, l));
    } else {
        assert(d[k] == fs[k]);
        lemma_file_lines_list_each(d, k);
        lemma_contains_in_concat(seq![], file_lines(d), l, file_line(fs[k]));
        assert(seq![] + file_lines(d) + l =~= file_lines(fs));
    }
}

/// The serialized index lists every file of the root directory by its
/// name and its length: `<name>` the file's name, `<length>` the decimal
/// of its length field, whatever the time stamp.
pub proof fn law_serialized_index_lists_each_file_length(i: LtfsIndex, t: Seq<char>, k: int)
    requires
        0 <= k < i.root_directory.contents.files@.len(),
    ensures
        contains(
            index_xml(i, t),
            "    <file><name>"@ + i.root_directory.contents.files@[k].name@ + "</name><length>"@ + decimal(
                i.root_directory.contents.files@[k].length as nat,
            ) + "</length></file>\n"@,
        ),
{
    let fs = i.root_directory.contents.files@;
    lemma_file_lines_list_each(fs, k);
    let a = "<?xml version=\"1.0\" encoding=\"UTF-8\"?>\n<ltfsindex version=\"2.4.0\">\n"@ + "  <volume>"@
        + i.volumeuuid@ + "</volume>\n"@ + "  <creator>RustLTFS</creator>\n"@ + "  <formattime>"@ + t
        + "</formattime>\n"@ + "  <directory>\n"@;
    let b = "  </directory>\n"@ + "</ltfsindex>\n"@;
    lemma_contains_in_concat(a, file_lines(fs), b, file_line(fs[k]));
    assert(a + file_lines(fs) + b =~= index_xml(i, t));
}

/// `data` padded with zeros to a whole number of blocks of `block_size`.
pub open spec fn padded(data: Seq<u8>, block_size: nat) -> Seq<u8> {
    let blocks = (data.len() + block_size - 1) / (block_size as int);
    Seq::new((blocks * block_size) as nat, |i: int| if i < data.len() { data[i] } else { 0u8 })
}

/// Where a manual index update writes the index: at the end of the data
/// partition, or from block 4 of the index partition.
#[derive(Debug, Clone, Copy, PartialEq, Eq, Structural)]
pub enum IndexWriteTarget {
    EndOfDataPartition,
    IndexPartitionBlock4,
}

/// A manual index update: where to write, the padded index, how many
/// blocks it takes.  A file mark follows, then a flush.
pub struct IndexWritePlan {
    pub target: IndexWriteTarget,
    pub data: Vec<u8>,
    pub blocks: u32,
}

impl TapeOperations {
    /// The index in its short XML form, stamped with the current time.
    pub fn serialize_ltfs_index(&self, index: &LtfsIndex) -> (r: Result<String, RustLtfsError>)
        ensures
            r matches Ok(s) && exists|t: Seq<char>| s@ == index_xml(*index, t),
            r matches Ok(s) && forall|k: int| 0 <= k < index.root_directory.contents.files@.len() ==> contains(
                s@,
                "    <file><name>"@ + index.root_directory.contents.files@[k].name@ + "</name><length>"@ + decimal(
                    #[trigger] index.root_directory.contents.files@[k].length as nat,
                ) + "</length></file>\n"@,
            ),
    {
        let mut x: Vec<char> = Vec::new();
        push_str(&mut x, "<?xml version=\"1.0\" encoding=\"UTF-8\"?>\n<ltfsindex version=\"2.4.0\">\n");
        push_str(&mut x, "  <volume>");
        push_str(&mut x, index.volumeuuid.as_str());
        push_str(&mut x, "</volume>\n");
        push_str(&mut x, "  <creator>RustLTFS</creator>\n");
        push_str(&mut x, "  <formattime>");
        let t = now_rfc3339();
        push_str(&mut x, t.as_str());
        push_str(&mut x, "</formattime>\n");
        push_str(&mut x, "  <directory>\n");
        let ghost head = x@;
        let ghost fs = index.root_directory.contents.files@;
        assert(fs.take(0) =~= Seq::<File>::empty());
        let mut i: usize = 0;
        while i < index.root_directory.contents.files.len()
            invariant
                i <= fs.len(),
                fs == index.root_directory.contents.files@,
                x@ == head + file_lines(fs.take(i as int)),
            decreases fs.len() - i,
        {
            assert(fs.take(i + 1).drop_last() =~= fs.take(i as int));
            let f = &index.root_directory.contents.files[i];
            let ghost before = x@;
            push_str(&mut x, "    <file><name>");
            push_str(&mut x, f.name.as_str());
            push_str(&mut x, "</name><length>");
            push_chars(&mut x, &decimal_exec(f.length));
            push_str(&mut x, "</length></file>\n");
            assert(x@ =~= head + file_lines(fs.take(i + 1)));
            i = i + 1;
        }
        assert(fs.take(fs.len() as int) =~= fs);
        push_str(&mut x, "  </directory>\n");
        push_str(&mut x, "</ltfsindex>\n");
        assert(x@ =~= index_xml(*index, t@));
        proof {
            assert forall|k: int| 0 <= k < index.root_directory.contents.files@.len() implies contains(
                x@,
                "    <file><name>"@ + index.root_directory.contents.files@[k].name@ + "</name><length>"@ + decimal(
                    #[trigger] index.root_directory.contents.files@[k].length as nat,
                ) + "</length></file>\n"@,
            ) by {
                law_serialized_index_lists_each_file_length(*index, t@, k);
            }
        }
        Ok(chars_to_string(&x))
    }

    /// Checks that the drive answered TEST UNIT READY (`test_unit_ready` is
    /// its outcome).
    pub fn check_device_ready(&mut self, test_unit_ready: Result<Vec<u8>, RustLtfsError>) -> (r: Result<(), RustLtfsError>)
        ensures
            *final(self) == *old(self),
            r is Ok <==> test_unit_ready is Ok,
            r matches Err(e) ==> e is Scsi,
    {
        match test_unit_ready {
            Ok(_) => Ok(()),
            Err(e) => {
                let mut m: Vec<char> = Vec::new();
                push_str(&mut m, "Device not ready: ");
                let t = e.to_text();
                push_str(&mut m, t.as_str());
                Err(RustLtfsError::Scsi(chars_to_string(&m)))
            },
        }
    }
}

/// `data` padded with zeros to whole blocks of `block_size`.
pub fn pad_to_blocks(data: &[u8], block_size: usize) -> (r: Vec<u8>)
    requires
        block_size > 0,
        data@.len() + block_size <= usize::MAX,
        (data@.len() + block_size - 1) / (block_size as int) * block_size <= usize::MAX,
    ensures
        r@ == padded(data@, block_size as nat),
{
    let blocks = (data.len() + block_size - 1) / block_size;
    let total = blocks * block_size;
    let mut r: Vec<u8> = Vec::new();
    let mut i: usize = 0;
    while i < total
        invariant
            i <= total,
            total == (data@.len() + block_size - 1) / (block_size as int) * block_size,
            data@.len() == data.len(),
            r@.len() == i,
            forall|j: int| 0 <= j < i ==> r@[j] == (if j < data@.len() { data@[j] } else { 0u8 }),
        decreases total - i,
    {
        if i < data.len() {
            r.push(data[i]);
        } else {
            r.push(0);
        }
        i = i + 1;
    }
    assert(r@ =~= padded(data@, block_size as nat));
    r
}

impl TapeOperations {
    /// A manual index update: the drive must be ready (`device_ready` is
    /// the outcome of `check_device_ready`) and an index loaded; on a tape
    /// of more than one partition (`partition_count`) the index goes to the
    /// end of the data partition, otherwise from block 4 of partition 0,
    /// padded to 64 KiB blocks.
    pub fn update_index_on_tape_manual_new(&self, device_ready: Result<(), RustLtfsError>, partition_count: u8) -> (r: Result<IndexWritePlan, RustLtfsError>)
        ensures
            match device_ready {
                Err(e) => r == Err::<IndexWritePlan, RustLtfsError>(e),
                Ok(_) => match self.index {
                    None => r matches Err(RustLtfsError::LtfsIndex(m)) && m@ == "No LTFS index loaded - nothing to update"@,
                    Some(i) => match r {
                        Ok(plan) => {
                            &&& plan.target == if partition_count > 1 {
                                IndexWriteTarget::EndOfDataPartition
                            } else {
                                IndexWriteTarget::IndexPartitionBlock4
                            }
                            &&& exists|t: Seq<char>|
                                plan.data@ == padded(vstd::utf8::encode_utf8(index_xml(i, t)), 65536)
                            &&& plan.blocks == ((plan.data@.len() / 65536) as u32)
                        },
                        Err(e) => e is LtfsIndex,
                    },
                },
            },
    {
        if let Err(e) = device_ready {
            return Err(e);
        }
        let index = match &self.index {
            Some(i) => i,
            None => {
                return Err(RustLtfsError::LtfsIndex("No LTFS index loaded - nothing to update".to_owned()));
            },
        };
        let target = if partition_count > 1 {
            IndexWriteTarget::EndOfDataPartition
        } else {
            IndexWriteTarget::IndexPartitionBlock4
        };
        let xml = match self.serialize_ltfs_index(index) {
            Ok(x) => x,
            Err(e) => {
                return Err(e);
            },
        };
        let bytes = xml.as_str().as_bytes();
        let block_size: usize = LTO_BLOCK_SIZE as usize;
        if bytes.len() > usize::MAX - block_size {
            return Err(RustLtfsError::LtfsIndex("Index too large to write".to_owned()));
        }
        let n = bytes.len();
        assert((n + 65536 - 1) / 65536 * 65536 <= n + 65535) by (nonlinear_arith)
            requires
                n >= 0,
        ;
        let data = pad_to_blocks(bytes, block_size);
        let blocks = data.len() / block_size;
        Ok(IndexWritePlan { target, data, blocks: blocks as u32 })
    }
}

/// How an index update of `update_index_on_tape` starts.
pub enum IndexUpdateStart {
    /// Offline: nothing is written, the unindexed byte count is reset.
    Offline,
    /// The index has no changes: nothing to write.
    NotModified,
    /// Write the next generation of the index: the run to drive, whose
    /// first command is READ POSITION.
    Proceed(IndexUpdateRun),
}

/// A command of an index update for the caller to carry out.
#[derive(Debug, Clone, Copy, PartialEq, Eq, Structural)]
pub enum IndexUpdateCommand {
    ReadPosition,
    /// LOCATE to a block of a partition.
    LocateBlock(u8, u64),
    SpaceToEndOfData,
    WriteFileMark,
    /// Serialize the run's index, pad it to whole blocks of the session's
    /// block size and WRITE those blocks.
    WriteIndex,
}

/// The outcome of a command of an index update.
#[derive(Debug, Clone, Copy)]
pub enum IndexUpdateReply {
    Position(TapePosition),
    Done,
    /// The index write: the blocks it needed and the blocks written.
    Written { needed: u32, written: u32 },
}

#[derive(Debug)]
pub enum IndexUpdateProgress {
    Command(IndexUpdateCommand),
    Finished(Result<(), RustLtfsError>),
}

#[derive(Debug, Clone, Copy, PartialEq, Eq, Structural)]
pub enum IndexUpdateStage {
    ReadCurrent,
    LocateData,
    SpaceEod,
    ReadEod,
    MarkBefore,
    ReadIndexPosition,
    WriteIndex,
    MarkAfter,
    ReadFinal,
    Finished,
}

/// An index update in progress: go to the end of data on the data
/// partition, write a file mark, the next generation of the index (located
/// where it is written, pointing back to the loaded index), and a file
/// mark; then the written index becomes the session's index.
pub struct IndexUpdateRun {
    pub stage: IndexUpdateStage,
    /// The index being written: the base until its position is known, then
    /// its next generation.
    pub index: Option<LtfsIndex>,
    /// The index the update started from.
    pub base: Ghost<LtfsIndex>,
    /// Where the loaded index lies, which the next generation points to.
    pub previous: Option<Location>,
    /// The block the next generation is written at.
    pub index_block: u64,
}

/// The index that an update writes: `base` one generation on, stamped
/// `update_time`, located at `start_block` of partition `b`, pointing back
/// to `previous`.
pub open spec fn next_generation(base: LtfsIndex, update_time: Seq<char>, previous: Option<Location>, start_block: u64, r: LtfsIndex) -> bool {
    &&& r.generationnumber == base.generationnumber + 1
    &&& r.updatetime@ == update_time
    &&& r.location.partition@ == seq!['b']
    &&& r.location.startblock == start_block
    &&& r.previousgenerationlocation == match previous {
        Some(l) => Some(l),
        None => base.previousgenerationlocation,
    }
    &&& r.version == base.version
    &&& r.creator == base.creator
    &&& r.volumeuuid == base.volumeuuid
    &&& r.allowpolicyupdate == base.allowpolicyupdate
    &&& r.volumelockstate == base.volumelockstate
    &&& r.highestfileuid == base.highestfileuid
    &&& r.root_directory == base.root_directory
}

/// Where `index` lies, if there is one.
pub open spec fn previous_of(index: Option<LtfsIndex>) -> Option<Location> {
    match index {
        Some(i) => Some(i.location),
        None => None,
    }
}

impl TapeOperations {
    /// Starts an index update: offline the unindexed byte count is reset
    /// and nothing is written; without an open device (`device_open`) the
    /// update is refused; an unmodified index is not written; otherwise
    /// the run that writes the next generation of the last written index
    /// (`schema`, or a new index when there is none) starts.
    pub fn update_index_on_tape(&mut self, device_open: bool) -> (r: Result<IndexUpdateStart, RustLtfsError>)
        requires
            !old(self).offline_mode && device_open && old(self).modified ==> (old(self).schema matches Some(s)
                ==> s.generationnumber < u64::MAX),
        ensures
            old(self).offline_mode ==> (r matches Ok(IndexUpdateStart::Offline))
                && final(self).write_progress.total_bytes_unindexed == 0
                && final(self).write_progress.current_files_processed == old(self).write_progress.current_files_processed
                && final(self).write_progress.current_bytes_processed == old(self).write_progress.current_bytes_processed
                && final(self).index == old(self).index && final(self).modified == old(self).modified,
            !old(self).offline_mode ==> *final(self) == *old(self) && if !device_open {
                r matches Err(e) && e is TapeDevice
            } else if !old(self).modified {
                r matches Ok(IndexUpdateStart::NotModified)
            } else {
                r matches Ok(IndexUpdateStart::Proceed(run)) && run.stage == IndexUpdateStage::ReadCurrent
                    && run.wf() && run.index == Some(run.base@) && run.previous == previous_of(old(self).index)
                    && match old(self).schema {
                    Some(s) => index_deep(run.base@) == index_deep(s),
                    None => run.base@.generationnumber == 1 && run.base@.location.startblock == 0
                        && run.base@.previousgenerationlocation is None,
                }
            },
    {
        if self.offline_mode {
            self.write_progress.total_bytes_unindexed = 0;
            return Ok(IndexUpdateStart::Offline);
        }
        if !device_open {
            return Err(RustLtfsError::TapeDevice("Tape device not initialized".to_owned()));
        }
        if !self.modified {
            return Ok(IndexUpdateStart::NotModified);
        }
        let base = match &self.schema {
            Some(s) => crate::index::clone_index(s),
            None => self.create_new_ltfs_index(),
        };
        let previous = self.previous_generation_location();
        let ghost g = base;
        Ok(IndexUpdateStart::Proceed(IndexUpdateRun {
            stage: IndexUpdateStage::ReadCurrent,
            index: Some(base),
            base: Ghost(g),
            previous,
            index_block: 0,
        }))
    }

    /// Where the index of the loaded generation lies, which the next
    /// generation points back to.
    pub fn previous_generation_location(&self) -> (r: Option<Location>)
        ensures
            r == previous_of(self.index),
    {
        match &self.index {
            Some(i) => Some(i.location.clone()),
            None => None,
        }
    }

    /// Records that `index` was written to tape: it is the loaded index,
    /// the session is unmodified and the progress counters are cleared.
    pub fn complete_index_update(&mut self, index: LtfsIndex)
        ensures
            final(self).index == Some(index),
            !final(self).modified,
            final(self).write_progress.total_bytes_unindexed == 0,
            final(self).write_progress.current_bytes_processed == 0,
            final(self).write_progress.current_files_processed == 0,
            final(self).write_progress.files_written == old(self).write_progress.files_written,
            final(self).write_progress.bytes_written == old(self).write_progress.bytes_written,
            final(self).write_options == old(self).write_options,
            final(self).schema == old(self).schema,
            final(self).partition_label == old(self).partition_label,
    {
        self.index = Some(index);
        self.modified = false;
        self.write_progress.total_bytes_unindexed = 0;
        self.write_progress.current_bytes_processed = 0;
        self.write_progress.current_files_processed = 0;
    }
}

/// The next generation of `base`, written at `start_block` of the data
/// partition after `previous`, stamped with the current time.
pub fn stage_next_generation(base: LtfsIndex, previous: Option<Location>, start_block: u64) -> (r: LtfsIndex)
    requires
        base.generationnumber < u64::MAX,
    ensures
        exists|t: Seq<char>| next_generation(base, t, previous, start_block, r),
{
    let mut idx = base;
    idx.generationnumber = idx.generationnumber + 1;
    idx.updatetime = now_rfc3339();
    let mut b: Vec<char> = Vec::new();
    b.push('b');
    idx.location.partition = chars_to_string(&b);
    match previous {
        Some(l) => {
            idx.previousgenerationlocation = Some(l);
        },
        None => {},
    }
    idx.location.startblock = start_block;
    assert(next_generation(base, idx.updatetime@, previous, start_block, idx));
    idx
}

/// Where to go before spacing to the end of data: block 0 of the data
/// partition, unless the tape is already there.
pub fn data_partition_locate(current: TapePosition) -> (r: Option<(u8, u64)>)
    ensures
        r == (if current.partition == 1 { None } else { Some((1u8, 0u64)) }),
{
    if current.partition != 1 {
        Some((1, 0))
    } else {
        None
    }
}

/// Blocks of `block_size` bytes needed for `len` bytes.
pub open spec fn blocks_for(len: nat, block_size: nat) -> nat {
    ((len + block_size - 1) as nat) / block_size
}

/// Refuses a write that put fewer or more blocks on tape than needed.
pub fn check_blocks_written(expected: u32, written: u32) -> (r: Result<(), RustLtfsError>)
    ensures
        r is Ok <==> expected == written,
        r matches Err(e) ==> e is Scsi,
{
    if expected == written {
        Ok(())
    } else {
        let mut m: Vec<char> = Vec::new();
        push_str(&mut m, "Expected to write ");
        push_chars(&mut m, &decimal_exec(expected as u64));
        push_str(&mut m, " blocks, but wrote ");
        push_chars(&mut m, &decimal_exec(written as u64));
        Err(RustLtfsError::Scsi(chars_to_string(&m)))
    }
}

/// What the volume coherency record of a refreshed index holds.
pub struct VolumeCoherency {
    pub generation: u64,
    pub index_block: u64,
    pub data_block: u64,
    pub volume_uuid: String,
}

/// The start block of the index copy in the data partition: the index's
/// own location unless it is on partition `a`, where the previous
/// generation's is meant; 0 when there is none.
pub open spec fn coherency_data_block(i: LtfsIndex) -> u64 {
    if i.location.partition@ == seq!['a'] {
        match i.previousgenerationlocation {
            Some(l) => l.startblock,
            None => 0,
        }
    } else {
        i.location.startblock
    }
}

impl TapeOperations {
    /// Refreshes the index partition from the index last written to tape
    /// (`schema`): offline nothing happens; without one it fails; the drive
    /// is taken to have no index partition, so the index stays where it
    /// is, becomes the loaded index again, and the session becomes
    /// unmodified.  The volume coherency record is returned.
    pub fn refresh_index_partition(&mut self) -> (r: Result<Option<VolumeCoherency>, RustLtfsError>)
        ensures
            old(self).offline_mode ==> (r matches Ok(None) && *final(self) == *old(self)),
            !old(self).offline_mode ==> match old(self).schema {
                None => (r matches Err(RustLtfsError::LtfsIndex(m)) && m@ == "No index available for refresh"@)
                    && *final(self) == *old(self),
                Some(i) => {
                    &&& (r matches Ok(Some(v)) && v.generation == i.generationnumber
                        && v.index_block == i.location.startblock
                        && v.data_block == coherency_data_block(i)
                        && v.volume_uuid@ == i.volumeuuid@)
                    &&& !final(self).modified
                    &&& final(self).schema == old(self).schema
                    &&& opt_index_deep(final(self).index) == Some(index_deep(i))
                    &&& final(self).write_progress == old(self).write_progress
                    &&& final(self).write_options == old(self).write_options
                    &&& final(self).partition_label == old(self).partition_label
                },
            },
    {
        if self.offline_mode {
            return Ok(None);
        }
        let (v, copy) = match &self.schema {
            None => {
                return Err(RustLtfsError::LtfsIndex("No index available for refresh".to_owned()));
            },
            Some(i) => {
                let a = "a";
                proof {
                    reveal_strlit("a");
                    assert(a@ =~= seq!['a']);
                }
                let on_a = i.location.partition == a.to_owned();
                let data_block = if on_a {
                    match &i.previousgenerationlocation {
                        Some(l) => l.startblock,
                        None => 0,
                    }
                } else {
                    i.location.startblock
                };
                (
                    VolumeCoherency {
                        generation: i.generationnumber,
                        index_block: i.location.startblock,
                        data_block,
                        volume_uuid: i.volumeuuid.clone(),
                    },
                    crate::index::clone_index(i),
                )
            },
        };
        self.index = Some(copy);
        self.modified = false;
        Ok(Some(v))
    }
}


impl IndexUpdateRun {
    /// Before its position is known the run holds the base index, after
    /// that its next generation, located at `index_block`.
    pub open spec fn wf(&self) -> bool {
        match self.stage {
            IndexUpdateStage::ReadCurrent | IndexUpdateStage::LocateData | IndexUpdateStage::SpaceEod
            | IndexUpdateStage::ReadEod | IndexUpdateStage::MarkBefore | IndexUpdateStage::ReadIndexPosition => {
                &&& self.index == Some(self.base@)
                &&& self.base@.generationnumber < u64::MAX
            },
            IndexUpdateStage::WriteIndex | IndexUpdateStage::MarkAfter | IndexUpdateStage::ReadFinal => {
                self.index matches Some(n) && exists|t: Seq<char>|
                    next_generation(self.base@, t, self.previous, self.index_block, n)
            },
            IndexUpdateStage::Finished => true,
        }
    }

    /// The replies each stage takes.
    pub open spec fn accepts(&self, r: Result<IndexUpdateReply, RustLtfsError>) -> bool {
        &&& self.stage != IndexUpdateStage::Finished
        &&& self.wf()
        &&& r matches Ok(x) ==> match self.stage {
            IndexUpdateStage::ReadCurrent | IndexUpdateStage::ReadIndexPosition => x is Position,
            IndexUpdateStage::WriteIndex => x is Written,
            _ => true,
        }
    }

    fn fail(&mut self, e: RustLtfsError) -> (r: IndexUpdateProgress)
        ensures
            final(self).stage == IndexUpdateStage::Finished,
            final(self).base == old(self).base,
            final(self).previous == old(self).previous,
            final(self).index_block == old(self).index_block,
            r matches IndexUpdateProgress::Finished(Err(f)) && f == e,
    {
        self.stage = IndexUpdateStage::Finished;
        IndexUpdateProgress::Finished(Err(e))
    }

    /// Takes the outcome of the last command and gives the next move.  A
    /// failed command ends the update with its error and leaves the session
    /// as it was; so does an index write of fewer or more blocks than
    /// needed.  When the final position has been read, the written index
    /// becomes the session's index (and last written index), the session
    /// is unmodified and the unindexed and current counters are cleared.
    pub fn step(&mut self, ops: &mut TapeOperations, reply: Result<IndexUpdateReply, RustLtfsError>) -> (r: IndexUpdateProgress)
        requires
            old(self).accepts(reply),
        ensures
            final(self).wf(),
            final(self).base == old(self).base,
            final(self).previous == old(self).previous,
            r is Finished <==> final(self).stage == IndexUpdateStage::Finished,
            !(r matches IndexUpdateProgress::Finished(Ok(_))) ==> *final(ops) == *old(ops),
            reply matches Err(e) ==> (r matches IndexUpdateProgress::Finished(Err(f)) && f == e),
            match (old(self).stage, reply) {
                (_, Err(_)) => true,
                (IndexUpdateStage::ReadCurrent, Ok(IndexUpdateReply::Position(p))) => if p.partition != 1 {
                    final(self).stage == IndexUpdateStage::LocateData && (r matches IndexUpdateProgress::Command(c)
                        && c == IndexUpdateCommand::LocateBlock(1, 0))
                } else {
                    final(self).stage == IndexUpdateStage::SpaceEod && (r matches IndexUpdateProgress::Command(c)
                        && c == IndexUpdateCommand::SpaceToEndOfData)
                },
                (IndexUpdateStage::LocateData, Ok(_)) => final(self).stage == IndexUpdateStage::SpaceEod
                    && (r matches IndexUpdateProgress::Command(c) && c == IndexUpdateCommand::SpaceToEndOfData),
                (IndexUpdateStage::SpaceEod, Ok(_)) => final(self).stage == IndexUpdateStage::ReadEod
                    && (r matches IndexUpdateProgress::Command(c) && c == IndexUpdateCommand::ReadPosition),
                (IndexUpdateStage::ReadEod, Ok(_)) => final(self).stage == IndexUpdateStage::MarkBefore
                    && (r matches IndexUpdateProgress::Command(c) && c == IndexUpdateCommand::WriteFileMark),
                (IndexUpdateStage::MarkBefore, Ok(_)) => final(self).stage == IndexUpdateStage::ReadIndexPosition
                    && (r matches IndexUpdateProgress::Command(c) && c == IndexUpdateCommand::ReadPosition),
                (IndexUpdateStage::ReadIndexPosition, Ok(IndexUpdateReply::Position(p))) => {
                    &&& final(self).stage == IndexUpdateStage::WriteIndex
                    &&& final(self).index_block == p.block_number
                    &&& final(self).index matches Some(n) && exists|t: Seq<char>|
                        next_generation(old(self).base@, t, old(self).previous, p.block_number, n)
                    &&& r matches IndexUpdateProgress::Command(c) && c == IndexUpdateCommand::WriteIndex
                },
                (IndexUpdateStage::WriteIndex, Ok(IndexUpdateReply::Written { needed, written })) => if needed
                    == written {
                    final(self).stage == IndexUpdateStage::MarkAfter && (r matches IndexUpdateProgress::Command(c)
                        && c == IndexUpdateCommand::WriteFileMark)
                } else {
                    final(self).stage == IndexUpdateStage::Finished && (r matches IndexUpdateProgress::Finished(
                        Err(RustLtfsError::Scsi(m)),
                    ) && m@ == "Expected to write "@ + decimal(needed as nat) + " blocks for index, but wrote "@
                        + decimal(written as nat))
                },
                (IndexUpdateStage::MarkAfter, Ok(_)) => final(self).stage == IndexUpdateStage::ReadFinal
                    && (r matches IndexUpdateProgress::Command(c) && c == IndexUpdateCommand::ReadPosition),
                (IndexUpdateStage::ReadFinal, Ok(_)) => {
                    &&& final(self).stage == IndexUpdateStage::Finished
                    &&& r matches IndexUpdateProgress::Finished(Ok(_))
                    &&& final(ops).index matches Some(n) && exists|t: Seq<char>|
                        next_generation(old(self).base@, t, old(self).previous, old(self).index_block, n)
                    &&& final(ops).index == old(self).index
                    &&& opt_index_deep(final(ops).schema) == opt_index_deep(final(ops).index)
                    &&& !final(ops).modified
                    &&& final(ops).write_progress.total_bytes_unindexed == 0
                    &&& final(ops).write_progress.current_bytes_processed == 0
                    &&& final(ops).write_progress.current_files_processed == 0
                    &&& final(ops).write_progress.files_written == old(ops).write_progress.files_written
                    &&& final(ops).write_progress.bytes_written == old(ops).write_progress.bytes_written
                    &&& final(ops).write_options == old(ops).write_options
                    &&& final(ops).partition_label == old(ops).partition_label
                },
                _ => false,
            },
    {
        let x = match reply {
            Err(e) => {
                return self.fail(e);
            },
            Ok(x) => x,
        };
        match self.stage {
            IndexUpdateStage::ReadCurrent => {
                let p = match x {
                    IndexUpdateReply::Position(p) => p,
                    _ => {
                        return self.fail(RustLtfsError::Scsi("Unexpected reply".to_owned()));
                    },
                };
                if p.partition != 1 {
                    self.stage = IndexUpdateStage::LocateData;
                    IndexUpdateProgress::Command(IndexUpdateCommand::LocateBlock(1, 0))
                } else {
                    self.stage = IndexUpdateStage::SpaceEod;
                    IndexUpdateProgress::Command(IndexUpdateCommand::SpaceToEndOfData)
                }
            },
            IndexUpdateStage::LocateData => {
                self.stage = IndexUpdateStage::SpaceEod;
                IndexUpdateProgress::Command(IndexUpdateCommand::SpaceToEndOfData)
            },
            IndexUpdateStage::SpaceEod => {
                self.stage = IndexUpdateStage::ReadEod;
                IndexUpdateProgress::Command(IndexUpdateCommand::ReadPosition)
            },
            IndexUpdateStage::ReadEod => {
                self.stage = IndexUpdateStage::MarkBefore;
                IndexUpdateProgress::Command(IndexUpdateCommand::WriteFileMark)
            },
            IndexUpdateStage::MarkBefore => {
                self.stage = IndexUpdateStage::ReadIndexPosition;
                IndexUpdateProgress::Command(IndexUpdateCommand::ReadPosition)
            },
            IndexUpdateStage::ReadIndexPosition => {
                let p = match x {
                    IndexUpdateReply::Position(p) => p,
                    _ => {
                        return self.fail(RustLtfsError::Scsi("Unexpected reply".to_owned()));
                    },
                };
                let base = match self.index.take() {
                    Some(b) => b,
                    None => {
                        return self.fail(RustLtfsError::Scsi("Unexpected reply".to_owned()));
                    },
                };
                let prev = match &self.previous {
                    Some(l) => Some(l.clone()),
                    None => None,
                };
                assert(base == self.base@);
                assert(prev == self.previous);
                let n = stage_next_generation(base, prev, p.block_number);
                self.index = Some(n);
                self.index_block = p.block_number;
                self.stage = IndexUpdateStage::WriteIndex;
                proof {
                    let tt = choose|tt: Seq<char>| next_generation(base, tt, prev, p.block_number, n);
                    assert(next_generation(self.base@, tt, self.previous, self.index_block, n));
                }
                assert(self.wf());
                IndexUpdateProgress::Command(IndexUpdateCommand::WriteIndex)
            },
            IndexUpdateStage::WriteIndex => {
                let (needed, written) = match x {
                    IndexUpdateReply::Written { needed, written } => (needed, written),
                    _ => {
                        return self.fail(RustLtfsError::Scsi("Unexpected reply".to_owned()));
                    },
                };
                if needed != written {
                    let mut m: Vec<char> = Vec::new();
                    push_str(&mut m, "Expected to write ");
                    push_chars(&mut m, &decimal_exec(needed as u64));
                    push_str(&mut m, " blocks for index, but wrote ");
                    push_chars(&mut m, &decimal_exec(written as u64));
                    return self.fail(RustLtfsError::Scsi(chars_to_string(&m)));
                }
                self.stage = IndexUpdateStage::MarkAfter;
                IndexUpdateProgress::Command(IndexUpdateCommand::WriteFileMark)
            },
            IndexUpdateStage::MarkAfter => {
                self.stage = IndexUpdateStage::ReadFinal;
                IndexUpdateProgress::Command(IndexUpdateCommand::ReadPosition)
            },
            IndexUpdateStage::ReadFinal => {
                let n = match self.index.take() {
                    Some(n) => n,
                    None => {
                        return self.fail(RustLtfsError::Scsi("Unexpected reply".to_owned()));
                    },
                };
                let ghost nn = n;
                assert(exists|t: Seq<char>| next_generation(self.base@, t, self.previous, self.index_block, nn));
                self.stage = IndexUpdateStage::Finished;
                ops.schema = Some(crate::index::clone_index(&n));
                ops.complete_index_update(n);
                IndexUpdateProgress::Finished(Ok(()))
            },
            IndexUpdateStage::Finished => self.fail(RustLtfsError::Scsi("Unexpected reply".to_owned())),
        }
    }
}


/// The session's last written index (`schema`) holds the same data as its
/// loaded index; the functions that change the loaded index and commit it
/// (the enhanced file record, directory creation, a validated read, the
/// updates and the refresh) leave the session so.
pub open spec fn schema_current(ops: TapeOperations) -> bool {
    opt_index_deep(ops.schema) == opt_index_deep(ops.index)
}

/// What an index update commits to tape is the loaded index moved to its
/// next generation: with the last written index current (`schema_current`)
/// and the update started from it (`base`, as `update_index_on_tape`
/// states), the index `n` that the run writes (as its final step states)
/// has the next generation number, lies at `block` of partition `b`, points
/// back to where the loaded index lay, and holds the loaded index's tree
/// and volume.
pub proof fn law_committed_index_is_next_generation_of_loaded(
    loaded: LtfsIndex,
    schema: LtfsIndex,
    base: LtfsIndex,
    t: Seq<char>,
    block: u64,
    n: LtfsIndex,
)
    requires
        index_deep(schema) == index_deep(loaded),
        index_deep(base) == index_deep(schema),
        next_generation(base, t, previous_of(Some(loaded)), block, n),
    ensures
        n.generationnumber == loaded.generationnumber + 1,
        n.location.partition@ == seq!['b'],
        n.location.startblock == block,
        n.previousgenerationlocation == Some(loaded.location),
        crate::index::dir_deep(n.root_directory) == crate::index::dir_deep(loaded.root_directory),
        n.volumeuuid == loaded.volumeuuid,
        n.highestfileuid == loaded.highestfileuid,
{
}

} // verus!
