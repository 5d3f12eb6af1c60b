use vstd::prelude::*;
use crate::error::{error_text, RustLtfsError};
use crate::index::{
    clone_index, index_deep, opt_index_deep, partition_letter, Directory, DirectoryContents, LtfsIndex, Location,
};
use crate::ops::{target_partition, TapeOperations, TapePosition};
use crate::text::{chars_to_string, decimal, decimal_exec, push_chars, push_str};
use crate::timestamp::now_rfc3339;

verus! {

/// A drive command of the index update.
#[derive(Debug, Clone, Copy, PartialEq, Eq, Structural)]
pub enum SyncCommand {
    ReadPosition,
    LocateBlock(u8, u64),
    /// SPACE to the end of data.
    SpaceToEndOfData,
    /// WRITE FILEMARKS, one mark.
    WriteFileMark,
    /// Write the update's index (its `index` as it stands) as XML.
    WriteIndex,
    /// LOCATE to this file mark of this partition.
    LocateToFileMark(u64, u8),
}

pub enum SyncReply {
    Position(TapePosition),
    Done,
}

#[derive(Debug, Clone, Copy, PartialEq, Eq, Structural)]
pub enum SyncStage {
    ReadCurrent,
    LocateData,
    SpaceEod,
    ReadEod,
    MarkBeforeData,
    ReadIndexPosition,
    WriteDataIndex,
    MarkAfterData,
    ReadAfterData,
    LocateIndexPartition,
    ReadLocated,
    MarkIndexPartition,
    ReadWritePosition,
    WriteIndexPartitionIndex,
    MarkAfterIndex,
    ReadAfterIndex,
    Finished,
}

pub enum SyncProgress {
    Command(SyncCommand),
    Finished(Result<(), RustLtfsError>),
}

/// Writes the current index as LTFSCopyGUI's WriteCurrentIndex and
/// RefreshIndexPartition do: at the end of the data partition between two
/// file marks, as the next generation; then, with an index partition, at
/// its third file mark, pointing back to the data partition copy.  Only a
/// completed update changes the session: the written index becomes the
/// loaded one, and the session is unmodified with no unindexed bytes.
pub struct DualPartitionIndexUpdate {
    pub stage: SyncStage,
    /// The index being written (a copy of the loaded one, or a fresh one).
    pub index: Option<LtfsIndex>,
    pub extra_partitions: u8,
    /// The generation and start block of the index the update started from.
    pub base_generation: u64,
    pub base_start_block: u64,
    /// Where the copy on the data partition went.
    pub data_block: u64,
}

/// The header of `i` after the data partition write: the next generation
/// of `base_generation`, on partition "b" at `block`, pointing back to
/// block `base_block` of partition "b" (the partition is set before the
/// back pointer is taken from the location).
pub open spec fn data_copy_header(i: LtfsIndex, base_generation: u64, base_block: u64, block: u64) -> bool {
    &&& i.generationnumber == base_generation + 1
    &&& i.location.partition@ == seq!['b']
    &&& i.location.startblock == block
    &&& i.previousgenerationlocation matches Some(l) && l.partition@ == seq!['b'] && l.startblock == base_block
}

/// `n` holds what `o` holds but for its header (generation, update time,
/// location and back pointer).
pub open spec fn same_body(n: LtfsIndex, o: LtfsIndex) -> bool {
    &&& n.version == o.version
    &&& n.creator == o.creator
    &&& n.volumeuuid == o.volumeuuid
    &&& n.allowpolicyupdate == o.allowpolicyupdate
    &&& n.volumelockstate == o.volumelockstate
    &&& n.highestfileuid == o.highestfileuid
    &&& n.root_directory == o.root_directory
}

/// The header of `i` after the index partition write: on partition "a" at
/// `block`, pointing back to the data partition copy at `data_block`.
pub open spec fn index_copy_header(i: LtfsIndex, base_generation: u64, data_block: u64, block: u64) -> bool {
    &&& i.generationnumber == base_generation + 1
    &&& i.location.partition@ == seq!['a']
    &&& i.location.startblock == block
    &&& i.previousgenerationlocation matches Some(l) && l.partition@ == seq!['b'] && l.startblock == data_block
}

/// After a completed update the written index is also the one last
/// written to tape (`schema`): the two hold the same data.
pub open spec fn schema_follows(ops: TapeOperations, written: Option<LtfsIndex>) -> bool {
    opt_index_deep(ops.schema) == opt_index_deep(written)
}

pub open spec fn position_error_text(p: TapePosition) -> Seq<char> {
    "Current position p"@ + decimal(p.partition as nat) + "b"@ + decimal(p.block_number as nat)
        + " not allowed for index write"@
}

impl DualPartitionIndexUpdate {
    /// The index being written carries the header of the copy it is at:
    /// from the data partition write on, the data copy's; from the index
    /// partition write on, the index copy's.
    pub open spec fn wf(&self) -> bool {
        match self.stage {
            SyncStage::WriteDataIndex | SyncStage::MarkAfterData | SyncStage::ReadAfterData
            | SyncStage::LocateIndexPartition | SyncStage::ReadLocated | SyncStage::MarkIndexPartition
            | SyncStage::ReadWritePosition => self.index matches Some(i) && data_copy_header(
                i,
                self.base_generation,
                self.base_start_block,
                self.data_block,
            ),
            SyncStage::WriteIndexPartitionIndex | SyncStage::MarkAfterIndex | SyncStage::ReadAfterIndex => self.index
                matches Some(i) && index_copy_header(i, self.base_generation, self.data_block, i.location.startblock),
            _ => true,
        }
    }

    pub open spec fn accepts(&self, r: Result<SyncReply, RustLtfsError>) -> bool {
        &&& self.stage != SyncStage::Finished
        &&& self.wf()
        &&& self.index is Some
        &&& self.base_generation < u64::MAX
        &&& r matches Ok(x) ==> match self.stage {
            SyncStage::ReadCurrent | SyncStage::ReadEod | SyncStage::ReadIndexPosition | SyncStage::ReadAfterData
            | SyncStage::ReadLocated | SyncStage::ReadWritePosition | SyncStage::ReadAfterIndex => x is Position,
            _ => x is Done,
        }
    }
}

fn fresh_update_index() -> (i: LtfsIndex)
    ensures
        i.generationnumber == 1,
        i.location.partition@ == seq!['b'],
        i.location.startblock == 0,
        i.previousgenerationlocation is None,
        i.highestfileuid == Some(1u64),
        i.root_directory.name@ == seq!['.'],
        i.root_directory.uid == 1,
        i.root_directory.contents.files@.len() == 0,
        i.root_directory.contents.directories@.len() == 0,
{
    let now = now_rfc3339();
    let mut dot: Vec<char> = Vec::new();
    dot.push('.');
    LtfsIndex {
        version: "2.4.0".to_owned(),
        creator: "RustLTFS".to_owned(),
        volumeuuid: crate::index::new_volume_uuid(),
        generationnumber: 1,
        updatetime: now.clone(),
        location: Location { partition: partition_letter(1), startblock: 0 },
        previousgenerationlocation: None,
        allowpolicyupdate: Some(true),
        volumelockstate: None,
        highestfileuid: Some(1),
        root_directory: Directory {
            name: chars_to_string(&dot),
            uid: 1,
            creation_time: now.clone(),
            change_time: now.clone(),
            modify_time: now.clone(),
            access_time: now.clone(),
            backup_time: now,
            read_only: false,
            contents: DirectoryContents { files: Vec::new(), directories: Vec::new() },
        },
    }
}

impl TapeOperations {
    /// Starts writing the index to tape.  Offline nothing is written and
    /// the unindexed byte count is reset.  The index written is a copy of
    /// the loaded one (a fresh one when none is loaded); without `force_index`
    /// it is written only when there are unindexed bytes or changes.  The
    /// first command reads the position.
    pub fn update_index_on_tape_with_options_dual_partition(&mut self, force_index: bool) -> (r: (DualPartitionIndexUpdate, SyncProgress))
        requires
            old(self).index matches Some(i) ==> i.generationnumber < u64::MAX,
            old(self).index is None ==> (old(self).schema matches Some(s) ==> s.generationnumber < u64::MAX),
        ensures
            old(self).offline_mode ==> r.1 == SyncProgress::Finished(Ok(())) && r.0.stage == SyncStage::Finished
                && final(self).write_progress.total_bytes_unindexed == 0 && final(self).index == old(self).index
                && final(self).modified == old(self).modified
                && final(self).write_progress.current_bytes_processed == old(self).write_progress.current_bytes_processed,
            !old(self).offline_mode ==> *final(self) == *old(self),
            !old(self).offline_mode && !(force_index || old(self).write_progress.total_bytes_unindexed > 0
                || old(self).modified) ==> r.1 == SyncProgress::Finished(Ok(())) && r.0.stage == SyncStage::Finished,
            !old(self).offline_mode && (force_index || old(self).write_progress.total_bytes_unindexed > 0
                || old(self).modified) ==> {
                &&& r.1 == SyncProgress::Command(SyncCommand::ReadPosition)
                &&& r.0.stage == SyncStage::ReadCurrent
                &&& r.0.extra_partitions == old(self).get_extra_partition_count_spec()
                &&& r.0.index matches Some(i) && i.generationnumber == r.0.base_generation
                    && i.location.startblock == r.0.base_start_block
                &&& r.0.base_generation < u64::MAX
                &&& match old(self).index {
                    Some(l) => r.0.index matches Some(i) && index_deep(i) == index_deep(l),
                    None => match old(self).schema {
                        Some(s) => r.0.index matches Some(i) && index_deep(i) == index_deep(s),
                        None => r.0.index matches Some(i) && i.generationnumber == 1 && i.location.startblock == 0,
                    },
                }
            },
    {
        let mut u = DualPartitionIndexUpdate {
            stage: SyncStage::Finished,
            index: None,
            extra_partitions: 0,
            base_generation: 0,
            base_start_block: 0,
            data_block: 0,
        };
        if self.offline_mode {
            self.write_progress.total_bytes_unindexed = 0;
            return (u, SyncProgress::Finished(Ok(())));
        }
        let working = match &self.index {
            Some(i) => clone_index(i),
            None => match &self.schema {
                Some(s) => clone_index(s),
                None => fresh_update_index(),
            },
        };
        if !(force_index || self.write_progress.total_bytes_unindexed > 0 || self.modified) {
            return (u, SyncProgress::Finished(Ok(())));
        }
        u.base_generation = working.generationnumber;
        u.base_start_block = working.location.startblock;
        u.index = Some(working);
        u.extra_partitions = self.get_extra_partition_count();
        u.stage = SyncStage::ReadCurrent;
        (u, SyncProgress::Command(SyncCommand::ReadPosition))
    }
}

impl DualPartitionIndexUpdate {
    fn fail(&mut self, e: RustLtfsError) -> (r: SyncProgress)
        ensures
            final(self).stage == SyncStage::Finished,
            final(self).extra_partitions == old(self).extra_partitions,
            final(self).base_generation == old(self).base_generation,
            final(self).base_start_block == old(self).base_start_block,
            r == SyncProgress::Finished(Err(e)),
    {
        self.stage = SyncStage::Finished;
        SyncProgress::Finished(Err(e))
    }

    fn finish(&mut self, ops: &mut TapeOperations) -> (r: SyncProgress)
        ensures
            final(self).stage == SyncStage::Finished,
            final(self).extra_partitions == old(self).extra_partitions,
            final(self).base_generation == old(self).base_generation,
            final(self).base_start_block == old(self).base_start_block,
            r == SyncProgress::Finished(Ok(())),
            final(ops).index == old(self).index,
            schema_follows(*final(ops), old(self).index),
            !final(ops).modified,
            final(ops).write_progress.total_bytes_unindexed == 0,
            final(ops).write_progress.current_bytes_processed == old(ops).write_progress.current_bytes_processed,
            final(ops).write_progress.current_files_processed == old(ops).write_progress.current_files_processed,
            final(ops).write_options == old(ops).write_options,
            final(ops).partition_label == old(ops).partition_label,
            final(ops).extra_partition_count == old(ops).extra_partition_count,
    {
        self.stage = SyncStage::Finished;
        let written = self.index.take();
        ops.schema = match &written {
            Some(x) => Some(clone_index(x)),
            None => None,
        };
        ops.index = written;
        ops.write_progress.total_bytes_unindexed = 0;
        ops.modified = false;
        SyncProgress::Finished(Ok(()))
    }

    /// Takes the reply to the last command and gives the next move.  A
    /// failed command ends the update with its error and leaves the session
    /// as it was.  With an index partition, the end of data must be on the
    /// data partition (unless the index already is there) and past the
    /// index's start block.
    pub fn step(&mut self, ops: &mut TapeOperations, reply: Result<SyncReply, RustLtfsError>) -> (r: SyncProgress)
        requires
            old(self).accepts(reply),
        ensures
            r is Finished <==> final(self).stage == SyncStage::Finished,
            final(self).extra_partitions == old(self).extra_partitions,
            final(self).base_generation == old(self).base_generation,
            final(self).base_start_block == old(self).base_start_block,
            !(r == SyncProgress::Finished(Ok(()))) ==> *final(ops) == *old(ops),
            r == SyncProgress::Finished(Ok(())) ==> schema_follows(*final(ops), old(self).index),
            reply matches Err(e) ==> r == SyncProgress::Finished(Err(e)),
            final(self).stage != SyncStage::Finished ==> final(self).index is Some && final(self).wf(),
            r is Command && old(self).stage != SyncStage::ReadIndexPosition && old(self).stage
                != SyncStage::ReadWritePosition ==> final(self).index == old(self).index && final(self).data_block
                == old(self).data_block,
            r == SyncProgress::Finished(Ok(())) ==> final(ops).index == old(self).index,
            match (old(self).stage, reply) {
                (SyncStage::ReadCurrent, Ok(SyncReply::Position(p))) => if p.partition != target_partition(
                    1,
                    old(self).extra_partitions,
                ) {
                    final(self).stage == SyncStage::LocateData && r == SyncProgress::Command(
                        SyncCommand::LocateBlock(target_partition(1, old(self).extra_partitions), 0),
                    )
                } else {
                    final(self).stage == SyncStage::SpaceEod && r == SyncProgress::Command(SyncCommand::SpaceToEndOfData)
                },
                (SyncStage::LocateData, Ok(_)) => final(self).stage == SyncStage::SpaceEod && r == SyncProgress::Command(
                    SyncCommand::SpaceToEndOfData,
                ),
                (SyncStage::SpaceEod, Ok(_)) => final(self).stage == SyncStage::ReadEod && r == SyncProgress::Command(
                    SyncCommand::ReadPosition,
                ),
                (SyncStage::ReadEod, Ok(SyncReply::Position(e))) => {
                    let i = old(self).index->0;
                    if old(self).extra_partitions > 0 && i.location.partition@ != seq!['b'] && e.partition
                        != target_partition(1, old(self).extra_partitions) {
                        final(self).stage == SyncStage::Finished && (r matches SyncProgress::Finished(
                            Err(RustLtfsError::TapeDevice(m)),
                        ) && m@ == position_error_text(e))
                    } else if old(self).extra_partitions > 0 && i.location.startblock >= e.block_number {
                        final(self).stage == SyncStage::Finished && (r matches SyncProgress::Finished(Err(f))
                            && f is TapeDevice)
                    } else {
                        final(self).stage == SyncStage::MarkBeforeData && r == SyncProgress::Command(
                            SyncCommand::WriteFileMark,
                        )
                    }
                },
                (SyncStage::MarkBeforeData, Ok(_)) => final(self).stage == SyncStage::ReadIndexPosition && r
                    == SyncProgress::Command(SyncCommand::ReadPosition),
                (SyncStage::ReadIndexPosition, Ok(SyncReply::Position(p))) => {
                    &&& final(self).stage == SyncStage::WriteDataIndex
                    &&& r == SyncProgress::Command(SyncCommand::WriteIndex)
                    &&& final(self).data_block == p.block_number
                    &&& final(self).index matches Some(i) && data_copy_header(
                        i,
                        old(self).base_generation,
                        old(self).base_start_block,
                        p.block_number,
                    ) && same_body(i, old(self).index->0)
                },
                (SyncStage::WriteDataIndex, Ok(_)) => final(self).stage == SyncStage::MarkAfterData && r
                    == SyncProgress::Command(SyncCommand::WriteFileMark),
                (SyncStage::MarkAfterData, Ok(_)) => final(self).stage == SyncStage::ReadAfterData && r
                    == SyncProgress::Command(SyncCommand::ReadPosition),
                (SyncStage::ReadAfterData, Ok(_)) => if old(self).extra_partitions > 0 {
                    final(self).stage == SyncStage::LocateIndexPartition && r == SyncProgress::Command(
                        SyncCommand::LocateToFileMark(3, 0),
                    )
                } else {
                    &&& r == SyncProgress::Finished(Ok(()))
                    &&& final(ops).index matches Some(i) && data_copy_header(
                        i,
                        old(self).base_generation,
                        old(self).base_start_block,
                        old(self).data_block,
                    )
                    &&& !final(ops).modified && final(ops).write_progress.total_bytes_unindexed == 0
                },
                (SyncStage::LocateIndexPartition, Ok(_)) => final(self).stage == SyncStage::ReadLocated && r
                    == SyncProgress::Command(SyncCommand::ReadPosition),
                (SyncStage::ReadLocated, Ok(_)) => final(self).stage == SyncStage::MarkIndexPartition && r
                    == SyncProgress::Command(SyncCommand::WriteFileMark),
                (SyncStage::MarkIndexPartition, Ok(_)) => final(self).stage == SyncStage::ReadWritePosition && r
                    == SyncProgress::Command(SyncCommand::ReadPosition),
                (SyncStage::ReadWritePosition, Ok(SyncReply::Position(p))) => {
                    &&& final(self).stage == SyncStage::WriteIndexPartitionIndex
                    &&& r == SyncProgress::Command(SyncCommand::WriteIndex)
                    &&& final(self).index matches Some(i) && index_copy_header(
                        i,
                        old(self).base_generation,
                        old(self).data_block,
                        p.block_number,
                    ) && same_body(i, old(self).index->0) && i.updatetime == old(self).index->0.updatetime
                    &&& final(self).data_block == old(self).data_block
                },
                (SyncStage::WriteIndexPartitionIndex, Ok(_)) => final(self).stage == SyncStage::MarkAfterIndex && r
                    == SyncProgress::Command(SyncCommand::WriteFileMark),
                (SyncStage::MarkAfterIndex, Ok(_)) => final(self).stage == SyncStage::ReadAfterIndex && r
                    == SyncProgress::Command(SyncCommand::ReadPosition),
                (SyncStage::ReadAfterIndex, Ok(_)) => {
                    &&& r == SyncProgress::Finished(Ok(()))
                    &&& final(ops).index matches Some(i) && index_copy_header(
                        i,
                        old(self).base_generation,
                        old(self).data_block,
                        i.location.startblock,
                    )
                    &&& !final(ops).modified && final(ops).write_progress.total_bytes_unindexed == 0
                },
                (_, Err(_)) => true,
                _ => false,
            },
    {
        let e = match reply {
            Err(e) => {
                return self.fail(e);
            },
            Ok(x) => x,
        };
        match self.stage {
            SyncStage::ReadCurrent => {
                let data_partition: u8 = if self.extra_partitions == 0 { 0 } else { 1 };
                match e {
                    SyncReply::Position(p) => {
                        if p.partition != data_partition {
                            self.stage = SyncStage::LocateData;
                            SyncProgress::Command(SyncCommand::LocateBlock(data_partition, 0))
                        } else {
                            self.stage = SyncStage::SpaceEod;
                            SyncProgress::Command(SyncCommand::SpaceToEndOfData)
                        }
                    },
                    SyncReply::Done => self.fail(RustLtfsError::Scsi("Unexpected reply".to_owned())),
                }
            },
            SyncStage::LocateData => {
                self.stage = SyncStage::SpaceEod;
                SyncProgress::Command(SyncCommand::SpaceToEndOfData)
            },
            SyncStage::SpaceEod => {
                self.stage = SyncStage::ReadEod;
                SyncProgress::Command(SyncCommand::ReadPosition)
            },
            SyncStage::ReadEod => {
                let p = match e {
                    SyncReply::Position(p) => p,
                    SyncReply::Done => {
                        return self.fail(RustLtfsError::Scsi("Unexpected reply".to_owned()));
                    },
                };
                let data_partition: u8 = if self.extra_partitions == 0 { 0 } else { 1 };
                let (on_b, start) = match &self.index {
                    Some(i) => {
                        let b = "b";
                        proof {
                            reveal_strlit("b");
                            assert(b@ =~= seq!['b']);
                        }
                        (i.location.partition == b.to_owned(), i.location.startblock)
                    },
                    None => (true, 0),
                };
                if self.extra_partitions > 0 && !on_b && p.partition != data_partition {
                    let mut m: Vec<char> = Vec::new();
                    push_str(&mut m, "Current position p");
                    push_chars(&mut m, &decimal_exec(p.partition as u64));
                    push_str(&mut m, "b");
                    push_chars(&mut m, &decimal_exec(p.block_number));
                    push_str(&mut m, " not allowed for index write");
                    return self.fail(RustLtfsError::TapeDevice(chars_to_string(&m)));
                }
                if self.extra_partitions > 0 && start >= p.block_number {
                    let mut m: Vec<char> = Vec::new();
                    push_str(&mut m, "Current position p");
                    push_chars(&mut m, &decimal_exec(p.partition as u64));
                    push_str(&mut m, "b");
                    push_chars(&mut m, &decimal_exec(p.block_number));
                    push_str(&mut m, " not allowed for index write, index at startblock ");
                    push_chars(&mut m, &decimal_exec(start));
                    return self.fail(RustLtfsError::TapeDevice(chars_to_string(&m)));
                }
                self.stage = SyncStage::MarkBeforeData;
                SyncProgress::Command(SyncCommand::WriteFileMark)
            },
            SyncStage::MarkBeforeData => {
                self.stage = SyncStage::ReadIndexPosition;
                SyncProgress::Command(SyncCommand::ReadPosition)
            },
            SyncStage::ReadIndexPosition => {
                let p = match e {
                    SyncReply::Position(p) => p,
                    SyncReply::Done => {
                        return self.fail(RustLtfsError::Scsi("Unexpected reply".to_owned()));
                    },
                };
                let mut i = match self.index.take() {
                    Some(i) => i,
                    None => {
                        return self.fail(RustLtfsError::Scsi("Unexpected reply".to_owned()));
                    },
                };
                i.generationnumber = self.base_generation + 1;
                i.updatetime = now_rfc3339();
                i.location.partition = partition_letter(1);
                i.previousgenerationlocation = Some(
                    Location { partition: partition_letter(1), startblock: self.base_start_block },
                );
                i.location.startblock = p.block_number;
                self.index = Some(i);
                self.data_block = p.block_number;
                self.stage = SyncStage::WriteDataIndex;
                SyncProgress::Command(SyncCommand::WriteIndex)
            },
            SyncStage::WriteDataIndex => {
                self.stage = SyncStage::MarkAfterData;
                SyncProgress::Command(SyncCommand::WriteFileMark)
            },
            SyncStage::MarkAfterData => {
                self.stage = SyncStage::ReadAfterData;
                SyncProgress::Command(SyncCommand::ReadPosition)
            },
            SyncStage::ReadAfterData => {
                if self.extra_partitions > 0 {
                    self.stage = SyncStage::LocateIndexPartition;
                    SyncProgress::Command(SyncCommand::LocateToFileMark(3, 0))
                } else {
                    self.finish(ops)
                }
            },
            SyncStage::LocateIndexPartition => {
                self.stage = SyncStage::ReadLocated;
                SyncProgress::Command(SyncCommand::ReadPosition)
            },
            SyncStage::ReadLocated => {
                self.stage = SyncStage::MarkIndexPartition;
                SyncProgress::Command(SyncCommand::WriteFileMark)
            },
            SyncStage::MarkIndexPartition => {
                self.stage = SyncStage::ReadWritePosition;
                SyncProgress::Command(SyncCommand::ReadPosition)
            },
            SyncStage::ReadWritePosition => {
                let p = match e {
                    SyncReply::Position(p) => p,
                    SyncReply::Done => {
                        return self.fail(RustLtfsError::Scsi("Unexpected reply".to_owned()));
                    },
                };
                let mut i = match self.index.take() {
                    Some(i) => i,
                    None => {
                        return self.fail(RustLtfsError::Scsi("Unexpected reply".to_owned()));
                    },
                };
                let b = "b";
                proof {
                    reveal_strlit("b");
                    assert(b@ =~= seq!['b']);
                }
                if i.location.partition == b.to_owned() {
                    i.previousgenerationlocation = Some(
                        Location { partition: i.location.partition.clone(), startblock: i.location.startblock },
                    );
                }
                i.location.startblock = p.block_number;
                i.location.partition = partition_letter(0);
                self.index = Some(i);
                self.stage = SyncStage::WriteIndexPartitionIndex;
                SyncProgress::Command(SyncCommand::WriteIndex)
            },
            SyncStage::WriteIndexPartitionIndex => {
                self.stage = SyncStage::MarkAfterIndex;
                SyncProgress::Command(SyncCommand::WriteFileMark)
            },
            SyncStage::MarkAfterIndex => {
                self.stage = SyncStage::ReadAfterIndex;
                SyncProgress::Command(SyncCommand::ReadPosition)
            },
            SyncStage::ReadAfterIndex => self.finish(ops),
            SyncStage::Finished => self.fail(RustLtfsError::Scsi("Unexpected reply".to_owned())),
        }
    }
}

/// Writes an index's XML in blocks of the session's block size, each
/// padded with zeros.
pub struct XmlBlockWrite {
    pub data: Vec<u8>,
    /// Where the next block starts.
    pub offset: usize,
    /// Where the last block handed out started.
    pub sent_offset: usize,
    pub block_size: usize,
    pub finished: bool,
}

/// The block written from `offset`: what is left of `d`, at most one
/// block, padded with zeros to the block size.
pub open spec fn xml_block(d: Seq<u8>, offset: int, bs: int) -> Seq<u8> {
    Seq::new(bs as nat, |i: int| if offset + i < d.len() { d[offset + i] } else { 0u8 })
}

pub open spec fn chunk_len(d: Seq<u8>, offset: int, bs: int) -> int {
    if d.len() - offset < bs { d.len() - offset } else { bs }
}

pub enum XmlWriteProgress {
    /// WRITE this one block.
    WriteBlock(Vec<u8>),
    Finished(Result<(), RustLtfsError>),
}

impl TapeOperations {
    /// Starts writing `xml` in blocks of the session's block size.
    pub fn write_xml_to_tape(&self, xml: &str) -> (w: XmlBlockWrite)
        requires
            self.block_size > 0,
        ensures
            w.data@ == vstd::utf8::encode_utf8(xml@),
            w.offset == 0,
            w.block_size == self.block_size,
            !w.finished,
    {
        let b = xml.as_bytes();
        let mut data: Vec<u8> = Vec::new();
        let mut i: usize = 0;
        while i < b.len()
            invariant
                i <= b@.len(),
                data@ == b@.take(i as int),
            decreases b@.len() - i,
        {
            data.push(b[i]);
            i = i + 1;
        }
        assert(data@ =~= b@);
        XmlBlockWrite { data, offset: 0, sent_offset: 0, block_size: self.block_size as usize, finished: false }
    }
}

impl XmlBlockWrite {
    pub open spec fn valid(&self) -> bool {
        self.offset <= self.data@.len() && self.block_size > 0
    }

    /// The next block to write, or the end of the write.  `last` is the
    /// outcome of the previous block's write (`Ok` at the start); a failed
    /// write ends it with an error naming that block's offset.
    pub fn next(&mut self, last: Result<(), RustLtfsError>) -> (r: XmlWriteProgress)
        requires
            old(self).valid(),
            !old(self).finished,
        ensures
            final(self).valid(),
            final(self).data == old(self).data,
            final(self).block_size == old(self).block_size,
            match last {
                Err(e) => final(self).finished && (r matches XmlWriteProgress::Finished(Err(RustLtfsError::TapeDevice(m)))
                    && m@ == "Failed to write XML block at offset "@ + decimal(old(self).sent_offset as nat) + ": "@ + error_text(e)),
                Ok(_) => if old(self).offset < old(self).data@.len() {
                    !final(self).finished && (r matches XmlWriteProgress::WriteBlock(b) && b@ == xml_block(
                        old(self).data@,
                        old(self).offset as int,
                        old(self).block_size as int,
                    )) && final(self).sent_offset == old(self).offset && final(self).offset == old(self).offset + chunk_len(
                        old(self).data@,
                        old(self).offset as int,
                        old(self).block_size as int,
                    )
                } else {
                    final(self).finished && r == XmlWriteProgress::Finished(Ok(()))
                },
            },
    {
        if let Err(e) = last {
            self.finished = true;
            let mut m: Vec<char> = Vec::new();
            push_str(&mut m, "Failed to write XML block at offset ");
            push_chars(&mut m, &decimal_exec(self.sent_offset as u64));
            push_str(&mut m, ": ");
            let t = e.to_text();
            push_str(&mut m, t.as_str());
            return XmlWriteProgress::Finished(Err(RustLtfsError::TapeDevice(chars_to_string(&m))));
        }
        if self.offset >= self.data.len() {
            self.finished = true;
            return XmlWriteProgress::Finished(Ok(()));
        }
        let remaining = self.data.len() - self.offset;
        let chunk = if remaining < self.block_size { remaining } else { self.block_size };
        let off = self.offset;
        let bs = self.block_size;
        let data = &self.data;
        let dlen = data.len();
        let mut block: Vec<u8> = Vec::new();
        let mut i: usize = 0;
        while i < bs
            invariant
                i <= bs,
                dlen == data@.len(),
                off + chunk <= data@.len(),
                chunk == chunk_len(data@, off as int, bs as int),
                block@.len() == i,
                forall|j: int| 0 <= j < i ==> block@[j] == (if off + j < data@.len() {
                    data@[off + j]
                } else {
                    0u8
                }),
            decreases bs - i,
        {
            if i < chunk {
                block.push(data[off + i]);
            } else {
                block.push(0);
            }
            i = i + 1;
        }
        assert(block@ =~= xml_block(self.data@, self.offset as int, self.block_size as int));
        self.sent_offset = self.offset;
        self.offset = self.offset + chunk;
        XmlWriteProgress::WriteBlock(block)
    }
}

} // verus!
