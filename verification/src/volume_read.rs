use vstd::prelude::*;
use crate::error::{error_text, RustLtfsError};
use crate::index_read::{TapeCommand, TapeReply};
use crate::label::{label_area_len, label_index_location, ltfs_signature_at};
use crate::ops::{TapeOperations, LTO_BLOCK_SIZE};
use crate::search::{vol1_check, IndexReadPlan, Vol1Check};
use crate::text::{chars_to_string, lowercase, push_str};

verus! {

/// An outside step of the read of the index named by the volume label.
pub enum VolumeReadCommand {
    /// TEST UNIT READY.
    TestUnitReady,
    /// Count the partitions of the tape (`detect_partition_count`).
    DetectPartitionCount,
    /// A drive command.
    Tape(TapeCommand),
    /// Read the index this plan names.
    ReadIndexAt(IndexReadPlan),
}

pub enum VolumeReadReply {
    /// TEST UNIT READY succeeded.
    Ready,
    /// The number of partitions.
    PartitionCount(u8),
    /// The reply to a drive command.
    Tape(TapeReply),
    /// The index text read.
    Index(String),
}

/// How the read ended when it did not fail.
pub enum VolumeReadOutcome {
    /// The index text.
    Index(String),
    /// The first block is no LTFS VOL1 label: the alternative routes are
    /// to be tried on a tape of this many partitions.
    Alternative(u8),
}

pub enum VolumeReadProgress {
    Command(VolumeReadCommand),
    Finished(Result<VolumeReadOutcome, RustLtfsError>),
}

#[derive(Debug, Clone, Copy, PartialEq, Eq, Structural)]
pub enum VolumeReadStage {
    Ready,
    Partitions,
    LocateVol1,
    ReadVol1,
    ReadVol1Small,
    LocateLabel,
    ReadLabel,
    ReadIndex,
    Finished,
}

/// Reads the index the way `read_index_from_tape_new` does: the drive
/// must be ready; the first block of partition 0 is read (512 KiB, or 80
/// bytes when that fails); a blank tape is an error, a block that is no
/// LTFS VOL1 label sends the caller to the alternative routes; otherwise
/// the LTFS label in block 1 names where the index is read.
pub struct VolumeIndexRead {
    pub stage: VolumeReadStage,
    pub partition_count: u8,
}

/// What the first-block check leads to.
pub open spec fn after_vol1(b: Seq<u8>, n: VolumeIndexRead, count: u8, r: VolumeReadProgress) -> bool {
    match vol1_check(b) {
        Vol1Check::Blank => n.stage == VolumeReadStage::Finished && (r matches VolumeReadProgress::Finished(Err(e))
            && e is LtfsIndex),
        Vol1Check::Alternative => n.stage == VolumeReadStage::Finished && (r matches VolumeReadProgress::Finished(
            Ok(VolumeReadOutcome::Alternative(c)),
        ) && c == count),
        Vol1Check::Valid => n.stage == VolumeReadStage::LocateLabel && (r matches VolumeReadProgress::Command(
            VolumeReadCommand::Tape(TapeCommand::LocateBlock(0, 1)),
        )),
    }
}

impl VolumeIndexRead {
    pub open spec fn accepts(&self, r: Result<VolumeReadReply, RustLtfsError>) -> bool {
        match self.stage {
            VolumeReadStage::Ready => r matches Ok(x) ==> x is Ready,
            VolumeReadStage::Partitions => r matches Ok(x) ==> x is PartitionCount,
            VolumeReadStage::LocateVol1 => r matches Ok(x) ==> x matches VolumeReadReply::Tape(TapeReply::Done),
            VolumeReadStage::ReadVol1 => r matches Ok(x) ==> x matches VolumeReadReply::Tape(TapeReply::Bytes(_)),
            VolumeReadStage::ReadVol1Small => r matches Ok(x) ==> x matches VolumeReadReply::Tape(TapeReply::Bytes(_)),
            VolumeReadStage::LocateLabel => r matches Ok(x) ==> x matches VolumeReadReply::Tape(TapeReply::Done),
            VolumeReadStage::ReadLabel => r matches Ok(x) ==> (x matches VolumeReadReply::Tape(TapeReply::Bytes(b))
                && (ltfs_signature_at(b@) >= 0 ==> label_area_len(b@, ltfs_signature_at(b@)) >= 8)),
            VolumeReadStage::ReadIndex => r matches Ok(x) ==> x is Index,
            VolumeReadStage::Finished => false,
        }
    }
}

impl TapeOperations {
    /// Starts reading the index named by the volume label; the first
    /// command is TEST UNIT READY.
    pub fn read_index_from_tape_new(&self) -> (r: (VolumeIndexRead, VolumeReadProgress))
        ensures
            r.0.stage == VolumeReadStage::Ready,
            r.0.partition_count == 1,
            r.1 matches VolumeReadProgress::Command(VolumeReadCommand::TestUnitReady),
    {
        (
            VolumeIndexRead { stage: VolumeReadStage::Ready, partition_count: 1 },
            VolumeReadProgress::Command(VolumeReadCommand::TestUnitReady),
        )
    }
}

impl VolumeIndexRead {
    fn check_vol1(&mut self, ops: &TapeOperations, b: &[u8]) -> (r: VolumeReadProgress)
        ensures
            final(self).partition_count == old(self).partition_count,
            after_vol1(b@, *final(self), old(self).partition_count, r),
    {
        match ops.check_first_block(b) {
            Err(e) => {
                self.stage = VolumeReadStage::Finished;
                VolumeReadProgress::Finished(Err(e))
            },
            Ok(Vol1Check::Alternative) => {
                self.stage = VolumeReadStage::Finished;
                VolumeReadProgress::Finished(Ok(VolumeReadOutcome::Alternative(self.partition_count)))
            },
            Ok(_) => {
                self.stage = VolumeReadStage::LocateLabel;
                VolumeReadProgress::Command(VolumeReadCommand::Tape(TapeCommand::LocateBlock(0, 1)))
            },
        }
    }

    /// Takes the reply to the last command and gives the next move.  Every
    /// failure ends the read with its error, except that of the first
    /// 512 KiB read, which is retried with 80 bytes; a failed TEST UNIT
    /// READY is reported as the device not being ready.
    pub fn step(&mut self, ops: &mut TapeOperations, reply: Result<VolumeReadReply, RustLtfsError>) -> (r: VolumeReadProgress)
        requires
            old(self).accepts(reply),
        ensures
            *final(ops) == *old(ops),
            r is Finished <==> final(self).stage == VolumeReadStage::Finished,
            match (old(self).stage, reply) {
                (VolumeReadStage::Ready, Err(e)) => final(self).stage == VolumeReadStage::Finished
                    && (r matches VolumeReadProgress::Finished(Err(f)) && f is Scsi),
                (VolumeReadStage::ReadVol1, Err(_)) => final(self).stage == VolumeReadStage::ReadVol1Small
                    && (r matches VolumeReadProgress::Command(VolumeReadCommand::Tape(TapeCommand::ReadBlocks(1, 80)))),
                (VolumeReadStage::ReadVol1Small, Err(e)) => final(self).stage == VolumeReadStage::Finished
                    && (r matches VolumeReadProgress::Finished(Err(RustLtfsError::Scsi(m)))
                    && m@ == "Failed to read VOL1 label: "@ + error_text(e)),
                (_, Err(e)) => final(self).stage == VolumeReadStage::Finished && (r matches VolumeReadProgress::Finished(
                    Err(f),
                ) && f == e),
                (VolumeReadStage::Ready, Ok(_)) => final(self).stage == VolumeReadStage::Partitions
                    && (r matches VolumeReadProgress::Command(VolumeReadCommand::DetectPartitionCount)),
                (VolumeReadStage::Partitions, Ok(VolumeReadReply::PartitionCount(n))) => final(self).partition_count == n
                    && final(self).stage == VolumeReadStage::LocateVol1 && (r matches VolumeReadProgress::Command(
                    VolumeReadCommand::Tape(TapeCommand::LocateBlock(0, 0)),
                )),
                (VolumeReadStage::LocateVol1, Ok(_)) => final(self).stage == VolumeReadStage::ReadVol1
                    && (r matches VolumeReadProgress::Command(VolumeReadCommand::Tape(TapeCommand::ReadBlocks(1, 524288)))),
                (VolumeReadStage::ReadVol1, Ok(VolumeReadReply::Tape(TapeReply::Bytes(b)))) => after_vol1(
                    b@,
                    *final(self),
                    old(self).partition_count,
                    r,
                ),
                (VolumeReadStage::ReadVol1Small, Ok(VolumeReadReply::Tape(TapeReply::Bytes(b)))) => after_vol1(
                    b@,
                    *final(self),
                    old(self).partition_count,
                    r,
                ),
                (VolumeReadStage::LocateLabel, Ok(_)) => final(self).stage == VolumeReadStage::ReadLabel
                    && (r matches VolumeReadProgress::Command(VolumeReadCommand::Tape(TapeCommand::ReadBlocks(1, 65536)))),
                (VolumeReadStage::ReadLabel, Ok(VolumeReadReply::Tape(TapeReply::Bytes(b)))) => match label_index_location(b@) {
                    None => final(self).stage == VolumeReadStage::Finished && (r matches VolumeReadProgress::Finished(Err(e))
                        && e is LtfsIndex),
                    Some((c, v)) => if lowercase(seq![c]) == seq!['a'] || lowercase(seq![c]) == seq!['b'] {
                        final(self).stage == VolumeReadStage::ReadIndex && (r matches VolumeReadProgress::Command(
                            VolumeReadCommand::ReadIndexAt(plan),
                        ) && plan.block as nat == v && plan.partition == (if lowercase(seq![c]) == seq!['a'] {
                            0u8
                        } else {
                            1u8
                        }) && plan.block_size == match old(ops).partition_label {
                            Some(l) => l.blocksize,
                            None => LTO_BLOCK_SIZE,
                        })
                    } else {
                        final(self).stage == VolumeReadStage::Finished && (r matches VolumeReadProgress::Finished(Err(e))
                            && e is LtfsIndex)
                    },
                },
                (VolumeReadStage::ReadIndex, Ok(VolumeReadReply::Index(t))) => final(self).stage
                    == VolumeReadStage::Finished && (r matches VolumeReadProgress::Finished(
                    Ok(VolumeReadOutcome::Index(s)),
                ) && s@ == t@),
                _ => false,
            },
    {
        match reply {
            Err(e) => match self.stage {
                VolumeReadStage::Ready => {
                    self.stage = VolumeReadStage::Finished;
                    match ops.check_device_ready(Err(e)) {
                        Err(f) => VolumeReadProgress::Finished(Err(f)),
                        Ok(()) => VolumeReadProgress::Finished(Err(RustLtfsError::Scsi("Device not ready".to_owned()))),
                    }
                },
                VolumeReadStage::ReadVol1 => {
                    self.stage = VolumeReadStage::ReadVol1Small;
                    VolumeReadProgress::Command(VolumeReadCommand::Tape(TapeCommand::ReadBlocks(1, 80)))
                },
                VolumeReadStage::ReadVol1Small => {
                    self.stage = VolumeReadStage::Finished;
                    let mut m: Vec<char> = Vec::new();
                    push_str(&mut m, "Failed to read VOL1 label: ");
                    let t = e.to_text();
                    push_str(&mut m, t.as_str());
                    VolumeReadProgress::Finished(Err(RustLtfsError::Scsi(chars_to_string(&m))))
                },
                _ => {
                    self.stage = VolumeReadStage::Finished;
                    VolumeReadProgress::Finished(Err(e))
                },
            },
            Ok(x) => match self.stage {
                VolumeReadStage::Ready => {
                    self.stage = VolumeReadStage::Partitions;
                    VolumeReadProgress::Command(VolumeReadCommand::DetectPartitionCount)
                },
                VolumeReadStage::Partitions => match x {
                    VolumeReadReply::PartitionCount(n) => {
                        self.partition_count = n;
                        self.stage = VolumeReadStage::LocateVol1;
                        VolumeReadProgress::Command(VolumeReadCommand::Tape(TapeCommand::LocateBlock(0, 0)))
                    },
                    _ => {
                        self.stage = VolumeReadStage::Finished;
                        VolumeReadProgress::Finished(Err(RustLtfsError::Scsi("Unexpected reply".to_owned())))
                    },
                },
                VolumeReadStage::LocateVol1 => {
                    self.stage = VolumeReadStage::ReadVol1;
                    VolumeReadProgress::Command(VolumeReadCommand::Tape(TapeCommand::ReadBlocks(1, 524288)))
                },
                VolumeReadStage::ReadVol1 | VolumeReadStage::ReadVol1Small => match x {
                    VolumeReadReply::Tape(TapeReply::Bytes(b)) => self.check_vol1(ops, b.as_slice()),
                    _ => {
                        self.stage = VolumeReadStage::Finished;
                        VolumeReadProgress::Finished(Err(RustLtfsError::Scsi("Unexpected reply".to_owned())))
                    },
                },
                VolumeReadStage::LocateLabel => {
                    self.stage = VolumeReadStage::ReadLabel;
                    VolumeReadProgress::Command(VolumeReadCommand::Tape(TapeCommand::ReadBlocks(1, 65536)))
                },
                VolumeReadStage::ReadLabel => match x {
                    VolumeReadReply::Tape(TapeReply::Bytes(b)) => {
                        assert(seq!['a'] != seq!['b']) by {
                            assert(seq!['a'][0] != seq!['b'][0]);
                        }
                        self.stage = VolumeReadStage::Finished;
                        match ops.parse_index_locations_from_volume_label(b.as_slice()) {
                            Err(e) => VolumeReadProgress::Finished(Err(e)),
                            Ok(loc) => match ops.read_index_from_specific_location(&loc) {
                                Err(e) => VolumeReadProgress::Finished(Err(e)),
                                Ok(plan) => {
                                    self.stage = VolumeReadStage::ReadIndex;
                                    VolumeReadProgress::Command(VolumeReadCommand::ReadIndexAt(plan))
                                },
                            },
                        }
                    },
                    _ => {
                        self.stage = VolumeReadStage::Finished;
                        VolumeReadProgress::Finished(Err(RustLtfsError::Scsi("Unexpected reply".to_owned())))
                    },
                },
                VolumeReadStage::ReadIndex => match x {
                    VolumeReadReply::Index(t) => {
                        self.stage = VolumeReadStage::Finished;
                        VolumeReadProgress::Finished(Ok(VolumeReadOutcome::Index(t)))
                    },
                    _ => {
                        self.stage = VolumeReadStage::Finished;
                        VolumeReadProgress::Finished(Err(RustLtfsError::Scsi("Unexpected reply".to_owned())))
                    },
                },
                VolumeReadStage::Finished => VolumeReadProgress::Finished(Err(RustLtfsError::Scsi("Unexpected reply".to_owned()))),
            },
        }
    }
}

} // verus!
