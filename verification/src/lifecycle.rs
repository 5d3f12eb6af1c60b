use vstd::prelude::*;
use crate::error::{error_text, RustLtfsError};
use crate::ops::{LtfsPartitionLabel, OperationType, TapeOperations, TapePosition, LTO_BLOCK_SIZE};
use crate::partition::{normalized_extra_count, MediaType};
use crate::text::{chars_to_string, push_str};

verus! {

/// An outside step of the device initialisation.
#[derive(Debug, Clone, Copy, PartialEq, Eq, Structural)]
pub enum InitCommand {
    /// Open the device.
    OpenDevice,
    /// Wait until the drive is ready (`wait_for_device_ready`).
    WaitForDeviceReady,
    /// Ask which medium is loaded.
    CheckMediaStatus,
    /// MODE SENSE of the partition page.
    ModeSensePartitionInfo,
    /// Load the index from tape (`read_index_from_tape`).
    ReadIndex,
}

pub enum InitReply {
    Done,
    Media(MediaType),
    /// The MODE SENSE data, `None` when the command failed.
    ModeData(Option<Vec<u8>>),
}

#[derive(Debug, Clone, Copy, PartialEq, Eq, Structural)]
pub enum InitStage {
    Open,
    Ready,
    Media,
    Partitions,
    Index,
    Finished,
}

pub enum InitProgress {
    Command(InitCommand),
    Finished(Result<(), RustLtfsError>),
}

/// Prepares the drive for an operation: open, wait until ready, refuse an
/// empty drive, detect the partitions; a space query ends there; a write
/// then tries to load the index (a new one is made when none loads); a read
/// must load it.  Except after a space query, the partition label is reset
/// to the default.
pub struct InitializeRun {
    pub operation: OperationType,
    pub stage: InitStage,
}

/// The partition label is the default one.
pub open spec fn default_label(l: Option<LtfsPartitionLabel>) -> bool {
    l matches Some(x) && x.volume_uuid@.len() == 0 && x.blocksize == LTO_BLOCK_SIZE && !x.compression
        && x.index_partition == 0 && x.data_partition == 1 && x.format_time@.len() == 0
}

impl InitializeRun {
    pub open spec fn accepts(&self, r: Result<InitReply, RustLtfsError>) -> bool {
        match self.stage {
            InitStage::Media => r matches Ok(x) ==> x is Media,
            InitStage::Partitions => r matches Ok(x) ==> (x matches InitReply::ModeData(d) && (d matches Some(v)
                ==> (v@.len() >= 4 ==> v@[3] < 255))),
            InitStage::Finished => false,
            _ => r matches Ok(x) ==> x is Done,
        }
    }
}

impl TapeOperations {
    /// Starts the initialisation for `operation_type` (a write when none
    /// is given); the first command opens the device.
    pub fn initialize(&self, operation_type: Option<OperationType>) -> (r: (InitializeRun, InitCommand))
        ensures
            r.0.operation == match operation_type {
                Some(t) => t,
                None => OperationType::Write,
            },
            r.0.stage == InitStage::Open,
            r.1 == InitCommand::OpenDevice,
    {
        let op = match operation_type {
            Some(t) => t,
            None => OperationType::Write,
        };
        (InitializeRun { operation: op, stage: InitStage::Open }, InitCommand::OpenDevice)
    }
}

impl InitializeRun {
    fn done(&mut self, ops: &mut TapeOperations) -> (r: InitProgress)
        ensures
            final(self).stage == InitStage::Finished,
            final(self).operation == old(self).operation,
            r == InitProgress::Finished(Ok(())),
            default_label(final(ops).partition_label),
            final(ops).index == old(ops).index,
            final(ops).extra_partition_count == old(ops).extra_partition_count,
            final(ops).modified == old(ops).modified,
            final(ops).write_options == old(ops).write_options,
    {
        self.stage = InitStage::Finished;
        ops.partition_label = Some(LtfsPartitionLabel::default());
        InitProgress::Finished(Ok(()))
    }

    /// Takes the reply to the last command and gives the next move.
    pub fn step(&mut self, ops: &mut TapeOperations, reply: Result<InitReply, RustLtfsError>) -> (r: InitProgress)
        requires
            old(self).accepts(reply),
        ensures
            final(self).operation == old(self).operation,
            r is Finished <==> final(self).stage == InitStage::Finished,
            final(ops).index == old(ops).index,
            final(ops).write_options == old(ops).write_options,
            !(old(self).stage == InitStage::Partitions && reply is Ok) && !(r == InitProgress::Finished(Ok(()))
                && old(self).stage == InitStage::Index) ==> *final(ops) == *old(ops),
            match (old(self).stage, reply) {
                (InitStage::Index, Err(e)) => if old(self).operation == OperationType::Read {
                    final(self).stage == InitStage::Finished && (r matches InitProgress::Finished(
                        Err(RustLtfsError::LtfsIndex(m)),
                    ) && m@ == "Index reading failed: "@ + error_text(e))
                } else {
                    r == InitProgress::Finished(Ok(())) && default_label(final(ops).partition_label)
                },
                (_, Err(e)) => final(self).stage == InitStage::Finished && r == InitProgress::Finished(Err(e)),
                (InitStage::Open, Ok(_)) => final(self).stage == InitStage::Ready && r == InitProgress::Command(
                    InitCommand::WaitForDeviceReady,
                ),
                (InitStage::Ready, Ok(_)) => final(self).stage == InitStage::Media && r == InitProgress::Command(
                    InitCommand::CheckMediaStatus,
                ),
                (InitStage::Media, Ok(InitReply::Media(m))) => if m == MediaType::NoTape {
                    final(self).stage == InitStage::Finished && (r matches InitProgress::Finished(
                        Err(RustLtfsError::TapeDevice(msg)),
                    ) && msg@ == "No tape loaded"@)
                } else {
                    final(self).stage == InitStage::Partitions && r == InitProgress::Command(
                        InitCommand::ModeSensePartitionInfo,
                    )
                },
                (InitStage::Partitions, Ok(InitReply::ModeData(d))) => {
                    &&& final(ops).extra_partition_count == Some(match d {
                        Some(v) => if v@.len() >= 4 {
                            normalized_extra_count(v@[3], old(ops).max_extra_partition_allowed)
                        } else {
                            0u8
                        },
                        None => 0u8,
                    })
                    &&& final(ops).partition_label == old(ops).partition_label
                    &&& if old(self).operation == OperationType::Space {
                        final(self).stage == InitStage::Finished && r == InitProgress::Finished(Ok(()))
                    } else {
                        final(self).stage == InitStage::Index && r == InitProgress::Command(InitCommand::ReadIndex)
                    }
                },
                (InitStage::Index, Ok(_)) => r == InitProgress::Finished(Ok(())) && default_label(final(ops).partition_label),
                _ => false,
            },
    {
        match self.stage {
            InitStage::Open => {
                if let Err(e) = reply {
                    self.stage = InitStage::Finished;
                    return InitProgress::Finished(Err(e));
                }
                self.stage = InitStage::Ready;
                InitProgress::Command(InitCommand::WaitForDeviceReady)
            },
            InitStage::Ready => {
                if let Err(e) = reply {
                    self.stage = InitStage::Finished;
                    return InitProgress::Finished(Err(e));
                }
                self.stage = InitStage::Media;
                InitProgress::Command(InitCommand::CheckMediaStatus)
            },
            InitStage::Media => match reply {
                Err(e) => {
                    self.stage = InitStage::Finished;
                    InitProgress::Finished(Err(e))
                },
                Ok(InitReply::Media(MediaType::NoTape)) => {
                    self.stage = InitStage::Finished;
                    InitProgress::Finished(Err(RustLtfsError::TapeDevice("No tape loaded".to_owned())))
                },
                Ok(_) => {
                    self.stage = InitStage::Partitions;
                    InitProgress::Command(InitCommand::ModeSensePartitionInfo)
                },
            },
            InitStage::Partitions => match reply {
                Err(e) => {
                    self.stage = InitStage::Finished;
                    InitProgress::Finished(Err(e))
                },
                Ok(InitReply::ModeData(d)) => {
                    let _ = match &d {
                        Some(v) => ops.initialize_partition_detection(Some(v.as_slice())),
                        None => ops.initialize_partition_detection(None),
                    };
                    match self.operation {
                        OperationType::Space => {
                            self.stage = InitStage::Finished;
                            InitProgress::Finished(Ok(()))
                        },
                        _ => {
                            self.stage = InitStage::Index;
                            InitProgress::Command(InitCommand::ReadIndex)
                        },
                    }
                },
                Ok(_) => {
                    self.stage = InitStage::Finished;
                    InitProgress::Finished(Ok(()))
                },
            },
            InitStage::Index => match reply {
                Err(e) => {
                    match self.operation {
                        OperationType::Read => {
                            self.stage = InitStage::Finished;
                            let mut m: Vec<char> = Vec::new();
                            push_str(&mut m, "Index reading failed: ");
                            let t = e.to_text();
                            push_str(&mut m, t.as_str());
                            InitProgress::Finished(Err(RustLtfsError::LtfsIndex(chars_to_string(&m))))
                        },
                        _ => self.done(ops),
                    }
                },
                Ok(_) => self.done(ops),
            },
            InitStage::Finished => InitProgress::Finished(Ok(())),
        }
    }
}

/// What the recovery after a failed SCSI operation does.
#[derive(Debug, Clone, PartialEq, Eq)]
pub enum Recovery {
    /// The drive answered: wait this many milliseconds for it to settle.
    Settle(u64),
    /// The drive did not answer: reset it (`attempt_drive_reset`).
    ResetDrive,
    /// Recovery is impossible.
    Fail(RustLtfsError),
}

impl TapeOperations {
    /// The recovery after a failed SCSI operation: an empty drive
    /// (`media`, the outcome of the medium query; a failed query is
    /// passed over) cannot be recovered; a drive that cannot read its
    /// position (`position`) is reset; otherwise it settles for a second.
    pub fn recover_from_scsi_error(&self, media: Result<MediaType, RustLtfsError>, position: Result<TapePosition, RustLtfsError>) -> (r: Recovery)
        ensures
            media == Ok::<MediaType, RustLtfsError>(MediaType::NoTape) ==> (r matches Recovery::Fail(
                RustLtfsError::TapeDevice(m),
            ) && m@ == "No tape loaded - manual intervention required"@),
            media != Ok::<MediaType, RustLtfsError>(MediaType::NoTape) && position is Err ==> r == Recovery::ResetDrive,
            media != Ok::<MediaType, RustLtfsError>(MediaType::NoTape) && position is Ok ==> r == Recovery::Settle(1000),
    {
        if let Ok(MediaType::NoTape) = media {
            return Recovery::Fail(RustLtfsError::TapeDevice("No tape loaded - manual intervention required".to_owned()));
        }
        if position.is_err() {
            return Recovery::ResetDrive;
        }
        Recovery::Settle(1000)
    }

    /// The outcome of a drive reset: the rewind to the start of partition 0
    /// (`rewind`) and, after a wait, READ POSITION (`position`) must work.
    pub fn attempt_drive_reset(&self, rewind: Result<(), RustLtfsError>, position: Result<TapePosition, RustLtfsError>) -> (r: Result<(), RustLtfsError>)
        ensures
            match (rewind, position) {
                (Err(e), _) => r matches Err(RustLtfsError::TapeDevice(m)) && m@ == "Drive reset failed - cannot rewind: "@
                    + error_text(e),
                (Ok(_), Err(e)) => r matches Err(RustLtfsError::TapeDevice(m)) && m@
                    == "Drive reset failed - position unreadable: "@ + error_text(e),
                (Ok(_), Ok(_)) => r is Ok,
            },
    {
        match rewind {
            Err(e) => {
                let mut m: Vec<char> = Vec::new();
                push_str(&mut m, "Drive reset failed - cannot rewind: ");
                let t = e.to_text();
                push_str(&mut m, t.as_str());
                Err(RustLtfsError::TapeDevice(chars_to_string(&m)))
            },
            Ok(()) => match position {
                Err(e) => {
                    let mut m: Vec<char> = Vec::new();
                    push_str(&mut m, "Drive reset failed - position unreadable: ");
                    let t = e.to_text();
                    push_str(&mut m, t.as_str());
                    Err(RustLtfsError::TapeDevice(chars_to_string(&m)))
                },
                Ok(_) => Ok(()),
            },
        }
    }

    /// Loading a tape: offline nothing happens; otherwise the load
    /// command's outcome (`loaded`: whether the drive reported the tape
    /// loaded) is passed on, an unclear status counting as success.
    pub fn load_tape(&self, loaded: Result<bool, RustLtfsError>) -> (r: Result<(), RustLtfsError>)
        ensures
            self.offline_mode ==> r is Ok,
            !self.offline_mode ==> match loaded {
                Ok(_) => r is Ok,
                Err(e) => r == Err::<(), RustLtfsError>(e),
            },
    {
        if self.offline_mode {
            return Ok(());
        }
        match loaded {
            Ok(_) => Ok(()),
            Err(e) => Err(e),
        }
    }

    /// Setting an encryption key is not carried out by the drive layer; it
    /// always succeeds and changes nothing.
    pub fn set_encryption_key(&mut self, key: &str) -> (r: Result<(), RustLtfsError>)
        ensures
            r is Ok,
            *final(self) == *old(self),
    {
        Ok(())
    }
}

/// The retry of an operation: at most `max_retries` retries after the
/// first attempt, each after a delay of one second per attempt so far (at
/// most ten) and a recovery from the last error.
pub struct OperationRetry {
    pub operation_name: String,
    pub max_retries: u32,
    /// Attempts made so far.
    pub attempts: u32,
}

/// What to do after a failed attempt.
pub enum RetryDecision {
    /// Wait this many milliseconds, recover from the error, and try again.
    Retry(u64, RustLtfsError),
    /// Give up with this error.
    GiveUp(RustLtfsError),
}

impl OperationRetry {
    /// A retry of `operation_name` with at most `max_retries` retries.
    pub fn verify_operation_with_retry(operation_name: &str, max_retries: u32) -> (r: Self)
        ensures
            r.operation_name@ == operation_name@,
            r.max_retries == max_retries,
            r.attempts == 0,
    {
        OperationRetry { operation_name: operation_name.to_owned(), max_retries, attempts: 0 }
    }

    /// An attempt failed with `error`: while retries are left, the next
    /// attempt follows after `min(1000 * attempt, 10000)` milliseconds and a
    /// recovery from `error`; otherwise the operation fails with `error`.
    pub fn record_failure(&mut self, error: RustLtfsError) -> (r: RetryDecision)
        requires
            old(self).attempts <= old(self).max_retries,
            old(self).attempts < u32::MAX,
        ensures
            final(self).attempts == old(self).attempts + 1,
            final(self).max_retries == old(self).max_retries,
            final(self).operation_name == old(self).operation_name,
            old(self).attempts < old(self).max_retries ==> (r matches RetryDecision::Retry(d, e) && e == error && d == if 1000
                * (old(self).attempts + 1) < 10000 {
                (1000 * (old(self).attempts + 1)) as u64
            } else {
                10000u64
            }),
            old(self).attempts == old(self).max_retries ==> (r matches RetryDecision::GiveUp(e) && e == error),
    {
        self.attempts = self.attempts + 1;
        if self.attempts <= self.max_retries {
            let a = self.attempts as u64;
            let d: u64 = if 1000 * a < 10000 { 1000 * a } else { 10000 };
            RetryDecision::Retry(d, error)
        } else {
            RetryDecision::GiveUp(error)
        }
    }
}

} // verus!
