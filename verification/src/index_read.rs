use vstd::prelude::*;
use crate::index::opt_index_deep;
use crate::error::{error_text, RustLtfsError};
use crate::ops::{TapeOperations, TapePosition, LTO_BLOCK_SIZE};
use crate::ops::LtfsPartitionLabel;
use crate::reader::{cleaned, clean_index_text, schema_text_ok, schema_text_rewrite};
use crate::diagnostic::DataPartitionIndexReader;
use crate::text::{
    chars_to_string, contains, contains_str, decimal, decimal_exec, first_index, index_of,
    parse_unsigned, parse_unsigned_exec, push_chars, push_str, str_to_chars,
};
use crate::validator::utf8_lossy;
use crate::index::LtfsIndex;
use crate::label::is_ltfs_vol1_label;

verus! {

/// A command for the tape drive, issued by the reading procedures below and
/// carried out by their caller.
#[derive(Debug, Clone, Copy, PartialEq, Eq, Structural)]
pub enum TapeCommand {
    /// LOCATE to `block` of `partition`.
    LocateBlock(u8, u64),
    /// LOCATE to the end of data of the partition.
    LocateToEod(u8),
    /// LOCATE to file mark `0` of partition `1`.
    LocateToFileMark(u64, u8),
    /// READ POSITION.
    ReadPosition,
    /// Read over the next file mark.
    ReadFileMark,
    /// SPACE over this many file marks (negative: backwards).
    SpaceFileMarks(i32),
    /// Read up to the next file mark with this block size, as text.
    ReadToFileMark(u32),
    /// Read up to the next file mark with this block size, as bytes.
    ReadToFileMarkRaw(u32),
    /// Read this many blocks of this many bytes.
    ReadBlocks(u32, u32),
    /// MODE SELECT the block length (0: variable).
    SetBlockSize(u32),
}

/// What a command gave back when it succeeded.
pub enum TapeReply {
    /// The command completed.
    Done,
    /// The position that READ POSITION reported.
    Position(TapePosition),
    /// The text read up to a file mark.
    Text(String),
    /// The bytes read.
    Bytes(Vec<u8>),
}

/// A successful reply of the kind that `c` gives.
pub open spec fn answers(c: TapeCommand, r: TapeReply) -> bool {
    match c {
        TapeCommand::ReadPosition => r is Position,
        TapeCommand::ReadToFileMark(_) => r is Text,
        TapeCommand::ReadToFileMarkRaw(_) => r is Bytes,
        TapeCommand::ReadBlocks(_, _) => r is Bytes,
        _ => r is Done,
    }
}

/// A reply fit for command `c`: an error, or a success of its kind.
pub open spec fn fits(c: TapeCommand, r: Result<TapeReply, RustLtfsError>) -> bool {
    match r {
        Ok(x) => answers(c, x),
        Err(_) => true,
    }
}

/// The next move of a reading procedure.
pub enum Progress {
    /// Carry out this command and hand its reply back.
    Command(TapeCommand),
    /// The procedure ended with this text, or failed.
    Finished(Result<String, RustLtfsError>),
}

/// The block size that index reads use: the partition label's, 64 KiB
/// without a label.
pub open spec fn label_block_size(ops: TapeOperations) -> u32 {
    match ops.partition_label {
        Some(l) => l.blocksize,
        None => LTO_BLOCK_SIZE,
    }
}

impl TapeOperations {
    /// The block size that index reads use: the partition label's, 64 KiB
    /// without a label.
    pub fn index_block_size(&self) -> (b: u32)
        ensures
            b == label_block_size(*self),
    {
        match &self.partition_label {
            Some(l) => l.blocksize,
            None => LTO_BLOCK_SIZE,
        }
    }
}

/// Both root tags of an index are in the text.
pub open spec fn has_index_tags(t: Seq<char>) -> bool {
    contains(t, "<ltfsindex"@) && contains(t, "</ltfsindex>"@)
}

pub fn has_index_tags_exec(t: &str) -> (r: bool)
    ensures
        r == has_index_tags(t@),
{
    let cs = str_to_chars(t);
    contains_str(&cs, "<ltfsindex") && contains_str(&cs, "</ltfsindex>")
}

/// `prefix`, the decimal partition number, then `suffix`.
pub open spec fn partition_message(prefix: Seq<char>, p: u8, suffix: Seq<char>) -> Seq<char> {
    prefix + decimal(p as nat) + suffix
}

fn partition_message_exec(prefix: &str, p: u8, suffix: &str) -> (s: String)
    ensures
        s@ == partition_message(prefix@, p, suffix@),
{
    let mut v: Vec<char> = Vec::new();
    push_str(&mut v, prefix);
    push_chars(&mut v, &decimal_exec(p as u64));
    push_str(&mut v, suffix);
    chars_to_string(&v)
}

/// The stages of the read of the latest index at the end of a partition.
#[derive(Debug, Clone, Copy, PartialEq, Eq, Structural)]
pub enum EodStage {
    LocatingStart,
    LocatingEod,
    ReadingPosition,
    LocatingFileMark,
    Spacing,
    Reading,
    Finished,
}

/// The read of the latest index at the end of data of a partition:
/// locate block 0, then the end of data; read the position; with more
/// than one file mark, locate file mark 3 (index partition) or the last
/// but one file mark (otherwise), skip it and read to the next.
pub struct LatestEodRead {
    pub partition: u8,
    pub block_size: u32,
    pub stage: EodStage,
    pub target: u64,
}

pub open spec fn eod_not_found(p: u8) -> Seq<char> {
    partition_message("No valid latest index found at partition "@, p, " EOD"@)
}

pub open spec fn eod_insufficient(p: u8) -> Seq<char> {
    partition_message("Insufficient file marks in partition "@, p, " for index reading"@)
}

/// The file mark before the latest index: 3 on the index partition, the
/// last but one elsewhere.
pub open spec fn eod_target(p: u8, file_number: u64) -> u64 {
    if p == 0 {
        3
    } else {
        (file_number - 1) as u64
    }
}

impl LatestEodRead {
    pub open spec fn pending(&self) -> TapeCommand {
        match self.stage {
            EodStage::LocatingStart => TapeCommand::LocateBlock(self.partition, 0),
            EodStage::LocatingEod => TapeCommand::LocateToEod(self.partition),
            EodStage::ReadingPosition => TapeCommand::ReadPosition,
            EodStage::LocatingFileMark => TapeCommand::LocateToFileMark(self.target, self.partition),
            EodStage::Spacing => TapeCommand::SpaceFileMarks(1i32),
            _ => TapeCommand::ReadToFileMark(self.block_size),
        }
    }
}

impl TapeOperations {
    /// Starts the read of the latest index at the end of `partition`; the
    /// first command is the returned procedure's pending one.
    pub fn try_read_latest_index_from_eod(&self, partition: u8) -> (m: LatestEodRead)
        ensures
            m.partition == partition,
            m.block_size == label_block_size(*self),
            m.stage == EodStage::LocatingStart,
            m.pending() == TapeCommand::LocateBlock(partition, 0),
    {
        LatestEodRead {
            partition,
            block_size: self.index_block_size(),
            stage: EodStage::LocatingStart,
            target: 0,
        }
    }
}

impl LatestEodRead {
    /// The command to carry out next.
    pub fn pending_command(&self) -> (c: TapeCommand)
        ensures
            c == self.pending(),
    {
        match self.stage {
            EodStage::LocatingStart => TapeCommand::LocateBlock(self.partition, 0),
            EodStage::LocatingEod => TapeCommand::LocateToEod(self.partition),
            EodStage::ReadingPosition => TapeCommand::ReadPosition,
            EodStage::LocatingFileMark => TapeCommand::LocateToFileMark(self.target, self.partition),
            EodStage::Spacing => TapeCommand::SpaceFileMarks(1i32),
            _ => TapeCommand::ReadToFileMark(self.block_size),
        }
    }

    /// Takes the reply to the pending command.  Failures to reach block 0
    /// or to read the position end the read with that error; a failure to
    /// reach the end of data with "Cannot locate to EOD: " and its text; at
    /// most one file mark with "Insufficient file marks ..."; any failure
    /// after that, or a text without both root tags, with "No valid latest
    /// index found ...".
    pub fn step(&mut self, reply: Result<TapeReply, RustLtfsError>) -> (r: Progress)
        requires
            old(self).stage != EodStage::Finished,
            fits(old(self).pending(), reply),
        ensures
            final(self).partition == old(self).partition,
            final(self).block_size == old(self).block_size,
            r is Command ==> final(self).stage != EodStage::Finished && r == Progress::Command(final(self).pending()),
            r is Finished ==> final(self).stage == EodStage::Finished,
            match (old(self).stage, reply) {
                (EodStage::LocatingStart, Err(e)) => r == Progress::Finished(Err(e)),
                (EodStage::LocatingStart, Ok(_)) => final(self).stage == EodStage::LocatingEod && r is Command,
                (EodStage::LocatingEod, Err(e)) => r matches Progress::Finished(Err(RustLtfsError::LtfsIndex(m)))
                    && m@ == "Cannot locate to EOD: "@ + error_text(e),
                (EodStage::LocatingEod, Ok(_)) => final(self).stage == EodStage::ReadingPosition && r is Command,
                (EodStage::ReadingPosition, Err(e)) => r == Progress::Finished(Err(e)),
                (EodStage::ReadingPosition, Ok(TapeReply::Position(pos))) => if pos.file_number <= 1 {
                    r matches Progress::Finished(Err(RustLtfsError::LtfsIndex(m))) && m@ == eod_insufficient(old(self).partition)
                } else {
                    &&& final(self).stage == EodStage::LocatingFileMark
                    &&& final(self).target == eod_target(old(self).partition, pos.file_number)
                    &&& r is Command
                },
                (EodStage::LocatingFileMark, Ok(_)) => final(self).stage == EodStage::Spacing
                    && final(self).target == old(self).target && r is Command,
                (EodStage::Spacing, Ok(_)) => final(self).stage == EodStage::Reading && r is Command,
                (EodStage::Reading, Ok(TapeReply::Text(t))) => if has_index_tags(t@) {
                    r == Progress::Finished(Ok(t))
                } else {
                    r matches Progress::Finished(Err(RustLtfsError::LtfsIndex(m))) && m@ == eod_not_found(old(self).partition)
                },
                (_, Err(_)) => r matches Progress::Finished(Err(RustLtfsError::LtfsIndex(m)))
                    && m@ == eod_not_found(old(self).partition),
                _ => false,
            },
    {
        let p = self.partition;
        match self.stage {
            EodStage::LocatingStart => match reply {
                Err(e) => {
                    self.stage = EodStage::Finished;
                    Progress::Finished(Err(e))
                },
                Ok(_) => {
                    self.stage = EodStage::LocatingEod;
                    Progress::Command(TapeCommand::LocateToEod(p))
                },
            },
            EodStage::LocatingEod => match reply {
                Err(e) => {
                    self.stage = EodStage::Finished;
                    let mut v: Vec<char> = Vec::new();
                    push_str(&mut v, "Cannot locate to EOD: ");
                    let t = e.to_text();
                    push_str(&mut v, t.as_str());
                    Progress::Finished(Err(RustLtfsError::LtfsIndex(chars_to_string(&v))))
                },
                Ok(_) => {
                    self.stage = EodStage::ReadingPosition;
                    Progress::Command(TapeCommand::ReadPosition)
                },
            },
            EodStage::ReadingPosition => match reply {
                Err(e) => {
                    self.stage = EodStage::Finished;
                    Progress::Finished(Err(e))
                },
                Ok(TapeReply::Position(pos)) => {
                    if pos.file_number <= 1 {
                        self.stage = EodStage::Finished;
                        Progress::Finished(Err(RustLtfsError::LtfsIndex(partition_message_exec(
                            "Insufficient file marks in partition ",
                            p,
                            " for index reading",
                        ))))
                    } else {
                        let target = if p == 0 {
                            3
                        } else {
                            pos.file_number - 1
                        };
                        self.target = target;
                        self.stage = EodStage::LocatingFileMark;
                        Progress::Command(TapeCommand::LocateToFileMark(target, p))
                    }
                },
                Ok(_) => {
                    self.stage = EodStage::Finished;
                    Progress::Finished(Err(RustLtfsError::LtfsIndex(partition_message_exec(
                        "No valid latest index found at partition ",
                        p,
                        " EOD",
                    ))))
                },
            },
            EodStage::LocatingFileMark => match reply {
                Ok(_) => {
                    self.stage = EodStage::Spacing;
                    Progress::Command(TapeCommand::SpaceFileMarks(1i32))
                },
                Err(_) => {
                    self.stage = EodStage::Finished;
                    Progress::Finished(Err(RustLtfsError::LtfsIndex(partition_message_exec(
                        "No valid latest index found at partition ",
                        p,
                        " EOD",
                    ))))
                },
            },
            EodStage::Spacing => match reply {
                Ok(_) => {
                    self.stage = EodStage::Reading;
                    Progress::Command(TapeCommand::ReadToFileMark(self.block_size))
                },
                Err(_) => {
                    self.stage = EodStage::Finished;
                    Progress::Finished(Err(RustLtfsError::LtfsIndex(partition_message_exec(
                        "No valid latest index found at partition ",
                        p,
                        " EOD",
                    ))))
                },
            },
            _ => {
                self.stage = EodStage::Finished;
                match reply {
                    Ok(TapeReply::Text(t)) => {
                        if has_index_tags_exec(t.as_str()) {
                            return Progress::Finished(Ok(t));
                        }
                    },
                    _ => {},
                }
                Progress::Finished(Err(RustLtfsError::LtfsIndex(partition_message_exec(
                    "No valid latest index found at partition ",
                    p,
                    " EOD",
                ))))
            },
        }
    }
}

/// The index text made of text read with the temporary-file method of a
/// single-partition tape: the text itself when it mentions `XMLSchema`,
/// else what `FromSchemaText` makes of it.
pub open spec fn schema_or_rewrite(t: Seq<char>, r: Result<String, RustLtfsError>) -> bool {
    if contains(t, "XMLSchema"@) {
        r matches Ok(x) && x@ == t
    } else {
        match r {
            Ok(x) => schema_text_ok(t) && x@ == schema_text_rewrite(t),
            Err(e) => !schema_text_ok(t) && e is LtfsIndex,
        }
    }
}

/// The stages of the fixed command sequences below.
#[derive(Debug, Clone, Copy, PartialEq, Eq, Structural)]
pub enum ReadStage {
    First,
    Second,
    Third,
    Fourth,
    Fifth,
    Sixth,
    Seventh,
    Finished,
}

/// The read of the index of a dual-partition tape: locate file mark 3 of
/// partition 0, read the position, skip the file mark, read to the next.
pub struct DualPartitionIndexRead {
    pub block_size: u32,
    pub stage: ReadStage,
}

impl DualPartitionIndexRead {
    pub open spec fn pending(&self) -> TapeCommand {
        match self.stage {
            ReadStage::First => TapeCommand::LocateToFileMark(3, 0),
            ReadStage::Second => TapeCommand::ReadPosition,
            ReadStage::Third => TapeCommand::ReadFileMark,
            _ => TapeCommand::ReadToFileMark(self.block_size),
        }
    }

    pub fn pending_command(&self) -> (c: TapeCommand)
        ensures
            c == self.pending(),
    {
        match self.stage {
            ReadStage::First => TapeCommand::LocateToFileMark(3, 0),
            ReadStage::Second => TapeCommand::ReadPosition,
            ReadStage::Third => TapeCommand::ReadFileMark,
            _ => TapeCommand::ReadToFileMark(self.block_size),
        }
    }

    /// Takes the reply to the pending command: any failure ends the read
    /// with that error; the text read last is the result.
    pub fn step(&mut self, reply: Result<TapeReply, RustLtfsError>) -> (r: Progress)
        requires
            old(self).stage != ReadStage::Finished,
            fits(old(self).pending(), reply),
        ensures
            final(self).block_size == old(self).block_size,
            r is Command ==> final(self).stage != ReadStage::Finished && r == Progress::Command(final(self).pending()),
            r is Finished ==> final(self).stage == ReadStage::Finished,
            match reply {
                Err(e) => r == Progress::Finished(Err(e)),
                Ok(TapeReply::Text(t)) => r == Progress::Finished(Ok(t)),
                Ok(_) => r is Command && final(self).stage == match old(self).stage {
                    ReadStage::First => ReadStage::Second,
                    ReadStage::Second => ReadStage::Third,
                    _ => ReadStage::Fourth,
                },
            },
    {
        match reply {
            Err(e) => {
                self.stage = ReadStage::Finished;
                Progress::Finished(Err(e))
            },
            Ok(TapeReply::Text(t)) => {
                self.stage = ReadStage::Finished;
                Progress::Finished(Ok(t))
            },
            Ok(_) => {
                self.stage = match self.stage {
                    ReadStage::First => ReadStage::Second,
                    ReadStage::Second => ReadStage::Third,
                    _ => ReadStage::Fourth,
                };
                Progress::Command(self.pending_command())
            },
        }
    }
}

/// The read of the index of a single-partition tape: locate its end of
/// data and read the position; with more than one file mark, locate the
/// last but one, skip it and read to the next with the label block size;
/// otherwise space back two file marks, skip one and read to the next with
/// 512 KiB blocks.  The text is then taken as it is or rewritten.
pub struct SinglePartitionIndexRead {
    pub block_size: u32,
    pub stage: ReadStage,
    pub fallback: bool,
    pub target: u64,
}

impl SinglePartitionIndexRead {
    pub open spec fn pending(&self) -> TapeCommand {
        match self.stage {
            ReadStage::First => TapeCommand::LocateToEod(0),
            ReadStage::Second => TapeCommand::ReadPosition,
            ReadStage::Third => if self.fallback {
                TapeCommand::SpaceFileMarks(-2i32)
            } else {
                TapeCommand::LocateToFileMark(self.target, 0)
            },
            ReadStage::Fourth => TapeCommand::ReadFileMark,
            _ => if self.fallback {
                TapeCommand::ReadToFileMarkRaw(524288)
            } else {
                TapeCommand::ReadToFileMark(self.block_size)
            },
        }
    }

    pub fn pending_command(&self) -> (c: TapeCommand)
        ensures
            c == self.pending(),
    {
        match self.stage {
            ReadStage::First => TapeCommand::LocateToEod(0),
            ReadStage::Second => TapeCommand::ReadPosition,
            ReadStage::Third => if self.fallback {
                TapeCommand::SpaceFileMarks(-2i32)
            } else {
                TapeCommand::LocateToFileMark(self.target, 0)
            },
            ReadStage::Fourth => TapeCommand::ReadFileMark,
            _ => if self.fallback {
                TapeCommand::ReadToFileMarkRaw(524288)
            } else {
                TapeCommand::ReadToFileMark(self.block_size)
            },
        }
    }

    /// Takes the reply to the pending command: any failure ends the read
    /// with that error; the position decides between the last-but-one file
    /// mark and the fallback; the data read last gives the index text.
    pub fn step(&mut self, ops: &TapeOperations, reply: Result<TapeReply, RustLtfsError>) -> (r: Progress)
        requires
            old(self).stage != ReadStage::Finished,
            fits(old(self).pending(), reply),
        ensures
            final(self).block_size == old(self).block_size,
            r is Command ==> final(self).stage != ReadStage::Finished && r == Progress::Command(final(self).pending()),
            r is Finished ==> final(self).stage == ReadStage::Finished,
            match reply {
                Err(e) => r == Progress::Finished(Err(e)),
                Ok(TapeReply::Position(pos)) => r is Command && final(self).stage == ReadStage::Third
                    && final(self).fallback == (pos.file_number <= 1)
                    && (pos.file_number > 1 ==> final(self).target == pos.file_number - 1),
                Ok(TapeReply::Text(t)) => r matches Progress::Finished(x) && schema_or_rewrite(t@, x),
                Ok(TapeReply::Bytes(b)) => r matches Progress::Finished(x) && schema_or_rewrite(utf8_lossy(b@), x),
                Ok(TapeReply::Done) => r is Command && final(self).fallback == old(self).fallback
                    && final(self).target == old(self).target && final(self).stage == match old(self).stage {
                        ReadStage::First => ReadStage::Second,
                        ReadStage::Third => ReadStage::Fourth,
                        _ => ReadStage::Fifth,
                    },
            },
    {
        match reply {
            Err(e) => {
                self.stage = ReadStage::Finished;
                Progress::Finished(Err(e))
            },
            Ok(TapeReply::Position(pos)) => {
                if pos.file_number <= 1 {
                    self.fallback = true;
                } else {
                    self.fallback = false;
                    self.target = pos.file_number - 1;
                }
                self.stage = ReadStage::Third;
                Progress::Command(self.pending_command())
            },
            Ok(TapeReply::Text(t)) => {
                self.stage = ReadStage::Finished;
                let cs = str_to_chars(t.as_str());
                if contains_str(&cs, "XMLSchema") {
                    Progress::Finished(Ok(t))
                } else {
                    Progress::Finished(ops.ltfscopygui_from_schema_text(t))
                }
            },
            Ok(TapeReply::Bytes(b)) => {
                self.stage = ReadStage::Finished;
                Progress::Finished(ops.index_text_from_file_mark_data(&b))
            },
            Ok(TapeReply::Done) => {
                self.stage = match self.stage {
                    ReadStage::First => ReadStage::Second,
                    ReadStage::Third => ReadStage::Fourth,
                    _ => ReadStage::Fifth,
                };
                Progress::Command(self.pending_command())
            },
        }
    }
}

/// The read of the latest index of the data partition of a dual-partition
/// tape: locate block 0 and the end of data of partition 1, read the
/// position; with more than one file mark, locate the last but one, space
/// over it, read the position, and read to the next file mark.
pub struct DataPartitionEodRead {
    pub block_size: u32,
    pub stage: ReadStage,
    pub target: u64,
}

impl DataPartitionEodRead {
    pub open spec fn pending(&self) -> TapeCommand {
        match self.stage {
            ReadStage::First => TapeCommand::LocateBlock(1, 0),
            ReadStage::Second => TapeCommand::LocateToEod(1),
            ReadStage::Third => TapeCommand::ReadPosition,
            ReadStage::Fourth => TapeCommand::LocateToFileMark(self.target, 1),
            ReadStage::Fifth => TapeCommand::SpaceFileMarks(1i32),
            ReadStage::Sixth => TapeCommand::ReadPosition,
            _ => TapeCommand::ReadToFileMark(self.block_size),
        }
    }

    pub fn pending_command(&self) -> (c: TapeCommand)
        ensures
            c == self.pending(),
    {
        match self.stage {
            ReadStage::First => TapeCommand::LocateBlock(1, 0),
            ReadStage::Second => TapeCommand::LocateToEod(1),
            ReadStage::Third => TapeCommand::ReadPosition,
            ReadStage::Fourth => TapeCommand::LocateToFileMark(self.target, 1),
            ReadStage::Fifth => TapeCommand::SpaceFileMarks(1i32),
            ReadStage::Sixth => TapeCommand::ReadPosition,
            _ => TapeCommand::ReadToFileMark(self.block_size),
        }
    }

    /// Takes the reply to the pending command: any failure ends the read
    /// with that error; at most one file mark before the end of data, or a
    /// text without both root tags, ends it with an index error.
    pub fn step(&mut self, reply: Result<TapeReply, RustLtfsError>) -> (r: Progress)
        requires
            old(self).stage != ReadStage::Finished,
            fits(old(self).pending(), reply),
        ensures
            final(self).block_size == old(self).block_size,
            r is Command ==> final(self).stage != ReadStage::Finished && r == Progress::Command(final(self).pending()),
            r is Finished ==> final(self).stage == ReadStage::Finished,
            match reply {
                Err(e) => r == Progress::Finished(Err(e)),
                Ok(TapeReply::Position(pos)) => if old(self).stage == ReadStage::Third {
                    if pos.file_number <= 1 {
                        r matches Progress::Finished(Err(e)) && e is LtfsIndex
                    } else {
                        r is Command && final(self).stage == ReadStage::Fourth && final(self).target == pos.file_number - 1
                    }
                } else {
                    r is Command && final(self).stage == ReadStage::Seventh && final(self).target == old(self).target
                },
                Ok(TapeReply::Text(t)) => if has_index_tags(t@) {
                    r == Progress::Finished(Ok(t))
                } else {
                    r matches Progress::Finished(Err(e)) && e is LtfsIndex
                },
                Ok(_) => r is Command && final(self).target == old(self).target && final(self).stage == match old(self).stage {
                    ReadStage::First => ReadStage::Second,
                    ReadStage::Second => ReadStage::Third,
                    ReadStage::Fourth => ReadStage::Fifth,
                    _ => ReadStage::Sixth,
                },
            },
    {
        match reply {
            Err(e) => {
                self.stage = ReadStage::Finished;
                Progress::Finished(Err(e))
            },
            Ok(TapeReply::Position(pos)) => {
                if self.stage == ReadStage::Third {
                    if pos.file_number <= 1 {
                        self.stage = ReadStage::Finished;
                        return Progress::Finished(Err(RustLtfsError::LtfsIndex(
                            "Insufficient file marks in data partition for index reading".to_owned(),
                        )));
                    }
                    self.target = pos.file_number - 1;
                    self.stage = ReadStage::Fourth;
                } else {
                    self.stage = ReadStage::Seventh;
                }
                Progress::Command(self.pending_command())
            },
            Ok(TapeReply::Text(t)) => {
                self.stage = ReadStage::Finished;
                if has_index_tags_exec(t.as_str()) {
                    Progress::Finished(Ok(t))
                } else {
                    Progress::Finished(Err(RustLtfsError::LtfsIndex(
                        "Content at data partition EOD is not valid LTFS index".to_owned(),
                    )))
                }
            },
            Ok(_) => {
                self.stage = match self.stage {
                    ReadStage::First => ReadStage::Second,
                    ReadStage::Second => ReadStage::Third,
                    ReadStage::Fourth => ReadStage::Fifth,
                    _ => ReadStage::Sixth,
                };
                Progress::Command(self.pending_command())
            },
        }
    }
}

/// The block size a partition label text gives: the number between the
/// first `<blocksize>` and the next `</blocksize>`, 524288 where either tag
/// is missing or the number is not a `u32`.
pub open spec fn label_text_blocksize(t: Seq<char>) -> u32 {
    let s = first_index(t, "<blocksize>"@, 0);
    if s < 0 {
        524288
    } else {
        let e = first_index(t, "</blocksize>"@, s + 11);
        if e < 0 {
            524288
        } else {
            match parse_unsigned(t.subrange(s + 11, e), u32::MAX as nat) {
                Some(v) => v as u32,
                None => 524288,
            }
        }
    }
}

/// The block size that a partition label text gives.
pub fn blocksize_from_label_text(t: &str) -> (b: u32)
    ensures
        b == label_text_blocksize(t@),
{
    let cs = str_to_chars(t);
    let open = str_to_chars("<blocksize>");
    let close = str_to_chars("</blocksize>");
    proof {
        reveal_strlit("<blocksize>");
        reveal_strlit("</blocksize>");
        assert(open@.len() == 11);
    }
    let n = cs.len();
    match index_of(&cs, &open, 0) {
        None => 524288,
        Some(s) => match index_of(&cs, &close, {
            assert(s + open@.len() <= cs@.len());
            s + 11
        }) {
            None => 524288,
            Some(e) => {
                let mut digits: Vec<char> = Vec::new();
                let mut i = s + 11;
                while i < e
                    invariant
                        s + 11 <= i <= e <= cs@.len(),
                        digits@ == cs@.subrange(s + 11, i as int),
                    decreases e - i,
                {
                    digits.push(cs[i]);
                    i = i + 1;
                }
                match parse_unsigned_exec(&digits, 4294967295u64) {
                    Some(v) => v as u32,
                    None => 524288,
                }
            },
        },
    }
}

/// The read of the partition label of a partition: locate its file mark 1,
/// skip it, read to the next file mark with 1 MiB blocks; the label's
/// block size is then taken from the text.
pub struct PartitionLabelRead {
    pub partition: u8,
    pub stage: ReadStage,
}

/// The outcome of a partition label read.
pub enum LabelProgress {
    Command(TapeCommand),
    Finished(Result<LtfsPartitionLabel, RustLtfsError>),
}

impl PartitionLabelRead {
    pub open spec fn pending(&self) -> TapeCommand {
        match self.stage {
            ReadStage::First => TapeCommand::LocateToFileMark(1, self.partition),
            ReadStage::Second => TapeCommand::ReadFileMark,
            _ => TapeCommand::ReadToFileMark(1048576),
        }
    }

    pub fn pending_command(&self) -> (c: TapeCommand)
        ensures
            c == self.pending(),
    {
        match self.stage {
            ReadStage::First => TapeCommand::LocateToFileMark(1, self.partition),
            ReadStage::Second => TapeCommand::ReadFileMark,
            _ => TapeCommand::ReadToFileMark(1048576),
        }
    }

    /// Takes the reply to the pending command: any failure ends the read
    /// with that error; the text read gives a label with its block size.
    pub fn step(&mut self, reply: Result<TapeReply, RustLtfsError>) -> (r: LabelProgress)
        requires
            old(self).stage != ReadStage::Finished,
            fits(old(self).pending(), reply),
        ensures
            final(self).partition == old(self).partition,
            r is Command ==> final(self).stage != ReadStage::Finished && r == LabelProgress::Command(final(self).pending()),
            r is Finished ==> final(self).stage == ReadStage::Finished,
            match reply {
                Err(e) => r == LabelProgress::Finished(Err(e)),
                Ok(TapeReply::Text(t)) => r matches LabelProgress::Finished(Ok(l)) && l.blocksize == label_text_blocksize(t@),
                Ok(_) => r is Command && final(self).stage == match old(self).stage {
                    ReadStage::First => ReadStage::Second,
                    _ => ReadStage::Third,
                },
            },
    {
        match reply {
            Err(e) => {
                self.stage = ReadStage::Finished;
                LabelProgress::Finished(Err(e))
            },
            Ok(TapeReply::Text(t)) => {
                self.stage = ReadStage::Finished;
                let mut l = LtfsPartitionLabel::default();
                l.blocksize = blocksize_from_label_text(t.as_str());
                LabelProgress::Finished(Ok(l))
            },
            Ok(_) => {
                self.stage = match self.stage {
                    ReadStage::First => ReadStage::Second,
                    _ => ReadStage::Third,
                };
                LabelProgress::Command(self.pending_command())
            },
        }
    }
}

impl TapeOperations {
    /// Starts the read of the index of a dual-partition tape.
    pub fn try_read_index_dual_partition(&self) -> (m: DualPartitionIndexRead)
        ensures
            m.block_size == label_block_size(*self),
            m.stage == ReadStage::First,
    {
        DualPartitionIndexRead { block_size: self.index_block_size(), stage: ReadStage::First }
    }

    /// Starts the read of the index of a single-partition tape.
    pub fn try_read_index_single_partition(&self) -> (m: SinglePartitionIndexRead)
        ensures
            m.block_size == label_block_size(*self),
            m.stage == ReadStage::First,
            !m.fallback,
    {
        SinglePartitionIndexRead { block_size: self.index_block_size(), stage: ReadStage::First, fallback: false, target: 0 }
    }

    /// Starts the read of the latest index at the end of the data partition.
    pub fn read_index_from_data_partition_eod(&self) -> (m: DataPartitionEodRead)
        ensures
            m.block_size == label_block_size(*self),
            m.stage == ReadStage::First,
    {
        DataPartitionEodRead { block_size: self.index_block_size(), stage: ReadStage::First, target: 0 }
    }

    /// Starts the read of the partition label of `partition`.
    pub fn read_and_parse_partition_label(&self, partition: u8) -> (m: PartitionLabelRead)
        ensures
            m.partition == partition,
            m.stage == ReadStage::First,
    {
        PartitionLabelRead { partition, stage: ReadStage::First }
    }
}

impl TapeOperations {
    /// Takes the index text read from tape and the result of parsing it:
    /// without both root tags, or when parsing failed, the text is not an
    /// index (`Ok(false)`); otherwise the parsed index is loaded.
    pub fn validate_and_process_index(&mut self, xml_content: &str, parsed: Result<LtfsIndex, RustLtfsError>) -> (r: Result<bool, RustLtfsError>)
        ensures
            r == Ok::<bool, RustLtfsError>(has_index_tags(xml_content@) && parsed is Ok),
            has_index_tags(xml_content@) && parsed is Ok ==> final(self).index == Some(parsed->Ok_0)
                && opt_index_deep(final(self).schema) == opt_index_deep(final(self).index),
            !(has_index_tags(xml_content@) && parsed is Ok) ==> final(self).index == old(self).index
                && final(self).schema == old(self).schema,
            final(self).partition_label == old(self).partition_label,
            final(self).extra_partition_count == old(self).extra_partition_count,
            final(self).write_options == old(self).write_options,
    {
        if !has_index_tags_exec(xml_content) {
            return Ok(false);
        }
        match parsed {
            Ok(index) => {
                self.schema = Some(crate::index::clone_index(&index));
                self.index = Some(index);
                Ok(true)
            },
            Err(_) => Ok(false),
        }
    }
}

/// Where a single attempt to load the index stands.
pub enum AttemptPhase {
    /// Reading the partition label of partition 0.
    Label(PartitionLabelRead),
    /// Setting variable block mode (its outcome does not matter).
    VariableBlockMode,
    /// Reading the index of a dual-partition tape (file mark 3).
    Dual(DualPartitionIndexRead),
    /// Reading the index of a single-partition tape (last file mark but one).
    Single(SinglePartitionIndexRead),
    /// Locating block 0 of partition 0 to check the VOL1 label.
    LocateLabelBlock,
    /// Reading the VOL1 label block.
    ReadLabelBlock,
    /// Reading the latest index at the end of the data partition.
    DataEod(DataPartitionEodRead),
    /// Reading to the next file mark at the current position.
    FileMark,
    /// Reading the latest index at the end of partition 0: the last resort.
    LatestEod(LatestEodRead),
    /// Waiting for the parse of a text read by the named route.
    Parse(ParseRoute),
    Finished,
}

/// Which route read the text being parsed, which decides where to go when
/// it is not an index.
#[derive(Debug, Clone, Copy, PartialEq, Eq, Structural)]
pub enum ParseRoute {
    Primary,
    DataEod,
    FileMark,
    LatestEod,
}

/// The next move of an attempt.
pub enum AttemptProgress {
    /// Carry out this command and hand its reply back.
    Command(TapeCommand),
    /// Parse this index text and hand the result back.
    Parse(String),
    /// The attempt ended: the index is loaded, or the error.
    Finished(Result<(), RustLtfsError>),
}

/// What the caller hands back to an attempt.
pub enum AttemptReply {
    Tape(Result<TapeReply, RustLtfsError>),
    Parsed(Result<LtfsIndex, RustLtfsError>),
}

/// One attempt to load the index: the partition label first (its block
/// size, 512 KiB when it cannot be read), variable block mode, then the
/// file mark 3 route (dual partition) or the last-but-one file mark route
/// (single partition); failing that, the VOL1 label is checked, and on an
/// LTFS dual-partition tape the end of the data partition and the text at
/// the file mark are tried; the end of partition 0 is the last resort.
pub struct IndexReadAttempt {
    pub phase: AttemptPhase,
}

impl IndexReadAttempt {
    /// The reply that the attempt waits for fits `r`.
    pub open spec fn accepts(&self, r: AttemptReply) -> bool {
        match self.phase {
            AttemptPhase::Label(m) => r matches AttemptReply::Tape(t) && m.stage != ReadStage::Finished && fits(m.pending(), t),
            AttemptPhase::VariableBlockMode => r matches AttemptReply::Tape(t) && fits(TapeCommand::SetBlockSize(0), t),
            AttemptPhase::Dual(m) => r matches AttemptReply::Tape(t) && m.stage != ReadStage::Finished && fits(m.pending(), t),
            AttemptPhase::Single(m) => r matches AttemptReply::Tape(t) && m.stage != ReadStage::Finished && fits(m.pending(), t),
            AttemptPhase::LocateLabelBlock => r matches AttemptReply::Tape(t) && fits(TapeCommand::LocateBlock(0, 0), t),
            AttemptPhase::ReadLabelBlock => r matches AttemptReply::Tape(t) && fits(TapeCommand::ReadBlocks(1, 65536), t),
            AttemptPhase::DataEod(m) => r matches AttemptReply::Tape(t) && m.stage != ReadStage::Finished && fits(m.pending(), t),
            AttemptPhase::FileMark => r matches AttemptReply::Tape(t) && (t matches Ok(x) ==> x is Text),
            AttemptPhase::LatestEod(m) => r matches AttemptReply::Tape(t) && m.stage != EodStage::Finished && fits(m.pending(), t),
            AttemptPhase::Parse(_) => r is Parsed,
            AttemptPhase::Finished => false,
        }
    }
}

impl TapeOperations {
    /// Starts one attempt to load the index; its first command is the
    /// partition label read's.
    pub fn read_index_from_tape_attempt(&self) -> (r: (IndexReadAttempt, TapeCommand))
        ensures
            r.0.phase matches AttemptPhase::Label(m) && m.partition == 0 && m.stage == ReadStage::First,
            r.1 == TapeCommand::LocateToFileMark(1, 0),
    {
        let m = self.read_and_parse_partition_label(0);
        let c = m.pending_command();
        (IndexReadAttempt { phase: AttemptPhase::Label(m) }, c)
    }
}

/// Where a failed route leads: after the primary route, to the VOL1
/// check; after the data partition's end, to the text at the file mark;
/// after that, to the end of partition 0; after that, the attempt
/// fails.
pub open spec fn fallback_ensures(route: ParseRoute, ops: TapeOperations, next: IndexReadAttempt, r: AttemptProgress) -> bool {
    match route {
        ParseRoute::Primary => next.phase is LocateLabelBlock && r == AttemptProgress::Command(TapeCommand::LocateBlock(0, 0)),
        ParseRoute::DataEod => next.phase is FileMark && r == AttemptProgress::Command(TapeCommand::ReadToFileMark(label_block_size(ops))),
        ParseRoute::FileMark => (next.phase matches AttemptPhase::LatestEod(m) && m.partition == 0
            && m.stage == EodStage::LocatingStart && m.block_size == label_block_size(ops))
            && r == AttemptProgress::Command(TapeCommand::LocateBlock(0, 0)),
        ParseRoute::LatestEod => next.phase is Finished
            && (r matches AttemptProgress::Finished(Err(RustLtfsError::LtfsIndex(m))) && m@ == "Index validation failed"@),
    }
}


/// What follows an index text found by `route`: its parse when it holds
/// both root tags, else the route's fallback.
pub open spec fn text_outcome(route: ParseRoute, t: Seq<char>, ops: TapeOperations, next: IndexReadAttempt, r: AttemptProgress) -> bool {
    if has_index_tags(t) {
        next.phase == AttemptPhase::Parse(route) && (r matches AttemptProgress::Parse(x) && x@ == t)
    } else {
        fallback_ensures(route, ops, next, r)
    }
}

/// What follows the text that the single-partition read took in: the
/// text itself when it mentions `XMLSchema`, else its rewrite, and the
/// fallback when it cannot be rewritten.
pub open spec fn single_text_outcome(t: Seq<char>, ops: TapeOperations, next: IndexReadAttempt, r: AttemptProgress) -> bool {
    if contains(t, "XMLSchema"@) {
        text_outcome(ParseRoute::Primary, t, ops, next, r)
    } else if schema_text_ok(t) {
        text_outcome(ParseRoute::Primary, schema_text_rewrite(t), ops, next, r)
    } else {
        fallback_ensures(ParseRoute::Primary, ops, next, r)
    }
}

/// The latest-index read `m` goes on to `m2` on reply `t`.
pub open spec fn eod_moves(m: LatestEodRead, t: Result<TapeReply, RustLtfsError>, m2: LatestEodRead) -> bool {
    &&& m2.partition == m.partition
    &&& m2.block_size == m.block_size
    &&& match (m.stage, t) {
        (EodStage::LocatingStart, Ok(_)) => m2.stage == EodStage::LocatingEod,
        (EodStage::LocatingEod, Ok(_)) => m2.stage == EodStage::ReadingPosition,
        (EodStage::ReadingPosition, Ok(TapeReply::Position(pos))) => pos.file_number > 1
            && m2.stage == EodStage::LocatingFileMark && m2.target == eod_target(m.partition, pos.file_number),
        (EodStage::LocatingFileMark, Ok(_)) => m2.stage == EodStage::Spacing && m2.target == m.target,
        (EodStage::Spacing, Ok(_)) => m2.stage == EodStage::Reading,
        _ => false,
    }
}

/// The latest-index read `m` ends with error `e` on reply `t`.
pub open spec fn eod_fails(m: LatestEodRead, t: Result<TapeReply, RustLtfsError>, e: RustLtfsError) -> bool {
    match (m.stage, t) {
        (EodStage::LocatingStart, Err(e0)) => e == e0,
        (EodStage::ReadingPosition, Err(e0)) => e == e0,
        (EodStage::LocatingEod, Err(e0)) => e matches RustLtfsError::LtfsIndex(msg) && msg@ == "Cannot locate to EOD: "@ + error_text(e0),
        (EodStage::ReadingPosition, Ok(TapeReply::Position(pos))) => pos.file_number <= 1
            && (e matches RustLtfsError::LtfsIndex(msg) && msg@ == eod_insufficient(m.partition)),
        (EodStage::Reading, Ok(TapeReply::Text(x))) => !has_index_tags(x@)
            && (e matches RustLtfsError::LtfsIndex(msg) && msg@ == eod_not_found(m.partition)),
        (_, Err(_)) => e matches RustLtfsError::LtfsIndex(msg) && msg@ == eod_not_found(m.partition),
        _ => false,
    }
}

impl IndexReadAttempt {
    fn to_latest_eod(&mut self, ops: &TapeOperations) -> (r: AttemptProgress)
        ensures
            final(self).phase matches AttemptPhase::LatestEod(m) && m.partition == 0 && m.stage == EodStage::LocatingStart
                && m.block_size == label_block_size(*ops),
            r == AttemptProgress::Command(TapeCommand::LocateBlock(0, 0)),
    {
        let m = ops.try_read_latest_index_from_eod(0);
        self.phase = AttemptPhase::LatestEod(m);
        AttemptProgress::Command(TapeCommand::LocateBlock(0, 0))
    }

    fn text_found(&mut self, route: ParseRoute, ops: &TapeOperations, xml: String) -> (r: AttemptProgress)
        requires
            route != ParseRoute::Primary,
        ensures
            has_index_tags(xml@) ==> final(self).phase == AttemptPhase::Parse(route) && r == AttemptProgress::Parse(xml),
            !has_index_tags(xml@) ==> fallback_ensures(route, *ops, *final(self), r),
    {
        if has_index_tags_exec(xml.as_str()) {
            self.phase = AttemptPhase::Parse(route);
            AttemptProgress::Parse(xml)
        } else {
            self.fall_back(route, ops)
        }
    }

    fn fall_back(&mut self, route: ParseRoute, ops: &TapeOperations) -> (r: AttemptProgress)
        ensures
            fallback_ensures(route, *ops, *final(self), r),
    {
        match route {
            ParseRoute::Primary => {
                self.phase = AttemptPhase::LocateLabelBlock;
                AttemptProgress::Command(TapeCommand::LocateBlock(0, 0))
            },
            ParseRoute::DataEod => {
                self.phase = AttemptPhase::FileMark;
                AttemptProgress::Command(TapeCommand::ReadToFileMark(ops.index_block_size()))
            },
            ParseRoute::FileMark => self.to_latest_eod(ops),
            ParseRoute::LatestEod => {
                self.phase = AttemptPhase::Finished;
                AttemptProgress::Finished(Err(RustLtfsError::LtfsIndex("Index validation failed".to_owned())))
            },
        }
    }

    /// Takes the reply the attempt waits for and gives its next move.  The
    /// attempt succeeds only when a parsed index was loaded; the label
    /// read sets the partition label (512 KiB when it failed); the route
    /// follows the detected partition count and the VOL1 check.
    pub fn step(&mut self, ops: &mut TapeOperations, reply: AttemptReply) -> (r: AttemptProgress)
        requires
            old(self).accepts(reply),
        ensures
            r is Finished <==> final(self).phase is Finished,
            r matches AttemptProgress::Finished(Ok(_)) ==> old(self).phase is Parse && (reply matches AttemptReply::Parsed(Ok(i))
                && final(ops).index == Some(i)),
            reply matches AttemptReply::Parsed(Ok(i)) ==> final(ops).index == Some(i)
                && opt_index_deep(final(ops).schema) == opt_index_deep(final(ops).index),
            !(reply matches AttemptReply::Parsed(Ok(_))) ==> final(ops).index == old(ops).index
                && final(ops).schema == old(ops).schema,
            !(old(self).phase is Label) ==> final(ops).partition_label == old(ops).partition_label,
            final(ops).extra_partition_count == old(ops).extra_partition_count,
            final(ops).write_options == old(ops).write_options,
            match (old(self).phase, reply) {
                (AttemptPhase::Label(_), AttemptReply::Tape(Ok(TapeReply::Text(t)))) =>
                    final(ops).partition_label matches Some(l) && l.blocksize == label_text_blocksize(t@)
                    && final(self).phase is VariableBlockMode && r == AttemptProgress::Command(TapeCommand::SetBlockSize(0)),
                (AttemptPhase::Label(_), AttemptReply::Tape(Err(_))) =>
                    final(ops).partition_label matches Some(l) && l.blocksize == 524288
                    && final(self).phase is VariableBlockMode && r == AttemptProgress::Command(TapeCommand::SetBlockSize(0)),
                (AttemptPhase::Label(m), AttemptReply::Tape(Ok(_))) =>
                    final(self).phase matches AttemptPhase::Label(m2) && m2.partition == m.partition
                    && m2.stage == (if m.stage == ReadStage::First { ReadStage::Second } else { ReadStage::Third })
                    && r == AttemptProgress::Command(m2.pending()),
                (AttemptPhase::VariableBlockMode, _) => if old(ops).get_extra_partition_count_spec() > 0 {
                    &&& final(self).phase matches AttemptPhase::Dual(m2) && m2.stage == ReadStage::First
                        && m2.block_size == label_block_size(*old(ops))
                    &&& r == AttemptProgress::Command(TapeCommand::LocateToFileMark(3, 0))
                } else {
                    &&& final(self).phase matches AttemptPhase::Single(m2) && m2.stage == ReadStage::First && !m2.fallback
                        && m2.block_size == label_block_size(*old(ops))
                    &&& r == AttemptProgress::Command(TapeCommand::LocateToEod(0))
                },
                (AttemptPhase::Dual(_), AttemptReply::Tape(Err(_))) =>
                    fallback_ensures(ParseRoute::Primary, *old(ops), *final(self), r),
                (AttemptPhase::Dual(_), AttemptReply::Tape(Ok(TapeReply::Text(x)))) =>
                    text_outcome(ParseRoute::Primary, x@, *old(ops), *final(self), r),
                (AttemptPhase::Dual(m), AttemptReply::Tape(Ok(_))) =>
                    final(self).phase matches AttemptPhase::Dual(m2) && m2.block_size == m.block_size
                    && m2.stage == match m.stage {
                        ReadStage::First => ReadStage::Second,
                        ReadStage::Second => ReadStage::Third,
                        _ => ReadStage::Fourth,
                    } && r == AttemptProgress::Command(m2.pending()),
                (AttemptPhase::Single(_), AttemptReply::Tape(Err(_))) =>
                    fallback_ensures(ParseRoute::Primary, *old(ops), *final(self), r),
                (AttemptPhase::Single(m), AttemptReply::Tape(Ok(TapeReply::Position(pos)))) =>
                    final(self).phase matches AttemptPhase::Single(m2) && m2.block_size == m.block_size
                    && m2.stage == ReadStage::Third && m2.fallback == (pos.file_number <= 1)
                    && (pos.file_number > 1 ==> m2.target == pos.file_number - 1)
                    && r == AttemptProgress::Command(m2.pending()),
                (AttemptPhase::Single(_), AttemptReply::Tape(Ok(TapeReply::Text(x)))) =>
                    single_text_outcome(x@, *old(ops), *final(self), r),
                (AttemptPhase::Single(_), AttemptReply::Tape(Ok(TapeReply::Bytes(b)))) =>
                    single_text_outcome(utf8_lossy(b@), *old(ops), *final(self), r),
                (AttemptPhase::Single(m), AttemptReply::Tape(Ok(TapeReply::Done))) =>
                    final(self).phase matches AttemptPhase::Single(m2) && m2.block_size == m.block_size
                    && m2.fallback == m.fallback && m2.target == m.target
                    && m2.stage == match m.stage {
                        ReadStage::First => ReadStage::Second,
                        ReadStage::Third => ReadStage::Fourth,
                        _ => ReadStage::Fifth,
                    } && r == AttemptProgress::Command(m2.pending()),
                (AttemptPhase::LocateLabelBlock, AttemptReply::Tape(Err(e))) => r == AttemptProgress::Finished(Err(e)),
                (AttemptPhase::LocateLabelBlock, AttemptReply::Tape(Ok(_))) =>
                    final(self).phase is ReadLabelBlock && r == AttemptProgress::Command(TapeCommand::ReadBlocks(1, 65536)),
                (AttemptPhase::ReadLabelBlock, AttemptReply::Tape(Err(e))) => r == AttemptProgress::Finished(Err(e)),
                (AttemptPhase::ReadLabelBlock, AttemptReply::Tape(Ok(TapeReply::Bytes(b)))) =>
                    if is_ltfs_vol1_label(b@) && old(ops).get_extra_partition_count_spec() > 0 {
                        &&& final(self).phase matches AttemptPhase::DataEod(m2) && m2.stage == ReadStage::First
                            && m2.block_size == label_block_size(*old(ops))
                        &&& r == AttemptProgress::Command(TapeCommand::LocateBlock(1, 0))
                    } else {
                        fallback_ensures(ParseRoute::FileMark, *old(ops), *final(self), r)
                    },
                (AttemptPhase::DataEod(_), AttemptReply::Tape(Err(_))) =>
                    fallback_ensures(ParseRoute::DataEod, *old(ops), *final(self), r),
                (AttemptPhase::DataEod(m), AttemptReply::Tape(Ok(TapeReply::Position(pos)))) =>
                    if m.stage == ReadStage::Third && pos.file_number <= 1 {
                        fallback_ensures(ParseRoute::DataEod, *old(ops), *final(self), r)
                    } else {
                        &&& final(self).phase matches AttemptPhase::DataEod(m2) && m2.block_size == m.block_size
                            && (if m.stage == ReadStage::Third {
                                m2.stage == ReadStage::Fourth && m2.target == pos.file_number - 1
                            } else {
                                m2.stage == ReadStage::Seventh && m2.target == m.target
                            }) && r == AttemptProgress::Command(m2.pending())
                    },
                (AttemptPhase::DataEod(_), AttemptReply::Tape(Ok(TapeReply::Text(x)))) =>
                    text_outcome(ParseRoute::DataEod, x@, *old(ops), *final(self), r),
                (AttemptPhase::DataEod(m), AttemptReply::Tape(Ok(_))) =>
                    final(self).phase matches AttemptPhase::DataEod(m2) && m2.block_size == m.block_size
                    && m2.target == m.target && m2.stage == match m.stage {
                        ReadStage::First => ReadStage::Second,
                        ReadStage::Second => ReadStage::Third,
                        ReadStage::Fourth => ReadStage::Fifth,
                        _ => ReadStage::Sixth,
                    } && r == AttemptProgress::Command(m2.pending()),
                (AttemptPhase::FileMark, AttemptReply::Tape(Ok(TapeReply::Text(x)))) =>
                    text_outcome(ParseRoute::FileMark, x@, *old(ops), *final(self), r),
                (AttemptPhase::FileMark, AttemptReply::Tape(_)) =>
                    fallback_ensures(ParseRoute::FileMark, *old(ops), *final(self), r),
                (AttemptPhase::LatestEod(m), AttemptReply::Tape(t)) => {
                    ||| (t matches Ok(TapeReply::Text(x)) && has_index_tags(x@)
                        && final(self).phase == AttemptPhase::Parse(ParseRoute::LatestEod) && r == AttemptProgress::Parse(x))
                    ||| (final(self).phase matches AttemptPhase::LatestEod(m2) && eod_moves(m, t, m2)
                        && r == AttemptProgress::Command(m2.pending()))
                    ||| (final(self).phase is Finished && (r matches AttemptProgress::Finished(Err(e)) && eod_fails(m, t, e)))
                },
                (AttemptPhase::Parse(route), AttemptReply::Parsed(Err(_))) => fallback_ensures(route, *old(ops), *final(self), r),
                (AttemptPhase::Parse(_), AttemptReply::Parsed(Ok(_))) => r == AttemptProgress::Finished(Ok(())),
                _ => false,
            },
    {
        let mut cur = AttemptPhase::Finished;
        std::mem::swap(&mut cur, &mut self.phase);
        match cur {
            AttemptPhase::Label(mut m) => {
                let t = match reply {
                    AttemptReply::Tape(t) => t,
                    AttemptReply::Parsed(_) => {
                        return AttemptProgress::Finished(Ok(()));
                    },
                };
                match m.step(t) {
                    LabelProgress::Command(c) => {
                        self.phase = AttemptPhase::Label(m);
                        AttemptProgress::Command(c)
                    },
                    LabelProgress::Finished(res) => {
                        match res {
                            Ok(label) => {
                                ops.partition_label = Some(label);
                            },
                            Err(_) => {
                                let mut l = LtfsPartitionLabel::default();
                                l.blocksize = 524288;
                                ops.partition_label = Some(l);
                            },
                        }
                        self.phase = AttemptPhase::VariableBlockMode;
                        AttemptProgress::Command(TapeCommand::SetBlockSize(0))
                    },
                }
            },
            AttemptPhase::VariableBlockMode => {
                if ops.get_extra_partition_count() > 0 {
                    let m = ops.try_read_index_dual_partition();
                    self.phase = AttemptPhase::Dual(m);
                    AttemptProgress::Command(TapeCommand::LocateToFileMark(3, 0))
                } else {
                    let m = ops.try_read_index_single_partition();
                    self.phase = AttemptPhase::Single(m);
                    AttemptProgress::Command(TapeCommand::LocateToEod(0))
                }
            },
            AttemptPhase::Dual(mut m) => {
                let t = match reply {
                    AttemptReply::Tape(t) => t,
                    AttemptReply::Parsed(_) => {
                        return AttemptProgress::Finished(Ok(()));
                    },
                };
                match m.step(t) {
                    Progress::Command(c) => {
                        self.phase = AttemptPhase::Dual(m);
                        AttemptProgress::Command(c)
                    },
                    Progress::Finished(Ok(xml)) => self.primary_text(ops, xml),
                    Progress::Finished(Err(_)) => self.fall_back(ParseRoute::Primary, ops),
                }
            },
            AttemptPhase::Single(mut m) => {
                let t = match reply {
                    AttemptReply::Tape(t) => t,
                    AttemptReply::Parsed(_) => {
                        return AttemptProgress::Finished(Ok(()));
                    },
                };
                match m.step(ops, t) {
                    Progress::Command(c) => {
                        self.phase = AttemptPhase::Single(m);
                        AttemptProgress::Command(c)
                    },
                    Progress::Finished(Ok(xml)) => self.primary_text(ops, xml),
                    Progress::Finished(Err(_)) => self.fall_back(ParseRoute::Primary, ops),
                }
            },
            AttemptPhase::LocateLabelBlock => match reply {
                AttemptReply::Tape(Err(e)) => AttemptProgress::Finished(Err(e)),
                _ => {
                    self.phase = AttemptPhase::ReadLabelBlock;
                    AttemptProgress::Command(TapeCommand::ReadBlocks(1, 65536))
                },
            },
            AttemptPhase::ReadLabelBlock => match reply {
                AttemptReply::Tape(Err(e)) => AttemptProgress::Finished(Err(e)),
                AttemptReply::Tape(Ok(TapeReply::Bytes(b))) => {
                    let vol1 = crate::label::parse_vol1_label(&b);
                    if vol1 && ops.get_extra_partition_count() > 0 {
                        let m = ops.read_index_from_data_partition_eod();
                        self.phase = AttemptPhase::DataEod(m);
                        AttemptProgress::Command(TapeCommand::LocateBlock(1, 0))
                    } else {
                        self.to_latest_eod(ops)
                    }
                },
                _ => self.to_latest_eod(ops),
            },
            AttemptPhase::DataEod(mut m) => {
                let t = match reply {
                    AttemptReply::Tape(t) => t,
                    AttemptReply::Parsed(_) => {
                        return AttemptProgress::Finished(Ok(()));
                    },
                };
                match m.step(t) {
                    Progress::Command(c) => {
                        self.phase = AttemptPhase::DataEod(m);
                        AttemptProgress::Command(c)
                    },
                    Progress::Finished(Ok(xml)) => self.text_found(ParseRoute::DataEod, ops, xml),
                    Progress::Finished(Err(_)) => self.fall_back(ParseRoute::DataEod, ops),
                }
            },
            AttemptPhase::FileMark => match reply {
                AttemptReply::Tape(Ok(TapeReply::Text(xml))) => self.text_found(ParseRoute::FileMark, ops, xml),
                _ => self.fall_back(ParseRoute::FileMark, ops),
            },
            AttemptPhase::LatestEod(mut m) => {
                let t = match reply {
                    AttemptReply::Tape(t) => t,
                    AttemptReply::Parsed(_) => {
                        return AttemptProgress::Finished(Ok(()));
                    },
                };
                match m.step(t) {
                    Progress::Command(c) => {
                        self.phase = AttemptPhase::LatestEod(m);
                        AttemptProgress::Command(c)
                    },
                    Progress::Finished(Ok(xml)) => self.text_found(ParseRoute::LatestEod, ops, xml),
                    Progress::Finished(Err(e)) => AttemptProgress::Finished(Err(e)),
                }
            },
            AttemptPhase::Parse(route) => match reply {
                AttemptReply::Parsed(Ok(index)) => {
                    ops.schema = Some(crate::index::clone_index(&index));
                    ops.index = Some(index);
                    AttemptProgress::Finished(Ok(()))
                },
                _ => self.fall_back(route, ops),
            },
            AttemptPhase::Finished => AttemptProgress::Finished(Ok(())),
        }
    }

    fn primary_text(&mut self, ops: &TapeOperations, xml: String) -> (r: AttemptProgress)
        ensures
            has_index_tags(xml@) ==> final(self).phase == AttemptPhase::Parse(ParseRoute::Primary) && r == AttemptProgress::Parse(xml),
            !has_index_tags(xml@) ==> fallback_ensures(ParseRoute::Primary, *ops, *final(self), r),
    {
        if has_index_tags_exec(xml.as_str()) {
            self.phase = AttemptPhase::Parse(ParseRoute::Primary);
            AttemptProgress::Parse(xml)
        } else {
            self.fall_back(ParseRoute::Primary, ops)
        }
    }
}

/// The retries of `read_index_from_tape`: up to three attempts; before the
/// second and third the tape is rewound (block 0 of partition 0, whatever
/// that gives) after a 2 s pause.
pub struct IndexReadRetry {
    pub attempt: u32,
}

/// What to do after an attempt.
#[derive(Debug, Clone, PartialEq, Eq)]
pub enum RetryStep {
    /// The index is loaded.
    Loaded,
    /// Wait 2 s, rewind (LOCATE block 0 of partition 0, ignoring its
    /// outcome) and make attempt number `0`.
    Retry(u32),
    /// Give up with the last attempt's error.
    GiveUp(RustLtfsError),
}

impl TapeOperations {
    /// The retries of the index load; the first attempt is number 1.
    pub fn read_index_from_tape(&self) -> (r: IndexReadRetry)
        ensures
            r.attempt == 1,
    {
        IndexReadRetry { attempt: 1 }
    }
}

impl IndexReadRetry {
    /// Takes the outcome of the current attempt: success ends the retries;
    /// a failure of attempt 1 or 2 leads to the next attempt; the failure
    /// of attempt 3 is the result.
    pub fn attempt_finished(&mut self, outcome: Result<(), RustLtfsError>) -> (r: RetryStep)
        requires
            1 <= old(self).attempt <= 3,
        ensures
            outcome is Ok ==> r == RetryStep::Loaded,
            outcome matches Err(e) ==> if old(self).attempt < 3 {
                r == RetryStep::Retry((old(self).attempt + 1) as u32) && final(self).attempt == old(self).attempt + 1
            } else {
                r == RetryStep::GiveUp(e)
            },
            1 <= final(self).attempt <= 3,
    {
        match outcome {
            Ok(()) => RetryStep::Loaded,
            Err(e) => {
                if self.attempt < 3 {
                    self.attempt = self.attempt + 1;
                    RetryStep::Retry(self.attempt)
                } else {
                    RetryStep::GiveUp(e)
                }
            },
        }
    }
}

impl TapeOperations {
    /// The read of the index text at the current position: to the next
    /// file mark with the label block size.
    pub fn read_index_xml_from_tape_with_file_mark(&self) -> (c: TapeCommand)
        ensures
            c == TapeCommand::ReadToFileMark(label_block_size(*self)),
    {
        TapeCommand::ReadToFileMark(self.index_block_size())
    }

    /// The same read, as the end-of-data route issues it.
    pub fn try_read_index_at_current_position_with_filemarks(&self) -> (c: TapeCommand)
        ensures
            c == TapeCommand::ReadToFileMark(label_block_size(*self)),
    {
        TapeCommand::ReadToFileMark(self.index_block_size())
    }
}

/// A read after a file mark, LTFSCopyGUI style: a positioning command, a
/// skip of the file mark, a read up to the next one with 512 KiB blocks;
/// the data gives the index text as `index_text_from_file_mark_data` does.
pub struct FileMarkScript {
    pub first: TapeCommand,
    pub stage: ReadStage,
}

impl FileMarkScript {
    pub open spec fn pending(&self) -> TapeCommand {
        match self.stage {
            ReadStage::First => self.first,
            ReadStage::Second => TapeCommand::ReadFileMark,
            _ => TapeCommand::ReadToFileMarkRaw(524288),
        }
    }

    pub fn pending_command(&self) -> (c: TapeCommand)
        ensures
            c == self.pending(),
    {
        match self.stage {
            ReadStage::First => self.first,
            ReadStage::Second => TapeCommand::ReadFileMark,
            _ => TapeCommand::ReadToFileMarkRaw(524288),
        }
    }

    /// Takes the reply to the pending command: any failure ends the read
    /// with that error; the bytes read give the index text.
    pub fn step(&mut self, ops: &TapeOperations, reply: Result<TapeReply, RustLtfsError>) -> (r: Progress)
        requires
            old(self).stage != ReadStage::Finished,
            fits(old(self).pending(), reply),
        ensures
            final(self).first == old(self).first,
            r is Command ==> final(self).stage != ReadStage::Finished && r == Progress::Command(final(self).pending()),
            r is Finished ==> final(self).stage == ReadStage::Finished,
            match reply {
                Err(e) => r == Progress::Finished(Err(e)),
                Ok(TapeReply::Bytes(b)) => r matches Progress::Finished(x) && schema_or_rewrite(utf8_lossy(b@), x),
                Ok(_) => r is Command && final(self).stage == match old(self).stage {
                    ReadStage::First => ReadStage::Second,
                    _ => ReadStage::Third,
                },
            },
    {
        match reply {
            Err(e) => {
                self.stage = ReadStage::Finished;
                Progress::Finished(Err(e))
            },
            Ok(TapeReply::Bytes(b)) => {
                self.stage = ReadStage::Finished;
                Progress::Finished(ops.index_text_from_file_mark_data(&b))
            },
            Ok(_) => {
                self.stage = match self.stage {
                    ReadStage::First => ReadStage::Second,
                    _ => ReadStage::Third,
                };
                Progress::Command(self.pending_command())
            },
        }
    }
}

impl TapeOperations {
    /// LTFSCopyGUI's standard route: file mark 1 of `partition`.
    pub fn ltfscopygui_standard_filemark_strategy(&self, partition: u8) -> (m: FileMarkScript)
        ensures
            m.first == TapeCommand::LocateToFileMark(1, partition),
            m.stage == ReadStage::First,
    {
        FileMarkScript { first: TapeCommand::LocateToFileMark(1, partition), stage: ReadStage::First }
    }

    /// LTFSCopyGUI's route without partitions: two file marks back.
    pub fn ltfscopygui_disable_partition_fallback(&self) -> (m: FileMarkScript)
        ensures
            m.first == TapeCommand::SpaceFileMarks(-2i32),
            m.stage == ReadStage::First,
    {
        FileMarkScript { first: TapeCommand::SpaceFileMarks(-2), stage: ReadStage::First }
    }

    /// The index text read to the file mark at the current position
    /// (`read`), without NULs and surrounding white space; empty text is an
    /// error.
    pub fn try_read_index_at_current_position_advanced_sync(&self, read: Result<String, RustLtfsError>) -> (r: Result<String, RustLtfsError>)
        ensures
            match read {
                Err(e) => r == Err::<String, RustLtfsError>(e),
                Ok(t) => if cleaned(t@).len() == 0 {
                    r matches Err(e) && e is LtfsIndex
                } else {
                    r matches Ok(x) && x@ == cleaned(t@)
                },
            },
    {
        match read {
            Err(e) => Err(e),
            Ok(t) => {
                let cs = str_to_chars(t.as_str());
                let c = clean_index_text(&cs);
                if c.len() == 0 {
                    Err(RustLtfsError::LtfsIndex("Index XML is empty".to_owned()))
                } else {
                    Ok(chars_to_string(&c))
                }
            },
        }
    }

    /// The read of the index at the current position: to the next file
    /// mark with the label block size.
    pub fn try_read_index_at_current_position_advanced(&self) -> (c: TapeCommand)
        ensures
            c == TapeCommand::ReadToFileMark(label_block_size(*self)),
    {
        TapeCommand::ReadToFileMark(self.index_block_size())
    }
}

impl DataPartitionIndexReader {
    /// The read of the index data at the current position: to the next
    /// file mark with 64 KiB blocks, as bytes.
    pub fn read_index_data_from_current_position(&self) -> (c: TapeCommand)
        ensures
            c == TapeCommand::ReadToFileMarkRaw(65536),
    {
        TapeCommand::ReadToFileMarkRaw(65536)
    }
}

} // verus!
