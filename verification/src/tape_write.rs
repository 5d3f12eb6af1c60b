use vstd::prelude::*;
use crate::error::{error_message, RustLtfsError};
use crate::index::{
    base_generation, base_hi, base_root, dir_view, ensure_path, path_parts, tree_find_name, LtfsIndex,
};
use crate::listing::WriteResult;
use crate::ops::{TapeOperations, TapePosition};
use crate::text::{chars_to_string, lowercase, push_str, str_to_chars};
use crate::update::{blocks_for, check_blocks_written};
use crate::write::{
    admission_of, enhanced_index_update, entry_target_path, excluded_by, hashes_view, names_sorted,
    new_directory_entry, same_file, sort_file_names, speed_limit_delay, EntryTimes, FileWriteDecision,
};

verus! {

/// The largest file a write accepts: 8 TiB, the limit of the space check.
pub open spec fn max_file_size() -> nat {
    8 * 1024 * 1024 * 1024 * 1024
}

/// The data written for a file of `size` bytes whose content is `c`: the
/// content, then zeros up to whole 64 KiB blocks for `size` bytes.
pub open spec fn data_buffer(c: Seq<u8>, size: u64) -> Seq<u8> {
    Seq::new(blocks_for(size as nat, 65536) * 65536, |i: int| if i < c.len() { c[i] } else { 0u8 })
}

/// The block the data write starts from when the tape is not yet on the
/// data partition: the current block, but at least 100.
pub open spec fn data_start_block(p: TapePosition) -> u64 {
    if p.block_number < 100 { 100 } else { p.block_number }
}

/// A drive command of the file data write.
#[derive(Debug, Clone, PartialEq, Eq)]
pub enum DataWriteCommand {
    /// Read the whole local source file.
    ReadSource,
    /// READ POSITION.
    ReadPosition,
    /// LOCATE to this partition and block.
    LocateBlock(u8, u64),
    /// WRITE this many blocks of 64 KiB from the buffer.
    WriteBlocks(u32, Vec<u8>),
    /// WRITE FILEMARKS, one mark.
    WriteFileMark,
}

/// What the caller hands back after a command.
pub enum DataWriteReply {
    /// The content of the source file.
    Content(Vec<u8>),
    /// The position READ POSITION reported.
    Position(TapePosition),
    /// The command succeeded.
    Done,
    /// The number of blocks WRITE reported written.
    BlocksWritten(u32),
}

#[derive(Debug, Clone, Copy, PartialEq, Eq, Structural)]
pub enum DataWriteStage {
    ReadingSource,
    ReadingPosition,
    Locating,
    ReadingWritePosition,
    Writing,
    WritingFileMark,
    Finished,
}

/// The next move of the file data write.
pub enum DataWriteProgress {
    Command(DataWriteCommand),
    Finished(Result<WriteResult, RustLtfsError>),
}

/// Writes the data of one file to the data partition: the file is read
/// whole, the tape is moved to the data partition when it is elsewhere
/// (at its current block, at least block 100), the data goes out in whole
/// 64 KiB blocks padded with zeros, and a file mark closes it.
pub struct FileDataWrite {
    pub file_size: u64,
    pub blocks_needed: u32,
    pub stage: DataWriteStage,
    pub buffer: Vec<u8>,
    pub write_position: TapePosition,
}

impl FileDataWrite {
    /// The reply the write waits for fits `r` (content no longer than the
    /// padded data, as the copy into the buffer needs).
    pub open spec fn accepts(&self, r: Result<DataWriteReply, RustLtfsError>) -> bool {
        match self.stage {
            DataWriteStage::ReadingSource => r matches Ok(x) ==> (x matches DataWriteReply::Content(c)
                && c@.len() <= blocks_for(self.file_size as nat, 65536) * 65536),
            DataWriteStage::ReadingPosition => r matches Ok(x) ==> x is Position,
            DataWriteStage::Locating => r matches Ok(x) ==> x is Done,
            DataWriteStage::ReadingWritePosition => r matches Ok(x) ==> x is Position,
            DataWriteStage::Writing => r matches Ok(x) ==> x is BlocksWritten,
            DataWriteStage::WritingFileMark => r matches Ok(x) ==> x is Done,
            DataWriteStage::Finished => false,
        }
    }
}

fn file_operation_error(prefix: &str, e: &RustLtfsError) -> (r: RustLtfsError)
    ensures
        r matches RustLtfsError::FileOperation(m) && m@ == prefix@ + error_message(*e),
{
    let msg: &String = match e {
        RustLtfsError::LtfsIndex(m) => m,
        RustLtfsError::Parse(m) => m,
        RustLtfsError::Scsi(m) => m,
        RustLtfsError::TapeDevice(m) => m,
        RustLtfsError::ParameterValidation(m) => m,
        RustLtfsError::Unsupported(m) => m,
        RustLtfsError::FileOperation(m) => m,
        RustLtfsError::OperationCancelled(m) => m,
    };
    let mut v: Vec<char> = Vec::new();
    push_str(&mut v, prefix);
    push_str(&mut v, msg.as_str());
    RustLtfsError::FileOperation(chars_to_string(&v))
}

fn padded_data(c: &[u8], total: usize) -> (r: Vec<u8>)
    requires
        c@.len() <= total,
    ensures
        r@ == Seq::new(total as nat, |i: int| if i < c@.len() { c@[i] } else { 0u8 }),
{
    let mut r: Vec<u8> = Vec::new();
    let mut i: usize = 0;
    while i < total
        invariant
            i <= total,
            c@.len() <= total,
            r@.len() == i,
            forall|j: int| 0 <= j < i ==> r@[j] == if j < c@.len() { c@[j] } else { 0u8 },
        decreases total - i,
    {
        if i < c.len() {
            r.push(c[i]);
        } else {
            r.push(0);
        }
        i = i + 1;
    }
    assert(r@ =~= Seq::new(total as nat, |i: int| if i < c@.len() { c@[i] } else { 0u8 }));
    r
}

impl TapeOperations {
    /// Starts writing the data of a file of `file_size` bytes; the first
    /// command reads the source file.
    pub fn write_file_data_to_tape(&self, file_size: u64) -> (r: (FileDataWrite, DataWriteCommand))
        requires
            file_size <= max_file_size(),
            blocks_for(file_size as nat, 65536) * 65536 <= usize::MAX,
        ensures
            r.0.file_size == file_size,
            r.0.blocks_needed == blocks_for(file_size as nat, 65536),
            r.0.stage == DataWriteStage::ReadingSource,
            r.1 == DataWriteCommand::ReadSource,
    {
        let blocks: u64 = (file_size + 65535) / 65536;
        (
            FileDataWrite {
                file_size,
                blocks_needed: blocks as u32,
                stage: DataWriteStage::ReadingSource,
                buffer: Vec::new(),
                write_position: TapePosition { partition: 0, block_number: 0, file_number: 0, set_number: 0 },
            },
            DataWriteCommand::ReadSource,
        )
    }
}

impl FileDataWrite {
    /// Takes the reply to the last command.  A failed command ends the
    /// write with its error (a failed read of the source as a file
    /// operation error); a short write is a SCSI error.
    pub fn step(&mut self, reply: Result<DataWriteReply, RustLtfsError>) -> (r: DataWriteProgress)
        requires
            old(self).accepts(reply),
            old(self).file_size <= max_file_size(),
            old(self).blocks_needed == blocks_for(old(self).file_size as nat, 65536),
            blocks_for(old(self).file_size as nat, 65536) * 65536 <= usize::MAX,
        ensures
            final(self).file_size == old(self).file_size,
            final(self).blocks_needed == old(self).blocks_needed,
            r is Finished <==> final(self).stage == DataWriteStage::Finished,
            match (old(self).stage, reply) {
                (_, Err(e)) => final(self).stage == DataWriteStage::Finished && if old(self).stage
                    == DataWriteStage::ReadingSource {
                    r matches DataWriteProgress::Finished(Err(RustLtfsError::FileOperation(m)))
                        && m@ == "Unable to read file: "@ + error_message(e)
                } else {
                    r == DataWriteProgress::Finished(Err(e))
                },
                (DataWriteStage::ReadingSource, Ok(DataWriteReply::Content(c))) => {
                    &&& final(self).buffer@ == data_buffer(c@, old(self).file_size)
                    &&& final(self).stage == DataWriteStage::ReadingPosition
                    &&& r == DataWriteProgress::Command(DataWriteCommand::ReadPosition)
                },
                (DataWriteStage::ReadingPosition, Ok(DataWriteReply::Position(p))) => {
                    &&& final(self).buffer@ == old(self).buffer@
                    &&& if p.partition != 1 {
                        final(self).stage == DataWriteStage::Locating && r == DataWriteProgress::Command(
                            DataWriteCommand::LocateBlock(1, data_start_block(p)),
                        )
                    } else {
                        final(self).stage == DataWriteStage::ReadingWritePosition && r
                            == DataWriteProgress::Command(DataWriteCommand::ReadPosition)
                    }
                },
                (DataWriteStage::Locating, Ok(_)) => final(self).buffer@ == old(self).buffer@
                    && final(self).stage == DataWriteStage::ReadingWritePosition
                    && r == DataWriteProgress::Command(DataWriteCommand::ReadPosition),
                (DataWriteStage::ReadingWritePosition, Ok(DataWriteReply::Position(p))) => {
                    &&& final(self).write_position == p
                    &&& final(self).stage == DataWriteStage::Writing
                    &&& r matches DataWriteProgress::Command(DataWriteCommand::WriteBlocks(n, b)) && n
                        == old(self).blocks_needed && b@ == old(self).buffer@
                },
                (DataWriteStage::Writing, Ok(DataWriteReply::BlocksWritten(n))) => if n == old(
                    self,
                ).blocks_needed {
                    final(self).stage == DataWriteStage::WritingFileMark && final(self).write_position
                        == old(self).write_position && r == DataWriteProgress::Command(
                        DataWriteCommand::WriteFileMark,
                    )
                } else {
                    final(self).stage == DataWriteStage::Finished && (r matches DataWriteProgress::Finished(
                        Err(e),
                    ) && e is Scsi)
                },
                (DataWriteStage::WritingFileMark, Ok(_)) => final(self).stage == DataWriteStage::Finished
                    && (r matches DataWriteProgress::Finished(Ok(w)) && w.position == old(self).write_position
                    && w.blocks_written == old(self).blocks_needed && w.bytes_written == old(self).file_size),
                _ => false,
            },
    {
        match reply {
            Err(e) => {
                let was_reading = self.stage == DataWriteStage::ReadingSource;
                self.stage = DataWriteStage::Finished;
                if was_reading {
                    DataWriteProgress::Finished(Err(file_operation_error("Unable to read file: ", &e)))
                } else {
                    DataWriteProgress::Finished(Err(e))
                }
            },
            Ok(x) => match self.stage {
                DataWriteStage::ReadingSource => {
                    match x {
                        DataWriteReply::Content(c) => {
                            let total: usize = (self.blocks_needed as usize) * 65536;
                            self.buffer = padded_data(c.as_slice(), total);
                            assert(self.buffer@ =~= data_buffer(c@, self.file_size));
                            self.stage = DataWriteStage::ReadingPosition;
                            DataWriteProgress::Command(DataWriteCommand::ReadPosition)
                        },
                        _ => {
                            self.stage = DataWriteStage::Finished;
                            DataWriteProgress::Finished(Err(RustLtfsError::Scsi("Unexpected reply".to_owned())))
                        },
                    }
                },
                DataWriteStage::ReadingPosition => {
                    match x {
                        DataWriteReply::Position(p) => {
                            if p.partition != 1 {
                                let start = if p.block_number < 100 { 100 } else { p.block_number };
                                self.stage = DataWriteStage::Locating;
                                DataWriteProgress::Command(DataWriteCommand::LocateBlock(1, start))
                            } else {
                                self.stage = DataWriteStage::ReadingWritePosition;
                                DataWriteProgress::Command(DataWriteCommand::ReadPosition)
                            }
                        },
                        _ => {
                            self.stage = DataWriteStage::Finished;
                            DataWriteProgress::Finished(Err(RustLtfsError::Scsi("Unexpected reply".to_owned())))
                        },
                    }
                },
                DataWriteStage::Locating => {
                    self.stage = DataWriteStage::ReadingWritePosition;
                    DataWriteProgress::Command(DataWriteCommand::ReadPosition)
                },
                DataWriteStage::ReadingWritePosition => {
                    match x {
                        DataWriteReply::Position(p) => {
                            self.write_position = p;
                            self.stage = DataWriteStage::Writing;
                            let mut out: Vec<u8> = Vec::new();
                            std::mem::swap(&mut out, &mut self.buffer);
                            DataWriteProgress::Command(DataWriteCommand::WriteBlocks(self.blocks_needed, out))
                        },
                        _ => {
                            self.stage = DataWriteStage::Finished;
                            DataWriteProgress::Finished(Err(RustLtfsError::Scsi("Unexpected reply".to_owned())))
                        },
                    }
                },
                DataWriteStage::Writing => {
                    match x {
                        DataWriteReply::BlocksWritten(n) => {
                            match check_blocks_written(self.blocks_needed, n) {
                                Ok(()) => {
                                    self.stage = DataWriteStage::WritingFileMark;
                                    DataWriteProgress::Command(DataWriteCommand::WriteFileMark)
                                },
                                Err(e) => {
                                    self.stage = DataWriteStage::Finished;
                                    DataWriteProgress::Finished(Err(e))
                                },
                            }
                        },
                        _ => {
                            self.stage = DataWriteStage::Finished;
                            DataWriteProgress::Finished(Err(RustLtfsError::Scsi("Unexpected reply".to_owned())))
                        },
                    }
                },
                DataWriteStage::WritingFileMark => {
                    self.stage = DataWriteStage::Finished;
                    DataWriteProgress::Finished(
                        Ok(
                            WriteResult {
                                position: self.write_position,
                                blocks_written: self.blocks_needed,
                                bytes_written: self.file_size,
                            },
                        ),
                    )
                },
                DataWriteStage::Finished => {
                    DataWriteProgress::Finished(Err(RustLtfsError::Scsi("Unexpected reply".to_owned())))
                },
            },
        }
    }
}


/// The index of the last '.' of `s`, or -1.
pub open spec fn last_dot(s: Seq<char>) -> int
    decreases s.len(),
{
    if s.len() == 0 {
        -1
    } else if s.last() == '.' {
        s.len() - 1
    } else {
        last_dot(s.drop_last())
    }
}

/// The extension of a file name, as `Path::extension` gives it: what
/// follows the last '.', unless there is none, it is the first character,
/// or the name is "..".
pub open spec fn extension_of(name: Seq<char>) -> Option<Seq<char>> {
    if name == ".."@ || last_dot(name) <= 0 {
        None
    } else {
        Some(name.skip(last_dot(name) + 1))
    }
}

proof fn lemma_last_dot(s: Seq<char>, k: int)
    requires
        0 <= k <= s.len(),
        forall|j: int| k <= j < s.len() ==> s[j] != '.',
    ensures
        last_dot(s) == last_dot(s.take(k)),
    decreases s.len() - k,
{
    if k < s.len() {
        assert(s.drop_last() =~= s.take(s.len() - 1));
        lemma_last_dot(s.drop_last(), k);
        assert(s.drop_last().take(k) =~= s.take(k));
    } else {
        assert(s.take(k) =~= s);
    }
}

/// The extension of a file name (see `extension_of`).
pub fn file_extension(name: &str) -> (r: Option<String>)
    ensures
        match r {
            Some(e) => extension_of(name@) == Some(e@),
            None => extension_of(name@) is None,
        },
{
    let cs = str_to_chars(name);
    let mut k: usize = cs.len();
    while k > 0 && cs[k - 1] != '.'
        invariant
            k <= cs@.len(),
            forall|j: int| k <= j < cs@.len() ==> cs@[j] != '.',
        decreases k,
    {
        k = k - 1;
    }
    proof {
        lemma_last_dot(cs@, k as int);
        if k > 0 {
            assert(cs@.take(k as int).last() == '.');
        } else {
            assert(cs@.take(0) =~= Seq::<char>::empty());
        }
    }
    let dotdot = cs.len() == 2 && cs[0] == '.' && cs[1] == '.';
    proof {
        reveal_strlit("..");
        if dotdot {
            assert(cs@ =~= ".."@);
        } else {
            assert(cs@ != ".."@);
        }
    }
    if dotdot || k <= 1 {
        return None;
    }
    let rest = &cs.as_slice()[k..cs.len()];
    assert(rest@ =~= cs@.skip(k as int));
    Some(chars_to_string(rest))
}

pub open spec fn opt_string_view(o: Option<String>) -> Option<Seq<char>> {
    match o {
        Some(s) => Some(s@),
        None => None,
    }
}

/// What the caller learned of a local file from its metadata.
pub struct LocalFileInfo {
    /// The file name (the caller's stand-in when it has none).
    pub name: String,
    pub size: u64,
    pub is_symlink: bool,
    /// The modification time, in seconds since the epoch.
    pub modified: Option<i64>,
    pub times: EntryTimes,
}

/// An outside step of a file write.
#[derive(Debug, Clone, Copy, PartialEq, Eq, Structural)]
pub enum FileWriteCommand {
    /// Read the metadata of the source file.
    StatSource,
    /// Wait this many milliseconds (the speed limit).
    Sleep(u64),
    /// Wait while the write is paused.
    WaitWhilePaused,
    /// Compute the hashes of the source file.
    ComputeHashes,
    /// Write the file's data (`write_file_data_to_tape` for this size).
    WriteData(u64),
    /// Write the index to tape (`update_index_on_tape`).
    UpdateIndexOnTape,
}

pub enum FileWriteReply {
    Stat(LocalFileInfo),
    /// The wait is over.
    Resumed,
    /// The hashes to record, as (key, value) pairs.
    Hashes(Vec<(String, String)>),
    /// Where and how much the data write put on tape.
    Written(WriteResult),
    /// The command succeeded.
    Done,
}

#[derive(Debug, Clone, Copy, PartialEq, Eq, Structural)]
pub enum FileWriteStage {
    Stat,
    Sleeping,
    Paused,
    Hashing,
    Writing,
    IndexUpdate,
    Finished,
}

pub enum FileWriteProgress {
    Command(FileWriteCommand),
    Finished(Result<(), RustLtfsError>),
}

/// Whether the tape already holds a file of the local file's name (looked
/// up in the whole tree, lower case), and whether it is the same file.
pub open spec fn existing_same_of(idx: Option<LtfsIndex>, name: Seq<char>, size: u64, modified: Option<i64>) -> Option<bool> {
    match idx {
        Some(i) => match tree_find_name(dir_view(i.root_directory), lowercase(name)) {
            Some(f) => Some(same_file(size, modified, f)),
            None => None,
        },
        None => None,
    }
}

/// Writes one local file: its metadata decides whether it is written (see
/// `admission_of`); the speed limit and a pause are waited out, a stop ends
/// it; its hashes are computed when configured; its data is written; the
/// index records it; and the index goes to tape once the unindexed bytes
/// reach the index write interval.
pub struct FileWrite {
    pub target_path: String,
    pub stage: FileWriteStage,
    pub name: String,
    pub size: u64,
    pub times: EntryTimes,
    pub hashes: Option<Vec<(String, String)>>,
}

impl FileWrite {
    pub open spec fn accepts(&self, r: Result<FileWriteReply, RustLtfsError>) -> bool {
        match self.stage {
            FileWriteStage::Stat => r matches Ok(x) ==> x is Stat,
            FileWriteStage::Sleeping => r matches Ok(x) ==> x is Done,
            FileWriteStage::Paused => r matches Ok(x) ==> x is Resumed,
            FileWriteStage::Hashing => r matches Ok(x) ==> x is Hashes,
            FileWriteStage::Writing => r matches Ok(x) ==> x is Written,
            FileWriteStage::IndexUpdate => r matches Ok(x) ==> x is Done,
            FileWriteStage::Finished => false,
        }
    }

    /// What the write may rely on when `r` comes: a speed limit is not 0;
    /// the data write reported is recorded without running out of uids,
    /// generations or counter range.
    pub open spec fn fits(&self, ops: TapeOperations, r: Result<FileWriteReply, RustLtfsError>) -> bool {
        &&& ops.write_options.speed_limit != Some(0u32)
        &&& (self.stage == FileWriteStage::Writing && r matches Ok(FileWriteReply::Written(_))) ==> {
            &&& ensure_path(base_root(ops.index), path_parts(self.target_path@), base_hi(ops.index)).1 < u64::MAX
            &&& base_generation(ops.index) < u64::MAX
            &&& ops.write_progress.current_files_processed < u64::MAX
            &&& ops.write_progress.current_bytes_processed + self.size <= u64::MAX
            &&& ops.write_progress.total_bytes_unindexed + self.size <= u64::MAX
        }
    }
}

/// Where the write goes once the speed limit is waited out: a pause is
/// waited out, a stop ends the write, then the hashes are computed when
/// configured, else the data is written.
pub open spec fn after_wait(ops: TapeOperations, w: FileWrite, r: FileWriteProgress) -> bool {
    if ops.pause_flag && !ops.stop_flag {
        w.stage == FileWriteStage::Paused && r == FileWriteProgress::Command(FileWriteCommand::WaitWhilePaused)
    } else if ops.stop_flag {
        w.stage == FileWriteStage::Finished && (r matches FileWriteProgress::Finished(
            Err(RustLtfsError::OperationCancelled(m)),
        ) && m@ == "Write operation stopped"@)
    } else if ops.write_options.hash_on_write {
        w.stage == FileWriteStage::Hashing && r == FileWriteProgress::Command(FileWriteCommand::ComputeHashes)
    } else {
        w.stage == FileWriteStage::Writing && w.hashes is None && r == FileWriteProgress::Command(
            FileWriteCommand::WriteData(w.size),
        )
    }
}

/// The speed-limit wait for `size` bytes, when there is one to wait.
pub open spec fn speed_wait(ops: TapeOperations, size: u64) -> int {
    match ops.write_options.speed_limit {
        Some(mbps) => speed_limit_delay(size, mbps),
        None => 0,
    }
}

impl TapeOperations {
    /// Starts writing the local file to `target_path`: refused once a stop
    /// was asked; offline it is only counted; otherwise its metadata is
    /// read first.
    pub fn write_file_to_tape(&mut self, target_path: &str) -> (r: (FileWrite, FileWriteProgress))
        requires
            !old(self).stop_flag && old(self).offline_mode
                ==> old(self).write_progress.current_files_processed < u64::MAX,
        ensures
            r.0.target_path@ == target_path@,
            old(self).stop_flag ==> (r.1 matches FileWriteProgress::Finished(Err(e)) && e is OperationCancelled)
                && r.0.stage == FileWriteStage::Finished && *final(self) == *old(self),
            !old(self).stop_flag && old(self).offline_mode ==> r.1 == FileWriteProgress::Finished(Ok(()))
                && r.0.stage == FileWriteStage::Finished
                && final(self).write_progress.current_files_processed
                    == old(self).write_progress.current_files_processed + 1
                && final(self).index == old(self).index,
            !old(self).stop_flag && !old(self).offline_mode ==> r.1 == FileWriteProgress::Command(
                FileWriteCommand::StatSource,
            ) && r.0.stage == FileWriteStage::Stat && *final(self) == *old(self),
    {
        let mut w = FileWrite {
            target_path: target_path.to_owned(),
            stage: FileWriteStage::Stat,
            name: String::new(),
            size: 0,
            times: EntryTimes { creation: None, modify: None, access: None },
            hashes: None,
        };
        match self.begin_file_write() {
            Err(e) => {
                w.stage = FileWriteStage::Finished;
                (w, FileWriteProgress::Finished(Err(e)))
            },
            Ok(false) => {
                w.stage = FileWriteStage::Finished;
                (w, FileWriteProgress::Finished(Ok(())))
            },
            Ok(true) => (w, FileWriteProgress::Command(FileWriteCommand::StatSource)),
        }
    }
}

impl FileWrite {
    fn continue_after_wait(&mut self, ops: &TapeOperations) -> (r: FileWriteProgress)
        ensures
            after_wait(*ops, *final(self), r),
            final(self).target_path == old(self).target_path,
            final(self).name == old(self).name,
            final(self).size == old(self).size,
            final(self).times == old(self).times,
    {
        if ops.pause_flag && !ops.stop_flag {
            self.stage = FileWriteStage::Paused;
            return FileWriteProgress::Command(FileWriteCommand::WaitWhilePaused);
        }
        if ops.stop_flag {
            self.stage = FileWriteStage::Finished;
            return FileWriteProgress::Finished(Err(RustLtfsError::OperationCancelled("Write operation stopped".to_owned())));
        }
        if ops.write_options.hash_on_write {
            self.stage = FileWriteStage::Hashing;
            FileWriteProgress::Command(FileWriteCommand::ComputeHashes)
        } else {
            self.hashes = None;
            self.stage = FileWriteStage::Writing;
            FileWriteProgress::Command(FileWriteCommand::WriteData(self.size))
        }
    }

    /// Takes the reply to the last command and gives the next move.  A
    /// failed metadata read is a file operation error; any other failure
    /// ends the write with its error.
    pub fn step(&mut self, ops: &mut TapeOperations, reply: Result<FileWriteReply, RustLtfsError>) -> (r: FileWriteProgress)
        requires
            old(self).accepts(reply),
            old(self).fits(*old(ops), reply),
        ensures
            r is Finished <==> final(self).stage == FileWriteStage::Finished,
            final(self).target_path == old(self).target_path,
            final(ops).write_options == old(ops).write_options,
            !(old(self).stage == FileWriteStage::Writing && reply is Ok) ==> *final(ops) == *old(ops),
            match (old(self).stage, reply) {
                (FileWriteStage::Stat, Err(e)) => final(self).stage == FileWriteStage::Finished && (r matches FileWriteProgress::Finished(
                    Err(RustLtfsError::FileOperation(m)),
                ) && m@ == "Unable to get file information: "@ + error_message(e)),
                (_, Err(e)) => final(self).stage == FileWriteStage::Finished && r == FileWriteProgress::Finished(Err(e)),
                (FileWriteStage::Stat, Ok(FileWriteReply::Stat(info))) => {
                    let d = admission_of(
                        old(ops).write_options,
                        extension_of(info.name@),
                        info.is_symlink,
                        existing_same_of(old(ops).index, info.name@, info.size, info.modified),
                        info.size,
                    );
                    &&& final(self).name == info.name
                    &&& final(self).size == info.size
                    &&& final(self).times == info.times
                    &&& match d {
                        None => final(self).stage == FileWriteStage::Finished && (r matches FileWriteProgress::Finished(Err(e))
                            && e is TapeDevice),
                        Some(FileWriteDecision::Write) => if speed_wait(*old(ops), info.size) > 0 {
                            final(self).stage == FileWriteStage::Sleeping && r == FileWriteProgress::Command(
                                FileWriteCommand::Sleep(speed_wait(*old(ops), info.size) as u64),
                            )
                        } else {
                            after_wait(*old(ops), *final(self), r)
                        },
                        Some(_) => final(self).stage == FileWriteStage::Finished && r == FileWriteProgress::Finished(Ok(())),
                    }
                },
                (FileWriteStage::Sleeping, Ok(_)) => after_wait(*old(ops), *final(self), r) && final(self).size == old(self).size,
                (FileWriteStage::Paused, Ok(_)) => after_wait(*old(ops), *final(self), r) && final(self).size == old(self).size,
                (FileWriteStage::Hashing, Ok(FileWriteReply::Hashes(h))) => final(self).stage == FileWriteStage::Writing
                    && final(self).hashes == Some(h) && r == FileWriteProgress::Command(FileWriteCommand::WriteData(old(self).size)),
                (FileWriteStage::Writing, Ok(FileWriteReply::Written(w))) => {
                    &&& enhanced_index_update(
                        old(ops).index,
                        final(ops).index,
                        old(self).name@,
                        old(self).target_path@,
                        old(self).size,
                        w.position,
                        old(self).times,
                        hashes_view(old(self).hashes),
                    )
                    &&& final(ops).modified
                    &&& final(ops).write_progress.current_files_processed == old(ops).write_progress.current_files_processed + 1
                    &&& final(ops).write_progress.current_bytes_processed == old(ops).write_progress.current_bytes_processed + old(self).size
                    &&& final(ops).write_progress.total_bytes_unindexed == old(ops).write_progress.total_bytes_unindexed + old(self).size
                    &&& final(ops).write_progress.files_written == old(ops).write_progress.files_written
                    &&& final(ops).write_progress.bytes_written == old(ops).write_progress.bytes_written
                    &&& if final(ops).write_progress.total_bytes_unindexed >= old(ops).write_options.index_write_interval {
                        final(self).stage == FileWriteStage::IndexUpdate && r == FileWriteProgress::Command(FileWriteCommand::UpdateIndexOnTape)
                    } else {
                        final(self).stage == FileWriteStage::Finished && r == FileWriteProgress::Finished(Ok(()))
                    }
                },
                (FileWriteStage::IndexUpdate, Ok(_)) => final(self).stage == FileWriteStage::Finished && r == FileWriteProgress::Finished(Ok(())),
                _ => false,
            },
    {
        match reply {
            Err(e) => {
                let at_stat = self.stage == FileWriteStage::Stat;
                self.stage = FileWriteStage::Finished;
                if at_stat {
                    FileWriteProgress::Finished(Err(file_operation_error("Unable to get file information: ", &e)))
                } else {
                    FileWriteProgress::Finished(Err(e))
                }
            },
            Ok(x) => match self.stage {
                FileWriteStage::Stat => match x {
                    FileWriteReply::Stat(info) => self.decide(ops, info),
                    _ => {
                        self.stage = FileWriteStage::Finished;
                        FileWriteProgress::Finished(Ok(()))
                    },
                },
                FileWriteStage::Sleeping => self.continue_after_wait(ops),
                FileWriteStage::Paused => self.continue_after_wait(ops),
                FileWriteStage::Hashing => match x {
                    FileWriteReply::Hashes(h) => {
                        self.hashes = Some(h);
                        self.stage = FileWriteStage::Writing;
                        FileWriteProgress::Command(FileWriteCommand::WriteData(self.size))
                    },
                    _ => {
                        self.stage = FileWriteStage::Finished;
                        FileWriteProgress::Finished(Ok(()))
                    },
                },
                FileWriteStage::Writing => match x {
                    FileWriteReply::Written(w) => self.record(ops, w),
                    _ => {
                        self.stage = FileWriteStage::Finished;
                        FileWriteProgress::Finished(Ok(()))
                    },
                },
                FileWriteStage::IndexUpdate => {
                    self.stage = FileWriteStage::Finished;
                    FileWriteProgress::Finished(Ok(()))
                },
                FileWriteStage::Finished => FileWriteProgress::Finished(Ok(())),
            },
        }
    }

    fn decide(&mut self, ops: &TapeOperations, info: LocalFileInfo) -> (r: FileWriteProgress)
        requires
            ops.write_options.speed_limit != Some(0u32),
        ensures
            final(self).target_path == old(self).target_path,
            r is Finished <==> final(self).stage == FileWriteStage::Finished,
            ({
                let d = admission_of(
                    ops.write_options,
                    extension_of(info.name@),
                    info.is_symlink,
                    existing_same_of(ops.index, info.name@, info.size, info.modified),
                    info.size,
                );
                &&& final(self).name == info.name
                &&& final(self).size == info.size
                &&& final(self).times == info.times
                &&& match d {
                    None => final(self).stage == FileWriteStage::Finished && (r matches FileWriteProgress::Finished(Err(e))
                        && e is TapeDevice),
                    Some(FileWriteDecision::Write) => if speed_wait(*ops, info.size) > 0 {
                        final(self).stage == FileWriteStage::Sleeping && r == FileWriteProgress::Command(
                            FileWriteCommand::Sleep(speed_wait(*ops, info.size) as u64),
                        )
                    } else {
                        after_wait(*ops, *final(self), r)
                    },
                    Some(_) => final(self).stage == FileWriteStage::Finished && r == FileWriteProgress::Finished(Ok(())),
                }
            }),
    {
        let ghost iv = info;
        let LocalFileInfo { name, size, is_symlink, modified, times } = info;
        let ext = file_extension(name.as_str());
        let existing_same: Option<bool> = match &ops.index {
            Some(index) => match ops.find_existing_file_in_index(index, self.target_path.as_str(), name.as_str()) {
                Ok(f) => Some(ops.is_same_file(size, modified, f)),
                Err(_) => None,
            },
            None => None,
        };
        self.name = name;
        self.size = size;
        self.times = times;
        let ghost ext_view = opt_string_view(ext);
        assert(ext_view == extension_of(iv.name@));
        let decision = match &ext {
            Some(e) => ops.write_file_admission(Some(e.as_str()), is_symlink, existing_same, size),
            None => ops.write_file_admission(None, is_symlink, existing_same, size),
        };
        match decision {
            Err(e) => {
                self.stage = FileWriteStage::Finished;
                FileWriteProgress::Finished(Err(e))
            },
            Ok(FileWriteDecision::Write) => {
                let wait: u64 = match ops.write_options.speed_limit {
                    Some(mbps) => {
                        let per_second: u64 = (mbps as u64) * 1024 * 1024;
                        size * 1000 / per_second
                    },
                    None => 0,
                };
                if wait > 0 {
                    self.stage = FileWriteStage::Sleeping;
                    FileWriteProgress::Command(FileWriteCommand::Sleep(wait))
                } else {
                    self.continue_after_wait(ops)
                }
            },
            Ok(_) => {
                self.stage = FileWriteStage::Finished;
                FileWriteProgress::Finished(Ok(()))
            },
        }
    }

    fn record(&mut self, ops: &mut TapeOperations, w: WriteResult) -> (r: FileWriteProgress)
        requires
            ensure_path(base_root(old(ops).index), path_parts(old(self).target_path@), base_hi(old(ops).index)).1 < u64::MAX,
            base_generation(old(ops).index) < u64::MAX,
            old(ops).write_progress.current_files_processed < u64::MAX,
            old(ops).write_progress.current_bytes_processed + old(self).size <= u64::MAX,
            old(ops).write_progress.total_bytes_unindexed + old(self).size <= u64::MAX,
        ensures
            final(self).target_path == old(self).target_path,
            r is Finished <==> final(self).stage == FileWriteStage::Finished,
            final(ops).write_options == old(ops).write_options,
            enhanced_index_update(
                old(ops).index,
                final(ops).index,
                old(self).name@,
                old(self).target_path@,
                old(self).size,
                w.position,
                old(self).times,
                hashes_view(old(self).hashes),
            ),
            final(ops).modified,
            final(ops).write_progress.current_files_processed == old(ops).write_progress.current_files_processed + 1,
            final(ops).write_progress.current_bytes_processed == old(ops).write_progress.current_bytes_processed + old(self).size,
            final(ops).write_progress.total_bytes_unindexed == old(ops).write_progress.total_bytes_unindexed + old(self).size,
            final(ops).write_progress.files_written == old(ops).write_progress.files_written,
            final(ops).write_progress.bytes_written == old(ops).write_progress.bytes_written,
            if final(ops).write_progress.total_bytes_unindexed >= old(ops).write_options.index_write_interval {
                final(self).stage == FileWriteStage::IndexUpdate && r == FileWriteProgress::Command(FileWriteCommand::UpdateIndexOnTape)
            } else {
                final(self).stage == FileWriteStage::Finished && r == FileWriteProgress::Finished(Ok(()))
            },
    {
        let mut times = EntryTimes { creation: None, modify: None, access: None };
        std::mem::swap(&mut times, &mut self.times);
        let mut hashes: Option<Vec<(String, String)>> = None;
        std::mem::swap(&mut hashes, &mut self.hashes);
        let _ = ops.update_index_for_file_write_enhanced(
            self.name.as_str(),
            self.target_path.as_str(),
            self.size,
            &w.position,
            times,
            hashes,
        );
        let update_now = ops.record_file_written(self.size);
        if update_now {
            self.stage = FileWriteStage::IndexUpdate;
            FileWriteProgress::Command(FileWriteCommand::UpdateIndexOnTape)
        } else {
            self.stage = FileWriteStage::Finished;
            FileWriteProgress::Finished(Ok(()))
        }
    }
}


/// What the caller learned of a local directory from its metadata.
pub struct LocalDirInfo {
    /// The directory name (the caller's stand-in when it has none).
    pub name: String,
    pub is_symlink: bool,
    pub times: EntryTimes,
}

/// The entries of a local directory: the names of its files and of its
/// subdirectories, in the order the directory listed them.
pub struct DirListing {
    pub files: Vec<String>,
    pub subdirs: Vec<String>,
}

/// An outside step of a directory write.
#[derive(Debug, Clone, PartialEq, Eq)]
pub enum DirWriteCommand {
    /// Read the metadata of the source directory.
    StatDirectory,
    /// List the source directory.
    ListDirectory,
    /// Wait while the write is paused.
    WaitWhilePaused,
    /// Write the file of this name to this target path (`write_file_to_tape`).
    WriteFile(String, String),
    /// Write the subdirectory of this name to this target path
    /// (`write_directory_to_tape`).
    WriteSubdirectory(String, String),
}

pub enum DirWriteReply {
    Stat(LocalDirInfo),
    Listing(DirListing),
    /// The wait is over.
    Resumed,
    /// A file or subdirectory write ended (its failure is not looked at).
    Done,
}

#[derive(Debug, Clone, Copy, PartialEq, Eq, Structural)]
pub enum DirWriteStage {
    Stat,
    Listing,
    Files,
    Paused,
    Subdirs,
    Finished,
}

pub enum DirWriteProgress {
    Command(DirWriteCommand),
    Finished(Result<(), RustLtfsError>),
}

/// Writes one local directory: unless it is a skipped symbolic link, it
/// gets an entry in the index; its files are written in name order (in
/// sequential mode without those of excluded extensions), then its
/// subdirectories; a stop ends the walk early, a pause is waited out, and
/// the failure of one file or subdirectory does not end it.
pub struct DirectoryWrite {
    pub target_path: String,
    pub stage: DirWriteStage,
    pub files: Vec<String>,
    pub next_file: usize,
    pub skip_excluded: bool,
    pub subdirs: Vec<String>,
    pub next_subdir: usize,
}

/// A file name whose extension is excluded.
pub open spec fn excluded_name(ops: TapeOperations, name: Seq<char>) -> bool {
    match extension_of(name) {
        Some(e) => excluded_by(e, ops.write_options.excluded_extensions@),
        None => false,
    }
}

/// The first index at or after `i` of a file that is written: every one,
/// or (with `skip`) those not excluded; the length when there is none.
pub open spec fn next_written(ops: TapeOperations, files: Seq<String>, skip: bool, i: int) -> int
    decreases files.len() - i,
{
    if i < 0 || i >= files.len() {
        files.len() as int
    } else if skip && excluded_name(ops, files[i]@) {
        next_written(ops, files, skip, i + 1)
    } else {
        i
    }
}

proof fn lemma_next_written_range(ops: TapeOperations, files: Seq<String>, skip: bool, i: int)
    requires
        0 <= i <= files.len(),
    ensures
        i <= next_written(ops, files, skip, i) <= files.len(),
        next_written(ops, files, skip, i) < files.len() ==> !(skip && excluded_name(
            ops,
            files[next_written(ops, files, skip, i)]@,
        )),
    decreases files.len() - i,
{
    if i < files.len() && skip && excluded_name(ops, files[i]@) {
        lemma_next_written_range(ops, files, skip, i + 1);
    }
}

impl DirectoryWrite {
    pub open spec fn accepts(&self, r: Result<DirWriteReply, RustLtfsError>) -> bool {
        match self.stage {
            DirWriteStage::Stat => r matches Ok(x) ==> x is Stat,
            DirWriteStage::Listing => r matches Ok(x) ==> x is Listing,
            DirWriteStage::Files => r matches Ok(x) ==> x is Done,
            DirWriteStage::Paused => r matches Ok(x) ==> x is Resumed,
            DirWriteStage::Subdirs => r matches Ok(x) ==> x is Done,
            DirWriteStage::Finished => false,
        }
    }

    pub open spec fn valid(&self) -> bool {
        &&& self.next_file <= self.files@.len()
        &&& self.next_subdir <= self.subdirs@.len()
    }
}

/// The walk over the subdirectories from `w.next_subdir`: a stop or the
/// end of the list finishes the write; otherwise the next one is written.
pub open spec fn subdirs_step(ops: TapeOperations, w: DirectoryWrite, n: DirectoryWrite, r: DirWriteProgress) -> bool {
    &&& n.target_path == w.target_path
    &&& n.files == w.files
    &&& n.next_file == w.next_file
    &&& n.subdirs == w.subdirs
    &&& if w.next_subdir < w.subdirs@.len() && !ops.stop_flag {
        let name = w.subdirs@[w.next_subdir as int];
        &&& n.stage == DirWriteStage::Subdirs
        &&& n.next_subdir == w.next_subdir + 1
        &&& r matches DirWriteProgress::Command(DirWriteCommand::WriteSubdirectory(d, t)) && d@ == name@ && t@
            == w.target_path@ + seq!['/'] + name@
    } else {
        n.stage == DirWriteStage::Finished && n.next_subdir == w.next_subdir && r == DirWriteProgress::Finished(
            Ok(()),
        )
    }
}

/// The walk over the files from `w.next_file`: a stop moves on to the
/// subdirectories; a pause is waited out; the next file written (see
/// `next_written`) is written, and after the last one the subdirectories
/// follow.
pub open spec fn files_step(ops: TapeOperations, w: DirectoryWrite, n: DirectoryWrite, r: DirWriteProgress) -> bool {
    &&& n.target_path == w.target_path
    &&& n.files == w.files
    &&& n.skip_excluded == w.skip_excluded
    &&& n.subdirs == w.subdirs
    &&& if w.next_file < w.files@.len() && !ops.stop_flag && ops.pause_flag {
        n.stage == DirWriteStage::Paused && n.next_file == w.next_file && n.next_subdir == w.next_subdir && r
            == DirWriteProgress::Command(DirWriteCommand::WaitWhilePaused)
    } else if w.next_file < w.files@.len() && !ops.stop_flag && next_written(
        ops,
        w.files@,
        w.skip_excluded,
        w.next_file as int,
    ) < w.files@.len() {
        let k = next_written(ops, w.files@, w.skip_excluded, w.next_file as int);
        let name = w.files@[k];
        &&& n.stage == DirWriteStage::Files
        &&& n.next_file == k + 1
        &&& n.next_subdir == w.next_subdir
        &&& r matches DirWriteProgress::Command(DirWriteCommand::WriteFile(f, t)) && f@ == name@ && t@
            == w.target_path@ + seq!['/'] + name@
    } else {
        exists|m: DirectoryWrite| m.next_subdir == w.next_subdir && m.target_path == w.target_path && m.subdirs
            == w.subdirs && m.files == w.files && #[trigger] subdirs_step(ops, m, n, r)
    }
}

impl TapeOperations {
    /// Starts writing a local directory to `target_path`: refused once a
    /// stop was asked; offline nothing is written; otherwise its metadata
    /// is read first.
    pub fn write_directory_to_tape(&self, target_path: &str) -> (r: (DirectoryWrite, DirWriteProgress))
        ensures
            r.0.target_path@ == target_path@,
            r.0.valid(),
            self.stop_flag ==> (r.1 matches DirWriteProgress::Finished(Err(e)) && e is OperationCancelled)
                && r.0.stage == DirWriteStage::Finished,
            !self.stop_flag && self.offline_mode ==> r.1 == DirWriteProgress::Finished(Ok(()))
                && r.0.stage == DirWriteStage::Finished,
            !self.stop_flag && !self.offline_mode ==> r.1 == DirWriteProgress::Command(DirWriteCommand::StatDirectory)
                && r.0.stage == DirWriteStage::Stat,
    {
        let mut w = DirectoryWrite {
            target_path: target_path.to_owned(),
            stage: DirWriteStage::Stat,
            files: Vec::new(),
            next_file: 0,
            skip_excluded: false,
            subdirs: Vec::new(),
            next_subdir: 0,
        };
        match self.begin_directory_write() {
            Err(e) => {
                w.stage = DirWriteStage::Finished;
                (w, DirWriteProgress::Finished(Err(e)))
            },
            Ok(false) => {
                w.stage = DirWriteStage::Finished;
                (w, DirWriteProgress::Finished(Ok(())))
            },
            Ok(true) => (w, DirWriteProgress::Command(DirWriteCommand::StatDirectory)),
        }
    }
}

fn is_excluded_name(ops: &TapeOperations, name: &str) -> (b: bool)
    ensures
        b == excluded_name(*ops, name@),
{
    match file_extension(name) {
        Some(e) => ops.is_excluded_extension(e.as_str()),
        None => false,
    }
}

impl DirectoryWrite {
    fn proceed_subdirs(&mut self, ops: &TapeOperations) -> (r: DirWriteProgress)
        requires
            old(self).valid(),
        ensures
            final(self).valid(),
            final(self).skip_excluded == old(self).skip_excluded,
            subdirs_step(*ops, *old(self), *final(self), r),
    {
        if self.next_subdir < self.subdirs.len() && !ops.stop_flag {
            let name = self.subdirs[self.next_subdir].clone();
            let target = entry_target_path(self.target_path.as_str(), name.as_str());
            self.next_subdir = self.next_subdir + 1;
            self.stage = DirWriteStage::Subdirs;
            DirWriteProgress::Command(DirWriteCommand::WriteSubdirectory(name, target))
        } else {
            self.stage = DirWriteStage::Finished;
            DirWriteProgress::Finished(Ok(()))
        }
    }

    fn proceed_files(&mut self, ops: &TapeOperations) -> (r: DirWriteProgress)
        requires
            old(self).valid(),
        ensures
            final(self).valid(),
            files_step(*ops, *old(self), *final(self), r),
    {
        let ghost w0 = *self;
        if self.next_file < self.files.len() && !ops.stop_flag && ops.pause_flag {
            self.stage = DirWriteStage::Paused;
            return DirWriteProgress::Command(DirWriteCommand::WaitWhilePaused);
        }
        if self.next_file < self.files.len() && !ops.stop_flag {
            let mut k = self.next_file;
            while k < self.files.len() && self.skip_excluded && is_excluded_name(ops, self.files[k].as_str())
                invariant
                    w0.next_file <= k <= self.files@.len(),
                    self.files == w0.files,
                    self.skip_excluded == w0.skip_excluded,
                    next_written(*ops, self.files@, self.skip_excluded, k as int) == next_written(
                        *ops,
                        self.files@,
                        self.skip_excluded,
                        w0.next_file as int,
                    ),
                decreases self.files@.len() - k,
            {
                k = k + 1;
            }
            if k < self.files.len() {
                let name = self.files[k].clone();
                let target = entry_target_path(self.target_path.as_str(), name.as_str());
                self.next_file = k + 1;
                self.stage = DirWriteStage::Files;
                return DirWriteProgress::Command(DirWriteCommand::WriteFile(name, target));
            }
        }
        let r = self.proceed_subdirs(ops);
        proof {
            assert(subdirs_step(*ops, w0, *self, r));
        }
        r
    }

    /// Takes the reply to the last command and gives the next move.  A
    /// failed metadata read is a file operation error; a failed listing
    /// ends the write with the caller's error; the outcome of a file or
    /// subdirectory write is not looked at.
    pub fn step(&mut self, ops: &mut TapeOperations, reply: Result<DirWriteReply, RustLtfsError>) -> (r: DirWriteProgress)
        requires
            old(self).accepts(reply),
            old(self).valid(),
            old(self).stage == DirWriteStage::Stat ==> base_hi(old(ops).index) < u64::MAX
                && base_generation(old(ops).index) < u64::MAX,
        ensures
            final(self).valid(),
            r is Finished <==> final(self).stage == DirWriteStage::Finished,
            final(self).target_path == old(self).target_path,
            final(ops).write_options == old(ops).write_options,
            final(ops).write_progress == old(ops).write_progress,
            !(old(self).stage == DirWriteStage::Stat && reply is Ok) ==> *final(ops) == *old(ops),
            match (old(self).stage, reply) {
                (DirWriteStage::Stat, Err(e)) => final(self).stage == DirWriteStage::Finished && (r matches DirWriteProgress::Finished(
                    Err(RustLtfsError::FileOperation(m)),
                ) && m@ == "Cannot get directory metadata: "@ + error_message(e)),
                (_, Err(e)) => if old(self).stage == DirWriteStage::Listing {
                    final(self).stage == DirWriteStage::Finished && r == DirWriteProgress::Finished(Err(e))
                } else if old(self).stage == DirWriteStage::Subdirs {
                    subdirs_step(*old(ops), *old(self), *final(self), r)
                } else {
                    files_step(*old(ops), *old(self), *final(self), r)
                },
                (DirWriteStage::Stat, Ok(DirWriteReply::Stat(info))) => if old(ops).write_options.skip_symlinks
                    && info.is_symlink {
                    final(self).stage == DirWriteStage::Finished && r == DirWriteProgress::Finished(Ok(()))
                        && *final(ops) == *old(ops)
                } else {
                    &&& final(self).stage == DirWriteStage::Listing
                    &&& r == DirWriteProgress::Command(DirWriteCommand::ListDirectory)
                    &&& final(ops).modified
                    &&& final(ops).index matches Some(idx) && {
                        let old_root = base_root(old(ops).index);
                        let uid = (base_hi(old(ops).index) + 1) as u64;
                        &&& idx.generationnumber == base_generation(old(ops).index) + 1
                        &&& idx.highestfileuid == Some(uid)
                        &&& idx.root_directory.contents.directories@.len() == old_root.dirs.len() + 1
                        &&& new_directory_entry(
                            idx.root_directory.contents.directories@.last(),
                            info.name@,
                            uid,
                            info.times,
                            idx.root_directory.contents.directories@.last().backup_time@,
                        )
                    }
                },
                (DirWriteStage::Listing, Ok(DirWriteReply::Listing(l))) => {
                    let n = DirectoryWrite {
                        target_path: old(self).target_path,
                        stage: DirWriteStage::Files,
                        files: final(self).files,
                        next_file: 0,
                        skip_excluded: !old(ops).write_options.parallel_add,
                        subdirs: l.subdirs,
                        next_subdir: 0,
                    };
                    &&& names_sorted(final(self).files@)
                    &&& final(self).files@.to_multiset() == l.files@.to_multiset()
                    &&& final(self).skip_excluded == !old(ops).write_options.parallel_add
                    &&& files_step(*old(ops), n, *final(self), r)
                },
                (DirWriteStage::Files, Ok(_)) => files_step(*old(ops), *old(self), *final(self), r),
                (DirWriteStage::Paused, Ok(_)) => files_step(*old(ops), *old(self), *final(self), r),
                (DirWriteStage::Subdirs, Ok(_)) => subdirs_step(*old(ops), *old(self), *final(self), r),
                _ => false,
            },
    {
        match reply {
            Err(e) => {
                if self.stage == DirWriteStage::Stat {
                    self.stage = DirWriteStage::Finished;
                    return DirWriteProgress::Finished(Err(file_operation_error("Cannot get directory metadata: ", &e)));
                }
                if self.stage == DirWriteStage::Listing {
                    self.stage = DirWriteStage::Finished;
                    return DirWriteProgress::Finished(Err(e));
                }
                if self.stage == DirWriteStage::Subdirs {
                    return self.proceed_subdirs(ops);
                }
                self.proceed_files(ops)
            },
            Ok(x) => match self.stage {
                DirWriteStage::Stat => match x {
                    DirWriteReply::Stat(info) => {
                        if ops.write_options.skip_symlinks && info.is_symlink {
                            self.stage = DirWriteStage::Finished;
                            return DirWriteProgress::Finished(Ok(()));
                        }
                        let exists = match &ops.index {
                            Some(index) => match ops.directory_exists_in_index(index, self.target_path.as_str(), info.name.as_str()) {
                                Ok(b) => b,
                                Err(_) => false,
                            },
                            None => false,
                        };
                        if !exists {
                            let _ = ops.create_directory_in_index(info.name.as_str(), self.target_path.as_str(), info.times);
                        }
                        self.stage = DirWriteStage::Listing;
                        DirWriteProgress::Command(DirWriteCommand::ListDirectory)
                    },
                    _ => {
                        self.stage = DirWriteStage::Finished;
                        DirWriteProgress::Finished(Ok(()))
                    },
                },
                DirWriteStage::Listing => match x {
                    DirWriteReply::Listing(l) => {
                        let DirListing { files, subdirs } = l;
                        self.files = sort_file_names(files);
                        self.next_file = 0;
                        self.skip_excluded = !ops.write_options.parallel_add;
                        self.subdirs = subdirs;
                        self.next_subdir = 0;
                        self.stage = DirWriteStage::Files;
                        self.proceed_files(ops)
                    },
                    _ => {
                        self.stage = DirWriteStage::Finished;
                        DirWriteProgress::Finished(Ok(()))
                    },
                },
                DirWriteStage::Files => self.proceed_files(ops),
                DirWriteStage::Paused => self.proceed_files(ops),
                DirWriteStage::Subdirs => self.proceed_subdirs(ops),
                DirWriteStage::Finished => DirWriteProgress::Finished(Ok(())),
            },
        }
    }
}

} // verus!
