use vstd::prelude::*;
use crate::index::LtfsIndex;
use crate::listing::FileWriteEntry;

verus! {

/// Default LTO block size (64 KiB).
pub const LTO_BLOCK_SIZE: u32 = 65536;

/// Large LTO block size (512 KiB).
pub const LTO_BLOCK_SIZE_512K: u32 = 524288;

/// A position on tape as READ POSITION reports it.
#[derive(Debug, Clone, Copy, PartialEq, Eq)]
pub struct TapePosition {
    pub partition: u8,
    pub block_number: u64,
    pub file_number: u64,
    pub set_number: u64,
}

/// The label of an LTFS partition.
pub struct LtfsPartitionLabel {
    pub volume_uuid: String,
    pub blocksize: u32,
    pub compression: bool,
    pub index_partition: u8,
    pub data_partition: u8,
    pub format_time: String,
}

impl Default for LtfsPartitionLabel {
    fn default() -> (l: Self)
        ensures
            l.volume_uuid@ == Seq::<char>::empty(),
            l.blocksize == LTO_BLOCK_SIZE,
            !l.compression,
            l.index_partition == 0,
            l.data_partition == 1,
            l.format_time@ == Seq::<char>::empty(),
    {
        LtfsPartitionLabel {
            volume_uuid: String::new(),
            blocksize: LTO_BLOCK_SIZE,
            compression: false,
            index_partition: 0,
            data_partition: 1,
            format_time: String::new(),
        }
    }
}

/// What an operation needs of the drive before it starts.
#[derive(Debug, Clone, Copy, PartialEq, Eq)]
pub enum OperationType {
    /// Device initialisation only.
    Space,
    /// Device initialisation and index loading.
    Write,
    /// Device initialisation, index loading and listing.
    Read,
}

/// Progress counters of a write session.
pub struct WriteProgress {
    pub current_files_processed: u64,
    pub current_bytes_processed: u64,
    pub total_bytes_unindexed: u64,
    pub files_written: u64,
    pub bytes_written: u64,
}

impl Default for WriteProgress {
    fn default() -> (p: Self)
        ensures
            p.current_files_processed == 0,
            p.current_bytes_processed == 0,
            p.total_bytes_unindexed == 0,
            p.files_written == 0,
            p.bytes_written == 0,
    {
        WriteProgress {
            current_files_processed: 0,
            current_bytes_processed: 0,
            total_bytes_unindexed: 0,
            files_written: 0,
            bytes_written: 0,
        }
    }
}

/// Options of a write session.
pub struct WriteOptions {
    pub verify: bool,
    pub hash_on_write: bool,
    pub skip_symlinks: bool,
    /// Bytes written between two index updates.
    pub index_write_interval: u64,
    pub block_size: u32,
    pub goto_eod_on_write: bool,
    pub force_index: bool,
    pub hash_sha1_enabled: bool,
    pub hash_md5_enabled: bool,
    pub hash_blake3_enabled: bool,
    pub hash_xxhash3_enabled: bool,
    pub hash_xxhash128_enabled: bool,
    /// Replace a file of the same name that differs from the local one.
    pub overwrite: bool,
    /// Queue the files of a directory before writing them.
    pub parallel_add: bool,
    /// Throughput ceiling in MiB/s.
    pub speed_limit: Option<u32>,
    /// Extensions (with their dot) whose files are not written.
    pub excluded_extensions: Vec<String>,
}

impl Default for WriteOptions {
    fn default() -> (o: Self)
        ensures
            !o.verify,
            o.hash_on_write,
            !o.skip_symlinks,
            o.index_write_interval == 38_654_705_664,
            o.block_size == LTO_BLOCK_SIZE_512K,
            o.goto_eod_on_write,
            !o.force_index,
            o.hash_sha1_enabled,
            o.hash_md5_enabled,
            !o.hash_blake3_enabled,
            !o.hash_xxhash3_enabled,
            !o.hash_xxhash128_enabled,
            !o.overwrite,
            o.parallel_add,
            o.speed_limit is None,
            o.excluded_extensions@.len() == 1,
            o.excluded_extensions@[0]@ == seq!['.', 'x', 'a', 't', 't', 'r'],
    {
        let xattr = ".xattr";
        proof {
            reveal_strlit(".xattr");
        }
        let mut excluded: Vec<String> = Vec::new();
        excluded.push(xattr.to_owned());
        WriteOptions {
            verify: false,
            hash_on_write: true,
            skip_symlinks: false,
            index_write_interval: 38_654_705_664,
            block_size: LTO_BLOCK_SIZE_512K,
            goto_eod_on_write: true,
            force_index: false,
            hash_sha1_enabled: true,
            hash_md5_enabled: true,
            hash_blake3_enabled: false,
            hash_xxhash3_enabled: false,
            hash_xxhash128_enabled: false,
            overwrite: false,
            parallel_add: true,
            speed_limit: None,
            excluded_extensions: excluded,
        }
    }
}

/// The state of a tape session: the loaded index, the partition layout and
/// the write settings.  The SCSI device itself is driven by the caller, which
/// hands the results of its commands to the methods here.
pub struct TapeOperations {
    pub device_path: String,
    pub offline_mode: bool,
    pub index: Option<LtfsIndex>,
    /// The index as last written or refreshed on tape.
    pub schema: Option<LtfsIndex>,
    pub block_size: u32,
    /// The drive that the session addresses.
    pub tape_drive: String,
    pub partition_label: Option<LtfsPartitionLabel>,
    /// Files waiting to be written.
    pub write_queue: Vec<FileWriteEntry>,
    pub write_progress: WriteProgress,
    pub write_options: WriteOptions,
    pub modified: bool,
    pub extra_partition_count: Option<u8>,
    pub max_extra_partition_allowed: u8,
    pub stop_flag: bool,
    pub pause_flag: bool,
}

/// The physical partition that holds logical partition `logical` (0 index,
/// 1 data) on a tape with `extra` extra partitions.
pub open spec fn target_partition(logical: u8, extra: u8) -> u8 {
    if extra == 0 {
        0
    } else if logical == 0 {
        0
    } else {
        1
    }
}

impl TapeOperations {
    pub fn new(device: &str, offline_mode: bool) -> (t: Self)
        ensures
            t.device_path@ == device@,
            t.offline_mode == offline_mode,
            t.tape_drive@ == device@,
            t.index is None,
            t.schema is None,
            t.block_size == LTO_BLOCK_SIZE_512K,
            t.partition_label is None,
            t.write_queue@.len() == 0,
            t.write_progress.files_written == 0 && t.write_progress.bytes_written == 0
                && t.write_progress.current_files_processed == 0
                && t.write_progress.current_bytes_processed == 0
                && t.write_progress.total_bytes_unindexed == 0,
            t.write_options.block_size == LTO_BLOCK_SIZE_512K,
            t.write_options.index_write_interval == 38_654_705_664,
            !t.modified,
            t.extra_partition_count is None,
            t.max_extra_partition_allowed == 1,
            !t.stop_flag,
            !t.pause_flag,
    {
        TapeOperations {
            device_path: device.to_owned(),
            offline_mode,
            index: None,
            schema: None,
            block_size: LTO_BLOCK_SIZE_512K,
            tape_drive: device.to_owned(),
            partition_label: None,
            write_queue: Vec::new(),
            write_progress: WriteProgress::default(),
            write_options: WriteOptions::default(),
            modified: false,
            extra_partition_count: None,
            max_extra_partition_allowed: 1,
            stop_flag: false,
            pause_flag: false,
        }
    }

    pub fn get_write_progress(&self) -> (p: &WriteProgress)
        ensures
            *p == self.write_progress,
    {
        &self.write_progress
    }

    /// Takes the new options; the block size follows them.
    pub fn set_write_options(&mut self, options: WriteOptions)
        ensures
            final(self).write_options == options,
            final(self).block_size == options.block_size,
            final(self).index == old(self).index,
            final(self).schema == old(self).schema,
            final(self).partition_label == old(self).partition_label,
            final(self).write_progress == old(self).write_progress,
            final(self).max_extra_partition_allowed == old(self).max_extra_partition_allowed,
            final(self).extra_partition_count == old(self).extra_partition_count,
            final(self).stop_flag == old(self).stop_flag,
            final(self).pause_flag == old(self).pause_flag,
            final(self).modified == old(self).modified,
    {
        self.block_size = options.block_size;
        self.write_options = options;
    }

    /// Asks the running write to stop.
    pub fn stop_write(&mut self)
        ensures
            final(self).stop_flag,
            final(self).pause_flag == old(self).pause_flag,
            final(self).index == old(self).index,
            final(self).write_options == old(self).write_options,
    {
        self.stop_flag = true;
    }

    /// Pauses (`true`) or resumes (`false`) the running write.
    pub fn set_pause(&mut self, pause: bool)
        ensures
            final(self).pause_flag == pause,
            final(self).stop_flag == old(self).stop_flag,
            final(self).index == old(self).index,
            final(self).write_options == old(self).write_options,
    {
        self.pause_flag = pause;
    }

    /// The detected number of extra partitions, 0 before detection.
    pub fn get_extra_partition_count(&self) -> (n: u8)
        ensures
            n == match self.extra_partition_count {
                Some(c) => c,
                None => 0u8,
            },
    {
        match self.extra_partition_count {
            Some(c) => c,
            None => 0,
        }
    }

    /// The physical partition for logical partition `logical_partition`:
    /// everything is on partition 0 of a single-partition tape; otherwise
    /// the index goes to 0 and everything else to 1.
    pub fn get_target_partition(&self, logical_partition: u8) -> (p: u8)
        ensures
            p == target_partition(logical_partition, self.get_extra_partition_count_spec()),
    {
        let extra = self.get_extra_partition_count();
        if extra == 0 {
            0
        } else if logical_partition == 0 {
            0
        } else {
            1
        }
    }

    pub open spec fn get_extra_partition_count_spec(&self) -> u8 {
        match self.extra_partition_count {
            Some(c) => c,
            None => 0u8,
        }
    }
}

} // verus!
