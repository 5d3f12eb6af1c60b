use vstd::prelude::*;
use crate::error::{error_text, RustLtfsError};
use crate::index::{
    add_file_spec, base_generation, base_hi, base_root, ensure_path, extent_at, index_hi,
    partition_letter, path_parts, lemma_forest_view, lemma_forest_view_push, DirView, Directory, DirectoryContents, ExtendedAttribute,
    ExtendedAttributes, ExtentInfo, File, FileExtent, LtfsIndex, dir_view, forest_view, clone_index, opt_index_deep, stamp_view, StampView, stamps_after_ensure,
};
use crate::ops::{TapeOperations, TapePosition, WriteOptions};
use crate::text::{chars_to_string, lowercase, push_str, str_to_chars, to_lowercase};
use crate::timestamp::{get_current_ltfs_timestamp, now_rfc3339};

verus! {

broadcast use {vstd::seq::group_seq_axioms, vstd::std_specs::vec::group_vec_axioms};

/// The timestamps that a local file's or directory's metadata gave; `None`
/// where the platform reported none.
pub struct EntryTimes {
    pub creation: Option<String>,
    pub modify: Option<String>,
    pub access: Option<String>,
}

/// A time of `t`, or the fallback `now` where `t` is `None`.
pub open spec fn time_or(t: Option<String>, now: Seq<char>) -> Seq<char> {
    match t {
        Some(s) => s@,
        None => now,
    }
}

fn time_or_exec(t: Option<String>, now: &String) -> (r: String)
    ensures
        r@ == time_or(t, now@),
{
    match t {
        Some(s) => s,
        None => now.clone(),
    }
}

/// The key under which the remaining-capacity attribute is written.
pub open spec fn capacity_remain_key() -> Seq<char> {
    "ltfscopygui.capacityremain"@
}

/// The extended attributes written with a file: one per hash, in the order
/// given, then the remaining-capacity attribute with the value `12`.
pub open spec fn hash_attributes(a: Seq<ExtendedAttribute>, hashes: Seq<(String, String)>) -> bool {
    &&& a.len() == hashes.len() + 1
    &&& forall|i: int| 0 <= i < hashes.len() ==> {
        &&& (#[trigger] a[i]).key@ == hashes[i].0@
        &&& a[i].value@ == hashes[i].1@
    }
    &&& a[hashes.len() as int].key@ == capacity_remain_key()
    &&& a[hashes.len() as int].value@ == "12"@
}

/// The entry written for a file: `size` bytes in one extent at `pos`,
/// the metadata times where they were known, the hashes as attributes.
pub open spec fn enhanced_file_entry(
    f: File,
    name: Seq<char>,
    size: u64,
    pos: TapePosition,
    times: EntryTimes,
    hashes: Option<Seq<(String, String)>>,
) -> bool {
    &&& f.name@ == name
    &&& f.length == size
    &&& !f.read_only
    &&& !f.openforwrite
    &&& f.symlink is None
    &&& f.extent_info.extents@.len() == 1
    &&& extent_at(f.extent_info.extents@[0], pos, size)
    &&& f.change_time@ == f.backup_time@
    &&& f.creation_time@ == time_or(times.creation, f.backup_time@)
    &&& f.modify_time@ == time_or(times.modify, f.backup_time@)
    &&& f.access_time@ == time_or(times.access, f.backup_time@)
    &&& match hashes {
        None => f.extended_attributes is None,
        Some(hs) => f.extended_attributes matches Some(x) && hash_attributes(x.attributes@, hs),
    }
}

/// The hashes handed to an index update, as a sequence of (key, value) pairs.
pub open spec fn hashes_view(h: Option<Vec<(String, String)>>) -> Option<Seq<(String, String)>> {
    match h {
        Some(v) => Some(v@),
        None => None,
    }
}

/// The index after recording a file: the base index (the loaded one, or
/// a fresh one) moved to its next generation, with the file entry added
/// under the target path (directories created as needed) and given the
/// next uid.
pub open spec fn enhanced_index_update(
    before: Option<LtfsIndex>,
    after: Option<LtfsIndex>,
    file_name: Seq<char>,
    target_path: Seq<char>,
    file_size: u64,
    pos: TapePosition,
    times: EntryTimes,
    hashes: Option<Seq<(String, String)>>,
) -> bool {
    after matches Some(idx) && {
        &&& idx.generationnumber == base_generation(before) + 1
        &&& exists|f: File|
            {
                &&& enhanced_file_entry(f, file_name, file_size, pos, times, hashes)
                &&& dir_view(idx.root_directory) == add_file_spec(
                    base_root(before),
                    path_parts(target_path),
                    f,
                    base_hi(before),
                ).0
                &&& idx.highestfileuid == Some(add_file_spec(
                    base_root(before),
                    path_parts(target_path),
                    f,
                    base_hi(before),
                ).1 as u64)
            }
    }
}

/// `n` keeps the volume metadata of `o`: all but the generation and the
/// update time.
pub open spec fn keeps_volume_metadata(n: LtfsIndex, o: LtfsIndex) -> bool {
    &&& n.version == o.version
    &&& n.creator == o.creator
    &&& n.volumeuuid == o.volumeuuid
    &&& n.location == o.location
    &&& n.previousgenerationlocation == o.previousgenerationlocation
    &&& n.allowpolicyupdate == o.allowpolicyupdate
    &&& n.volumelockstate == o.volumelockstate
}

fn hash_attribute_list(hashes: Vec<(String, String)>) -> (r: ExtendedAttributes)
    ensures
        hash_attributes(r.attributes@, hashes@),
{
    let mut attributes: Vec<ExtendedAttribute> = Vec::new();
    let mut i: usize = 0;
    while i < hashes.len()
        invariant
            i <= hashes@.len(),
            attributes@.len() == i,
            forall|j: int| 0 <= j < i ==> {
                &&& (#[trigger] attributes@[j]).key@ == hashes@[j].0@
                &&& attributes@[j].value@ == hashes@[j].1@
            },
        decreases hashes@.len() - i,
    {
        let key = hashes[i].0.clone();
        let value = hashes[i].1.clone();
        attributes.push(ExtendedAttribute { key, value });
        i = i + 1;
    }
    let k = "ltfscopygui.capacityremain";
    let v = "12";
    proof {
        reveal_strlit("ltfscopygui.capacityremain");
        reveal_strlit("12");
    }
    attributes.push(ExtendedAttribute { key: k.to_owned(), value: v.to_owned() });
    ExtendedAttributes { attributes }
}

impl TapeOperations {
    /// Records a file written at `write_position` under `target_path` as
    /// `update_index_for_file_write` does, with the file's own metadata
    /// times (the current time where one is missing) and its hashes as
    /// extended attributes; the session is marked modified.
    pub fn update_index_for_file_write_enhanced(
        &mut self,
        file_name: &str,
        target_path: &str,
        file_size: u64,
        write_position: &TapePosition,
        times: EntryTimes,
        file_hashes: Option<Vec<(String, String)>>,
    ) -> (r: Result<(), RustLtfsError>)
        requires
            ensure_path(base_root(old(self).index), path_parts(target_path@), base_hi(old(self).index)).1
                < u64::MAX,
            base_generation(old(self).index) < u64::MAX,
        ensures
            r is Ok,
            final(self).modified,
            enhanced_index_update(
                old(self).index,
                final(self).index,
                file_name@,
                target_path@,
                file_size,
                *write_position,
                times,
                hashes_view(file_hashes),
            ),
            old(self).index matches Some(oi) ==> (final(self).index matches Some(idx) && keeps_volume_metadata(idx, oi)
                && stamps_after_ensure(
                stamp_view(oi.root_directory),
                stamp_view(idx.root_directory),
                dir_view(oi.root_directory),
                path_parts(target_path@),
            )),
            opt_index_deep(final(self).schema) == opt_index_deep(final(self).index),
            final(self).write_options == old(self).write_options,
            final(self).write_progress == old(self).write_progress,
            final(self).extra_partition_count == old(self).extra_partition_count,
            final(self).partition_label == old(self).partition_label,
    {
        let mut current_index = match self.index.take() {
            Some(i) => i,
            None => self.create_new_ltfs_index(),
        };
        let now = get_current_ltfs_timestamp();
        let mut extents: Vec<FileExtent> = Vec::new();
        extents.push(FileExtent {
            partition: partition_letter(write_position.partition),
            start_block: write_position.block_number,
            byte_count: file_size,
            file_offset: 0,
            byte_offset: 0,
        });
        let ghost hs = hashes_view(file_hashes);
        let extended_attributes = match file_hashes {
            Some(h) => Some(hash_attribute_list(h)),
            None => None,
        };
        let creation_time = time_or_exec(times.creation, &now);
        let modify_time = time_or_exec(times.modify, &now);
        let access_time = time_or_exec(times.access, &now);
        let new_file = File {
            name: file_name.to_owned(),
            uid: 0,
            length: file_size,
            creation_time,
            change_time: now.clone(),
            modify_time,
            access_time,
            backup_time: now,
            read_only: false,
            openforwrite: false,
            symlink: None,
            extent_info: ExtentInfo { extents },
            extended_attributes,
        };
        let ghost f = new_file;
        assert(enhanced_file_entry(f, file_name@, file_size, *write_position, times, hs));
        let r = self.add_file_to_target_directory(&mut current_index, new_file, target_path);
        if r.is_err() {
            return r;
        }
        current_index.generationnumber = current_index.generationnumber + 1;
        current_index.updatetime = get_current_ltfs_timestamp();
        self.schema = Some(clone_index(&current_index));
        self.index = Some(current_index);
        self.modified = true;
        Ok(())
    }
}

/// The directory entry made for a local directory: no contents, the given
/// uid, the metadata times where they were known (else `now`).
pub open spec fn new_directory_entry(d: Directory, name: Seq<char>, uid: u64, times: EntryTimes, now: Seq<char>) -> bool {
    &&& d.name@ == name
    &&& d.uid == uid
    &&& !d.read_only
    &&& d.contents.files@.len() == 0
    &&& d.contents.directories@.len() == 0
    &&& d.change_time@ == now
    &&& d.backup_time@ == now
    &&& d.creation_time@ == time_or(times.creation, now)
    &&& d.modify_time@ == time_or(times.modify, now)
    &&& d.access_time@ == time_or(times.access, now)
}

/// The outcome of offering a local file for writing.
#[derive(Debug, Clone, Copy, PartialEq, Eq, Structural)]
pub enum FileWriteDecision {
    /// Write the file (new, or replacing a differing file of that name).
    Write,
    /// An `.xattr` side file: never written.
    SkipXattr,
    /// Its extension is in the excluded list.
    SkipExcluded,
    /// A symbolic link while links are skipped.
    SkipSymlink,
    /// The tape already holds the same file.
    SkipIdentical,
    /// The tape holds a different file of that name and overwriting is off.
    SkipExisting,
}

/// What becomes of a local file offered for writing (`None`: it is
/// refused, larger than the space check allows).  `extension` is the
/// file's extension, `existing_same` whether the tape holds a file of that
/// name and whether it is the same.
pub open spec fn admission_of(
    o: WriteOptions,
    extension: Option<Seq<char>>,
    is_symlink: bool,
    existing_same: Option<bool>,
    file_size: u64,
) -> Option<FileWriteDecision> {
    let xattr = match extension {
        Some(e) => lowercase(e) == "xattr"@,
        None => false,
    };
    let excluded = match extension {
        Some(e) => excluded_by(e, o.excluded_extensions@),
        None => false,
    };
    if xattr {
        Some(FileWriteDecision::SkipXattr)
    } else if excluded {
        Some(FileWriteDecision::SkipExcluded)
    } else if o.skip_symlinks && is_symlink {
        Some(FileWriteDecision::SkipSymlink)
    } else if existing_same == Some(true) {
        Some(FileWriteDecision::SkipIdentical)
    } else if existing_same == Some(false) && !o.overwrite {
        Some(FileWriteDecision::SkipExisting)
    } else if file_size > 8 * 1024 * 1024 * 1024 * 1024 {
        None
    } else {
        Some(FileWriteDecision::Write)
    }
}

/// The delay, in milliseconds, that keeps `bytes` within `mbps` MiB/s.
pub open spec fn speed_limit_delay(bytes: u64, mbps: u32) -> int {
    (bytes * 1000) / (mbps * 1024 * 1024)
}

/// Whether the lower-cased extension equals the lower-cased form of one of
/// `excluded`.
pub open spec fn excluded_by(ext: Seq<char>, excluded: Seq<String>) -> bool {
    exists|i: int| 0 <= i < excluded.len() && lowercase(#[trigger] excluded[i]@) == lowercase(ext)
}

/// The seconds since the epoch that an RFC 3339 text denotes, `None` where
/// it is not RFC 3339 (`chrono::DateTime::parse_from_rfc3339`, then
/// `timestamp()`).
pub uninterp spec fn rfc3339_seconds(s: Seq<char>) -> Option<i64>;

/// Parses `s` as an RFC 3339 date and time with
/// `chrono::DateTime::parse_from_rfc3339` and gives its UNIX time in
/// seconds; the result is named, not described.
#[verifier::external_body]
fn parse_rfc3339_seconds(s: &str) -> (r: Option<i64>)
    ensures
        r == rfc3339_seconds(s@),
{
    chrono::DateTime::parse_from_rfc3339(s).ok().map(|d| d.timestamp())
}

/// Whether a local file of `local_size` bytes, last modified at
/// `local_modified` (seconds), is taken for the tape file `tape`: equal
/// sizes, and modification times at most 2 s apart where both are known.
pub open spec fn same_file(local_size: u64, local_modified: Option<i64>, tape: File) -> bool {
    &&& local_size == tape.length
    &&& match (local_modified, rfc3339_seconds(tape.modify_time@)) {
        (Some(l), Some(t)) => -2 <= l - t <= 2,
        _ => true,
    }
}

impl TapeOperations {
    /// Adds an empty directory named `dir_name` at the root of the loaded
    /// index (a fresh one when none is loaded) with the next uid, and moves
    /// the index to its next generation.
    pub fn create_directory_in_index(&mut self, dir_name: &str, target_path: &str, times: EntryTimes) -> (r: Result<(), RustLtfsError>)
        requires
            base_hi(old(self).index) < u64::MAX,
            base_generation(old(self).index) < u64::MAX,
        ensures
            r is Ok,
            final(self).modified,
            final(self).index matches Some(idx) && {
                let old_root = base_root(old(self).index);
                let uid = (base_hi(old(self).index) + 1) as u64;
                &&& idx.generationnumber == base_generation(old(self).index) + 1
                &&& idx.highestfileuid == Some(uid)
                &&& idx.root_directory.contents.directories@.len() == old_root.dirs.len() + 1
                &&& new_directory_entry(
                    idx.root_directory.contents.directories@.last(),
                    dir_name@,
                    uid,
                    times,
                    idx.root_directory.contents.directories@.last().backup_time@,
                )
                &&& dir_view(idx.root_directory) == DirView {
                    name: old_root.name,
                    uid: old_root.uid,
                    files: old_root.files,
                    dirs: old_root.dirs.push(dir_view(idx.root_directory.contents.directories@.last())),
                }
            },
            old(self).index matches Some(oi) ==> (final(self).index matches Some(idx) && stamp_view(idx.root_directory)
                == (StampView {
                stamps: stamp_view(oi.root_directory).stamps,
                read_only: oi.root_directory.read_only,
                dirs: stamp_view(oi.root_directory).dirs.push(
                    stamp_view(idx.root_directory.contents.directories@.last()),
                ),
            })),
            opt_index_deep(final(self).schema) == opt_index_deep(final(self).index),
            final(self).write_options == old(self).write_options,
            final(self).write_progress == old(self).write_progress,
            final(self).extra_partition_count == old(self).extra_partition_count,
    {
        let mut current_index = match self.index.take() {
            Some(i) => i,
            None => self.create_new_ltfs_index(),
        };
        let now = now_rfc3339();
        let new_uid = match current_index.highestfileuid {
            Some(h) => h,
            None => 0,
        } + 1;
        let creation_time = time_or_exec(times.creation, &now);
        let modify_time = time_or_exec(times.modify, &now);
        let access_time = time_or_exec(times.access, &now);
        let new_directory = Directory {
            name: dir_name.to_owned(),
            uid: new_uid,
            creation_time,
            change_time: now.clone(),
            modify_time,
            access_time,
            backup_time: now,
            read_only: false,
            contents: DirectoryContents { files: Vec::new(), directories: Vec::new() },
        };
        let ghost old_dirs = current_index.root_directory.contents.directories@;
        let ghost nd = new_directory;
        current_index.root_directory.contents.directories.push(new_directory);
        proof {
            let s = current_index.root_directory.contents.directories@;
            assert(s =~= old_dirs.push(nd));
            assert(s.drop_last() =~= old_dirs);
            lemma_forest_view_push(old_dirs, nd);
            lemma_forest_view(old_dirs);
        }
        current_index.generationnumber = current_index.generationnumber + 1;
        current_index.updatetime = now_rfc3339();
        current_index.highestfileuid = Some(new_uid);
        self.schema = Some(clone_index(&current_index));
        self.index = Some(current_index);
        self.modified = true;
        Ok(())
    }

    /// Starts writing a file: refused once a stop was asked; in offline
    /// mode the file is only counted (`Ok(false)`); else `Ok(true)`.
    pub fn begin_file_write(&mut self) -> (r: Result<bool, RustLtfsError>)
        requires
            !old(self).stop_flag && old(self).offline_mode
                ==> old(self).write_progress.current_files_processed < u64::MAX,
        ensures
            old(self).stop_flag ==> (r matches Err(e) && e is OperationCancelled) && *final(self) == *old(self),
            !old(self).stop_flag && old(self).offline_mode ==> {
                &&& r == Ok::<bool, RustLtfsError>(false)
                &&& final(self).write_progress.current_files_processed
                    == old(self).write_progress.current_files_processed + 1
                &&& final(self).write_progress.current_bytes_processed
                    == old(self).write_progress.current_bytes_processed
                &&& final(self).write_progress.total_bytes_unindexed
                    == old(self).write_progress.total_bytes_unindexed
                &&& final(self).index == old(self).index
            },
            !old(self).stop_flag && !old(self).offline_mode ==> r == Ok::<bool, RustLtfsError>(true)
                && *final(self) == *old(self),
    {
        if self.stop_flag {
            return Err(RustLtfsError::OperationCancelled("Write operation stopped by user".to_owned()));
        }
        if self.offline_mode {
            self.write_progress.current_files_processed = self.write_progress.current_files_processed + 1;
            return Ok(false);
        }
        Ok(true)
    }

    /// Starts writing a directory: refused once a stop was asked;
    /// `Ok(false)` in offline mode, where nothing is written; else `Ok(true)`.
    pub fn begin_directory_write(&self) -> (r: Result<bool, RustLtfsError>)
        ensures
            self.stop_flag ==> (r matches Err(e) && e is OperationCancelled),
            !self.stop_flag ==> r == Ok::<bool, RustLtfsError>(!self.offline_mode),
    {
        if self.stop_flag {
            return Err(RustLtfsError::OperationCancelled("Write operation stopped by user".to_owned()));
        }
        Ok(!self.offline_mode)
    }

    /// Refuses to go on once a stop was asked.
    pub fn ensure_not_stopped(&self) -> (r: Result<(), RustLtfsError>)
        ensures
            r is Ok <==> !self.stop_flag,
            r matches Err(e) ==> e is OperationCancelled,
    {
        if self.stop_flag {
            Err(RustLtfsError::OperationCancelled("Write operation stopped".to_owned()))
        } else {
            Ok(())
        }
    }

    /// Whether `extension` (without its dot) is one of the excluded
    /// extensions, compared in lower case.
    pub fn is_excluded_extension(&self, extension: &str) -> (r: bool)
        ensures
            r == excluded_by(extension@, self.write_options.excluded_extensions@),
    {
        let ext = to_lowercase(extension);
        let n = self.write_options.excluded_extensions.len();
        let mut i: usize = 0;
        while i < n
            invariant
                n == self.write_options.excluded_extensions@.len(),
                i <= n,
                ext@ == lowercase(extension@),
                forall|j: int| 0 <= j < i ==> lowercase(#[trigger] self.write_options.excluded_extensions@[j]@) != lowercase(extension@),
            decreases n - i,
        {
            let e = to_lowercase(self.write_options.excluded_extensions[i].as_str());
            if e == ext {
                return true;
            }
            i = i + 1;
        }
        false
    }

    /// Whether the local file matches the tape file `tape_file`: same size,
    /// and modification times within 2 s where both are known.
    pub fn is_same_file(&self, local_size: u64, local_modified: Option<i64>, tape_file: &File) -> (r: bool)
        ensures
            r == same_file(local_size, local_modified, *tape_file),
    {
        if local_size != tape_file.length {
            return false;
        }
        match local_modified {
            Some(l) => match parse_rfc3339_seconds(tape_file.modify_time.as_str()) {
                Some(t) => {
                    let diff: i128 = (l as i128) - (t as i128);
                    !(diff > 2 || diff < -2)
                },
                None => true,
            },
            None => true,
        }
    }

    /// Decides what becomes of a local file offered for writing: `.xattr`
    /// files, excluded extensions and (when configured) symbolic links are
    /// skipped; a file the tape already holds is skipped when it is the
    /// same, or when overwriting is off (`existing_same` says whether a file
    /// of that name exists and is the same); a file above the space check's
    /// limit is refused.
    pub fn write_file_admission(
        &self,
        extension: Option<&str>,
        is_symlink: bool,
        existing_same: Option<bool>,
        file_size: u64,
    ) -> (r: Result<FileWriteDecision, RustLtfsError>)
        ensures
            match admission_of(
                self.write_options,
                match extension {
                    Some(e) => Some(e@),
                    None => None,
                },
                is_symlink,
                existing_same,
                file_size,
            ) {
                Some(d) => r == Ok::<FileWriteDecision, RustLtfsError>(d),
                None => r matches Err(e) && e is TapeDevice,
            },
    {
        match extension {
            Some(e) => {
                let low = to_lowercase(e);
                let xattr = "xattr";
                proof {
                    reveal_strlit("xattr");
                }
                if low == xattr.to_owned() {
                    return Ok(FileWriteDecision::SkipXattr);
                }
                if self.is_excluded_extension(e) {
                    return Ok(FileWriteDecision::SkipExcluded);
                }
            },
            None => {},
        }
        if self.write_options.skip_symlinks && is_symlink {
            return Ok(FileWriteDecision::SkipSymlink);
        }
        match existing_same {
            Some(true) => {
                return Ok(FileWriteDecision::SkipIdentical);
            },
            Some(false) => {
                if !self.write_options.overwrite {
                    return Ok(FileWriteDecision::SkipExisting);
                }
            },
            None => {},
        }
        match self.check_available_space(file_size) {
            Ok(()) => Ok(FileWriteDecision::Write),
            Err(e) => {
                let mut m: Vec<char> = Vec::new();
                push_str(&mut m, "Insufficient space on tape: ");
                let t = e.to_text();
                push_str(&mut m, t.as_str());
                Err(RustLtfsError::TapeDevice(chars_to_string(&m)))
            },
        }
    }

    /// Counts a written file of `file_size` bytes in the progress counters
    /// and tells whether the bytes written since the last index update
    /// reached the index write interval.
    pub fn record_file_written(&mut self, file_size: u64) -> (r: bool)
        requires
            old(self).write_progress.current_files_processed < u64::MAX,
            old(self).write_progress.current_bytes_processed + file_size <= u64::MAX,
            old(self).write_progress.total_bytes_unindexed + file_size <= u64::MAX,
        ensures
            final(self).write_progress.current_files_processed == old(self).write_progress.current_files_processed + 1,
            final(self).write_progress.current_bytes_processed == old(self).write_progress.current_bytes_processed + file_size,
            final(self).write_progress.total_bytes_unindexed == old(self).write_progress.total_bytes_unindexed + file_size,
            final(self).write_progress.files_written == old(self).write_progress.files_written,
            final(self).write_progress.bytes_written == old(self).write_progress.bytes_written,
            final(self).index == old(self).index,
            final(self).write_options == old(self).write_options,
            final(self).modified == old(self).modified,
            r == (final(self).write_progress.total_bytes_unindexed >= old(self).write_options.index_write_interval),
    {
        self.write_progress.current_files_processed = self.write_progress.current_files_processed + 1;
        self.write_progress.current_bytes_processed = self.write_progress.current_bytes_processed + file_size;
        self.write_progress.total_bytes_unindexed = self.write_progress.total_bytes_unindexed + file_size;
        self.write_progress.total_bytes_unindexed >= self.write_options.index_write_interval
    }
}

/// The milliseconds to wait so that writing `bytes` stays within
/// `speed_limit_mbps` MiB/s.
pub fn speed_limit_delay_ms(bytes: u64, speed_limit_mbps: u32) -> (r: u64)
    requires
        speed_limit_mbps > 0,
        bytes * 1000 <= u64::MAX,
    ensures
        r == speed_limit_delay(bytes, speed_limit_mbps),
{
    let per_second: u64 = (speed_limit_mbps as u64) * 1024 * 1024;
    bytes * 1000 / per_second
}

/// The path of an entry named `name` inside `target_path`.
pub fn entry_target_path(target_path: &str, name: &str) -> (r: String)
    ensures
        r@ == target_path@ + seq!['/'] + name@,
{
    let mut v = str_to_chars(target_path);
    v.push('/');
    push_str(&mut v, name);
    chars_to_string(&v)
}

/// The order of names character by character (by code point, which is the
/// order of their UTF-8 bytes); a prefix comes first.
pub open spec fn name_le(a: Seq<char>, b: Seq<char>) -> bool
    decreases a.len(),
{
    if a.len() == 0 {
        true
    } else if b.len() == 0 {
        false
    } else if a[0] != b[0] {
        (a[0] as u32) < (b[0] as u32)
    } else {
        name_le(a.drop_first(), b.drop_first())
    }
}

/// The names are in `name_le` order.
pub open spec fn names_sorted(s: Seq<String>) -> bool {
    forall|i: int, j: int| 0 <= i < j < s.len() ==> name_le(#[trigger] s[i]@, #[trigger] s[j]@)
}

pub proof fn lemma_name_le_total(a: Seq<char>, b: Seq<char>)
    ensures
        name_le(a, b) || name_le(b, a),
    decreases a.len(),
{
    if a.len() > 0 && b.len() > 0 {
        if a[0] == b[0] {
            lemma_name_le_total(a.drop_first(), b.drop_first());
        } else {
            vstd::utf8::char_u32_cast(a[0], a[0] as u32);
            vstd::utf8::char_u32_cast(b[0], b[0] as u32);
        }
    }
}

pub proof fn lemma_name_le_transitive(a: Seq<char>, b: Seq<char>, c: Seq<char>)
    requires
        name_le(a, b),
        name_le(b, c),
    ensures
        name_le(a, c),
    decreases a.len(),
{
    if a.len() > 0 && b.len() > 0 && c.len() > 0 && a[0] == b[0] && b[0] == c[0] {
        lemma_name_le_transitive(a.drop_first(), b.drop_first(), c.drop_first());
    }
}

proof fn lemma_name_le_skip(a: Seq<char>, b: Seq<char>, i: int)
    requires
        0 <= i < a.len(),
        i < b.len(),
        a.take(i) == b.take(i),
    ensures
        name_le(a.skip(i), b.skip(i)) == (if a[i] != b[i] {
            (a[i] as u32) < (b[i] as u32)
        } else {
            name_le(a.skip(i + 1), b.skip(i + 1))
        }),
        name_le(a, b) == name_le(a.skip(i), b.skip(i)),
    decreases i,
{
    assert(a.skip(i).drop_first() =~= a.skip(i + 1));
    assert(b.skip(i).drop_first() =~= b.skip(i + 1));
    if i > 0 {
        assert(a.drop_first().take(i - 1) =~= a.take(i).drop_first());
        assert(b.drop_first().take(i - 1) =~= b.take(i).drop_first());
        assert(a[0] == a.take(i)[0]);
        assert(b[0] == b.take(i)[0]);
        lemma_name_le_skip(a.drop_first(), b.drop_first(), i - 1);
        assert(a.drop_first().skip(i - 1) =~= a.skip(i));
        assert(b.drop_first().skip(i - 1) =~= b.skip(i));
    } else {
        assert(a.skip(0) =~= a);
        assert(b.skip(0) =~= b);
    }
}

/// Whether `a` comes no later than `b` in `name_le` order.
pub fn name_le_exec(a: &str, b: &str) -> (r: bool)
    ensures
        r == name_le(a@, b@),
{
    let x = str_to_chars(a);
    let y = str_to_chars(b);
    let mut i: usize = 0;
    proof {
        assert(x@.take(0) =~= y@.take(0));
        assert(a@.skip(0) =~= a@);
        assert(b@.skip(0) =~= b@);
        if x@.len() == 0 {
            lemma_empty_le(a@, b@, 0);
        } else if y@.len() == 0 {
            lemma_longer_not_le(a@, b@, 0);
        }
    }
    loop
        invariant
            x@ == a@,
            y@ == b@,
            i <= x@.len(),
            i <= y@.len(),
            x@.take(i as int) == y@.take(i as int),
            i < x@.len() && i < y@.len() ==> name_le(a@, b@) == name_le(a@.skip(i as int), b@.skip(i as int)),
            i == x@.len() ==> name_le(a@, b@),
            i == y@.len() && i < x@.len() ==> !name_le(a@, b@),
        decreases x@.len() - i,
    {
        if i == x.len() {
            return true;
        }
        if i == y.len() {
            return false;
        }
        proof {
            lemma_name_le_skip(a@, b@, i as int);
        }
        let cx = x[i];
        let cy = y[i];
        if cx != cy {
            return (cx as u32) < (cy as u32);
        }
        proof {
            assert(x@.take(i + 1) =~= x@.take(i as int).push(cx));
            assert(y@.take(i + 1) =~= y@.take(i as int).push(cy));
            if i + 1 == x@.len() {
                lemma_empty_le(a@, b@, i + 1);
            } else if i + 1 == y@.len() {
                lemma_longer_not_le(a@, b@, i + 1);
            } else {
                lemma_name_le_skip(a@, b@, (i + 1) as int);
            }
        }
        i = i + 1;
    }
}

proof fn lemma_empty_le(a: Seq<char>, b: Seq<char>, n: int)
    requires
        0 <= n == a.len() <= b.len(),
        a.take(n) == b.take(n),
    ensures
        name_le(a, b),
    decreases n,
{
    if n > 0 {
        assert(a[0] == a.take(n)[0]);
        assert(b[0] == b.take(n)[0]);
        assert(a.drop_first().take(n - 1) =~= a.take(n).drop_first());
        assert(b.drop_first().take(n - 1) =~= b.take(n).drop_first());
        lemma_empty_le(a.drop_first(), b.drop_first(), n - 1);
    }
}

proof fn lemma_longer_not_le(a: Seq<char>, b: Seq<char>, n: int)
    requires
        0 <= n == b.len() < a.len(),
        a.take(n) == b.take(n),
    ensures
        !name_le(a, b),
    decreases n,
{
    if n > 0 {
        assert(a[0] == a.take(n)[0]);
        assert(b[0] == b.take(n)[0]);
        assert(a.drop_first().take(n - 1) =~= a.take(n).drop_first());
        assert(b.drop_first().take(n - 1) =~= b.take(n).drop_first());
        lemma_longer_not_le(a.drop_first(), b.drop_first(), n - 1);
    }
}

/// The names in `name_le` order (equal names keep their order).
pub fn sort_file_names(names: Vec<String>) -> (r: Vec<String>)
    ensures
        names_sorted(r@),
        r@.to_multiset() == names@.to_multiset(),
{
    let mut out: Vec<String> = Vec::new();
    let mut i: usize = 0;
    proof {
        assert(out@ =~= names@.take(0));
    }
    while i < names.len()
        invariant
            i <= names@.len(),
            names_sorted(out@),
            out@.to_multiset() == names@.take(i as int).to_multiset(),
        decreases names@.len() - i,
    {
        let x = names[i].clone();
        let mut p: usize = 0;
        loop
            invariant
                p <= out@.len(),
                forall|k: int| 0 <= k < p ==> name_le(#[trigger] out@[k]@, x@),
            ensures
                p <= out@.len(),
                forall|k: int| 0 <= k < p ==> name_le(#[trigger] out@[k]@, x@),
                p < out@.len() ==> !name_le(out@[p as int]@, x@),
            decreases out@.len() - p,
        {
            if p == out.len() {
                break;
            }
            if !name_le_exec(out[p].as_str(), x.as_str()) {
                break;
            }
            p = p + 1;
        }
        let ghost before = out@;
        out.insert(p, x);
        proof {
            assert forall|a: int, b: int| 0 <= a < b < out@.len() implies name_le(#[trigger] out@[a]@, #[trigger] out@[b]@) by {
                if b < p {
                } else if a < p && b == p {
                } else if a < p && b > p {
                    assert(out@[b] == before[b - 1]);
                    if p < before.len() {
                        lemma_name_le_total(before[p as int]@, x@);
                        assert(name_le(x@, before[p as int]@));
                        if b - 1 > p {
                            lemma_name_le_transitive(x@, before[p as int]@, before[b - 1]@);
                        }
                        lemma_name_le_transitive(out@[a]@, x@, before[b - 1]@);
                    }
                } else if a == p {
                    assert(out@[b] == before[b - 1]);
                    lemma_name_le_total(before[p as int]@, x@);
                    if b - 1 > p {
                        lemma_name_le_transitive(x@, before[p as int]@, before[b - 1]@);
                    }
                } else {
                    assert(out@[a] == before[a - 1]);
                    assert(out@[b] == before[b - 1]);
                }
            }
            assert(names@.take(i + 1) =~= names@.take(i as int).push(names@[i as int]));
            vstd::seq_lib::to_multiset_build(names@.take(i as int), names@[i as int]);
            vstd::seq_lib::to_multiset_insert(before, p as int, names@[i as int]);
        }
        i = i + 1;
    }
    proof {
        assert(names@.take(names@.len() as int) =~= names@);
    }
    out
}

} // verus!
