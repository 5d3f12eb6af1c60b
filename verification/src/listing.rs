use vstd::prelude::*;
use crate::error::RustLtfsError;
use crate::index::{
    dir_view, directory_at, find_directory_recursive, forest_view, lemma_forest_view, lookup_path, path_parts, split_path,
    DirView, Directory, File, FileExtent,
};
use crate::ops::{TapeOperations, TapePosition};
use crate::text::{lowercase, to_lowercase};

verus! {

/// One entry of a directory listing.
#[derive(Debug, Clone)]
pub struct DirectoryEntry {
    pub name: String,
    pub is_directory: bool,
    pub size: Option<u64>,
    pub file_count: Option<u64>,
    pub file_uid: Option<u64>,
    pub created_time: Option<String>,
    pub modified_time: Option<String>,
}

/// What a listed file is.
#[derive(Debug, Clone)]
pub struct FileInfo {
    pub name: String,
    pub size: u64,
    pub file_uid: u64,
    pub created_time: Option<String>,
    pub modified_time: Option<String>,
    pub access_time: Option<String>,
}

/// What a tape path names.
#[derive(Debug, Clone)]
pub enum PathContent {
    Directory(Vec<DirectoryEntry>),
    File(FileInfo),
}

/// Counts of an extraction.
#[derive(Debug, Clone)]
pub struct ExtractionResult {
    pub files_extracted: u64,
    pub directories_created: u64,
    pub total_bytes: u64,
    pub verification_passed: bool,
}

/// A file waiting to be written.
#[derive(Debug, Clone)]
pub struct FileWriteEntry {
    pub source_path: String,
    pub target_path: String,
    pub file_size: u64,
    pub modified: bool,
    pub overwrite: bool,
    pub hash: Option<String>,
}

/// Where a write ended.
#[derive(Debug, Clone)]
pub struct WriteResult {
    pub position: TapePosition,
    pub blocks_written: u32,
    pub bytes_written: u64,
}

/// Handle of a tape device by its path.
pub struct LtfsAccess {
    pub device_path: String,
}

impl LtfsAccess {
    pub fn new(device_path: &str) -> (r: Result<Self, RustLtfsError>)
        ensures
            r matches Ok(a) && a.device_path@ == device_path@,
    {
        Ok(LtfsAccess { device_path: device_path.to_owned() })
    }
}

/// The entry of subdirectory `d` in a listing.
pub open spec fn dir_entry_matches(e: DirectoryEntry, d: DirView) -> bool {
    &&& e.name@ == d.name
    &&& e.is_directory
    &&& e.size is None
    &&& e.file_count == Some((d.files.len() + d.dirs.len()) as u64)
    &&& e.file_uid == Some(d.uid as u64)
}

/// The entry of file `f` in a listing.
pub open spec fn file_entry_matches(e: DirectoryEntry, f: File) -> bool {
    &&& e.name@ == f.name@
    &&& !e.is_directory
    &&& e.size == Some(f.length)
    &&& e.file_count is None
    &&& e.file_uid == Some(f.uid)
    &&& e.created_time == Some(f.creation_time)
    &&& e.modified_time == Some(f.modify_time)
}

/// A listing of `d`: its subdirectories, then its files.
pub open spec fn listing_matches(es: Seq<DirectoryEntry>, d: DirView) -> bool {
    &&& es.len() == d.dirs.len() + d.files.len()
    &&& forall|j: int| 0 <= j < d.dirs.len() ==> #[trigger] dir_entry_matches(es[j], d.dirs[j])
    &&& forall|j: int| 0 <= j < d.files.len() ==> #[trigger] file_entry_matches(es[d.dirs.len() + j], d.files[j])
}

pub open spec fn file_info_matches(i: FileInfo, f: File) -> bool {
    &&& i.name@ == f.name@
    &&& i.size == f.length
    &&& i.file_uid == f.uid
    &&& i.created_time == Some(f.creation_time)
    &&& i.modified_time == Some(f.modify_time)
    &&& i.access_time == Some(f.access_time)
}

/// The first file of `s` named exactly `n`, or -1.
pub open spec fn first_file_exactly(s: Seq<File>, n: Seq<char>, i: int) -> int
    decreases s.len() - i,
{
    if i < 0 || i >= s.len() {
        -1
    } else if s[i].name@ == n {
        i
    } else {
        first_file_exactly(s, n, i + 1)
    }
}

/// What a path names: the directory at it, else the file of its last
/// component in the directory of the others.
pub open spec fn path_target(root: DirView, parts: Seq<Seq<char>>) -> Option<Result<DirView, File>> {
    match lookup_path(root, parts) {
        Some(d) => Some(Ok(d)),
        None => if parts.len() == 0 {
            None
        } else {
            match lookup_path(root, parts.drop_last()) {
                Some(parent) => {
                    let i = first_file_exactly(parent.files, parts.last(), 0);
                    if 0 <= i < parent.files.len() {
                        Some(Err(parent.files[i]))
                    } else {
                        None
                    }
                },
                None => None,
            }
        },
    }
}

fn clone_opt(s: &String) -> (r: Option<String>)
    ensures
        r == Some(*s),
{
    Some(s.clone())
}

fn directory_listing(dir: &Directory) -> (es: Vec<DirectoryEntry>)
    ensures
        listing_matches(es@, dir_view(*dir)),
        forall|j: int| 0 <= j < dir.contents.directories@.len() ==> {
            &&& (#[trigger] es@[j]).created_time == Some(dir.contents.directories@[j].creation_time)
            &&& es@[j].modified_time == Some(dir.contents.directories@[j].change_time)
        },
{
    let ghost dv = dir_view(*dir);
    proof {
        lemma_forest_view(dir.contents.directories@);
    }
    let mut es: Vec<DirectoryEntry> = Vec::new();
    let mut i: usize = 0;
    while i < dir.contents.directories.len()
        invariant
            i <= dir.contents.directories@.len(),
            dv == dir_view(*dir),
            dv.dirs.len() == dir.contents.directories@.len(),
            forall|j: int| 0 <= j < dv.dirs.len() ==> #[trigger] dv.dirs[j] == dir_view(dir.contents.directories@[j]),
            es@.len() == i,
            forall|j: int| 0 <= j < i ==> #[trigger] dir_entry_matches(es@[j], dv.dirs[j]),
            forall|j: int| 0 <= j < i ==> {
                &&& (#[trigger] es@[j]).created_time == Some(dir.contents.directories@[j].creation_time)
                &&& es@[j].modified_time == Some(dir.contents.directories@[j].change_time)
            },
        decreases dir.contents.directories@.len() - i,
    {
        let sub = &dir.contents.directories[i];
        proof {
            lemma_forest_view(sub.contents.directories@);
        }
        assert(dv.dirs[i as int] == dir_view(*sub));
        let count = (sub.contents.files.len() as u128 + sub.contents.directories.len() as u128) as u64;
        es.push(DirectoryEntry {
            name: sub.name.clone(),
            is_directory: true,
            size: None,
            file_count: Some(count),
            file_uid: Some(sub.uid),
            created_time: clone_opt(&sub.creation_time),
            modified_time: clone_opt(&sub.change_time),
        });
        i = i + 1;
    }
    let mut k: usize = 0;
    while k < dir.contents.files.len()
        invariant
            k <= dir.contents.files@.len(),
            dv == dir_view(*dir),
            dv.files == dir.contents.files@,
            es@.len() == dv.dirs.len() + k,
            dv.dirs.len() == dir.contents.directories@.len(),
            forall|j: int| 0 <= j < dv.dirs.len() ==> #[trigger] dir_entry_matches(es@[j], dv.dirs[j]),
            forall|j: int| 0 <= j < k ==> #[trigger] file_entry_matches(es@[dv.dirs.len() + j], dv.files[j]),
            forall|j: int| 0 <= j < dir.contents.directories@.len() ==> {
                &&& (#[trigger] es@[j]).created_time == Some(dir.contents.directories@[j].creation_time)
                &&& es@[j].modified_time == Some(dir.contents.directories@[j].change_time)
            },
        decreases dir.contents.files@.len() - k,
    {
        let f = &dir.contents.files[k];
        let ghost before = es@;
        es.push(DirectoryEntry {
            name: f.name.clone(),
            is_directory: false,
            size: Some(f.length),
            file_count: None,
            file_uid: Some(f.uid),
            created_time: clone_opt(&f.creation_time),
            modified_time: clone_opt(&f.modify_time),
        });
        assert(file_entry_matches(es@[dv.dirs.len() + k], dv.files[k as int]));
        assert forall|j: int| 0 <= j < dir.contents.directories@.len() implies {
            &&& (#[trigger] es@[j]).created_time == Some(dir.contents.directories@[j].creation_time)
            &&& es@[j].modified_time == Some(dir.contents.directories@[j].change_time)
        } by {
            assert(es@[j] == before[j]);
        }
        k = k + 1;
    }
    es
}

fn first_part_of(parts: &Vec<String>, n: usize) -> (r: Vec<String>)
    requires
        n <= parts@.len(),
    ensures
        r.deep_view() == parts.deep_view().take(n as int),
{
    let mut r: Vec<String> = Vec::new();
    let mut i: usize = 0;
    while i < n
        invariant
            i <= n <= parts@.len(),
            r.deep_view() == parts.deep_view().take(i as int),
        decreases n - i,
    {
        let ghost before = r.deep_view();
        r.push(parts[i].clone());
        assert(r.deep_view() =~= before.push(parts@[i as int]@));
        assert(parts.deep_view().take(i + 1) =~= parts.deep_view().take(i as int).push(parts@[i as int]@));
        i = i + 1;
    }
    r
}

impl TapeOperations {
    /// What `tape_path` names in the loaded index (surrounding '/'
    /// ignored): a directory is listed, subdirectories first, with the
    /// number of entries of each; a file is described; `None` when nothing
    /// is there or no index is loaded.
    #[verifier::loop_isolation(false)]
    pub fn list_path_content(&self, tape_path: &str) -> (r: Result<Option<PathContent>, RustLtfsError>)
        ensures
            match self.index {
                None => r matches Ok(None),
                Some(i) => match path_target(dir_view(i.root_directory), path_parts(tape_path@)) {
                    None => r matches Ok(None),
                    Some(Ok(d)) => r matches Ok(Some(PathContent::Directory(es))) && listing_matches(es@, d)
                        && (directory_at(i.root_directory, path_parts(tape_path@)) matches Some(dd) && forall|j: int|
                        0 <= j < dd.contents.directories@.len() ==> {
                            &&& (#[trigger] es@[j]).created_time == Some(dd.contents.directories@[j].creation_time)
                            &&& es@[j].modified_time == Some(dd.contents.directories@[j].change_time)
                        }),
                    Some(Err(f)) => r matches Ok(Some(PathContent::File(info))) && file_info_matches(info, f),
                },
            },
    {
        let index = match &self.index {
            Some(i) => i,
            None => {
                return Ok(None);
            },
        };
        let parts = split_path(tape_path);
        assert(parts.deep_view().skip(0) =~= parts.deep_view());
        if let Some(dir) = find_directory_recursive(&index.root_directory, &parts, 0) {
            return Ok(Some(PathContent::Directory(directory_listing(dir))));
        }
        if parts.len() == 0 {
            return Ok(None);
        }
        let n = parts.len() - 1;
        let parent_parts = first_part_of(&parts, n);
        assert(parent_parts.deep_view().skip(0) =~= parent_parts.deep_view());
        assert(parts.deep_view().take(n as int) =~= parts.deep_view().drop_last());
        let parent = match find_directory_recursive(&index.root_directory, &parent_parts, 0) {
            Some(p) => p,
            None => {
                return Ok(None);
            },
        };
        let name = &parts[n];
        assert(parts.deep_view().last() == name@);
        let ghost fs = parent.contents.files@;
        let mut k: usize = 0;
        while k < parent.contents.files.len()
            invariant
                k <= fs.len(),
                fs == parent.contents.files@,
                first_file_exactly(fs, name@, 0) == first_file_exactly(fs, name@, k as int),
            decreases fs.len() - k,
        {
            let f = &parent.contents.files[k];
            if f.name == *name {
                proof {
                    let root = dir_view(index.root_directory);
                    let pp = path_parts(tape_path@);
                    assert(pp == parts.deep_view());
                    assert(lookup_path(root, pp) is None);
                    assert(pp.len() > 0);
                    assert(lookup_path(root, pp.drop_last()) == Some(dir_view(*parent)));
                    assert(dir_view(*parent).files == fs);
                    assert(fs[k as int].name@ == name@);
                    assert(first_file_exactly(fs, name@, k as int) == k);
                    assert(pp.last() == name@);
                }
                return Ok(Some(PathContent::File(FileInfo {
                    name: f.name.clone(),
                    size: f.length,
                    file_uid: f.uid,
                    created_time: clone_opt(&f.creation_time),
                    modified_time: clone_opt(&f.modify_time),
                    access_time: clone_opt(&f.access_time),
                })));
            }
            k = k + 1;
        }
        Ok(None)
    }
}

/// One step of extracting a directory.
#[derive(Debug, Clone, Copy, PartialEq, Eq, Structural)]
pub enum ExtractAction {
    /// Create the destination directory itself.
    CreateRoot,
    /// Extract file `0` of the directory into the destination.
    ExtractRootFile(usize),
    /// Create the destination of subdirectory `0`.
    CreateSubdir(usize),
    /// Extract file `1` of subdirectory `0` into its destination.
    ExtractSubdirFile(usize, usize),
}

/// The steps for the subdirectories `s` (numbered from 0): each is
/// created, then its files are extracted; what lies deeper is not.
pub open spec fn subdir_actions(s: Seq<Directory>) -> Seq<ExtractAction>
    decreases s.len(),
{
    if s.len() == 0 {
        seq![]
    } else {
        let k = (s.len() - 1) as usize;
        subdir_actions(s.drop_last()) + seq![ExtractAction::CreateSubdir(k)] + Seq::new(
            s.last().contents.files@.len(),
            |i: int| ExtractAction::ExtractSubdirFile(k, i as usize),
        )
    }
}

/// The steps of extracting `d`: create the destination, extract the
/// directory's files, then each subdirectory with its own files (two
/// levels).
pub open spec fn extraction_actions(d: Directory) -> Seq<ExtractAction> {
    seq![ExtractAction::CreateRoot] + Seq::new(
        d.contents.files@.len(),
        |i: int| ExtractAction::ExtractRootFile(i as usize),
    ) + subdir_actions(d.contents.directories@)
}

impl TapeOperations {
    /// The steps of extracting `dir_info` to a destination, in order (see
    /// `extraction_actions`); the caller carries each out and adds up
    /// their results.
    pub fn extract_directory(&self, dir_info: &Directory) -> (v: Vec<ExtractAction>)
        ensures
            v@ == extraction_actions(*dir_info),
    {
        let mut v: Vec<ExtractAction> = Vec::new();
        v.push(ExtractAction::CreateRoot);
        let files = &dir_info.contents.files;
        let mut i: usize = 0;
        while i < files.len()
            invariant
                i <= files@.len(),
                v@ == seq![ExtractAction::CreateRoot] + Seq::new(i as nat, |j: int| ExtractAction::ExtractRootFile(j as usize)),
            decreases files@.len() - i,
        {
            v.push(ExtractAction::ExtractRootFile(i));
            i = i + 1;
            assert(v@ =~= seq![ExtractAction::CreateRoot] + Seq::new(i as nat, |j: int| ExtractAction::ExtractRootFile(j as usize)));
        }
        let ghost head = v@;
        let dirs = &dir_info.contents.directories;
        let mut k: usize = 0;
        assert(dirs@.take(0) =~= Seq::<Directory>::empty());
        assert(v@ =~= head + subdir_actions(dirs@.take(0)));
        while k < dirs.len()
            invariant
                k <= dirs@.len(),
                v@ == head + subdir_actions(dirs@.take(k as int)),
            decreases dirs@.len() - k,
        {
            let ghost before = v@;
            v.push(ExtractAction::CreateSubdir(k));
            let sub = &dirs[k].contents.files;
            let mut j: usize = 0;
            while j < sub.len()
                invariant
                    j <= sub@.len(),
                    v@ == before + seq![ExtractAction::CreateSubdir(k)] + Seq::new(
                        j as nat,
                        |x: int| ExtractAction::ExtractSubdirFile(k, x as usize),
                    ),
                decreases sub@.len() - j,
            {
                v.push(ExtractAction::ExtractSubdirFile(k, j));
                j = j + 1;
                assert(v@ =~= before + seq![ExtractAction::CreateSubdir(k)] + Seq::new(
                    j as nat,
                    |x: int| ExtractAction::ExtractSubdirFile(k, x as usize),
                ));
            }
            proof {
                let t = dirs@.take(k + 1);
                assert(t.drop_last() =~= dirs@.take(k as int));
                assert(t.last() == dirs@[k as int]);
                assert(subdir_actions(t) == subdir_actions(dirs@.take(k as int)) + seq![ExtractAction::CreateSubdir(k)]
                    + Seq::new(sub@.len(), |x: int| ExtractAction::ExtractSubdirFile(k, x as usize)));
                assert(v@ =~= head + subdir_actions(t));
            }
            k = k + 1;
        }
        proof {
            assert(dirs@.take(dirs@.len() as int) =~= dirs@);
            assert(v@ =~= extraction_actions(*dir_info));
        }
        v
    }
}

impl ExtractionResult {
    /// Adds the counts of `part` to these; the verification passed only
    /// where both passed.
    pub fn absorb(&mut self, part: &ExtractionResult)
        requires
            old(self).files_extracted + part.files_extracted <= u64::MAX,
            old(self).directories_created + part.directories_created <= u64::MAX,
            old(self).total_bytes + part.total_bytes <= u64::MAX,
        ensures
            final(self).files_extracted == old(self).files_extracted + part.files_extracted,
            final(self).directories_created == old(self).directories_created + part.directories_created,
            final(self).total_bytes == old(self).total_bytes + part.total_bytes,
            final(self).verification_passed == (old(self).verification_passed && part.verification_passed),
    {
        self.files_extracted = self.files_extracted + part.files_extracted;
        self.directories_created = self.directories_created + part.directories_created;
        self.total_bytes = self.total_bytes + part.total_bytes;
        self.verification_passed = self.verification_passed && part.verification_passed;
    }
}

} // verus!
