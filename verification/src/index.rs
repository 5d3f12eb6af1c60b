use vstd::prelude::*;
use crate::error::RustLtfsError;
use crate::text::{
    chars_to_string, push_str, split_char, split_chars, str_to_chars, trim_char, trim_end_char,
    trim_start_char, lowercase, to_lowercase,
};
use crate::timestamp::get_current_ltfs_timestamp;
use crate::ops::{TapeOperations, TapePosition};

verus! {

broadcast use {vstd::seq::group_seq_axioms, vstd::std_specs::vec::group_vec_axioms};

/// Where an index lives on tape.
#[derive(Debug)]
pub struct Location {
    pub partition: String,
    pub startblock: u64,
}

/// One extent of a file's data on tape.
#[derive(Debug)]
pub struct FileExtent {
    pub partition: String,
    pub start_block: u64,
    pub byte_count: u64,
    pub file_offset: u64,
    pub byte_offset: u64,
}

#[derive(Debug)]
pub struct ExtentInfo {
    pub extents: Vec<FileExtent>,
}

#[derive(Debug)]
pub struct ExtendedAttribute {
    pub key: String,
    pub value: String,
}

#[derive(Debug)]
pub struct ExtendedAttributes {
    pub attributes: Vec<ExtendedAttribute>,
}

/// A file entry of the LTFS index.
#[derive(Debug)]
pub struct File {
    pub name: String,
    pub uid: u64,
    pub length: u64,
    pub creation_time: String,
    pub change_time: String,
    pub modify_time: String,
    pub access_time: String,
    pub backup_time: String,
    pub read_only: bool,
    pub openforwrite: bool,
    pub symlink: Option<String>,
    pub extent_info: ExtentInfo,
    pub extended_attributes: Option<ExtendedAttributes>,
}

#[derive(Debug)]
pub struct DirectoryContents {
    pub files: Vec<File>,
    pub directories: Vec<Directory>,
}

/// A directory entry of the LTFS index.
#[derive(Debug)]
pub struct Directory {
    pub name: String,
    pub uid: u64,
    pub creation_time: String,
    pub change_time: String,
    pub modify_time: String,
    pub access_time: String,
    pub backup_time: String,
    pub read_only: bool,
    pub contents: DirectoryContents,
}

/// An LTFS index: volume metadata and the directory tree.
#[derive(Debug)]
pub struct LtfsIndex {
    pub version: String,
    pub creator: String,
    pub volumeuuid: String,
    pub generationnumber: u64,
    pub updatetime: String,
    pub location: Location,
    pub previousgenerationlocation: Option<Location>,
    pub allowpolicyupdate: Option<bool>,
    pub volumelockstate: Option<String>,
    pub highestfileuid: Option<u64>,
    pub root_directory: Directory,
}

/// The shape of a directory tree that the index operations act on: names,
/// uids, the files of each directory and its subdirectories, in order.
pub struct DirView {
    pub name: Seq<char>,
    pub uid: nat,
    pub files: Seq<File>,
    pub dirs: Seq<DirView>,
}

pub open spec fn dir_view(d: Directory) -> DirView
    decreases d, 1nat,
{
    DirView {
        name: d.name@,
        uid: d.uid as nat,
        files: d.contents.files@,
        dirs: forest_view(d.contents.directories@),
    }
}

pub open spec fn forest_view(s: Seq<Directory>) -> Seq<DirView>
    decreases s, 0nat,
{
    if s.len() == 0 {
        seq![]
    } else {
        forest_view(s.drop_last()).push(dir_view(s.last()))
    }
}

pub proof fn lemma_forest_view(s: Seq<Directory>)
    ensures
        forest_view(s).len() == s.len(),
        forall|i: int| 0 <= i < s.len() ==> #[trigger] forest_view(s)[i] == dir_view(s[i]),
    decreases s.len(),
{
    if s.len() > 0 {
        lemma_forest_view(s.drop_last());
    }
}

pub proof fn lemma_forest_view_update(s: Seq<Directory>, i: int, x: Directory)
    requires
        0 <= i < s.len(),
    ensures
        forest_view(s.update(i, x)) == forest_view(s).update(i, dir_view(x)),
{
    lemma_forest_view(s);
    lemma_forest_view(s.update(i, x));
    assert(forest_view(s.update(i, x)) =~= forest_view(s).update(i, dir_view(x)));
}

pub proof fn lemma_forest_view_push(s: Seq<Directory>, x: Directory)
    ensures
        forest_view(s.push(x)) == forest_view(s).push(dir_view(x)),
{
    assert(s.push(x).drop_last() =~= s);
}

/// The time stamps (creation, change, modify, access, backup) and the
/// read-only flag of each directory of a tree, shaped like the tree.
pub struct StampView {
    pub stamps: Seq<Seq<char>>,
    pub read_only: bool,
    pub dirs: Seq<StampView>,
}

pub open spec fn stamp_view(d: Directory) -> StampView
    decreases d, 1nat,
{
    StampView {
        stamps: seq![
            d.creation_time@,
            d.change_time@,
            d.modify_time@,
            d.access_time@,
            d.backup_time@,
        ],
        read_only: d.read_only,
        dirs: stamp_forest(d.contents.directories@),
    }
}

pub open spec fn stamp_forest(s: Seq<Directory>) -> Seq<StampView>
    decreases s, 0nat,
{
    if s.len() == 0 {
        seq![]
    } else {
        stamp_forest(s.drop_last()).push(stamp_view(s.last()))
    }
}

pub proof fn lemma_stamp_forest(s: Seq<Directory>)
    ensures
        stamp_forest(s).len() == s.len(),
        forall|i: int| 0 <= i < s.len() ==> #[trigger] stamp_forest(s)[i] == stamp_view(s[i]),
    decreases s.len(),
{
    if s.len() > 0 {
        lemma_stamp_forest(s.drop_last());
    }
}

proof fn lemma_stamp_forest_update(s: Seq<Directory>, i: int, x: Directory)
    requires
        0 <= i < s.len(),
    ensures
        stamp_forest(s.update(i, x)) == stamp_forest(s).update(i, stamp_view(x)),
{
    lemma_stamp_forest(s);
    lemma_stamp_forest(s.update(i, x));
    assert(stamp_forest(s.update(i, x)) =~= stamp_forest(s).update(i, stamp_view(x)));
}

proof fn lemma_stamp_forest_push(s: Seq<Directory>, x: Directory)
    ensures
        stamp_forest(s.push(x)) == stamp_forest(s).push(stamp_view(x)),
{
    assert(s.push(x).drop_last() =~= s);
}

/// A directory created by the library and those below it: not read-only,
/// its five time stamps one and the same.
pub open spec fn fresh_stamps(v: StampView) -> bool
    decreases v,
{
    &&& !v.read_only
    &&& v.stamps.len() == 5
    &&& forall|j: int| 0 <= j < 5 ==> #[trigger] v.stamps[j] == v.stamps[0]
    &&& forall|k: int| 0 <= k < v.dirs.len() ==> fresh_stamps(#[trigger] v.dirs[k])
}

/// How making the directories of `parts` exist below a directory `d`
/// (`before` its stamps, `after` them afterwards) leaves the stamps: every
/// directory that was there keeps its stamps and flag, every one created
/// is fresh.
pub open spec fn stamps_after_ensure(before: StampView, after: StampView, d: DirView, parts: Seq<Seq<char>>) -> bool
    decreases parts.len(),
{
    if parts.len() == 0 {
        after == before
    } else {
        let i = first_dir_named(d.dirs, parts[0], 0);
        &&& after.stamps == before.stamps
        &&& after.read_only == before.read_only
        &&& if i >= 0 {
            &&& after.dirs.len() == before.dirs.len()
            &&& forall|k: int| 0 <= k < before.dirs.len() && k != i ==> #[trigger] after.dirs[k] == before.dirs[k]
            &&& i < before.dirs.len()
            &&& stamps_after_ensure(before.dirs[i], after.dirs[i], d.dirs[i], parts.drop_first())
        } else {
            &&& after.dirs.len() == before.dirs.len() + 1
            &&& forall|k: int| 0 <= k < before.dirs.len() ==> #[trigger] after.dirs[k] == before.dirs[k]
            &&& fresh_stamps(after.dirs[before.dirs.len() as int])
        }
    }
}

proof fn lemma_fresh_stays_fresh(before: StampView, after: StampView, d: DirView, parts: Seq<Seq<char>>)
    requires
        fresh_stamps(before),
        stamps_after_ensure(before, after, d, parts),
    ensures
        fresh_stamps(after),
    decreases parts.len(),
{
    if parts.len() > 0 {
        let i = first_dir_named(d.dirs, parts[0], 0);
        if i >= 0 {
            assert(fresh_stamps(before.dirs[i]));
            lemma_fresh_stays_fresh(before.dirs[i], after.dirs[i], d.dirs[i], parts.drop_first());
            assert forall|k: int| 0 <= k < after.dirs.len() implies fresh_stamps(#[trigger] after.dirs[k]) by {
                if k != i {
                    assert(after.dirs[k] == before.dirs[k]);
                    assert(fresh_stamps(before.dirs[k]));
                }
            }
        } else {
            assert forall|k: int| 0 <= k < after.dirs.len() implies fresh_stamps(#[trigger] after.dirs[k]) by {
                if k < before.dirs.len() {
                    assert(after.dirs[k] == before.dirs[k]);
                    assert(fresh_stamps(before.dirs[k]));
                }
            }
        }
    }
}

/// Number of files in a tree.
pub open spec fn tree_file_count(d: DirView) -> nat
    decreases d, 1nat,
{
    d.files.len() + forest_file_count(d.dirs)
}

pub open spec fn forest_file_count(s: Seq<DirView>) -> nat
    decreases s, 0nat,
{
    if s.len() == 0 {
        0
    } else {
        forest_file_count(s.drop_last()) + tree_file_count(s.last())
    }
}

/// Number of directories below the root of a tree.
pub open spec fn tree_dir_count(d: DirView) -> nat
    decreases d, 1nat,
{
    d.dirs.len() + forest_dir_count(d.dirs)
}

pub open spec fn forest_dir_count(s: Seq<DirView>) -> nat
    decreases s, 0nat,
{
    if s.len() == 0 {
        0
    } else {
        forest_dir_count(s.drop_last()) + tree_dir_count(s.last())
    }
}

/// Sum of the lengths of `s`.
pub open spec fn files_size(s: Seq<File>) -> nat
    decreases s.len(),
{
    if s.len() == 0 {
        0
    } else {
        files_size(s.drop_last()) + s.last().length as nat
    }
}

/// Sum of the lengths of every file of a tree.
pub open spec fn tree_size(d: DirView) -> nat
    decreases d, 1nat,
{
    files_size(d.files) + forest_size(d.dirs)
}

pub open spec fn forest_size(s: Seq<DirView>) -> nat
    decreases s, 0nat,
{
    if s.len() == 0 {
        0
    } else {
        forest_size(s.drop_last()) + tree_size(s.last())
    }
}

proof fn lemma_take_step<A>(s: Seq<A>, i: int)
    requires
        0 <= i < s.len(),
    ensures
        s.take(i + 1).drop_last() == s.take(i),
        s.take(i + 1).last() == s[i],
{
    assert(s.take(i + 1).drop_last() =~= s.take(i));
}

proof fn lemma_forest_counts_prefix(s: Seq<DirView>, i: int)
    requires
        0 <= i <= s.len(),
    ensures
        forest_file_count(s.take(i)) <= forest_file_count(s),
        forest_dir_count(s.take(i)) <= forest_dir_count(s),
        forest_size(s.take(i)) <= forest_size(s),
    decreases s.len(),
{
    if i == s.len() {
        assert(s.take(i) =~= s);
    } else {
        assert(s.drop_last().take(i) =~= s.take(i));
        lemma_forest_counts_prefix(s.drop_last(), i);
    }
}

proof fn lemma_files_size_prefix(s: Seq<File>, i: int)
    requires
        0 <= i <= s.len(),
    ensures
        files_size(s.take(i)) <= files_size(s),
    decreases s.len(),
{
    if i == s.len() {
        assert(s.take(i) =~= s);
    } else {
        assert(s.drop_last().take(i) =~= s.take(i));
        lemma_files_size_prefix(s.drop_last(), i);
    }
}

/// Number of files in the tree rooted at `dir`.
pub fn count_files_in_directory(dir: &Directory) -> (r: u64)
    requires
        tree_file_count(dir_view(*dir)) <= u64::MAX,
    ensures
        r == tree_file_count(dir_view(*dir)),
    decreases dir,
{
    let ghost fv = forest_view(dir.contents.directories@);
    proof {
        lemma_forest_view(dir.contents.directories@);
    }
    let mut count: u64 = dir.contents.files.len() as u64;
    let mut i: usize = 0;
    while i < dir.contents.directories.len()
        invariant
            i <= dir.contents.directories@.len(),
            fv == forest_view(dir.contents.directories@),
            fv.len() == dir.contents.directories@.len(),
            forall|j: int| 0 <= j < fv.len() ==> #[trigger] fv[j] == dir_view(dir.contents.directories@[j]),
            tree_file_count(dir_view(*dir)) <= u64::MAX,
            count == dir.contents.files@.len() + forest_file_count(fv.take(i as int)),
        decreases dir.contents.directories@.len() - i,
    {
        proof {
            lemma_take_step(fv, i as int);
            lemma_forest_counts_prefix(fv, i + 1);
            assert(fv[i as int] == dir_view(dir.contents.directories@[i as int]));
        }
        let sub = count_files_in_directory(&dir.contents.directories[i]);
        count = count + sub;
        i = i + 1;
    }
    proof {
        assert(fv.take(fv.len() as int) =~= fv);
    }
    count
}

/// Number of directories below `dir`.
pub fn count_directories_in_directory(dir: &Directory) -> (r: u64)
    requires
        tree_dir_count(dir_view(*dir)) <= u64::MAX,
    ensures
        r == tree_dir_count(dir_view(*dir)),
    decreases dir,
{
    let ghost fv = forest_view(dir.contents.directories@);
    proof {
        lemma_forest_view(dir.contents.directories@);
    }
    let mut count: u64 = dir.contents.directories.len() as u64;
    let mut i: usize = 0;
    while i < dir.contents.directories.len()
        invariant
            i <= dir.contents.directories@.len(),
            fv == forest_view(dir.contents.directories@),
            fv.len() == dir.contents.directories@.len(),
            forall|j: int| 0 <= j < fv.len() ==> #[trigger] fv[j] == dir_view(dir.contents.directories@[j]),
            tree_dir_count(dir_view(*dir)) <= u64::MAX,
            count == dir.contents.directories@.len() + forest_dir_count(fv.take(i as int)),
        decreases dir.contents.directories@.len() - i,
    {
        proof {
            lemma_take_step(fv, i as int);
            lemma_forest_counts_prefix(fv, i + 1);
            assert(fv[i as int] == dir_view(dir.contents.directories@[i as int]));
        }
        let sub = count_directories_in_directory(&dir.contents.directories[i]);
        count = count + sub;
        i = i + 1;
    }
    proof {
        assert(fv.take(fv.len() as int) =~= fv);
    }
    count
}

/// Total length of the files in the tree rooted at `dir`.
pub fn calculate_total_size(dir: &Directory) -> (r: u64)
    requires
        tree_size(dir_view(*dir)) <= u64::MAX,
    ensures
        r == tree_size(dir_view(*dir)),
    decreases dir,
{
    let ghost fv = forest_view(dir.contents.directories@);
    proof {
        lemma_forest_view(dir.contents.directories@);
    }
    let mut size: u64 = 0;
    let mut k: usize = 0;
    while k < dir.contents.files.len()
        invariant
            k <= dir.contents.files@.len(),
            fv == forest_view(dir.contents.directories@),
            tree_size(dir_view(*dir)) <= u64::MAX,
            size == files_size(dir.contents.files@.take(k as int)),
        decreases dir.contents.files@.len() - k,
    {
        proof {
            lemma_take_step(dir.contents.files@, k as int);
            lemma_files_size_prefix(dir.contents.files@, k + 1);
        }
        size = size + dir.contents.files[k].length;
        k = k + 1;
    }
    proof {
        assert(dir.contents.files@.take(k as int) =~= dir.contents.files@);
    }
    let mut i: usize = 0;
    while i < dir.contents.directories.len()
        invariant
            i <= dir.contents.directories@.len(),
            fv == forest_view(dir.contents.directories@),
            fv.len() == dir.contents.directories@.len(),
            forall|j: int| 0 <= j < fv.len() ==> #[trigger] fv[j] == dir_view(dir.contents.directories@[j]),
            tree_size(dir_view(*dir)) <= u64::MAX,
            size == files_size(dir.contents.files@) + forest_size(fv.take(i as int)),
        decreases dir.contents.directories@.len() - i,
    {
        proof {
            lemma_take_step(fv, i as int);
            lemma_forest_counts_prefix(fv, i + 1);
            assert(fv[i as int] == dir_view(dir.contents.directories@[i as int]));
        }
        let sub = calculate_total_size(&dir.contents.directories[i]);
        size = size + sub;
        i = i + 1;
    }
    proof {
        assert(fv.take(fv.len() as int) =~= fv);
    }
    size
}


/// The components of a target path: surrounding '/' removed, then split on
/// '/'; no component for an empty path.
pub open spec fn path_parts(p: Seq<char>) -> Seq<Seq<char>> {
    let t = trim_end_char(trim_start_char(p, '/'), '/');
    if t.len() == 0 {
        seq![]
    } else {
        split_char(t, '/')
    }
}

/// Splits a target path into its components.
pub fn split_path(path: &str) -> (r: Vec<String>)
    ensures
        r.deep_view() == path_parts(path@),
{
    let cs = str_to_chars(path);
    let t = trim_char(&cs, '/');
    let mut r: Vec<String> = Vec::new();
    if t.len() == 0 {
        assert(r.deep_view() =~= path_parts(path@));
        return r;
    }
    let pieces = split_chars(&t, '/');
    let mut i: usize = 0;
    while i < pieces.len()
        invariant
            i <= pieces@.len(),
            pieces.deep_view() == split_char(t@, '/'),
            r.deep_view() == pieces.deep_view().take(i as int),
        decreases pieces@.len() - i,
    {
        let ghost before = r.deep_view();
        let piece = chars_to_string(pieces[i].as_slice());
        assert(pieces@[i as int].deep_view() =~= pieces@[i as int]@);
        r.push(piece);
        assert(r.deep_view() =~= before.push(pieces.deep_view()[i as int]));
        assert(pieces.deep_view().take(i + 1) =~= before.push(pieces.deep_view()[i as int]));
        i = i + 1;
    }
    assert(pieces.deep_view().take(pieces@.len() as int) =~= pieces.deep_view());
    r
}

/// The first index at or after `i` of a directory of `s` named `name`, or -1.
pub open spec fn first_dir_named(s: Seq<DirView>, name: Seq<char>, i: int) -> int
    decreases s.len() - i,
{
    if i < 0 || i >= s.len() {
        -1
    } else if s[i].name == name {
        i
    } else {
        first_dir_named(s, name, i + 1)
    }
}

proof fn lemma_first_dir_named_range(s: Seq<DirView>, name: Seq<char>, i: int)
    requires
        0 <= i,
    ensures
        first_dir_named(s, name, i) == -1 || (i <= first_dir_named(s, name, i) < s.len()
            && s[first_dir_named(s, name, i)].name == name),
    decreases s.len() - i,
{
    if i < s.len() && s[i].name != name {
        lemma_first_dir_named_range(s, name, i + 1);
    }
}

/// The directory reached from `d` by following `parts`, taking at each
/// level the first subdirectory with the wanted name.
pub open spec fn lookup_path(d: DirView, parts: Seq<Seq<char>>) -> Option<DirView>
    decreases parts.len(),
{
    if parts.len() == 0 {
        Some(d)
    } else {
        let i = first_dir_named(d.dirs, parts[0], 0);
        if i < 0 {
            None
        } else {
            lookup_path(d.dirs[i], parts.drop_first())
        }
    }
}

pub open spec fn with_dirs(d: DirView, dirs: Seq<DirView>) -> DirView {
    DirView { name: d.name, uid: d.uid, files: d.files, dirs: dirs }
}

pub open spec fn empty_dir(name: Seq<char>, uid: nat) -> DirView {
    DirView { name: name, uid: uid, files: seq![], dirs: seq![] }
}

/// Makes every directory of `parts` exist below `d`, giving each missing one
/// the next uid after `hi`; returns the new tree and the last uid handed out.
pub open spec fn ensure_path(d: DirView, parts: Seq<Seq<char>>, hi: nat) -> (DirView, nat)
    decreases parts.len(),
{
    if parts.len() == 0 {
        (d, hi)
    } else {
        let i = first_dir_named(d.dirs, parts[0], 0);
        if i >= 0 {
            let r = ensure_path(d.dirs[i], parts.drop_first(), hi);
            (with_dirs(d, d.dirs.update(i, r.0)), r.1)
        } else {
            let r = ensure_path(empty_dir(parts[0], hi + 1), parts.drop_first(), hi + 1);
            (with_dirs(d, d.dirs.push(r.0)), r.1)
        }
    }
}

/// Appends `f` to the files of the directory at `parts`, if there is one.
pub open spec fn push_at_path(d: DirView, parts: Seq<Seq<char>>, f: File) -> Option<DirView>
    decreases parts.len(),
{
    if parts.len() == 0 {
        Some(DirView { name: d.name, uid: d.uid, files: d.files.push(f), dirs: d.dirs })
    } else {
        let i = first_dir_named(d.dirs, parts[0], 0);
        if i < 0 {
            None
        } else {
            match push_at_path(d.dirs[i], parts.drop_first(), f) {
                Some(c) => Some(with_dirs(d, d.dirs.update(i, c))),
                None => None,
            }
        }
    }
}

/// `f` with uid `u`.
pub open spec fn with_uid(f: File, u: u64) -> File {
    File {
        name: f.name,
        uid: u,
        length: f.length,
        creation_time: f.creation_time,
        change_time: f.change_time,
        modify_time: f.modify_time,
        access_time: f.access_time,
        backup_time: f.backup_time,
        read_only: f.read_only,
        openforwrite: f.openforwrite,
        symlink: f.symlink,
        extent_info: f.extent_info,
        extended_attributes: f.extended_attributes,
    }
}

/// The tree and highest uid after adding `f` at `parts`: the missing
/// directories are created first, then the file takes the next uid.
pub open spec fn add_file_spec(d: DirView, parts: Seq<Seq<char>>, f: File, hi: nat) -> (DirView, nat) {
    let e = ensure_path(d, parts, hi);
    let uid = e.1 + 1;
    (push_at_path(e.0, parts, with_uid(f, uid as u64)).unwrap(), uid)
}

proof fn lemma_ensure_path_hi(d: DirView, parts: Seq<Seq<char>>, hi: nat)
    ensures
        ensure_path(d, parts, hi).1 >= hi,
        ensure_path(d, parts, hi).1 == hi ==> ensure_path(d, parts, hi).0 == d,
    decreases parts.len(),
{
    if parts.len() > 0 {
        let i = first_dir_named(d.dirs, parts[0], 0);
        lemma_first_dir_named_range(d.dirs, parts[0], 0);
        if i >= 0 {
            lemma_ensure_path_hi(d.dirs[i], parts.drop_first(), hi);
            let r = ensure_path(d.dirs[i], parts.drop_first(), hi);
            if r.1 == hi {
                assert(d.dirs.update(i, r.0) =~= d.dirs);
            }
        } else {
            lemma_ensure_path_hi(empty_dir(parts[0], hi + 1), parts.drop_first(), hi + 1);
        }
    }
}

proof fn lemma_ensure_then_push(d: DirView, parts: Seq<Seq<char>>, hi: nat, f: File)
    ensures
        push_at_path(ensure_path(d, parts, hi).0, parts, f) is Some,
    decreases parts.len(),
{
    if parts.len() > 0 {
        let i = first_dir_named(d.dirs, parts[0], 0);
        lemma_first_dir_named_range(d.dirs, parts[0], 0);
        let e = ensure_path(d, parts, hi);
        if i >= 0 {
            let r = ensure_path(d.dirs[i], parts.drop_first(), hi);
            lemma_ensure_then_push(d.dirs[i], parts.drop_first(), hi, f);
            lemma_first_dir_named_update(d.dirs, parts[0], i, r.0);
        } else {
            let r = ensure_path(empty_dir(parts[0], hi + 1), parts.drop_first(), hi + 1);
            lemma_ensure_then_push(empty_dir(parts[0], hi + 1), parts.drop_first(), hi + 1, f);
            lemma_ensure_path_name(empty_dir(parts[0], hi + 1), parts.drop_first(), hi + 1);
            lemma_first_dir_named_push(d.dirs, parts[0], r.0);
        }
    }
}

proof fn lemma_ensure_path_name(d: DirView, parts: Seq<Seq<char>>, hi: nat)
    ensures
        ensure_path(d, parts, hi).0.name == d.name,
    decreases parts.len(),
{
}

proof fn lemma_first_dir_named_update(s: Seq<DirView>, name: Seq<char>, i: int, x: DirView)
    requires
        0 <= i < s.len(),
        first_dir_named(s, name, 0) == i,
        x.name == name,
    ensures
        first_dir_named(s.update(i, x), name, 0) == i,
{
    lemma_first_dir_named_update_from(s, name, i, x, 0);
}

proof fn lemma_first_dir_named_update_from(s: Seq<DirView>, name: Seq<char>, i: int, x: DirView, j: int)
    requires
        0 <= j <= i < s.len(),
        first_dir_named(s, name, j) == i,
        x.name == name,
    ensures
        first_dir_named(s.update(i, x), name, j) == i,
    decreases i - j,
{
    if j < i {
        lemma_first_dir_named_update_from(s, name, i, x, j + 1);
    }
}

proof fn lemma_first_dir_named_push(s: Seq<DirView>, name: Seq<char>, x: DirView)
    requires
        first_dir_named(s, name, 0) == -1,
        x.name == name,
    ensures
        first_dir_named(s.push(x), name, 0) == s.len(),
{
    lemma_first_dir_named_push_from(s, name, x, 0);
}

proof fn lemma_first_dir_named_push_from(s: Seq<DirView>, name: Seq<char>, x: DirView, j: int)
    requires
        0 <= j <= s.len(),
        first_dir_named(s, name, j) == -1,
        x.name == name,
    ensures
        first_dir_named(s.push(x), name, j) == s.len(),
    decreases s.len() - j,
{
    if j < s.len() {
        lemma_first_dir_named_push_from(s, name, x, j + 1);
    }
}


/// The highest uid handed out so far (0 when none was recorded).
pub open spec fn index_hi(i: LtfsIndex) -> nat {
    match i.highestfileuid {
        Some(h) => h as nat,
        None => 0,
    }
}

/// The index fields other than the directory tree and the highest uid are equal.
pub open spec fn same_metadata(a: LtfsIndex, b: LtfsIndex) -> bool {
    &&& a.version == b.version
    &&& a.creator == b.creator
    &&& a.volumeuuid == b.volumeuuid
    &&& a.generationnumber == b.generationnumber
    &&& a.updatetime == b.updatetime
    &&& a.location == b.location
    &&& a.previousgenerationlocation == b.previousgenerationlocation
    &&& a.allowpolicyupdate == b.allowpolicyupdate
    &&& a.volumelockstate == b.volumelockstate
}

/// The position of the first directory of `dirs` named `name`.
fn position_of_dir(dirs: &Vec<Directory>, name: &String) -> (r: Option<usize>)
    ensures
        match r {
            Some(i) => i < dirs@.len() && i as int == first_dir_named(forest_view(dirs@), name@, 0),
            None => first_dir_named(forest_view(dirs@), name@, 0) == -1,
        },
{
    let ghost fv = forest_view(dirs@);
    proof {
        lemma_forest_view(dirs@);
    }
    let mut i: usize = 0;
    while i < dirs.len()
        invariant
            i <= dirs@.len(),
            fv == forest_view(dirs@),
            fv.len() == dirs@.len(),
            forall|j: int| 0 <= j < fv.len() ==> #[trigger] fv[j] == dir_view(dirs@[j]),
            first_dir_named(fv, name@, 0) == first_dir_named(fv, name@, i as int),
        decreases dirs@.len() - i,
    {
        assert(fv[i as int].name == dirs@[i as int].name@);
        if dirs[i].name == *name {
            return Some(i);
        }
        i = i + 1;
    }
    None
}

/// A new empty directory stamped with the current time.
fn new_directory(name: String, uid: u64) -> (d: Directory)
    ensures
        dir_view(d) == empty_dir(name@, uid as nat),
        fresh_stamps(stamp_view(d)),
        stamp_view(d).dirs.len() == 0,
{
    let now = get_current_ltfs_timestamp();
    let d = Directory {
        name: name,
        uid: uid,
        creation_time: now.clone(),
        change_time: now.clone(),
        modify_time: now.clone(),
        access_time: now.clone(),
        backup_time: now,
        read_only: false,
        contents: DirectoryContents { files: Vec::new(), directories: Vec::new() },
    };
    assert(d.contents.files@ =~= Seq::<File>::empty());
    assert(forest_view(d.contents.directories@) =~= Seq::<DirView>::empty());
    assert(stamp_forest(d.contents.directories@) =~= Seq::<StampView>::empty());
    d
}

proof fn lemma_parts_skip(parts: Seq<Seq<char>>, k: int)
    requires
        0 <= k < parts.len(),
    ensures
        parts.skip(k).len() > 0,
        parts.skip(k)[0] == parts[k],
        parts.skip(k).drop_first() == parts.skip(k + 1),
{
    assert(parts.skip(k).drop_first() =~= parts.skip(k + 1));
}

fn ensure_dir_rec(dir: &mut Directory, parts: &Vec<String>, k: usize, hi: &mut u64)
    requires
        k <= parts@.len(),
        ensure_path(dir_view(*old(dir)), parts.deep_view().skip(k as int), *old(hi) as nat).1
            <= u64::MAX,
    ensures
        (dir_view(*final(dir)), *final(hi) as nat) == ensure_path(
            dir_view(*old(dir)),
            parts.deep_view().skip(k as int),
            *old(hi) as nat,
        ),
        stamps_after_ensure(
            stamp_view(*old(dir)),
            stamp_view(*final(dir)),
            dir_view(*old(dir)),
            parts.deep_view().skip(k as int),
        ),
    decreases parts@.len() - k,
{
    let ghost d0 = *dir;
    let ghost h0 = *hi as nat;
    let ghost pv = parts.deep_view().skip(k as int);
    if k == parts.len() {
        assert(pv.len() == 0);
        return;
    }
    proof {
        lemma_parts_skip(parts.deep_view(), k as int);
        lemma_forest_view(dir.contents.directories@);
        lemma_first_dir_named_range(dir_view(d0).dirs, pv[0], 0);
    }
    assert(parts.deep_view()[k as int] == parts@[k as int]@);
    match position_of_dir(&dir.contents.directories, &parts[k]) {
        Some(i) => {
            let ghost c0 = dir.contents.directories@[i as int];
            assert(dir_view(d0).dirs[i as int] == dir_view(c0));
            ensure_dir_rec(&mut dir.contents.directories[i], parts, k + 1, hi);
            proof {
                lemma_forest_view_update(d0.contents.directories@, i as int, dir.contents.directories@[i as int]);
                lemma_stamp_forest_update(d0.contents.directories@, i as int, dir.contents.directories@[i as int]);
                lemma_stamp_forest(d0.contents.directories@);
                assert(pv.drop_first() =~= parts.deep_view().skip(k + 1));
            }
        },
        None => {
            proof {
                lemma_ensure_path_hi(empty_dir(pv[0], h0 + 1), pv.drop_first(), h0 + 1);
            }
            let uid = *hi + 1;
            let mut nd = new_directory(parts[k].clone(), uid);
            let ghost nd0 = nd;
            *hi = uid;
            ensure_dir_rec(&mut nd, parts, k + 1, hi);
            proof {
                assert(pv.drop_first() =~= parts.deep_view().skip(k + 1));
                lemma_fresh_stays_fresh(stamp_view(nd0), stamp_view(nd), dir_view(nd0), pv.drop_first());
            }
            let ghost nv = dir_view(nd);
            dir.contents.directories.push(nd);
            proof {
                lemma_forest_view_push(d0.contents.directories@, nd);
                lemma_stamp_forest_push(d0.contents.directories@, nd);
                lemma_stamp_forest(d0.contents.directories@);
            }
        },
    }
}

fn push_file_rec(dir: &mut Directory, parts: &Vec<String>, k: usize, file: File) -> (r: Result<(), RustLtfsError>)
    requires
        k <= parts@.len(),
    ensures
        match push_at_path(dir_view(*old(dir)), parts.deep_view().skip(k as int), file) {
            Some(v) => r is Ok && dir_view(*final(dir)) == v,
            None => r is Err && dir_view(*final(dir)) == dir_view(*old(dir)),
        },
        stamp_view(*final(dir)) == stamp_view(*old(dir)),
    decreases parts@.len() - k,
{
    let ghost d0 = *dir;
    let ghost pv = parts.deep_view().skip(k as int);
    if k == parts.len() {
        assert(pv.len() == 0);
        dir.contents.files.push(file);
        assert(stamp_forest(dir.contents.directories@) == stamp_forest(d0.contents.directories@));
        return Ok(());
    }
    proof {
        lemma_parts_skip(parts.deep_view(), k as int);
        lemma_forest_view(dir.contents.directories@);
        lemma_first_dir_named_range(dir_view(d0).dirs, pv[0], 0);
    }
    assert(parts.deep_view()[k as int] == parts@[k as int]@);
    match position_of_dir(&dir.contents.directories, &parts[k]) {
        Some(i) => {
            let ghost c0 = dir.contents.directories@[i as int];
            assert(dir_view(d0).dirs[i as int] == dir_view(c0));
            let r = push_file_rec(&mut dir.contents.directories[i], parts, k + 1, file);
            proof {
                lemma_stamp_forest_update(d0.contents.directories@, i as int, dir.contents.directories@[i as int]);
                lemma_stamp_forest(d0.contents.directories@);
                assert(stamp_forest(d0.contents.directories@).update(i as int, stamp_view(c0)) =~= stamp_forest(
                    d0.contents.directories@,
                ));
                lemma_forest_view_update(d0.contents.directories@, i as int, dir.contents.directories@[i as int]);
                if r is Err {
                    assert(dir_view(d0).dirs.update(i as int, dir_view(d0).dirs[i as int]) =~= dir_view(d0).dirs);
                }
            }
            r
        },
        None => {
            let mut msg: Vec<char> = Vec::new();
            push_str(&mut msg, "Directory '");
            let name_chars = str_to_chars(parts[k].as_str());
            crate::text::push_chars(&mut msg, &name_chars);
            push_str(&mut msg, "' not found in path");
            Err(RustLtfsError::LtfsIndex(chars_to_string(&msg)))
        },
    }
}


/// The form of a UUID in hyphenated text: 36 characters, hyphens at 8, 13,
/// 18 and 23, lower-case hexadecimal digits elsewhere.
pub open spec fn uuid_text_form(s: Seq<char>) -> bool {
    &&& s.len() == 36
    &&& forall|i: int| 0 <= i < 36 ==> if i == 8 || i == 13 || i == 18 || i == 23 {
        #[trigger] s[i] == '-'
    } else {
        ('0' <= s[i] <= '9') || ('a' <= s[i] <= 'f')
    }
}

/// A fresh random volume UUID (`uuid::Uuid::new_v4()` in its hyphenated
/// lower-case text form, as its `Display` writes it).  The value is random:
/// only its form is stated.
#[verifier::external_body]
pub(crate) fn new_volume_uuid() -> (s: String)
    ensures
        uuid_text_form(s@),
{
    uuid::Uuid::new_v4().to_string()
}

/// The extent that records `file_size` bytes written at `pos`: partition
/// "a" for partition 0 and "b" otherwise.
pub open spec fn extent_at(e: FileExtent, pos: TapePosition, file_size: u64) -> bool {
    &&& e.partition@ == (if pos.partition == 0 { seq!['a'] } else { seq!['b'] })
    &&& e.start_block == pos.block_number
    &&& e.byte_count == file_size
    &&& e.file_offset == 0
    &&& e.byte_offset == 0
}

/// The file entry written for `name`: `size` bytes in one extent at `pos`,
/// not read-only, not open for writing, no symlink, no extended attributes.
pub open spec fn new_file_entry(f: File, name: Seq<char>, size: u64, pos: TapePosition) -> bool {
    &&& f.name@ == name
    &&& f.length == size
    &&& !f.read_only
    &&& !f.openforwrite
    &&& f.symlink is None
    &&& f.extended_attributes is None
    &&& f.extent_info.extents@.len() == 1
    &&& extent_at(f.extent_info.extents@[0], pos, size)
}

/// The root of a fresh index: an unnamed directory with uid 1.
pub open spec fn fresh_root() -> DirView {
    empty_dir(seq![], 1)
}

/// The tree an update starts from: the loaded index, or a fresh one.
pub open spec fn base_root(idx: Option<LtfsIndex>) -> DirView {
    match idx {
        Some(i) => dir_view(i.root_directory),
        None => fresh_root(),
    }
}

pub open spec fn base_hi(idx: Option<LtfsIndex>) -> nat {
    match idx {
        Some(i) => index_hi(i),
        None => 1,
    }
}

pub open spec fn base_generation(idx: Option<LtfsIndex>) -> nat {
    match idx {
        Some(i) => i.generationnumber as nat,
        None => 1,
    }
}

pub(crate) fn partition_letter(partition: u8) -> (s: String)
    ensures
        s@ == (if partition == 0 { seq!['a'] } else { seq!['b'] }),
{
    let mut v: Vec<char> = Vec::new();
    if partition == 0 {
        v.push('a');
    } else {
        v.push('b');
    }
    chars_to_string(&v)
}

impl TapeOperations {
    /// A new empty index: version 2.4.0, generation 1, a random volume
    /// UUID, located at block 0 of partition "b", highest uid 1.
    pub fn create_new_ltfs_index(&self) -> (idx: LtfsIndex)
        ensures
            dir_view(idx.root_directory) == fresh_root(),
            idx.generationnumber == 1,
            idx.highestfileuid == Some(1u64),
            idx.location.startblock == 0,
            idx.location.partition@ == seq!['b'],
            idx.previousgenerationlocation is None,
            idx.allowpolicyupdate == Some(true),
            idx.volumelockstate is None,
    {
        let now = get_current_ltfs_timestamp();
        let root = new_directory(String::new(), 1);
        assert(root.name@ == Seq::<char>::empty());
        LtfsIndex {
            version: "2.4.0".to_owned(),
            creator: "RustLTFS".to_owned(),
            volumeuuid: new_volume_uuid(),
            generationnumber: 1,
            updatetime: now,
            location: Location { partition: partition_letter(1), startblock: 0 },
            previousgenerationlocation: None,
            allowpolicyupdate: Some(true),
            volumelockstate: None,
            highestfileuid: Some(1),
            root_directory: root,
        }
    }

    /// Creates the directories of `path_parts` that are missing below the
    /// root, each with the next uid.
    pub fn ensure_directory_path_exists(&self, index: &mut LtfsIndex, path_parts: &Vec<String>) -> (r: Result<(), RustLtfsError>)
        requires
            ensure_path(dir_view(old(index).root_directory), path_parts.deep_view(), index_hi(*old(index))).1
                <= u64::MAX,
        ensures
            r is Ok,
            dir_view(final(index).root_directory) == ensure_path(
                dir_view(old(index).root_directory),
                path_parts.deep_view(),
                index_hi(*old(index)),
            ).0,
            index_hi(*final(index)) == ensure_path(
                dir_view(old(index).root_directory),
                path_parts.deep_view(),
                index_hi(*old(index)),
            ).1,
            stamps_after_ensure(
                stamp_view(old(index).root_directory),
                stamp_view(final(index).root_directory),
                dir_view(old(index).root_directory),
                path_parts.deep_view(),
            ),
            same_metadata(*final(index), *old(index)),
    {
        let ghost i0 = *index;
        let mut hi: u64 = match index.highestfileuid {
            Some(h) => h,
            None => 0,
        };
        let hi0 = hi;
        assert(path_parts.deep_view().skip(0) =~= path_parts.deep_view());
        ensure_dir_rec(&mut index.root_directory, path_parts, 0, &mut hi);
        if hi != hi0 {
            index.highestfileuid = Some(hi);
        }
        Ok(())
    }

    /// Adds `file` under `target_path` (surrounding '/' ignored, "" or "/"
    /// for the root): the missing directories are created (not read-only,
    /// stamped with the current time; the others keep their stamps), then
    /// the file takes the next uid and is appended to the target directory.
    pub fn add_file_to_target_directory(&self, index: &mut LtfsIndex, file: File, target_path: &str) -> (r: Result<(), RustLtfsError>)
        requires
            ensure_path(dir_view(old(index).root_directory), path_parts(target_path@), index_hi(*old(index))).1
                < u64::MAX,
        ensures
            r is Ok,
            dir_view(final(index).root_directory) == add_file_spec(
                dir_view(old(index).root_directory),
                path_parts(target_path@),
                file,
                index_hi(*old(index)),
            ).0,
            final(index).highestfileuid == Some(add_file_spec(
                dir_view(old(index).root_directory),
                path_parts(target_path@),
                file,
                index_hi(*old(index)),
            ).1 as u64),
            stamps_after_ensure(
                stamp_view(old(index).root_directory),
                stamp_view(final(index).root_directory),
                dir_view(old(index).root_directory),
                path_parts(target_path@),
            ),
            same_metadata(*final(index), *old(index)),
    {
        let ghost i0 = *index;
        let ghost pp = path_parts(target_path@);
        let parts = split_path(target_path);
        proof {
            lemma_ensure_path_hi(dir_view(i0.root_directory), pp, index_hi(i0));
        }
        let r = self.ensure_directory_path_exists(index, &parts);
        if r.is_err() {
            return r;
        }
        let ghost e = ensure_path(dir_view(i0.root_directory), pp, index_hi(i0));
        let hi: u64 = match index.highestfileuid {
            Some(h) => h,
            None => 0,
        };
        let new_uid = hi + 1;
        let ghost f0 = file;
        let mut file_to_add = file;
        file_to_add.uid = new_uid;
        assert(file_to_add == with_uid(f0, new_uid));
        index.highestfileuid = Some(new_uid);
        proof {
            lemma_ensure_then_push(dir_view(i0.root_directory), pp, index_hi(i0), file_to_add);
        }
        assert(parts.deep_view().skip(0) =~= parts.deep_view());
        push_file_rec(&mut index.root_directory, &parts, 0, file_to_add)
    }
}


proof fn lemma_forest_file_count_update(s: Seq<DirView>, i: int, x: DirView)
    requires
        0 <= i < s.len(),
    ensures
        forest_file_count(s.update(i, x)) + tree_file_count(s[i]) == forest_file_count(s)
            + tree_file_count(x),
    decreases s.len(),
{
    let u = s.update(i, x);
    if i == s.len() - 1 {
        assert(u.drop_last() =~= s.drop_last());
    } else {
        assert(u.drop_last() =~= s.drop_last().update(i, x));
        lemma_forest_file_count_update(s.drop_last(), i, x);
    }
}

proof fn lemma_forest_file_count_push(s: Seq<DirView>, x: DirView)
    ensures
        forest_file_count(s.push(x)) == forest_file_count(s) + tree_file_count(x),
{
    assert(s.push(x).drop_last() =~= s);
}

proof fn lemma_ensure_path_file_count(d: DirView, parts: Seq<Seq<char>>, hi: nat)
    ensures
        tree_file_count(ensure_path(d, parts, hi).0) == tree_file_count(d),
    decreases parts.len(),
{
    if parts.len() > 0 {
        let i = first_dir_named(d.dirs, parts[0], 0);
        lemma_first_dir_named_range(d.dirs, parts[0], 0);
        if i >= 0 {
            let r = ensure_path(d.dirs[i], parts.drop_first(), hi);
            lemma_ensure_path_file_count(d.dirs[i], parts.drop_first(), hi);
            lemma_forest_file_count_update(d.dirs, i, r.0);
        } else {
            let e = empty_dir(parts[0], hi + 1);
            let r = ensure_path(e, parts.drop_first(), hi + 1);
            lemma_ensure_path_file_count(e, parts.drop_first(), hi + 1);
            lemma_forest_file_count_push(d.dirs, r.0);
        }
    }
}

proof fn lemma_push_at_path(d: DirView, parts: Seq<Seq<char>>, f: File)
    ensures
        push_at_path(d, parts, f) matches Some(v) ==> {
            &&& v.name == d.name
            &&& tree_file_count(v) == tree_file_count(d) + 1
            &&& lookup_path(v, parts) matches Some(t) && t.files.len() > 0 && t.files.last() == f
        },
    decreases parts.len(),
{
    if parts.len() == 0 {
    } else {
        let i = first_dir_named(d.dirs, parts[0], 0);
        lemma_first_dir_named_range(d.dirs, parts[0], 0);
        if i >= 0 {
            lemma_push_at_path(d.dirs[i], parts.drop_first(), f);
            if let Some(c) = push_at_path(d.dirs[i], parts.drop_first(), f) {
                lemma_forest_file_count_update(d.dirs, i, c);
                lemma_first_dir_named_update(d.dirs, parts[0], i, c);
                assert(d.dirs.update(i, c)[i] == c);
            }
        }
    }
}

/// Adding a file to an index tree adds exactly one file to it.
pub proof fn law_add_file_adds_one_file(d: DirView, parts: Seq<Seq<char>>, f: File, hi: nat)
    ensures
        tree_file_count(add_file_spec(d, parts, f, hi).0) == tree_file_count(d) + 1,
{
    let e = ensure_path(d, parts, hi);
    let g = with_uid(f, (e.1 + 1) as u64);
    lemma_ensure_path_file_count(d, parts, hi);
    lemma_ensure_then_push(d, parts, hi, g);
    lemma_push_at_path(e.0, parts, g);
}

/// After a file is added at a path, the directory found at that path ends
/// with the file, carrying the new highest uid.
pub proof fn law_added_file_is_found_at_its_path(d: DirView, parts: Seq<Seq<char>>, f: File, hi: nat)
    ensures
        lookup_path(add_file_spec(d, parts, f, hi).0, parts) matches Some(t) && t.files.len() > 0
            && t.files.last() == with_uid(f, add_file_spec(d, parts, f, hi).1 as u64),
{
    let e = ensure_path(d, parts, hi);
    let g = with_uid(f, (e.1 + 1) as u64);
    lemma_ensure_then_push(d, parts, hi, g);
    lemma_push_at_path(e.0, parts, g);
}

/// The uid given to an added file is above every uid handed out before.
pub proof fn law_added_file_uid_is_fresh(d: DirView, parts: Seq<Seq<char>>, f: File, hi: nat)
    ensures
        add_file_spec(d, parts, f, hi).1 > hi,
{
    lemma_ensure_path_hi(d, parts, hi);
}

/// Every uid in the tree (directories and files) is at most `hi`.
pub open spec fn uids_within(d: DirView, hi: nat) -> bool
    decreases d,
{
    &&& d.uid <= hi
    &&& forall|j: int| 0 <= j < d.files.len() ==> (#[trigger] d.files[j]).uid <= hi
    &&& forall|k: int| 0 <= k < d.dirs.len() ==> uids_within(#[trigger] d.dirs[k], hi)
}

proof fn lemma_uids_within_mono(d: DirView, a: nat, b: nat)
    requires
        uids_within(d, a),
        a <= b,
    ensures
        uids_within(d, b),
    decreases d,
{
    assert forall|k: int| 0 <= k < d.dirs.len() implies uids_within(#[trigger] d.dirs[k], b) by {
        lemma_uids_within_mono(d.dirs[k], a, b);
    }
}

proof fn lemma_ensure_path_uids(d: DirView, parts: Seq<Seq<char>>, hi: nat)
    requires
        uids_within(d, hi),
    ensures
        uids_within(ensure_path(d, parts, hi).0, ensure_path(d, parts, hi).1),
    decreases parts.len(),
{
    if parts.len() > 0 {
        let i = first_dir_named(d.dirs, parts[0], 0);
        lemma_first_dir_named_range(d.dirs, parts[0], 0);
        let e = ensure_path(d, parts, hi);
        lemma_ensure_path_hi(d, parts, hi);
        if i >= 0 {
            let r = ensure_path(d.dirs[i], parts.drop_first(), hi);
            assert(uids_within(d.dirs[i], hi));
            lemma_ensure_path_uids(d.dirs[i], parts.drop_first(), hi);
            lemma_ensure_path_hi(d.dirs[i], parts.drop_first(), hi);
            let nd = d.dirs.update(i, r.0);
            assert forall|k: int| 0 <= k < nd.len() implies uids_within(#[trigger] nd[k], r.1) by {
                if k != i {
                    assert(uids_within(d.dirs[k], hi));
                    lemma_uids_within_mono(d.dirs[k], hi, r.1);
                }
            }
            assert(e.0 == with_dirs(d, nd));
        } else {
            let em = empty_dir(parts[0], hi + 1);
            let r = ensure_path(em, parts.drop_first(), hi + 1);
            lemma_ensure_path_uids(em, parts.drop_first(), hi + 1);
            lemma_ensure_path_hi(em, parts.drop_first(), hi + 1);
            let nd = d.dirs.push(r.0);
            assert forall|k: int| 0 <= k < nd.len() implies uids_within(#[trigger] nd[k], r.1) by {
                if k < d.dirs.len() {
                    assert(nd[k] == d.dirs[k]);
                    assert(uids_within(d.dirs[k], hi));
                    lemma_uids_within_mono(d.dirs[k], hi, r.1);
                }
            }
            assert(e.0 == with_dirs(d, nd));
        }
    }
}

proof fn lemma_push_at_path_uids(d: DirView, parts: Seq<Seq<char>>, f: File, u: nat)
    requires
        uids_within(d, u),
        f.uid <= u,
    ensures
        push_at_path(d, parts, f) matches Some(v) ==> uids_within(v, u),
    decreases parts.len(),
{
    if parts.len() == 0 {
        let v = push_at_path(d, parts, f)->0;
        assert forall|j: int| 0 <= j < v.files.len() implies (#[trigger] v.files[j]).uid <= u by {
            if j < d.files.len() {
                assert(v.files[j] == d.files[j]);
            }
        }
        assert forall|k: int| 0 <= k < v.dirs.len() implies uids_within(#[trigger] v.dirs[k], u) by {
            assert(v.dirs[k] == d.dirs[k]);
        }
    } else {
        let i = first_dir_named(d.dirs, parts[0], 0);
        lemma_first_dir_named_range(d.dirs, parts[0], 0);
        if i >= 0 {
            assert(uids_within(d.dirs[i], u));
            lemma_push_at_path_uids(d.dirs[i], parts.drop_first(), f, u);
            if let Some(c) = push_at_path(d.dirs[i], parts.drop_first(), f) {
                let nd = d.dirs.update(i, c);
                assert forall|k: int| 0 <= k < nd.len() implies uids_within(#[trigger] nd[k], u) by {
                    if k != i {
                        assert(uids_within(d.dirs[k], u));
                    }
                }
            }
        }
    }
}

/// Uids stay unique as files are added: when every uid of the tree is at
/// most the highest uid handed out (`hi`), the added file's uid is above
/// all of them, and every uid of the new tree is at most the new highest
/// uid, so the property carries on to the next addition.
pub proof fn law_uids_stay_unique(d: DirView, parts: Seq<Seq<char>>, f: File, hi: nat)
    requires
        uids_within(d, hi),
        ensure_path(d, parts, hi).1 < u64::MAX,
    ensures
        add_file_spec(d, parts, f, hi).1 > hi,
        uids_within(add_file_spec(d, parts, f, hi).0, add_file_spec(d, parts, f, hi).1),
{
    let e = ensure_path(d, parts, hi);
    lemma_ensure_path_hi(d, parts, hi);
    lemma_ensure_path_uids(d, parts, hi);
    lemma_uids_within_mono(e.0, e.1, e.1 + 1);
    let g = with_uid(f, (e.1 + 1) as u64);
    lemma_ensure_then_push(d, parts, hi, g);
    lemma_push_at_path_uids(e.0, parts, g, e.1 + 1);
}

/// `q` leads to one of the directories that `parts` walks through (the
/// start included).
pub open spec fn is_path_prefix(q: Seq<Seq<char>>, parts: Seq<Seq<char>>) -> bool {
    q.len() <= parts.len() && parts.subrange(0, q.len() as int) == q
}

/// The uids of the directories that `parts` walks through below `d`, as
/// far as they exist.
pub open spec fn path_uids(d: DirView, parts: Seq<Seq<char>>) -> Seq<nat>
    decreases parts.len(),
{
    if parts.len() == 0 {
        seq![]
    } else {
        let i = first_dir_named(d.dirs, parts[0], 0);
        if i < 0 {
            seq![]
        } else {
            seq![d.dirs[i].uid].add(path_uids(d.dirs[i], parts.drop_first()))
        }
    }
}

/// The uids `hi + 1`, ..., `hi + k`.
pub open spec fn uid_run(hi: nat, k: nat) -> Seq<nat> {
    Seq::new(k, |j: int| (hi + 1 + j) as nat)
}

/// Two directory lists in which `n` is found at the same places.
proof fn lemma_first_dir_named_same(s: Seq<DirView>, t: Seq<DirView>, n: Seq<char>, j: int)
    requires
        0 <= j,
        s.len() <= t.len(),
        forall|k: int| 0 <= k < s.len() ==> (#[trigger] t[k].name == n <==> s[k].name == n),
        forall|k: int| s.len() <= k < t.len() ==> #[trigger] t[k].name != n,
    ensures
        first_dir_named(t, n, j) == first_dir_named(s, n, j),
    decreases t.len() - j,
{
    if j < t.len() {
        if j < s.len() {
            assert(t[j].name == n <==> s[j].name == n);
        }
        lemma_first_dir_named_same(s, t, n, j + 1);
    }
}

proof fn lemma_path_uids_len(d: DirView, parts: Seq<Seq<char>>)
    ensures
        path_uids(d, parts).len() <= parts.len(),
    decreases parts.len(),
{
    if parts.len() > 0 {
        let i = first_dir_named(d.dirs, parts[0], 0);
        if i >= 0 {
            lemma_path_uids_len(d.dirs[i], parts.drop_first());
        }
    }
}

/// Making a path exist keeps the uids of the directories that were there
/// and numbers the missing ones `hi + 1`, ... in path order.
proof fn lemma_ensure_path_numbers(d: DirView, parts: Seq<Seq<char>>, hi: nat)
    ensures
        ensure_path(d, parts, hi).1 == hi + (parts.len() - path_uids(d, parts).len()),
        path_uids(ensure_path(d, parts, hi).0, parts) == path_uids(d, parts) + uid_run(
            hi,
            (parts.len() - path_uids(d, parts).len()) as nat,
        ),
        ensure_path(d, parts, hi).0.uid == d.uid,
        ensure_path(d, parts, hi).0.name == d.name,
    decreases parts.len(),
{
    lemma_path_uids_len(d, parts);
    if parts.len() == 0 {
        assert(uid_run(hi, 0) =~= seq![]);
        assert(path_uids(d, parts) + uid_run(hi, 0) =~= path_uids(d, parts));
    } else {
        let i = first_dir_named(d.dirs, parts[0], 0);
        lemma_first_dir_named_range(d.dirs, parts[0], 0);
        let rest = parts.drop_first();
        if i >= 0 {
            let c = d.dirs[i];
            let r = ensure_path(c, rest, hi);
            lemma_ensure_path_numbers(c, rest, hi);
            lemma_first_dir_named_update(d.dirs, parts[0], i, r.0);
            let nd = d.dirs.update(i, r.0);
            assert(nd[i] == r.0);
            let k = (rest.len() - path_uids(c, rest).len()) as nat;
            assert(path_uids(d, parts) == seq![c.uid].add(path_uids(c, rest)));
            assert(seq![c.uid].add(path_uids(c, rest) + uid_run(hi, k)) =~= seq![c.uid].add(path_uids(c, rest))
                + uid_run(hi, k));
        } else {
            let em = empty_dir(parts[0], hi + 1);
            let r = ensure_path(em, rest, hi + 1);
            lemma_ensure_path_numbers(em, rest, hi + 1);
            lemma_first_dir_named_push(d.dirs, parts[0], r.0);
            let nd = d.dirs.push(r.0);
            assert(nd[d.dirs.len() as int] == r.0);
            assert(path_uids(em, rest) =~= seq![]) by {
                if rest.len() > 0 {
                    assert(first_dir_named(em.dirs, rest[0], 0) == -1);
                }
            }
            assert(seq![hi + 1].add(seq![] + uid_run(hi + 1, rest.len())) =~= uid_run(hi, parts.len()));
            assert(path_uids(d, parts) =~= seq![]);
            assert(seq![] + uid_run(hi, parts.len()) =~= uid_run(hi, parts.len()));
        }
    }
}

/// Appending a file keeps the uids along the path.
proof fn lemma_push_at_path_numbers(d: DirView, parts: Seq<Seq<char>>, f: File)
    ensures
        push_at_path(d, parts, f) matches Some(v) ==> path_uids(v, parts) == path_uids(d, parts) && v.uid
            == d.uid && v.name == d.name,
    decreases parts.len(),
{
    if parts.len() > 0 {
        let i = first_dir_named(d.dirs, parts[0], 0);
        lemma_first_dir_named_range(d.dirs, parts[0], 0);
        if i >= 0 {
            lemma_push_at_path_numbers(d.dirs[i], parts.drop_first(), f);
            if let Some(c) = push_at_path(d.dirs[i], parts.drop_first(), f) {
                lemma_first_dir_named_update(d.dirs, parts[0], i, c);
                assert(d.dirs.update(i, c)[i] == c);
            }
        }
    }
}

proof fn lemma_not_prefix_rest(q: Seq<Seq<char>>, parts: Seq<Seq<char>>)
    requires
        q.len() > 0,
        parts.len() > 0,
        q[0] == parts[0],
        !is_path_prefix(q, parts),
    ensures
        !is_path_prefix(q.drop_first(), parts.drop_first()),
{
    if is_path_prefix(q.drop_first(), parts.drop_first()) {
        assert(parts.subrange(0, q.len() as int) =~= q) by {
            assert forall|k: int| 0 <= k < q.len() implies parts.subrange(0, q.len() as int)[k] == q[k] by {
                if k > 0 {
                    assert(parts.drop_first().subrange(0, q.len() - 1)[k - 1] == q.drop_first()[k - 1]);
                }
            }
        }
    }
}

/// Making a path exist changes no directory off the path.
proof fn lemma_ensure_path_off_path(d: DirView, parts: Seq<Seq<char>>, hi: nat, q: Seq<Seq<char>>)
    requires
        !is_path_prefix(q, parts),
    ensures
        lookup_path(ensure_path(d, parts, hi).0, q) == lookup_path(d, q),
    decreases parts.len(),
{
    assert(q.len() > 0) by {
        if q.len() == 0 {
            assert(parts.subrange(0, 0) =~= q);
        }
    }
    if parts.len() > 0 {
        let i = first_dir_named(d.dirs, parts[0], 0);
        lemma_first_dir_named_range(d.dirs, parts[0], 0);
        lemma_first_dir_named_range(d.dirs, q[0], 0);
        let rest = parts.drop_first();
        if i >= 0 {
            let r = ensure_path(d.dirs[i], rest, hi);
            lemma_ensure_path_name(d.dirs[i], rest, hi);
            let nd = d.dirs.update(i, r.0);
            assert(ensure_path(d, parts, hi).0 == with_dirs(d, nd));
            if q[0] == parts[0] {
                lemma_first_dir_named_update(d.dirs, parts[0], i, r.0);
                lemma_not_prefix_rest(q, parts);
                lemma_ensure_path_off_path(d.dirs[i], rest, hi, q.drop_first());
                assert(nd[i] == r.0);
            } else {
                lemma_first_dir_named_same(d.dirs, nd, q[0], 0);
                let j = first_dir_named(d.dirs, q[0], 0);
                if j >= 0 {
                    assert(nd[j] == d.dirs[j]);
                }
            }
        } else {
            let em = empty_dir(parts[0], hi + 1);
            let r = ensure_path(em, rest, hi + 1);
            lemma_ensure_path_name(em, rest, hi + 1);
            let nd = d.dirs.push(r.0);
            assert(ensure_path(d, parts, hi).0 == with_dirs(d, nd));
            if q[0] == parts[0] {
                lemma_first_dir_named_push(d.dirs, parts[0], r.0);
                lemma_not_prefix_rest(q, parts);
                lemma_ensure_path_off_path(em, rest, hi + 1, q.drop_first());
                assert(nd[d.dirs.len() as int] == r.0);
                let q1 = q.drop_first();
                assert(q1.len() > 0) by {
                    if q1.len() == 0 {
                        assert(parts.subrange(0, 1) =~= q);
                    }
                }
                assert(first_dir_named(em.dirs, q1[0], 0) == -1);
            } else {
                lemma_first_dir_named_same(d.dirs, nd, q[0], 0);
                let j = first_dir_named(d.dirs, q[0], 0);
                if j >= 0 {
                    assert(nd[j] == d.dirs[j]);
                }
            }
        }
    }
}

/// Appending a file changes no directory off its path.
proof fn lemma_push_at_path_off_path(d: DirView, parts: Seq<Seq<char>>, f: File, q: Seq<Seq<char>>)
    requires
        !is_path_prefix(q, parts),
    ensures
        push_at_path(d, parts, f) matches Some(v) ==> lookup_path(v, q) == lookup_path(d, q),
    decreases parts.len(),
{
    assert(q.len() > 0) by {
        if q.len() == 0 {
            assert(parts.subrange(0, 0) =~= q);
        }
    }
    if parts.len() > 0 {
        let i = first_dir_named(d.dirs, parts[0], 0);
        lemma_first_dir_named_range(d.dirs, parts[0], 0);
        lemma_first_dir_named_range(d.dirs, q[0], 0);
        if i >= 0 {
            lemma_push_at_path_numbers(d.dirs[i], parts.drop_first(), f);
            if let Some(c) = push_at_path(d.dirs[i], parts.drop_first(), f) {
                let nd = d.dirs.update(i, c);
                if q[0] == parts[0] {
                    lemma_first_dir_named_update(d.dirs, parts[0], i, c);
                    lemma_not_prefix_rest(q, parts);
                    lemma_push_at_path_off_path(d.dirs[i], parts.drop_first(), f, q.drop_first());
                    assert(nd[i] == c);
                } else {
                    lemma_first_dir_named_same(d.dirs, nd, q[0], 0);
                    let j = first_dir_named(d.dirs, q[0], 0);
                    if j >= 0 {
                        assert(nd[j] == d.dirs[j]);
                    }
                }
            }
        }
    }
}

/// Adding a file numbers the directories it creates: those along the path
/// that were there keep their uids, the `k` missing ones get `hi + 1`, ...,
/// `hi + k` in path order, the file gets `hi + k + 1`; and no directory
/// off the path changes.
pub proof fn law_add_file_numbers_new_directories(d: DirView, parts: Seq<Seq<char>>, f: File, hi: nat)
    requires
        ensure_path(d, parts, hi).1 < u64::MAX,
    ensures
        add_file_spec(d, parts, f, hi).1 == hi + (parts.len() - path_uids(d, parts).len()) + 1,
        path_uids(add_file_spec(d, parts, f, hi).0, parts) == path_uids(d, parts) + uid_run(
            hi,
            (parts.len() - path_uids(d, parts).len()) as nat,
        ),
        forall|q: Seq<Seq<char>>| !is_path_prefix(q, parts) ==> #[trigger] lookup_path(
            add_file_spec(d, parts, f, hi).0,
            q,
        ) == lookup_path(d, q),
{
    let e = ensure_path(d, parts, hi);
    let g = with_uid(f, (e.1 + 1) as u64);
    lemma_ensure_path_numbers(d, parts, hi);
    lemma_ensure_then_push(d, parts, hi, g);
    lemma_push_at_path_numbers(e.0, parts, g);
    assert forall|q: Seq<Seq<char>>| !is_path_prefix(q, parts) implies #[trigger] lookup_path(
        add_file_spec(d, parts, f, hi).0,
        q,
    ) == lookup_path(d, q) by {
        lemma_ensure_path_off_path(d, parts, hi, q);
        lemma_push_at_path_off_path(e.0, parts, g, q);
    }
}

/// How many files of `s` carry uid `u`.
pub open spec fn files_uid_count(s: Seq<File>, u: nat) -> nat
    decreases s.len(),
{
    if s.len() == 0 {
        0
    } else {
        files_uid_count(s.drop_last(), u) + if s.last().uid as nat == u { 1nat } else { 0nat }
    }
}

/// How many entries of a tree (directories and files) carry uid `u`.
pub open spec fn tree_uid_count(d: DirView, u: nat) -> nat
    decreases d, 1nat,
{
    (if d.uid == u { 1nat } else { 0nat }) + files_uid_count(d.files, u) + forest_uid_count(d.dirs, u)
}

pub open spec fn forest_uid_count(s: Seq<DirView>, u: nat) -> nat
    decreases s, 0nat,
{
    if s.len() == 0 {
        0
    } else {
        forest_uid_count(s.drop_last(), u) + tree_uid_count(s.last(), u)
    }
}

/// No two entries of the tree share a uid.
pub open spec fn uids_distinct(d: DirView) -> bool {
    forall|u: nat| #[trigger] tree_uid_count(d, u) <= 1
}

proof fn lemma_files_uid_count_zero(s: Seq<File>, hi: nat, u: nat)
    requires
        forall|j: int| 0 <= j < s.len() ==> (#[trigger] s[j]).uid <= hi,
        u > hi,
    ensures
        files_uid_count(s, u) == 0,
    decreases s.len(),
{
    if s.len() > 0 {
        assert(s.last() == s[s.len() - 1]);
        lemma_files_uid_count_zero(s.drop_last(), hi, u);
    }
}

proof fn lemma_tree_uid_count_zero(d: DirView, hi: nat, u: nat)
    requires
        uids_within(d, hi),
        u > hi,
    ensures
        tree_uid_count(d, u) == 0,
    decreases d, 1nat,
{
    lemma_files_uid_count_zero(d.files, hi, u);
    lemma_forest_uid_count_zero(d.dirs, hi, u);
}

proof fn lemma_forest_uid_count_zero(s: Seq<DirView>, hi: nat, u: nat)
    requires
        forall|k: int| 0 <= k < s.len() ==> uids_within(#[trigger] s[k], hi),
        u > hi,
    ensures
        forest_uid_count(s, u) == 0,
    decreases s, 0nat,
{
    if s.len() > 0 {
        assert(uids_within(s[s.len() - 1], hi));
        lemma_tree_uid_count_zero(s.last(), hi, u);
        let t = s.drop_last();
        assert forall|k: int| 0 <= k < t.len() implies uids_within(#[trigger] t[k], hi) by {
            assert(t[k] == s[k]);
        }
        lemma_forest_uid_count_zero(t, hi, u);
    }
}

proof fn lemma_forest_uid_count_update(s: Seq<DirView>, i: int, x: DirView, u: nat)
    requires
        0 <= i < s.len(),
    ensures
        forest_uid_count(s.update(i, x), u) + tree_uid_count(s[i], u) == forest_uid_count(s, u) + tree_uid_count(x, u),
    decreases s.len(),
{
    let t = s.update(i, x);
    if i == s.len() - 1 {
        assert(t.drop_last() =~= s.drop_last());
    } else {
        assert(t.drop_last() =~= s.drop_last().update(i, x));
        lemma_forest_uid_count_update(s.drop_last(), i, x, u);
    }
}

proof fn lemma_forest_uid_count_push(s: Seq<DirView>, x: DirView, u: nat)
    ensures
        forest_uid_count(s.push(x), u) == forest_uid_count(s, u) + tree_uid_count(x, u),
{
    assert(s.push(x).drop_last() =~= s);
}

/// Making a path exist adds one entry for each uid in `hi + 1 ..= ` the new
/// highest uid, and changes no other uid's count.
proof fn lemma_ensure_path_uid_count(d: DirView, parts: Seq<Seq<char>>, hi: nat, u: nat)
    ensures
        tree_uid_count(ensure_path(d, parts, hi).0, u) == tree_uid_count(d, u)
            + if hi < u <= ensure_path(d, parts, hi).1 { 1nat } else { 0nat },
    decreases parts.len(),
{
    lemma_ensure_path_hi(d, parts, hi);
    if parts.len() > 0 {
        let i = first_dir_named(d.dirs, parts[0], 0);
        lemma_first_dir_named_range(d.dirs, parts[0], 0);
        if i >= 0 {
            let r = ensure_path(d.dirs[i], parts.drop_first(), hi);
            lemma_ensure_path_uid_count(d.dirs[i], parts.drop_first(), hi, u);
            lemma_forest_uid_count_update(d.dirs, i, r.0, u);
        } else {
            let e = empty_dir(parts[0], hi + 1);
            let r = ensure_path(e, parts.drop_first(), hi + 1);
            lemma_ensure_path_uid_count(e, parts.drop_first(), hi + 1, u);
            lemma_ensure_path_hi(e, parts.drop_first(), hi + 1);
            lemma_forest_uid_count_push(d.dirs, r.0, u);
            assert(files_uid_count(e.files, u) == 0);
            assert(forest_uid_count(e.dirs, u) == 0);
        }
    }
}

proof fn lemma_push_at_path_uid_count(d: DirView, parts: Seq<Seq<char>>, f: File, u: nat)
    ensures
        push_at_path(d, parts, f) matches Some(v) ==> tree_uid_count(v, u) == tree_uid_count(d, u)
            + if f.uid as nat == u { 1nat } else { 0nat },
    decreases parts.len(),
{
    if parts.len() == 0 {
        let v = push_at_path(d, parts, f)->0;
        assert(v.files.drop_last() =~= d.files);
    } else {
        let i = first_dir_named(d.dirs, parts[0], 0);
        lemma_first_dir_named_range(d.dirs, parts[0], 0);
        if i >= 0 {
            lemma_push_at_path_uid_count(d.dirs[i], parts.drop_first(), f, u);
            if let Some(c) = push_at_path(d.dirs[i], parts.drop_first(), f) {
                lemma_forest_uid_count_update(d.dirs, i, c, u);
            }
        }
    }
}

/// Adding a file hands out exactly the uids `hi + 1 ..=` the new highest
/// uid (the new directories' and the file's): each of them gains one
/// entry, and every other uid keeps its count.  So when the uids of the
/// tree were pairwise distinct and at most `hi`, they stay pairwise
/// distinct.
pub proof fn law_added_uids_stay_distinct(d: DirView, parts: Seq<Seq<char>>, f: File, hi: nat)
    requires
        uids_within(d, hi),
        uids_distinct(d),
        ensure_path(d, parts, hi).1 < u64::MAX,
    ensures
        forall|u: nat| #[trigger] tree_uid_count(add_file_spec(d, parts, f, hi).0, u) == tree_uid_count(d, u)
            + if hi < u <= add_file_spec(d, parts, f, hi).1 { 1nat } else { 0nat },
        uids_distinct(add_file_spec(d, parts, f, hi).0),
{
    let e = ensure_path(d, parts, hi);
    let g = with_uid(f, (e.1 + 1) as u64);
    lemma_ensure_path_hi(d, parts, hi);
    lemma_ensure_then_push(d, parts, hi, g);
    let a = add_file_spec(d, parts, f, hi);
    assert forall|u: nat| #[trigger] tree_uid_count(a.0, u) == tree_uid_count(d, u)
        + if hi < u <= a.1 { 1nat } else { 0nat } by {
        lemma_ensure_path_uid_count(d, parts, hi, u);
        lemma_push_at_path_uid_count(e.0, parts, g, u);
    }
    assert forall|u: nat| #[trigger] tree_uid_count(a.0, u) <= 1 by {
        assert(tree_uid_count(d, u) <= 1);
        if hi < u {
            lemma_tree_uid_count_zero(d, hi, u);
        }
    }
}

impl TapeOperations {
    /// Records a file of `file_size` bytes, written at `write_position`,
    /// under `target_path` in the loaded index (a fresh index when none is
    /// loaded), and moves the index to its next generation.
    pub fn update_index_for_file_write(
        &mut self,
        file_name: &str,
        target_path: &str,
        file_size: u64,
        write_position: &TapePosition,
    ) -> (r: Result<(), RustLtfsError>)
        requires
            ensure_path(base_root(old(self).index), path_parts(target_path@), base_hi(old(self).index)).1
                < u64::MAX,
            base_generation(old(self).index) < u64::MAX,
        ensures
            r is Ok,
            final(self).index matches Some(idx) && {
                &&& idx.generationnumber == base_generation(old(self).index) + 1
                &&& exists|f: File|
                    {
                        &&& new_file_entry(f, file_name@, file_size, *write_position)
                        &&& dir_view(idx.root_directory) == add_file_spec(
                            base_root(old(self).index),
                            path_parts(target_path@),
                            f,
                            base_hi(old(self).index),
                        ).0
                        &&& idx.highestfileuid == Some(add_file_spec(
                            base_root(old(self).index),
                            path_parts(target_path@),
                            f,
                            base_hi(old(self).index),
                        ).1 as u64)
                    }
            },
            final(self).write_options == old(self).write_options,
            final(self).extra_partition_count == old(self).extra_partition_count,
            final(self).partition_label == old(self).partition_label,
    {
        let mut current_index = match self.index.take() {
            Some(i) => i,
            None => self.create_new_ltfs_index(),
        };
        let now = get_current_ltfs_timestamp();
        let extent = FileExtent {
            partition: partition_letter(write_position.partition),
            start_block: write_position.block_number,
            byte_count: file_size,
            file_offset: 0,
            byte_offset: 0,
        };
        let mut extents: Vec<FileExtent> = Vec::new();
        extents.push(extent);
        let new_file = File {
            name: file_name.to_owned(),
            uid: 0,
            length: file_size,
            creation_time: now.clone(),
            change_time: now.clone(),
            modify_time: now.clone(),
            access_time: now.clone(),
            backup_time: now,
            read_only: false,
            openforwrite: false,
            symlink: None,
            extent_info: ExtentInfo { extents },
            extended_attributes: None,
        };
        let ghost f = new_file;
        let r = self.add_file_to_target_directory(&mut current_index, new_file, target_path);
        if r.is_err() {
            return r;
        }
        current_index.generationnumber = current_index.generationnumber + 1;
        current_index.updatetime = get_current_ltfs_timestamp();
        self.index = Some(current_index);
        assert(new_file_entry(f, file_name@, file_size, *write_position));
        Ok(())
    }
}


/// The first file of `s` at or after `i` whose uid is `u`, or -1.
pub open spec fn first_file_with_uid(s: Seq<File>, u: u64, i: int) -> int
    decreases s.len() - i,
{
    if i < 0 || i >= s.len() {
        -1
    } else if s[i].uid == u {
        i
    } else {
        first_file_with_uid(s, u, i + 1)
    }
}

/// The file with uid `u` met first when the tree is searched depth first,
/// a directory's own files before its subdirectories.
pub open spec fn tree_find_uid(d: DirView, u: u64) -> Option<File>
    decreases d, 1nat,
{
    let i = first_file_with_uid(d.files, u, 0);
    if 0 <= i < d.files.len() {
        Some(d.files[i])
    } else {
        forest_find_uid(d.dirs, u)
    }
}

pub open spec fn forest_find_uid(s: Seq<DirView>, u: u64) -> Option<File>
    decreases s, 0nat,
{
    if s.len() == 0 {
        None
    } else {
        match tree_find_uid(s[0], u) {
            Some(f) => Some(f),
            None => forest_find_uid(s.drop_first(), u),
        }
    }
}

/// The first file at or after `i` whose lower-cased name is `n`, or -1.
pub open spec fn first_file_named(s: Seq<File>, n: Seq<char>, i: int) -> int
    decreases s.len() - i,
{
    if i < 0 || i >= s.len() {
        -1
    } else if lowercase(s[i].name@) == n {
        i
    } else {
        first_file_named(s, n, i + 1)
    }
}

/// The file whose lower-cased name is `n` met first in a depth-first search.
pub open spec fn tree_find_name(d: DirView, n: Seq<char>) -> Option<File>
    decreases d, 1nat,
{
    let i = first_file_named(d.files, n, 0);
    if 0 <= i < d.files.len() {
        Some(d.files[i])
    } else {
        forest_find_name(d.dirs, n)
    }
}

pub open spec fn forest_find_name(s: Seq<DirView>, n: Seq<char>) -> Option<File>
    decreases s, 0nat,
{
    if s.len() == 0 {
        None
    } else {
        match tree_find_name(s[0], n) {
            Some(f) => Some(f),
            None => forest_find_name(s.drop_first(), n),
        }
    }
}

proof fn lemma_skip_step<A>(s: Seq<A>, i: int)
    requires
        0 <= i < s.len(),
    ensures
        s.skip(i).len() > 0,
        s.skip(i)[0] == s[i],
        s.skip(i).drop_first() == s.skip(i + 1),
{
    assert(s.skip(i).drop_first() =~= s.skip(i + 1));
}

/// The file with uid `file_uid`, searching `dir` depth first.
pub fn search_file_by_uid(dir: &Directory, file_uid: u64) -> (r: Option<&File>)
    ensures
        match r {
            Some(f) => tree_find_uid(dir_view(*dir), file_uid) == Some(*f),
            None => tree_find_uid(dir_view(*dir), file_uid) is None,
        },
    decreases dir,
{
    let ghost fs = dir.contents.files@;
    let mut k: usize = 0;
    while k < dir.contents.files.len()
        invariant
            k <= fs.len(),
            fs == dir.contents.files@,
            first_file_with_uid(fs, file_uid, 0) == first_file_with_uid(fs, file_uid, k as int),
        decreases fs.len() - k,
    {
        if dir.contents.files[k].uid == file_uid {
            return Some(&dir.contents.files[k]);
        }
        k = k + 1;
    }
    let ghost fv = forest_view(dir.contents.directories@);
    proof {
        lemma_forest_view(dir.contents.directories@);
        assert(fv.skip(0) =~= fv);
    }
    let mut i: usize = 0;
    while i < dir.contents.directories.len()
        invariant
            i <= dir.contents.directories@.len(),
            fv == forest_view(dir.contents.directories@),
            fv.len() == dir.contents.directories@.len(),
            forall|j: int| 0 <= j < fv.len() ==> #[trigger] fv[j] == dir_view(dir.contents.directories@[j]),
            tree_find_uid(dir_view(*dir), file_uid) == forest_find_uid(fv.skip(i as int), file_uid),
        decreases dir.contents.directories@.len() - i,
    {
        proof {
            lemma_skip_step(fv, i as int);
            assert(fv[i as int] == dir_view(dir.contents.directories@[i as int]));
        }
        let found = search_file_by_uid(&dir.contents.directories[i], file_uid);
        if found.is_some() {
            return found;
        }
        i = i + 1;
    }
    proof {
        found_none(fv, i as int);
    }
    None
}

proof fn found_none(fv: Seq<DirView>, i: int)
    requires
        i == fv.len(),
    ensures
        fv.skip(i).len() == 0,
{
}

/// The file whose name equals `file_name` ignoring case, searching `dir`
/// depth first.
pub fn find_file_by_name_recursive<'a>(dir: &'a Directory, file_name: &str) -> (r: Result<&'a File, RustLtfsError>)
    ensures
        match r {
            Ok(f) => tree_find_name(dir_view(*dir), lowercase(file_name@)) == Some(*f),
            Err(_) => tree_find_name(dir_view(*dir), lowercase(file_name@)) is None,
        },
    decreases dir,
{
    let wanted = to_lowercase(file_name);
    let ghost n = lowercase(file_name@);
    let ghost fs = dir.contents.files@;
    let mut k: usize = 0;
    while k < dir.contents.files.len()
        invariant
            k <= fs.len(),
            fs == dir.contents.files@,
            wanted@ == n,
            n == lowercase(file_name@),
            first_file_named(fs, n, 0) == first_file_named(fs, n, k as int),
        decreases fs.len() - k,
    {
        let name = to_lowercase(dir.contents.files[k].name.as_str());
        if name == wanted {
            return Ok(&dir.contents.files[k]);
        }
        k = k + 1;
    }
    let ghost fv = forest_view(dir.contents.directories@);
    proof {
        lemma_forest_view(dir.contents.directories@);
        assert(fv.skip(0) =~= fv);
    }
    let mut i: usize = 0;
    while i < dir.contents.directories.len()
        invariant
            i <= dir.contents.directories@.len(),
            fv == forest_view(dir.contents.directories@),
            fv.len() == dir.contents.directories@.len(),
            forall|j: int| 0 <= j < fv.len() ==> #[trigger] fv[j] == dir_view(dir.contents.directories@[j]),
            tree_find_name(dir_view(*dir), n) == forest_find_name(fv.skip(i as int), n),
            n == lowercase(file_name@),
        decreases dir.contents.directories@.len() - i,
    {
        proof {
            lemma_skip_step(fv, i as int);
            assert(fv[i as int] == dir_view(dir.contents.directories@[i as int]));
        }
        let found = find_file_by_name_recursive(&dir.contents.directories[i], file_name);
        if found.is_ok() {
            return found;
        }
        i = i + 1;
    }
    proof {
        found_none(fv, i as int);
    }
    let mut msg: Vec<char> = Vec::new();
    push_str(&mut msg, "File not found: ");
    push_str(&mut msg, file_name);
    Err(RustLtfsError::LtfsIndex(chars_to_string(&msg)))
}

/// The directory reached from `root` by following `path` (surrounding '/'
/// ignored), taking at each level the first subdirectory with that name.
pub fn find_directory_by_path<'a>(root: &'a Directory, path: &str) -> (r: Option<&'a Directory>)
    ensures
        match r {
            Some(d) => lookup_path(dir_view(*root), path_parts(path@)) == Some(dir_view(*d)),
            None => lookup_path(dir_view(*root), path_parts(path@)) is None,
        },
{
    let parts = split_path(path);
    assert(parts.deep_view().skip(0) =~= parts.deep_view());
    find_directory_recursive(root, &parts, 0)
}

/// Follows `path_parts[index..]` from `current_dir`.
/// The directory itself (with its times) that `parts` leads to from `d`,
/// taking at each level the first subdirectory with the wanted name.
pub open spec fn directory_at(d: Directory, parts: Seq<Seq<char>>) -> Option<Directory>
    decreases parts.len(),
{
    if parts.len() == 0 {
        Some(d)
    } else {
        let i = first_dir_named(forest_view(d.contents.directories@), parts[0], 0);
        if i < 0 || i >= d.contents.directories@.len() {
            None
        } else {
            directory_at(d.contents.directories@[i], parts.drop_first())
        }
    }
}

pub fn find_directory_recursive<'a>(current_dir: &'a Directory, path_parts: &Vec<String>, index: usize) -> (r: Option<&'a Directory>)
    requires
        index <= path_parts@.len(),
    ensures
        match r {
            Some(d) => lookup_path(dir_view(*current_dir), path_parts.deep_view().skip(index as int))
                == Some(dir_view(*d)) && directory_at(*current_dir, path_parts.deep_view().skip(index as int))
                == Some(*d),
            None => lookup_path(dir_view(*current_dir), path_parts.deep_view().skip(index as int)) is None,
        },
    decreases path_parts@.len() - index,
{
    let ghost pv = path_parts.deep_view().skip(index as int);
    if index >= path_parts.len() {
        assert(pv.len() == 0);
        return Some(current_dir);
    }
    proof {
        lemma_parts_skip(path_parts.deep_view(), index as int);
        lemma_forest_view(current_dir.contents.directories@);
        lemma_first_dir_named_range(dir_view(*current_dir).dirs, pv[0], 0);
    }
    assert(path_parts.deep_view()[index as int] == path_parts@[index as int]@);
    match position_of_dir(&current_dir.contents.directories, &path_parts[index]) {
        Some(i) => {
            assert(dir_view(*current_dir).dirs[i as int] == dir_view(current_dir.contents.directories@[i as int]));
            find_directory_recursive(&current_dir.contents.directories[i], path_parts, index + 1)
        },
        None => None,
    }
}


/// Summary of a loaded index.
pub struct IndexStatistics {
    pub total_files: u64,
    pub total_directories: u64,
    pub total_size: u64,
    pub volume_uuid: String,
    pub generation_number: u64,
    pub update_time: String,
}

/// The counts of a tree fit in 64 bits (always so for a tree held in memory).
pub open spec fn counts_fit(d: DirView) -> bool {
    &&& tree_file_count(d) <= u64::MAX
    &&& tree_dir_count(d) <= u64::MAX
    &&& tree_size(d) <= u64::MAX
}

impl TapeOperations {
    /// Files, directories, total size and identity of the loaded index.
    pub fn get_index_statistics(&self) -> (r: Option<IndexStatistics>)
        requires
            self.index matches Some(i) ==> counts_fit(dir_view(i.root_directory)),
        ensures
            match (self.index, r) {
                (Some(i), Some(st)) => {
                    &&& st.total_files == tree_file_count(dir_view(i.root_directory))
                    &&& st.total_directories == tree_dir_count(dir_view(i.root_directory))
                    &&& st.total_size == tree_size(dir_view(i.root_directory))
                    &&& st.volume_uuid == i.volumeuuid
                    &&& st.generation_number == i.generationnumber
                    &&& st.update_time == i.updatetime
                },
                (None, None) => true,
                _ => false,
            },
    {
        match &self.index {
            Some(index) => {
                let st = IndexStatistics {
                    total_files: count_files_in_directory(&index.root_directory),
                    total_directories: count_directories_in_directory(&index.root_directory),
                    total_size: calculate_total_size(&index.root_directory),
                    volume_uuid: index.volumeuuid.clone(),
                    generation_number: index.generationnumber,
                    update_time: index.updatetime.clone(),
                };
                Some(st)
            },
            None => None,
        }
    }

    /// The file with uid `file_uid` in `index`.
    pub fn find_file_by_uid<'a>(&self, index: &'a LtfsIndex, file_uid: u64) -> (r: Result<&'a File, RustLtfsError>)
        ensures
            match r {
                Ok(f) => tree_find_uid(dir_view(index.root_directory), file_uid) == Some(*f),
                Err(e) => tree_find_uid(dir_view(index.root_directory), file_uid) is None
                    && e is LtfsIndex,
            },
    {
        match search_file_by_uid(&index.root_directory, file_uid) {
            Some(f) => Ok(f),
            None => {
                let mut msg: Vec<char> = Vec::new();
                push_str(&mut msg, "File with UID ");
                let digits = crate::text::decimal_exec(file_uid);
                crate::text::push_chars(&mut msg, &digits);
                push_str(&mut msg, " not found");
                Err(RustLtfsError::LtfsIndex(chars_to_string(&msg)))
            },
        }
    }

    /// The file of `index` whose name equals `file_name` ignoring case.
    pub fn find_existing_file_in_index<'a>(&self, index: &'a LtfsIndex, target_dir: &str, file_name: &str) -> (r: Result<&'a File, RustLtfsError>)
        ensures
            match r {
                Ok(f) => tree_find_name(dir_view(index.root_directory), lowercase(file_name@)) == Some(*f),
                Err(_) => tree_find_name(dir_view(index.root_directory), lowercase(file_name@)) is None,
            },
    {
        find_file_by_name_recursive(&index.root_directory, file_name)
    }

    /// Whether a directory exists; this check is not made and every
    /// directory is reported missing.
    pub fn directory_exists_in_index(&self, index: &LtfsIndex, target_path: &str, dir_name: &str) -> (r: Result<bool, RustLtfsError>)
        ensures
            r == Ok::<bool, RustLtfsError>(false),
    {
        Ok(false)
    }
}


/// Bytes of the extents of `es` on the partition whose lower-cased name is `p`.
pub open spec fn extents_usage(es: Seq<FileExtent>, p: Seq<char>) -> nat
    decreases es.len(),
{
    if es.len() == 0 {
        0
    } else {
        extents_usage(es.drop_last(), p) + if lowercase(es.last().partition@) == p {
            es.last().byte_count as nat
        } else {
            0nat
        }
    }
}

pub open spec fn files_usage(fs: Seq<File>, p: Seq<char>) -> nat
    decreases fs.len(),
{
    if fs.len() == 0 {
        0
    } else {
        files_usage(fs.drop_last(), p) + extents_usage(fs.last().extent_info.extents@, p)
    }
}

/// Bytes the files of a tree occupy on the partition named `p` (lower case).
pub open spec fn tree_usage(d: DirView, p: Seq<char>) -> nat
    decreases d, 1nat,
{
    files_usage(d.files, p) + forest_usage(d.dirs, p)
}

pub open spec fn forest_usage(s: Seq<DirView>, p: Seq<char>) -> nat
    decreases s, 0nat,
{
    if s.len() == 0 {
        0
    } else {
        forest_usage(s.drop_last(), p) + tree_usage(s.last(), p)
    }
}

proof fn lemma_usage_prefixes(fs: Seq<File>, s: Seq<DirView>, es: Seq<FileExtent>, p: Seq<char>, i: int)
    ensures
        0 <= i <= fs.len() ==> files_usage(fs.take(i), p) <= files_usage(fs, p),
        0 <= i <= s.len() ==> forest_usage(s.take(i), p) <= forest_usage(s, p),
        0 <= i <= es.len() ==> extents_usage(es.take(i), p) <= extents_usage(es, p),
    decreases fs.len() + s.len() + es.len(),
{
    if 0 <= i <= fs.len() {
        if i == fs.len() {
            assert(fs.take(i) =~= fs);
        } else {
            assert(fs.drop_last().take(i) =~= fs.take(i));
            lemma_usage_prefixes(fs.drop_last(), seq![], seq![], p, i);
        }
    }
    if 0 <= i <= s.len() {
        if i == s.len() {
            assert(s.take(i) =~= s);
        } else {
            assert(s.drop_last().take(i) =~= s.take(i));
            lemma_usage_prefixes(seq![], s.drop_last(), seq![], p, i);
        }
    }
    if 0 <= i <= es.len() {
        if i == es.len() {
            assert(es.take(i) =~= es);
        } else {
            assert(es.drop_last().take(i) =~= es.take(i));
            lemma_usage_prefixes(seq![], seq![], es.drop_last(), p, i);
        }
    }
}

fn extents_usage_checked(es: &Vec<FileExtent>, p: &String) -> (r: Option<u64>)
    ensures
        match r {
            Some(v) => v == extents_usage(es@, p@),
            None => extents_usage(es@, p@) > u64::MAX,
        },
{
    let mut total: u64 = 0;
    let mut i: usize = 0;
    while i < es.len()
        invariant
            i <= es@.len(),
            total == extents_usage(es@.take(i as int), p@),
        decreases es@.len() - i,
    {
        proof {
            lemma_take_step(es@, i as int);
            lemma_usage_prefixes(seq![], seq![], es@, p@, i + 1);
        }
        let low = to_lowercase(es[i].partition.as_str());
        if low == *p {
            match total.checked_add(es[i].byte_count) {
                Some(t) => {
                    total = t;
                },
                None => {
                    return None;
                },
            }
        }
        i = i + 1;
    }
    proof {
        assert(es@.take(es@.len() as int) =~= es@);
    }
    Some(total)
}

fn tree_usage_checked(dir: &Directory, p: &String) -> (r: Option<u64>)
    ensures
        match r {
            Some(v) => v == tree_usage(dir_view(*dir), p@),
            None => tree_usage(dir_view(*dir), p@) > u64::MAX,
        },
    decreases dir,
{
    let ghost fv = forest_view(dir.contents.directories@);
    let ghost fs = dir.contents.files@;
    proof {
        lemma_forest_view(dir.contents.directories@);
    }
    let mut total: u64 = 0;
    let mut k: usize = 0;
    while k < dir.contents.files.len()
        invariant
            k <= fs.len(),
            fs == dir.contents.files@,
            fv == forest_view(dir.contents.directories@),
            total == files_usage(fs.take(k as int), p@),
        decreases fs.len() - k,
    {
        proof {
            lemma_take_step(fs, k as int);
            lemma_usage_prefixes(fs, seq![], seq![], p@, k + 1);
            lemma_usage_prefixes(seq![], fv, seq![], p@, 0);
        }
        match extents_usage_checked(&dir.contents.files[k].extent_info.extents, p) {
            Some(u) => match total.checked_add(u) {
                Some(t) => {
                    total = t;
                },
                None => {
                    return None;
                },
            },
            None => {
                return None;
            },
        }
        k = k + 1;
    }
    proof {
        assert(fs.take(fs.len() as int) =~= fs);
    }
    let mut i: usize = 0;
    while i < dir.contents.directories.len()
        invariant
            i <= dir.contents.directories@.len(),
            fv == forest_view(dir.contents.directories@),
            fv.len() == dir.contents.directories@.len(),
            forall|j: int| 0 <= j < fv.len() ==> #[trigger] fv[j] == dir_view(dir.contents.directories@[j]),
            total == files_usage(dir.contents.files@, p@) + forest_usage(fv.take(i as int), p@),
        decreases dir.contents.directories@.len() - i,
    {
        proof {
            lemma_take_step(fv, i as int);
            lemma_usage_prefixes(seq![], fv, seq![], p@, i + 1);
            assert(fv[i as int] == dir_view(dir.contents.directories@[i as int]));
        }
        match tree_usage_checked(&dir.contents.directories[i], p) {
            Some(sub) => match total.checked_add(sub) {
                Some(t) => {
                    total = t;
                },
                None => {
                    return None;
                },
            },
            None => {
                return None;
            },
        }
        i = i + 1;
    }
    proof {
        assert(fv.take(fv.len() as int) =~= fv);
    }
    Some(total)
}

impl TapeOperations {
    /// Bytes the files of the loaded index occupy on `partition` (names
    /// compared in lower case); 0 without an index.
    pub fn get_partition_usage(&self, partition: char) -> (r: u64)
        requires
            self.index matches Some(i) ==> tree_usage(dir_view(i.root_directory), lowercase(seq![partition]))
                <= u64::MAX,
        ensures
            r == match self.index {
                Some(i) => tree_usage(dir_view(i.root_directory), lowercase(seq![partition])),
                None => 0,
            },
    {
        match &self.index {
            Some(index) => {
                let one: Vec<char> = vec![partition];
                assert(one@ =~= seq![partition]);
                let name = chars_to_string(&one);
                let p = to_lowercase(name.as_str());
                match tree_usage_checked(&index.root_directory, &p) {
                    Some(v) => v,
                    None => 0,
                }
            },
            None => 0,
        }
    }

    /// The usage of `partition` as `get_partition_usage` gives it, or `None`
    /// where the sum of the matching extents does not fit in a `u64`.
    pub fn partition_usage_checked(&self, partition: char) -> (r: Option<u64>)
        ensures
            match self.index {
                Some(i) => {
                    let total = tree_usage(dir_view(i.root_directory), lowercase(seq![partition]));
                    if total <= u64::MAX {
                        r == Some(total as u64)
                    } else {
                        r is None
                    }
                },
                None => r == Some(0u64),
            },
    {
        match &self.index {
            Some(index) => {
                let one: Vec<char> = vec![partition];
                assert(one@ =~= seq![partition]);
                let name = chars_to_string(&one);
                let p = to_lowercase(name.as_str());
                match tree_usage_checked(&index.root_directory, &p) {
                    Some(_) => Some(self.get_partition_usage(partition)),
                    None => None,
                }
            },
            None => Some(0),
        }
    }
}

impl Clone for Location {
    fn clone(&self) -> (r: Self)
        ensures
            r == *self,
    {
        Location { partition: self.partition.clone(), startblock: self.startblock }
    }
}

impl Clone for FileExtent {
    fn clone(&self) -> (r: Self)
        ensures
            r == *self,
    {
        FileExtent {
            partition: self.partition.clone(),
            start_block: self.start_block,
            byte_count: self.byte_count,
            file_offset: self.file_offset,
            byte_offset: self.byte_offset,
        }
    }
}

impl Clone for ExtendedAttribute {
    fn clone(&self) -> (r: Self)
        ensures
            r == *self,
    {
        ExtendedAttribute { key: self.key.clone(), value: self.value.clone() }
    }
}

fn clone_extents(v: &Vec<FileExtent>) -> (r: Vec<FileExtent>)
    ensures
        r@ == v@,
{
    let mut r: Vec<FileExtent> = Vec::new();
    let mut i: usize = 0;
    while i < v.len()
        invariant
            i <= v@.len(),
            r@ == v@.take(i as int),
        decreases v@.len() - i,
    {
        r.push(v[i].clone());
        assert(v@.take(i + 1) =~= v@.take(i as int).push(v@[i as int]));
        i = i + 1;
    }
    assert(v@.take(v@.len() as int) =~= v@);
    r
}

fn clone_attributes(v: &Vec<ExtendedAttribute>) -> (r: Vec<ExtendedAttribute>)
    ensures
        r@ == v@,
{
    let mut r: Vec<ExtendedAttribute> = Vec::new();
    let mut i: usize = 0;
    while i < v.len()
        invariant
            i <= v@.len(),
            r@ == v@.take(i as int),
        decreases v@.len() - i,
    {
        r.push(v[i].clone());
        assert(v@.take(i + 1) =~= v@.take(i as int).push(v@[i as int]));
        i = i + 1;
    }
    assert(v@.take(v@.len() as int) =~= v@);
    r
}

impl Clone for ExtentInfo {
    fn clone(&self) -> (r: Self)
        ensures
            r.extents@ == self.extents@,
    {
        ExtentInfo { extents: clone_extents(&self.extents) }
    }
}

impl Clone for ExtendedAttributes {
    fn clone(&self) -> (r: Self)
        ensures
            r.attributes@ == self.attributes@,
    {
        ExtendedAttributes { attributes: clone_attributes(&self.attributes) }
    }
}

fn clone_opt_string(s: &Option<String>) -> (r: Option<String>)
    ensures
        r == *s,
{
    match s {
        Some(x) => Some(x.clone()),
        None => None,
    }
}

impl Clone for File {
    fn clone(&self) -> (r: Self)
        ensures
            r.name == self.name,
            r.uid == self.uid,
            r.length == self.length,
            r.creation_time == self.creation_time,
            r.change_time == self.change_time,
            r.modify_time == self.modify_time,
            r.access_time == self.access_time,
            r.backup_time == self.backup_time,
            r.read_only == self.read_only,
            r.openforwrite == self.openforwrite,
            r.symlink == self.symlink,
            r.extent_info.extents@ == self.extent_info.extents@,
            match self.extended_attributes {
                Some(a) => r.extended_attributes matches Some(b) && b.attributes@ == a.attributes@,
                None => r.extended_attributes is None,
            },
    {
        File {
            name: self.name.clone(),
            uid: self.uid,
            length: self.length,
            creation_time: self.creation_time.clone(),
            change_time: self.change_time.clone(),
            modify_time: self.modify_time.clone(),
            access_time: self.access_time.clone(),
            backup_time: self.backup_time.clone(),
            read_only: self.read_only,
            openforwrite: self.openforwrite,
            symlink: clone_opt_string(&self.symlink),
            extent_info: self.extent_info.clone(),
            extended_attributes: match &self.extended_attributes {
                Some(a) => Some(a.clone()),
                None => None,
            },
        }
    }
}

/// A file as a value: its fields, with the lists it holds as sequences.
pub struct FileDeep {
    pub name: String,
    pub uid: u64,
    pub length: u64,
    pub times: Seq<String>,
    pub read_only: bool,
    pub openforwrite: bool,
    pub symlink: Option<String>,
    pub extents: Seq<FileExtent>,
    pub attributes: Option<Seq<ExtendedAttribute>>,
}

pub open spec fn file_deep(f: File) -> FileDeep {
    FileDeep {
        name: f.name,
        uid: f.uid,
        length: f.length,
        times: seq![f.creation_time, f.change_time, f.modify_time, f.access_time, f.backup_time],
        read_only: f.read_only,
        openforwrite: f.openforwrite,
        symlink: f.symlink,
        extents: f.extent_info.extents@,
        attributes: match f.extended_attributes {
            Some(a) => Some(a.attributes@),
            None => None,
        },
    }
}

pub open spec fn files_deep(s: Seq<File>) -> Seq<FileDeep> {
    s.map_values(|f: File| file_deep(f))
}

/// A directory tree as a value: every field of every directory and file.
pub struct DirDeep {
    pub name: String,
    pub uid: u64,
    pub times: Seq<String>,
    pub read_only: bool,
    pub files: Seq<FileDeep>,
    pub dirs: Seq<DirDeep>,
}

pub open spec fn dir_deep(d: Directory) -> DirDeep
    decreases d, 1nat,
{
    DirDeep {
        name: d.name,
        uid: d.uid,
        times: seq![d.creation_time, d.change_time, d.modify_time, d.access_time, d.backup_time],
        read_only: d.read_only,
        files: files_deep(d.contents.files@),
        dirs: forest_deep(d.contents.directories@),
    }
}

pub open spec fn forest_deep(s: Seq<Directory>) -> Seq<DirDeep>
    decreases s, 0nat,
{
    if s.len() == 0 {
        seq![]
    } else {
        forest_deep(s.drop_last()).push(dir_deep(s.last()))
    }
}

pub proof fn lemma_forest_deep(s: Seq<Directory>)
    ensures
        forest_deep(s).len() == s.len(),
        forall|i: int| 0 <= i < s.len() ==> #[trigger] forest_deep(s)[i] == dir_deep(s[i]),
    decreases s.len(),
{
    if s.len() > 0 {
        lemma_forest_deep(s.drop_last());
    }
}

/// An index as a value: its metadata and the value of its tree.  Two
/// indexes with the same `index_deep` hold the same data.
pub struct IndexDeep {
    pub version: String,
    pub creator: String,
    pub volumeuuid: String,
    pub generationnumber: u64,
    pub updatetime: String,
    pub location: Location,
    pub previousgenerationlocation: Option<Location>,
    pub allowpolicyupdate: Option<bool>,
    pub volumelockstate: Option<String>,
    pub highestfileuid: Option<u64>,
    pub root: DirDeep,
}

pub open spec fn index_deep(i: LtfsIndex) -> IndexDeep {
    IndexDeep {
        version: i.version,
        creator: i.creator,
        volumeuuid: i.volumeuuid,
        generationnumber: i.generationnumber,
        updatetime: i.updatetime,
        location: i.location,
        previousgenerationlocation: i.previousgenerationlocation,
        allowpolicyupdate: i.allowpolicyupdate,
        volumelockstate: i.volumelockstate,
        highestfileuid: i.highestfileuid,
        root: dir_deep(i.root_directory),
    }
}

/// The value of an optional index.
pub open spec fn opt_index_deep(i: Option<LtfsIndex>) -> Option<IndexDeep> {
    match i {
        Some(x) => Some(index_deep(x)),
        None => None,
    }
}

fn clone_files(v: &Vec<File>) -> (r: Vec<File>)
    ensures
        r@.len() == v@.len(),
        files_deep(r@) == files_deep(v@),
{
    let mut r: Vec<File> = Vec::new();
    let mut i: usize = 0;
    while i < v.len()
        invariant
            i <= v@.len(),
            r@.len() == i,
            forall|j: int| 0 <= j < i ==> #[trigger] file_deep(r@[j]) == file_deep(v@[j]),
        decreases v@.len() - i,
    {
        let c = v[i].clone();
        assert(file_deep(c) == file_deep(v@[i as int]));
        r.push(c);
        i = i + 1;
    }
    assert(files_deep(r@) =~= files_deep(v@));
    r
}

/// A copy of `d`, field for field through the whole tree.
pub fn clone_directory(d: &Directory) -> (r: Directory)
    ensures
        r.name == d.name,
        r.uid == d.uid,
        r.creation_time == d.creation_time,
        r.change_time == d.change_time,
        r.modify_time == d.modify_time,
        r.access_time == d.access_time,
        r.backup_time == d.backup_time,
        r.read_only == d.read_only,
        r.contents.files@.len() == d.contents.files@.len(),
        r.contents.directories@.len() == d.contents.directories@.len(),
        dir_deep(r) == dir_deep(*d),
    decreases d,
{
    let mut dirs: Vec<Directory> = Vec::new();
    let mut i: usize = 0;
    while i < d.contents.directories.len()
        invariant
            i <= d.contents.directories@.len(),
            dirs@.len() == i,
            forall|j: int| 0 <= j < i ==> #[trigger] dir_deep(dirs@[j]) == dir_deep(d.contents.directories@[j]),
        decreases d.contents.directories@.len() - i,
    {
        let c = clone_directory(&d.contents.directories[i]);
        dirs.push(c);
        i = i + 1;
    }
    proof {
        lemma_forest_deep(dirs@);
        lemma_forest_deep(d.contents.directories@);
        assert(forest_deep(dirs@) =~= forest_deep(d.contents.directories@));
    }
    Directory {
        name: d.name.clone(),
        uid: d.uid,
        creation_time: d.creation_time.clone(),
        change_time: d.change_time.clone(),
        modify_time: d.modify_time.clone(),
        access_time: d.access_time.clone(),
        backup_time: d.backup_time.clone(),
        read_only: d.read_only,
        contents: DirectoryContents { files: clone_files(&d.contents.files), directories: dirs },
    }
}

impl Clone for Directory {
    fn clone(&self) -> (r: Self)
        ensures
            r.name == self.name,
            r.uid == self.uid,
            r.contents.files@.len() == self.contents.files@.len(),
            r.contents.directories@.len() == self.contents.directories@.len(),
            dir_deep(r) == dir_deep(*self),
    {
        clone_directory(self)
    }
}

impl Clone for LtfsIndex {
    fn clone(&self) -> (r: Self)
        ensures
            r.version == self.version,
            r.creator == self.creator,
            r.volumeuuid == self.volumeuuid,
            r.generationnumber == self.generationnumber,
            r.updatetime == self.updatetime,
            r.location == self.location,
            r.previousgenerationlocation == self.previousgenerationlocation,
            r.allowpolicyupdate == self.allowpolicyupdate,
            r.volumelockstate == self.volumelockstate,
            r.highestfileuid == self.highestfileuid,
            r.root_directory.name == self.root_directory.name,
            r.root_directory.uid == self.root_directory.uid,
            index_deep(r) == index_deep(*self),
    {
        clone_index(self)
    }
}

/// A copy of `i`: the same metadata and a copy of its tree.
pub fn clone_index(i: &LtfsIndex) -> (r: LtfsIndex)
    ensures
        r.version == i.version,
        r.creator == i.creator,
        r.volumeuuid == i.volumeuuid,
        r.generationnumber == i.generationnumber,
        r.updatetime == i.updatetime,
        r.location == i.location,
        r.previousgenerationlocation == i.previousgenerationlocation,
        r.allowpolicyupdate == i.allowpolicyupdate,
        r.volumelockstate == i.volumelockstate,
        r.highestfileuid == i.highestfileuid,
        r.root_directory.name == i.root_directory.name,
        r.root_directory.uid == i.root_directory.uid,
        index_deep(r) == index_deep(*i),
{
    LtfsIndex {
        version: i.version.clone(),
        creator: i.creator.clone(),
        volumeuuid: i.volumeuuid.clone(),
        generationnumber: i.generationnumber,
        updatetime: i.updatetime.clone(),
        location: i.location.clone(),
        previousgenerationlocation: match &i.previousgenerationlocation {
            Some(l) => Some(l.clone()),
            None => None,
        },
        allowpolicyupdate: i.allowpolicyupdate,
        volumelockstate: clone_opt_string(&i.volumelockstate),
        highestfileuid: i.highestfileuid,
        root_directory: clone_directory(&i.root_directory),
    }
}

/// The files of a directory tree, counted through all its subdirectories.
pub fn count_files_recursive(dir: &Directory) -> (r: usize)
    requires
        tree_file_count(dir_view(*dir)) <= usize::MAX,
    ensures
        r == tree_file_count(dir_view(*dir)),
{
    let n = count_files_in_directory(dir);
    n as usize
}

/// Whether extracting these subdirectories deserves the warning that deep
/// nesting may not be extracted: there are some.
pub fn warn_if_deep_nesting(subdirs: &[Directory]) -> (w: bool)
    ensures
        w == (subdirs@.len() > 0),
{
    subdirs.len() > 0
}

impl TapeOperations {
    /// The bytes that the files of `index` take: the sum of their lengths.
    pub fn calculate_used_space_from_index(&self, index: &LtfsIndex) -> (r: u64)
        requires
            tree_size(dir_view(index.root_directory)) <= u64::MAX,
        ensures
            r == tree_size(dir_view(index.root_directory)),
    {
        calculate_total_size(&index.root_directory)
    }
}

} // verus!

