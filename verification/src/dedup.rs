use vstd::prelude::*;
use crate::error::RustLtfsError;
use crate::text::{chars_eq, chars_to_string, decimal, decimal_exec, parse_unsigned, parse_unsigned_exec, str_to_chars};
use crate::write::{name_le, name_le_exec};
use crate::timestamp::{utc_seconds_text, utc_seconds_text_of, LTFS_TIME_SPAN};

verus! {

broadcast use {vstd::seq::group_seq_axioms, vstd::std_specs::vec::group_vec_axioms};

/// The hash algorithms that file records can carry.
#[derive(Debug, Clone, Copy, PartialEq, Eq, Hash, Structural)]
pub enum HashType {
    Sha1,
    Sha256,
    Blake3,
    XxHash3,
    XxHash128,
}

/// The LTFS extended attribute key under which a hash is stored.
pub open spec fn hash_key(t: HashType) -> Seq<char> {
    match t {
        HashType::Sha1 => "ltfs.hash.sha1sum"@,
        HashType::Sha256 => "ltfs.hash.sha256sum"@,
        HashType::Blake3 => "ltfs.hash.blake3sum"@,
        HashType::XxHash3 => "ltfs.hash.xxhash3sum"@,
        HashType::XxHash128 => "ltfs.hash.xxhash128sum"@,
    }
}

/// The hash type stored under an extended attribute key, if any.
pub open spec fn hash_type_of_key(k: Seq<char>) -> Option<HashType> {
    if k == hash_key(HashType::Sha1) {
        Some(HashType::Sha1)
    } else if k == hash_key(HashType::Sha256) {
        Some(HashType::Sha256)
    } else if k == hash_key(HashType::Blake3) {
        Some(HashType::Blake3)
    } else if k == hash_key(HashType::XxHash3) {
        Some(HashType::XxHash3)
    } else if k == hash_key(HashType::XxHash128) {
        Some(HashType::XxHash128)
    } else {
        None
    }
}

impl HashType {
    /// The LTFS extended attribute key of the hash.
    pub fn ltfs_key(&self) -> (k: &'static str)
        ensures
            k@ == hash_key(*self),
    {
        match self {
            HashType::Sha1 => "ltfs.hash.sha1sum",
            HashType::Sha256 => "ltfs.hash.sha256sum",
            HashType::Blake3 => "ltfs.hash.blake3sum",
            HashType::XxHash3 => "ltfs.hash.xxhash3sum",
            HashType::XxHash128 => "ltfs.hash.xxhash128sum",
        }
    }

    /// The hash type stored under `key`, if it is one of the keys.
    pub fn from_ltfs_key(key: &str) -> (r: Option<HashType>)
        ensures
            r == hash_type_of_key(key@),
    {
        let k = str_to_chars(key);
        let a = str_to_chars(HashType::Sha1.ltfs_key());
        if chars_eq(&k, &a) {
            return Some(HashType::Sha1);
        }
        let b = str_to_chars(HashType::Sha256.ltfs_key());
        if chars_eq(&k, &b) {
            return Some(HashType::Sha256);
        }
        let c = str_to_chars(HashType::Blake3.ltfs_key());
        if chars_eq(&k, &c) {
            return Some(HashType::Blake3);
        }
        let d = str_to_chars(HashType::XxHash3.ltfs_key());
        if chars_eq(&k, &d) {
            return Some(HashType::XxHash3);
        }
        let e = str_to_chars(HashType::XxHash128.ltfs_key());
        if chars_eq(&k, &e) {
            return Some(HashType::XxHash128);
        }
        None
    }

    /// The name of the algorithm as shown to users.
    pub fn display_name(&self) -> (n: &'static str)
        ensures
            n@ == match *self {
                HashType::Sha1 => "SHA1"@,
                HashType::Sha256 => "SHA256"@,
                HashType::Blake3 => "BLAKE3"@,
                HashType::XxHash3 => "XXHash3"@,
                HashType::XxHash128 => "XXHash128"@,
            },
    {
        match self {
            HashType::Sha1 => "SHA1",
            HashType::Sha256 => "SHA256",
            HashType::Blake3 => "BLAKE3",
            HashType::XxHash3 => "XXHash3",
            HashType::XxHash128 => "XXHash128",
        }
    }

    /// All algorithms, in the order of preference: SHA1, SHA256, BLAKE3,
    /// XXHash3, XXHash128.
    pub fn recommended_order() -> (v: Vec<HashType>)
        ensures
            v@ == seq![HashType::Sha1, HashType::Sha256, HashType::Blake3, HashType::XxHash3, HashType::XxHash128],
    {
        let mut v: Vec<HashType> = Vec::new();
        v.push(HashType::Sha1);
        v.push(HashType::Sha256);
        v.push(HashType::Blake3);
        v.push(HashType::XxHash3);
        v.push(HashType::XxHash128);
        v
    }
}

/// Where a recorded file lies on tape.
#[derive(Debug, Clone, Copy, PartialEq, Eq, Structural)]
pub struct TapeLocation {
    pub partition: u8,
    pub start_block: u64,
    pub file_uid: u64,
}

/// The record of a file: its path, size, modification time, hashes, when
/// it was first seen and where it lies on tape.
pub struct FileHashRecord {
    pub file_path: String,
    pub file_size: u64,
    pub last_modified: u64,
    /// One value per algorithm.
    pub hashes: Vec<(HashType, String)>,
    pub first_seen: String,
    pub tape_location: Option<TapeLocation>,
}

/// A file record as values.
pub struct RecordView {
    pub file_path: Seq<char>,
    pub file_size: u64,
    pub last_modified: u64,
    pub hashes: Seq<(HashType, Seq<char>)>,
    pub first_seen: Seq<char>,
    pub tape_location: Option<TapeLocation>,
}

pub open spec fn hashes_view(h: Seq<(HashType, String)>) -> Seq<(HashType, Seq<char>)> {
    h.map_values(|p: (HashType, String)| (p.0, p.1@))
}

impl View for FileHashRecord {
    type V = RecordView;

    open spec fn view(&self) -> RecordView {
        RecordView {
            file_path: self.file_path@,
            file_size: self.file_size,
            last_modified: self.last_modified,
            hashes: hashes_view(self.hashes@),
            first_seen: self.first_seen@,
            tape_location: self.tape_location,
        }
    }
}

/// The value stored for algorithm `t`: the first pair of that algorithm.
pub open spec fn hash_value(h: Seq<(HashType, Seq<char>)>, t: HashType) -> Option<Seq<char>>
    decreases h.len(),
{
    if h.len() == 0 {
        None
    } else if h[0].0 == t {
        Some(h[0].1)
    } else {
        hash_value(h.drop_first(), t)
    }
}

/// No algorithm occurs twice among the hashes of a record.
pub open spec fn hash_types_distinct(h: Seq<(HashType, Seq<char>)>) -> bool {
    forall|i: int, j: int| 0 <= i < j < h.len() ==> #[trigger] h[i].0 != #[trigger] h[j].0
}

/// The position of the hash of algorithm `t` (the last one), -1 when
/// there is none.
pub open spec fn type_index(h: Seq<(HashType, Seq<char>)>, t: HashType) -> int
    decreases h.len(),
{
    if h.len() == 0 {
        -1
    } else if h.last().0 == t {
        h.len() - 1
    } else {
        type_index(h.drop_last(), t)
    }
}

proof fn lemma_type_index(h: Seq<(HashType, Seq<char>)>, t: HashType)
    ensures
        -1 <= type_index(h, t) < h.len(),
        type_index(h, t) >= 0 ==> h[type_index(h, t)].0 == t,
        type_index(h, t) < 0 ==> forall|k: int| 0 <= k < h.len() ==> #[trigger] h[k].0 != t,
    decreases h.len(),
{
    if h.len() > 0 && h.last().0 != t {
        lemma_type_index(h.drop_last(), t);
        if type_index(h, t) < 0 {
            assert forall|k: int| 0 <= k < h.len() implies #[trigger] h[k].0 != t by {
                if k < h.len() - 1 {
                    assert(h[k] == h.drop_last()[k]);
                }
            }
        }
    }
}

/// The hash `v` of algorithm `t` put into `h`, as a map does: it replaces
/// the value of `t`, or is appended.
pub open spec fn put_hash(h: Seq<(HashType, Seq<char>)>, t: HashType, v: Seq<char>) -> Seq<(HashType, Seq<char>)> {
    let i = type_index(h, t);
    if i >= 0 {
        h.update(i, (t, v))
    } else {
        h.push((t, v))
    }
}

proof fn lemma_put_hash_distinct(h: Seq<(HashType, Seq<char>)>, t: HashType, v: Seq<char>)
    requires
        hash_types_distinct(h),
    ensures
        hash_types_distinct(put_hash(h, t, v)),
{
    lemma_type_index(h, t);
    let r = put_hash(h, t, v);
    assert forall|i: int, j: int| 0 <= i < j < r.len() implies #[trigger] r[i].0 != #[trigger] r[j].0 by {
        if type_index(h, t) < 0 && j == h.len() {
            assert(r[i] == h[i]);
        }
    }
}

/// A filter keeps the algorithms of a record distinct; what it keeps
/// comes from the record.
proof fn lemma_filter_types_distinct(s: Seq<(HashType, Seq<char>)>, p: spec_fn((HashType, Seq<char>)) -> bool)
    requires
        hash_types_distinct(s),
    ensures
        hash_types_distinct(s.filter(p)),
        forall|k: int| #![trigger s.filter(p)[k]] 0 <= k < s.filter(p).len() ==> exists|j: int|
            0 <= j < s.len() && s.filter(p)[k] == s[j],
    decreases s.len(),
{
    reveal(Seq::filter);
    if s.len() > 0 {
        let d = s.drop_last();
        assert forall|i: int, j: int| 0 <= i < j < d.len() implies #[trigger] d[i].0 != #[trigger] d[j].0 by {
            assert(d[i] == s[i] && d[j] == s[j]);
        }
        lemma_filter_types_distinct(d, p);
        let f = d.filter(p);
        let g = s.filter(p);
        assert forall|k: int| #![trigger g[k]] 0 <= k < g.len() implies exists|j: int| 0 <= j < s.len() && g[k] == s[j] by {
            if k < f.len() {
                let j = choose|j: int| 0 <= j < d.len() && f[k] == d[j];
                assert(g[k] == f[k]);
                assert(s[j] == d[j]);
            } else {
                assert(g[k] == s[s.len() - 1]);
            }
        }
        if p(s.last()) {
            assert forall|i: int, j: int| 0 <= i < j < g.len() implies #[trigger] g[i].0 != #[trigger] g[j].0 by {
                assert(g[i] == f[i]);
                if j == f.len() {
                    let a = choose|a: int| 0 <= a < d.len() && f[i] == d[a];
                    assert(d[a] == s[a]);
                    assert(g[j] == s[s.len() - 1]);
                } else {
                    assert(g[j] == f[j]);
                }
            }
        }
    }
}

fn clone_hashes(h: &Vec<(HashType, String)>) -> (r: Vec<(HashType, String)>)
    ensures
        hashes_view(r@) == hashes_view(h@),
{
    let mut r: Vec<(HashType, String)> = Vec::new();
    let mut i: usize = 0;
    while i < h.len()
        invariant
            i <= h@.len(),
            hashes_view(r@) == hashes_view(h@.take(i as int)),
        decreases h@.len() - i,
    {
        let p = (h[i].0, h[i].1.clone());
        let ghost r0 = r@;
        r.push(p);
        proof {
            assert(h@.take(i + 1) =~= h@.take(i as int).push(h@[i as int]));
            assert(r@ == r0.push(p));
            let a = hashes_view(r@);
            let b = hashes_view(h@.take(i + 1));
            assert(a.len() == r@.len());
            assert(b.len() == i + 1);
            assert(hashes_view(r0).len() == i);
            assert forall|k: int| 0 <= k < a.len() implies a[k] == b[k] by {
                if k < i {
                    assert(hashes_view(r0)[k] == hashes_view(h@.take(i as int))[k]);
                    assert(r@[k] == r0[k]);
                } else {
                    assert(r@[k] == p);
                    assert(h@.take(i + 1)[k] == h@[i as int]);
                }
            }
            assert(a =~= b);
        }
        i = i + 1;
    }
    proof {
        assert(h@.take(h@.len() as int) =~= h@);
    }
    r
}

impl Clone for FileHashRecord {
    fn clone(&self) -> (r: Self)
        ensures
            r@ == self@,
    {
        FileHashRecord {
            file_path: self.file_path.clone(),
            file_size: self.file_size,
            last_modified: self.last_modified,
            hashes: clone_hashes(&self.hashes),
            first_seen: self.first_seen.clone(),
            tape_location: self.tape_location,
        }
    }
}

/// The value stored for algorithm `t` in `h`.
pub fn find_hash<'a>(h: &'a Vec<(HashType, String)>, t: HashType) -> (r: Option<&'a String>)
    ensures
        match r {
            Some(s) => hash_value(hashes_view(h@), t) == Some(s@),
            None => hash_value(hashes_view(h@), t) is None,
        },
{
    let mut i: usize = 0;
    proof {
        assert(hashes_view(h@).skip(0) =~= hashes_view(h@));
    }
    while i < h.len()
        invariant
            i <= h@.len(),
            hash_value(hashes_view(h@), t) == hash_value(hashes_view(h@).skip(i as int), t),
        decreases h@.len() - i,
    {
        proof {
            assert(hashes_view(h@).skip(i as int).drop_first() =~= hashes_view(h@).skip(i + 1));
        }
        if h[i].0 == t {
            return Some(&h[i].1);
        }
        i = i + 1;
    }
    proof {
        assert(hashes_view(h@).skip(i as int) =~= Seq::<(HashType, Seq<char>)>::empty());
    }
    None
}

/// `f` applied to every element: pushing commutes with it.
proof fn lemma_map_push<A, B>(s: Seq<A>, x: A, f: spec_fn(A) -> B)
    ensures
        s.push(x).map_values(f) == s.map_values(f).push(f(x)),
{
    assert(s.push(x).map_values(f) =~= s.map_values(f).push(f(x)));
}

/// `f` applied to every element: updating commutes with it.
proof fn lemma_map_update<A, B>(s: Seq<A>, i: int, x: A, f: spec_fn(A) -> B)
    requires
        0 <= i < s.len(),
    ensures
        s.update(i, x).map_values(f) == s.map_values(f).update(i, f(x)),
{
    assert(s.update(i, x).map_values(f) =~= s.map_values(f).update(i, f(x)));
}

/// `f` applied to every element: removing commutes with it.
proof fn lemma_map_remove<A, B>(s: Seq<A>, i: int, f: spec_fn(A) -> B)
    requires
        0 <= i < s.len(),
    ensures
        s.remove(i).map_values(f) == s.map_values(f).remove(i),
{
    assert(s.remove(i).map_values(f) =~= s.map_values(f).remove(i));
}

pub open spec fn records_view(v: Seq<FileHashRecord>) -> Seq<RecordView> {
    v.map_values(|r: FileHashRecord| r@)
}

pub open spec fn group_view(e: (String, Vec<FileHashRecord>)) -> (Seq<char>, Seq<RecordView>) {
    (e.0@, records_view(e.1@))
}

pub open spec fn groups_of(v: Seq<(String, Vec<FileHashRecord>)>) -> Seq<(Seq<char>, Seq<RecordView>)> {
    v.map_values(|e: (String, Vec<FileHashRecord>)| group_view(e))
}

pub open spec fn paths_of(v: Seq<(String, FileHashRecord)>) -> Seq<(Seq<char>, RecordView)> {
    v.map_values(|e: (String, FileHashRecord)| path_view(e))
}

pub open spec fn path_view(e: (String, FileHashRecord)) -> (Seq<char>, RecordView) {
    (e.0@, e.1@)
}

/// The position of the first entry with key `k` at or after `from`, or -1.
pub open spec fn key_index<V>(s: Seq<(Seq<char>, V)>, k: Seq<char>, from: int) -> int
    decreases s.len() - from,
{
    if from < 0 || from >= s.len() {
        -1
    } else if s[from].0 == k {
        from
    } else {
        key_index(s, k, from + 1)
    }
}

proof fn lemma_key_index<V>(s: Seq<(Seq<char>, V)>, k: Seq<char>, from: int)
    requires
        0 <= from,
    ensures
        key_index(s, k, from) == -1 ==> forall|j: int| from <= j < s.len() ==> s[j].0 != k,
        key_index(s, k, from) != -1 ==> from <= key_index(s, k, from) < s.len()
            && s[key_index(s, k, from)].0 == k
            && forall|j: int| from <= j < key_index(s, k, from) ==> s[j].0 != k,
    decreases s.len() - from,
{
    if from < s.len() && s[from].0 != k {
        lemma_key_index(s, k, from + 1);
    }
}

/// No two entries share a key.
pub open spec fn keys_distinct<V>(s: Seq<(Seq<char>, V)>) -> bool {
    forall|i: int, j: int| 0 <= i < j < s.len() ==> #[trigger] s[i].0 != #[trigger] s[j].0
}

/// The record under key `k` put into `s`: replacing the entry of that key,
/// or appended.
pub open spec fn put_entry<V>(s: Seq<(Seq<char>, V)>, k: Seq<char>, v: V) -> Seq<(Seq<char>, V)> {
    let i = key_index(s, k, 0);
    if i >= 0 {
        s.update(i, (k, v))
    } else {
        s.push((k, v))
    }
}

/// A record added to the groups: appended to the group of its SHA1 value
/// (a new group when there is none); a record without SHA1 joins no group.
pub open spec fn add_to_groups(g: Seq<(Seq<char>, Seq<RecordView>)>, r: RecordView) -> Seq<(Seq<char>, Seq<RecordView>)> {
    match hash_value(r.hashes, HashType::Sha1) {
        None => g,
        Some(h) => {
            let i = key_index(g, h, 0);
            if i >= 0 {
                g.update(i, (h, g[i].1.push(r)))
            } else {
                g.push((h, seq![r]))
            }
        },
    }
}

proof fn lemma_put_keeps_distinct<V>(s: Seq<(Seq<char>, V)>, k: Seq<char>, v: V)
    requires
        keys_distinct(s),
    ensures
        keys_distinct(put_entry(s, k, v)),
{
    lemma_key_index(s, k, 0);
    let t = put_entry(s, k, v);
    assert forall|i: int, j: int| 0 <= i < j < t.len() implies #[trigger] t[i].0 != #[trigger] t[j].0 by {
        if key_index(s, k, 0) < 0 && j == s.len() {
            assert(t[j].0 == k);
        }
    }
}

/// No record of the groups holds two hashes of one algorithm.
pub open spec fn groups_hashes_distinct(g: Seq<(Seq<char>, Seq<RecordView>)>) -> bool {
    forall|i: int, j: int| 0 <= i < g.len() && 0 <= j < g[i].1.len() ==> hash_types_distinct(#[trigger] g[i].1[j].hashes)
}

/// No record of the path entries holds two hashes of one algorithm.
pub open spec fn paths_hashes_distinct(p: Seq<(Seq<char>, RecordView)>) -> bool {
    forall|i: int| 0 <= i < p.len() ==> hash_types_distinct(#[trigger] p[i].1.hashes)
}

proof fn lemma_add_to_groups_distinct(g: Seq<(Seq<char>, Seq<RecordView>)>, r: RecordView)
    requires
        groups_hashes_distinct(g),
        hash_types_distinct(r.hashes),
    ensures
        groups_hashes_distinct(add_to_groups(g, r)),
{
    if let Some(h) = hash_value(r.hashes, HashType::Sha1) {
        lemma_key_index(g, h, 0);
        let n = add_to_groups(g, r);
        assert forall|i: int, j: int| 0 <= i < n.len() && 0 <= j < n[i].1.len() implies hash_types_distinct(
            #[trigger] n[i].1[j].hashes,
        ) by {
            let k = key_index(g, h, 0);
            if k >= 0 && i == k {
                if j < g[i].1.len() {
                    assert(n[i].1[j] == g[i].1[j]);
                }
            } else if i < g.len() {
                assert(n[i] == g[i]);
            }
        }
    }
}

proof fn lemma_put_entry_distinct(p: Seq<(Seq<char>, RecordView)>, k: Seq<char>, r: RecordView)
    requires
        paths_hashes_distinct(p),
        hash_types_distinct(r.hashes),
    ensures
        paths_hashes_distinct(put_entry(p, k, r)),
{
    lemma_key_index(p, k, 0);
    let n = put_entry(p, k, r);
    assert forall|i: int| 0 <= i < n.len() implies hash_types_distinct(#[trigger] n[i].1.hashes) by {
        if i < p.len() && i != key_index(p, k, 0) {
            assert(n[i] == p[i]);
        }
    }
}

/// The database of file records: records grouped by their SHA1 value,
/// and each path's latest record.
pub struct DeduplicationDatabase {
    /// SHA1 value, and the records with that value in the order added.
    pub hash_to_records: Vec<(String, Vec<FileHashRecord>)>,
    /// File path, and its latest record.
    pub path_to_record: Vec<(String, FileHashRecord)>,
    pub version: u32,
    pub created_at: String,
    pub updated_at: String,
}

impl DeduplicationDatabase {
    pub open spec fn groups(&self) -> Seq<(Seq<char>, Seq<RecordView>)> {
        groups_of(self.hash_to_records@)
    }

    pub open spec fn paths(&self) -> Seq<(Seq<char>, RecordView)> {
        paths_of(self.path_to_record@)
    }

    /// Each SHA1 value has one group, each path one record, and no record
    /// holds two hashes of one algorithm.
    pub open spec fn well_formed(&self) -> bool {
        &&& keys_distinct(self.groups())
        &&& keys_distinct(self.paths())
        &&& groups_hashes_distinct(self.groups())
        &&& paths_hashes_distinct(self.paths())
    }

    fn find_group(&self, k: &String) -> (r: Option<usize>)
        ensures
            match r {
                Some(i) => i as int == key_index(self.groups(), k@, 0) && i < self.hash_to_records@.len(),
                None => key_index(self.groups(), k@, 0) == -1,
            },
    {
        let mut i: usize = 0;
        while i < self.hash_to_records.len()
            invariant
                i <= self.hash_to_records@.len(),
                key_index(self.groups(), k@, 0) == key_index(self.groups(), k@, i as int),
            decreases self.hash_to_records@.len() - i,
        {
            assert(self.groups()[i as int].0 == self.hash_to_records@[i as int].0@);
            if self.hash_to_records[i].0 == *k {
                return Some(i);
            }
            i = i + 1;
        }
        None
    }

    fn find_path(&self, k: &String) -> (r: Option<usize>)
        ensures
            match r {
                Some(i) => i as int == key_index(self.paths(), k@, 0) && i < self.path_to_record@.len(),
                None => key_index(self.paths(), k@, 0) == -1,
            },
    {
        let mut i: usize = 0;
        while i < self.path_to_record.len()
            invariant
                i <= self.path_to_record@.len(),
                key_index(self.paths(), k@, 0) == key_index(self.paths(), k@, i as int),
            decreases self.path_to_record@.len() - i,
        {
            assert(self.paths()[i as int].0 == self.path_to_record@[i as int].0@);
            if self.path_to_record[i].0 == *k {
                return Some(i);
            }
            i = i + 1;
        }
        None
    }

    /// Adds a record: it joins the group of its SHA1 value (if it has one)
    /// and becomes the record of its path.
    pub fn add_file_record(&mut self, record: FileHashRecord)
        requires
            old(self).well_formed(),
            hash_types_distinct(record@.hashes),
        ensures
            final(self).well_formed(),
            final(self).groups() == add_to_groups(old(self).groups(), record@),
            final(self).paths() == put_entry(old(self).paths(), record@.file_path, record@),
            final(self).version == old(self).version,
            final(self).created_at == old(self).created_at,
            final(self).updated_at == old(self).updated_at,
    {
        let ghost rv = record@;
        let ghost g0 = self.groups();
        let ghost p0 = self.paths();
        match find_hash(&record.hashes, HashType::Sha1) {
            Some(h) => {
                let key = h.clone();
                match self.find_group(&key) {
                    Some(i) => {
                        let mut e = self.hash_to_records.remove(i);
                        let ghost old_e = e;
                        e.1.push(record.clone());
                        proof {
                            lemma_map_push(old_e.1@, e.1@.last(), |r: FileHashRecord| r@);
                            assert(e.1@ == old_e.1@.push(e.1@.last()));
                        }
                        self.hash_to_records.insert(i, e);
                        proof {
                            let before = old(self).hash_to_records@;
                            assert(self.hash_to_records@ =~= before.update(i as int, e));
                            lemma_map_update(before, i as int, e, |x: (String, Vec<FileHashRecord>)| group_view(x));
                            lemma_key_index(g0, key@, 0);
                            assert(old_e == before[i as int]);
                            assert(g0[i as int] == group_view(before[i as int]));
                            assert(e.1@.last()@ == rv);
                            assert(records_view(e.1@) == records_view(old_e.1@).push(rv));
                            assert(group_view(e) == (key@, g0[i as int].1.push(rv)));
                        }
                    },
                    None => {
                        let mut v: Vec<FileHashRecord> = Vec::new();
                        v.push(record.clone());
                        let e = (key, v);
                        let ghost before = self.hash_to_records@;
                        self.hash_to_records.push(e);
                        proof {
                            lemma_map_push(before, e, |x: (String, Vec<FileHashRecord>)| group_view(x));
                            assert(records_view(v@) =~= seq![rv]);
                        }
                    },
                }
                proof {
                    lemma_key_index(g0, h@, 0);
                    let g = self.groups();
                    assert forall|a: int, b: int| 0 <= a < b < g.len() implies #[trigger] g[a].0 != #[trigger] g[b].0 by {
                        if key_index(g0, h@, 0) < 0 && b == g0.len() {
                            assert(g[b].0 == h@);
                        }
                    }
                }
            },
            None => {},
        }
        let path = record.file_path.clone();
        let ghost before_p = self.path_to_record@;
        match self.find_path(&path) {
            Some(j) => {
                self.path_to_record.set(j, (path, record));
                proof {
                    lemma_map_update(before_p, j as int, self.path_to_record@[j as int], |x: (String, FileHashRecord)| path_view(x));
                }
            },
            None => {
                self.path_to_record.push((path, record));
                proof {
                    lemma_map_push(before_p, self.path_to_record@.last(), |x: (String, FileHashRecord)| path_view(x));
                }
            },
        }
        proof {
            lemma_put_keeps_distinct(p0, rv.file_path, rv);
            lemma_put_entry_distinct(p0, rv.file_path, rv);
            lemma_add_to_groups_distinct(g0, rv);
        }
    }

    /// The records whose SHA1 value is `sha1_hash`, if any.
    pub fn check_duplicate(&self, sha1_hash: &str) -> (r: Option<&Vec<FileHashRecord>>)
        ensures
            match r {
                Some(v) => key_index(self.groups(), sha1_hash@, 0) >= 0
                    && records_view(v@) == self.groups()[key_index(self.groups(), sha1_hash@, 0)].1,
                None => key_index(self.groups(), sha1_hash@, 0) == -1,
            },
    {
        let k = sha1_hash.to_owned();
        match self.find_group(&k) {
            Some(i) => {
                assert(self.groups()[i as int] == group_view(self.hash_to_records@[i as int]));
                Some(&self.hash_to_records[i].1)
            },
            None => None,
        }
    }
}

/// Duplicate counts of the database.
#[derive(Debug, Clone, Copy, PartialEq, Eq, Structural)]
pub struct DuplicateStats {
    /// Paths recorded.
    pub total_files: usize,
    /// SHA1 values shared by more than one record.
    pub duplicate_groups: usize,
    /// Records beyond the first of each such value.
    pub total_duplicates: usize,
    /// Bytes those extra records take, counted at the size of the first.
    pub space_saved: u64,
    /// Distinct SHA1 values.
    pub unique_files: usize,
}

pub open spec fn dup_group_count(g: Seq<(Seq<char>, Seq<RecordView>)>) -> nat
    decreases g.len(),
{
    if g.len() == 0 {
        0
    } else {
        dup_group_count(g.drop_last()) + if g.last().1.len() > 1 { 1nat } else { 0nat }
    }
}

pub open spec fn dup_record_count(g: Seq<(Seq<char>, Seq<RecordView>)>) -> nat
    decreases g.len(),
{
    if g.len() == 0 {
        0
    } else {
        dup_record_count(g.drop_last()) + if g.last().1.len() > 1 { (g.last().1.len() - 1) as nat } else { 0nat }
    }
}

pub open spec fn dup_space(g: Seq<(Seq<char>, Seq<RecordView>)>) -> nat
    decreases g.len(),
{
    if g.len() == 0 {
        0
    } else {
        dup_space(g.drop_last()) + if g.last().1.len() > 1 {
            (g.last().1[0].file_size * (g.last().1.len() - 1)) as nat
        } else {
            0nat
        }
    }
}

proof fn lemma_dup_prefix(g: Seq<(Seq<char>, Seq<RecordView>)>, i: int)
    requires
        0 <= i <= g.len(),
    ensures
        dup_group_count(g.take(i)) <= dup_group_count(g),
        dup_record_count(g.take(i)) <= dup_record_count(g),
        dup_space(g.take(i)) <= dup_space(g),
    decreases g.len(),
{
    if i == g.len() {
        assert(g.take(i) =~= g);
    } else {
        assert(g.drop_last().take(i) =~= g.take(i));
        lemma_dup_prefix(g.drop_last(), i);
        assert(dup_space(g) >= dup_space(g.drop_last())) by (nonlinear_arith)
            requires
                dup_space(g) == dup_space(g.drop_last()) + if g.last().1.len() > 1 {
                    (g.last().1[0].file_size * (g.last().1.len() - 1)) as nat
                } else {
                    0nat
                },
        ;
    }
}

impl DeduplicationDatabase {
    /// The duplicate counts of the database.
    pub fn get_duplicate_stats(&self) -> (r: DuplicateStats)
        requires
            dup_record_count(self.groups()) <= usize::MAX,
            dup_space(self.groups()) <= u64::MAX,
        ensures
            r.total_files == self.paths().len(),
            r.duplicate_groups == dup_group_count(self.groups()),
            r.total_duplicates == dup_record_count(self.groups()),
            r.space_saved == dup_space(self.groups()),
            r.unique_files == self.groups().len(),
    {
        let ghost g = self.groups();
        let mut duplicate_groups: usize = 0;
        let mut total_duplicates: usize = 0;
        let mut space_saved: u64 = 0;
        let mut i: usize = 0;
        while i < self.hash_to_records.len()
            invariant
                i <= self.hash_to_records@.len(),
                g == self.groups(),
                g.len() == self.hash_to_records@.len(),
                dup_record_count(g) <= usize::MAX,
                dup_space(g) <= u64::MAX,
                duplicate_groups == dup_group_count(g.take(i as int)),
                total_duplicates == dup_record_count(g.take(i as int)),
                space_saved == dup_space(g.take(i as int)),
                duplicate_groups <= i,
            decreases self.hash_to_records@.len() - i,
        {
            proof {
                assert(g.take(i + 1).drop_last() =~= g.take(i as int));
                lemma_dup_prefix(g, i + 1);
                assert(g[i as int] == group_view(self.hash_to_records@[i as int]));
            }
            let records = &self.hash_to_records[i].1;
            let n = records.len();
            if n > 1 {
                duplicate_groups = duplicate_groups + 1;
                total_duplicates = total_duplicates + (n - 1);
                let size = records[0].file_size;
                proof {
                    assert(g[i as int].1[0] == records@[0]@);
                    assert(g.take(i + 1).last() == g[i as int]);
                }
                let extra: u64 = (n - 1) as u64;
                assert(size * extra <= u64::MAX) by (nonlinear_arith)
                    requires
                        space_saved + size * extra <= u64::MAX,
                        space_saved >= 0,
                ;
                space_saved = space_saved + size * extra;
            }
            i = i + 1;
        }
        proof {
            assert(g.take(g.len() as int) =~= g);
        }
        DuplicateStats {
            total_files: self.path_to_record.len(),
            duplicate_groups,
            total_duplicates,
            space_saved,
            unique_files: self.hash_to_records.len(),
        }
    }
}

/// Whether the path `x` has a record.
pub open spec fn path_known(p: Seq<(Seq<char>, RecordView)>, x: Seq<char>) -> bool {
    key_index(p, x, 0) >= 0
}

/// The records of `rs` whose path has a record, in order.
pub open spec fn kept_records(rs: Seq<RecordView>, p: Seq<(Seq<char>, RecordView)>) -> Seq<RecordView>
    decreases rs.len(),
{
    if rs.len() == 0 {
        seq![]
    } else {
        let k = kept_records(rs.drop_last(), p);
        if path_known(p, rs.last().file_path) {
            k.push(rs.last())
        } else {
            k
        }
    }
}

/// The groups with the records of unknown paths dropped, and emptied
/// groups dropped.
pub open spec fn compact_groups(g: Seq<(Seq<char>, Seq<RecordView>)>, p: Seq<(Seq<char>, RecordView)>) -> Seq<(Seq<char>, Seq<RecordView>)>
    decreases g.len(),
{
    if g.len() == 0 {
        seq![]
    } else {
        let rest = compact_groups(g.drop_last(), p);
        let k = kept_records(g.last().1, p);
        if k.len() > 0 {
            rest.push((g.last().0, k))
        } else {
            rest
        }
    }
}

pub open spec fn total_records(g: Seq<(Seq<char>, Seq<RecordView>)>) -> nat
    decreases g.len(),
{
    if g.len() == 0 {
        0
    } else {
        total_records(g.drop_last()) + g.last().1.len()
    }
}

/// Some record of the groups has the path `x`.
pub open spec fn in_groups(g: Seq<(Seq<char>, Seq<RecordView>)>, x: Seq<char>) -> bool {
    exists|i: int, j: int| 0 <= i < g.len() && 0 <= j < g[i].1.len() && (#[trigger] g[i].1[j]).file_path == x
}

/// The path entries whose path some record of the groups has, in order.
pub open spec fn kept_paths(p: Seq<(Seq<char>, RecordView)>, g: Seq<(Seq<char>, Seq<RecordView>)>) -> Seq<(Seq<char>, RecordView)>
    decreases p.len(),
{
    if p.len() == 0 {
        seq![]
    } else {
        let k = kept_paths(p.drop_last(), g);
        if in_groups(g, p.last().0) {
            k.push(p.last())
        } else {
            k
        }
    }
}

proof fn lemma_kept_records_len(rs: Seq<RecordView>, p: Seq<(Seq<char>, RecordView)>)
    ensures
        kept_records(rs, p).len() <= rs.len(),
    decreases rs.len(),
{
    if rs.len() > 0 {
        lemma_kept_records_len(rs.drop_last(), p);
    }
}

proof fn lemma_compact_total(g: Seq<(Seq<char>, Seq<RecordView>)>, p: Seq<(Seq<char>, RecordView)>)
    ensures
        total_records(compact_groups(g, p)) <= total_records(g),
    decreases g.len(),
{
    if g.len() > 0 {
        lemma_compact_total(g.drop_last(), p);
        lemma_kept_records_len(g.last().1, p);
        let rest = compact_groups(g.drop_last(), p);
        let k = kept_records(g.last().1, p);
        if k.len() > 0 {
            assert(rest.push((g.last().0, k)).drop_last() =~= rest);
        }
    }
}

proof fn lemma_kept_paths_len(p: Seq<(Seq<char>, RecordView)>, g: Seq<(Seq<char>, Seq<RecordView>)>)
    ensures
        kept_paths(p, g).len() <= p.len(),
    decreases p.len(),
{
    if p.len() > 0 {
        lemma_kept_paths_len(p.drop_last(), g);
    }
}

proof fn lemma_total_prefix(g: Seq<(Seq<char>, Seq<RecordView>)>, i: int)
    requires
        0 <= i <= g.len(),
    ensures
        total_records(g.take(i)) <= total_records(g),
    decreases g.len(),
{
    if i == g.len() {
        assert(g.take(i) =~= g);
    } else {
        assert(g.drop_last().take(i) =~= g.take(i));
        lemma_total_prefix(g.drop_last(), i);
    }
}

impl DeduplicationDatabase {
    /// Whether some record of the database has the path `x`.
    fn path_in_groups(&self, x: &String) -> (r: bool)
        ensures
            r == in_groups(self.groups(), x@),
    {
        let ghost g = self.groups();
        let mut i: usize = 0;
        while i < self.hash_to_records.len()
            invariant
                i <= self.hash_to_records@.len(),
                g == self.groups(),
                g.len() == self.hash_to_records@.len(),
                forall|a: int, b: int| 0 <= a < i && 0 <= b < g[a].1.len() ==> (#[trigger] g[a].1[b]).file_path != x@,
            decreases self.hash_to_records@.len() - i,
        {
            let rs = &self.hash_to_records[i].1;
            proof {
                assert(g[i as int] == group_view(self.hash_to_records@[i as int]));
            }
            let mut j: usize = 0;
            while j < rs.len()
                invariant
                    j <= rs@.len(),
                    i < g.len(),
                    g == self.groups(),
                    g.len() == self.hash_to_records@.len(),
                    g[i as int].1 == records_view(rs@),
                    forall|a: int, b: int| 0 <= a < i && 0 <= b < g[a].1.len() ==> (#[trigger] g[a].1[b]).file_path != x@,
                    forall|b: int| 0 <= b < j ==> (#[trigger] g[i as int].1[b]).file_path != x@,
                decreases rs@.len() - j,
            {
                assert(g[i as int].1[j as int] == rs@[j as int]@);
                if rs[j].file_path == *x {
                    assert(g[i as int].1[j as int].file_path == x@);
                    return true;
                }
                j = j + 1;
            }
            i = i + 1;
        }
        false
    }

    /// Drops the records whose path has no record, then the groups left
    /// empty, then the path records that no group mentions; gives the
    /// number of entries dropped.
    pub fn compact(&mut self) -> (r: Result<usize, RustLtfsError>)
        requires
            total_records(old(self).groups()) + old(self).paths().len() <= usize::MAX,
        ensures
            final(self).groups() == compact_groups(old(self).groups(), old(self).paths()),
            final(self).paths() == kept_paths(old(self).paths(), final(self).groups()),
            r matches Ok(n) && n == (total_records(old(self).groups()) - total_records(final(self).groups()))
                + (old(self).paths().len() - final(self).paths().len()),
            final(self).version == old(self).version,
            final(self).created_at == old(self).created_at,
            final(self).updated_at == old(self).updated_at,
    {
        let ghost g0 = self.groups();
        let ghost p0 = self.paths();
        let mut removed: usize = 0;
        let mut groups: Vec<(String, Vec<FileHashRecord>)> = Vec::new();
        std::mem::swap(&mut groups, &mut self.hash_to_records);
        let mut i: usize = 0;
        proof {
            lemma_compact_total(g0, p0);
        }
        while i < groups.len()
            invariant
                i <= groups@.len(),
                g0 == groups_of(groups@),
                p0 == self.paths(),
                g0.len() == groups@.len(),
                groups_of(self.hash_to_records@) == compact_groups(g0.take(i as int), p0),
                removed == total_records(g0.take(i as int)) - total_records(compact_groups(g0.take(i as int), p0)),
                total_records(compact_groups(g0.take(i as int), p0)) <= total_records(g0.take(i as int)),
                total_records(g0) + p0.len() <= usize::MAX,
                self.version == old(self).version,
                self.created_at == old(self).created_at,
                self.updated_at == old(self).updated_at,
            decreases groups@.len() - i,
        {
            proof {
                assert(g0.take(i + 1).drop_last() =~= g0.take(i as int));
                lemma_total_prefix(g0, i + 1);
                lemma_compact_total(g0.take(i + 1), p0);
                assert(g0[i as int] == group_view(groups@[i as int]));
            }
            let rs = &groups[i].1;
            let ghost rv = records_view(rs@);
            let mut kept: Vec<FileHashRecord> = Vec::new();
            let mut j: usize = 0;
            while j < rs.len()
                invariant
                    j <= rs@.len(),
                    rv == records_view(rs@),
                    p0 == self.paths(),
                    records_view(kept@) == kept_records(rv.take(j as int), p0),
                decreases rs@.len() - j,
            {
                proof {
                    assert(rv.take(j + 1).drop_last() =~= rv.take(j as int));
                    assert(rv[j as int] == rs@[j as int]@);
                }
                let known = self.find_path(&rs[j].file_path);
                if known.is_some() {
                    let ghost k0 = kept@;
                    kept.push(rs[j].clone());
                    proof {
                        lemma_map_push(k0, kept@.last(), |r: FileHashRecord| r@);
                    }
                }
                j = j + 1;
            }
            proof {
                assert(rv.take(rv.len() as int) =~= rv);
                lemma_kept_records_len(rv, p0);
                assert(g0.take(i + 1).last() == g0[i as int]);
                assert(rv == g0[i as int].1);
                assert(records_view(kept@) == kept_records(g0.take(i + 1).last().1, p0));
                assert(records_view(kept@).len() == kept@.len());
                let s1 = g0.take(i + 1);
                let rest = compact_groups(g0.take(i as int), p0);
                let kk = kept_records(g0[i as int].1, p0);
                assert(s1.drop_last() == g0.take(i as int));
                assert(total_records(s1) == total_records(g0.take(i as int)) + g0[i as int].1.len());
                if kk.len() > 0 {
                    assert(rest.push((g0[i as int].0, kk)).drop_last() =~= rest);
                    assert(compact_groups(s1, p0) == rest.push((g0[i as int].0, kk)));
                    assert(total_records(compact_groups(s1, p0)) == total_records(rest) + kk.len());
                } else {
                    assert(compact_groups(s1, p0) == rest);
                }
            }
            let n = rs.len();
            let k = kept.len();
            assert(k <= n);
            removed = removed + (n - k);
            if k > 0 {
                let key = groups[i].0.clone();
                let ghost before = self.hash_to_records@;
                self.hash_to_records.push((key, kept));
                proof {
                    lemma_map_push(before, self.hash_to_records@.last(), |e: (String, Vec<FileHashRecord>)| group_view(e));
                    assert(group_view(self.hash_to_records@.last()) == (g0[i as int].0, kept_records(g0[i as int].1, p0)));
                }
            }
            i = i + 1;
        }
        proof {
            assert(g0.take(g0.len() as int) =~= g0);
        }
        let ghost g1 = self.groups();
        let mut paths: Vec<(String, FileHashRecord)> = Vec::new();
        std::mem::swap(&mut paths, &mut self.path_to_record);
        let mut q: usize = 0;
        while q < paths.len()
            invariant
                q <= paths@.len(),
                p0 == paths_of(paths@),
                p0.len() == paths@.len(),
                g1 == self.groups(),
                paths_of(self.path_to_record@) == kept_paths(p0.take(q as int), g1),
                kept_paths(p0.take(q as int), g1).len() <= q,
                removed == total_records(g0) - total_records(g1) + (q - kept_paths(p0.take(q as int), g1).len()),
                total_records(g1) <= total_records(g0),
                total_records(g0) + p0.len() <= usize::MAX,
                self.version == old(self).version,
                self.created_at == old(self).created_at,
                self.updated_at == old(self).updated_at,
            decreases paths@.len() - q,
        {
            proof {
                assert(p0.take(q + 1).drop_last() =~= p0.take(q as int));
                assert(p0[q as int] == path_view(paths@[q as int]));
            }
            let inside = self.path_in_groups(&paths[q].0);
            if inside {
                let e = (paths[q].0.clone(), paths[q].1.clone());
                let ghost before = self.path_to_record@;
                self.path_to_record.push(e);
                proof {
                    lemma_map_push(before, e, |x: (String, FileHashRecord)| path_view(x));
                }
            } else {
                removed = removed + 1;
            }
            q = q + 1;
        }
        proof {
            assert(p0.take(p0.len() as int) =~= p0);
        }
        Ok(removed)
    }
}

/// `a` comes before `b` as strings compare: character by character, a
/// proper prefix first.
pub open spec fn text_lt(a: Seq<char>, b: Seq<char>) -> bool {
    name_le(a, b) && a != b
}

/// The path entries first seen before `cutoff`, in order.
pub open spec fn stale_entries(p: Seq<(Seq<char>, RecordView)>, cutoff: Seq<char>) -> Seq<(Seq<char>, RecordView)>
    decreases p.len(),
{
    if p.len() == 0 {
        seq![]
    } else {
        let k = stale_entries(p.drop_last(), cutoff);
        if text_lt(p.last().1.first_seen, cutoff) {
            k.push(p.last())
        } else {
            k
        }
    }
}

/// The path entries first seen at or after `cutoff`, in order.
pub open spec fn fresh_entries(p: Seq<(Seq<char>, RecordView)>, cutoff: Seq<char>) -> Seq<(Seq<char>, RecordView)>
    decreases p.len(),
{
    if p.len() == 0 {
        seq![]
    } else {
        let k = fresh_entries(p.drop_last(), cutoff);
        if text_lt(p.last().1.first_seen, cutoff) {
            k
        } else {
            k.push(p.last())
        }
    }
}

/// The records of `rs` with another path than `x`, in order.
pub open spec fn without_path(rs: Seq<RecordView>, x: Seq<char>) -> Seq<RecordView>
    decreases rs.len(),
{
    if rs.len() == 0 {
        seq![]
    } else {
        let k = without_path(rs.drop_last(), x);
        if rs.last().file_path == x {
            k
        } else {
            k.push(rs.last())
        }
    }
}

/// The groups once the path entry `e` is dropped: the records of its path
/// leave the group of its SHA1 value, which goes when it empties.
pub open spec fn drop_path(g: Seq<(Seq<char>, Seq<RecordView>)>, e: (Seq<char>, RecordView)) -> Seq<(Seq<char>, Seq<RecordView>)> {
    match hash_value(e.1.hashes, HashType::Sha1) {
        None => g,
        Some(h) => {
            let i = key_index(g, h, 0);
            if i < 0 {
                g
            } else {
                let k = without_path(g[i].1, e.0);
                if k.len() == 0 {
                    g.remove(i)
                } else {
                    g.update(i, (h, k))
                }
            }
        },
    }
}

/// The groups once every entry of `s` is dropped, first to last.
pub open spec fn drop_paths(g: Seq<(Seq<char>, Seq<RecordView>)>, s: Seq<(Seq<char>, RecordView)>) -> Seq<(Seq<char>, Seq<RecordView>)>
    decreases s.len(),
{
    if s.len() == 0 {
        g
    } else {
        drop_path(drop_paths(g, s.drop_last()), s.last())
    }
}

fn records_without_path(rs: &Vec<FileHashRecord>, x: &String) -> (r: Vec<FileHashRecord>)
    ensures
        records_view(r@) == without_path(records_view(rs@), x@),
{
    let ghost rv = records_view(rs@);
    let mut r: Vec<FileHashRecord> = Vec::new();
    let mut i: usize = 0;
    while i < rs.len()
        invariant
            i <= rs@.len(),
            rv == records_view(rs@),
            records_view(r@) == without_path(rv.take(i as int), x@),
        decreases rs@.len() - i,
    {
        proof {
            assert(rv.take(i + 1).drop_last() =~= rv.take(i as int));
            assert(rv[i as int] == rs@[i as int]@);
        }
        if rs[i].file_path != *x {
            let ghost r0 = r@;
            r.push(rs[i].clone());
            proof {
                lemma_map_push(r0, r@.last(), |q: FileHashRecord| q@);
            }
        }
        i = i + 1;
    }
    proof {
        assert(rv.take(rv.len() as int) =~= rv);
    }
    r
}

impl DeduplicationDatabase {
    /// Drops the path entry `e` from the groups.
    fn drop_path_exec(&mut self, e: &(String, FileHashRecord))
        ensures
            final(self).groups() == drop_path(old(self).groups(), path_view(*e)),
            final(self).path_to_record == old(self).path_to_record,
            final(self).version == old(self).version,
            final(self).created_at == old(self).created_at,
            final(self).updated_at == old(self).updated_at,
    {
        let ghost g0 = self.groups();
        match find_hash(&e.1.hashes, HashType::Sha1) {
            None => {},
            Some(h) => {
                let key = h.clone();
                match self.find_group(&key) {
                    None => {},
                    Some(i) => {
                        proof {
                            lemma_key_index(g0, key@, 0);
                            assert(g0[i as int] == group_view(self.hash_to_records@[i as int]));
                        }
                        let kept = records_without_path(&self.hash_to_records[i].1, &e.0);
                        let ghost before = self.hash_to_records@;
                        if kept.len() == 0 {
                            self.hash_to_records.remove(i);
                            proof {
                                lemma_map_remove(before, i as int, |x: (String, Vec<FileHashRecord>)| group_view(x));
                            }
                        } else {
                            let ghost kv = records_view(kept@);
                            self.hash_to_records.remove(i);
                            self.hash_to_records.insert(i, (key, kept));
                            proof {
                                let ne = (key, kept);
                                assert(self.hash_to_records@ =~= before.update(i as int, ne));
                                lemma_map_update(before, i as int, ne, |x: (String, Vec<FileHashRecord>)| group_view(x));
                            }
                        }
                    },
                }
            },
        }
    }

    /// Drops the records first seen before `cutoff` (compared as strings):
    /// their path entries, and each one's records from the group of its
    /// SHA1 value, which goes when it empties.  Gives how many paths went.
    pub fn remove_stale_records(&mut self, cutoff: &str) -> (r: usize)
        ensures
            final(self).paths() == fresh_entries(old(self).paths(), cutoff@),
            final(self).groups() == drop_paths(old(self).groups(), stale_entries(old(self).paths(), cutoff@)),
            r == stale_entries(old(self).paths(), cutoff@).len(),
            final(self).version == old(self).version,
            final(self).created_at == old(self).created_at,
            final(self).updated_at == old(self).updated_at,
    {
        let ghost p0 = self.paths();
        let ghost g0 = self.groups();
        let c = cutoff.to_owned();
        let mut paths: Vec<(String, FileHashRecord)> = Vec::new();
        std::mem::swap(&mut paths, &mut self.path_to_record);
        let mut stale: Vec<(String, FileHashRecord)> = Vec::new();
        let mut i: usize = 0;
        while i < paths.len()
            invariant
                i <= paths@.len(),
                p0 == paths_of(paths@),
                p0.len() == paths@.len(),
                c@ == cutoff@,
                paths_of(self.path_to_record@) == fresh_entries(p0.take(i as int), cutoff@),
                paths_of(stale@) == stale_entries(p0.take(i as int), cutoff@),
                stale@.len() <= i,
                g0 == self.groups(),
                self.version == old(self).version,
                self.created_at == old(self).created_at,
                self.updated_at == old(self).updated_at,
            decreases paths@.len() - i,
        {
            proof {
                assert(p0.take(i + 1).drop_last() =~= p0.take(i as int));
                assert(p0[i as int] == path_view(paths@[i as int]));
            }
            let seen = &paths[i].1.first_seen;
            let before_cutoff = name_le_exec(seen.as_str(), c.as_str()) && *seen != c;
            let e = (paths[i].0.clone(), paths[i].1.clone());
            if before_cutoff {
                let ghost s0 = stale@;
                stale.push(e);
                proof {
                    lemma_map_push(s0, e, |x: (String, FileHashRecord)| path_view(x));
                }
            } else {
                let ghost q0 = self.path_to_record@;
                self.path_to_record.push(e);
                proof {
                    lemma_map_push(q0, e, |x: (String, FileHashRecord)| path_view(x));
                }
            }
            i = i + 1;
        }
        proof {
            assert(p0.take(p0.len() as int) =~= p0);
        }
        let ghost sv = paths_of(stale@);
        let ghost pf = self.paths();
        let mut k: usize = 0;
        while k < stale.len()
            invariant
                k <= stale@.len(),
                sv == paths_of(stale@),
                sv.len() == stale@.len(),
                self.paths() == pf,
                self.groups() == drop_paths(g0, sv.take(k as int)),
                self.version == old(self).version,
                self.created_at == old(self).created_at,
                self.updated_at == old(self).updated_at,
            decreases stale@.len() - k,
        {
            proof {
                assert(sv.take(k + 1).drop_last() =~= sv.take(k as int));
                assert(sv[k as int] == path_view(stale@[k as int]));
            }
            self.drop_path_exec(&stale[k]);
            k = k + 1;
        }
        proof {
            assert(sv.take(sv.len() as int) =~= sv);
        }
        stale.len()
    }
}

/// The current UTC time as `%Y-%m-%dT%H:%M:%SZ`
/// (`chrono::Utc::now().format(..)`).  It reads the clock, so nothing is
/// stated of it.
#[verifier::external_body]
fn utc_now_seconds_text() -> String {
    chrono::Utc::now().format("%Y-%m-%dT%H:%M:%SZ").to_string()
}

/// The UTC time `max_age_days` days ago as `%Y-%m-%dT%H:%M:%SZ`
/// (`chrono::Utc::now() - chrono::Duration::days(..)`, then `format`).  It
/// reads the clock, so nothing is stated of it; the subtraction panics
/// when the date leaves chrono's range (before year -262143), which the
/// bound keeps it from for any clock after 1970.
#[verifier::external_body]
fn utc_days_ago_text(max_age_days: u32) -> String
    requires
        max_age_days <= 96_000_000,
{
    let cutoff = chrono::Utc::now() - chrono::Duration::days(max_age_days as i64);
    cutoff.format("%Y-%m-%dT%H:%M:%SZ").to_string()
}

impl Default for DeduplicationDatabase {
    /// An empty database of version 1, created and updated now.
    fn default() -> (d: Self)
        ensures
            d.groups().len() == 0,
            d.paths().len() == 0,
            d.well_formed(),
            d.version == 1,
            d.created_at@ == d.updated_at@,
    {
        let now = utc_now_seconds_text();
        let d = DeduplicationDatabase {
            hash_to_records: Vec::new(),
            path_to_record: Vec::new(),
            version: 1,
            created_at: now.clone(),
            updated_at: now,
        };
        assert(d.groups() =~= Seq::<(Seq<char>, Seq<RecordView>)>::empty());
        assert(d.paths() =~= Seq::<(Seq<char>, RecordView)>::empty());
        d
    }
}

impl DeduplicationDatabase {
    /// Drops the records first seen more than `max_age_days` days before
    /// `now` (seconds from the Unix epoch): those whose `first_seen` text
    /// sorts before `now - max_age_days * 86400` written as
    /// `%Y-%m-%dT%H:%M:%SZ`; see `remove_stale_records`.
    pub fn cleanup_stale_records_at(&mut self, max_age_days: u32, now: i64) -> (r: Result<usize, RustLtfsError>)
        requires
            -LTFS_TIME_SPAN <= now - 86400 * max_age_days <= LTFS_TIME_SPAN,
        ensures
            final(self).paths() == fresh_entries(old(self).paths(), utc_seconds_text((now - 86400 * max_age_days) as i64)),
            forall|k: int| 0 <= k < old(self).paths().len() ==> (final(self).paths().contains(
                #[trigger] old(self).paths()[k],
            ) <==> !text_lt(old(self).paths()[k].1.first_seen, utc_seconds_text((now - 86400 * max_age_days) as i64))),
            final(self).groups() == drop_paths(
                old(self).groups(),
                stale_entries(old(self).paths(), utc_seconds_text((now - 86400 * max_age_days) as i64)),
            ),
            r == Ok::<usize, RustLtfsError>(
                stale_entries(old(self).paths(), utc_seconds_text((now - 86400 * max_age_days) as i64)).len() as usize,
            ),
            final(self).version == old(self).version,
            final(self).created_at == old(self).created_at,
            final(self).updated_at == old(self).updated_at,
    {
        let cutoff_secs: i64 = now - 86400 * (max_age_days as i64);
        let cutoff = utc_seconds_text_of(cutoff_secs);
        let ghost p0 = self.paths();
        let n = self.remove_stale_records(cutoff.as_str());
        proof {
            assert forall|k: int| 0 <= k < p0.len() implies (self.paths().contains(#[trigger] p0[k]) <==> !text_lt(
                p0[k].1.first_seen,
                utc_seconds_text((now - 86400 * max_age_days) as i64),
            )) by {
                law_cleanup_cutoff_is_max_age_days_before_now(p0, max_age_days, now, k);
            }
        }
        Ok(n)
    }

    /// Drops the records first seen more than `max_age_days` days ago: the
    /// cleanup of `cleanup_stale_records_at` at the clock's time (when the
    /// cutoff falls outside the dates written here, the cutoff is made by
    /// chrono directly).
    pub fn cleanup_stale_records(&mut self, max_age_days: u32) -> (r: Result<usize, RustLtfsError>)
        requires
            max_age_days <= 96_000_000,
        ensures
            exists|cutoff: Seq<char>|
                {
                    &&& final(self).paths() == fresh_entries(old(self).paths(), cutoff)
                    &&& final(self).groups() == drop_paths(old(self).groups(), stale_entries(old(self).paths(), cutoff))
                    &&& r == Ok::<usize, RustLtfsError>(stale_entries(old(self).paths(), cutoff).len() as usize)
                },
    {
        let now = crate::format::unix_timestamp();
        let span: i128 = LTFS_TIME_SPAN as i128;
        let cutoff_secs: i128 = now as i128 - 86400 * (max_age_days as i128);
        if -span <= cutoff_secs && cutoff_secs <= span {
            return self.cleanup_stale_records_at(max_age_days, now);
        }
        let cutoff = utc_days_ago_text(max_age_days);
        let n = self.remove_stale_records(cutoff.as_str());
        Ok(n)
    }
}

/// The cleanup at time `now` keeps exactly the path records first seen no
/// earlier than `max_age_days` whole days before `now`: a record stays if
/// and only if its `first_seen` text does not sort before the text of the
/// instant `now - max_age_days * 86400`.
pub proof fn law_cleanup_cutoff_is_max_age_days_before_now(
    p: Seq<(Seq<char>, RecordView)>,
    max_age_days: u32,
    now: i64,
    k: int,
)
    requires
        0 <= k < p.len(),
    ensures
        fresh_entries(p, utc_seconds_text((now - 86400 * max_age_days) as i64)).contains(p[k]) <==> !text_lt(
            p[k].1.first_seen,
            utc_seconds_text((now - 86400 * max_age_days) as i64),
        ),
{
    let c = utc_seconds_text((now - 86400 * max_age_days) as i64);
    lemma_fresh_stale_members(p, c, k);
    lemma_fresh_are_fresh(p, c);
}

proof fn lemma_fresh_are_fresh(p: Seq<(Seq<char>, RecordView)>, c: Seq<char>)
    ensures
        forall|j: int| 0 <= j < fresh_entries(p, c).len() ==> !text_lt(#[trigger] fresh_entries(p, c)[j].1.first_seen, c),
    decreases p.len(),
{
    if p.len() > 0 {
        let d = p.drop_last();
        lemma_fresh_are_fresh(d, c);
        assert forall|j: int| 0 <= j < fresh_entries(p, c).len() implies !text_lt(
            #[trigger] fresh_entries(p, c)[j].1.first_seen,
            c,
        ) by {
            if j < fresh_entries(d, c).len() {
                assert(fresh_entries(p, c)[j] == fresh_entries(d, c)[j]);
            }
        }
    }
}

proof fn lemma_fresh_stale_members(p: Seq<(Seq<char>, RecordView)>, c: Seq<char>, k: int)
    requires
        0 <= k < p.len(),
    ensures
        !text_lt(p[k].1.first_seen, c) ==> fresh_entries(p, c).contains(p[k]),
        text_lt(p[k].1.first_seen, c) ==> stale_entries(p, c).contains(p[k]),
    decreases p.len(),
{
    let d = p.drop_last();
    if k == p.len() - 1 {
        if text_lt(p[k].1.first_seen, c) {
            assert(stale_entries(p, c) == stale_entries(d, c).push(p[k]));
            assert(stale_entries(p, c)[stale_entries(d, c).len() as int] == p[k]);
        } else {
            assert(fresh_entries(p, c) == fresh_entries(d, c).push(p[k]));
            assert(fresh_entries(p, c)[fresh_entries(d, c).len() as int] == p[k]);
        }
    } else {
        assert(d[k] == p[k]);
        lemma_fresh_stale_members(d, c, k);
        if text_lt(p[k].1.first_seen, c) {
            let j = choose|j: int| 0 <= j < stale_entries(d, c).len() && stale_entries(d, c)[j] == p[k];
            if text_lt(p.last().1.first_seen, c) {
                assert(stale_entries(p, c)[j] == p[k]);
            } else {
                assert(stale_entries(p, c) == stale_entries(d, c));
            }
        } else {
            let j = choose|j: int| 0 <= j < fresh_entries(d, c).len() && fresh_entries(d, c)[j] == p[k];
            if text_lt(p.last().1.first_seen, c) {
                assert(fresh_entries(p, c) == fresh_entries(d, c));
            } else {
                assert(fresh_entries(p, c)[j] == p[k]);
            }
        }
    }
}

/// Database figures.
pub struct DatabaseInfo {
    pub version: u32,
    pub created_at: String,
    pub updated_at: String,
    /// SHA1 values.
    pub total_hash_entries: usize,
    /// Paths.
    pub total_path_entries: usize,
    /// Records over all SHA1 groups.
    pub total_file_records: usize,
    /// For each algorithm that some path record carries, how many do,
    /// in the order of preference.
    pub algorithm_counts: Vec<(HashType, usize)>,
    /// For each group size, how many groups have it, in the order the sizes
    /// first occur.
    pub group_sizes: Vec<(usize, usize)>,
}

/// Path records that carry algorithm `t`.
pub open spec fn algorithm_count(p: Seq<(Seq<char>, RecordView)>, t: HashType) -> nat
    decreases p.len(),
{
    if p.len() == 0 {
        0
    } else {
        algorithm_count(p.drop_last(), t) + if hash_value(p.last().1.hashes, t) is Some { 1nat } else { 0nat }
    }
}

/// Groups of `n` records.
pub open spec fn size_count(g: Seq<(Seq<char>, Seq<RecordView>)>, n: nat) -> nat
    decreases g.len(),
{
    if g.len() == 0 {
        0
    } else {
        size_count(g.drop_last(), n) + if g.last().1.len() == n { 1nat } else { 0nat }
    }
}

/// Every group's size is among the keys of `v`.
pub open spec fn sizes_cover(g: Seq<(Seq<char>, Seq<RecordView>)>, v: Seq<(usize, usize)>) -> bool {
    forall|k: int| 0 <= k < g.len() ==> exists|i: int| 0 <= i < v.len() && v[i].0 == (#[trigger] g[k]).1.len()
}

/// The algorithm counts, in the order of preference, of those carried.
pub open spec fn algorithm_counts(p: Seq<(Seq<char>, RecordView)>) -> Seq<(HashType, nat)> {
    seq![HashType::Sha1, HashType::Sha256, HashType::Blake3, HashType::XxHash3, HashType::XxHash128]
        .map_values(|t: HashType| (t, algorithm_count(p, t)))
        .filter(|e: (HashType, nat)| e.1 > 0)
}

proof fn lemma_algorithm_count_le(p: Seq<(Seq<char>, RecordView)>, t: HashType, i: int)
    requires
        0 <= i <= p.len(),
    ensures
        algorithm_count(p.take(i), t) <= i,
        algorithm_count(p, t) <= p.len(),
    decreases p.len(),
{
    if p.len() > 0 {
        if i == p.len() {
            assert(p.take(i) =~= p);
            lemma_algorithm_count_le(p.drop_last(), t, i - 1);
        } else {
            assert(p.drop_last().take(i) =~= p.take(i));
            lemma_algorithm_count_le(p.drop_last(), t, i);
        }
    }
}

proof fn lemma_size_count_prefix(g: Seq<(Seq<char>, Seq<RecordView>)>, n: nat, i: int)
    requires
        0 <= i <= g.len(),
    ensures
        size_count(g.take(i), n) <= i,
    decreases g.len(),
{
    if g.len() > 0 {
        if i == g.len() {
            assert(g.take(i) =~= g);
            lemma_size_count_prefix(g.drop_last(), n, i - 1);
            assert(g.drop_last().take(i - 1) =~= g.drop_last());
        } else {
            assert(g.drop_last().take(i) =~= g.take(i));
            lemma_size_count_prefix(g.drop_last(), n, i);
        }
    }
}

impl DeduplicationDatabase {
    fn count_algorithm(&self, t: HashType) -> (n: usize)
        ensures
            n == algorithm_count(self.paths(), t),
    {
        let ghost p = self.paths();
        let mut n: usize = 0;
        let mut i: usize = 0;
        while i < self.path_to_record.len()
            invariant
                i <= self.path_to_record@.len(),
                p == self.paths(),
                p.len() == self.path_to_record@.len(),
                n == algorithm_count(p.take(i as int), t),
            decreases self.path_to_record@.len() - i,
        {
            proof {
                assert(p.take(i + 1).drop_last() =~= p.take(i as int));
                assert(p[i as int] == path_view(self.path_to_record@[i as int]));
                lemma_algorithm_count_le(p, t, i as int);
            }
            if find_hash(&self.path_to_record[i].1.hashes, t).is_some() {
                n = n + 1;
            }
            i = i + 1;
        }
        proof {
            assert(p.take(p.len() as int) =~= p);
        }
        n
    }

    /// The figures of the database.
    pub fn get_database_info(&self) -> (r: DatabaseInfo)
        requires
            total_records(self.groups()) <= usize::MAX,
        ensures
            r.version == self.version,
            r.created_at@ == self.created_at@,
            r.updated_at@ == self.updated_at@,
            r.total_hash_entries == self.groups().len(),
            r.total_path_entries == self.paths().len(),
            r.total_file_records == total_records(self.groups()),
            r.algorithm_counts@.map_values(|e: (HashType, usize)| (e.0, e.1 as nat)) == algorithm_counts(self.paths()),
            forall|i: int, j: int| 0 <= i < j < r.group_sizes@.len() ==> #[trigger] r.group_sizes@[i].0 != #[trigger] r.group_sizes@[j].0,
            forall|i: int| 0 <= i < r.group_sizes@.len() ==> #[trigger] r.group_sizes@[i].1 == size_count(self.groups(), r.group_sizes@[i].0 as nat)
                && r.group_sizes@[i].1 > 0,
            sizes_cover(self.groups(), r.group_sizes@),
    {
        let ghost g = self.groups();
        let mut total: usize = 0;
        let mut sizes: Vec<(usize, usize)> = Vec::new();
        let mut i: usize = 0;
        while i < self.hash_to_records.len()
            invariant
                i <= self.hash_to_records@.len(),
                g == self.groups(),
                g.len() == self.hash_to_records@.len(),
                total_records(g) <= usize::MAX,
                total == total_records(g.take(i as int)),
                forall|a: int, b: int| 0 <= a < b < sizes@.len() ==> #[trigger] sizes@[a].0 != #[trigger] sizes@[b].0,
                forall|a: int| 0 <= a < sizes@.len() ==> #[trigger] sizes@[a].1 == size_count(g.take(i as int), sizes@[a].0 as nat)
                    && sizes@[a].1 > 0,
                forall|k: int| 0 <= k < i ==> exists|a: int| 0 <= a < sizes@.len() && sizes@[a].0 == (#[trigger] g[k]).1.len(),
                forall|n: nat| size_count(g.take(i as int), n) > 0 ==> exists|a: int| 0 <= a < sizes@.len() && #[trigger] sizes@[a].0 == n,
            decreases self.hash_to_records@.len() - i,
        {
            let ghost gi = g.take(i as int);
            let ghost gj = g.take(i + 1);
            proof {
                assert(gj.drop_last() =~= gi);
                assert(g[i as int] == group_view(self.hash_to_records@[i as int]));
                lemma_total_prefix(g, i + 1);
            }
            let n = self.hash_to_records[i].1.len();
            proof {
                assert(gj.last().1.len() == n);
            }
            total = total + n;
            let mut found: Option<usize> = None;
            let mut a: usize = 0;
            while a < sizes.len()
                invariant
                    a <= sizes@.len(),
                    found is None ==> forall|b: int| 0 <= b < a ==> sizes@[b].0 != n,
                    found matches Some(x) ==> x < sizes@.len() && sizes@[x as int].0 == n,
                decreases sizes@.len() - a,
            {
                if found.is_none() && sizes[a].0 == n {
                    found = Some(a);
                }
                a = a + 1;
            }
            let ghost s0 = sizes@;
            match found {
                Some(x) => {
                    let c = sizes[x].1;
                    proof {
                        lemma_size_count_prefix(g, n as nat, i as int);
                        assert(c == size_count(gi, n as nat));
                    }
                    sizes.set(x, (n, c + 1));
                    proof {
                        assert forall|b: int| 0 <= b < sizes@.len() implies #[trigger] sizes@[b].1 == size_count(gj, sizes@[b].0 as nat)
                            && sizes@[b].1 > 0 by {
                            assert(size_count(gj, sizes@[b].0 as nat) == size_count(gi, sizes@[b].0 as nat)
                                + if gj.last().1.len() == sizes@[b].0 { 1nat } else { 0nat });
                        }
                        assert forall|k: int| 0 <= k < i + 1 implies exists|b: int| 0 <= b < sizes@.len() && sizes@[b].0 == (#[trigger] g[k]).1.len() by {
                            if k == i {
                                assert(sizes@[x as int].0 == g[k].1.len());
                            } else {
                                let b = choose|b: int| 0 <= b < s0.len() && s0[b].0 == g[k].1.len();
                                assert(sizes@[b].0 == s0[b].0);
                            }
                        }
                        assert forall|m: nat| size_count(gj, m) > 0 implies exists|b: int| 0 <= b < sizes@.len() && #[trigger] sizes@[b].0 == m by {
                            if m == n {
                                assert(sizes@[x as int].0 == m);
                            } else {
                                assert(size_count(gi, m) > 0);
                                let b = choose|b: int| 0 <= b < s0.len() && #[trigger] s0[b].0 == m;
                                assert(sizes@[b].0 == s0[b].0);
                            }
                        }
                    }
                },
                None => {
                    sizes.push((n, 1));
                    proof {
                        assert forall|m: nat| size_count(gi, m) > 0 implies m != n by {
                            if size_count(gi, m) > 0 && m == n {
                                let b = choose|b: int| 0 <= b < s0.len() && #[trigger] s0[b].0 == m;
                            }
                        }
                        assert forall|b: int| 0 <= b < sizes@.len() implies #[trigger] sizes@[b].1 == size_count(gj, sizes@[b].0 as nat)
                            && sizes@[b].1 > 0 by {
                            assert(size_count(gj, sizes@[b].0 as nat) == size_count(gi, sizes@[b].0 as nat)
                                + if gj.last().1.len() == sizes@[b].0 { 1nat } else { 0nat });
                            if b < s0.len() {
                                assert(sizes@[b] == s0[b]);
                            } else {
                                assert(size_count(gi, n as nat) == 0);
                            }
                        }
                        assert forall|k: int| 0 <= k < i + 1 implies exists|b: int| 0 <= b < sizes@.len() && sizes@[b].0 == (#[trigger] g[k]).1.len() by {
                            if k == i {
                                assert(sizes@[s0.len() as int].0 == g[k].1.len());
                            } else {
                                let b = choose|b: int| 0 <= b < s0.len() && s0[b].0 == g[k].1.len();
                                assert(sizes@[b].0 == s0[b].0);
                            }
                        }
                        assert forall|m: nat| size_count(gj, m) > 0 implies exists|b: int| 0 <= b < sizes@.len() && #[trigger] sizes@[b].0 == m by {
                            if m == n {
                                assert(sizes@[s0.len() as int].0 == m);
                            } else {
                                assert(size_count(gi, m) > 0);
                                let b = choose|b: int| 0 <= b < s0.len() && #[trigger] s0[b].0 == m;
                                assert(sizes@[b].0 == s0[b].0);
                            }
                        }
                    }
                },
            }
            i = i + 1;
        }
        proof {
            assert(g.take(g.len() as int) =~= g);
        }
        let order = HashType::recommended_order();
        let mut counts: Vec<(HashType, usize)> = Vec::new();
        let ghost spec_all = seq![HashType::Sha1, HashType::Sha256, HashType::Blake3, HashType::XxHash3, HashType::XxHash128]
            .map_values(|t: HashType| (t, algorithm_count(self.paths(), t)));
        let mut q: usize = 0;
        while q < order.len()
            invariant
                q <= order@.len(),
                order@ == seq![HashType::Sha1, HashType::Sha256, HashType::Blake3, HashType::XxHash3, HashType::XxHash128],
                spec_all.len() == 5,
                spec_all == order@.map_values(|t: HashType| (t, algorithm_count(self.paths(), t))),
                counts@.map_values(|e: (HashType, usize)| (e.0, e.1 as nat)) == spec_all.take(q as int).filter(|e: (HashType, nat)| e.1 > 0),
                g == self.groups(),
                forall|k: int| 0 <= k < g.len() ==> exists|a: int| 0 <= a < sizes@.len() && sizes@[a].0 == (#[trigger] g[k]).1.len(),
            decreases order@.len() - q,
        {
            let t = order[q];
            let n = self.count_algorithm(t);
            proof {
                assert(spec_all.take(q + 1) =~= spec_all.take(q as int).push(spec_all[q as int]));
                reveal(Seq::filter);
                assert(spec_all.take(q + 1).drop_last() =~= spec_all.take(q as int));
                assert(spec_all[q as int] == (t, algorithm_count(self.paths(), t)));
            }
            if n > 0 {
                let ghost c0 = counts@;
                counts.push((t, n));
                proof {
                    lemma_map_push(c0, (t, n), |e: (HashType, usize)| (e.0, e.1 as nat));
                }
            }
            q = q + 1;
        }
        proof {
            assert(spec_all.take(5) =~= spec_all);
            assert(sizes_cover(g, sizes@));
        }
        DatabaseInfo {
            version: self.version,
            created_at: self.created_at.clone(),
            updated_at: self.updated_at.clone(),
            total_hash_entries: self.hash_to_records.len(),
            total_path_entries: self.path_to_record.len(),
            total_file_records: total,
            algorithm_counts: counts,
            group_sizes: sizes,
        }
    }
}

/// Deduplication against the database: the database, where it is kept,
/// whether deduplication is on, and the algorithm that identifies files.
pub struct DeduplicationManager {
    pub database: DeduplicationDatabase,
    pub database_path: String,
    pub enabled: bool,
    pub primary_hash_type: HashType,
}

/// The value stored under `key` in a list of (key, value) pairs: the first.
pub open spec fn pair_value(s: Seq<(String, String)>, key: Seq<char>) -> Option<Seq<char>>
    decreases s.len(),
{
    if s.len() == 0 {
        None
    } else if s[0].0@ == key {
        Some(s[0].1@)
    } else {
        pair_value(s.drop_first(), key)
    }
}

/// The hashes of `file_hashes` whose key names an algorithm, typed, in
/// order; a later value of an algorithm replaces an earlier one.
pub open spec fn typed_hashes(file_hashes: Seq<(String, String)>) -> Seq<(HashType, Seq<char>)>
    decreases file_hashes.len(),
{
    if file_hashes.len() == 0 {
        seq![]
    } else {
        let rest = typed_hashes(file_hashes.drop_last());
        match hash_type_of_key(file_hashes.last().0@) {
            Some(t) => put_hash(rest, t, file_hashes.last().1@),
            None => rest,
        }
    }
}

proof fn lemma_typed_hashes_distinct(file_hashes: Seq<(String, String)>)
    ensures
        hash_types_distinct(typed_hashes(file_hashes)),
    decreases file_hashes.len(),
{
    if file_hashes.len() > 0 {
        lemma_typed_hashes_distinct(file_hashes.drop_last());
        let rest = typed_hashes(file_hashes.drop_last());
        if let Some(t) = hash_type_of_key(file_hashes.last().0@) {
            lemma_put_hash_distinct(rest, t, file_hashes.last().1@);
        }
    }
}

/// Puts the hash `v` of algorithm `t` into `typed`, as `put_hash` says.
fn put_typed(typed: &mut Vec<(HashType, String)>, t: HashType, v: String)
    ensures
        hashes_view(final(typed)@) == put_hash(hashes_view(old(typed)@), t, v@),
{
    let ghost hv = hashes_view(typed@);
    let pos = type_position(typed, t);
    match pos {
        Some(j) => {
            let ghost before = typed@;
            typed.set(j, (t, v));
            proof {
                lemma_map_update(before, j as int, (t, v), |p: (HashType, String)| (p.0, p.1@));
                assert(hashes_view(typed@) =~= hv.update(j as int, (t, v@)));
            }
        },
        None => {
            let ghost before = typed@;
            typed.push((t, v));
            proof {
                lemma_map_push(before, (t, v), |p: (HashType, String)| (p.0, p.1@));
            }
        },
    }
}

/// Where `type_index` finds algorithm `t` in `typed`.
fn type_position(typed: &Vec<(HashType, String)>, t: HashType) -> (r: Option<usize>)
    ensures
        match r {
            Some(j) => j < typed@.len() && j as int == type_index(hashes_view(typed@), t),
            None => type_index(hashes_view(typed@), t) == -1,
        },
{
    let ghost hv = hashes_view(typed@);
    let mut j: usize = typed.len();
    assert(hv.take(j as int) =~= hv);
    while j > 0
        invariant
            j <= typed@.len(),
            hv == hashes_view(typed@),
            hv.len() == typed@.len(),
            type_index(hv, t) == type_index(hv.take(j as int), t),
        decreases j,
    {
        assert(hv.take(j as int).drop_last() =~= hv.take(j - 1));
        assert(hv.take(j as int).last() == hv[j - 1]);
        assert(hv[j - 1] == (typed@[j - 1].0, typed@[j - 1].1@));
        if typed[j - 1].0 == t {
            return Some(j - 1);
        }
        j = j - 1;
    }
    None
}

pub(crate) fn find_pair<'a>(s: &'a Vec<(String, String)>, key: &str) -> (r: Option<&'a String>)
    ensures
        match r {
            Some(v) => pair_value(s@, key@) == Some(v@),
            None => pair_value(s@, key@) is None,
        },
{
    let k = key.to_owned();
    let mut i: usize = 0;
    proof {
        assert(s@.skip(0) =~= s@);
    }
    while i < s.len()
        invariant
            i <= s@.len(),
            k@ == key@,
            pair_value(s@, key@) == pair_value(s@.skip(i as int), key@),
        decreases s@.len() - i,
    {
        proof {
            assert(s@.skip(i as int).drop_first() =~= s@.skip(i + 1));
        }
        if s[i].0 == k {
            return Some(&s[i].1);
        }
        i = i + 1;
    }
    proof {
        assert(s@.skip(i as int) =~= Seq::<(String, String)>::empty());
    }
    None
}

/// `after` is `before` with the record `rv` added.
pub open spec fn registered(before: DeduplicationDatabase, after: DeduplicationDatabase, rv: RecordView) -> bool {
    &&& after.groups() == add_to_groups(before.groups(), rv)
    &&& after.paths() == put_entry(before.paths(), rv.file_path, rv)
}

impl DeduplicationManager {
    /// A manager over a loaded database (an empty one when the file did not
    /// exist), identifying files by SHA1.
    pub fn new(database: DeduplicationDatabase, database_path: &str, enabled: bool) -> (m: Self)
        ensures
            m.database == database,
            m.database_path@ == database_path@,
            m.enabled == enabled,
            m.primary_hash_type == HashType::Sha1,
    {
        DeduplicationManager { database, database_path: database_path.to_owned(), enabled, primary_hash_type: HashType::Sha1 }
    }

    /// The records already held for a file with these hashes (by the
    /// primary algorithm's value), when deduplication is on.
    pub fn check_file_exists(&self, file_hashes: &Vec<(String, String)>) -> (r: Option<&Vec<FileHashRecord>>)
        ensures
            !self.enabled ==> r is None,
            self.enabled ==> match pair_value(file_hashes@, hash_key(self.primary_hash_type)) {
                None => r is None,
                Some(h) => match r {
                    Some(v) => key_index(self.database.groups(), h, 0) >= 0
                        && records_view(v@) == self.database.groups()[key_index(self.database.groups(), h, 0)].1,
                    None => key_index(self.database.groups(), h, 0) == -1,
                },
            },
    {
        if !self.enabled {
            return None;
        }
        let key = self.primary_hash_type.ltfs_key();
        match find_pair(file_hashes, key) {
            Some(h) => self.database.check_duplicate(h.as_str()),
            None => None,
        }
    }

    /// Registers a file, first seen at `first_seen`: its record (the hashes
    /// whose keys name an algorithm) is added to the database; nothing
    /// happens while deduplication is off.
    pub fn register_file_at(
        &mut self,
        file_path: &str,
        file_size: u64,
        file_hashes: &Vec<(String, String)>,
        tape_location: Option<TapeLocation>,
        last_modified: u64,
        first_seen: String,
    ) -> (r: Result<(), RustLtfsError>)
        requires
            old(self).database.well_formed(),
        ensures
            r is Ok,
            final(self).database.well_formed(),
            !old(self).enabled ==> *final(self) == *old(self),
            old(self).enabled ==> registered(
                old(self).database,
                final(self).database,
                RecordView {
                    file_path: file_path@,
                    file_size,
                    last_modified,
                    hashes: typed_hashes(file_hashes@),
                    first_seen: first_seen@,
                    tape_location,
                },
            ),
            final(self).enabled == old(self).enabled,
            final(self).database_path == old(self).database_path,
    {
        if !self.enabled {
            return Ok(());
        }
        let mut typed: Vec<(HashType, String)> = Vec::new();
        let mut i: usize = 0;
        while i < file_hashes.len()
            invariant
                i <= file_hashes@.len(),
                hashes_view(typed@) == typed_hashes(file_hashes@.take(i as int)),
            decreases file_hashes@.len() - i,
        {
            proof {
                assert(file_hashes@.take(i + 1).drop_last() =~= file_hashes@.take(i as int));
            }
            match HashType::from_ltfs_key(file_hashes[i].0.as_str()) {
                Some(t) => {
                    put_typed(&mut typed, t, file_hashes[i].1.clone());
                },
                None => {},
            }
            i = i + 1;
        }
        proof {
            assert(file_hashes@.take(file_hashes@.len() as int) =~= file_hashes@);
            lemma_typed_hashes_distinct(file_hashes@);
        }
        let record = FileHashRecord {
            file_path: file_path.to_owned(),
            file_size,
            last_modified,
            hashes: typed,
            first_seen,
            tape_location,
        };
        self.database.add_file_record(record);
        Ok(())
    }

    /// Registers a file first seen now (see `register_file_at`).
    pub fn register_file(
        &mut self,
        file_path: &str,
        file_size: u64,
        file_hashes: &Vec<(String, String)>,
        tape_location: Option<TapeLocation>,
        last_modified: u64,
    ) -> (r: Result<(), RustLtfsError>)
        requires
            old(self).database.well_formed(),
        ensures
            r is Ok,
            final(self).database.well_formed(),
            !old(self).enabled ==> *final(self) == *old(self),
            old(self).enabled ==> exists|seen: Seq<char>|
                #[trigger] registered(
                    old(self).database,
                    final(self).database,
                    RecordView {
                        file_path: file_path@,
                        file_size,
                        last_modified,
                        hashes: typed_hashes(file_hashes@),
                        first_seen: seen,
                        tape_location,
                    },
                ),
    {
        if !self.enabled {
            return Ok(());
        }
        let now = utc_now_seconds_text();
        self.register_file_at(file_path, file_size, file_hashes, tape_location, last_modified, now)
    }

    /// The duplicate counts of the database.
    pub fn get_stats(&self) -> (r: DuplicateStats)
        requires
            dup_record_count(self.database.groups()) <= usize::MAX,
            dup_space(self.database.groups()) <= u64::MAX,
        ensures
            r.total_files == self.database.paths().len(),
            r.duplicate_groups == dup_group_count(self.database.groups()),
            r.total_duplicates == dup_record_count(self.database.groups()),
            r.space_saved == dup_space(self.database.groups()),
            r.unique_files == self.database.groups().len(),
    {
        self.database.get_duplicate_stats()
    }

    /// Drops the records first seen more than `max_age_days` days ago.
    pub fn cleanup_stale_records(&mut self, max_age_days: u32) -> (r: Result<usize, RustLtfsError>)
        requires
            max_age_days <= 96_000_000,
        ensures
            exists|cutoff: Seq<char>|
                {
                    &&& final(self).database.paths() == fresh_entries(old(self).database.paths(), cutoff)
                    &&& final(self).database.groups() == drop_paths(
                        old(self).database.groups(),
                        stale_entries(old(self).database.paths(), cutoff),
                    )
                    &&& r == Ok::<usize, RustLtfsError>(stale_entries(old(self).database.paths(), cutoff).len() as usize)
                },
            final(self).enabled == old(self).enabled,
    {
        self.database.cleanup_stale_records(max_age_days)
    }

    /// Turns deduplication on or off.
    pub fn set_enabled(&mut self, enabled: bool)
        ensures
            final(self).enabled == enabled,
            final(self).database == old(self).database,
            final(self).database_path == old(self).database_path,
            final(self).primary_hash_type == old(self).primary_hash_type,
    {
        self.enabled = enabled;
    }

    /// Whether deduplication is on.
    pub fn is_enabled(&self) -> (b: bool)
        ensures
            b == self.enabled,
    {
        self.enabled
    }
}

/// A record that has a SHA1 value is, once added, the last record of the
/// group of that value.
pub proof fn law_added_record_is_found(g: Seq<(Seq<char>, Seq<RecordView>)>, r: RecordView)
    requires
        hash_value(r.hashes, HashType::Sha1) is Some,
    ensures
        ({
            let h = hash_value(r.hashes, HashType::Sha1)->Some_0;
            let g2 = add_to_groups(g, r);
            let i = key_index(g2, h, 0);
            0 <= i < g2.len() && g2[i].1.len() > 0 && g2[i].1.last() == r
        }),
{
    let h = hash_value(r.hashes, HashType::Sha1)->Some_0;
    let g2 = add_to_groups(g, r);
    lemma_key_index(g, h, 0);
    let i = key_index(g, h, 0);
    if i >= 0 {
        lemma_key_index(g2, h, 0);
        assert(g2[i].0 == h);
        if key_index(g2, h, 0) != i {
            assert(key_index(g2, h, 0) < i);
            assert(g2[key_index(g2, h, 0)] == g[key_index(g2, h, 0)]);
        }
    } else {
        lemma_key_index(g2, h, 0);
        assert(g2[g.len() as int].0 == h);
        if key_index(g2, h, 0) != g.len() {
            assert(g2[key_index(g2, h, 0)] == g[key_index(g2, h, 0)]);
        }
    }
}

/// Compaction leaves no empty group.
pub proof fn law_compaction_leaves_no_empty_group(g: Seq<(Seq<char>, Seq<RecordView>)>, p: Seq<(Seq<char>, RecordView)>)
    ensures
        forall|i: int| 0 <= i < compact_groups(g, p).len() ==> (#[trigger] compact_groups(g, p)[i]).1.len() > 0,
    decreases g.len(),
{
    if g.len() > 0 {
        law_compaction_leaves_no_empty_group(g.drop_last(), p);
        let rest = compact_groups(g.drop_last(), p);
        let k = kept_records(g.last().1, p);
        let c = compact_groups(g, p);
        assert forall|i: int| 0 <= i < c.len() implies (#[trigger] c[i]).1.len() > 0 by {
            if i < rest.len() {
                assert(c[i] == rest[i]);
            }
        }
    }
}

/// The path records left by a cleanup were all first seen at or after the
/// cutoff, and with those removed they make up the records before it.
pub proof fn law_cleanup_keeps_only_fresh(p: Seq<(Seq<char>, RecordView)>, cutoff: Seq<char>)
    ensures
        forall|i: int| 0 <= i < fresh_entries(p, cutoff).len() ==> !text_lt((#[trigger] fresh_entries(p, cutoff)[i]).1.first_seen, cutoff),
        forall|i: int| 0 <= i < stale_entries(p, cutoff).len() ==> text_lt((#[trigger] stale_entries(p, cutoff)[i]).1.first_seen, cutoff),
        fresh_entries(p, cutoff).len() + stale_entries(p, cutoff).len() == p.len(),
    decreases p.len(),
{
    if p.len() > 0 {
        law_cleanup_keeps_only_fresh(p.drop_last(), cutoff);
    }
}

/// There are no more duplicate groups than SHA1 values.
pub proof fn law_duplicate_groups_within_values(g: Seq<(Seq<char>, Seq<RecordView>)>)
    ensures
        dup_group_count(g) <= g.len(),
        dup_record_count(g) <= total_records(g),
    decreases g.len(),
{
    if g.len() > 0 {
        law_duplicate_groups_within_values(g.drop_last());
    }
}

/// The columns of the CSV form of the database.
pub open spec fn csv_columns() -> Seq<Seq<char>> {
    seq![
        "file_path"@, "file_size"@, "last_modified"@, "first_seen"@, "sha1"@, "sha256"@, "blake3"@,
        "xxhash3"@, "xxhash128"@, "tape_partition"@, "tape_start_block"@, "tape_file_uid"@,
    ]
}

/// The CSV header row.
pub fn csv_header() -> (v: Vec<String>)
    ensures
        v.deep_view() == csv_columns(),
{
    let mut v: Vec<String> = Vec::new();
    v.push("file_path".to_owned());
    v.push("file_size".to_owned());
    v.push("last_modified".to_owned());
    v.push("first_seen".to_owned());
    v.push("sha1".to_owned());
    v.push("sha256".to_owned());
    v.push("blake3".to_owned());
    v.push("xxhash3".to_owned());
    v.push("xxhash128".to_owned());
    v.push("tape_partition".to_owned());
    v.push("tape_start_block".to_owned());
    v.push("tape_file_uid".to_owned());
    assert(v.deep_view() =~= csv_columns());
    v
}

pub open spec fn value_or_empty(v: Option<Seq<char>>) -> Seq<char> {
    match v {
        Some(s) => s,
        None => seq![],
    }
}

/// The CSV row of a record: path, size, modification time, first seen,
/// the five hashes (empty where missing), and the tape location (empty
/// fields without one).
pub open spec fn csv_row_of(r: RecordView) -> Seq<Seq<char>> {
    seq![
        r.file_path,
        decimal(r.file_size as nat),
        decimal(r.last_modified as nat),
        r.first_seen,
        value_or_empty(hash_value(r.hashes, HashType::Sha1)),
        value_or_empty(hash_value(r.hashes, HashType::Sha256)),
        value_or_empty(hash_value(r.hashes, HashType::Blake3)),
        value_or_empty(hash_value(r.hashes, HashType::XxHash3)),
        value_or_empty(hash_value(r.hashes, HashType::XxHash128)),
        match r.tape_location { Some(l) => decimal(l.partition as nat), None => seq![] },
        match r.tape_location { Some(l) => decimal(l.start_block as nat), None => seq![] },
        match r.tape_location { Some(l) => decimal(l.file_uid as nat), None => seq![] },
    ]
}

fn hash_or_empty(h: &Vec<(HashType, String)>, t: HashType) -> (s: String)
    ensures
        s@ == value_or_empty(hash_value(hashes_view(h@), t)),
{
    match find_hash(h, t) {
        Some(v) => v.clone(),
        None => String::new(),
    }
}

fn decimal_string(n: u64) -> (s: String)
    ensures
        s@ == decimal(n as nat),
{
    let d = decimal_exec(n);
    chars_to_string(&d)
}

/// The CSV row of a record.
pub fn csv_row(record: &FileHashRecord) -> (v: Vec<String>)
    ensures
        v.deep_view() == csv_row_of(record@),
{
    let mut v: Vec<String> = Vec::new();
    v.push(record.file_path.clone());
    v.push(decimal_string(record.file_size));
    v.push(decimal_string(record.last_modified));
    v.push(record.first_seen.clone());
    v.push(hash_or_empty(&record.hashes, HashType::Sha1));
    v.push(hash_or_empty(&record.hashes, HashType::Sha256));
    v.push(hash_or_empty(&record.hashes, HashType::Blake3));
    v.push(hash_or_empty(&record.hashes, HashType::XxHash3));
    v.push(hash_or_empty(&record.hashes, HashType::XxHash128));
    match record.tape_location {
        Some(l) => {
            v.push(decimal_string(l.partition as u64));
            v.push(decimal_string(l.start_block));
            v.push(decimal_string(l.file_uid));
        },
        None => {
            v.push(String::new());
            v.push(String::new());
            v.push(String::new());
        },
    }
    assert(v.deep_view() =~= csv_row_of(record@));
    v
}

impl DeduplicationDatabase {
    /// The CSV rows of the path records, in order (the header not included).
    pub fn csv_rows(&self) -> (rows: Vec<Vec<String>>)
        ensures
            rows@.len() == self.paths().len(),
            forall|i: int| 0 <= i < rows@.len() ==> (#[trigger] rows@[i]).deep_view() == csv_row_of(self.paths()[i].1),
    {
        let mut rows: Vec<Vec<String>> = Vec::new();
        let mut i: usize = 0;
        while i < self.path_to_record.len()
            invariant
                i <= self.path_to_record@.len(),
                rows@.len() == i,
                forall|j: int| 0 <= j < i ==> (#[trigger] rows@[j]).deep_view() == csv_row_of(self.paths()[j].1),
            decreases self.path_to_record@.len() - i,
        {
            assert(self.paths()[i as int] == path_view(self.path_to_record@[i as int]));
            rows.push(csv_row(&self.path_to_record[i].1));
            i = i + 1;
        }
        rows
    }
}

/// A CSV number field: its value, 0 where it is not a number of the type.
pub open spec fn csv_number(s: Seq<char>, max: nat) -> nat {
    match parse_unsigned(s, max) {
        Some(v) => v,
        None => 0,
    }
}

/// The record a CSV row describes: rows of fewer than 13 fields give none;
/// numbers that do not parse count as 0; empty hash fields are left out;
/// the location needs its three fields.
pub open spec fn record_of_row(row: Seq<Seq<char>>) -> Option<RecordView> {
    if row.len() < 13 {
        None
    } else {
        let hs = seq![HashType::Sha1, HashType::Sha256, HashType::Blake3, HashType::XxHash3, HashType::XxHash128];
        Some(RecordView {
            file_path: row[0],
            file_size: csv_number(row[1], u64::MAX as nat) as u64,
            last_modified: csv_number(row[2], u64::MAX as nat) as u64,
            hashes: Seq::new(5, |i: int| (hs[i], row[4 + i])).filter(|p: (HashType, Seq<char>)| p.1.len() > 0),
            first_seen: row[3],
            tape_location: if row[9].len() > 0 && row[10].len() > 0 && row[11].len() > 0 {
                Some(TapeLocation {
                    partition: csv_number(row[9], u8::MAX as nat) as u8,
                    start_block: csv_number(row[10], u64::MAX as nat) as u64,
                    file_uid: csv_number(row[11], u64::MAX as nat) as u64,
                })
            } else {
                None
            },
        })
    }
}

fn csv_number_exec(s: &String, max: u64) -> (n: u64)
    ensures
        n as nat == csv_number(s@, max as nat),
{
    let cs = str_to_chars(s.as_str());
    match parse_unsigned_exec(&cs, max) {
        Some(v) => v,
        None => 0,
    }
}

/// The record a CSV row describes (see `record_of_row`).
pub fn record_from_csv_row(row: &Vec<String>) -> (r: Option<FileHashRecord>)
    ensures
        match r {
            Some(x) => record_of_row(row.deep_view()) == Some(x@),
            None => record_of_row(row.deep_view()) is None,
        },
{
    if row.len() < 13 {
        return None;
    }
    let types = HashType::recommended_order();
    let ghost hs = seq![HashType::Sha1, HashType::Sha256, HashType::Blake3, HashType::XxHash3, HashType::XxHash128];
    let ghost all = Seq::new(5, |i: int| (hs[i], row.deep_view()[4 + i]));
    let mut hashes: Vec<(HashType, String)> = Vec::new();
    let mut k: usize = 0;
    while k < 5
        invariant
            k <= 5,
            row@.len() >= 13,
            types@ == hs,
            hs.len() == 5,
            types@.len() == 5,
            all == Seq::new(5, |i: int| (hs[i], row.deep_view()[4 + i])),
            hashes_view(hashes@) == all.take(k as int).filter(|p: (HashType, Seq<char>)| p.1.len() > 0),
        decreases 5 - k,
    {
        proof {
            reveal(Seq::filter);
            assert(all.take(k + 1).drop_last() =~= all.take(k as int));
            assert(all[k as int] == (hs[k as int], row@[4 + k as int]@));
        }
        let f = &row[4 + k];
        if !f.as_str().is_empty() {
            let ghost h0 = hashes@;
            hashes.push((types[k], f.clone()));
            proof {
                lemma_map_push(h0, hashes@.last(), |p: (HashType, String)| (p.0, p.1@));
                assert(f@.len() > 0);
            }
        } else {
            proof {
                assert(f@.len() == 0);
            }
        }
        k = k + 1;
    }
    proof {
        assert(all.take(5) =~= all);
    }
    let loc = if !row[9].as_str().is_empty() && !row[10].as_str().is_empty() && !row[11].as_str().is_empty() {
        Some(TapeLocation {
            partition: csv_number_exec(&row[9], 255) as u8,
            start_block: csv_number_exec(&row[10], u64::MAX),
            file_uid: csv_number_exec(&row[11], u64::MAX),
        })
    } else {
        None
    };
    let r = FileHashRecord {
        file_path: row[0].clone(),
        file_size: csv_number_exec(&row[1], u64::MAX),
        last_modified: csv_number_exec(&row[2], u64::MAX),
        hashes,
        first_seen: row[3].clone(),
        tape_location: loc,
    };
    Some(r)
}

/// The groups of a database to which the records that `rows` describe
/// were added in order, starting empty.
pub open spec fn imported_groups(rows: Seq<Seq<Seq<char>>>) -> Seq<(Seq<char>, Seq<RecordView>)>
    decreases rows.len(),
{
    if rows.len() == 0 {
        Seq::empty()
    } else {
        let g = imported_groups(rows.drop_last());
        match record_of_row(rows.last()) {
            Some(r) => add_to_groups(g, r),
            None => g,
        }
    }
}

/// The path entries of a database to which the records that `rows`
/// describe were added in order, starting empty.
pub open spec fn imported_paths(rows: Seq<Seq<Seq<char>>>) -> Seq<(Seq<char>, RecordView)>
    decreases rows.len(),
{
    if rows.len() == 0 {
        Seq::empty()
    } else {
        let p = imported_paths(rows.drop_last());
        match record_of_row(rows.last()) {
            Some(r) => put_entry(p, r.file_path, r),
            None => p,
        }
    }
}

proof fn lemma_row_hashes_distinct(row: Seq<Seq<char>>)
    ensures
        record_of_row(row) matches Some(r) ==> hash_types_distinct(r.hashes),
{
    if row.len() >= 13 {
        let hs = seq![HashType::Sha1, HashType::Sha256, HashType::Blake3, HashType::XxHash3, HashType::XxHash128];
        let all = Seq::new(5, |i: int| (hs[i], row[4 + i]));
        assert forall|i: int, j: int| 0 <= i < j < all.len() implies #[trigger] all[i].0 != #[trigger] all[j].0 by {
            assert(all[i].0 == hs[i] && all[j].0 == hs[j]);
        }
        lemma_filter_types_distinct(all, |p: (HashType, Seq<char>)| p.1.len() > 0);
    }
}

/// A database made of the records that CSV rows describe, added in order
/// to an empty database; rows that describe none are skipped.
pub fn import_csv_rows(rows: &Vec<Vec<String>>) -> (r: Result<DeduplicationDatabase, RustLtfsError>)
    ensures
        r matches Ok(d) && d.well_formed() && d.groups() == imported_groups(rows.deep_view())
            && d.paths() == imported_paths(rows.deep_view()) && d.version == 1
            && d.created_at@ == d.updated_at@,
{
    let mut db = DeduplicationDatabase::default();
    let ghost all = rows.deep_view();
    let mut i: usize = 0;
    while i < rows.len()
        invariant
            i <= rows@.len(),
            all == rows.deep_view(),
            all.len() == rows@.len(),
            db.well_formed(),
            db.groups() == imported_groups(all.take(i as int)),
            db.paths() == imported_paths(all.take(i as int)),
            db.version == 1,
            db.created_at@ == db.updated_at@,
        decreases rows@.len() - i,
    {
        proof {
            assert(all.take(i + 1).drop_last() =~= all.take(i as int));
            assert(all.take(i + 1).last() == rows@[i as int].deep_view());
        }
        match record_from_csv_row(&rows[i]) {
            Some(rec) => {
                proof {
                    lemma_row_hashes_distinct(rows@[i as int].deep_view());
                }
                db.add_file_record(rec)
            },
            None => {},
        }
        i = i + 1;
    }
    proof {
        assert(all.take(rows@.len() as int) =~= all);
    }
    Ok(db)
}

} // verus!
