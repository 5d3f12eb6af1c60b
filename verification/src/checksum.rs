use vstd::prelude::*;
use crate::dedup::{pair_value, HashType};
use crate::hash::{hex_number, hex_u64, HashManager};
use crate::ops::{TapeOperations, WriteOptions};
use crate::text::zero_pad;
use sha2::Digest;
use std::hash::Hasher;

verus! {

/// The SHA-1 digest of `d`, as upper-case hexadecimal.
pub uninterp spec fn sha1_hex(d: Seq<u8>) -> Seq<char>;

/// The MD5 digest of `d`, as upper-case hexadecimal.
pub uninterp spec fn md5_hex(d: Seq<u8>) -> Seq<char>;

/// The SHA-256 digest of `d`, as upper-case hexadecimal.
pub uninterp spec fn sha256_hex(d: Seq<u8>) -> Seq<char>;

/// The BLAKE3 hash of `d`, as upper-case hexadecimal.
pub uninterp spec fn blake3_hex(d: Seq<u8>) -> Seq<char>;

/// The 64-bit XXH3 hash of `d`, as upper-case hexadecimal without
/// leading zeros.
pub uninterp spec fn xxh3_hex(d: Seq<u8>) -> Seq<char>;

/// The 128-bit XXH3 hash of `d`, as upper-case hexadecimal without
/// leading zeros.
pub uninterp spec fn xxh128_hex(d: Seq<u8>) -> Seq<char>;

/// The running hash states of one stream of data: SHA-1, MD5 and SHA-256
/// always, BLAKE3, XXH3 and XXH3-128 when asked for.
#[verifier::external_body]
pub struct Hashers {
    sha1: sha1::Sha1,
    md5: md5::Context,
    sha256: sha2::Sha256,
    blake3: Option<blake3::Hasher>,
    xxh3: Option<xxhash_rust::xxh3::Xxh3>,
    xxh128: Option<xxhash_rust::xxh3::Xxh3>,
}

/// The bytes fed to the hash states so far, in order.
pub uninterp spec fn hashed_bytes(h: Hashers) -> Seq<u8>;

/// Which of BLAKE3, XXH3 and XXH3-128 the states were made with.
pub uninterp spec fn optional_hashers(h: Hashers) -> (bool, bool, bool);

/// Fresh states (`sha1::Sha1::new`, `md5::Context::new`,
/// `sha2::Sha256::new`, and `blake3::Hasher::new` and
/// `xxhash_rust::xxh3::Xxh3::new` as asked for): nothing fed yet.
#[verifier::external_body]
fn hashers_new(blake3: bool, xxh3: bool, xxh128: bool) -> (h: Hashers)
    ensures
        hashed_bytes(h) == Seq::<u8>::empty(),
        optional_hashers(h) == (blake3, xxh3, xxh128),
{
    Hashers {
        sha1: sha1::Sha1::new(),
        md5: md5::Context::new(),
        sha256: sha2::Sha256::new(),
        blake3: if blake3 { Some(blake3::Hasher::new()) } else { None },
        xxh3: if xxh3 { Some(xxhash_rust::xxh3::Xxh3::new()) } else { None },
        xxh128: if xxh128 { Some(xxhash_rust::xxh3::Xxh3::new()) } else { None },
    }
}

/// Feeds `data` to every state (`update`, `consume`): the states then
/// stand for what was fed before followed by `data`.
#[verifier::external_body]
fn hashers_update(h: &mut Hashers, data: &[u8])
    ensures
        hashed_bytes(*final(h)) == hashed_bytes(*old(h)) + data@,
        optional_hashers(*final(h)) == optional_hashers(*old(h)),
{
    h.sha1.update(data);
    h.md5.consume(data);
    h.sha256.update(data);
    if let Some(x) = h.blake3.as_mut() {
        x.update(data);
    }
    if let Some(x) = h.xxh3.as_mut() {
        x.update(data);
    }
    if let Some(x) = h.xxh128.as_mut() {
        x.update(data);
    }
}

/// `finalize` of a copy of the SHA-1 state, formatted `{:X}`.
#[verifier::external_body]
fn hashers_sha1(h: &Hashers) -> (s: String)
    ensures
        s@ == sha1_hex(hashed_bytes(*h)),
{
    format!("{:X}", h.sha1.clone().finalize())
}

/// `compute` of a copy of the MD5 state, formatted `{:X}`.
#[verifier::external_body]
fn hashers_md5(h: &Hashers) -> (s: String)
    ensures
        s@ == md5_hex(hashed_bytes(*h)),
{
    format!("{:X}", h.md5.clone().compute())
}

/// `finalize` of a copy of the SHA-256 state, formatted `{:X}`.
#[verifier::external_body]
fn hashers_sha256(h: &Hashers) -> (s: String)
    ensures
        s@ == sha256_hex(hashed_bytes(*h)),
{
    format!("{:X}", h.sha256.clone().finalize())
}

/// `blake3::Hasher::finalize`, through `hex::encode_upper`, when the state
/// was made.
#[verifier::external_body]
fn hashers_blake3(h: &Hashers) -> (s: Option<String>)
    ensures
        s is Some <==> optional_hashers(*h).0,
        s matches Some(v) ==> v@ == blake3_hex(hashed_bytes(*h)),
{
    match &h.blake3 {
        Some(x) => Some(hex::encode_upper(x.finalize().as_bytes())),
        None => None,
    }
}

/// `Xxh3::digest`, formatted `{:X}`, when the state was made.
#[verifier::external_body]
fn hashers_xxh3(h: &Hashers) -> (s: Option<String>)
    ensures
        s is Some <==> optional_hashers(*h).1,
        s matches Some(v) ==> v@ == xxh3_hex(hashed_bytes(*h)),
{
    match &h.xxh3 {
        Some(x) => Some(format!("{:X}", x.digest())),
        None => None,
    }
}

/// `Xxh3::digest128`, formatted `{:X}`, when the state was made.
#[verifier::external_body]
fn hashers_xxh128(h: &Hashers) -> (s: Option<String>)
    ensures
        s is Some <==> optional_hashers(*h).2,
        s matches Some(v) ==> v@ == xxh128_hex(hashed_bytes(*h)),
{
    match &h.xxh128 {
        Some(x) => Some(format!("{:X}", x.digest128())),
        None => None,
    }
}

/// The attribute pairs a file gets from the hashes of `d`: SHA1 and MD5
/// when the options enable them, SHA256 always, then BLAKE3, XXHash3 and
/// XXHash128 when both the options enable them and the calculator made
/// them (`made`).
pub open spec fn enabled_hash_pairs(o: WriteOptions, made: (bool, bool, bool), d: Seq<u8>) -> Seq<
    (Seq<char>, Seq<char>),
> {
    (if o.hash_sha1_enabled { seq![("ltfs.hash.sha1sum"@, sha1_hex(d))] } else { seq![] })
        + (if o.hash_md5_enabled { seq![("ltfs.hash.md5sum"@, md5_hex(d))] } else { seq![] })
        + seq![("ltfs.hash.sha256sum"@, sha256_hex(d))]
        + (if o.hash_blake3_enabled && made.0 { seq![("ltfs.hash.blake3sum"@, blake3_hex(d))] } else { seq![] })
        + (if o.hash_xxhash3_enabled && made.1 { seq![("ltfs.hash.xxhash3sum"@, xxh3_hex(d))] } else { seq![] })
        + (if o.hash_xxhash128_enabled && made.2 {
        seq![("ltfs.hash.xxhash128sum"@, xxh128_hex(d))]
    } else {
        seq![]
    })
}

pub open spec fn pairs_view(v: Seq<(String, String)>) -> Seq<(Seq<char>, Seq<char>)> {
    v.map_values(|p: (String, String)| (p.0@, p.1@))
}

fn push_pair(v: &mut Vec<(String, String)>, k: &str, value: String)
    ensures
        pairs_view(final(v)@) == pairs_view(old(v)@).push((k@, value@)),
{
    v.push((k.to_owned(), value));
    assert(pairs_view(v@) =~= pairs_view(old(v)@).push((k@, value@)));
}

/// Hashes of a stream of blocks, as LTFSCopyGUI computes them while
/// writing a file.
pub struct CheckSumBlockwiseCalculator {
    pub hashers: Hashers,
    pub bytes_processed: u64,
}

impl CheckSumBlockwiseCalculator {
    /// The bytes fed so far.
    pub open spec fn consumed(&self) -> Seq<u8> {
        hashed_bytes(self.hashers)
    }

    /// Which of BLAKE3, XXH3 and XXH3-128 are computed.
    pub open spec fn made(&self) -> (bool, bool, bool) {
        optional_hashers(self.hashers)
    }

    /// A calculator for the algorithms the options enable: SHA1, MD5 and
    /// SHA256 always, BLAKE3, XXH3 and XXH3-128 when enabled.
    pub fn new_with_options(options: &WriteOptions) -> (c: Self)
        ensures
            c.consumed() == Seq::<u8>::empty(),
            c.made() == (options.hash_blake3_enabled, options.hash_xxhash3_enabled, options.hash_xxhash128_enabled),
            c.bytes_processed == 0,
    {
        CheckSumBlockwiseCalculator {
            hashers: hashers_new(
                options.hash_blake3_enabled,
                options.hash_xxhash3_enabled,
                options.hash_xxhash128_enabled,
            ),
            bytes_processed: 0,
        }
    }

    /// Feeds one block of data.
    pub fn propagate(&mut self, data: &[u8])
        requires
            old(self).bytes_processed + data@.len() <= u64::MAX,
        ensures
            final(self).consumed() == old(self).consumed() + data@,
            final(self).made() == old(self).made(),
            final(self).bytes_processed == old(self).bytes_processed + data@.len(),
    {
        hashers_update(&mut self.hashers, data);
        self.bytes_processed = self.bytes_processed + data.len() as u64;
    }

    /// The end of the data: nothing is left to do, the hashes are read
    /// from the states as they are.
    pub fn process_final_block(&mut self)
        ensures
            final(self).consumed() == old(self).consumed(),
            final(self).made() == old(self).made(),
            final(self).bytes_processed == old(self).bytes_processed,
    {
    }

    pub fn sha1_value(&self) -> (s: String)
        ensures
            s@ == sha1_hex(self.consumed()),
    {
        hashers_sha1(&self.hashers)
    }

    pub fn md5_value(&self) -> (s: String)
        ensures
            s@ == md5_hex(self.consumed()),
    {
        hashers_md5(&self.hashers)
    }

    pub fn sha256_value(&self) -> (s: String)
        ensures
            s@ == sha256_hex(self.consumed()),
    {
        hashers_sha256(&self.hashers)
    }

    pub fn blake3_value(&self) -> (s: Option<String>)
        ensures
            s is Some <==> self.made().0,
            s matches Some(v) ==> v@ == blake3_hex(self.consumed()),
    {
        hashers_blake3(&self.hashers)
    }

    pub fn xxhash3_value(&self) -> (s: Option<String>)
        ensures
            s is Some <==> self.made().1,
            s matches Some(v) ==> v@ == xxh3_hex(self.consumed()),
    {
        hashers_xxh3(&self.hashers)
    }

    pub fn xxhash128_value(&self) -> (s: Option<String>)
        ensures
            s is Some <==> self.made().2,
            s matches Some(v) ==> v@ == xxh128_hex(self.consumed()),
    {
        hashers_xxh128(&self.hashers)
    }

    /// The hash attributes that `options` enable, under their LTFS keys,
    /// in the order of `enabled_hash_pairs`.
    pub fn get_enabled_hashes(&self, options: &WriteOptions) -> (r: Vec<(String, String)>)
        ensures
            pairs_view(r@) == enabled_hash_pairs(*options, self.made(), self.consumed()),
    {
        let ghost d = self.consumed();
        let ghost o = *options;
        let ghost m = self.made();
        let mut r: Vec<(String, String)> = Vec::new();
        assert(pairs_view(r@) =~= Seq::<(Seq<char>, Seq<char>)>::empty());
        if options.hash_sha1_enabled {
            push_pair(&mut r, "ltfs.hash.sha1sum", self.sha1_value());
        }
        let ghost a1 = if o.hash_sha1_enabled { seq![("ltfs.hash.sha1sum"@, sha1_hex(d))] } else { seq![] };
        assert(pairs_view(r@) =~= a1);
        if options.hash_md5_enabled {
            push_pair(&mut r, "ltfs.hash.md5sum", self.md5_value());
        }
        let ghost a2 = a1 + (if o.hash_md5_enabled { seq![("ltfs.hash.md5sum"@, md5_hex(d))] } else { seq![] });
        assert(pairs_view(r@) =~= a2);
        push_pair(&mut r, "ltfs.hash.sha256sum", self.sha256_value());
        let ghost a3 = a2 + seq![("ltfs.hash.sha256sum"@, sha256_hex(d))];
        assert(pairs_view(r@) =~= a3);
        if options.hash_blake3_enabled {
            match self.blake3_value() {
                Some(v) => push_pair(&mut r, "ltfs.hash.blake3sum", v),
                None => {},
            }
        }
        let ghost a4 = a3 + (if o.hash_blake3_enabled && m.0 {
            seq![("ltfs.hash.blake3sum"@, blake3_hex(d))]
        } else {
            seq![]
        });
        assert(pairs_view(r@) =~= a4);
        if options.hash_xxhash3_enabled {
            match self.xxhash3_value() {
                Some(v) => push_pair(&mut r, "ltfs.hash.xxhash3sum", v),
                None => {},
            }
        }
        let ghost a5 = a4 + (if o.hash_xxhash3_enabled && m.1 {
            seq![("ltfs.hash.xxhash3sum"@, xxh3_hex(d))]
        } else {
            seq![]
        });
        assert(pairs_view(r@) =~= a5);
        if options.hash_xxhash128_enabled {
            match self.xxhash128_value() {
                Some(v) => push_pair(&mut r, "ltfs.hash.xxhash128sum", v),
                None => {},
            }
        }
        assert(pairs_view(r@) =~= enabled_hash_pairs(o, m, d));
        r
    }
}

/// The hash attributes that `options` enable for `data` held whole in
/// memory.
pub fn compute_hashes(data: &[u8], options: &WriteOptions) -> (r: Vec<(String, String)>)
    ensures
        pairs_view(r@) == enabled_hash_pairs(
            *options,
            (options.hash_blake3_enabled, options.hash_xxhash3_enabled, options.hash_xxhash128_enabled),
            data@,
        ),
{
    let mut c = CheckSumBlockwiseCalculator::new_with_options(options);
    assert(data@.len() == data.len());
    c.propagate(data);
    c.process_final_block();
    assert(c.consumed() =~= data@);
    c.get_enabled_hashes(options)
}


/// The SHA-1 digest of `d`, as lower-case hexadecimal.
pub uninterp spec fn sha1_lower_hex(d: Seq<u8>) -> Seq<char>;

/// The SHA-256 digest of `d`, as lower-case hexadecimal.
pub uninterp spec fn sha256_lower_hex(d: Seq<u8>) -> Seq<char>;

/// The BLAKE3 hash of `d`, as lower-case hexadecimal (`Hash::to_hex`).
pub uninterp spec fn blake3_lower_hex(d: Seq<u8>) -> Seq<char>;

/// The XXH64 hash of `d` with seed 0 (`twox_hash::XxHash64::default`).
pub uninterp spec fn xxh64_value(d: Seq<u8>) -> u64;

/// The hash states of a file-hash computation: SHA1, SHA256, BLAKE3 and
/// two XXH64 states (for the XXHash3 and XXHash128 entries), each when
/// asked for.
#[verifier::external_body]
pub struct FileHashers {
    sha1: Option<sha1::Sha1>,
    sha256: Option<sha2::Sha256>,
    blake3: Option<blake3::Hasher>,
    xxh3: Option<twox_hash::XxHash64>,
    xxh128: Option<twox_hash::XxHash64>,
}

/// The bytes fed to the file hash states so far.
pub uninterp spec fn file_hashed_bytes(h: FileHashers) -> Seq<u8>;

/// Which of SHA1, SHA256, BLAKE3, XXHash3 and XXHash128 the states were
/// made for.
pub uninterp spec fn file_hashers_made(h: FileHashers) -> (bool, bool, bool, bool, bool);

/// Fresh states (`Sha1::new`, `Sha256::new`, `blake3::Hasher::new`,
/// `XxHash64::default`) for the algorithms asked for.
#[verifier::external_body]
fn file_hashers_new(sha1: bool, sha256: bool, blake3: bool, xxh3: bool, xxh128: bool) -> (h: FileHashers)
    ensures
        file_hashed_bytes(h) == Seq::<u8>::empty(),
        file_hashers_made(h) == (sha1, sha256, blake3, xxh3, xxh128),
{
    FileHashers {
        sha1: if sha1 { Some(sha1::Sha1::new()) } else { None },
        sha256: if sha256 { Some(sha2::Sha256::new()) } else { None },
        blake3: if blake3 { Some(blake3::Hasher::new()) } else { None },
        xxh3: if xxh3 { Some(twox_hash::XxHash64::default()) } else { None },
        xxh128: if xxh128 { Some(twox_hash::XxHash64::default()) } else { None },
    }
}

/// Feeds `data` to every state made (`update`, `Hasher::write`).
#[verifier::external_body]
fn file_hashers_update(h: &mut FileHashers, data: &[u8])
    ensures
        file_hashed_bytes(*final(h)) == file_hashed_bytes(*old(h)) + data@,
        file_hashers_made(*final(h)) == file_hashers_made(*old(h)),
{
    if let Some(x) = h.sha1.as_mut() {
        x.update(data);
    }
    if let Some(x) = h.sha256.as_mut() {
        x.update(data);
    }
    if let Some(x) = h.blake3.as_mut() {
        x.update(data);
    }
    if let Some(x) = h.xxh3.as_mut() {
        x.write(data);
    }
    if let Some(x) = h.xxh128.as_mut() {
        x.write(data);
    }
}

/// `finalize` of a copy of the SHA-1 state, formatted `{:x}`.
#[verifier::external_body]
fn file_hashers_sha1(h: &FileHashers) -> (s: Option<String>)
    ensures
        s is Some <==> file_hashers_made(*h).0,
        s matches Some(v) ==> v@ == sha1_lower_hex(file_hashed_bytes(*h)),
{
    match &h.sha1 {
        Some(x) => Some(format!("{:x}", x.clone().finalize())),
        None => None,
    }
}

/// `finalize` of a copy of the SHA-256 state, formatted `{:x}`.
#[verifier::external_body]
fn file_hashers_sha256(h: &FileHashers) -> (s: Option<String>)
    ensures
        s is Some <==> file_hashers_made(*h).1,
        s matches Some(v) ==> v@ == sha256_lower_hex(file_hashed_bytes(*h)),
{
    match &h.sha256 {
        Some(x) => Some(format!("{:x}", x.clone().finalize())),
        None => None,
    }
}

/// `blake3::Hasher::finalize`, then `to_hex`.
#[verifier::external_body]
fn file_hashers_blake3(h: &FileHashers) -> (s: Option<String>)
    ensures
        s is Some <==> file_hashers_made(*h).2,
        s matches Some(v) ==> v@ == blake3_lower_hex(file_hashed_bytes(*h)),
{
    match &h.blake3 {
        Some(x) => Some(format!("{}", x.finalize().to_hex())),
        None => None,
    }
}

/// `Hasher::finish` of the first XXH64 state.
#[verifier::external_body]
fn file_hashers_xxh3(h: &FileHashers) -> (s: Option<u64>)
    ensures
        s is Some <==> file_hashers_made(*h).3,
        s matches Some(v) ==> v == xxh64_value(file_hashed_bytes(*h)),
{
    match &h.xxh3 {
        Some(x) => Some(x.finish()),
        None => None,
    }
}

/// `Hasher::finish` of the second XXH64 state.
#[verifier::external_body]
fn file_hashers_xxh128(h: &FileHashers) -> (s: Option<u64>)
    ensures
        s is Some <==> file_hashers_made(*h).4,
        s matches Some(v) ==> v == xxh64_value(file_hashed_bytes(*h)),
{
    match &h.xxh128 {
        Some(x) => Some(x.finish()),
        None => None,
    }
}

/// The attribute pairs a file-hash computation gives for the data `d`, for
/// the algorithms it was made for, in this order: SHA1, SHA256, BLAKE3 (in
/// lower-case hexadecimal), XXHash3 and XXHash128 (the XXH64 value as 16
/// and as 32 lower-case digits).
pub open spec fn file_hash_pairs(made: (bool, bool, bool, bool, bool), d: Seq<u8>) -> Seq<(Seq<char>, Seq<char>)> {
    (if made.0 { seq![("ltfs.hash.sha1sum"@, sha1_lower_hex(d))] } else { seq![] })
        + (if made.1 { seq![("ltfs.hash.sha256sum"@, sha256_lower_hex(d))] } else { seq![] })
        + (if made.2 { seq![("ltfs.hash.blake3sum"@, blake3_lower_hex(d))] } else { seq![] })
        + (if made.3 {
        seq![("ltfs.hash.xxhash3sum"@, zero_pad(hex_number(xxh64_value(d) as nat, false), 16))]
    } else {
        seq![]
    })
        + (if made.4 {
        seq![("ltfs.hash.xxhash128sum"@, zero_pad(hex_number(xxh64_value(d) as nat, false), 32))]
    } else {
        seq![]
    })
}

/// A hash computation over a file's data, fed chunk by chunk as it is
/// read.
pub struct FileHashComputation {
    pub hashers: FileHashers,
    pub total_read: u64,
}

impl FileHashComputation {
    pub open spec fn fed(&self) -> Seq<u8> {
        file_hashed_bytes(self.hashers)
    }

    pub open spec fn made(&self) -> (bool, bool, bool, bool, bool) {
        file_hashers_made(self.hashers)
    }

    /// Feeds the next chunk read from the file.
    pub fn feed(&mut self, chunk: &[u8])
        requires
            old(self).total_read + chunk@.len() <= u64::MAX,
        ensures
            final(self).fed() == old(self).fed() + chunk@,
            final(self).made() == old(self).made(),
            final(self).total_read == old(self).total_read + chunk@.len(),
    {
        file_hashers_update(&mut self.hashers, chunk);
        self.total_read = self.total_read + chunk.len() as u64;
    }

    /// The hash attributes of the data fed (see `file_hash_pairs`).
    pub fn results(&self) -> (r: Vec<(String, String)>)
        ensures
            pairs_view(r@) == file_hash_pairs(self.made(), self.fed()),
    {
        let ghost d = self.fed();
        let ghost m = self.made();
        let mut r: Vec<(String, String)> = Vec::new();
        assert(pairs_view(r@) =~= Seq::<(Seq<char>, Seq<char>)>::empty());
        match file_hashers_sha1(&self.hashers) {
            Some(v) => push_pair(&mut r, "ltfs.hash.sha1sum", v),
            None => {},
        }
        let ghost a1 = if m.0 { seq![("ltfs.hash.sha1sum"@, sha1_lower_hex(d))] } else { seq![] };
        assert(pairs_view(r@) =~= a1);
        match file_hashers_sha256(&self.hashers) {
            Some(v) => push_pair(&mut r, "ltfs.hash.sha256sum", v),
            None => {},
        }
        let ghost a2 = a1 + (if m.1 { seq![("ltfs.hash.sha256sum"@, sha256_lower_hex(d))] } else { seq![] });
        assert(pairs_view(r@) =~= a2);
        match file_hashers_blake3(&self.hashers) {
            Some(v) => push_pair(&mut r, "ltfs.hash.blake3sum", v),
            None => {},
        }
        let ghost a3 = a2 + (if m.2 { seq![("ltfs.hash.blake3sum"@, blake3_lower_hex(d))] } else { seq![] });
        assert(pairs_view(r@) =~= a3);
        match file_hashers_xxh3(&self.hashers) {
            Some(v) => push_pair(&mut r, "ltfs.hash.xxhash3sum", hex_u64(v, 16, false)),
            None => {},
        }
        let ghost a4 = a3 + (if m.3 {
            seq![("ltfs.hash.xxhash3sum"@, zero_pad(hex_number(xxh64_value(d) as nat, false), 16))]
        } else {
            seq![]
        });
        assert(pairs_view(r@) =~= a4);
        match file_hashers_xxh128(&self.hashers) {
            Some(v) => push_pair(&mut r, "ltfs.hash.xxhash128sum", hex_u64(v, 32, false)),
            None => {},
        }
        assert(pairs_view(r@) =~= file_hash_pairs(m, d));
        r
    }
}

/// The value of the first pair of `s` under `key`.
pub open spec fn view_pair_value(s: Seq<(Seq<char>, Seq<char>)>, key: Seq<char>) -> Option<Seq<char>>
    decreases s.len(),
{
    if s.len() == 0 {
        None
    } else if s[0].0 == key {
        Some(s[0].1)
    } else {
        view_pair_value(s.drop_first(), key)
    }
}

/// Every expected (key, value) pair is among the computed ones.
pub open spec fn pairs_match(computed: Seq<(Seq<char>, Seq<char>)>, expected: Seq<(String, String)>) -> bool {
    forall|i: int| 0 <= i < expected.len() ==> view_pair_value(computed, (#[trigger] expected[i]).0@) == Some(
        expected[i].1@,
    )
}

proof fn lemma_pair_value_view(s: Seq<(String, String)>, k: Seq<char>)
    ensures
        pair_value(s, k) == view_pair_value(pairs_view(s), k),
    decreases s.len(),
{
    if s.len() > 0 {
        assert(pairs_view(s.drop_first()) =~= pairs_view(s).drop_first());
        lemma_pair_value_view(s.drop_first(), k);
    }
}

fn has_algorithm(v: &Vec<HashType>, t: HashType) -> (b: bool)
    ensures
        b == v@.contains(t),
{
    let mut i: usize = 0;
    while i < v.len()
        invariant
            i <= v@.len(),
            forall|j: int| 0 <= j < i ==> v@[j] != t,
        decreases v@.len() - i,
    {
        if v[i] == t {
            assert(v@[i as int] == t);
            return true;
        }
        i = i + 1;
    }
    false
}

impl HashManager {
    /// Starts hashing a file with the enabled algorithms; the caller feeds
    /// the file's chunks of `chunk_size` bytes as it reads them.
    pub fn compute_file_hashes(&self) -> (c: FileHashComputation)
        ensures
            c.fed() == Seq::<u8>::empty(),
            c.total_read == 0,
            c.made() == (
                self.enabled_algorithms@.contains(HashType::Sha1),
                self.enabled_algorithms@.contains(HashType::Sha256),
                self.enabled_algorithms@.contains(HashType::Blake3),
                self.enabled_algorithms@.contains(HashType::XxHash3),
                self.enabled_algorithms@.contains(HashType::XxHash128),
            ),
    {
        let v = &self.enabled_algorithms;
        FileHashComputation {
            hashers: file_hashers_new(
                has_algorithm(v, HashType::Sha1),
                has_algorithm(v, HashType::Sha256),
                has_algorithm(v, HashType::Blake3),
                has_algorithm(v, HashType::XxHash3),
                has_algorithm(v, HashType::XxHash128),
            ),
            total_read: 0,
        }
    }

    /// Whether the hashes computed for a file hold every expected (key,
    /// value) pair: a key the computation lacks, or a different value, is a
    /// mismatch.
    pub fn verify_file_hashes(&self, computation: &FileHashComputation, expected: &Vec<(String, String)>) -> (r: bool)
        ensures
            r == pairs_match(file_hash_pairs(computation.made(), computation.fed()), expected@),
    {
        let computed = computation.results();
        let r = self.verify_hashes(&computed, expected);
        proof {
            assert forall|k: Seq<char>| pair_value(computed@, k) == view_pair_value(pairs_view(computed@), k) by {
                lemma_pair_value_view(computed@, k);
            }
        }
        r
    }
}

impl HashType {
    /// Starts hashing a file with this one algorithm.
    pub fn compute_file_hash(&self) -> (c: FileHashComputation)
        ensures
            c.fed() == Seq::<u8>::empty(),
            c.total_read == 0,
            c.made() == (
                *self == HashType::Sha1,
                *self == HashType::Sha256,
                *self == HashType::Blake3,
                *self == HashType::XxHash3,
                *self == HashType::XxHash128,
            ),
    {
        FileHashComputation {
            hashers: file_hashers_new(
                *self == HashType::Sha1,
                *self == HashType::Sha256,
                *self == HashType::Blake3,
                *self == HashType::XxHash3,
                *self == HashType::XxHash128,
            ),
            total_read: 0,
        }
    }
}

impl TapeOperations {
    /// Starts the SHA-256 hash of a local file (its value, in lower-case
    /// hexadecimal, is the `ltfs.hash.sha256sum` result).
    pub fn calculate_file_hash(&self) -> (c: FileHashComputation)
        ensures
            c.fed() == Seq::<u8>::empty(),
            c.total_read == 0,
            c.made() == (false, true, false, false, false),
    {
        FileHashComputation { hashers: file_hashers_new(false, true, false, false, false), total_read: 0 }
    }
}

} // verus!
