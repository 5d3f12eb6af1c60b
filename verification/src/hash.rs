use vstd::prelude::*;
use crate::dedup::{pair_value, HashType};
use crate::ops::WriteOptions;
use crate::text::{chars_to_string, zero_pad, zero_pad_exec};

verus! {

broadcast use {vstd::seq::group_seq_axioms, vstd::std_specs::vec::group_vec_axioms};

/// The hexadecimal digit of `d` (below 16), upper or lower case.
pub open spec fn hex_digit(d: nat, upper: bool) -> char {
    if d < 10 {
        ('0' as u8 + d) as char
    } else if upper {
        ('A' as u8 + (d - 10)) as char
    } else {
        ('a' as u8 + (d - 10)) as char
    }
}

/// Two hexadecimal digits per byte, most significant first.
pub open spec fn hex_of(b: Seq<u8>, upper: bool) -> Seq<char>
    decreases b.len(),
{
    if b.len() == 0 {
        seq![]
    } else {
        hex_of(b.drop_last(), upper) + seq![hex_digit((b.last() / 16) as nat, upper), hex_digit((b.last() % 16) as nat, upper)]
    }
}

/// The hexadecimal digits of `n`, without leading zeros ("0" for 0).
pub open spec fn hex_number(n: nat, upper: bool) -> Seq<char>
    decreases n,
{
    if n < 16 {
        seq![hex_digit(n, upper)]
    } else {
        hex_number(n / 16, upper).push(hex_digit(n % 16, upper))
    }
}

fn hex_digit_exec(d: u8, upper: bool) -> (c: char)
    requires
        d < 16,
    ensures
        c == hex_digit(d as nat, upper),
{
    if d < 10 {
        ((48 + d) as char)
    } else if upper {
        ((65 + (d - 10)) as char)
    } else {
        ((97 + (d - 10)) as char)
    }
}

/// The bytes in hexadecimal, two digits each (as `hex::encode_upper`, or
/// `{:X}` / `{:x}` of a digest).
pub fn hex_bytes(b: &[u8], upper: bool) -> (s: String)
    ensures
        s@ == hex_of(b@, upper),
{
    let mut v: Vec<char> = Vec::new();
    let mut i: usize = 0;
    while i < b.len()
        invariant
            i <= b@.len(),
            v@ == hex_of(b@.take(i as int), upper),
        decreases b@.len() - i,
    {
        proof {
            assert(b@.take(i + 1).drop_last() =~= b@.take(i as int));
        }
        let x = b[i];
        v.push(hex_digit_exec(x / 16, upper));
        v.push(hex_digit_exec(x % 16, upper));
        proof {
            assert(v@ =~= hex_of(b@.take(i + 1), upper));
        }
        i = i + 1;
    }
    proof {
        assert(b@.take(b@.len() as int) =~= b@);
    }
    chars_to_string(&v)
}

/// `n` in hexadecimal, zero padded to `width` digits (`{:016x}` and the
/// like).
pub fn hex_u64(n: u64, width: usize, upper: bool) -> (s: String)
    ensures
        s@ == zero_pad(hex_number(n as nat, upper), width as nat),
{
    let mut digits: Vec<char> = Vec::new();
    let mut m: u64 = n;
    proof {
        assert(hex_number(n as nat, upper) =~= hex_number(m as nat, upper) + digits@);
    }
    loop
        invariant_except_break
            hex_number(n as nat, upper) == hex_number(m as nat, upper) + digits@,
        ensures
            hex_number(n as nat, upper) == digits@,
        decreases m,
    {
        let d = (m % 16) as u8;
        if m < 16 {
            let ghost before = digits@;
            let c = hex_digit_exec(d, upper);
            digits.insert(0, c);
            proof {
                assert(hex_number(m as nat, upper) == seq![c]);
                assert(digits@ =~= seq![c] + before);
            }
            break;
        }
        let ghost before = digits@;
        let c = hex_digit_exec(d, upper);
        digits.insert(0, c);
        proof {
            assert(digits@ =~= seq![c] + before);
            assert(hex_number(m as nat, upper) == hex_number((m / 16) as nat, upper).push(c));
            assert(hex_number((m / 16) as nat, upper).push(c) + before =~= hex_number((m / 16) as nat, upper) + digits@);
        }
        m = m / 16;
    }
    let padded = zero_pad_exec(&digits, width);
    chars_to_string(&padded)
}

/// The attribute keys that the write options enable for a file, in order:
/// SHA1 and MD5 when enabled, SHA256 always, then BLAKE3, XXHash3 and
/// XXHash128 when enabled.
pub open spec fn enabled_keys(o: WriteOptions) -> Seq<Seq<char>> {
    (if o.hash_sha1_enabled { seq!["ltfs.hash.sha1sum"@] } else { seq![] })
        + (if o.hash_md5_enabled { seq!["ltfs.hash.md5sum"@] } else { seq![] })
        + seq!["ltfs.hash.sha256sum"@]
        + (if o.hash_blake3_enabled { seq!["ltfs.hash.blake3sum"@] } else { seq![] })
        + (if o.hash_xxhash3_enabled { seq!["ltfs.hash.xxhash3sum"@] } else { seq![] })
        + (if o.hash_xxhash128_enabled { seq!["ltfs.hash.xxhash128sum"@] } else { seq![] })
}

/// The attribute keys that the write options enable for a file.
pub fn enabled_hash_keys(options: &WriteOptions) -> (v: Vec<String>)
    ensures
        v.deep_view() == enabled_keys(*options),
{
    let mut v: Vec<String> = Vec::new();
    if options.hash_sha1_enabled {
        v.push("ltfs.hash.sha1sum".to_owned());
    }
    assert(v.deep_view() =~= (if options.hash_sha1_enabled { seq!["ltfs.hash.sha1sum"@] } else { seq![] }));
    let ghost a1 = v.deep_view();
    if options.hash_md5_enabled {
        v.push("ltfs.hash.md5sum".to_owned());
    }
    assert(v.deep_view() =~= a1 + (if options.hash_md5_enabled { seq!["ltfs.hash.md5sum"@] } else { seq![] }));
    let ghost a2 = v.deep_view();
    v.push("ltfs.hash.sha256sum".to_owned());
    assert(v.deep_view() =~= a2 + seq!["ltfs.hash.sha256sum"@]);
    let ghost a3 = v.deep_view();
    if options.hash_blake3_enabled {
        v.push("ltfs.hash.blake3sum".to_owned());
    }
    assert(v.deep_view() =~= a3 + (if options.hash_blake3_enabled { seq!["ltfs.hash.blake3sum"@] } else { seq![] }));
    let ghost a4 = v.deep_view();
    if options.hash_xxhash3_enabled {
        v.push("ltfs.hash.xxhash3sum".to_owned());
    }
    assert(v.deep_view() =~= a4 + (if options.hash_xxhash3_enabled { seq!["ltfs.hash.xxhash3sum"@] } else { seq![] }));
    let ghost a5 = v.deep_view();
    if options.hash_xxhash128_enabled {
        v.push("ltfs.hash.xxhash128sum".to_owned());
    }
    assert(v.deep_view() =~= a5 + (if options.hash_xxhash128_enabled { seq!["ltfs.hash.xxhash128sum"@] } else { seq![] }));
    assert(v.deep_view() =~= enabled_keys(*options));
    v
}

/// Every expected (key, value) pair is among the computed ones: a key the
/// computation lacks, or a different value, is a mismatch.
pub open spec fn hashes_match(computed: Seq<(String, String)>, expected: Seq<(String, String)>) -> bool {
    forall|i: int| 0 <= i < expected.len() ==> pair_value(computed, (#[trigger] expected[i]).0@) == Some(expected[i].1@)
}

/// The algorithms that the write options enable, in order: SHA1 when
/// enabled, SHA256 (always on, as for the attribute keys), then BLAKE3,
/// XXHash3 and XXHash128 when enabled; SHA1 alone when that list were
/// empty.
pub open spec fn algorithms_from_options(o: WriteOptions) -> Seq<HashType> {
    let s = (if o.hash_sha1_enabled { seq![HashType::Sha1] } else { seq![] })
        + seq![HashType::Sha256]
        + (if o.hash_blake3_enabled { seq![HashType::Blake3] } else { seq![] })
        + (if o.hash_xxhash3_enabled { seq![HashType::XxHash3] } else { seq![] })
        + (if o.hash_xxhash128_enabled { seq![HashType::XxHash128] } else { seq![] });
    if s.len() == 0 {
        seq![HashType::Sha1]
    } else {
        s
    }
}

/// Several hash algorithms computed over a file in chunks of `chunk_size`.
pub struct HashManager {
    pub enabled_algorithms: Vec<HashType>,
    pub chunk_size: usize,
}

impl HashManager {
    /// A manager for these algorithms, reading 64 KiB chunks.
    pub fn new(enabled_algorithms: Vec<HashType>) -> (m: Self)
        ensures
            m.enabled_algorithms@ == enabled_algorithms@,
            m.chunk_size == 65536,
    {
        HashManager { enabled_algorithms, chunk_size: 65536 }
    }

    /// A manager for the algorithms the write options enable (see
    /// `algorithms_from_options`), reading 64 KiB chunks.
    pub fn from_write_options(options: &WriteOptions) -> (m: Self)
        ensures
            m.enabled_algorithms@ == algorithms_from_options(*options),
            m.chunk_size == 65536,
    {
        let mut algorithms: Vec<HashType> = Vec::new();
        if options.hash_sha1_enabled {
            algorithms.push(HashType::Sha1);
        }
        algorithms.push(HashType::Sha256);
        if options.hash_blake3_enabled {
            algorithms.push(HashType::Blake3);
        }
        if options.hash_xxhash3_enabled {
            algorithms.push(HashType::XxHash3);
        }
        if options.hash_xxhash128_enabled {
            algorithms.push(HashType::XxHash128);
        }
        if algorithms.len() == 0 {
            algorithms.push(HashType::Sha1);
        }
        assert(algorithms@ =~= algorithms_from_options(*options));
        Self::new(algorithms)
    }

    /// Sets the chunk size.
    pub fn with_chunk_size(&mut self, chunk_size: usize) -> (r: &mut Self)
        ensures
            r.chunk_size == chunk_size,
            r.enabled_algorithms@ == old(self).enabled_algorithms@,
            *final(self) == *final(r),
    {
        self.chunk_size = chunk_size;
        self
    }

    /// The algorithms computed.
    pub fn enabled_algorithms(&self) -> (s: &[HashType])
        ensures
            s@ == self.enabled_algorithms@,
    {
        self.enabled_algorithms.as_slice()
    }

    /// Adds an algorithm that is not yet computed.
    pub fn enable_algorithm(&mut self, hash_type: HashType)
        ensures
            final(self).enabled_algorithms@ == if old(self).enabled_algorithms@.contains(hash_type) {
                old(self).enabled_algorithms@
            } else {
                old(self).enabled_algorithms@.push(hash_type)
            },
            final(self).chunk_size == old(self).chunk_size,
    {
        let mut i: usize = 0;
        while i < self.enabled_algorithms.len()
            invariant
                i <= self.enabled_algorithms@.len(),
                forall|j: int| 0 <= j < i ==> self.enabled_algorithms@[j] != hash_type,
            decreases self.enabled_algorithms@.len() - i,
        {
            if self.enabled_algorithms[i] == hash_type {
                return;
            }
            i = i + 1;
        }
        self.enabled_algorithms.push(hash_type);
    }

    /// Stops computing an algorithm.
    pub fn disable_algorithm(&mut self, hash_type: &HashType)
        ensures
            final(self).enabled_algorithms@ == old(self).enabled_algorithms@.filter(|h: HashType| h != *hash_type),
            final(self).chunk_size == old(self).chunk_size,
    {
        let ghost a = self.enabled_algorithms@;
        let mut kept: Vec<HashType> = Vec::new();
        let mut i: usize = 0;
        while i < self.enabled_algorithms.len()
            invariant
                i <= a.len(),
                a == self.enabled_algorithms@,
                kept@ == a.take(i as int).filter(|h: HashType| h != *hash_type),
            decreases a.len() - i,
        {
            proof {
                reveal(Seq::filter);
                assert(a.take(i + 1).drop_last() =~= a.take(i as int));
            }
            let h = self.enabled_algorithms[i];
            if h != *hash_type {
                kept.push(h);
            }
            i = i + 1;
        }
        proof {
            assert(a.take(a.len() as int) =~= a);
        }
        self.enabled_algorithms = kept;
    }

    /// Whether the computed hashes confirm the expected ones.
    pub fn verify_hashes(&self, computed: &Vec<(String, String)>, expected: &Vec<(String, String)>) -> (r: bool)
        ensures
            r == hashes_match(computed@, expected@),
    {
        let mut i: usize = 0;
        while i < expected.len()
            invariant
                i <= expected@.len(),
                forall|j: int| 0 <= j < i ==> pair_value(computed@, (#[trigger] expected@[j]).0@) == Some(expected@[j].1@),
            decreases expected@.len() - i,
        {
            match crate::dedup::find_pair(computed, expected[i].0.as_str()) {
                Some(v) => {
                    if *v != expected[i].1 {
                        return false;
                    }
                },
                None => {
                    return false;
                },
            }
            i = i + 1;
        }
        true
    }
}

} // verus!
