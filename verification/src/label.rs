use vstd::prelude::*;
use crate::error::RustLtfsError;
use crate::ops::{LtfsPartitionLabel, LTO_BLOCK_SIZE, LTO_BLOCK_SIZE_512K};
use crate::text::{chars_to_string, parse_unsigned, parse_unsigned_exec, push_str, str_to_chars, trim, trim_chars, lowercase, to_lowercase};

verus! {

/// `true` when the first bytes of `b` spell out `pat`.
pub open spec fn has_prefix_at(b: Seq<u8>, off: int, pat: Seq<u8>) -> bool {
    &&& 0 <= off
    &&& off + pat.len() <= b.len()
    &&& b.subrange(off, off + pat.len()) == pat
}

/// The ASCII bytes of "VOL1".
pub open spec fn vol1_tag() -> Seq<u8> {
    seq![0x56u8, 0x4Fu8, 0x4Cu8, 0x31u8]
}

/// The ASCII bytes of "LTFS".
pub open spec fn ltfs_tag() -> Seq<u8> {
    seq![0x4Cu8, 0x54u8, 0x46u8, 0x53u8]
}

/// A buffer carries a valid LTFS VOL1 label: at least 80 bytes, starting with
/// "VOL1", with "LTFS" at bytes 24..28.
pub open spec fn is_ltfs_vol1_label(b: Seq<u8>) -> bool {
    &&& b.len() >= 80
    &&& has_prefix_at(b, 0, vol1_tag())
    &&& has_prefix_at(b, 24, ltfs_tag())
}

fn bytes_match_at(buf: &[u8], off: usize, pat: &[u8]) -> (r: bool)
    requires
        off + pat@.len() <= buf@.len(),
    ensures
        r == has_prefix_at(buf@, off as int, pat@),
{
    let mut i: usize = 0;
    while i < pat.len()
        invariant
            i <= pat@.len(),
            off + pat@.len() <= buf@.len(),
            buf@.len() == buf.len(),
            forall|k: int| 0 <= k < i ==> buf@[off + k] == pat@[k],
        decreases pat@.len() - i,
    {
        if buf[off + i] != pat[i] {
            assert(buf@.subrange(off as int, off + pat@.len())[i as int] != pat@[i as int]);
            return false;
        }
        i = i + 1;
    }
    assert(buf@.subrange(off as int, off + pat@.len()) =~= pat@);
    true
}

/// Strict VOL1 validation: the buffer holds at least 80 bytes, begins with
/// "VOL1", and bytes 24..28 read "LTFS".
pub fn parse_vol1_label(buffer: &[u8]) -> (valid: bool)
    ensures
        valid == is_ltfs_vol1_label(buffer@),
{
    if buffer.len() < 80 {
        return false;
    }
    let vol1: [u8; 4] = [0x56, 0x4F, 0x4C, 0x31];
    let ltfs: [u8; 4] = [0x4C, 0x54, 0x46, 0x53];
    assert(vol1@ == vol1_tag());
    assert(ltfs@ == ltfs_tag());
    if !bytes_match_at(buffer, 0, &vol1) {
        return false;
    }
    bytes_match_at(buffer, 24, &ltfs)
}


/// The first index at or after `from` where the bytes `p` occur in `b`, or -1.
pub open spec fn first_bytes_index(b: Seq<u8>, p: Seq<u8>, from: int) -> int
    decreases b.len() + 1 - from,
{
    if from < 0 || from + p.len() > b.len() {
        -1
    } else if has_prefix_at(b, from, p) {
        from
    } else {
        first_bytes_index(b, p, from + 1)
    }
}

/// Where "LTFS" first occurs in `b`, or -1.
pub open spec fn ltfs_signature_at(b: Seq<u8>) -> int {
    first_bytes_index(b, ltfs_tag(), 0)
}

/// The first occurrence of "LTFS" in `buf`.
pub fn find_ltfs_signature(buf: &[u8]) -> (r: Option<usize>)
    ensures
        match r {
            Some(i) => i as int == ltfs_signature_at(buf@) && i + 4 <= buf@.len(),
            None => ltfs_signature_at(buf@) == -1,
        },
{
    let ltfs: [u8; 4] = [0x4C, 0x54, 0x46, 0x53];
    assert(ltfs@ == ltfs_tag());
    let mut i: usize = 0;
    while i <= buf.len() && buf.len() - i >= 4
        invariant
            buf@.len() == buf.len(),
            first_bytes_index(buf@, ltfs_tag(), 0) == first_bytes_index(buf@, ltfs_tag(), i as int),
            ltfs@ == ltfs_tag(),
        decreases buf@.len() - i,
    {
        if bytes_match_at(buf, i, &ltfs) {
            return Some(i);
        }
        i = i + 1;
    }
    None
}

/// Where an LTFS index lives: partition "a" or "b" and its first block.
pub struct IndexLocation {
    pub partition: String,
    pub start_block: u64,
}

/// The little-endian 32-bit value at `i`.
pub open spec fn le_u32(b: Seq<u8>, i: int) -> nat {
    b[i] as nat + 256 * (b[i + 1] as nat) + 65536 * (b[i + 2] as nat) + 16777216 * (b[i + 3] as nat)
}

/// The first little-endian 32-bit value within `lo..=hi` among those read
/// at `base + i`, `base + i + 4`, ... while `i < limit`.
pub open spec fn scan_le_u32(b: Seq<u8>, base: int, i: int, limit: int, lo: nat, hi: nat) -> Option<nat>
    decreases limit + 4 - i,
{
    if i < 0 || i >= limit {
        None
    } else if lo <= le_u32(b, base + i) && le_u32(b, base + i) <= hi {
        Some(le_u32(b, base + i))
    } else {
        scan_le_u32(b, base, i + 4, limit, lo, hi)
    }
}

/// The length of the area searched after the "LTFS" at `p`: up to 1024 bytes.
pub open spec fn label_area_len(b: Seq<u8>, p: int) -> int {
    if p + 1024 <= b.len() {
        1024
    } else {
        b.len() - p
    }
}

/// The index location a volume label points to: after the first "LTFS", the
/// first 32-bit value in 5..=1000 read every 4 bytes names a block of
/// partition "a"; failing that, the first in 1000..=1000000 names a block of
/// partition "b".
pub open spec fn label_index_location(b: Seq<u8>) -> Option<(char, nat)> {
    let p = ltfs_signature_at(b);
    if p < 0 {
        None
    } else {
        let limit = label_area_len(b, p) - 8;
        match scan_le_u32(b, p, 0, limit, 5, 1000) {
            Some(v) => Some(('a', v)),
            None => match scan_le_u32(b, p, 0, limit, 1000, 1000000) {
                Some(v) => Some(('b', v)),
                None => None,
            },
        }
    }
}

fn read_le_u32(b: &[u8], i: usize) -> (v: u64)
    requires
        i + 4 <= b@.len(),
    ensures
        v as nat == le_u32(b@, i as int),
{
    b[i] as u64 + 256 * (b[i + 1] as u64) + 65536 * (b[i + 2] as u64) + 16777216 * (b[i + 3] as u64)
}

fn scan_area(b: &[u8], base: usize, limit: usize, lo: u64, hi: u64) -> (r: Option<u64>)
    requires
        base + limit + 8 <= b@.len(),
    ensures
        match r {
            Some(v) => scan_le_u32(b@, base as int, 0, limit as int, lo as nat, hi as nat) == Some(v as nat),
            None => scan_le_u32(b@, base as int, 0, limit as int, lo as nat, hi as nat) is None,
        },
{
    let mut i: usize = 0;
    while i < limit
        invariant
            i <= limit,
            b@.len() == b.len(),
            base + limit + 8 <= b@.len(),
            scan_le_u32(b@, base as int, 0, limit as int, lo as nat, hi as nat) == scan_le_u32(
                b@,
                base as int,
                i as int,
                limit as int,
                lo as nat,
                hi as nat,
            ),
        decreases limit - i,
    {
        let v = read_le_u32(b, base + i);
        if lo <= v && v <= hi {
            return Some(v);
        }
        if limit - i <= 4 {
            proof {
                assert(scan_le_u32(b@, base as int, i + 4, limit as int, lo as nat, hi as nat) is None);
            }
            return None;
        }
        i = i + 4;
    }
    None
}

fn partition_name(c: char) -> (s: String)
    ensures
        s@ == seq![c],
{
    let mut v: Vec<char> = Vec::new();
    v.push(c);
    assert(v@ =~= seq![c]);
    chars_to_string(&v)
}

/// The index location recorded in a volume label (see `label_index_location`).
pub fn parse_index_locations_from_volume_label(buffer: &[u8]) -> (r: Result<IndexLocation, RustLtfsError>)
    requires
        ltfs_signature_at(buffer@) >= 0 ==> label_area_len(buffer@, ltfs_signature_at(buffer@)) >= 8,
    ensures
        match r {
            Ok(loc) => label_index_location(buffer@) matches Some((c, v)) && loc.partition@ == seq![c]
                && loc.start_block as nat == v,
            Err(e) => label_index_location(buffer@) is None && e is LtfsIndex,
        },
{
    if let Some(pos) = find_ltfs_signature(buffer) {
        let area_len: usize = if buffer.len() - pos >= 1024 { 1024 } else { buffer.len() - pos };
        let limit = area_len - 8;
        if let Some(v) = scan_area(buffer, pos, limit, 5, 1000) {
            return Ok(IndexLocation { partition: partition_name('a'), start_block: v });
        }
        if let Some(v) = scan_area(buffer, pos, limit, 1000, 1000000) {
            return Ok(IndexLocation { partition: partition_name('b'), start_block: v });
        }
    }
    Err(RustLtfsError::LtfsIndex("No valid index location found in volume label".to_owned()))
}

/// The index location of a volume label that carries "LTFS": block 5 of
/// partition "a"; none otherwise.
pub fn parse_volume_label(buffer: &[u8]) -> (r: Result<Option<IndexLocation>, RustLtfsError>)
    ensures
        match r {
            Ok(Some(loc)) => ltfs_signature_at(buffer@) >= 0 && loc.partition@ == seq!['a'] && loc.start_block == 5,
            Ok(None) => ltfs_signature_at(buffer@) == -1,
            Err(_) => false,
        },
{
    match find_ltfs_signature(buffer) {
        Some(_) => Ok(Some(IndexLocation { partition: partition_name('a'), start_block: 5 })),
        None => Ok(None),
    }
}

/// The current index location: what the volume label read from block 0 of
/// partition "a" names, else block 5 of partition "a".  `volume_label` is
/// the block read, `None` when the read failed.
pub fn find_current_index_location(volume_label: Option<&[u8]>) -> (r: Result<IndexLocation, RustLtfsError>)
    ensures
        r matches Ok(loc) && loc.partition@ == seq!['a'] && loc.start_block == 5,
{
    if let Some(buf) = volume_label {
        if let Ok(Some(location)) = parse_volume_label(buf) {
            return Ok(location);
        }
    }
    Ok(IndexLocation { partition: partition_name('a'), start_block: 5 })
}

/// The partition number of the partition named `partition`: "a" is 0 and
/// "b" is 1, in either case.
pub fn get_partition_id(partition: &str) -> (r: Result<u8, RustLtfsError>)
    ensures
        match r {
            Ok(id) => (lowercase(partition@) == seq!['a'] && id == 0) || (lowercase(partition@) == seq!['b'] && id == 1),
            Err(e) => lowercase(partition@) != seq!['a'] && lowercase(partition@) != seq!['b'] && (e matches RustLtfsError::LtfsIndex(m)
                && m@ == "Invalid partition: "@ + partition@),
        },
{
    let low = to_lowercase(partition);
    let cs = str_to_chars(low.as_str());
    if cs.len() == 1 && cs[0] == 'a' {
        assert(cs@ =~= seq!['a']);
        return Ok(0);
    }
    if cs.len() == 1 && cs[0] == 'b' {
        assert(cs@ =~= seq!['b']);
        return Ok(1);
    }
    let mut m: Vec<char> = Vec::new();
    push_str(&mut m, "Invalid partition: ");
    push_str(&mut m, partition);
    Err(RustLtfsError::LtfsIndex(chars_to_string(&m)))
}

/// The first `length` bytes of `buffer` (all of it when shorter) are zero.
pub fn is_all_zeros(buffer: &[u8], length: usize) -> (r: bool)
    ensures
        r == forall|i: int| 0 <= i < length && i < buffer@.len() ==> buffer@[i] == 0,
{
    let mut i: usize = 0;
    while i < length && i < buffer.len()
        invariant
            forall|j: int| 0 <= j < i ==> buffer@[j] == 0,
        decreases buffer@.len() - i,
    {
        if buffer[i] != 0 {
            return false;
        }
        i = i + 1;
    }
    true
}


/// `std::str::from_utf8` on `b`, owned: the text when `b` is valid UTF-8.
#[verifier::external_body]
fn str_from_utf8(b: &[u8]) -> (r: Option<String>)
    ensures
        match r {
            Some(s) => vstd::utf8::valid_utf8(b@) && s@ == vstd::utf8::decode_utf8(b@),
            None => !vstd::utf8::valid_utf8(b@),
        },
{
    match std::str::from_utf8(b) {
        Ok(s) => Some(s.to_owned()),
        Err(_) => None,
    }
}

/// The block sizes a VOL1 label may announce.
pub open spec fn allowed_blocksize(v: nat) -> bool {
    v == 65536 || v == 524288 || v == 1048576 || v == 262144 || v == 131072
}

/// The block size announced in bytes 40..44 of a VOL1 label, as trimmed
/// decimal text, when it is one of the allowed sizes; 64 KiB otherwise.
pub open spec fn label_blocksize(b: Seq<u8>) -> u32 {
    if b.len() >= 44 && vstd::utf8::valid_utf8(b.subrange(40, 44)) {
        match parse_unsigned(trim(vstd::utf8::decode_utf8(b.subrange(40, 44))), u32::MAX as nat) {
            Some(v) => if allowed_blocksize(v) {
                v as u32
            } else {
                LTO_BLOCK_SIZE
            },
            None => LTO_BLOCK_SIZE,
        }
    } else {
        LTO_BLOCK_SIZE
    }
}

/// Number of non-zero bytes.
pub open spec fn nonzero_count(b: Seq<u8>) -> nat
    decreases b.len(),
{
    if b.len() == 0 {
        0
    } else {
        nonzero_count(b.drop_last()) + if b.last() != 0 {
            1nat
        } else {
            0nat
        }
    }
}

/// The block size guessed from a block that is not a VOL1 label: 512 KiB
/// when more than 80% of it is zero, 64 KiB when more than 32768 bytes are
/// not zero, 512 KiB otherwise.
pub open spec fn heuristic_blocksize(b: Seq<u8>) -> u32 {
    let nz = nonzero_count(b);
    if 5 * (b.len() - nz) > 4 * b.len() {
        LTO_BLOCK_SIZE_512K
    } else if nz > 32768 {
        LTO_BLOCK_SIZE
    } else {
        LTO_BLOCK_SIZE_512K
    }
}

/// A default label with block size `bs`.
pub open spec fn default_label_with(l: LtfsPartitionLabel, bs: u32) -> bool {
    &&& l.volume_uuid@ == Seq::<char>::empty()
    &&& l.blocksize == bs
    &&& !l.compression
    &&& l.index_partition == 0
    &&& l.data_partition == 1
    &&& l.format_time@ == Seq::<char>::empty()
}

fn count_nonzero(b: &[u8]) -> (n: usize)
    ensures
        n == nonzero_count(b@),
        n <= b@.len(),
{
    let mut n: usize = 0;
    let mut i: usize = 0;
    while i < b.len()
        invariant
            i <= b@.len(),
            n == nonzero_count(b@.take(i as int)),
            n <= i,
        decreases b@.len() - i,
    {
        assert(b@.take(i + 1).drop_last() =~= b@.take(i as int));
        if b[i] != 0 {
            n = n + 1;
        }
        i = i + 1;
    }
    assert(b@.take(b@.len() as int) =~= b@);
    n
}

/// Guesses the block size from the share of zero bytes in `buffer`.
pub fn detect_blocksize_heuristic(buffer: &[u8]) -> (r: Result<LtfsPartitionLabel, RustLtfsError>)
    ensures
        r matches Ok(l) && default_label_with(l, heuristic_blocksize(buffer@)),
{
    let mut plabel = LtfsPartitionLabel::default();
    let non_zero = count_nonzero(buffer);
    let zeros = buffer.len() - non_zero;
    if 5 * (zeros as u128) > 4 * (buffer.len() as u128) {
        plabel.blocksize = LTO_BLOCK_SIZE_512K;
    } else if non_zero > 32768 {
        plabel.blocksize = LTO_BLOCK_SIZE;
    } else {
        plabel.blocksize = LTO_BLOCK_SIZE_512K;
    }
    Ok(plabel)
}

/// The partition label read from the first block of partition "a": for a
/// VOL1 label, the block size it announces (see `label_blocksize`);
/// otherwise the guessed one.
pub fn parse_ltfs_volume_label(buffer: &[u8]) -> (r: Result<LtfsPartitionLabel, RustLtfsError>)
    ensures
        r matches Ok(l) && default_label_with(
            l,
            if is_ltfs_vol1_label(buffer@) {
                label_blocksize(buffer@)
            } else {
                heuristic_blocksize(buffer@)
            },
        ),
{
    if parse_vol1_label(buffer) {
        let mut plabel = LtfsPartitionLabel::default();
        if buffer.len() >= 44 {
            let field = &buffer[40..44];
            assert(field@ == buffer@.subrange(40, 44));
            if let Some(text) = str_from_utf8(field) {
                let cs = str_to_chars(text.as_str());
                let t = trim_chars(&cs);
                if let Some(v) = parse_unsigned_exec(&t, u32::MAX as u64) {
                    if v == 65536 || v == 524288 || v == 1048576 || v == 262144 || v == 131072 {
                        plabel.blocksize = v as u32;
                    }
                }
            }
        }
        Ok(plabel)
    } else {
        detect_blocksize_heuristic(buffer)
    }
}

/// Where `pattern` first occurs in `data` (the pattern must not be empty).
pub fn find_pattern_in_data(data: &[u8], pattern: &[u8]) -> (r: Option<usize>)
    requires
        pattern@.len() > 0,
    ensures
        match r {
            Some(i) => i as int == first_bytes_index(data@, pattern@, 0),
            None => first_bytes_index(data@, pattern@, 0) == -1,
        },
{
    let n = data.len();
    let m = pattern.len();
    let mut i: usize = 0;
    while i <= n && n - i >= m
        invariant
            n == data@.len(),
            m == pattern@.len(),
            first_bytes_index(data@, pattern@, 0) == first_bytes_index(data@, pattern@, i as int),
            m > 0,
        decreases n - i,
    {
        let mut j: usize = 0;
        let mut same = true;
        while j < m
            invariant
                n == data@.len(),
                m == pattern@.len(),
                j <= m,
                i + m <= n,
                same == forall|k: int| 0 <= k < j ==> data@[i + k] == pattern@[k],
            decreases m - j,
        {
            if data[i + j] != pattern[j] {
                same = false;
            }
            j = j + 1;
        }
        if same {
            assert(data@.subrange(i as int, i + m) =~= pattern@);
            return Some(i);
        }
        proof {
            let k = choose|k: int| 0 <= k < m && data@[i + k] != pattern@[k];
            assert(data@.subrange(i as int, i + m)[k] != pattern@[k]);
        }
        i = i + 1;
    }
    None
}

} // verus!
