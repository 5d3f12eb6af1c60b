use vstd::prelude::*;
use crate::timestamp::now_rfc3339;
use crate::error::RustLtfsError;
use crate::text::{chars_to_string, decimal, decimal_exec, push_chars, push_str, str_to_chars, zero_pad, zero_pad_exec};
use crate::label::{has_prefix_at, is_ltfs_vol1_label, ltfs_tag, vol1_tag, find_ltfs_signature, ltfs_signature_at};
use crate::ops::{LtfsPartitionLabel, TapeOperations};

verus! {

/// The characters of `s` that are ASCII, in order.
pub open spec fn ascii_only(s: Seq<char>) -> Seq<char>
    decreases s.len(),
{
    if s.len() == 0 {
        s
    } else if s.last() <= '\u{7f}' {
        ascii_only(s.drop_last()).push(s.last())
    } else {
        ascii_only(s.drop_last())
    }
}

/// The barcode kept from `s`: its ASCII characters, at most 20 of them.
pub open spec fn barcode_of(s: Seq<char>) -> Seq<char> {
    let a = ascii_only(s);
    if a.len() <= 20 {
        a
    } else {
        a.take(20)
    }
}

/// Parameters of an LTFS format (mkltfs).
pub struct MkltfsParams {
    /// At most 20 ASCII characters.
    pub barcode: String,
    pub volume_label: String,
    /// 0 or 1.
    pub extra_partition_count: u8,
    /// 512 to 2097152 bytes.
    pub block_length: u32,
    pub immediate_mode: bool,
    /// 65535 for the full capacity.
    pub capacity: u16,
    /// Index partition size in GB; 65535 for the rest of the tape.
    pub p0_size: u16,
    /// Data partition size in GB; 65535 for the rest of the tape.
    pub p1_size: u16,
    pub encryption_key: Option<Vec<u8>>,
}

/// The parameters pass `validate`.
pub open spec fn params_valid(p: MkltfsParams) -> bool {
    &&& 512 <= p.block_length <= 2_097_152
    &&& p.extra_partition_count <= 1
    &&& !(p.p0_size == 0xFFFF && p.p1_size == 0xFFFF)
    &&& (vstd::utf8::encode_utf8(p.barcode@).len() as usize) <= 20
}

impl Default for MkltfsParams {
    fn default() -> (p: Self)
        ensures
            p.barcode@ == Seq::<char>::empty(),
            p.volume_label@ == Seq::<char>::empty(),
            p.extra_partition_count == 1,
            p.block_length == 524288,
            p.immediate_mode,
            p.capacity == 0xFFFF,
            p.p0_size == 1,
            p.p1_size == 0xFFFF,
            p.encryption_key is None,
    {
        MkltfsParams {
            barcode: String::new(),
            volume_label: String::new(),
            extra_partition_count: 1,
            block_length: 524288,
            immediate_mode: true,
            capacity: 0xFFFF,
            p0_size: 1,
            p1_size: 0xFFFF,
            encryption_key: None,
        }
    }
}

impl MkltfsParams {
    /// The default parameters, with at most `max_extra_partitions` extra partitions.
    pub fn new(max_extra_partitions: u8) -> (p: Self)
        ensures
            p.barcode@ == Seq::<char>::empty(),
            p.volume_label@ == Seq::<char>::empty(),
            p.extra_partition_count == if max_extra_partitions < 1 { max_extra_partitions } else { 1 },
            p.block_length == 524288,
            p.immediate_mode,
            p.capacity == 0xFFFF,
            p.p0_size == 1,
            p.p1_size == 0xFFFF,
            p.encryption_key is None,
    {
        let mut params = MkltfsParams::default();
        if max_extra_partitions < params.extra_partition_count {
            params.extra_partition_count = max_extra_partitions;
        }
        params
    }

    /// Keeps the ASCII characters of `barcode`, at most 20 of them.
    pub fn set_barcode(&mut self, barcode: &str) -> (r: &mut Self)
        ensures
            r.barcode@ == barcode_of(barcode@),
            r.volume_label == old(self).volume_label,
            r.extra_partition_count == old(self).extra_partition_count,
            r.block_length == old(self).block_length,
            r.immediate_mode == old(self).immediate_mode,
            r.capacity == old(self).capacity,
            r.p0_size == old(self).p0_size,
            r.p1_size == old(self).p1_size,
            r.encryption_key == old(self).encryption_key,
            *final(self) == *final(r),
    {
        let cs = str_to_chars(barcode);
        let mut kept: Vec<char> = Vec::new();
        let mut i: usize = 0;
        while i < cs.len() && kept.len() < 20
            invariant
                i <= cs@.len(),
                kept@.len() <= 20,
                kept@ == barcode_of(cs@.take(i as int)),
            decreases cs@.len() - i,
        {
            assert(cs@.take(i + 1).drop_last() =~= cs@.take(i as int));
            let c = cs[i];
            if c <= '\u{7f}' {
                kept.push(c);
            }
            i = i + 1;
        }
        proof {
            lemma_barcode_prefix(cs@, i as int);
        }
        self.barcode = chars_to_string(&kept);
        self
    }

    /// Sets the index partition size; the data partition takes the rest of
    /// the tape unless the index partition does, in which case it gets 1 GB.
    pub fn set_p0_size(&mut self, size: u16) -> (r: &mut Self)
        ensures
            r.p0_size == size,
            r.p1_size == if size < 0xFFFF { 0xFFFFu16 } else { 1u16 },
            r.barcode == old(self).barcode,
            r.volume_label == old(self).volume_label,
            r.extra_partition_count == old(self).extra_partition_count,
            r.block_length == old(self).block_length,
            r.immediate_mode == old(self).immediate_mode,
            r.capacity == old(self).capacity,
            r.encryption_key == old(self).encryption_key,
            *final(self) == *final(r),
    {
        self.p0_size = size;
        if size < 0xFFFF {
            self.p1_size = 0xFFFF;
        } else {
            self.p1_size = 1;
        }
        self
    }

    /// Sets the data partition size; the index partition takes the rest of
    /// the tape unless the data partition does, in which case it gets 1 GB.
    pub fn set_p1_size(&mut self, size: u16) -> (r: &mut Self)
        ensures
            r.p1_size == size,
            r.p0_size == if size < 0xFFFF { 0xFFFFu16 } else { 1u16 },
            r.barcode == old(self).barcode,
            r.volume_label == old(self).volume_label,
            r.extra_partition_count == old(self).extra_partition_count,
            r.block_length == old(self).block_length,
            r.immediate_mode == old(self).immediate_mode,
            r.capacity == old(self).capacity,
            r.encryption_key == old(self).encryption_key,
            *final(self) == *final(r),
    {
        self.p1_size = size;
        if size < 0xFFFF {
            self.p0_size = 0xFFFF;
        } else {
            self.p0_size = 1;
        }
        self
    }

    /// Checks the block length, the number of extra partitions, that at most
    /// one partition takes the rest of the tape, and the barcode length.
    pub fn validate(&self) -> (r: Result<(), RustLtfsError>)
        ensures
            r is Ok <==> params_valid(*self),
            r matches Err(e) ==> e is ParameterValidation,
    {
        if self.block_length < 512 || self.block_length > 2_097_152 {
            let mut m: Vec<char> = Vec::new();
            push_str(&mut m, "Block length must be between 512 and 2097152, got ");
            push_chars(&mut m, &decimal_exec(self.block_length as u64));
            return Err(RustLtfsError::ParameterValidation(chars_to_string(&m)));
        }
        if self.extra_partition_count > 1 {
            let mut m: Vec<char> = Vec::new();
            push_str(&mut m, "Extra partition count must be 0 or 1, got ");
            push_chars(&mut m, &decimal_exec(self.extra_partition_count as u64));
            return Err(RustLtfsError::ParameterValidation(chars_to_string(&m)));
        }
        if self.p0_size == 0xFFFF && self.p1_size == 0xFFFF {
            return Err(RustLtfsError::ParameterValidation(
                "P0Size and P1Size cannot both be 65535 (maximum value)".to_owned(),
            ));
        }
        let len = self.barcode.as_str().len();
        if len > 20 {
            let mut m: Vec<char> = Vec::new();
            push_str(&mut m, "Barcode length must not exceed 20 characters, got ");
            push_chars(&mut m, &decimal_exec(len as u64));
            return Err(RustLtfsError::ParameterValidation(chars_to_string(&m)));
        }
        Ok(())
    }
}

proof fn lemma_ascii_only_prefix(s: Seq<char>, i: int)
    requires
        0 <= i <= s.len(),
    ensures
        ascii_only(s.take(i)).len() <= ascii_only(s).len(),
        ascii_only(s).take(ascii_only(s.take(i)).len() as int) == ascii_only(s.take(i)),
    decreases s.len(),
{
    if i == s.len() {
        assert(s.take(i) =~= s);
        assert(ascii_only(s).take(ascii_only(s).len() as int) =~= ascii_only(s));
    } else {
        assert(s.drop_last().take(i) =~= s.take(i));
        lemma_ascii_only_prefix(s.drop_last(), i);
        let a = ascii_only(s.drop_last());
        let k = ascii_only(s.take(i)).len() as int;
        assert(a.push(s.last()).take(k) =~= a.take(k));
    }
}

proof fn lemma_barcode_prefix(s: Seq<char>, i: int)
    requires
        0 <= i <= s.len(),
        i == s.len() || barcode_of(s.take(i)).len() == 20,
    ensures
        barcode_of(s.take(i)) == barcode_of(s),
{
    if i == s.len() {
        assert(s.take(i) =~= s);
    } else {
        lemma_ascii_only_prefix(s, i);
        let a = ascii_only(s);
        let b = ascii_only(s.take(i));
        assert(b.len() >= 20);
        assert(a.take(b.len() as int).take(20) =~= a.take(20));
        assert(b.take(20) =~= a.take(20));
        if b.len() == 20 {
            assert(b.take(20) =~= b);
        }
    }
}


proof fn lemma_char_at_least_nul(c: char)
    ensures
        '\0' <= c,
{
    assert((c as u32) >= 0);
}

proof fn lemma_ascii_only_ascii(s: Seq<char>)
    ensures
        vstd::utf8::is_ascii_chars(ascii_only(s)),
    decreases s.len(),
{
    if s.len() > 0 {
        lemma_ascii_only_ascii(s.drop_last());
        let a = ascii_only(s.drop_last());
        if s.last() <= '\u{7f}' {
            assert forall|i: int| 0 <= i < a.push(s.last()).len() implies '\0' <= #[trigger] a.push(
                s.last(),
            )[i] <= '\u{7f}' by {
                if i < a.len() {
                    assert(a.push(s.last())[i] == a[i]);
                } else {
                    assert(a.push(s.last())[i] == s.last());
                    lemma_char_at_least_nul(s.last());
                }
            }
        }
    }
}

/// A kept barcode is at most 20 bytes long.
proof fn lemma_barcode_bytes(s: Seq<char>)
    ensures
        vstd::utf8::encode_utf8(barcode_of(s)).len() <= 20,
{
    lemma_ascii_only_ascii(s);
    let a = ascii_only(s);
    let b = barcode_of(s);
    assert(vstd::utf8::is_ascii_chars(b)) by {
        assert forall|i: int| 0 <= i < b.len() implies '\0' <= #[trigger] b[i] <= '\u{7f}' by {
            assert(b[i] == a[i]);
        }
    }
    vstd::utf8::is_ascii_chars_encode_utf8(b);
}

/// The parameters `new` builds pass `validate`.
pub proof fn law_new_params_are_valid(p: MkltfsParams, max_extra_partitions: u8)
    requires
        p.barcode@ == Seq::<char>::empty(),
        p.extra_partition_count == if max_extra_partitions < 1 { max_extra_partitions } else { 1 },
        p.block_length == 524288,
        p.p0_size == 1,
        p.p1_size == 0xFFFF,
    ensures
        params_valid(p),
{
    assert(vstd::utf8::encode_utf8(p.barcode@) =~= Seq::<u8>::empty());
}

/// Setting the barcode keeps valid parameters valid.
pub proof fn law_set_barcode_keeps_params_valid(p: MkltfsParams, q: MkltfsParams, barcode: Seq<char>)
    requires
        params_valid(p),
        q.barcode@ == barcode_of(barcode),
        q.extra_partition_count == p.extra_partition_count,
        q.block_length == p.block_length,
        q.p0_size == p.p0_size,
        q.p1_size == p.p1_size,
    ensures
        params_valid(q),
{
    lemma_barcode_bytes(barcode);
}

/// Setting either partition size keeps valid parameters valid: at most one
/// of the two partitions takes the rest of the tape.
pub proof fn law_set_partition_size_keeps_params_valid(p: MkltfsParams, q: MkltfsParams, size: u16, index_partition: bool)
    requires
        params_valid(p),
        index_partition ==> q.p0_size == size && q.p1_size == (if size < 0xFFFF { 0xFFFFu16 } else { 1u16 }),
        !index_partition ==> q.p1_size == size && q.p0_size == (if size < 0xFFFF { 0xFFFFu16 } else { 1u16 }),
        q.barcode == p.barcode,
        q.extra_partition_count == p.extra_partition_count,
        q.block_length == p.block_length,
    ensures
        params_valid(q),
{
}


/// The 80-byte VOL1 label carrying volume identifier `id`: "VOL1", the
/// first (at most 6) bytes of `id` from byte 4, "LTFS" at byte 24, zeros
/// elsewhere.
pub open spec fn vol1_label_with_id(id: Seq<u8>) -> Seq<u8> {
    Seq::new(
        80,
        |i: int|
            if i < 4 {
                vol1_tag()[i]
            } else if 4 <= i < 4 + (if id.len() < 6 { id.len() as int } else { 6 }) {
                id[i - 4]
            } else if 24 <= i < 28 {
                ltfs_tag()[i - 24]
            } else {
                0u8
            },
    )
}

/// A label made by `create_ltfs_volume_label` is accepted as an LTFS VOL1
/// label, whatever its volume identifier.
pub proof fn law_created_volume_label_is_ltfs_vol1(id: Seq<u8>)
    ensures
        is_ltfs_vol1_label(vol1_label_with_id(id)),
{
    let l = vol1_label_with_id(id);
    assert(l.subrange(0, 4) =~= vol1_tag());
    assert(l.subrange(24, 28) =~= ltfs_tag());
}

/// The UNIX time in seconds (`chrono::Utc::now().timestamp()`).  It reads
/// the clock, so nothing is stated of it.
#[verifier::external_body]
pub(crate) fn unix_timestamp() -> i64 {
    chrono::Utc::now().timestamp()
}


/// `n` printed with `{:06}`: at least six characters, zero padded after
/// the sign.
pub open spec fn six_digits(n: int) -> Seq<char> {
    if n >= 0 {
        zero_pad(decimal(n as nat), 6)
    } else {
        seq!['-'] + zero_pad(decimal((-n) as nat), 5)
    }
}

fn six_digits_exec(n: i64) -> (r: Vec<char>)
    requires
        -1000000 < n < 1000000,
    ensures
        r@ == six_digits(n as int),
{
    if n >= 0 {
        let d = decimal_exec(n as u64);
        zero_pad_exec(&d, 6)
    } else {
        let d = decimal_exec((-n) as u64);
        let p = zero_pad_exec(&d, 5);
        let mut r: Vec<char> = Vec::new();
        r.push('-');
        push_chars(&mut r, &p);
        assert(r@ =~= seq!['-'] + p@);
        r
    }
}

impl TapeOperations {
    /// The VOL1 label for a format with `params`: the volume identifier is
    /// the volume label, or the UNIX time modulo 1000000 printed on six
    /// digits when the volume label is empty.
    pub fn create_ltfs_volume_label(&self, params: &MkltfsParams, extra_partition_count: u8) -> (r: Result<Vec<u8>, RustLtfsError>)
        ensures
            r matches Ok(v) && is_ltfs_vol1_label(v@) && v@.len() == 80 && (params.volume_label@.len() > 0 ==> v@
                == vol1_label_with_id(vstd::utf8::encode_utf8(params.volume_label@))),
    {
        let id: String = if params.volume_label.as_str().is_empty() {
            let t = unix_timestamp();
            let digits = six_digits_exec(t % 1000000);
            chars_to_string(&digits)
        } else {
            params.volume_label.clone()
        };
        let id_bytes = id.as_str().as_bytes();
        let copy_len: usize = if id_bytes.len() < 6 { id_bytes.len() } else { 6 };
        let vol1: [u8; 4] = [0x56, 0x4F, 0x4C, 0x31];
        let ltfs: [u8; 4] = [0x4C, 0x54, 0x46, 0x53];
        assert(vol1@ == vol1_tag());
        assert(ltfs@ == ltfs_tag());
        let ghost want = vol1_label_with_id(id_bytes@);
        let mut label: Vec<u8> = Vec::new();
        let mut i: usize = 0;
        while i < 80
            invariant
                i <= 80,
                label@.len() == i,
                copy_len as int == (if id_bytes@.len() < 6 { id_bytes@.len() as int } else { 6 }),
                vol1@ == vol1_tag(),
                ltfs@ == ltfs_tag(),
                want == vol1_label_with_id(id_bytes@),
                forall|j: int| 0 <= j < i ==> label@[j] == want[j],
            decreases 80 - i,
        {
            let b: u8 = if i < 4 {
                vol1[i]
            } else if i < 4 + copy_len {
                id_bytes[i - 4]
            } else if 24 <= i && i < 28 {
                ltfs[i - 24]
            } else {
                0
            };
            label.push(b);
            i = i + 1;
        }
        assert(label@ =~= want);
        proof {
            law_created_volume_label_is_ltfs_vol1(id_bytes@);
        }
        Ok(label)
    }

    /// The partition label of a block that holds "LTFS": volume UUID
    /// "detected-ltfs-volume", format time now; an error otherwise.
    pub fn parse_partition_label(&self, buffer: &[u8]) -> (r: Result<LtfsPartitionLabel, RustLtfsError>)
        ensures
            match r {
                Ok(l) => ltfs_signature_at(buffer@) >= 0 && l.volume_uuid@ == "detected-ltfs-volume"@
                    && l.blocksize == crate::ops::LTO_BLOCK_SIZE && l.index_partition == 0 && l.data_partition == 1
                    && !l.compression,
                Err(e) => ltfs_signature_at(buffer@) == -1 && e is LtfsIndex,
            },
    {
        let mut label = LtfsPartitionLabel::default();
        if find_ltfs_signature(buffer).is_some() {
            label.volume_uuid = "detected-ltfs-volume".to_owned();
            label.format_time = now_rfc3339();
            Ok(label)
        } else {
            Err(RustLtfsError::LtfsIndex("No LTFS partition label found".to_owned()))
        }
    }
}


/// The format state of a tape as the format operations see it.
#[derive(Debug, Clone, Copy, PartialEq, Eq, Structural)]
pub enum LtfsFormatStatus {
    Formatted,
    UnknownFormat,
    Empty,
}

impl LtfsFormatStatus {
    pub fn is_ltfs_formatted(&self) -> (b: bool)
        ensures
            b == (*self == LtfsFormatStatus::Formatted),
    {
        match self {
            LtfsFormatStatus::Formatted => true,
            _ => false,
        }
    }

    pub fn description(&self) -> (s: &'static str)
        ensures
            s@ == match self {
                LtfsFormatStatus::Formatted => "LTFS formatted"@,
                LtfsFormatStatus::UnknownFormat => "Unknown format"@,
                LtfsFormatStatus::Empty => "Empty tape"@,
            },
    {
        match self {
            LtfsFormatStatus::Formatted => "LTFS formatted",
            LtfsFormatStatus::UnknownFormat => "Unknown format",
            LtfsFormatStatus::Empty => "Empty tape",
        }
    }
}

impl TapeOperations {
    /// The partition type of MODE SELECT for the drive: 1, the standard
    /// type.
    pub fn get_partition_type_for_drive(&self) -> (t: u8)
        ensures
            t == 1,
    {
        1
    }
}

} // verus!
