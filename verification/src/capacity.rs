use vstd::prelude::*;
use crate::error::RustLtfsError;

verus! {

/// 256 to the power `n`.
pub open spec fn pow256(n: nat) -> nat
    decreases n,
{
    if n == 0 {
        1
    } else {
        256 * pow256((n - 1) as nat)
    }
}

/// The unsigned big-endian number held in the `n` bytes of `d` that start at `start`.
pub open spec fn be_value(d: Seq<u8>, start: int, n: nat) -> nat
    decreases n,
{
    if n == 0 {
        0
    } else {
        be_value(d, start, (n - 1) as nat) * 256 + d[start + n - 1] as nat
    }
}

proof fn lemma_be_value_bound(d: Seq<u8>, start: int, n: nat)
    ensures
        be_value(d, start, n) < pow256(n),
    decreases n,
{
    if n > 0 {
        lemma_be_value_bound(d, start, (n - 1) as nat);
        let p = be_value(d, start, (n - 1) as nat);
        let q = pow256((n - 1) as nat);
        let b = d[start + n - 1] as nat;
        assert(p * 256 + b < q * 256) by (nonlinear_arith)
            requires
                p < q,
                b < 256,
        ;
    }
}

/// Reads `n` (at most 8) bytes of `d` from `start` as a big-endian number.
pub fn read_be(d: &[u8], start: usize, n: usize) -> (v: u64)
    requires
        n <= 8,
        start + n <= d@.len(),
    ensures
        v as nat == be_value(d@, start as int, n as nat),
{
    proof {
        reveal_with_fuel(pow256, 9);
        assert(pow256(8) == 0x1_0000_0000_0000_0000);
    }
    let mut v: u64 = 0;
    let mut k: usize = 0;
    while k < n
        invariant
            k <= n <= 8,
            start + n <= d@.len(),
            d@.len() == d.len(),
            v as nat == be_value(d@, start as int, k as nat),
            pow256(8) == 0x1_0000_0000_0000_0000,
        decreases n - k,
    {
        proof {
            lemma_be_value_bound(d@, start as int, (k + 1) as nat);
            lemma_pow256_mono((k + 1) as nat, 8);
        }
        v = v * 256 + d[start + k] as u64;
        k = k + 1;
    }
    v
}

proof fn lemma_pow256_mono(a: nat, b: nat)
    requires
        a <= b,
    ensures
        pow256(a) <= pow256(b),
    decreases b,
{
    if a < b {
        lemma_pow256_mono(a, (b - 1) as nat);
    }
}

/// The value of the parameter whose code is `code` found while walking the
/// parameter entries of a LOG SENSE page from `offset`; entries are only
/// read before `4 + page_length`.  0 when the parameter is missing or its
/// data is too short.
pub open spec fn capacity_scan(d: Seq<u8>, code: int, page_length: int, offset: int) -> nat
    decreases d.len() - offset,
{
    if offset < 4 || !(offset + 4 <= d.len() && offset < 4 + page_length) {
        0
    } else {
        let current = be_value(d, offset, 2);
        let plen = d[offset + 3] as int;
        let data_start = offset + 4;
        if current == code {
            if data_start + plen > d.len() {
                if d.len() - data_start >= 4 {
                    be_value(d, data_start, 4)
                } else {
                    0
                }
            } else if plen >= 8 {
                be_value(d, data_start, 8)
            } else if plen >= 4 {
                be_value(d, data_start, 4)
            } else {
                0
            }
        } else if data_start + plen > d.len() {
            0
        } else {
            capacity_scan(d, code, page_length, data_start + plen)
        }
    }
}

/// The capacity value stored under parameter `code` in a capacity log page
/// (0 when the page is shorter than its 4-byte header).
pub open spec fn capacity_value(d: Seq<u8>, code: int) -> nat {
    if d.len() < 4 {
        0
    } else {
        capacity_scan(d, code, be_value(d, 2, 2) as int, 4)
    }
}

/// The value of a parameter entry of a capacity page, read from the
/// bytes: the first entry (at byte 4) carries the wanted code `c` in bytes
/// 4 and 5 and its data length in byte 7.  A length of 4 to 7 bytes gives
/// the 4 data bytes from byte 8 as a big-endian number, a length of 8 or
/// more the 8 data bytes; a shorter one gives 0.
pub proof fn law_capacity_first_entry(d: Seq<u8>, c: int)
    requires
        d.len() >= 8,
        d[2] as int * 256 + d[3] as int >= 1,
        d[4] as int * 256 + d[5] as int == c,
        8 + d[7] as int <= d.len(),
    ensures
        4 <= d[7] < 8 ==> capacity_value(d, c) == d[8] as int * 16777216 + d[9] as int * 65536 + d[10] as int
            * 256 + d[11] as int,
        d[7] >= 8 ==> capacity_value(d, c) == d[8] as int * 72057594037927936 + d[9] as int * 281474976710656
            + d[10] as int * 1099511627776 + d[11] as int * 4294967296 + d[12] as int * 16777216 + d[13] as int
            * 65536 + d[14] as int * 256 + d[15] as int,
        d[7] < 4 ==> capacity_value(d, c) == 0,
{
    reveal_with_fuel(be_value, 9);
    reveal_with_fuel(capacity_scan, 2);
}

/// An entry of another code is stepped over: when the first entry (code
/// in bytes 4 and 5, data length `l` in byte 7) does not carry `c` and the
/// second one (at byte `8 + l`, inside the page) does, with 4 to 7 data
/// bytes, the value is the 4 bytes after the second entry's header.
pub proof fn law_capacity_second_entry(d: Seq<u8>, c: int)
    requires
        d.len() >= 8,
        d[4] as int * 256 + d[5] as int != c,
        8 + d[7] as int + 8 <= d.len(),
        d[2] as int * 256 + d[3] as int >= 4 + d[7] as int + 1,
        d[8 + d[7] as int] as int * 256 + d[9 + d[7] as int] as int == c,
        4 <= d[11 + d[7] as int] < 8,
        12 + d[7] as int + d[11 + d[7] as int] as int <= d.len(),
    ensures
        capacity_value(d, c) == d[12 + d[7] as int] as int * 16777216 + d[13 + d[7] as int] as int * 65536
            + d[14 + d[7] as int] as int * 256 + d[15 + d[7] as int] as int,
{
    reveal_with_fuel(be_value, 5);
    reveal_with_fuel(capacity_scan, 3);
    let l = d[7] as int;
    assert(capacity_scan(d, c, be_value(d, 2, 2) as int, 4) == capacity_scan(d, c, be_value(d, 2, 2) as int, 8 + l));
}

/// Remaining and maximum capacity (in KB) of the two partitions, as the
/// tape capacity log page reports them.
#[derive(Debug, Clone)]
pub struct TapeCapacityInfo {
    pub p0_remaining: u64,
    pub p0_maximum: u64,
    pub p1_remaining: u64,
    pub p1_maximum: u64,
}

/// Parser of the tape capacity log page (page 0x31).
pub struct CapacityPageParser {
    page_data: Vec<u8>,
}

impl View for CapacityPageParser {
    type V = Seq<u8>;

    closed spec fn view(&self) -> Seq<u8> {
        self.page_data@
    }
}

impl CapacityPageParser {
    pub fn new(page_data: Vec<u8>) -> (p: Self)
        ensures
            p@ == page_data@,
    {
        CapacityPageParser { page_data }
    }

    /// Remaining capacity of `partition_id` (parameter code `partition_id + 1`).
    pub fn get_remaining_capacity(&self, partition_id: u8) -> (r: Result<u64, RustLtfsError>)
        requires
            partition_id < 255,
        ensures
            r matches Ok(v) && v as nat == capacity_value(self@, partition_id + 1),
    {
        let param_code = partition_id + 1;
        self.extract_capacity_value(param_code)
    }

    /// Maximum capacity of `partition_id` (parameter code `partition_id + 3`).
    pub fn get_maximum_capacity(&self, partition_id: u8) -> (r: Result<u64, RustLtfsError>)
        requires
            partition_id < 253,
        ensures
            r matches Ok(v) && v as nat == capacity_value(self@, partition_id + 3),
    {
        let param_code = partition_id + 3;
        self.extract_capacity_value(param_code)
    }

    /// Walks the parameter entries of the page looking for `param_code`.
    pub fn extract_capacity_value(&self, param_code: u8) -> (r: Result<u64, RustLtfsError>)
        ensures
            r matches Ok(v) && v as nat == capacity_value(self@, param_code as int),
    {
        let d = self.page_data.as_slice();
        if d.len() < 4 {
            return Ok(0);
        }
        proof {
            lemma_be_value_bound(d@, 2, 2);
            reveal_with_fuel(pow256, 3);
            assert(pow256(2) == 65536);
        }
        let page_length = read_be(d, 2, 2) as usize;
        let ghost code = param_code as int;
        let mut offset: usize = 4;
        while d.len() - offset >= 4 && offset < 4 + page_length
            invariant
                4 <= offset <= d@.len(),
                d@ == self@,
                d@.len() == d.len(),
                code == param_code as int,
                page_length as nat == be_value(d@, 2, 2),
                be_value(d@, 2, 2) < 65536,
                capacity_value(d@, code) == capacity_scan(d@, code, page_length as int, offset as int),
            decreases d@.len() - offset,
        {
            let current = read_be(d, offset, 2);
            let plen = d[offset + 3] as usize;
            let data_start = offset + 4;
            if current == param_code as u64 {
                if plen > d.len() - data_start {
                    if d.len() - data_start >= 4 {
                        return Ok(read_be(d, data_start, 4));
                    } else {
                        return Ok(0);
                    }
                }
                if plen >= 8 {
                    return Ok(read_be(d, data_start, 8));
                } else if plen >= 4 {
                    return Ok(read_be(d, data_start, 4));
                } else {
                    return Ok(0);
                }
            }
            if plen > d.len() - data_start {
                return Ok(0);
            }
            offset = data_start + plen;
        }
        Ok(0)
    }
}

} // verus!
