use vstd::prelude::*;
use crate::error::RustLtfsError;
use crate::ops::TapeOperations;

verus! {

/// Capacity of the loaded tape as LOG SENSE page 0x31 gives it, in bytes.
/// (The typical compression ratio the drive layer quotes alongside is a
/// display value and is left to the caller.)
#[derive(Debug, Clone)]
pub struct TapeCapacityInfo {
    pub total_capacity: u64,
    pub used_capacity: u64,
    pub free_capacity: u64,
    pub tape_type: String,
}

/// The 32-bit big-endian number at `i` of `d`.
pub open spec fn be32(d: Seq<u8>, i: int) -> nat {
    d[i] as nat * 0x1000000 + d[i + 1] as nat * 0x10000 + d[i + 2] as nat * 0x100 + d[i + 3] as nat
}

/// 12 TiB, the native capacity of LTO-8.
pub open spec fn lto8_capacity() -> nat {
    12 * 1024 * 1024 * 1024 * 1024
}

fn be32_exec(d: &[u8], i: usize) -> (n: u64)
    requires
        i + 4 <= d@.len(),
    ensures
        n as nat == be32(d@, i as int),
        n < 0x1_0000_0000,
{
    (d[i] as u64) * 0x1000000 + (d[i + 1] as u64) * 0x10000 + (d[i + 2] as u64) * 0x100 + (d[i + 3] as u64)
}

impl TapeOperations {
    /// The capacity assumed without a readable log page: an empty LTO-8
    /// tape of 12 TiB.
    pub fn estimate_tape_capacity(&self) -> (r: Result<TapeCapacityInfo, RustLtfsError>)
        ensures
            r matches Ok(c) && c.total_capacity == lto8_capacity() && c.used_capacity == 0 && c.free_capacity
                == lto8_capacity() && c.tape_type@ == "LTO-8"@,
    {
        Ok(TapeCapacityInfo {
            total_capacity: 12 * 1024 * 1024 * 1024 * 1024,
            used_capacity: 0,
            free_capacity: 12 * 1024 * 1024 * 1024 * 1024,
            tape_type: "LTO-8".to_owned(),
        })
    }

    /// The capacity in a LOG SENSE page: total and used MiB as 32-bit
    /// big-endian numbers at bytes 8 and 12; a page shorter than 16 bytes
    /// gives the LTO-8 estimate.
    pub fn parse_capacity_log_data(&self, log_data: &[u8]) -> (r: Result<TapeCapacityInfo, RustLtfsError>)
        requires
            log_data@.len() >= 16 ==> be32(log_data@, 12) <= be32(log_data@, 8),
        ensures
            log_data@.len() < 16 ==> (r matches Ok(c) && c.total_capacity == lto8_capacity() && c.used_capacity
                == 0 && c.free_capacity == lto8_capacity() && c.tape_type@ == "LTO-8"@),
            log_data@.len() >= 16 ==> (r matches Ok(c) && c.total_capacity == be32(log_data@, 8) * 0x100000
                && c.used_capacity == be32(log_data@, 12) * 0x100000 && c.free_capacity == (be32(log_data@, 8)
                - be32(log_data@, 12)) * 0x100000 && c.tape_type@ == "LTO-8"@),
    {
        if log_data.len() < 16 {
            return self.estimate_tape_capacity();
        }
        let total = be32_exec(log_data, 8);
        let used = be32_exec(log_data, 12);
        Ok(TapeCapacityInfo {
            total_capacity: total * 1024 * 1024,
            used_capacity: used * 1024 * 1024,
            free_capacity: (total - used) * 1024 * 1024,
            tape_type: "LTO-8".to_owned(),
        })
    }

    /// The tape's capacity: offline the LTO-8 figures; otherwise from the
    /// LOG SENSE page 0x31 reply (`log_page`), or the estimate when the
    /// command failed.
    pub fn get_tape_capacity(&self, log_page: Result<Vec<u8>, RustLtfsError>) -> (r: Result<TapeCapacityInfo, RustLtfsError>)
        requires
            log_page matches Ok(d) ==> (d@.len() >= 16 ==> be32(d@, 12) <= be32(d@, 8)),
        ensures
            r matches Ok(c) && if self.offline_mode || log_page is Err || (log_page matches Ok(d) && d@.len()
                < 16) {
                c.total_capacity == lto8_capacity() && c.used_capacity == 0 && c.free_capacity == lto8_capacity()
                    && c.tape_type@ == "LTO-8"@
            } else {
                let d = log_page->Ok_0@;
                c.total_capacity == be32(d, 8) * 0x100000 && c.used_capacity == be32(d, 12) * 0x100000
                    && c.free_capacity == (be32(d, 8) - be32(d, 12)) * 0x100000 && c.tape_type@ == "LTO-8"@
            },
    {
        if self.offline_mode {
            return Ok(TapeCapacityInfo {
                total_capacity: 12 * 1024 * 1024 * 1024 * 1024,
                used_capacity: 0,
                free_capacity: 12 * 1024 * 1024 * 1024 * 1024,
                tape_type: "LTO-8".to_owned(),
            });
        }
        match log_page {
            Ok(d) => self.parse_capacity_log_data(d.as_slice()),
            Err(_) => self.estimate_tape_capacity(),
        }
    }
}

} // verus!
