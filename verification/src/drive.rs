use vstd::prelude::*;
use crate::capacity::{capacity_value, CapacityPageParser, TapeCapacityInfo};
use crate::error::RustLtfsError;
use crate::ops::TapeOperations;
use crate::partition::{extra_count_from_mode_sense, normalized_extra_count, strategy_for, PartitionStrategy};
use crate::text::{chars_to_string, str_to_chars, trim_end_char};
use crate::validator::utf8_lossy;

verus! {

/// Space on the tape, in bytes.
#[derive(Debug, Clone)]
pub struct TapeSpaceInfo {
    pub total_capacity: u64,
    pub used_space: u64,
    pub available_space: u64,
}

/// State of the drive's cleaning.
#[derive(Debug, Clone)]
pub struct CleaningStatus {
    pub cleaning_required: bool,
    pub cycles_used: u32,
    pub cycles_remaining: u32,
    pub last_cleaning: Option<String>,
}

/// State of the drive's encryption.
#[derive(Debug, Clone)]
pub struct EncryptionStatus {
    pub encryption_enabled: bool,
    pub encryption_algorithm: Option<String>,
    pub key_management: Option<String>,
}

/// Identity of the loaded medium.
#[derive(Debug, Clone)]
pub struct TapeMediumInfo {
    pub barcode: String,
    pub medium_type: String,
    pub medium_serial: String,
}

pub open spec fn sat(a: nat, b: nat) -> nat {
    if a >= b { (a - b) as nat } else { 0 }
}

/// Used and total space (bytes) from the capacity log values (KB): on a
/// tape with extra partitions the total is what remains on both partitions
/// and the used space is counted when both maxima are known; otherwise
/// partition 0 alone.
pub open spec fn space_from_capacity(c: TapeCapacityInfo, extra: u8) -> (nat, nat) {
    if extra > 0 {
        let total = ((c.p0_remaining + c.p1_remaining) * 1024) as nat;
        let used = if c.p0_maximum > 0 && c.p1_maximum > 0 {
            (sat(c.p0_maximum as nat, c.p0_remaining as nat) + sat(c.p1_maximum as nat, c.p1_remaining as nat)) * 1024
        } else {
            0
        };
        (used, total)
    } else {
        (sat(c.p0_maximum as nat, c.p0_remaining as nat) * 1024, (c.p0_maximum * 1024) as nat)
    }
}

/// The cleaning status a LOG SENSE page 0x3E reply gives: bit 0 of byte 4
/// asks for cleaning and byte 6 counts the cycles used, out of 50.
pub open spec fn cleaning_from_log(d: Seq<u8>) -> (bool, u32, u32) {
    if d.len() < 8 {
        (false, 0, 50)
    } else {
        let used = d[6] as u32;
        (d[4] % 2 == 1, used, if used <= 50 { (50 - used) as u32 } else { 0 })
    }
}

impl TapeOperations {
    /// The remaining and maximum capacity of the partitions from the
    /// capacity log page (`log_page`, `None` when LOG SENSE failed: all 0).
    /// Partition 1 is only read on a tape with extra partitions.
    pub fn refresh_capacity(&self, log_page: Option<Vec<u8>>) -> (r: Result<TapeCapacityInfo, RustLtfsError>)
        ensures
            r matches Ok(c) && match log_page {
                None => c.p0_remaining == 0 && c.p0_maximum == 0 && c.p1_remaining == 0 && c.p1_maximum == 0,
                Some(d) => {
                    &&& c.p0_remaining as nat == capacity_value(d@, 1)
                    &&& c.p0_maximum as nat == capacity_value(d@, 3)
                    &&& c.p1_remaining as nat == if self.get_extra_partition_count_spec() > 0 {
                        capacity_value(d@, 2)
                    } else {
                        0
                    }
                    &&& c.p1_maximum as nat == if self.get_extra_partition_count_spec() > 0 {
                        capacity_value(d@, 4)
                    } else {
                        0
                    }
                },
            },
    {
        let mut info = TapeCapacityInfo { p0_remaining: 0, p0_maximum: 0, p1_remaining: 0, p1_maximum: 0 };
        let data = match log_page {
            Some(d) => d,
            None => {
                return Ok(info);
            },
        };
        let parser = CapacityPageParser::new(data);
        info.p0_remaining = match parser.get_remaining_capacity(0) {
            Ok(v) => v,
            Err(_) => 0,
        };
        info.p0_maximum = match parser.get_maximum_capacity(0) {
            Ok(v) => v,
            Err(_) => 0,
        };
        if self.get_extra_partition_count() > 0 {
            info.p1_remaining = match parser.get_remaining_capacity(1) {
                Ok(v) => v,
                Err(_) => 0,
            };
            info.p1_maximum = match parser.get_maximum_capacity(1) {
                Ok(v) => v,
                Err(_) => 0,
            };
        }
        Ok(info)
    }

    /// Total, used and available space in bytes from capacity values in KB
    /// (see `space_from_capacity`); the available space is the total minus
    /// the used space, or 0.
    pub fn get_tape_capacity_info(&self, capacity: &TapeCapacityInfo) -> (r: Result<TapeSpaceInfo, RustLtfsError>)
        requires
            space_from_capacity(*capacity, self.get_extra_partition_count_spec()).0 <= u64::MAX,
            space_from_capacity(*capacity, self.get_extra_partition_count_spec()).1 <= u64::MAX,
            self.get_extra_partition_count_spec() > 0 ==> capacity.p0_remaining * 1024 <= u64::MAX
                && capacity.p1_remaining * 1024 <= u64::MAX,
        ensures
            r matches Ok(s) && {
                let (used, total) = space_from_capacity(*capacity, self.get_extra_partition_count_spec());
                &&& s.used_space as nat == used
                &&& s.total_capacity as nat == total
                &&& s.available_space as nat == sat(total, used)
            },
    {
        let c = capacity;
        let (used_space, total_capacity): (u64, u64) = if self.get_extra_partition_count() > 0 {
            let p0_remaining_bytes = c.p0_remaining * 1024;
            let p1_remaining_bytes = c.p1_remaining * 1024;
            let total_remaining = p0_remaining_bytes + p1_remaining_bytes;
            let used = if c.p0_maximum > 0 && c.p1_maximum > 0 {
                let p0_used = if c.p0_maximum >= c.p0_remaining { c.p0_maximum - c.p0_remaining } else { 0 };
                let p1_used = if c.p1_maximum >= c.p1_remaining { c.p1_maximum - c.p1_remaining } else { 0 };
                (p0_used + p1_used) * 1024
            } else {
                0
            };
            (used, total_remaining)
        } else {
            let used_p0 = if c.p0_maximum >= c.p0_remaining { c.p0_maximum - c.p0_remaining } else { 0 };
            (used_p0 * 1024, c.p0_maximum * 1024)
        };
        let available = if total_capacity >= used_space { total_capacity - used_space } else { 0 };
        Ok(TapeSpaceInfo { total_capacity, used_space, available_space: available })
    }

    /// The cleaning status from a LOG SENSE page 0x3E reply (see
    /// `cleaning_from_log`).
    pub fn parse_cleaning_log_data(&self, log_data: &[u8]) -> (r: Result<CleaningStatus, RustLtfsError>)
        ensures
            r matches Ok(c) && (c.cleaning_required, c.cycles_used, c.cycles_remaining) == cleaning_from_log(log_data@)
                && c.last_cleaning is None,
    {
        if log_data.len() < 8 {
            return Ok(CleaningStatus { cleaning_required: false, cycles_used: 0, cycles_remaining: 50, last_cleaning: None });
        }
        let cleaning_required = (log_data[4] & 0x01) != 0;
        let flags = log_data[4];
        assert((flags & 1u8) != 0 <==> flags % 2 == 1) by (bit_vector);
        let cycles_used = log_data[6] as u32;
        let cycles_remaining = if cycles_used <= 50 { 50 - cycles_used } else { 0 };
        Ok(CleaningStatus { cleaning_required, cycles_used, cycles_remaining, last_cleaning: None })
    }

    /// The drive's cleaning status: nothing to do offline or when LOG SENSE
    /// failed (`log_page` is `None`), otherwise what the page says.
    pub fn get_cleaning_status(&self, log_page: Option<&[u8]>) -> (r: Result<CleaningStatus, RustLtfsError>)
        ensures
            r matches Ok(c) && (c.cleaning_required, c.cycles_used, c.cycles_remaining) == if self.offline_mode {
                (false, 0u32, 50u32)
            } else {
                match log_page {
                    Some(d) => cleaning_from_log(d@),
                    None => (false, 0u32, 50u32),
                }
            } && c.last_cleaning is None,
    {
        if self.offline_mode {
            return Ok(CleaningStatus { cleaning_required: false, cycles_used: 0, cycles_remaining: 50, last_cleaning: None });
        }
        match log_page {
            Some(d) => self.parse_cleaning_log_data(d),
            None => Ok(CleaningStatus { cleaning_required: false, cycles_used: 0, cycles_remaining: 50, last_cleaning: None }),
        }
    }

    /// Clearing the encryption key is not implemented by the drive layer;
    /// it always succeeds.
    pub fn clear_encryption_key(&mut self) -> (r: Result<(), RustLtfsError>)
        ensures
            r is Ok,
            *final(self) == *old(self),
    {
        Ok(())
    }

    /// Encryption is reported off; online, AES-256 with application
    /// managed keys is named.
    pub fn get_encryption_status(&self) -> (r: Result<EncryptionStatus, RustLtfsError>)
        ensures
            r matches Ok(s) && !s.encryption_enabled && if self.offline_mode {
                s.encryption_algorithm is None && s.key_management is None
            } else {
                (s.encryption_algorithm matches Some(a) && a@ == "AES-256"@) && (s.key_management matches Some(k)
                    && k@ == "Application Managed"@)
            },
    {
        if self.offline_mode {
            return Ok(EncryptionStatus { encryption_enabled: false, encryption_algorithm: None, key_management: None });
        }
        Ok(EncryptionStatus {
            encryption_enabled: false,
            encryption_algorithm: Some("AES-256".to_owned()),
            key_management: Some("Application Managed".to_owned()),
        })
    }

    /// Ejecting: `outcome` is what the eject command reported (`Ok(true)`
    /// ejected, `Ok(false)` unclear).  After a clear eject the index and the
    /// partition label are dropped; an eject error is passed on.
    pub fn eject_tape(&mut self, outcome: Result<bool, RustLtfsError>) -> (r: Result<(), RustLtfsError>)
        ensures
            old(self).offline_mode ==> r is Ok && *final(self) == *old(self),
            !old(self).offline_mode ==> match outcome {
                Ok(true) => r is Ok && final(self).index is None && final(self).partition_label is None
                    && final(self).offline_mode == old(self).offline_mode
                    && final(self).extra_partition_count == old(self).extra_partition_count,
                Ok(false) => r is Ok && *final(self) == *old(self),
                Err(e) => r == Err::<(), RustLtfsError>(e) && *final(self) == *old(self),
            },
    {
        if self.offline_mode {
            return Ok(());
        }
        match outcome {
            Ok(true) => {
                self.index = None;
                self.partition_label = None;
                Ok(())
            },
            Ok(false) => Ok(()),
            Err(e) => Err(e),
        }
    }

    /// Refuses a write larger than 8 TiB.
    pub fn check_available_space(&self, required_size: u64) -> (r: Result<(), RustLtfsError>)
        ensures
            r is Ok <==> required_size <= 8 * 1024 * 1024 * 1024 * 1024,
            r matches Err(e) ==> e is TapeDevice,
    {
        if required_size > 8 * 1024 * 1024 * 1024 * 1024 {
            return Err(RustLtfsError::TapeDevice("File too large for tape capacity".to_owned()));
        }
        Ok(())
    }

    /// The number of partitions (1 or 2): from the MODE SENSE page 0x11
    /// reply (byte 3 counts the extra partitions) when there is one of at
    /// least 4 bytes, 1 for a shorter one; when the command failed
    /// (`mode_sense` is `None`), 2 if partition 1 could be reached.
    pub fn detect_partition_count(&mut self, mode_sense: Option<&[u8]>, partition1_reachable: bool) -> (r: Result<u8, RustLtfsError>)
        requires
            match mode_sense {
                Some(d) => d@.len() >= 4 ==> d@[3] < 255,
                None => true,
            },
        ensures
            *final(self) == *old(self),
            r matches Ok(n) && n == match mode_sense {
                Some(d) => if d@.len() >= 4 {
                    if d@[3] + 1 > 2 { 2u8 } else { (d@[3] + 1) as u8 }
                } else {
                    1u8
                },
                None => if partition1_reachable { 2u8 } else { 1u8 },
            },
    {
        match mode_sense {
            Some(d) => {
                if d.len() >= 4 {
                    let total = d[3] + 1;
                    Ok(if total > 2 { 2 } else { total })
                } else {
                    Ok(1)
                }
            },
            None => Ok(if partition1_reachable { 2 } else { 1 }),
        }
    }

    /// Sets the extra-partition count from the MODE SENSE page 0x11 reply
    /// (`None` when the command failed): byte 3, at most 1 and at most the
    /// allowed maximum; 0 without a usable reply.  The session is marked
    /// modified when there are extra partitions.
    pub fn initialize_partition_detection(&mut self, mode_sense: Option<&[u8]>) -> (r: Result<(), RustLtfsError>)
        ensures
            r is Ok,
            final(self).extra_partition_count == Some(match mode_sense {
                Some(d) => if d@.len() >= 4 {
                    normalized_extra_count(d@[3], old(self).max_extra_partition_allowed)
                } else {
                    0u8
                },
                None => 0u8,
            }),
            final(self).modified == (final(self).extra_partition_count matches Some(n) && n > 0),
            final(self).max_extra_partition_allowed == old(self).max_extra_partition_allowed,
            final(self).index == old(self).index,
            final(self).offline_mode == old(self).offline_mode,
            final(self).write_options == old(self).write_options,
            final(self).write_progress == old(self).write_progress,
            final(self).partition_label == old(self).partition_label,
    {
        match mode_sense {
            Some(d) => {
                if d.len() >= 4 {
                    let detected = d[3];
                    let validated = if detected < 1 { detected } else { 1 };
                    let final_count = if validated < self.max_extra_partition_allowed {
                        validated
                    } else {
                        self.max_extra_partition_allowed
                    };
                    self.extra_partition_count = Some(final_count);
                    self.modified = final_count > 0;
                } else {
                    self.extra_partition_count = Some(0);
                    self.modified = false;
                }
            },
            None => {
                self.extra_partition_count = Some(0);
                self.modified = false;
            },
        }
        Ok(())
    }

    /// The strategy for the detected partition layout.
    pub fn detect_partition_strategy(&self) -> (r: Result<PartitionStrategy, RustLtfsError>)
        ensures
            r == Ok::<PartitionStrategy, RustLtfsError>(strategy_for(self.get_extra_partition_count_spec())),
    {
        let extra = self.get_extra_partition_count();
        if extra == 0 {
            Ok(PartitionStrategy::SinglePartitionFallback)
        } else {
            Ok(PartitionStrategy::StandardMultiPartition)
        }
    }
}


/// The READ ATTRIBUTE command for the volume serial number (attribute
/// 0x0408 of partition 0), with the allocation length bytes 10..14 given.
pub open spec fn mam_cdb(b10: u8, b11: u8, b12: u8, b13: u8) -> Seq<u8> {
    seq![0x8Cu8, 0, 0, 0, 0, 0, 0, 0, 0x04, 0x08, b10, b11, b12, b13, 0, 0]
}

/// The MAM data length announced by a 9-byte attribute header (bytes 7, 8).
pub open spec fn mam_length(h: Seq<u8>) -> nat {
    h[7] as nat * 256 + h[8] as nat
}

/// The barcode held in the attribute data after its 9-byte header: the
/// lossily decoded text without trailing NULs.
pub open spec fn barcode_text(d: Seq<u8>) -> Seq<char> {
    trim_end_char(utf8_lossy(d.skip(9)), '\0')
}

fn cdb(b10: u8, b11: u8, b12: u8, b13: u8) -> (v: Vec<u8>)
    ensures
        v@ == mam_cdb(b10, b11, b12, b13),
{
    let v: Vec<u8> = vec![0x8C, 0, 0, 0, 0, 0, 0, 0, 0x04, 0x08, b10, b11, b12, b13, 0, 0];
    assert(v@ =~= mam_cdb(b10, b11, b12, b13));
    v
}

impl TapeOperations {
    /// The first READ ATTRIBUTE command: 9 bytes, the attribute header.
    pub fn barcode_header_cdb(&self) -> (v: Vec<u8>)
        ensures
            v@ == mam_cdb(0, 0, 0, 9),
    {
        cdb(0, 0, 0, 9)
    }

    /// The second READ ATTRIBUTE command, for `total_len` bytes (header and
    /// data): the 16-bit allocation length goes to bytes 10 and 11, most
    /// significant byte first; bytes 12 and 13 stay 0.
    pub fn barcode_data_cdb(&self, total_len: u16) -> (v: Vec<u8>)
        ensures
            v@ == mam_cdb((total_len / 256) as u8, (total_len % 256) as u8, 0, 0),
    {
        let b0 = ((total_len >> 8) & 0xFF) as u8;
        let b1 = (total_len & 0xFF) as u8;
        assert(((total_len >> 8) & 0xFF) == total_len / 256) by (bit_vector);
        assert((total_len & 0xFF) == total_len % 256) by (bit_vector);
        cdb(b0, b1, 0, 0)
    }

    /// The second READ ATTRIBUTE command that a reply `header` to the
    /// first one calls for: none when the header is short or announces no
    /// data, otherwise one for the announced length plus the 9 header
    /// bytes.
    pub fn barcode_data_request(&self, header: &[u8]) -> (r: Option<Vec<u8>>)
        requires
            header@.len() >= 9 ==> mam_length(header@) + 9 <= u16::MAX,
        ensures
            header@.len() < 9 || mam_length(header@) == 0 ==> r is None,
            header@.len() >= 9 && mam_length(header@) > 0 ==> (r matches Some(v) && v@ == mam_cdb(
                ((mam_length(header@) + 9) / 256) as u8,
                ((mam_length(header@) + 9) % 256) as u8,
                0,
                0,
            )),
    {
        if header.len() < 9 {
            return None;
        }
        let n: u32 = (header[7] as u32) * 256 + (header[8] as u32);
        if n == 0 {
            return None;
        }
        assert(n == mam_length(header@));
        let total: u16 = (n + 9) as u16;
        Some(self.barcode_data_cdb(total))
    }

    /// The barcode (MAM volume serial number).  `header` is the reply to
    /// `barcode_header_cdb`; `data` the reply to `barcode_data_cdb` for the
    /// announced length plus 9, looked at only when a length was announced.
    pub fn read_barcode(&self, header: Result<Vec<u8>, RustLtfsError>, data: Result<Vec<u8>, RustLtfsError>) -> (r: Result<String, RustLtfsError>)
        requires
            header matches Ok(h) ==> (h@.len() >= 9 ==> mam_length(h@) + 9 <= u16::MAX),
            data matches Ok(d) ==> d@.len() >= 9,
        ensures
            self.offline_mode ==> (r matches Ok(s) && s@ == "OFFLINE_MODE_BARCODE"@),
            !self.offline_mode ==> match header {
                Err(_) => r matches Err(e) && e is Scsi,
                Ok(h) => if h@.len() < 9 || mam_length(h@) == 0 {
                    r matches Err(e) && e is TapeDevice
                } else {
                    match data {
                        Ok(d) => r matches Ok(s) && s@ == barcode_text(d@),
                        Err(_) => r matches Err(e) && e is Scsi,
                    }
                },
            },
    {
        if self.offline_mode {
            return Ok("OFFLINE_MODE_BARCODE".to_owned());
        }
        match header {
            Err(e) => {
                let mut m: Vec<char> = Vec::new();
                crate::text::push_str(&mut m, "Failed to get MAM data length: ");
                let t = e.to_text();
                crate::text::push_str(&mut m, t.as_str());
                Err(RustLtfsError::Scsi(chars_to_string(&m)))
            },
            Ok(h) => {
                if h.len() < 9 {
                    return Err(RustLtfsError::TapeDevice("Incomplete MAM header".to_owned()));
                }
                let data_len: u16 = ((h[7] as u16) << 8) | (h[8] as u16);
                let h7 = h[7];
                let h8 = h[8];
                assert((((h7 as u16) << 8u16) | (h8 as u16)) == h7 as u16 * 256 + h8 as u16) by (bit_vector);
                if data_len == 0 {
                    return Err(RustLtfsError::TapeDevice("MAM volume serial number not available".to_owned()));
                }
                let _total_len: u16 = data_len + 9;
                match data {
                    Ok(d) => {
                        let actual = &d.as_slice()[9..d.len()];
                        assert(actual@ =~= d@.skip(9));
                        let text = crate::validator::from_utf8_lossy(actual);
                        let cs = str_to_chars(text.as_str());
                        let mut end = cs.len();
                        assert(cs@.take(end as int) =~= cs@);
                        while end > 0 && cs[end - 1] == '\0'
                            invariant
                                end <= cs@.len(),
                                trim_end_char(cs@, '\0') == trim_end_char(cs@.take(end as int), '\0'),
                            decreases end,
                        {
                            assert(cs@.take(end as int).drop_last() =~= cs@.take(end - 1));
                            end = end - 1;
                        }
                        proof {
                            let t = cs@.take(end as int);
                            if t.len() > 0 {
                                assert(t.last() == cs@[end - 1]);
                            }
                            assert(trim_end_char(t, '\0') == t);
                        }
                        let kept = &cs.as_slice()[0..end];
                        assert(kept@ =~= cs@.take(end as int));
                        Ok(chars_to_string(kept))
                    },
                    Err(e) => {
                        let mut m: Vec<char> = Vec::new();
                        crate::text::push_str(&mut m, "Failed to read MAM data: ");
                        let t = e.to_text();
                        crate::text::push_str(&mut m, t.as_str());
                        Err(RustLtfsError::Scsi(chars_to_string(&m)))
                    },
                }
            },
        }
    }

    /// The medium's identity: the barcode (or "UNKNOWN" when it could not be
    /// read, `barcode` being the outcome of `read_barcode`), type "LTO", and
    /// the barcode again as serial.
    pub fn get_tape_medium_info(&self, barcode: Result<String, RustLtfsError>) -> (r: Result<TapeMediumInfo, RustLtfsError>)
        ensures
            r matches Ok(info) && info.medium_type@ == "LTO"@ && info.medium_serial@ == info.barcode@
                && match barcode {
                Ok(b) => info.barcode@ == b@,
                Err(_) => info.barcode@ == "UNKNOWN"@,
            },
    {
        let code = match barcode {
            Ok(c) => c,
            Err(_) => "UNKNOWN".to_owned(),
        };
        let serial = code.clone();
        Ok(TapeMediumInfo { barcode: code, medium_type: "LTO".to_owned(), medium_serial: serial })
    }
}

} // verus!
