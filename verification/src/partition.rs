use vstd::prelude::*;
use crate::error::RustLtfsError;
use crate::label::{
    default_label_with, heuristic_blocksize, is_ltfs_vol1_label, label_blocksize, label_index_location,
    label_area_len, ltfs_signature_at, IndexLocation,
};
use crate::ops::{target_partition, LtfsPartitionLabel, TapeOperations};

verus! {

/// How the index of a tape is read.
#[derive(Debug, Clone, Copy, PartialEq, Eq)]
pub enum PartitionStrategy {
    /// Index on partition a, data on partition b.
    StandardMultiPartition,
    /// Single-partition tape: the index copies are read from the data.
    SinglePartitionFallback,
    /// The index location points into the data partition.
    IndexFromDataPartition,
}

/// Sizes of the two partitions.
#[derive(Debug, Clone, Copy, PartialEq, Eq)]
pub struct PartitionInfo {
    pub partition_0_size: u64,
    pub partition_1_size: u64,
    pub has_multi_partition: bool,
}

/// The medium loaded in the drive, as the drive reports it.
#[derive(Debug, Clone, Copy, PartialEq, Eq)]
pub enum MediaType {
    NoTape,
    Lto5Rw,
    Lto5Worm,
    Lto5Ro,
    Lto6Rw,
    Lto6Worm,
    Lto6Ro,
    Lto7Rw,
    Lto7Worm,
    Lto7Ro,
    Lto8Rw,
    Lto8Worm,
    Lto8Ro,
    Lto9Rw,
    Lto9Worm,
    Lto9Ro,
    Unknown(u16),
}

/// The strategy for a tape with `extra` extra partitions.
pub open spec fn strategy_for(extra: u8) -> PartitionStrategy {
    if extra == 0 {
        PartitionStrategy::SinglePartitionFallback
    } else {
        PartitionStrategy::StandardMultiPartition
    }
}

/// `min(min(1, value), max_allowed)`.
pub open spec fn normalized_extra_count(value: u8, max_allowed: u8) -> u8 {
    let step1: u8 = if value < 1 { value } else { 1 };
    if step1 < max_allowed { step1 } else { max_allowed }
}

/// The extra-partition count that a MODE SENSE page 0x11 reply announces
/// (its byte 3, at most 1); 0 when the reply is short or missing.
pub open spec fn extra_count_from_mode_sense(mode: Option<Seq<u8>>) -> u8 {
    match mode {
        Some(d) => if d.len() >= 4 {
            if d[3] < 1 { d[3] } else { 1u8 }
        } else {
            0u8
        },
        None => 0u8,
    }
}

/// The native capacity in bytes of the medium, LTO-8 when unknown.
pub open spec fn capacity_of_media(m: Option<MediaType>) -> u64 {
    match m {
        Some(MediaType::Lto8Rw) | Some(MediaType::Lto8Worm) | Some(MediaType::Lto8Ro) => 12_000_000_000_000,
        Some(MediaType::Lto7Rw) | Some(MediaType::Lto7Worm) | Some(MediaType::Lto7Ro) => 6_000_000_000_000,
        Some(MediaType::Lto6Rw) | Some(MediaType::Lto6Worm) | Some(MediaType::Lto6Ro) => 2_500_000_000_000,
        Some(MediaType::Lto5Rw) | Some(MediaType::Lto5Worm) | Some(MediaType::Lto5Ro) => 1_500_000_000_000,
        _ => 12_000_000_000_000,
    }
}

/// The LTO generation of a medium (5 to 9), 0 for no tape or an unknown
/// one.
pub open spec fn lto_generation(m: MediaType) -> nat {
    match m {
        MediaType::Lto5Rw | MediaType::Lto5Worm | MediaType::Lto5Ro => 5,
        MediaType::Lto6Rw | MediaType::Lto6Worm | MediaType::Lto6Ro => 6,
        MediaType::Lto7Rw | MediaType::Lto7Worm | MediaType::Lto7Ro => 7,
        MediaType::Lto8Rw | MediaType::Lto8Worm | MediaType::Lto8Ro => 8,
        MediaType::Lto9Rw | MediaType::Lto9Worm | MediaType::Lto9Ro => 9,
        _ => 0,
    }
}

/// The estimated capacity is the native capacity of the medium's LTO
/// generation: 1.5 TB for LTO-5, 2.5 TB for LTO-6, 6 TB for LTO-7, 12 TB
/// for LTO-8; the rewritable, WORM and read-only kinds of a generation
/// get the same figure, and it grows strictly from one generation to the
/// next.  Anything else (LTO-9, no tape, unknown, no answer) is taken as
/// LTO-8.
pub proof fn law_capacity_follows_the_lto_generation(m: MediaType, n: MediaType)
    ensures
        lto_generation(m) == 5 ==> capacity_of_media(Some(m)) == 1_500_000_000_000,
        lto_generation(m) == 6 ==> capacity_of_media(Some(m)) == 2_500_000_000_000,
        lto_generation(m) == 7 ==> capacity_of_media(Some(m)) == 6_000_000_000_000,
        lto_generation(m) == 8 ==> capacity_of_media(Some(m)) == 12_000_000_000_000,
        !(5 <= lto_generation(m) <= 8) ==> capacity_of_media(Some(m)) == 12_000_000_000_000,
        capacity_of_media(None) == 12_000_000_000_000,
        lto_generation(m) == lto_generation(n) ==> capacity_of_media(Some(m)) == capacity_of_media(Some(n)),
        5 <= lto_generation(m) < lto_generation(n) <= 8 ==> capacity_of_media(Some(m)) < capacity_of_media(Some(n)),
{
}

/// Estimated capacity of the loaded medium; `media` is what the drive
/// reported, `None` when the query failed.
pub fn estimate_tape_capacity_bytes(media: Option<MediaType>) -> (r: u64)
    ensures
        r == capacity_of_media(media),
{
    match media {
        Some(MediaType::Lto8Rw) | Some(MediaType::Lto8Worm) | Some(MediaType::Lto8Ro) => 12_000_000_000_000,
        Some(MediaType::Lto7Rw) | Some(MediaType::Lto7Worm) | Some(MediaType::Lto7Ro) => 6_000_000_000_000,
        Some(MediaType::Lto6Rw) | Some(MediaType::Lto6Worm) | Some(MediaType::Lto6Ro) => 2_500_000_000_000,
        Some(MediaType::Lto5Rw) | Some(MediaType::Lto5Worm) | Some(MediaType::Lto5Ro) => 1_500_000_000_000,
        _ => 12_000_000_000_000,
    }
}

pub open spec fn sat_sub(a: u64, b: u64) -> u64 {
    if a >= b { (a - b) as u64 } else { 0 }
}

/// The index partition size for a generic medium: the proportional size,
/// kept between 1 GB and 500 GB.
pub open spec fn clamp_index_size(s: u64) -> u64 {
    if s < 1_000_000_000 {
        1_000_000_000
    } else if s > 500_000_000_000 {
        500_000_000_000
    } else {
        s
    }
}

/// The estimated partition sizes (see `estimate_standard_partition_sizes`).
pub open spec fn estimate_standard_partition_sizes_spec(media: Option<MediaType>, total_capacity: u64, proportional_index_size: u64) -> (u64, u64) {
    let p0: u64 = match media {
        Some(MediaType::Lto7Rw) | Some(MediaType::Lto7Worm) | Some(MediaType::Lto7Ro) => 100_000_000_000u64,
        Some(MediaType::Lto8Rw) | Some(MediaType::Lto8Worm) | Some(MediaType::Lto8Ro) => 200_000_000_000u64,
        _ => clamp_index_size(proportional_index_size),
    };
    (p0, sat_sub(total_capacity, p0))
}

/// Estimated partition sizes: 100 GB (LTO-7) or 200 GB (LTO-8) for the
/// index partition, otherwise `proportional_index_size` (1.8% of the
/// capacity, computed by the caller) kept between 1 GB and 500 GB; the data
/// partition gets the rest of `total_capacity`.
pub fn estimate_standard_partition_sizes(media: Option<MediaType>, total_capacity: u64, proportional_index_size: u64) -> (r: (u64, u64))
    ensures
        r.0 == match media {
            Some(MediaType::Lto7Rw) | Some(MediaType::Lto7Worm) | Some(MediaType::Lto7Ro) => 100_000_000_000u64,
            Some(MediaType::Lto8Rw) | Some(MediaType::Lto8Worm) | Some(MediaType::Lto8Ro) => 200_000_000_000u64,
            _ => clamp_index_size(proportional_index_size),
        },
        r.1 == sat_sub(total_capacity, r.0),
{
    let p0: u64 = match media {
        Some(MediaType::Lto7Rw) | Some(MediaType::Lto7Worm) | Some(MediaType::Lto7Ro) => 100_000_000_000,
        Some(MediaType::Lto8Rw) | Some(MediaType::Lto8Worm) | Some(MediaType::Lto8Ro) => 200_000_000_000,
        _ => {
            if proportional_index_size < 1_000_000_000 {
                1_000_000_000
            } else if proportional_index_size > 500_000_000_000 {
                500_000_000_000
            } else {
                proportional_index_size
            }
        },
    };
    let p1 = if total_capacity >= p0 { total_capacity - p0 } else { 0 };
    (p0, p1)
}

/// Partition bookkeeping of a tape session: the label read from tape and
/// the partition numbering rules.
pub struct PartitionManager {
    pub offline_mode: bool,
    pub partition_label: Option<LtfsPartitionLabel>,
}

impl PartitionManager {
    pub fn new(offline_mode: bool) -> (m: Self)
        ensures
            m.offline_mode == offline_mode,
            m.partition_label is None,
    {
        PartitionManager { offline_mode, partition_label: None }
    }

    /// The extra-partition count: 1 offline, otherwise what the MODE SENSE
    /// page 0x11 reply announces (`mode_sense` is the reply, `None` when the
    /// command failed).
    pub fn detect_extra_partition_count(&self, mode_sense: Option<&[u8]>) -> (r: Result<u8, RustLtfsError>)
        ensures
            r matches Ok(n) && n == if self.offline_mode {
                1u8
            } else {
                extra_count_from_mode_sense(match mode_sense {
                    Some(d) => Some(d@),
                    None => None,
                })
            },
    {
        if self.offline_mode {
            return Ok(1);
        }
        match mode_sense {
            Some(d) => {
                if d.len() >= 4 {
                    let n = d[3];
                    Ok(if n < 1 { n } else { 1 })
                } else {
                    Ok(0)
                }
            },
            None => Ok(0),
        }
    }

    /// Single-partition fallback for no extra partition, the standard
    /// layout otherwise.
    pub fn determine_partition_strategy(&self, extra_partition_count: u8) -> (s: PartitionStrategy)
        ensures
            s == strategy_for(extra_partition_count),
    {
        if extra_partition_count == 0 {
            PartitionStrategy::SinglePartitionFallback
        } else {
            PartitionStrategy::StandardMultiPartition
        }
    }

    /// The physical partition of logical partition `logical_partition`.
    pub fn map_partition_number(&self, logical_partition: u8, extra_partition_count: u8) -> (p: u8)
        ensures
            p == target_partition(logical_partition, extra_partition_count),
    {
        if extra_partition_count == 0 {
            0
        } else if logical_partition == 0 {
            0
        } else {
            1
        }
    }

    /// `min(min(1, value), max_allowed)`.
    pub fn validate_extra_partition_count(&self, value: u8, max_allowed: u8) -> (r: u8)
        ensures
            r == normalized_extra_count(value, max_allowed),
    {
        let step1 = if value < 1 { value } else { 1 };
        if step1 < max_allowed { step1 } else { max_allowed }
    }

    /// The physical partition used to position on `logical_partition`.
    pub fn get_target_partition(&self, logical_partition: u8, extra_partition_count: u8) -> (p: u8)
        ensures
            p == target_partition(logical_partition, extra_partition_count),
    {
        self.map_partition_number(logical_partition, extra_partition_count)
    }

    /// The index location the volume label (block 0 of partition a) names.
    pub fn parse_index_locations_from_volume_label(&self, buffer: &[u8]) -> (r: Result<IndexLocation, RustLtfsError>)
        requires
            ltfs_signature_at(buffer@) >= 0 ==> label_area_len(buffer@, ltfs_signature_at(buffer@)) >= 8,
        ensures
            match r {
                Ok(loc) => label_index_location(buffer@) matches Some((c, v)) && loc.partition@ == seq![c]
                    && loc.start_block as nat == v,
                Err(e) => label_index_location(buffer@) is None && e is LtfsIndex,
            },
    {
        crate::label::parse_index_locations_from_volume_label(buffer)
    }

    /// The index location a volume label block names (the partition
    /// manager's own copy of the parse).
    pub fn parse_index_location_from_buffer(&self, buffer: &[u8]) -> (r: Result<IndexLocation, RustLtfsError>)
        requires
            ltfs_signature_at(buffer@) >= 0 ==> label_area_len(buffer@, ltfs_signature_at(buffer@)) >= 8,
        ensures
            match r {
                Ok(loc) => label_index_location(buffer@) matches Some((c, v)) && loc.partition@ == seq![c]
                    && loc.start_block as nat == v,
                Err(e) => label_index_location(buffer@) is None && e is LtfsIndex,
            },
    {
        crate::label::parse_index_locations_from_volume_label(buffer)
    }

    /// The index location named by the volume label, given the outcome of
    /// reading block 0 of partition 0: a failed read is the error.
    pub fn get_latest_index_location_from_volume_label(&self, label_block: Result<Vec<u8>, RustLtfsError>) -> (r: Result<IndexLocation, RustLtfsError>)
        requires
            label_block matches Ok(b) ==> (ltfs_signature_at(b@) >= 0 ==> label_area_len(b@, ltfs_signature_at(b@)) >= 8),
        ensures
            match label_block {
                Err(e) => r == Err::<IndexLocation, RustLtfsError>(e),
                Ok(b) => match r {
                    Ok(loc) => label_index_location(b@) matches Some((c, v)) && loc.partition@ == seq![c]
                        && loc.start_block as nat == v,
                    Err(e) => label_index_location(b@) is None && e is LtfsIndex,
                },
            },
    {
        match label_block {
            Err(e) => Err(e),
            Ok(b) => crate::label::parse_index_locations_from_volume_label(&b),
        }
    }

    /// The same check, as format detection makes it.
    pub fn check_index_location_from_volume_label(&self, label_block: Result<Vec<u8>, RustLtfsError>) -> (r: Result<IndexLocation, RustLtfsError>)
        requires
            label_block matches Ok(b) ==> (ltfs_signature_at(b@) >= 0 ==> label_area_len(b@, ltfs_signature_at(b@)) >= 8),
        ensures
            match label_block {
                Err(e) => r == Err::<IndexLocation, RustLtfsError>(e),
                Ok(b) => match r {
                    Ok(loc) => label_index_location(b@) matches Some((c, v)) && loc.partition@ == seq![c]
                        && loc.start_block as nat == v,
                    Err(e) => label_index_location(b@) is None && e is LtfsIndex,
                },
            },
    {
        match label_block {
            Err(e) => Err(e),
            Ok(b) => crate::label::parse_index_locations_from_volume_label(&b),
        }
    }

    /// Whether `buffer` holds an LTFS VOL1 label.
    pub fn parse_vol1_label(&self, buffer: &[u8]) -> (r: Result<bool, RustLtfsError>)
        ensures
            r == Ok::<bool, RustLtfsError>(is_ltfs_vol1_label(buffer@)),
    {
        Ok(crate::label::parse_vol1_label(buffer))
    }

    /// The partition label of the volume label block `buffer`.
    pub fn parse_ltfs_volume_label(&self, buffer: &[u8]) -> (r: Result<LtfsPartitionLabel, RustLtfsError>)
        ensures
            r matches Ok(l) && default_label_with(
                l,
                if is_ltfs_vol1_label(buffer@) {
                    label_blocksize(buffer@)
                } else {
                    heuristic_blocksize(buffer@)
                },
            ),
    {
        crate::label::parse_ltfs_volume_label(buffer)
    }

    /// The block size guessed from `buffer`.
    pub fn detect_blocksize_heuristic(&self, buffer: &[u8]) -> (r: Result<LtfsPartitionLabel, RustLtfsError>)
        ensures
            r matches Ok(l) && default_label_with(l, heuristic_blocksize(buffer@)),
    {
        crate::label::detect_blocksize_heuristic(buffer)
    }

    /// Reads the partition label: the default one offline, otherwise the one
    /// parsed from `block0`, the first block of partition a, which is kept.
    pub fn read_partition_labels(&mut self, block0: &[u8]) -> (r: Result<LtfsPartitionLabel, RustLtfsError>)
        ensures
            final(self).offline_mode == old(self).offline_mode,
            r matches Ok(l) && default_label_with(
                l,
                if old(self).offline_mode {
                    crate::ops::LTO_BLOCK_SIZE
                } else if is_ltfs_vol1_label(block0@) {
                    label_blocksize(block0@)
                } else {
                    heuristic_blocksize(block0@)
                },
            ),
            !old(self).offline_mode ==> (final(self).partition_label matches Some(k) && k.blocksize == (
            if is_ltfs_vol1_label(block0@) {
                label_blocksize(block0@)
            } else {
                heuristic_blocksize(block0@)
            })),
            old(self).offline_mode ==> final(self).partition_label == old(self).partition_label,
    {
        if self.offline_mode {
            return Ok(LtfsPartitionLabel::default());
        }
        let plabel = crate::label::parse_ltfs_volume_label(block0);
        match plabel {
            Ok(l) => {
                let kept = LtfsPartitionLabel {
                    volume_uuid: l.volume_uuid.clone(),
                    blocksize: l.blocksize,
                    compression: l.compression,
                    index_partition: l.index_partition,
                    data_partition: l.data_partition,
                    format_time: l.format_time.clone(),
                };
                self.partition_label = Some(kept);
                Ok(l)
            },
            Err(e) => Err(e),
        }
    }

    /// A multi-partition layout is consistent when neither partition is empty.
    pub fn validate_partition_configuration(&self, info: PartitionInfo) -> (r: Result<bool, RustLtfsError>)
        ensures
            r == Ok::<bool, RustLtfsError>(!(info.has_multi_partition && (info.partition_0_size == 0
                || info.partition_1_size == 0))),
    {
        if info.has_multi_partition {
            if info.partition_0_size == 0 || info.partition_1_size == 0 {
                return Ok(false);
            }
            Ok(true)
        } else {
            Ok(true)
        }
    }

    pub fn get_partition_label(&self) -> (r: Option<&LtfsPartitionLabel>)
        ensures
            match self.partition_label {
                Some(l) => r == Some(&l),
                None => r is None,
            },
    {
        self.partition_label.as_ref()
    }

    pub fn set_partition_label(&mut self, label: LtfsPartitionLabel)
        ensures
            final(self).partition_label == Some(label),
            final(self).offline_mode == old(self).offline_mode,
    {
        self.partition_label = Some(label);
    }
}


/// What a look at the first block of a tape that is not an LTFS VOL1 label
/// tells about it.
pub enum TapeFormatAnalysis {
    /// All zero or no data.
    BlankTape,
    /// An older tape format, named.
    LegacyTape(String),
    /// A damaged or unrecognised VOL1 label.
    CorruptedLabel,
    UnknownFormat,
    /// Perhaps LTFS, with a non-standard VOL1 label.
    PossibleLTFS,
}

impl PartitionManager {
    /// The LOCATE that switching to `partition` takes (block 0); none offline.
    pub fn switch_to_partition(&self, partition: u8) -> (r: Option<(u8, u64)>)
        ensures
            r == if self.offline_mode { None } else { Some((partition, 0u64)) },
    {
        if self.offline_mode {
            None
        } else {
            Some((partition, 0))
        }
    }

    /// The LOCATE that positioning at `block` of `partition` takes; none offline.
    pub fn position_to_partition(&self, partition: u8, block: u64) -> (r: Option<(u8, u64)>)
        ensures
            r == if self.offline_mode { None } else { Some((partition, block)) },
    {
        if self.offline_mode {
            None
        } else {
            Some((partition, block))
        }
    }
}

impl TapeOperations {
    /// The LOCATE that switching to `partition` takes (block 0); none offline.
    pub fn switch_to_partition(&self, partition: u8) -> (r: Option<(u8, u64)>)
        ensures
            r == if self.offline_mode { None } else { Some((partition, 0u64)) },
    {
        if self.offline_mode {
            None
        } else {
            Some((partition, 0))
        }
    }

    /// The LOCATE that positioning at `block` of `partition` takes; none offline.
    pub fn position_to_partition(&self, partition: u8, block: u64) -> (r: Option<(u8, u64)>)
        ensures
            r == if self.offline_mode { None } else { Some((partition, block)) },
    {
        if self.offline_mode {
            None
        } else {
            Some((partition, block))
        }
    }

    /// Whether `buffer` holds an LTFS VOL1 label.
    pub fn parse_vol1_label(&self, buffer: &[u8]) -> (r: Result<bool, RustLtfsError>)
        ensures
            r == Ok::<bool, RustLtfsError>(is_ltfs_vol1_label(buffer@)),
    {
        Ok(crate::label::parse_vol1_label(buffer))
    }

    /// The index location the volume label (block 0 of partition a) names.
    pub fn parse_index_locations_from_volume_label(&self, buffer: &[u8]) -> (r: Result<IndexLocation, RustLtfsError>)
        requires
            ltfs_signature_at(buffer@) >= 0 ==> label_area_len(buffer@, ltfs_signature_at(buffer@)) >= 8,
        ensures
            match r {
                Ok(loc) => label_index_location(buffer@) matches Some((c, v)) && loc.partition@ == seq![c]
                    && loc.start_block as nat == v,
                Err(e) => label_index_location(buffer@) is None && e is LtfsIndex,
            },
    {
        crate::label::parse_index_locations_from_volume_label(buffer)
    }

    /// The index location named by the volume label, given the outcome of
    /// reading block 0 of partition 0: a failed read is the error.
    pub fn get_latest_index_location_from_volume_label(&self, label_block: Result<Vec<u8>, RustLtfsError>) -> (r: Result<IndexLocation, RustLtfsError>)
        requires
            label_block matches Ok(b) ==> (ltfs_signature_at(b@) >= 0 ==> label_area_len(b@, ltfs_signature_at(b@)) >= 8),
        ensures
            match label_block {
                Err(e) => r == Err::<IndexLocation, RustLtfsError>(e),
                Ok(b) => match r {
                    Ok(loc) => label_index_location(b@) matches Some((c, v)) && loc.partition@ == seq![c]
                        && loc.start_block as nat == v,
                    Err(e) => label_index_location(b@) is None && e is LtfsIndex,
                },
            },
    {
        match label_block {
            Err(e) => Err(e),
            Ok(b) => crate::label::parse_index_locations_from_volume_label(&b),
        }
    }

    /// The same check, as format detection makes it.
    pub fn check_index_location_from_volume_label(&self, label_block: Result<Vec<u8>, RustLtfsError>) -> (r: Result<IndexLocation, RustLtfsError>)
        requires
            label_block matches Ok(b) ==> (ltfs_signature_at(b@) >= 0 ==> label_area_len(b@, ltfs_signature_at(b@)) >= 8),
        ensures
            match label_block {
                Err(e) => r == Err::<IndexLocation, RustLtfsError>(e),
                Ok(b) => match r {
                    Ok(loc) => label_index_location(b@) matches Some((c, v)) && loc.partition@ == seq![c]
                        && loc.start_block as nat == v,
                    Err(e) => label_index_location(b@) is None && e is LtfsIndex,
                },
            },
    {
        match label_block {
            Err(e) => Err(e),
            Ok(b) => crate::label::parse_index_locations_from_volume_label(&b),
        }
    }

    /// The partition label of the volume label block `buffer`.
    pub fn parse_ltfs_volume_label(&self, buffer: &[u8]) -> (r: Result<LtfsPartitionLabel, RustLtfsError>)
        ensures
            r matches Ok(l) && default_label_with(
                l,
                if is_ltfs_vol1_label(buffer@) {
                    label_blocksize(buffer@)
                } else {
                    heuristic_blocksize(buffer@)
                },
            ),
    {
        crate::label::parse_ltfs_volume_label(buffer)
    }
}


/// A normalised extra-partition count is at most 1 and at most the allowed
/// maximum, and a count already within both limits is kept.
pub proof fn law_normalized_extra_count_within_limits(value: u8, max_allowed: u8)
    ensures
        normalized_extra_count(value, max_allowed) <= 1,
        normalized_extra_count(value, max_allowed) <= max_allowed,
        value <= 1 && value <= max_allowed ==> normalized_extra_count(value, max_allowed) == value,
{
}

/// Every logical partition maps to physical partition 0 or 1; on a
/// single-partition tape everything is on partition 0, and the index
/// partition is always 0.
pub proof fn law_partition_mapping(logical: u8, extra: u8)
    ensures
        target_partition(logical, extra) <= 1,
        extra == 0 ==> target_partition(logical, extra) == 0,
        target_partition(0, extra) == 0,
        extra > 0 && logical > 0 ==> target_partition(logical, extra) == 1,
{
}


/// Whether the tape has a second partition, as the MODE SENSE partition
/// sizes (`Some((p0, p1))`, `None` when the page could not be read or
/// parsed) or, failing them, the test of locating partition 1 tell.
pub open spec fn multi_partition_from(mode_sizes: Option<(u64, u64)>, partition1_reachable: bool) -> bool {
    match mode_sizes {
        Some((_, p1)) => p1 > 0,
        None => partition1_reachable,
    }
}

impl PartitionManager {
    /// Whether the tape has more than one partition: offline it is taken
    /// to; otherwise the MODE SENSE partition sizes decide (a data partition
    /// of size 0 means one partition), and without them the fallback test
    /// (`partition1_reachable`: whether partition 1 could be located).
    pub fn check_multi_partition_support(&self, mode_sizes: Option<(u64, u64)>, partition1_reachable: bool) -> (r: Result<bool, RustLtfsError>)
        ensures
            r == Ok::<bool, RustLtfsError>(self.offline_mode || multi_partition_from(mode_sizes, partition1_reachable)),
    {
        if self.offline_mode {
            return Ok(true);
        }
        match mode_sizes {
            Some((_, p1)) => Ok(p1 > 0),
            None => self.fallback_partition_detection(partition1_reachable),
        }
    }

    /// The fallback test: partition 1 can be located (`partition1_reachable`).
    pub fn fallback_partition_detection(&self, partition1_reachable: bool) -> (r: Result<bool, RustLtfsError>)
        ensures
            r == Ok::<bool, RustLtfsError>(partition1_reachable),
    {
        Ok(partition1_reachable)
    }

    /// The support check itself.
    pub fn check_partition_support(&self, mode_sizes: Option<(u64, u64)>, partition1_reachable: bool) -> (r: Result<bool, RustLtfsError>)
        ensures
            r == Ok::<bool, RustLtfsError>(self.offline_mode || multi_partition_from(mode_sizes, partition1_reachable)),
    {
        self.check_multi_partition_support(mode_sizes, partition1_reachable)
    }

    /// The partition sizes read from tape: the MODE SENSE sizes when there
    /// are any; otherwise an error, whose text tells whether READ POSITION
    /// at least worked (`read_position_ok`).
    pub fn read_partition_info_from_tape(&self, mode_sizes: Option<(u64, u64)>, read_position_ok: bool) -> (r: Result<(u64, u64), RustLtfsError>)
        ensures
            match mode_sizes {
                Some(s) => r == Ok::<(u64, u64), RustLtfsError>(s),
                None => r matches Err(e) && e is Scsi,
            },
    {
        match mode_sizes {
            Some(s) => Ok(s),
            None => {
                if read_position_ok {
                    Err(RustLtfsError::Scsi("READ POSITION doesn't provide partition size information".to_owned()))
                } else {
                    Err(RustLtfsError::Scsi(
                        "All SCSI partition detection methods failed, will use estimated values".to_owned(),
                    ))
                }
            },
        }
    }

    /// The partition layout: one partition of the medium's capacity, unless
    /// `multi` (the outcome of the support check; a failure means one
    /// partition) says there are two, whose sizes are those read from tape
    /// (`actual`) or else the estimates for the medium (`media`, `None`
    /// when unknown; `proportional_index_size` as for
    /// `estimate_standard_partition_sizes`).
    pub fn detect_partition_sizes(
        &self,
        multi: Result<bool, RustLtfsError>,
        media: Option<MediaType>,
        proportional_index_size: u64,
        actual: Result<(u64, u64), RustLtfsError>,
    ) -> (r: Result<PartitionInfo, RustLtfsError>)
        ensures
            r matches Ok(info) && if !(multi == Ok::<bool, RustLtfsError>(true)) {
                info.partition_0_size == capacity_of_media(media) && info.partition_1_size == 0 && !info.has_multi_partition
            } else {
                info.has_multi_partition && match actual {
                    Ok((a, b)) => info.partition_0_size == a && info.partition_1_size == b,
                    Err(_) => {
                        let e = estimate_standard_partition_sizes_spec(media, capacity_of_media(media), proportional_index_size);
                        info.partition_0_size == e.0 && info.partition_1_size == e.1
                    },
                }
            },
    {
        let has_multi = match multi {
            Ok(b) => b,
            Err(_) => false,
        };
        let total = estimate_tape_capacity_bytes(media);
        if !has_multi {
            return Ok(PartitionInfo { partition_0_size: total, partition_1_size: 0, has_multi_partition: false });
        }
        let (e0, e1) = estimate_standard_partition_sizes(media, total, proportional_index_size);
        match actual {
            Ok((a, b)) => Ok(PartitionInfo { partition_0_size: a, partition_1_size: b, has_multi_partition: true }),
            Err(_) => Ok(PartitionInfo { partition_0_size: e0, partition_1_size: e1, has_multi_partition: true }),
        }
    }

    /// The partition information (the layout detection itself).
    pub fn get_partition_info(
        &self,
        multi: Result<bool, RustLtfsError>,
        media: Option<MediaType>,
        proportional_index_size: u64,
        actual: Result<(u64, u64), RustLtfsError>,
    ) -> (r: Result<PartitionInfo, RustLtfsError>)
        ensures
            r matches Ok(info) && if !(multi == Ok::<bool, RustLtfsError>(true)) {
                info.partition_0_size == capacity_of_media(media) && info.partition_1_size == 0 && !info.has_multi_partition
            } else {
                info.has_multi_partition && match actual {
                    Ok((a, b)) => info.partition_0_size == a && info.partition_1_size == b,
                    Err(_) => {
                        let e = estimate_standard_partition_sizes_spec(media, capacity_of_media(media), proportional_index_size);
                        info.partition_0_size == e.0 && info.partition_1_size == e.1
                    },
                }
            },
    {
        self.detect_partition_sizes(multi, media, proportional_index_size, actual)
    }

    /// The two partition sizes of a detected layout.
    pub fn get_partition_sizes(&self, info: Result<PartitionInfo, RustLtfsError>) -> (r: Result<(u64, u64), RustLtfsError>)
        ensures
            match info {
                Ok(i) => r == Ok::<(u64, u64), RustLtfsError>((i.partition_0_size, i.partition_1_size)),
                Err(e) => r == Err::<(u64, u64), RustLtfsError>(e),
            },
    {
        match info {
            Ok(i) => Ok((i.partition_0_size, i.partition_1_size)),
            Err(e) => Err(e),
        }
    }

    /// The partition health check: offline it passes; the layout detection
    /// (`info`) must succeed; partition 0 must be reachable (`locate0`),
    /// and on a two-partition tape partition 1 too (`locate1`), after which
    /// the return to partition 0 (`back_to0`) must succeed.
    pub fn partition_health_check(
        &self,
        info: Result<PartitionInfo, RustLtfsError>,
        locate0: Result<(), RustLtfsError>,
        locate1: Result<(), RustLtfsError>,
        back_to0: Result<(), RustLtfsError>,
    ) -> (r: Result<bool, RustLtfsError>)
        ensures
            r == partition_health(self.offline_mode, info, locate0, locate1, back_to0),
    {
        partition_health_exec(self.offline_mode, info, locate0, locate1, back_to0)
    }
}

/// The outcome of the partition health check.
pub open spec fn partition_health(
    offline: bool,
    info: Result<PartitionInfo, RustLtfsError>,
    locate0: Result<(), RustLtfsError>,
    locate1: Result<(), RustLtfsError>,
    back_to0: Result<(), RustLtfsError>,
) -> Result<bool, RustLtfsError> {
    if offline {
        Ok(true)
    } else {
        match info {
            Err(e) => Err(e),
            Ok(i) => if locate0 is Err {
                Ok(false)
            } else if i.has_multi_partition {
                if locate1 is Err {
                    Ok(false)
                } else {
                    match back_to0 {
                        Err(e) => Err(e),
                        Ok(_) => Ok(true),
                    }
                }
            } else {
                Ok(true)
            },
        }
    }
}

fn partition_health_exec(
    offline: bool,
    info: Result<PartitionInfo, RustLtfsError>,
    locate0: Result<(), RustLtfsError>,
    locate1: Result<(), RustLtfsError>,
    back_to0: Result<(), RustLtfsError>,
) -> (r: Result<bool, RustLtfsError>)
    ensures
        r == partition_health(offline, info, locate0, locate1, back_to0),
{
    if offline {
        return Ok(true);
    }
    let i = match info {
        Err(e) => {
            return Err(e);
        },
        Ok(i) => i,
    };
    if locate0.is_err() {
        return Ok(false);
    }
    if i.has_multi_partition {
        if locate1.is_err() {
            return Ok(false);
        }
        if let Err(e) = back_to0 {
            return Err(e);
        }
    }
    Ok(true)
}

/// The capacity the session's partition detection assumes for a medium:
/// 12 TB (LTO-8, and by default), 6 TB (LTO-7).
pub open spec fn session_capacity(media: Option<MediaType>) -> u64 {
    match media {
        Some(MediaType::Lto7Rw) | Some(MediaType::Lto7Worm) | Some(MediaType::Lto7Ro) => 6_000_000_000_000,
        _ => 12_000_000_000_000,
    }
}

/// The session's estimated two-partition sizes: 100 GB and the rest of
/// 6 TB (LTO-7), 200 GB and the rest of 12 TB (LTO-8), otherwise 1.8% of
/// 12 TB (215999999999 bytes, the value the floating-point product gives)
/// and the rest.
pub open spec fn session_partition_estimate(media: Option<MediaType>) -> (u64, u64) {
    match media {
        Some(MediaType::Lto7Rw) | Some(MediaType::Lto7Worm) | Some(MediaType::Lto7Ro) => (100_000_000_000, 5_900_000_000_000),
        Some(MediaType::Lto8Rw) | Some(MediaType::Lto8Worm) | Some(MediaType::Lto8Ro) => (200_000_000_000, 11_800_000_000_000),
        _ => (215_999_999_999, 11_784_000_000_001),
    }
}

impl TapeOperations {
    /// The partition layout from the detected extra-partition count: one
    /// partition of the medium's capacity (`media`, `None` when unknown),
    /// or two partitions of the estimated sizes.
    pub fn detect_partition_sizes(&self, media: Option<MediaType>) -> (r: Result<PartitionInfo, RustLtfsError>)
        ensures
            r matches Ok(info) && if self.get_extra_partition_count_spec() == 0 {
                info.partition_0_size == session_capacity(media) && info.partition_1_size == 0 && !info.has_multi_partition
            } else {
                info.has_multi_partition && (info.partition_0_size, info.partition_1_size) == session_partition_estimate(media)
            },
    {
        if self.get_extra_partition_count() == 0 {
            let total: u64 = match media {
                Some(MediaType::Lto7Rw) | Some(MediaType::Lto7Worm) | Some(MediaType::Lto7Ro) => 6_000_000_000_000,
                _ => 12_000_000_000_000,
            };
            return Ok(PartitionInfo { partition_0_size: total, partition_1_size: 0, has_multi_partition: false });
        }
        let (p0, p1): (u64, u64) = match media {
            Some(MediaType::Lto7Rw) | Some(MediaType::Lto7Worm) | Some(MediaType::Lto7Ro) => (100_000_000_000, 5_900_000_000_000),
            Some(MediaType::Lto8Rw) | Some(MediaType::Lto8Worm) | Some(MediaType::Lto8Ro) => (200_000_000_000, 11_800_000_000_000),
            _ => (215_999_999_999, 11_784_000_000_001),
        };
        Ok(PartitionInfo { partition_0_size: p0, partition_1_size: p1, has_multi_partition: true })
    }

    /// Whether the tape has more than one partition, from the detected
    /// extra-partition count.
    pub fn check_multi_partition_support(&self) -> (r: Result<bool, RustLtfsError>)
        ensures
            r == Ok::<bool, RustLtfsError>(self.get_extra_partition_count_spec() > 0),
    {
        Ok(self.get_extra_partition_count() > 0)
    }

    /// The layout detection itself.
    pub fn get_partition_info(&self, media: Option<MediaType>) -> (r: Result<PartitionInfo, RustLtfsError>)
        ensures
            r matches Ok(info) && if self.get_extra_partition_count_spec() == 0 {
                info.partition_0_size == session_capacity(media) && info.partition_1_size == 0 && !info.has_multi_partition
            } else {
                info.has_multi_partition && (info.partition_0_size, info.partition_1_size) == session_partition_estimate(media)
            },
    {
        self.detect_partition_sizes(media)
    }

    /// The two partition sizes of the detected layout.
    pub fn get_partition_sizes(&self, media: Option<MediaType>) -> (r: Result<(u64, u64), RustLtfsError>)
        ensures
            r matches Ok(s) && if self.get_extra_partition_count_spec() == 0 {
                s == (session_capacity(media), 0u64)
            } else {
                s == session_partition_estimate(media)
            },
    {
        match self.detect_partition_sizes(media) {
            Ok(i) => Ok((i.partition_0_size, i.partition_1_size)),
            Err(e) => Err(e),
        }
    }

    /// The partition health check on the detected layout: offline it
    /// passes; partition 0 must be reachable (`locate0`), and on a
    /// two-partition tape partition 1 too (`locate1`), after which the
    /// return to partition 0 (`back_to0`) must succeed.
    pub fn partition_health_check(
        &self,
        media: Option<MediaType>,
        locate0: Result<(), RustLtfsError>,
        locate1: Result<(), RustLtfsError>,
        back_to0: Result<(), RustLtfsError>,
    ) -> (r: Result<bool, RustLtfsError>)
        ensures
            r == partition_health(
                self.offline_mode,
                Ok(PartitionInfo {
                    partition_0_size: 0,
                    partition_1_size: 0,
                    has_multi_partition: self.get_extra_partition_count_spec() > 0,
                }),
                locate0,
                locate1,
                back_to0,
            ),
    {
        if self.offline_mode {
            return Ok(true);
        }
        let info = self.detect_partition_sizes(media);
        let multi = match &info {
            Ok(i) => i.has_multi_partition,
            Err(_) => false,
        };
        let shape = PartitionInfo { partition_0_size: 0, partition_1_size: 0, has_multi_partition: multi };
        partition_health_exec(false, Ok(shape), locate0, locate1, back_to0)
    }
}

} // verus!
