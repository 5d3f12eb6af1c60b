use vstd::prelude::*;
use crate::error::RustLtfsError;
use crate::format::{barcode_of, params_valid, MkltfsParams};
use crate::label::is_ltfs_vol1_label;
use crate::ops::{LtfsPartitionLabel, TapeOperations};
use crate::partition::MediaType;
use crate::status::LtfsFormatStatus;
use crate::text::{chars_to_string, push_str, str_to_chars};
use crate::timestamp::now_rfc3339;
use crate::update::{pad_to_blocks, padded};

verus! {

/// How a MAM attribute's value is to be read.
#[derive(Debug, Clone, Copy, PartialEq, Eq, Structural)]
pub enum MamAttributeFormat {
    Binary,
    Ascii,
    Text,
}

/// A drive command of the format sequence.
#[derive(Debug, Clone, PartialEq, Eq)]
pub enum MkltfsCommand {
    /// LOAD the tape; the reply says whether it loaded.
    LoadTape,
    /// MODE SENSE of the partition page.
    ModeSensePartitionInfo,
    /// SET CAPACITY.
    SetCapacity(u16),
    /// Ask which medium is loaded.
    CheckMediaStatus,
    /// FORMAT MEDIUM, not immediate.
    FormatTape,
    /// MODE SELECT of the partition page: the drive's maximum of extra
    /// partitions, the extra partitions wanted, the MODE SENSE data, and
    /// the two partition sizes.
    ModeSelectPartition(u8, u8, Vec<u8>, u16, u16),
    /// PARTITION with this partition type.
    PartitionTape(u8),
    /// WRITE ATTRIBUTE: the attribute id, its value and its format.
    SetMamAttribute(u16, Vec<u8>, MamAttributeFormat),
    /// Write the barcode attribute.
    SetBarcode(String),
    /// LOCATE to this partition and block.
    LocateBlock(u8, u64),
    /// WRITE this many blocks from the buffer.
    WriteBlocks(u32, Vec<u8>),
}

pub enum MkltfsReply {
    /// Whether the tape loaded.
    Loaded(bool),
    /// The MODE SENSE data.
    ModeData(Vec<u8>),
    /// The medium loaded.
    Media(MediaType),
    /// The command succeeded.
    Done,
}

#[derive(Debug, Clone, Copy, PartialEq, Eq, Structural)]
pub enum MkltfsStage {
    Load,
    ModeSense,
    Capacity,
    Media,
    Format,
    ModeSelect,
    Partition,
    Mam(u8),
    Barcode,
    Locate,
    WriteLabel,
    Finished,
}

pub enum MkltfsProgress {
    Command(MkltfsCommand),
    /// The sequence ended: `Ok(true)` formatted, `Ok(false)` offline (nothing done).
    Finished(Result<bool, RustLtfsError>),
}

/// `t` padded with spaces (or cut) to `n` bytes.
pub open spec fn space_padded(t: Seq<u8>, n: nat) -> Seq<u8> {
    Seq::new(n, |i: int| if i < t.len() { t[i] } else { 0x20u8 })
}

pub open spec fn open_bytes() -> Seq<u8> {
    seq![0x4Fu8, 0x50, 0x45, 0x4E]
}

pub open spec fn rustltfs_bytes() -> Seq<u8> {
    seq![0x52u8, 0x75, 0x73, 0x74, 0x4C, 0x54, 0x46, 0x53]
}

/// The LTFS format version written to the MAM: 2.4.1 without extra
/// partitions, else 2.4.0.
pub open spec fn ltfs_version_bytes(extra: u8) -> Seq<u8> {
    if extra == 0 {
        seq![0x32u8, 0x2E, 0x34, 0x2E, 0x31]
    } else {
        seq![0x32u8, 0x2E, 0x34, 0x2E, 0x30]
    }
}

/// The `k`-th MAM attribute written: vendor "OPEN", application
/// "RustLTFS", the application version, an empty text label, localization
/// 0 and the LTFS format version.
pub open spec fn mam_attribute(k: int, version: Seq<u8>, extra: u8) -> (u16, Seq<u8>, MamAttributeFormat) {
    if k == 0 {
        (0x800u16, space_padded(open_bytes(), 8), MamAttributeFormat::Text)
    } else if k == 1 {
        (0x801u16, space_padded(rustltfs_bytes(), 32), MamAttributeFormat::Text)
    } else if k == 2 {
        (0x802u16, space_padded(version, 8), MamAttributeFormat::Text)
    } else if k == 3 {
        (0x803u16, space_padded(seq![], 160), MamAttributeFormat::Text)
    } else if k == 4 {
        (0x805u16, seq![0u8], MamAttributeFormat::Binary)
    } else {
        (0x80Bu16, space_padded(ltfs_version_bytes(extra), 16), MamAttributeFormat::Text)
    }
}

/// A medium on which the format step is skipped: LTO-9.
pub open spec fn skips_format(m: MediaType) -> bool {
    m == MediaType::Lto9Rw || m == MediaType::Lto9Worm || m == MediaType::Lto9Ro
}

/// The drive's maximum of extra partitions from the MODE SENSE data:
/// byte 2, or 1 for shorter data.
pub open spec fn max_extra_of(d: Seq<u8>) -> u8 {
    if d.len() >= 3 { d[2] } else { 1 }
}

/// Formats a tape as LTFSCopyGUI's mkltfs does: load, read the partition
/// page, set the capacity, format (skipped on LTO-9), partition when extra
/// partitions are wanted and supported, write the MAM attributes and the
/// barcode, and write the VOL1 label at the start of partition 0.
pub struct MkltfsRun {
    pub params: MkltfsParams,
    pub app_version: Vec<u8>,
    pub stage: MkltfsStage,
    pub mode_data: Vec<u8>,
    pub max_extra: u8,
    pub extra: u8,
}

fn space_pad(t: &[u8], n: usize) -> (r: Vec<u8>)
    ensures
        r@ == space_padded(t@, n as nat),
{
    let mut r: Vec<u8> = Vec::new();
    let mut i: usize = 0;
    while i < n
        invariant
            i <= n,
            r@.len() == i,
            forall|j: int| 0 <= j < i ==> r@[j] == (if j < t@.len() { t@[j] } else { 0x20u8 }),
        decreases n - i,
    {
        if i < t.len() {
            r.push(t[i]);
        } else {
            r.push(0x20);
        }
        i = i + 1;
    }
    assert(r@ =~= space_padded(t@, n as nat));
    r
}

fn mam_attribute_exec(k: u8, version: &[u8], extra: u8) -> (r: (u16, Vec<u8>, MamAttributeFormat))
    requires
        k <= 5,
    ensures
        (r.0, r.1@, r.2) == mam_attribute(k as int, version@, extra),
{
    if k == 0 {
        let t: [u8; 4] = [0x4F, 0x50, 0x45, 0x4E];
        assert(t@ == open_bytes());
        (0x800, space_pad(&t, 8), MamAttributeFormat::Text)
    } else if k == 1 {
        let t: [u8; 8] = [0x52, 0x75, 0x73, 0x74, 0x4C, 0x54, 0x46, 0x53];
        assert(t@ == rustltfs_bytes());
        (0x801, space_pad(&t, 32), MamAttributeFormat::Text)
    } else if k == 2 {
        (0x802, space_pad(version, 8), MamAttributeFormat::Text)
    } else if k == 3 {
        let t: [u8; 0] = [];
        assert(t@ =~= Seq::<u8>::empty());
        (0x803, space_pad(&t, 160), MamAttributeFormat::Text)
    } else if k == 4 {
        let v: Vec<u8> = vec![0u8];
        assert(v@ =~= seq![0u8]);
        (0x805, v, MamAttributeFormat::Binary)
    } else {
        let t: [u8; 5] = if extra == 0 {
            [0x32, 0x2E, 0x34, 0x2E, 0x31]
        } else {
            [0x32, 0x2E, 0x34, 0x2E, 0x30]
        };
        assert(t@ == ltfs_version_bytes(extra));
        (0x80B, space_pad(&t, 16), MamAttributeFormat::Text)
    }
}

impl TapeOperations {
    /// Starts formatting with `params`; `app_version` is the version text
    /// written to the MAM.  Invalid parameters are refused; offline nothing
    /// is done (`Ok(false)`); otherwise the tape is loaded first.
    pub fn mkltfs(&self, params: MkltfsParams, app_version: &str) -> (r: (MkltfsRun, MkltfsProgress))
        ensures
            r.0.params == params,
            r.0.app_version@ == vstd::utf8::encode_utf8(app_version@),
            !params_valid(params) ==> (r.1 matches MkltfsProgress::Finished(Err(e)) && e is ParameterValidation)
                && r.0.stage == MkltfsStage::Finished,
            params_valid(params) && self.offline_mode ==> r.1 == MkltfsProgress::Finished(Ok(false))
                && r.0.stage == MkltfsStage::Finished,
            params_valid(params) && !self.offline_mode ==> r.1 == MkltfsProgress::Command(MkltfsCommand::LoadTape)
                && r.0.stage == MkltfsStage::Load,
    {
        let v = app_version.as_bytes();
        let mut version: Vec<u8> = Vec::new();
        let mut i: usize = 0;
        while i < v.len()
            invariant
                i <= v@.len(),
                version@ == v@.take(i as int),
            decreases v@.len() - i,
        {
            version.push(v[i]);
            i = i + 1;
        }
        assert(version@ =~= v@);
        let check = params.validate();
        let mut run = MkltfsRun {
            params,
            app_version: version,
            stage: MkltfsStage::Finished,
            mode_data: Vec::new(),
            max_extra: 0,
            extra: 0,
        };
        match check {
            Err(e) => (run, MkltfsProgress::Finished(Err(e))),
            Ok(()) => {
                if self.offline_mode {
                    (run, MkltfsProgress::Finished(Ok(false)))
                } else {
                    run.stage = MkltfsStage::Load;
                    (run, MkltfsProgress::Command(MkltfsCommand::LoadTape))
                }
            },
        }
    }
}

impl MkltfsRun {
    pub open spec fn accepts(&self, r: Result<MkltfsReply, RustLtfsError>) -> bool {
        match self.stage {
            MkltfsStage::Load => r matches Ok(x) ==> x is Loaded,
            MkltfsStage::ModeSense => r matches Ok(x) ==> x is ModeData,
            MkltfsStage::Media => r matches Ok(x) ==> x is Media,
            MkltfsStage::Finished => false,
            _ => r matches Ok(x) ==> x is Done,
        }
    }

    /// What the sequence needs of the session when `r` comes: the label is
    /// written in blocks of the session's block size.
    pub open spec fn fits(&self, ops: TapeOperations) -> bool {
        self.stage == MkltfsStage::Locate ==> ops.block_size > 0 && ops.block_size + 80 <= usize::MAX
    }

    pub open spec fn valid(&self) -> bool {
        self.stage matches MkltfsStage::Mam(k) ==> k <= 5
    }
}

/// After the format step (or its skip): the partition page is selected
/// when extra partitions are wanted, else the MAM attributes follow.
pub open spec fn after_format(w: MkltfsRun, n: MkltfsRun, r: MkltfsProgress) -> bool {
    if w.extra > 0 {
        n.stage == MkltfsStage::ModeSelect && (r matches MkltfsProgress::Command(
            MkltfsCommand::ModeSelectPartition(m, e, d, p0, p1),
        ) && m == w.max_extra && e == w.extra && d@ == w.mode_data@ && p0 == w.params.p0_size && p1
            == w.params.p1_size)
    } else {
        mam_step(w, n, r, 0)
    }
}

/// The write of the `k`-th MAM attribute.
pub open spec fn mam_step(w: MkltfsRun, n: MkltfsRun, r: MkltfsProgress, k: int) -> bool {
    let a = mam_attribute(k, w.app_version@, w.params.extra_partition_count);
    n.stage == MkltfsStage::Mam(k as u8) && (r matches MkltfsProgress::Command(
        MkltfsCommand::SetMamAttribute(id, v, f),
    ) && id == a.0 && v@ == a.1 && f == a.2)
}

/// After the MAM attributes: the barcode when there is one, then the
/// locate to the start of partition 0.
pub open spec fn after_mam(w: MkltfsRun, n: MkltfsRun, r: MkltfsProgress) -> bool {
    if w.params.barcode@.len() > 0 {
        n.stage == MkltfsStage::Barcode && (r matches MkltfsProgress::Command(MkltfsCommand::SetBarcode(b))
            && b@ == w.params.barcode@)
    } else {
        n.stage == MkltfsStage::Locate && r == MkltfsProgress::Command(MkltfsCommand::LocateBlock(0, 0))
    }
}

impl MkltfsRun {
    fn to_mam(&mut self, k: u8) -> (r: MkltfsProgress)
        requires
            k <= 5,
        ensures
            final(self).params == old(self).params,
            final(self).app_version == old(self).app_version,
            final(self).mode_data == old(self).mode_data,
            final(self).max_extra == old(self).max_extra,
            final(self).extra == old(self).extra,
            mam_step(*old(self), *final(self), r, k as int),
    {
        let (id, v, f) = mam_attribute_exec(k, self.app_version.as_slice(), self.params.extra_partition_count);
        self.stage = MkltfsStage::Mam(k);
        MkltfsProgress::Command(MkltfsCommand::SetMamAttribute(id, v, f))
    }

    fn past_format(&mut self) -> (r: MkltfsProgress)
        ensures
            final(self).params == old(self).params,
            final(self).app_version == old(self).app_version,
            final(self).mode_data == old(self).mode_data,
            final(self).max_extra == old(self).max_extra,
            final(self).extra == old(self).extra,
            after_format(*old(self), *final(self), r),
    {
        if self.extra > 0 {
            self.stage = MkltfsStage::ModeSelect;
            let d = self.mode_data.clone();
            MkltfsProgress::Command(
                MkltfsCommand::ModeSelectPartition(self.max_extra, self.extra, d, self.params.p0_size, self.params.p1_size),
            )
        } else {
            self.to_mam(0)
        }
    }

    /// Takes the reply to the last command and gives the next move.  A
    /// tape that does not load, and any failed command but the medium
    /// query (whose failure only means no skip), end the sequence with an
    /// error.
    pub fn step(&mut self, ops: &TapeOperations, reply: Result<MkltfsReply, RustLtfsError>) -> (r: MkltfsProgress)
        requires
            old(self).accepts(reply),
            old(self).fits(*ops),
            old(self).valid(),
        ensures
            final(self).valid(),
            final(self).params == old(self).params,
            final(self).app_version == old(self).app_version,
            r is Finished <==> final(self).stage == MkltfsStage::Finished,
            match (old(self).stage, reply) {
                (MkltfsStage::Media, Err(_)) => final(self).stage == MkltfsStage::Format && r == MkltfsProgress::Command(
                    MkltfsCommand::FormatTape,
                ),
                (_, Err(e)) => final(self).stage == MkltfsStage::Finished && r == MkltfsProgress::Finished(Err(e)),
                (MkltfsStage::Load, Ok(MkltfsReply::Loaded(ok))) => if ok {
                    final(self).stage == MkltfsStage::ModeSense && r == MkltfsProgress::Command(
                        MkltfsCommand::ModeSensePartitionInfo,
                    )
                } else {
                    final(self).stage == MkltfsStage::Finished && (r matches MkltfsProgress::Finished(
                        Err(RustLtfsError::Scsi(m)),
                    ) && m@ == "Failed to load tape"@)
                },
                (MkltfsStage::ModeSense, Ok(MkltfsReply::ModeData(d))) => {
                    &&& final(self).mode_data@ == d@
                    &&& final(self).max_extra == max_extra_of(d@)
                    &&& final(self).extra == if max_extra_of(d@) < old(self).params.extra_partition_count {
                        max_extra_of(d@)
                    } else {
                        old(self).params.extra_partition_count
                    }
                    &&& final(self).stage == MkltfsStage::Capacity
                    &&& r == MkltfsProgress::Command(MkltfsCommand::SetCapacity(old(self).params.capacity))
                },
                (MkltfsStage::Capacity, Ok(_)) => final(self).stage == MkltfsStage::Media && r == MkltfsProgress::Command(
                    MkltfsCommand::CheckMediaStatus,
                ),
                (MkltfsStage::Media, Ok(MkltfsReply::Media(m))) => if skips_format(m) {
                    after_format(*old(self), *final(self), r)
                } else {
                    final(self).stage == MkltfsStage::Format && r == MkltfsProgress::Command(MkltfsCommand::FormatTape)
                },
                (MkltfsStage::Format, Ok(_)) => after_format(*old(self), *final(self), r),
                (MkltfsStage::ModeSelect, Ok(_)) => final(self).stage == MkltfsStage::Partition && r
                    == MkltfsProgress::Command(MkltfsCommand::PartitionTape(1)),
                (MkltfsStage::Partition, Ok(_)) => mam_step(*old(self), *final(self), r, 0),
                (MkltfsStage::Mam(k), Ok(_)) => if k < 5 {
                    mam_step(*old(self), *final(self), r, k + 1)
                } else {
                    after_mam(*old(self), *final(self), r)
                },
                (MkltfsStage::Barcode, Ok(_)) => final(self).stage == MkltfsStage::Locate && r == MkltfsProgress::Command(
                    MkltfsCommand::LocateBlock(0, 0),
                ),
                (MkltfsStage::Locate, Ok(_)) => final(self).stage == MkltfsStage::WriteLabel && (r matches MkltfsProgress::Command(
                    MkltfsCommand::WriteBlocks(n, b),
                ) && is_ltfs_vol1_label(b@) && b@ == padded(b@.take(80), ops.block_size as nat) && n as nat
                    == (80 + ops.block_size - 1) / (ops.block_size as int) && (old(self).params.volume_label@.len() > 0 ==> b@.take(80)
                    == crate::format::vol1_label_with_id(vstd::utf8::encode_utf8(old(self).params.volume_label@)))),
                (MkltfsStage::WriteLabel, Ok(_)) => final(self).stage == MkltfsStage::Finished && r == MkltfsProgress::Finished(
                    Ok(true),
                ),
                _ => false,
            },
    {
        match reply {
            Err(e) => {
                if self.stage == MkltfsStage::Media {
                    self.stage = MkltfsStage::Format;
                    return MkltfsProgress::Command(MkltfsCommand::FormatTape);
                }
                self.stage = MkltfsStage::Finished;
                MkltfsProgress::Finished(Err(e))
            },
            Ok(x) => match self.stage {
                MkltfsStage::Load => match x {
                    MkltfsReply::Loaded(true) => {
                        self.stage = MkltfsStage::ModeSense;
                        MkltfsProgress::Command(MkltfsCommand::ModeSensePartitionInfo)
                    },
                    _ => {
                        self.stage = MkltfsStage::Finished;
                        MkltfsProgress::Finished(Err(RustLtfsError::Scsi("Failed to load tape".to_owned())))
                    },
                },
                MkltfsStage::ModeSense => match x {
                    MkltfsReply::ModeData(d) => {
                        let max_extra: u8 = if d.len() >= 3 { d[2] } else { 1 };
                        self.max_extra = max_extra;
                        self.extra = if max_extra < self.params.extra_partition_count {
                            max_extra
                        } else {
                            self.params.extra_partition_count
                        };
                        self.mode_data = d;
                        self.stage = MkltfsStage::Capacity;
                        MkltfsProgress::Command(MkltfsCommand::SetCapacity(self.params.capacity))
                    },
                    _ => {
                        self.stage = MkltfsStage::Finished;
                        MkltfsProgress::Finished(Ok(true))
                    },
                },
                MkltfsStage::Capacity => {
                    self.stage = MkltfsStage::Media;
                    MkltfsProgress::Command(MkltfsCommand::CheckMediaStatus)
                },
                MkltfsStage::Media => match x {
                    MkltfsReply::Media(m) => {
                        let skip = match m {
                            MediaType::Lto9Rw | MediaType::Lto9Worm | MediaType::Lto9Ro => true,
                            _ => false,
                        };
                        if skip {
                            self.past_format()
                        } else {
                            self.stage = MkltfsStage::Format;
                            MkltfsProgress::Command(MkltfsCommand::FormatTape)
                        }
                    },
                    _ => {
                        self.stage = MkltfsStage::Finished;
                        MkltfsProgress::Finished(Ok(true))
                    },
                },
                MkltfsStage::Format => self.past_format(),
                MkltfsStage::ModeSelect => {
                    self.stage = MkltfsStage::Partition;
                    MkltfsProgress::Command(MkltfsCommand::PartitionTape(ops.get_partition_type_for_drive()))
                },
                MkltfsStage::Partition => self.to_mam(0),
                MkltfsStage::Mam(k) => {
                    if k < 5 {
                        self.to_mam(k + 1)
                    } else if !self.params.barcode.as_str().is_empty() {
                        self.stage = MkltfsStage::Barcode;
                        MkltfsProgress::Command(MkltfsCommand::SetBarcode(self.params.barcode.clone()))
                    } else {
                        self.stage = MkltfsStage::Locate;
                        MkltfsProgress::Command(MkltfsCommand::LocateBlock(0, 0))
                    }
                },
                MkltfsStage::Barcode => {
                    self.stage = MkltfsStage::Locate;
                    MkltfsProgress::Command(MkltfsCommand::LocateBlock(0, 0))
                },
                MkltfsStage::Locate => {
                    let label = match ops.create_ltfs_volume_label(&self.params, self.extra) {
                        Ok(l) => l,
                        Err(e) => {
                            self.stage = MkltfsStage::Finished;
                            return MkltfsProgress::Finished(Err(e));
                        },
                    };
                    let bs = ops.block_size as usize;
                    proof {
                        let b = bs as int;
                        assert((80 + b - 1) / b * b <= 80 + b - 1) by (nonlinear_arith)
                            requires b >= 1;
                        assert((80 + b - 1) / b <= 80) by (nonlinear_arith)
                            requires b >= 1;
                        assert((80 + b - 1) / b * b >= 80) by (nonlinear_arith)
                            requires b >= 1;
                    }
                    let buffer = pad_to_blocks(label.as_slice(), bs);
                    proof {
                        assert(buffer@.take(80) =~= label@);
                        assert(buffer@.subrange(0, 4) =~= label@.subrange(0, 4));
                        assert(buffer@.subrange(24, 28) =~= label@.subrange(24, 28));
                    }
                    let blocks = (80 + bs - 1) / bs;
                    self.stage = MkltfsStage::WriteLabel;
                    MkltfsProgress::Command(MkltfsCommand::WriteBlocks(blocks as u32, buffer))
                },
                MkltfsStage::WriteLabel => {
                    self.stage = MkltfsStage::Finished;
                    MkltfsProgress::Finished(Ok(true))
                },
                MkltfsStage::Finished => MkltfsProgress::Finished(Ok(true)),
            },
        }
    }
}


/// Today's date in UTC as `YYYYMMDD` (`chrono::Utc::now().format("%Y%m%d")`).
/// It reads the clock, so nothing is stated of it.
#[verifier::external_body]
fn utc_date_compact() -> String {
    chrono::Utc::now().format("%Y%m%d").to_string()
}

/// The partitioning a `create_partitions` call asks of the drive.
#[derive(Debug, Clone, PartialEq, Eq)]
pub struct PartitionPlan {
    /// The drive's maximum of extra partitions.
    pub max_extra_partitions: u8,
    /// The extra partitions made: one.
    pub extra_partitions: u8,
    /// The MODE SENSE data handed back to MODE SELECT.
    pub mode_data: Vec<u8>,
    pub p0_size: u16,
    pub p1_size: u16,
    /// The partition type of the PARTITION command.
    pub partition_type: u8,
}

impl TapeOperations {
    /// Whether the format step is skipped: the medium is LTO-9 (`media` is
    /// the outcome of the medium query; a failed query skips nothing).
    pub fn should_skip_format_for_lto9_plus(&self, media: Result<MediaType, RustLtfsError>) -> (b: bool)
        ensures
            b == (media matches Ok(m) && skips_format(m)),
    {
        match media {
            Ok(MediaType::Lto9Rw) | Ok(MediaType::Lto9Worm) | Ok(MediaType::Lto9Ro) => true,
            _ => false,
        }
    }

    /// The same format sequence as `mkltfs`, started by the format
    /// initialisation.
    pub fn initialize_tape_format(&self, params: MkltfsParams, app_version: &str) -> (r: (MkltfsRun, MkltfsProgress))
        ensures
            r.0.params == params,
            r.0.app_version@ == vstd::utf8::encode_utf8(app_version@),
            !params_valid(params) ==> (r.1 matches MkltfsProgress::Finished(Err(e)) && e is ParameterValidation)
                && r.0.stage == MkltfsStage::Finished,
            params_valid(params) && self.offline_mode ==> r.1 == MkltfsProgress::Finished(Ok(false))
                && r.0.stage == MkltfsStage::Finished,
            params_valid(params) && !self.offline_mode ==> r.1 == MkltfsProgress::Command(MkltfsCommand::LoadTape)
                && r.0.stage == MkltfsStage::Load,
    {
        self.mkltfs(params, app_version)
    }

    /// Formats with the default parameters changed where a value is given
    /// (the barcode through `set_barcode`, then the index and data partition
    /// sizes through their setters, in that order).
    pub fn create_ltfs_format(
        &self,
        volume_label: Option<String>,
        barcode: Option<String>,
        p0_size_gb: Option<u16>,
        p1_size_gb: Option<u16>,
        block_size: Option<u32>,
        app_version: &str,
    ) -> (r: (MkltfsRun, MkltfsProgress))
        ensures
            ({
                let p = r.0.params;
                &&& p.volume_label@ == match volume_label {
                    Some(l) => l@,
                    None => Seq::<char>::empty(),
                }
                &&& p.barcode@ == match barcode {
                    Some(b) => barcode_of(b@),
                    None => Seq::<char>::empty(),
                }
                &&& p.block_length == match block_size {
                    Some(b) => b,
                    None => 524288u32,
                }
                &&& (p.p0_size, p.p1_size) == match (p0_size_gb, p1_size_gb) {
                    (_, Some(b)) => (if b < 0xFFFF { 0xFFFFu16 } else { 1u16 }, b),
                    (Some(a), None) => (a, if a < 0xFFFF { 0xFFFFu16 } else { 1u16 }),
                    (None, None) => (1u16, 0xFFFFu16),
                }
                &&& p.extra_partition_count == 1
                &&& p.capacity == 0xFFFF
                &&& p.immediate_mode
                &&& p.encryption_key is None
            }),
            r.0.app_version@ == vstd::utf8::encode_utf8(app_version@),
            !params_valid(r.0.params) ==> (r.1 matches MkltfsProgress::Finished(Err(e)) && e is ParameterValidation),
            params_valid(r.0.params) && self.offline_mode ==> r.1 == MkltfsProgress::Finished(Ok(false)),
            params_valid(r.0.params) && !self.offline_mode ==> r.1 == MkltfsProgress::Command(MkltfsCommand::LoadTape),
    {
        let mut params = MkltfsParams::default();
        if let Some(label) = volume_label {
            params.volume_label = label;
        }
        if let Some(b) = barcode {
            params.set_barcode(b.as_str());
        }
        if let Some(a) = p0_size_gb {
            params.set_p0_size(a);
        }
        if let Some(b) = p1_size_gb {
            params.set_p1_size(b);
        }
        if let Some(bs) = block_size {
            params.block_length = bs;
        }
        self.initialize_tape_format(params, app_version)
    }

    /// Formats the tape with the default parameters and the volume label
    /// `RUSTLTFS_` followed by today's date.  Offline nothing is done
    /// (`Ok(None)`).  `media` is the outcome of the medium query; an empty
    /// drive is refused.  Without `force`, a tape that `format_status` (the
    /// outcome of the format detection) finds formatted is refused; a
    /// failed detection does not stop the format.
    pub fn format_tape(
        &self,
        force: bool,
        media: Result<MediaType, RustLtfsError>,
        format_status: Result<LtfsFormatStatus, RustLtfsError>,
        app_version: &str,
    ) -> (r: Result<Option<(MkltfsRun, MkltfsProgress)>, RustLtfsError>)
        ensures
            self.offline_mode ==> r matches Ok(None),
            !self.offline_mode ==> match media {
                Err(e) => r == Err::<Option<(MkltfsRun, MkltfsProgress)>, RustLtfsError>(e),
                Ok(MediaType::NoTape) => r matches Err(e) && e is TapeDevice,
                Ok(_) => if !force && (format_status matches Ok(s) && s is LtfsFormatted) {
                    r matches Err(e) && e is ParameterValidation
                } else {
                    r matches Ok(Some((run, p))) && {
                        &&& run.params.extra_partition_count == 1
                        &&& run.params.block_length == 524288
                        &&& run.params.p0_size == 1
                        &&& run.params.p1_size == 0xFFFF
                        &&& run.params.barcode@.len() == 0
                        &&& run.params.volume_label@.take(9) == "RUSTLTFS_"@
                        &&& run.stage == MkltfsStage::Load
                        &&& p == MkltfsProgress::Command(MkltfsCommand::LoadTape)
                    }
                },
            },
    {
        if self.offline_mode {
            return Ok(None);
        }
        let m = match media {
            Err(e) => {
                return Err(e);
            },
            Ok(m) => m,
        };
        if let MediaType::NoTape = m {
            return Err(RustLtfsError::TapeDevice("No tape loaded".to_owned()));
        }
        if !force {
            if let Ok(status) = format_status {
                if status.is_ltfs_formatted() {
                    return Err(RustLtfsError::ParameterValidation(
                        "Tape already contains LTFS format. Use --force to overwrite".to_owned(),
                    ));
                }
            }
        }
        let mut params = MkltfsParams::default();
        let date = utc_date_compact();
        let mut v: Vec<char> = Vec::new();
        push_str(&mut v, "RUSTLTFS_");
        push_str(&mut v, date.as_str());
        params.volume_label = chars_to_string(&v);
        proof {
            reveal_strlit("RUSTLTFS_");
            assert(params.volume_label@.take(9) =~= "RUSTLTFS_"@);
        }
        Ok(Some(self.mkltfs(params, app_version)))
    }

    /// The partitioning of `create_partitions`: offline nothing is done
    /// (`Ok(None)`); both sizes at the maximum are refused; `mode_data` is
    /// the outcome of MODE SENSE of the partition page, whose byte 2 (0 for
    /// shorter data) is the drive's maximum of extra partitions, and a
    /// drive without any is refused.
    pub fn create_partitions(&self, p0_size_gb: u16, p1_size_gb: u16, mode_data: Result<Vec<u8>, RustLtfsError>) -> (r: Result<Option<PartitionPlan>, RustLtfsError>)
        ensures
            self.offline_mode ==> r matches Ok(None),
            !self.offline_mode ==> if p0_size_gb == 0xFFFF && p1_size_gb == 0xFFFF {
                r matches Err(e) && e is ParameterValidation
            } else {
                match mode_data {
                    Err(e) => r == Err::<Option<PartitionPlan>, RustLtfsError>(e),
                    Ok(d) => if d@.len() >= 3 && d@[2] > 0 {
                        r matches Ok(Some(plan)) && plan.max_extra_partitions == d@[2] && plan.extra_partitions == 1
                            && plan.mode_data@ == d@ && plan.p0_size == p0_size_gb && plan.p1_size == p1_size_gb
                            && plan.partition_type == 1
                    } else {
                        r matches Err(e) && e is Unsupported
                    },
                }
            },
    {
        if self.offline_mode {
            return Ok(None);
        }
        if p0_size_gb == 0xFFFF && p1_size_gb == 0xFFFF {
            return Err(RustLtfsError::ParameterValidation("Both partitions cannot be set to maximum size".to_owned()));
        }
        let d = match mode_data {
            Err(e) => {
                return Err(e);
            },
            Ok(d) => d,
        };
        let max_extra: u8 = if d.len() >= 3 { d[2] } else { 0 };
        if max_extra == 0 {
            return Err(RustLtfsError::Unsupported("Drive does not support partitioning".to_owned()));
        }
        Ok(
            Some(
                PartitionPlan {
                    max_extra_partitions: max_extra,
                    extra_partitions: 1,
                    mode_data: d,
                    p0_size: p0_size_gb,
                    p1_size: p1_size_gb,
                    partition_type: self.get_partition_type_for_drive(),
                },
            ),
        )
    }

    /// Sets the partition label: offline at once; otherwise after the
    /// positioning at the start of partition 0 (`located` is its outcome),
    /// together with the block size the label names.
    pub fn setup_partition_labels(&mut self, label: LtfsPartitionLabel, located: Result<(), RustLtfsError>) -> (r: Result<(), RustLtfsError>)
        ensures
            old(self).offline_mode ==> r is Ok && final(self).partition_label == Some(label) && final(self).block_size
                == old(self).block_size,
            !old(self).offline_mode ==> match located {
                Err(e) => r == Err::<(), RustLtfsError>(e) && *final(self) == *old(self),
                Ok(_) => r is Ok && final(self).partition_label == Some(label) && final(self).block_size
                    == label.blocksize,
            },
            final(self).index == old(self).index,
            final(self).offline_mode == old(self).offline_mode,
            final(self).write_options == old(self).write_options,
    {
        if self.offline_mode {
            self.partition_label = Some(label);
            return Ok(());
        }
        if let Err(e) = located {
            return Err(e);
        }
        let bs = label.blocksize;
        self.partition_label = Some(label);
        self.block_size = bs;
        Ok(())
    }

    /// The block written as the volume label: a VOL1 label whose volume
    /// identifier is the UNIX time modulo 1000000 on six digits, padded with
    /// zeros to one block of the session's block size; `None` offline.
    pub fn write_volume_labels(&self) -> (r: Option<Vec<u8>>)
        requires
            80 <= self.block_size,
            self.block_size + 80 <= usize::MAX,
        ensures
            self.offline_mode ==> r is None,
            !self.offline_mode ==> (r matches Some(b) && b@.len() == self.block_size && is_ltfs_vol1_label(b@)
                && b@ == padded(b@.take(80), self.block_size as nat)),
    {
        if self.offline_mode {
            return None;
        }
        let params = MkltfsParams::default();
        let label = match self.create_ltfs_volume_label(&params, 0) {
            Ok(l) => l,
            Err(_) => Vec::new(),
        };
        let bs = self.block_size as usize;
        proof {
            let b = bs as int;
            assert((80 + b - 1) / b == 1) by (nonlinear_arith)
                requires b >= 80;
        }
        let buffer = pad_to_blocks(label.as_slice(), bs);
        proof {
            assert(buffer@.take(80) =~= label@);
            assert(buffer@.subrange(0, 4) =~= label@.subrange(0, 4));
            assert(buffer@.subrange(24, 28) =~= label@.subrange(24, 28));
        }
        Some(buffer)
    }

    /// After the volume label was written: the partition label, when there
    /// is one, takes `volume_uuid` (a fresh UUID when none is given) and the
    /// current time as its format time.
    pub fn volume_labels_written(&mut self, volume_uuid: Option<String>)
        ensures
            match old(self).partition_label {
                None => final(self).partition_label is None,
                Some(l) => final(self).partition_label matches Some(n) && n.blocksize == l.blocksize && n.compression
                    == l.compression && n.index_partition == l.index_partition && n.data_partition == l.data_partition
                    && (volume_uuid matches Some(u) ==> n.volume_uuid == u),
            },
            final(self).block_size == old(self).block_size,
            final(self).index == old(self).index,
            final(self).offline_mode == old(self).offline_mode,
            final(self).write_options == old(self).write_options,
    {
        let uuid = match volume_uuid {
            Some(u) => u,
            None => crate::index::new_volume_uuid(),
        };
        match self.partition_label.take() {
            None => {},
            Some(l) => {
                self.partition_label = Some(
                    LtfsPartitionLabel {
                        volume_uuid: uuid,
                        blocksize: l.blocksize,
                        compression: l.compression,
                        index_partition: l.index_partition,
                        data_partition: l.data_partition,
                        format_time: now_rfc3339(),
                    },
                );
            },
        }
    }

    /// Takes the format parameters: invalid ones are refused; offline
    /// nothing changes; otherwise the block size becomes the parameters'
    /// block length, and the partition label a default one with that block
    /// size, a fresh volume UUID and the current time.
    pub fn configure_ltfs_parameters(&mut self, params: MkltfsParams) -> (r: Result<(), RustLtfsError>)
        ensures
            !params_valid(params) ==> (r matches Err(e) && e is ParameterValidation) && *final(self) == *old(self),
            params_valid(params) && old(self).offline_mode ==> r is Ok && *final(self) == *old(self),
            params_valid(params) && !old(self).offline_mode ==> r is Ok && final(self).block_size == params.block_length
                && (final(self).partition_label matches Some(l) && l.blocksize == params.block_length && !l.compression
                && l.index_partition == 0 && l.data_partition == 1),
            final(self).index == old(self).index,
            final(self).offline_mode == old(self).offline_mode,
    {
        if let Err(e) = params.validate() {
            return Err(e);
        }
        if self.offline_mode {
            return Ok(());
        }
        self.block_size = params.block_length;
        let mut label = LtfsPartitionLabel::default();
        label.blocksize = params.block_length;
        label.volume_uuid = crate::index::new_volume_uuid();
        label.format_time = now_rfc3339();
        self.partition_label = Some(label);
        Ok(())
    }

    /// The outcome of the format check: offline it passes; otherwise the
    /// tape must be LTFS formatted (`format_status` is the outcome of the
    /// format detection, whose error is passed on) and its index must read
    /// (`index_read_ok`).
    pub fn verify_format(&self, format_status: Result<LtfsFormatStatus, RustLtfsError>, index_read_ok: bool) -> (r: Result<bool, RustLtfsError>)
        ensures
            self.offline_mode ==> r == Ok::<bool, RustLtfsError>(true),
            !self.offline_mode ==> match format_status {
                Err(e) => r == Err::<bool, RustLtfsError>(e),
                Ok(s) => r == Ok::<bool, RustLtfsError>(s is LtfsFormatted && index_read_ok),
            },
    {
        if self.offline_mode {
            return Ok(true);
        }
        match format_status {
            Err(e) => Err(e),
            Ok(s) => Ok(s.is_ltfs_formatted() && index_read_ok),
        }
    }

    /// The format integrity check: the format check itself.
    pub fn check_format_integrity(&self, format_status: Result<LtfsFormatStatus, RustLtfsError>, index_read_ok: bool) -> (r: Result<bool, RustLtfsError>)
        ensures
            self.offline_mode ==> r == Ok::<bool, RustLtfsError>(true),
            !self.offline_mode ==> match format_status {
                Err(e) => r == Err::<bool, RustLtfsError>(e),
                Ok(s) => r == Ok::<bool, RustLtfsError>(s is LtfsFormatted && index_read_ok),
            },
    {
        self.verify_format(format_status, index_read_ok)
    }

    /// The LTFS structure check: offline it passes; otherwise the tape must
    /// be LTFS formatted, and both its index and its partition label must
    /// read (`index_read_ok`, `label_read_ok`).
    pub fn validate_ltfs_structure(
        &self,
        format_status: Result<LtfsFormatStatus, RustLtfsError>,
        index_read_ok: bool,
        label_read_ok: bool,
    ) -> (r: Result<bool, RustLtfsError>)
        ensures
            self.offline_mode ==> r == Ok::<bool, RustLtfsError>(true),
            !self.offline_mode ==> match format_status {
                Err(e) => r == Err::<bool, RustLtfsError>(e),
                Ok(s) => r == Ok::<bool, RustLtfsError>(s is LtfsFormatted && index_read_ok && label_read_ok),
            },
    {
        if self.offline_mode {
            return Ok(true);
        }
        match format_status {
            Err(e) => Err(e),
            Ok(s) => {
                if !s.is_ltfs_formatted() {
                    return Ok(false);
                }
                Ok(index_read_ok && label_read_ok)
            },
        }
    }
}

} // verus!
