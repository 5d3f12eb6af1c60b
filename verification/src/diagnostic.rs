use vstd::prelude::*;
use crate::error::{error_text, RustLtfsError};
use crate::ops::TapePosition;
use crate::text::{chars_to_string, contains, decimal, contains_str, decimal_exec, push_chars, push_str, str_to_chars};
use crate::validator::{total_errors, utf8_lossy, xml_balanced, IndexValidator};

verus! {

/// The position the data-partition index read aims at: block 38 of
/// partition 1.
pub open spec fn at_block38(p: TapePosition) -> bool {
    p.partition == 1 && p.block_number == 38
}

/// Why the data-partition index read failed.
#[derive(Debug)]
pub enum DataPartitionError {
    Block38PositioningFailed { current_block: u64 },
    BacktrackLogicError { details: String },
    InvalidIndexData { reason: String },
    PositionVerificationFailed { expected_partition: u8, expected_block: u64, actual_partition: u8, actual_block: u64 },
}

/// The text of a data-partition read error.
pub open spec fn data_partition_message(e: DataPartitionError) -> Seq<char> {
    match e {
        DataPartitionError::Block38PositioningFailed { current_block } => "P1 Block38定位失败: 当前位置 Block"@
            + decimal(current_block as nat) + ", 期望位置 Block38"@,
        DataPartitionError::BacktrackLogicError { details } => "ReadFileMark回退逻辑错误: "@ + details@,
        DataPartitionError::InvalidIndexData { reason } => "数据分区索引为空或无效: "@ + reason@,
        DataPartitionError::PositionVerificationFailed {
            expected_partition,
            expected_block,
            actual_partition,
            actual_block,
        } => "位置验证失败: 期望P"@ + decimal(expected_partition as nat) + " B"@ + decimal(
            expected_block as nat,
        ) + ", 实际P"@ + decimal(actual_partition as nat) + " B"@ + decimal(actual_block as nat),
    }
}

/// `e` is the index error saying block 38 was not reached, the tape being
/// at block `block`.
pub open spec fn block38_error(e: RustLtfsError, block: u64) -> bool {
    e matches RustLtfsError::LtfsIndex(m) && m@ == data_partition_message(
        DataPartitionError::Block38PositioningFailed { current_block: block },
    )
}

impl DataPartitionError {
    /// The text of the error.
    pub fn message(&self) -> (r: String)
        ensures
            r@ == data_partition_message(*self),
    {
        let mut m: Vec<char> = Vec::new();
        match self {
            DataPartitionError::Block38PositioningFailed { current_block } => {
                push_str(&mut m, "P1 Block38定位失败: 当前位置 Block");
                push_chars(&mut m, &decimal_exec(*current_block));
                push_str(&mut m, ", 期望位置 Block38");
            },
            DataPartitionError::BacktrackLogicError { details } => {
                push_str(&mut m, "ReadFileMark回退逻辑错误: ");
                push_str(&mut m, details.as_str());
            },
            DataPartitionError::InvalidIndexData { reason } => {
                push_str(&mut m, "数据分区索引为空或无效: ");
                push_str(&mut m, reason.as_str());
            },
            DataPartitionError::PositionVerificationFailed { expected_partition, expected_block, actual_partition, actual_block } => {
                push_str(&mut m, "位置验证失败: 期望P");
                push_chars(&mut m, &decimal_exec(*expected_partition as u64));
                push_str(&mut m, " B");
                push_chars(&mut m, &decimal_exec(*expected_block));
                push_str(&mut m, ", 实际P");
                push_chars(&mut m, &decimal_exec(*actual_partition as u64));
                push_str(&mut m, " B");
                push_chars(&mut m, &decimal_exec(*actual_block));
            },
        }
        chars_to_string(&m)
    }

    /// The library error that carries this one: an index error with its text.
    pub fn into_ltfs_error(self) -> (r: RustLtfsError)
        ensures
            r matches RustLtfsError::LtfsIndex(m) && m@ == data_partition_message(self),
    {
        RustLtfsError::LtfsIndex(self.message())
    }
}

/// Positions seen while repeating LTFSCopyGUI's positioning: locate file
/// mark 5 of partition 1, then ReadFileMark.
#[derive(Debug, Clone, Copy)]
pub struct PositionComparison {
    pub initial_position: TapePosition,
    pub after_filemark5: TapePosition,
    pub after_read_filemark: TapePosition,
    pub filemark_detected: bool,
    pub expected_final_block: u64,
    pub actual_final_block: u64,
    pub positioning_correct: bool,
}

/// Findings of the block 38 diagnosis.
#[derive(Debug, Clone)]
pub struct DiagnosticReport {
    pub initial_position: Option<TapePosition>,
    pub filemark5_position: Option<TapePosition>,
    pub read_filemark_position: Option<TapePosition>,
    pub filemark5_success: bool,
    pub read_filemark_success: bool,
    pub filemark_detected: bool,
    pub block38_reached: bool,
    pub actual_block: u64,
    pub errors: Vec<String>,
    pub recommendations: Vec<String>,
}

/// Number of recommendations a report with these findings carries.
pub open spec fn recommendation_count(block38_reached: bool, actual_block: u64, fm5_ok: bool, read_ok: bool) -> nat {
    (if block38_reached { 0nat } else if actual_block == 39 { 2nat } else { 1nat })
        + (if fm5_ok { 0nat } else { 1nat }) + (if read_ok { 0nat } else { 1nat })
}

impl DiagnosticReport {
    /// An empty report: nothing succeeded yet, no findings.
    pub fn new() -> (r: Self)
        ensures
            r.initial_position is None,
            r.filemark5_position is None,
            r.read_filemark_position is None,
            !r.filemark5_success,
            !r.read_filemark_success,
            !r.filemark_detected,
            !r.block38_reached,
            r.actual_block == 0,
            r.errors@.len() == 0,
            r.recommendations@.len() == 0,
    {
        DiagnosticReport {
            initial_position: None,
            filemark5_position: None,
            read_filemark_position: None,
            filemark5_success: false,
            read_filemark_success: false,
            filemark_detected: false,
            block38_reached: false,
            actual_block: 0,
            errors: Vec::new(),
            recommendations: Vec::new(),
        }
    }

    /// Adds a recommendation for each problem found: block 38 not reached
    /// (two when stuck at block 39), file mark 5 not located, ReadFileMark
    /// failed.
    pub fn generate_recommendations(&mut self)
        ensures
            final(self).recommendations@.len() == old(self).recommendations@.len() + recommendation_count(
                old(self).block38_reached,
                old(self).actual_block,
                old(self).filemark5_success,
                old(self).read_filemark_success,
            ),
            final(self).errors@ == old(self).errors@,
            final(self).block38_reached == old(self).block38_reached,
            final(self).actual_block == old(self).actual_block,
            final(self).filemark5_success == old(self).filemark5_success,
            final(self).read_filemark_success == old(self).read_filemark_success,
            final(self).filemark_detected == old(self).filemark_detected,
            final(self).initial_position == old(self).initial_position,
            final(self).filemark5_position == old(self).filemark5_position,
            final(self).read_filemark_position == old(self).read_filemark_position,
    {
        if !self.block38_reached {
            if self.actual_block == 39 {
                self.recommendations.push("ReadFileMark回退逻辑需要修复，当前停留在Block39而不是Block38".to_owned());
                self.recommendations.push("建议检查locate_block方法的回退计算是否正确".to_owned());
            } else {
                let mut m: Vec<char> = Vec::new();
                push_str(&mut m, "意外的块位置");
                push_chars(&mut m, &decimal_exec(self.actual_block));
                push_str(&mut m, "，需要检查整个定位流程");
                self.recommendations.push(chars_to_string(&m));
            }
        }
        if !self.filemark5_success {
            self.recommendations.push("FileMark 5定位失败，检查磁带是否包含足够的FileMark".to_owned());
        }
        if !self.read_filemark_success {
            self.recommendations.push("ReadFileMark操作失败，检查SCSI命令实现".to_owned());
        }
    }
}

/// Reads the LTFS index copy of the data partition (block 38 of partition
/// 1); the drive is driven by the caller.
pub struct DataPartitionIndexReader {
    pub debug_mode: bool,
}

/// Data the strict validator accepts as a valid index.
pub open spec fn strictly_valid_index(d: Seq<u8>) -> bool {
    total_errors(d) == 0 && contains(utf8_lossy(d), "<ltfsindex"@) && xml_balanced(utf8_lossy(d))
}

impl DataPartitionIndexReader {
    /// A reader in debug mode.
    pub fn new() -> (r: Self)
        ensures
            r.debug_mode,
    {
        DataPartitionIndexReader { debug_mode: true }
    }

    pub fn set_debug_mode(&mut self, enabled: bool)
        ensures
            final(self).debug_mode == enabled,
    {
        self.debug_mode = enabled;
    }

    /// Whether the position read from the drive is block 38 of partition 1.
    pub fn verify_block38_positioning(&self, current: TapePosition) -> (r: Result<bool, RustLtfsError>)
        ensures
            r == Ok::<bool, RustLtfsError>(at_block38(current)),
    {
        Ok(current.partition == 1 && current.block_number == 38)
    }

    /// Accepts index data the strict validator finds valid.
    pub fn validate_index_data(&self, data: &[u8]) -> (r: Result<(), RustLtfsError>)
        ensures
            r is Ok <==> strictly_valid_index(data@),
            r matches Err(e) ==> e is LtfsIndex,
    {
        let mut validator = IndexValidator::new();
        if self.debug_mode {
            validator.set_debug_mode(true);
        }
        match validator.validate_index_data(data) {
            Ok(result) => {
                if result.is_valid {
                    Ok(())
                } else {
                    let mut m: Vec<char> = Vec::new();
                    push_str(&mut m, "验证失败: ");
                    let mut i: usize = 0;
                    while i < result.errors.len()
                        decreases result.errors@.len() - i,
                    {
                        if i > 0 {
                            push_str(&mut m, "; ");
                        }
                        push_str(&mut m, result.errors[i].as_str());
                        i = i + 1;
                    }
                    Err(DataPartitionError::InvalidIndexData { reason: chars_to_string(&m) }.into_ltfs_error())
                }
            },
            Err(e) => {
                let mut m: Vec<char> = Vec::new();
                push_str(&mut m, "验证器错误: ");
                let t = e.to_text();
                push_str(&mut m, t.as_str());
                Err(DataPartitionError::InvalidIndexData { reason: chars_to_string(&m) }.into_ltfs_error())
            },
        }
    }

    /// The comparison with LTFSCopyGUI's positioning from the positions
    /// seen: before, after locating file mark 5, after ReadFileMark.
    pub fn compare_with_ltfscopygui_positioning(
        &self,
        initial: TapePosition,
        after_filemark5: TapePosition,
        filemark_detected: bool,
        after_read_filemark: TapePosition,
    ) -> (r: Result<PositionComparison, RustLtfsError>)
        ensures
            r matches Ok(c) && c.initial_position == initial && c.after_filemark5 == after_filemark5
                && c.after_read_filemark == after_read_filemark && c.filemark_detected == filemark_detected
                && c.expected_final_block == 38 && c.actual_final_block == after_read_filemark.block_number
                && c.positioning_correct == at_block38(after_read_filemark),
    {
        Ok(PositionComparison {
            initial_position: initial,
            after_filemark5,
            after_read_filemark,
            filemark_detected,
            expected_final_block: 38,
            actual_final_block: after_read_filemark.block_number,
            positioning_correct: after_read_filemark.partition == 1 && after_read_filemark.block_number == 38,
        })
    }

    /// The diagnosis from what the drive did: the initial position, the
    /// outcome of locating file mark 5 of partition 1 (the position reached)
    /// and, when that worked, the outcome of ReadFileMark (whether a file
    /// mark was met, and the position reached).
    pub fn diagnose_block38_issue(
        &self,
        initial: TapePosition,
        filemark5: Result<TapePosition, RustLtfsError>,
        read_filemark: Result<(bool, TapePosition), RustLtfsError>,
    ) -> (r: Result<DiagnosticReport, RustLtfsError>)
        ensures
            r matches Ok(rep) && {
                &&& rep.initial_position == Some(initial)
                &&& rep.filemark5_success == (filemark5 is Ok)
                &&& match filemark5 {
                    Ok(p) => rep.filemark5_position == Some(p),
                    Err(_) => rep.filemark5_position is None,
                }
                &&& rep.read_filemark_success == (filemark5 is Ok && read_filemark is Ok)
                &&& match (filemark5, read_filemark) {
                    (Ok(_), Ok((det, p))) => {
                        &&& rep.read_filemark_position == Some(p)
                        &&& rep.filemark_detected == det
                        &&& rep.block38_reached == at_block38(p)
                        &&& rep.actual_block == if at_block38(p) { 0 } else { p.block_number }
                        &&& rep.errors@.len() == if at_block38(p) { 0nat } else { 1nat }
                    },
                    (Ok(_), Err(_)) => !rep.block38_reached && rep.read_filemark_position is None
                        && rep.errors@.len() == 1,
                    (Err(_), _) => !rep.block38_reached && rep.read_filemark_position is None
                        && rep.errors@.len() == 1,
                }
                &&& rep.recommendations@.len() == recommendation_count(
                    rep.block38_reached,
                    rep.actual_block,
                    rep.filemark5_success,
                    rep.read_filemark_success,
                )
            },
    {
        let mut report = DiagnosticReport::new();
        report.initial_position = Some(initial);
        match filemark5 {
            Ok(p) => {
                report.filemark5_position = Some(p);
                report.filemark5_success = true;
            },
            Err(e) => {
                report.filemark5_success = false;
                let mut m: Vec<char> = Vec::new();
                push_str(&mut m, "FileMark 5定位失败: ");
                let t = e.to_text();
                push_str(&mut m, t.as_str());
                report.errors.push(chars_to_string(&m));
            },
        }
        if report.filemark5_success {
            match read_filemark {
                Ok((detected, pos)) => {
                    if pos.partition == 1 && pos.block_number == 38 {
                        report.block38_reached = true;
                    } else {
                        report.block38_reached = false;
                        report.actual_block = pos.block_number;
                    }
                    if !report.block38_reached {
                        if pos.block_number == 39 {
                            report.errors.push("ReadFileMark回退逻辑可能未正确执行".to_owned());
                        } else {
                            let mut m: Vec<char> = Vec::new();
                            push_str(&mut m, "意外的块位置: ");
                            push_chars(&mut m, &decimal_exec(pos.block_number));
                            report.errors.push(chars_to_string(&m));
                        }
                    }
                    report.read_filemark_position = Some(pos);
                    report.read_filemark_success = true;
                    report.filemark_detected = detected;
                },
                Err(e) => {
                    report.read_filemark_success = false;
                    let mut m: Vec<char> = Vec::new();
                    push_str(&mut m, "ReadFileMark执行失败: ");
                    let t = e.to_text();
                    push_str(&mut m, t.as_str());
                    report.errors.push(chars_to_string(&m));
                },
            }
        }
        report.generate_recommendations();
        Ok(report)
    }
}

/// Where a ReadFileMark left the tape, as the back-track test reports it.
#[derive(Debug, Clone, Copy, PartialEq, Eq, Structural)]
pub enum BacktrackOutcome {
    /// At block 38 of partition 1.
    ReachedBlock38,
    /// One block too far, at block 39.
    StuckAtBlock39,
    /// Elsewhere.
    Unexpected(u64),
}

pub open spec fn backtrack_outcome_of(p: TapePosition) -> BacktrackOutcome {
    if at_block38(p) {
        BacktrackOutcome::ReachedBlock38
    } else if p.block_number == 39 {
        BacktrackOutcome::StuckAtBlock39
    } else {
        BacktrackOutcome::Unexpected(p.block_number)
    }
}

/// What a failed fixed read calls for.
#[derive(Debug, Clone, Copy, PartialEq, Eq, Structural)]
pub enum TroubleshootingTopic {
    Block38Positioning,
    BacktrackLogic,
    InvalidIndexData,
    General,
}

pub open spec fn topic_of_error_text(t: Seq<char>) -> TroubleshootingTopic {
    if contains(t, "Block38PositioningFailed"@) {
        TroubleshootingTopic::Block38Positioning
    } else if contains(t, "BacktrackLogicError"@) {
        TroubleshootingTopic::BacktrackLogic
    } else if contains(t, "InvalidIndexData"@) {
        TroubleshootingTopic::InvalidIndexData
    } else {
        TroubleshootingTopic::General
    }
}

/// Diagnosis of the block 38 positioning of a drive.
pub struct Block38Diagnostic {
    pub device_path: String,
}

impl Block38Diagnostic {
    pub fn new(device_path: String) -> (d: Self)
        ensures
            d.device_path == device_path,
    {
        Block38Diagnostic { device_path }
    }

    /// How the position after a ReadFileMark is reported.
    pub fn backtrack_outcome(&self, position: TapePosition) -> (r: BacktrackOutcome)
        ensures
            r == backtrack_outcome_of(position),
    {
        if position.partition == 1 && position.block_number == 38 {
            BacktrackOutcome::ReachedBlock38
        } else if position.block_number == 39 {
            BacktrackOutcome::StuckAtBlock39
        } else {
            BacktrackOutcome::Unexpected(position.block_number)
        }
    }

    /// The troubleshooting advice an error of the fixed read calls for, by
    /// its text.
    pub fn troubleshooting_topic(&self, error: &RustLtfsError) -> (r: TroubleshootingTopic)
        ensures
            r == topic_of_error_text(error_text(*error)),
    {
        let text = error.to_text();
        let t = str_to_chars(text.as_str());
        if contains_str(&t, "Block38PositioningFailed") {
            TroubleshootingTopic::Block38Positioning
        } else if contains_str(&t, "BacktrackLogicError") {
            TroubleshootingTopic::BacktrackLogic
        } else if contains_str(&t, "InvalidIndexData") {
            TroubleshootingTopic::InvalidIndexData
        } else {
            TroubleshootingTopic::General
        }
    }
}


/// What ReadFileMark does after its one-block read.
#[derive(Debug, Clone, Copy, PartialEq, Eq, Structural)]
pub enum FileMarkBacktrack {
    /// Nothing was read: the tape was at a file mark.
    AtFileMark,
    /// Data was read at block 0: no step back is possible.
    AtBlockZero,
    /// Data was read: step back to this partition and block.
    StepBack(u8, u64),
}

/// The step back after a READ(6) of one block.
pub open spec fn backtrack_after_read(read_data: bool, after_read: TapePosition) -> FileMarkBacktrack {
    if !read_data {
        FileMarkBacktrack::AtFileMark
    } else if after_read.block_number > 0 {
        FileMarkBacktrack::StepBack(after_read.partition, (after_read.block_number - 1) as u64)
    } else {
        FileMarkBacktrack::AtBlockZero
    }
}

impl DataPartitionIndexReader {
    /// ReadFileMark's decision after its one-block read: `read_data` tells
    /// whether the read returned data, `after_read` is the position then.
    pub fn read_file_mark_enhanced(&self, read_data: bool, after_read: TapePosition) -> (r: FileMarkBacktrack)
        ensures
            r == backtrack_after_read(read_data, after_read),
    {
        if !read_data {
            FileMarkBacktrack::AtFileMark
        } else if after_read.block_number > 0 {
            FileMarkBacktrack::StepBack(after_read.partition, after_read.block_number - 1)
        } else {
            FileMarkBacktrack::AtBlockZero
        }
    }

    /// Checks the step back: the position reached, and after a forced
    /// relocation (`corrected`, when the first attempt missed) the final
    /// one, must be at `target_block`.
    pub fn check_backtrack(&self, target_block: u64, reached: TapePosition, corrected: Option<TapePosition>) -> (r: Result<bool, RustLtfsError>)
        ensures
            reached.block_number == target_block ==> r == Ok::<bool, RustLtfsError>(false),
            reached.block_number != target_block ==> match corrected {
                Some(c) => if c.block_number == target_block {
                    r == Ok::<bool, RustLtfsError>(false)
                } else {
                    r matches Err(e) && e is LtfsIndex
                },
                None => r matches Err(e) && e is LtfsIndex,
            },
    {
        if reached.block_number == target_block {
            return Ok(false);
        }
        match corrected {
            Some(c) => {
                if c.block_number != target_block {
                    let mut m: Vec<char> = Vec::new();
                    push_str(&mut m, "强制校正也失败: 期望B");
                    push_chars(&mut m, &decimal_exec(target_block));
                    push_str(&mut m, ", 实际B");
                    push_chars(&mut m, &decimal_exec(c.block_number));
                    return Err(DataPartitionError::BacktrackLogicError { details: chars_to_string(&m) }.into_ltfs_error());
                }
                Ok(false)
            },
            None => Err(DataPartitionError::BacktrackLogicError { details: "回退位置未校正".to_owned() }.into_ltfs_error()),
        }
    }

    /// The fixed read of the index at block 38 of partition 1: a file mark
    /// met by ReadFileMark is a failure at `current`; otherwise the tape
    /// must be at block 38 of partition 1, or be moved there (`corrected`
    /// is the position after that move, when one was needed).  Then the
    /// data read there (`index_data`) is returned when the strict validator
    /// accepts it.
    pub fn read_data_partition_index_fixed(
        &self,
        filemark_detected: bool,
        current: TapePosition,
        corrected: Option<TapePosition>,
        index_data: Result<Vec<u8>, RustLtfsError>,
    ) -> (r: Result<Vec<u8>, RustLtfsError>)
        ensures
            ({
                let positioned = !filemark_detected && (at_block38(current) || (corrected matches Some(c)
                    && c.block_number == 38));
                &&& filemark_detected ==> (r matches Err(e) && block38_error(e, current.block_number))
                &&& !filemark_detected && !at_block38(current) ==> match corrected {
                    Some(c) => c.block_number != 38 ==> (r matches Err(e) && block38_error(e, c.block_number)),
                    None => r matches Err(e) && block38_error(e, current.block_number),
                }
                &&& positioned ==> match index_data {
                    Err(e) => r == Err::<Vec<u8>, RustLtfsError>(e),
                    Ok(d) => match r {
                        Ok(v) => v@ == d@ && strictly_valid_index(d@),
                        Err(e) => !strictly_valid_index(d@) && e is LtfsIndex,
                    },
                }
            }),
    {
        if filemark_detected {
            return Err(DataPartitionError::Block38PositioningFailed { current_block: current.block_number }.into_ltfs_error());
        }
        if current.partition != 1 || current.block_number != 38 {
            match corrected {
                Some(c) => {
                    if c.block_number != 38 {
                        return Err(DataPartitionError::Block38PositioningFailed { current_block: c.block_number }.into_ltfs_error());
                    }
                },
                None => {
                    return Err(DataPartitionError::Block38PositioningFailed { current_block: current.block_number }.into_ltfs_error());
                },
            }
        }
        let data = match index_data {
            Ok(d) => d,
            Err(e) => {
                return Err(e);
            },
        };
        match self.validate_index_data(data.as_slice()) {
            Ok(()) => Ok(data),
            Err(e) => Err(e),
        }
    }
}


/// The verdict of the ReadFileMark back-track test, comparing where the
/// original and the fixed ReadFileMark left the tape.
#[derive(Debug, Clone, Copy, PartialEq, Eq, Structural)]
pub enum BacktrackComparison {
    /// The fixed one reached block 38 where the original stopped at 39.
    FixResolvedIt,
    /// They differ otherwise.
    Differ,
    /// Both reached block 38.
    BothCorrect,
    /// Both stopped at the same block, not 38.
    BothWrong,
}

pub open spec fn backtrack_comparison_of(original: TapePosition, fixed: TapePosition) -> BacktrackComparison {
    if original.block_number != fixed.block_number {
        if fixed.block_number == 38 && original.block_number == 39 {
            BacktrackComparison::FixResolvedIt
        } else {
            BacktrackComparison::Differ
        }
    } else if fixed.block_number == 38 {
        BacktrackComparison::BothCorrect
    } else {
        BacktrackComparison::BothWrong
    }
}

/// What the quick diagnosis found.
#[derive(Debug, Clone, Copy, PartialEq, Eq, Structural)]
pub enum QuickDiagnosis {
    /// The tape is at block 38 of partition 1.
    Correct,
    /// It was not, and a LOCATE to block 38 of partition 1 put it there.
    Repaired,
    /// It was not, and the LOCATE did not help.
    RepairFailed,
}

impl Block38Diagnostic {
    /// The verdict of the back-track test from the positions after the
    /// original and the fixed ReadFileMark.
    pub fn compare_backtrack(&self, original: TapePosition, fixed: TapePosition) -> (r: BacktrackComparison)
        ensures
            r == backtrack_comparison_of(original, fixed),
    {
        if original.block_number != fixed.block_number {
            if fixed.block_number == 38 && original.block_number == 39 {
                BacktrackComparison::FixResolvedIt
            } else {
                BacktrackComparison::Differ
            }
        } else if fixed.block_number == 38 {
            BacktrackComparison::BothCorrect
        } else {
            BacktrackComparison::BothWrong
        }
    }

    /// The quick diagnosis: the current position, and (when it is not block
    /// 38 of partition 1) the position after the LOCATE to it, which the
    /// caller makes only then.
    pub fn run_quick_diagnostic(&self, current: TapePosition, after_locate: Option<TapePosition>) -> (r: Option<QuickDiagnosis>)
        ensures
            at_block38(current) ==> r == Some(QuickDiagnosis::Correct),
            !at_block38(current) ==> match after_locate {
                Some(p) => r == Some(if at_block38(p) { QuickDiagnosis::Repaired } else { QuickDiagnosis::RepairFailed }),
                None => r is None,
            },
    {
        if current.partition == 1 && current.block_number == 38 {
            return Some(QuickDiagnosis::Correct);
        }
        match after_locate {
            Some(p) => {
                if p.partition == 1 && p.block_number == 38 {
                    Some(QuickDiagnosis::Repaired)
                } else {
                    Some(QuickDiagnosis::RepairFailed)
                }
            },
            None => None,
        }
    }
}

} // verus!
