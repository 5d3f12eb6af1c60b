use vstd::prelude::*;
use crate::error::{error_text, RustLtfsError};
use crate::ops::TapeOperations;
use crate::text::{contains, contains_str, str_to_chars, trim, trim_bounds};

verus! {

/// What a look at the index partition tells about the tape.
#[derive(Debug, Clone, PartialEq, Eq)]
pub enum LtfsFormatStatus {
    /// An LTFS index of this many bytes was found.
    LtfsFormatted(usize),
    BlankTape,
    NonLtfsFormat,
    CorruptedIndex,
    PositioningFailed,
    HardwareError,
    Unknown,
}

impl LtfsFormatStatus {
    pub fn description(&self) -> (s: &'static str)
        ensures
            s@ == match self {
                LtfsFormatStatus::LtfsFormatted(_) => "LTFS formatted tape"@,
                LtfsFormatStatus::BlankTape => "Blank tape (no data)"@,
                LtfsFormatStatus::NonLtfsFormat => "Non-LTFS formatted tape"@,
                LtfsFormatStatus::CorruptedIndex => "LTFS tape with corrupted index"@,
                LtfsFormatStatus::PositioningFailed => "Tape positioning failed"@,
                LtfsFormatStatus::HardwareError => "Hardware or communication error"@,
                LtfsFormatStatus::Unknown => "Unknown format status"@,
            },
    {
        match self {
            LtfsFormatStatus::LtfsFormatted(_) => "LTFS formatted tape",
            LtfsFormatStatus::BlankTape => "Blank tape (no data)",
            LtfsFormatStatus::NonLtfsFormat => "Non-LTFS formatted tape",
            LtfsFormatStatus::CorruptedIndex => "LTFS tape with corrupted index",
            LtfsFormatStatus::PositioningFailed => "Tape positioning failed",
            LtfsFormatStatus::HardwareError => "Hardware or communication error",
            LtfsFormatStatus::Unknown => "Unknown format status",
        }
    }

    pub fn is_ltfs_formatted(&self) -> (b: bool)
        ensures
            b == (self is LtfsFormatted),
    {
        match self {
            LtfsFormatStatus::LtfsFormatted(_) => true,
            _ => false,
        }
    }
}

/// The status an error met while reading the index stands for, by its text.
pub open spec fn status_of_error_text(t: Seq<char>) -> LtfsFormatStatus {
    if contains(t, "No data could be read"@) {
        LtfsFormatStatus::BlankTape
    } else if contains(t, "positioning"@) || contains(t, "locate"@) {
        LtfsFormatStatus::PositioningFailed
    } else if contains(t, "SCSI"@) || contains(t, "communication"@) {
        LtfsFormatStatus::HardwareError
    } else {
        LtfsFormatStatus::Unknown
    }
}

/// An index text that can be used: not empty and holding `<ltfsindex`.
pub open spec fn index_xml_acceptable(x: Seq<char>) -> bool {
    x.len() > 0 && contains(x, "<ltfsindex"@)
}

/// A complete-looking LTFS index: both root tags, a directory, and more
/// than 200 bytes.
pub open spec fn looks_like_ltfs_index(x: Seq<char>) -> bool {
    &&& contains(x, "<ltfsindex"@)
    &&& contains(x, "</ltfsindex>"@)
    &&& contains(x, "<directory"@)
    &&& (vstd::utf8::encode_utf8(x).len() as usize) > 200
}

impl TapeOperations {
    /// The format status an error met while reading the index stands for.
    pub fn classify_format_detection_error(&self, error: RustLtfsError) -> (r: Result<LtfsFormatStatus, RustLtfsError>)
        ensures
            r == Ok::<LtfsFormatStatus, RustLtfsError>(status_of_error_text(error_text(error))),
    {
        let text = error.to_text();
        let t = str_to_chars(text.as_str());
        if contains_str(&t, "No data could be read") {
            Ok(LtfsFormatStatus::BlankTape)
        } else if contains_str(&t, "positioning") || contains_str(&t, "locate") {
            Ok(LtfsFormatStatus::PositioningFailed)
        } else if contains_str(&t, "SCSI") || contains_str(&t, "communication") {
            Ok(LtfsFormatStatus::HardwareError)
        } else {
            Ok(LtfsFormatStatus::Unknown)
        }
    }

    /// Basic checks of an index text: not empty, holds `<ltfsindex`.
    pub fn validate_index_xml(&self, xml_content: &str) -> (r: Result<(), RustLtfsError>)
        ensures
            r is Ok <==> index_xml_acceptable(xml_content@),
            r matches Err(e) ==> e is LtfsIndex,
    {
        if xml_content.is_empty() {
            return Err(RustLtfsError::LtfsIndex("Index XML is empty".to_owned()));
        }
        let t = str_to_chars(xml_content);
        if !contains_str(&t, "<ltfsindex") {
            return Err(RustLtfsError::LtfsIndex(
                "Invalid LTFS index format - missing ltfsindex element".to_owned(),
            ));
        }
        Ok(())
    }

    /// Whether a text looks like a complete LTFS index.
    pub fn is_valid_ltfs_index(&self, xml_content: &str) -> (b: bool)
        ensures
            b == looks_like_ltfs_index(xml_content@),
    {
        let t = str_to_chars(xml_content);
        contains_str(&t, "<ltfsindex") && contains_str(&t, "</ltfsindex>") && contains_str(&t, "<directory")
            && xml_content.len() > 200
    }

    /// The format status of the tape.  Offline the status is unknown;
    /// `locate` is the outcome of positioning at block 0 of partition a and
    /// `index_read` that of reading the index there (only looked at when
    /// the positioning succeeded).  A non-blank index text that passes the
    /// basic checks means an LTFS tape, a blank one a blank tape, and a read
    /// error is classified by its text.
    pub fn detect_ltfs_format_status(
        &self,
        locate: Result<(), RustLtfsError>,
        index_read: Result<String, RustLtfsError>,
    ) -> (r: Result<LtfsFormatStatus, RustLtfsError>)
        ensures
            r matches Ok(st) && st == if self.offline_mode {
                LtfsFormatStatus::Unknown
            } else if locate is Err {
                LtfsFormatStatus::PositioningFailed
            } else {
                match index_read {
                    Ok(x) => if trim(x@).len() > 0 {
                        if index_xml_acceptable(x@) {
                            LtfsFormatStatus::LtfsFormatted((vstd::utf8::encode_utf8(x@).len() as usize))
                        } else {
                            LtfsFormatStatus::CorruptedIndex
                        }
                    } else {
                        LtfsFormatStatus::BlankTape
                    },
                    Err(e) => status_of_error_text(error_text(e)),
                }
            },
    {
        if self.offline_mode {
            return Ok(LtfsFormatStatus::Unknown);
        }
        if locate.is_err() {
            return Ok(LtfsFormatStatus::PositioningFailed);
        }
        match index_read {
            Ok(xml) => {
                let t = str_to_chars(xml.as_str());
                let (a, b) = trim_bounds(&t);
                if b > a {
                    match self.validate_index_xml(xml.as_str()) {
                        Ok(()) => Ok(LtfsFormatStatus::LtfsFormatted(xml.as_str().len())),
                        Err(_) => Ok(LtfsFormatStatus::CorruptedIndex),
                    }
                } else {
                    Ok(LtfsFormatStatus::BlankTape)
                }
            },
            Err(e) => self.classify_format_detection_error(e),
        }
    }
}

} // verus!
