use vstd::prelude::*;
use crate::text::{chars_to_string, push_str};

verus! {

/// Errors reported by the library; each carries a human readable message.
#[derive(Debug, Clone, PartialEq, Eq)]
pub enum RustLtfsError {
    /// A problem with the LTFS index or its location on tape.
    LtfsIndex(String),
    /// Malformed text or data.
    Parse(String),
    /// A SCSI command failed or returned unusable data.
    Scsi(String),
    /// The tape device is not in a usable state.
    TapeDevice(String),
    /// A parameter is out of its permitted range.
    ParameterValidation(String),
    /// The drive does not support the requested feature.
    Unsupported(String),
    /// A local file or directory could not be read or written.
    FileOperation(String),
    /// The user stopped the running operation.
    OperationCancelled(String),
}

/// The prefix that names the kind of an error in its text.
pub open spec fn error_prefix(e: RustLtfsError) -> Seq<char> {
    match e {
        RustLtfsError::LtfsIndex(_) => "LTFS index error: "@,
        RustLtfsError::Parse(_) => "Parse error: "@,
        RustLtfsError::Scsi(_) => "SCSI error: "@,
        RustLtfsError::TapeDevice(_) => "Tape device error: "@,
        RustLtfsError::ParameterValidation(_) => "Parameter validation error: "@,
        RustLtfsError::Unsupported(_) => "Unsupported operation: "@,
        RustLtfsError::FileOperation(_) => "File operation error: "@,
        RustLtfsError::OperationCancelled(_) => "Operation cancelled: "@,
    }
}

pub open spec fn error_message(e: RustLtfsError) -> Seq<char> {
    match e {
        RustLtfsError::LtfsIndex(m) => m@,
        RustLtfsError::Parse(m) => m@,
        RustLtfsError::Scsi(m) => m@,
        RustLtfsError::TapeDevice(m) => m@,
        RustLtfsError::ParameterValidation(m) => m@,
        RustLtfsError::Unsupported(m) => m@,
        RustLtfsError::FileOperation(m) => m@,
        RustLtfsError::OperationCancelled(m) => m@,
    }
}

/// The text of an error: its kind, then its message.
pub open spec fn error_text(e: RustLtfsError) -> Seq<char> {
    error_prefix(e) + error_message(e)
}

impl RustLtfsError {
    /// The text of the error: its kind, then its message.
    pub fn to_text(&self) -> (s: String)
        ensures
            s@ == error_text(*self),
    {
        let mut v: Vec<char> = Vec::new();
        let msg: &String = match self {
            RustLtfsError::LtfsIndex(m) => {
                push_str(&mut v, "LTFS index error: ");
                m
            },
            RustLtfsError::Parse(m) => {
                push_str(&mut v, "Parse error: ");
                m
            },
            RustLtfsError::Scsi(m) => {
                push_str(&mut v, "SCSI error: ");
                m
            },
            RustLtfsError::TapeDevice(m) => {
                push_str(&mut v, "Tape device error: ");
                m
            },
            RustLtfsError::ParameterValidation(m) => {
                push_str(&mut v, "Parameter validation error: ");
                m
            },
            RustLtfsError::Unsupported(m) => {
                push_str(&mut v, "Unsupported operation: ");
                m
            },
            RustLtfsError::FileOperation(m) => {
                push_str(&mut v, "File operation error: ");
                m
            },
            RustLtfsError::OperationCancelled(m) => {
                push_str(&mut v, "Operation cancelled: ");
                m
            },
        };
        push_str(&mut v, msg.as_str());
        chars_to_string(&v)
    }
}

} // verus!
