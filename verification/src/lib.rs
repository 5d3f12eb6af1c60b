//! Verified core logic for LTFS tape access: volume-label parsing,
//! capacity log pages, partition policy, index validation, the in-memory
//! LTFS index tree and the decisions that drive the SCSI read loops.

pub mod dedup;
pub mod device;
pub mod device_manager;
pub mod diagnostic;
pub mod drive;
pub mod error;
pub mod format;
pub mod format_flow;
pub mod hash;
pub mod index;
pub mod index_read;
pub mod index_sync;
pub mod capacity;
pub mod checksum;
pub mod label;
pub mod lifecycle;
pub mod log_capacity;
pub mod listing;
pub mod ops;
pub mod partition;
pub mod ready;
pub mod reader;
pub mod search;
pub mod status;
pub mod text;
pub mod timestamp;
pub mod update;
pub mod validator;
pub mod viewer;
pub mod volume_read;
pub mod tape_write;
pub mod write;
