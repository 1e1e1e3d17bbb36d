//! The data model: raw log records as the remote system hands them over, and
//! the error raised when a record's timestamp cannot be rendered.

use vstd::prelude::*;

verus! {

/// One raw log entry emitted by the observed canister.
///
/// `idx` is assigned monotonically by the remote system, `timestamp_nanos`
/// counts nanoseconds since the Unix epoch, and `content` is an opaque byte
/// payload that may or may not be printable text.
pub struct CanisterLogRecord {
    pub idx: u64,
    pub timestamp_nanos: i128,
    pub content: Vec<u8>,
}

/// The ordered batch of log records returned by one fetch.
pub struct FetchCanisterLogsResponse {
    pub canister_log_records: Vec<CanisterLogRecord>,
}

/// Rendering error: the record's timestamp does not correspond to a calendar
/// instant that the output format can represent.
#[derive(Debug, Clone, Copy, PartialEq, Eq, Structural)]
pub enum LogFormatError {
    InvalidTimestamp,
}

} // verus!
