//! Rendering of canister log records as human-readable display lines.
//!
//! The library turns an ordered batch of raw log records — each carrying a
//! monotonically assigned index, a nanosecond-resolution Unix timestamp and an
//! opaque byte payload — into one text line per record. A payload that is
//! valid UTF-8 and looks like ordinary text is shown verbatim; anything else
//! is shown as a hexadecimal byte dump.

use vstd::prelude::*;

pub mod chars;
pub mod classify;
pub mod hexcode;
pub mod laws;
pub mod records;
pub mod render;
pub mod timestamp;

verus! {

/// Options of the command that prints a canister's logs: the name or the
/// textual id of the canister whose records are fetched.
pub struct LogsOpts {
    pub canister: String,
}

/// Options of the maintenance command that looks for known problems in the
/// current environment: the network to inspect, if one is named.
pub struct DiagnoseOpts {
    pub network: Option<String>,
}

} // verus!
