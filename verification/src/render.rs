//! Assembly of display lines: one `[<index>. <timestamp>]: <message>` line
//! per record, in input order, with no record dropped, merged or reordered.

use vstd::prelude::*;
use crate::chars::{chars_to_string, dec_nat, extend_chars, push_dec_u64};
use crate::classify::{render_message, spec_message};
use crate::records::{CanisterLogRecord, FetchCanisterLogsResponse, LogFormatError};
use crate::timestamp::{render_timestamp, spec_timestamp, ts_renderable};

verus! {

/// The display line of one record:
/// `[` index `. ` timestamp `]: ` message.
pub open spec fn spec_line(r: CanisterLogRecord) -> Seq<char>
    recommends
        ts_renderable(r.timestamp_nanos as int),
{
    seq!['['] + dec_nat(r.idx as nat) + seq!['.', ' '] + spec_timestamp(r.timestamp_nanos as int)
        + seq![']', ':', ' '] + spec_message(r.content@)
}

/// True when every record of the batch has a renderable timestamp.
pub open spec fn batch_renderable(recs: Seq<CanisterLogRecord>) -> bool {
    forall|i: int| 0 <= i < recs.len() ==> ts_renderable(recs[i].timestamp_nanos as int)
}

/// What formatting a batch returns: one display line per record, in order,
/// when every timestamp is renderable, and nothing otherwise.
pub open spec fn spec_format_batch(recs: Seq<CanisterLogRecord>) -> Option<Seq<Seq<char>>> {
    if batch_renderable(recs) {
        Some(Seq::new(recs.len(), |i: int| spec_line(recs[i])))
    } else {
        None
    }
}

/// Renders one record as its display line, or reports the record's
/// timestamp as invalid.
pub fn format_log_record(r: &CanisterLogRecord) -> (res: Result<String, LogFormatError>)
    ensures
        res is Ok <==> ts_renderable(r.timestamp_nanos as int),
        match res {
            Ok(line) => line@ == spec_line(*r),
            Err(e) => e == LogFormatError::InvalidTimestamp,
        },
{
    match render_timestamp(r.timestamp_nanos) {
        None => Err(LogFormatError::InvalidTimestamp),
        Some(ts) => {
            let mut v: Vec<char> = Vec::new();
            v.push('[');
            push_dec_u64(&mut v, r.idx);
            v.push('.');
            v.push(' ');
            extend_chars(&mut v, &ts);
            v.push(']');
            v.push(':');
            v.push(' ');
            let msg = render_message(r.content.as_slice());
            extend_chars(&mut v, &msg);
            assert(v@ =~= spec_line(*r));
            Ok(chars_to_string(&v))
        },
    }
}

/// Renders a whole batch: one line per record, in input order. Formatting
/// succeeds exactly when every record's timestamp is renderable; a batch
/// with an invalid timestamp yields no partial output.
pub fn format_canister_logs(logs: FetchCanisterLogsResponse) -> (r: Result<
    Vec<String>,
    LogFormatError,
>)
    ensures
        match r {
            Ok(lines) => spec_format_batch(logs.canister_log_records@) == Some(
                lines.deep_view(),
            ),
            Err(e) => {
                &&& spec_format_batch(logs.canister_log_records@) is None
                &&& e == LogFormatError::InvalidTimestamp
            },
        },
{
    let recs = &logs.canister_log_records;
    let n = recs.len();
    let mut out: Vec<String> = Vec::new();
    let mut i: usize = 0;
    while i < n
        invariant
            i <= n,
            n == recs@.len(),
            recs == &logs.canister_log_records,
            out@.len() == i,
            forall|j: int| 0 <= j < i ==> ts_renderable(recs@[j].timestamp_nanos as int),
            forall|j: int| 0 <= j < i ==> out@[j]@ == spec_line(recs@[j]),
        decreases n - i,
    {
        match format_log_record(&recs[i]) {
            Ok(line) => {
                out.push(line);
            },
            Err(e) => {
                return Err(e);
            },
        }
        i = i + 1;
    }
    proof {
        assert(batch_renderable(recs@));
        assert(out.deep_view() =~= Seq::new(recs@.len(), |j: int| spec_line(recs@[j])));
    }
    Ok(out)
}

} // verus!
