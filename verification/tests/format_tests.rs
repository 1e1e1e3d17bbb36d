use canister_logs::hexcode::format_bytes;
use canister_logs::records::{CanisterLogRecord, FetchCanisterLogsResponse, LogFormatError};
use canister_logs::render::{format_canister_logs, format_log_record};

fn record(idx: u64, timestamp_nanos: i128, content: Vec<u8>) -> CanisterLogRecord {
    CanisterLogRecord { idx, timestamp_nanos, content }
}

fn batch(records: Vec<CanisterLogRecord>) -> FetchCanisterLogsResponse {
    FetchCanisterLogsResponse { canister_log_records: records }
}

#[test]
fn test_format_canister_logs() {
    let logs = batch(vec![
        record(42, 1_620_328_630_010_000_000, b"Some text message".to_vec()),
        record(43, 1_620_328_630_020_000_000, vec![1, 2, 3, 10, 11, 12]),
    ]);
    assert_eq!(
        format_canister_logs(logs).unwrap(),
        vec![
            "[42. 2021-05-06T19:17:10.010Z]: Some text message".to_string(),
            "[43. 2021-05-06T19:17:10.020Z]: (bytes) 0x0102030a0b0c".to_string(),
        ],
    );
}

#[test]
fn timestamp_millisecond_precision() {
    let logs = batch(vec![record(1, 1_620_328_630_010_000_000, b"x".to_vec())]);
    assert_eq!(
        format_canister_logs(logs).unwrap(),
        vec!["[1. 2021-05-06T19:17:10.010Z]: x".to_string()],
    );
}

#[test]
fn timestamp_truncates_sub_millisecond_digits() {
    let logs = batch(vec![record(1, 1_620_328_630_010_999_999, b"x".to_vec())]);
    assert_eq!(
        format_canister_logs(logs).unwrap(),
        vec!["[1. 2021-05-06T19:17:10.010Z]: x".to_string()],
    );
}

#[test]
fn timestamp_whole_second_keeps_three_fraction_digits() {
    let logs = batch(vec![record(7, 1_620_328_630_000_000_000, b"x".to_vec())]);
    assert_eq!(
        format_canister_logs(logs).unwrap(),
        vec!["[7. 2021-05-06T19:17:10.000Z]: x".to_string()],
    );
}

#[test]
fn timestamp_before_epoch() {
    let logs = batch(vec![record(5, -1, b"x".to_vec())]);
    assert_eq!(
        format_canister_logs(logs).unwrap(),
        vec!["[5. 1969-12-31T23:59:59.999Z]: x".to_string()],
    );
}

#[test]
fn timestamp_first_renderable_instant() {
    let ns: i128 = -62_167_219_200 * 1_000_000_000;
    let logs = batch(vec![record(2, ns, b"x".to_vec())]);
    assert_eq!(
        format_canister_logs(logs).unwrap(),
        vec!["[2. 0000-01-01T00:00:00.000Z]: x".to_string()],
    );
}

#[test]
fn timestamp_last_renderable_instant() {
    let ns: i128 = 253_402_300_799 * 1_000_000_000 + 999_999_999;
    let logs = batch(vec![record(3, ns, b"x".to_vec())]);
    assert_eq!(
        format_canister_logs(logs).unwrap(),
        vec!["[3. 9999-12-31T23:59:59.999Z]: x".to_string()],
    );
}

#[test]
fn timestamp_before_year_zero_is_invalid() {
    let ns: i128 = (-62_167_219_200 - 1) * 1_000_000_000;
    let logs = batch(vec![record(4, ns, b"x".to_vec())]);
    assert_eq!(format_canister_logs(logs), Err(LogFormatError::InvalidTimestamp));
}

#[test]
fn timestamp_after_year_9999_is_invalid() {
    let ns: i128 = 253_402_300_800 * 1_000_000_000;
    let logs = batch(vec![record(4, ns, b"x".to_vec())]);
    assert_eq!(format_canister_logs(logs), Err(LogFormatError::InvalidTimestamp));
}

#[test]
fn timestamp_far_out_of_range_is_invalid() {
    let rec = record(9, -400_000_000_000 * 1_000_000_000, b"x".to_vec());
    assert_eq!(format_log_record(&rec), Err(LogFormatError::InvalidTimestamp));
}

#[test]
fn invalid_record_aborts_whole_batch() {
    let logs = batch(vec![
        record(1, 0, b"fine".to_vec()),
        record(2, 300_000_000_000 * 1_000_000_000, b"bad".to_vec()),
    ]);
    assert_eq!(format_canister_logs(logs), Err(LogFormatError::InvalidTimestamp));
}

#[test]
fn printable_text_round_trips() {
    let payload = "Hello, world! 0123 ~ punctuation: ,.;:!?-_()[]{}";
    let logs = batch(vec![record(8, 0, payload.as_bytes().to_vec())]);
    assert_eq!(
        format_canister_logs(logs).unwrap(),
        vec![format!("[8. 1970-01-01T00:00:00.000Z]: {}", payload)],
    );
}

#[test]
fn quote_and_backslash_stay_text() {
    let payload = "a \"quoted\" back\\slash";
    let logs = batch(vec![record(8, 0, payload.as_bytes().to_vec())]);
    assert_eq!(
        format_canister_logs(logs).unwrap(),
        vec![format!("[8. 1970-01-01T00:00:00.000Z]: {}", payload)],
    );
}

#[test]
fn tab_and_newline_stay_text() {
    let payload = "a\tb\nc";
    let logs = batch(vec![record(8, 0, payload.as_bytes().to_vec())]);
    assert_eq!(
        format_canister_logs(logs).unwrap(),
        vec![format!("[8. 1970-01-01T00:00:00.000Z]: {}", payload)],
    );
}

#[test]
fn literal_backslash_u_brace_stays_text() {
    let payload = "\\u{";
    let logs = batch(vec![record(8, 0, payload.as_bytes().to_vec())]);
    assert_eq!(
        format_canister_logs(logs).unwrap(),
        vec![format!("[8. 1970-01-01T00:00:00.000Z]: {}", payload)],
    );
}

#[test]
fn invalid_utf8_falls_back_to_hex() {
    let logs = batch(vec![record(6, 0, vec![0xff, 0xfe, 0x00])]);
    assert_eq!(
        format_canister_logs(logs).unwrap(),
        vec!["[6. 1970-01-01T00:00:00.000Z]: (bytes) 0xfffe00".to_string()],
    );
}

#[test]
fn control_characters_fall_back_to_hex() {
    let logs = batch(vec![record(6, 0, vec![0x07])]);
    assert_eq!(
        format_canister_logs(logs).unwrap(),
        vec!["[6. 1970-01-01T00:00:00.000Z]: (bytes) 0x07".to_string()],
    );
}

#[test]
fn non_ascii_printable_text_stays_text() {
    let payload = "héllo";
    let logs = batch(vec![record(6, 0, payload.as_bytes().to_vec())]);
    assert_eq!(
        format_canister_logs(logs).unwrap(),
        vec![format!("[6. 1970-01-01T00:00:00.000Z]: {}", payload)],
    );
}

#[test]
fn empty_payload_is_text() {
    let logs = batch(vec![record(0, 0, vec![])]);
    assert_eq!(
        format_canister_logs(logs).unwrap(),
        vec!["[0. 1970-01-01T00:00:00.000Z]: ".to_string()],
    );
}

#[test]
fn empty_batch_yields_empty_output() {
    let logs = batch(vec![]);
    assert_eq!(format_canister_logs(logs).unwrap(), Vec::<String>::new());
}

#[test]
fn formatting_twice_gives_identical_output() {
    let make = || {
        batch(vec![
            record(42, 1_620_328_630_010_000_000, b"Some text message".to_vec()),
            record(43, 1_620_328_630_020_000_000, vec![1, 2, 3, 10, 11, 12]),
        ])
    };
    assert_eq!(format_canister_logs(make()), format_canister_logs(make()));
}

#[test]
fn largest_index_renders_in_full() {
    let logs = batch(vec![record(u64::MAX, 0, b"x".to_vec())]);
    assert_eq!(
        format_canister_logs(logs).unwrap(),
        vec!["[18446744073709551615. 1970-01-01T00:00:00.000Z]: x".to_string()],
    );
}

#[test]
fn format_bytes_is_prefixed_lowercase_hex() {
    assert_eq!(format_bytes(&[0xde, 0xad, 0x01]), "(bytes) 0xdead01");
    assert_eq!(format_bytes(&[]), "(bytes) 0x");
}
