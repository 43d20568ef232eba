//! The timestamp parser: exact field values, both offset spellings,
//! and rejection of malformed input.

use upbit_client::datetime::{parse_datetime, DateTimeValue};
use upbit_client::response::TransactionInfoSource;

#[test]
fn parses_the_api_timestamp_format() {
    let v = parse_datetime("2017-12-08T15:38:02+09:00").unwrap();
    assert_eq!(
        v,
        DateTimeValue {
            year: 2017,
            month: 12,
            day: 8,
            hour: 15,
            minute: 38,
            second: 2,
            offset_minutes: 540,
        }
    );
}

#[test]
fn parses_the_offset_without_colon() {
    let v = parse_datetime("2018-04-13T11:24:01+0900").unwrap();
    assert_eq!(v.offset_minutes, 540);
    assert_eq!(v.hour, 11);
}

#[test]
fn parses_negative_offsets() {
    let v = parse_datetime("2020-01-31T23:59:59-05:30").unwrap();
    assert_eq!(v.offset_minutes, -330);
}

#[test]
fn rejects_malformed_timestamps() {
    assert!(parse_datetime("").is_none());
    assert!(parse_datetime("2017-12-08").is_none());
    assert!(parse_datetime("2017-13-08T15:38:02+09:00").is_none());
    assert!(parse_datetime("2017-12-00T15:38:02+09:00").is_none());
    assert!(parse_datetime("2017-12-08T24:38:02+09:00").is_none());
    assert!(parse_datetime("2017-12-08 15:38:02+09:00").is_none());
    assert!(parse_datetime("2017-12-08T15:38:02+09:60").is_none());
    assert!(parse_datetime("2017-12-08T15:38:02~09:00").is_none());
}

#[test]
fn record_accessors_read_the_timestamps() {
    let source = TransactionInfoSource {
        kind: "deposit".to_string(),
        uuid: "u".to_string(),
        currency: "KRW".to_string(),
        net_type: None,
        txid: "t".to_string(),
        state: "accepted".to_string(),
        created_at: "2017-12-08T15:38:02+09:00".to_string(),
        done_at: Some("2017-12-08T15:39:02+09:00".to_string()),
        amount: "100000.0".to_string(),
        fee: "0.0".to_string(),
        transaction_type: "default".to_string(),
    };
    assert_eq!(source.created_at().minute, 38);
    assert_eq!(source.done_at().unwrap().minute, 39);
    let unfinished = TransactionInfoSource { done_at: None, ..source };
    assert_eq!(unfinished.done_at(), None);
}
