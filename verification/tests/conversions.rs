use log_pulse::grpc::{Kind, LogEntryRequest, Struct, Timestamp, Value};
use log_pulse::log_row::LogRow;

fn text(s: &str) -> String {
    s.to_string()
}

fn request(timestamp: Option<Timestamp>, level: i32, metadata: Option<Struct>) -> LogEntryRequest {
    LogEntryRequest {
        timestamp,
        level,
        service_name: text("billing"),
        message: text("paid"),
        metadata,
    }
}

fn row(timestamp: i64, level: i8, metadata: Vec<(String, String)>) -> LogRow {
    LogRow {
        timestamp,
        level,
        service_name: text("billing"),
        message: text("paid"),
        metadata,
    }
}

#[test]
fn row_from_request_converts_time_to_millis() {
    let r = LogRow::from(request(Some(Timestamp { seconds: 1_700_000_000, nanos: 123_456_789 }), 2, None));
    assert_eq!(r.timestamp, 1_700_000_000_123);
    assert_eq!(r.level, 2);
    assert_eq!(r.service_name, "billing");
    assert_eq!(r.message, "paid");
    assert!(r.metadata.is_empty());
}

#[test]
fn row_from_request_without_timestamp_is_at_epoch() {
    let r = LogRow::from(request(None, 1, None));
    assert_eq!(r.timestamp, 0);
}

#[test]
fn row_from_request_rounds_nanos_toward_zero() {
    let r = LogRow::from(request(Some(Timestamp { seconds: 2, nanos: -1_999_999 }), 0, None));
    assert_eq!(r.timestamp, 1999);
    let r = LogRow::from(request(Some(Timestamp { seconds: -3, nanos: 999_999 }), 0, None));
    assert_eq!(r.timestamp, -3000);
}

#[test]
fn row_from_request_cuts_level_to_eight_bits() {
    assert_eq!(LogRow::from(request(None, 300, None)).level, 44);
    assert_eq!(LogRow::from(request(None, -1, None)).level, -1);
    assert_eq!(LogRow::from(request(None, 128, None)).level, -128);
}

#[test]
fn row_from_request_keeps_metadata() {
    let md = Struct {
        fields: vec![
            (text("user"), Value { kind: Some(Kind::StringValue(text("ann"))) }),
            (text("unset"), Value { kind: None }),
            (text("retry"), Value { kind: Some(Kind::BoolValue(true)) }),
        ],
    };
    let r = LogRow::from(request(None, 1, Some(md)));
    assert_eq!(r.metadata, vec![(text("user"), text("ann")), (text("retry"), text("true"))]);
    assert!(LogRow::from(request(None, 1, None)).metadata.is_empty());
}

#[test]
fn millis_of_reports_overflow() {
    assert_eq!(LogRow::millis_of(&None), Some(0));
    assert_eq!(
        LogRow::millis_of(&Some(Timestamp { seconds: 5, nanos: 7_000_000 })),
        Some(5007)
    );
    assert_eq!(LogRow::millis_of(&Some(Timestamp { seconds: i64::MAX / 1000 + 1, nanos: 0 })), None);
    assert_eq!(LogRow::millis_of(&Some(Timestamp { seconds: i64::MIN / 1000 - 1, nanos: 0 })), None);
    assert_eq!(
        LogRow::millis_of(&Some(Timestamp { seconds: i64::MAX / 1000, nanos: 999_000_000 })),
        None
    );
    assert_eq!(
        LogRow::millis_of(&Some(Timestamp { seconds: i64::MAX / 1000, nanos: 807_000_000 })),
        Some(i64::MAX)
    );
}

#[test]
fn request_from_row_splits_millis() {
    let r = LogEntryRequest::from(row(1_700_000_000_123, 3, Vec::new()));
    assert_eq!(r.timestamp, Some(Timestamp { seconds: 1_700_000_000, nanos: 123_000_000 }));
    assert_eq!(r.level, 3);
    assert_eq!(r.service_name, "billing");
    assert_eq!(r.message, "paid");
    assert_eq!(r.metadata, None);
}

#[test]
fn request_from_row_with_negative_millis() {
    let r = LogEntryRequest::from(row(-1500, -2, Vec::new()));
    assert_eq!(r.timestamp, Some(Timestamp { seconds: -1, nanos: -500_000_000 }));
    assert_eq!(r.level, -2);
}

#[test]
fn request_from_row_carries_metadata_as_strings() {
    let r = LogEntryRequest::from(row(0, 1, vec![(text("a"), text("1")), (text("b"), text("x"))]));
    let md = r.metadata.expect("metadata");
    assert_eq!(
        md.fields,
        vec![
            (text("a"), Value { kind: Some(Kind::StringValue(text("1"))) }),
            (text("b"), Value { kind: Some(Kind::StringValue(text("x"))) }),
        ]
    );
}

#[test]
fn row_request_round_trip_keeps_time_and_level() {
    for (ms, level) in [(0i64, 0i8), (1_700_000_000_123, 3), (-1500, -128), (i64::MAX, 127), (i64::MIN, -1)] {
        let first = row(ms, level, vec![(text("k"), text("v"))]);
        let back = LogRow::from(LogEntryRequest::from(first.clone()));
        assert_eq!(back.timestamp, ms);
        assert_eq!(back.level, level);
        assert_eq!(back.service_name, first.service_name);
        assert_eq!(back.message, first.message);
        assert_eq!(back.metadata, first.metadata);
    }
}

#[test]
fn request_row_round_trip_cuts_to_millis() {
    let first = request(Some(Timestamp { seconds: 42, nanos: 987_654_321 }), 2, None);
    let back = LogEntryRequest::from(LogRow::from(first));
    assert_eq!(back.timestamp, Some(Timestamp { seconds: 42, nanos: 987_000_000 }));
    assert_eq!(back.level, 2);
}

#[test]
fn metadata_text_entries() {
    let md = Struct {
        fields: vec![
            (text("s"), Value { kind: Some(Kind::StringValue(text("hello"))) }),
            (text("n"), Value { kind: Some(Kind::NumberValue(text("1.5"))) }),
            (text("t"), Value { kind: Some(Kind::BoolValue(true)) }),
            (text("f"), Value { kind: Some(Kind::BoolValue(false)) }),
            (text("z"), Value { kind: Some(Kind::NullValue) }),
            (text("unset"), Value { kind: None }),
            (text("o"), Value { kind: Some(Kind::StructValue) }),
            (text("l"), Value { kind: Some(Kind::ListValue) }),
        ],
    };
    assert_eq!(
        md.text_entries(),
        vec![
            (text("s"), text("hello")),
            (text("n"), text("1.5")),
            (text("t"), text("true")),
            (text("f"), text("false")),
            (text("z"), text("null")),
            (text("o"), text("complex_object")),
            (text("l"), text("complex_object")),
        ]
    );
}

#[test]
fn kind_text_of_each_kind() {
    assert_eq!(Kind::NullValue.text(), "null");
    assert_eq!(Kind::BoolValue(true).text(), "true");
    assert_eq!(Kind::ListValue.text(), "complex_object");
    assert_eq!(Kind::NumberValue(text("3")).text(), "3");
}

#[test]
fn request_from_row_keeps_repeated_names_in_order() {
    let r = LogEntryRequest::from(row(7, 0, vec![(text("a"), text("1")), (text("a"), text("2"))]));
    assert_eq!(r.timestamp, Some(Timestamp { seconds: 0, nanos: 7_000_000 }));
    let md = r.metadata.expect("metadata");
    assert_eq!(md.fields.len(), 2);
    assert_eq!(md.fields[1], (text("a"), Value { kind: Some(Kind::StringValue(text("2"))) }));
    assert_eq!(md.text_entries(), vec![(text("a"), text("1")), (text("a"), text("2"))]);
}
