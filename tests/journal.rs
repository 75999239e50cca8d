use otel_journal_gatewayd_forwarder::journal::{
    decode_response, encode, parse_entries, range_header, JournalClient, JournalEntry, JournalError,
};

#[test]
fn test_parse_entry() {
    let json = r#"{"__CURSOR":"s=abc;i=1","__REALTIME_TIMESTAMP":"1703456789000000","MESSAGE":"Hello world","PRIORITY":"6","_SYSTEMD_UNIT":"test.service"}"#;
    let entry = JournalEntry::from_json_line(json).unwrap();

    assert_eq!(entry.cursor, "s=abc;i=1");
    assert_eq!(entry.realtime_timestamp, 1703456789000000);
    assert_eq!(entry.message, "Hello world");
    assert_eq!(entry.priority, Some(6));
    assert_eq!(entry.systemd_unit, Some("test.service".to_string()));
}

#[test]
fn test_parse_binary_message() {
    let json = r#"{"__CURSOR":"s=abc;i=1","__REALTIME_TIMESTAMP":"1703456789000000","MESSAGE":[72,101,108,108,111]}"#;
    let entry = JournalEntry::from_json_line(json).unwrap();

    assert_eq!(entry.message, "Hello");
}

#[test]
fn test_url_encoding() {
    assert_eq!(encode("hello world"), "hello%20world");
    assert_eq!(encode("s=abc;i=1"), "s%3Dabc%3Bi%3D1");
}

#[test]
fn url_encoding_of_multibyte_characters() {
    assert_eq!(encode("é~a.b-c_d"), "%C3%A9~a.b-c_d");
    assert_eq!(encode(""), "");
}

#[test]
fn invalid_utf8_bytes_are_replaced() {
    let json = r#"{"__CURSOR":"c","__REALTIME_TIMESTAMP":"1","MESSAGE":[72,105,255]}"#;
    let entry = JournalEntry::from_json_line(json).unwrap();
    assert_eq!(entry.message, "Hi\u{FFFD}");
}

#[test]
fn byte_values_are_taken_modulo_256_and_non_numbers_skipped() {
    let json = r#"{"__CURSOR":"c","__REALTIME_TIMESTAMP":"1","MESSAGE":[328,"x",105,-1]}"#;
    let entry = JournalEntry::from_json_line(json).unwrap();
    assert_eq!(entry.message, "Hi");
}

#[test]
fn missing_or_odd_message_is_empty() {
    let json = r#"{"__CURSOR":"c","__REALTIME_TIMESTAMP":"1"}"#;
    assert_eq!(JournalEntry::from_json_line(json).unwrap().message, "");
    let json = r#"{"__CURSOR":"c","__REALTIME_TIMESTAMP":"1","MESSAGE":{"a":1}}"#;
    assert_eq!(JournalEntry::from_json_line(json).unwrap().message, "");
}

#[test]
fn all_named_fields_are_mapped() {
    let json = r#"{"__CURSOR":"c9","__REALTIME_TIMESTAMP":"17","__MONOTONIC_TIMESTAMP":"42","_BOOT_ID":"b1","MESSAGE":"m","PRIORITY":"3","_SYSTEMD_UNIT":"u.service","SYSLOG_IDENTIFIER":"sid","_PID":"12","_UID":"0","_GID":"5","_COMM":"cat","_EXE":"/bin/cat","_MACHINE_ID":"mid","_HOSTNAME":"h"}"#;
    let e = JournalEntry::from_json_line(json).unwrap();
    assert_eq!(e.cursor, "c9");
    assert_eq!(e.realtime_timestamp, 17);
    assert_eq!(e.monotonic_timestamp, Some(42));
    assert_eq!(e.boot_id.as_deref(), Some("b1"));
    assert_eq!(e.priority, Some(3));
    assert_eq!(e.syslog_identifier.as_deref(), Some("sid"));
    assert_eq!(e.pid.as_deref(), Some("12"));
    assert_eq!(e.uid.as_deref(), Some("0"));
    assert_eq!(e.gid.as_deref(), Some("5"));
    assert_eq!(e.comm.as_deref(), Some("cat"));
    assert_eq!(e.exe.as_deref(), Some("/bin/cat"));
    assert_eq!(e.machine_id.as_deref(), Some("mid"));
    assert_eq!(e.hostname.as_deref(), Some("h"));
    assert!(e.extra_fields.is_empty());
}

#[test]
fn unrecognized_fields_are_kept_as_text() {
    let json = r#"{"__CURSOR":"c","__REALTIME_TIMESTAMP":"1","__SEQNUM":"7","_TRANSPORT":"journal","CODE_LINE":12,"RAW":[104,105],"NOTHING":null,"OBJ":{"k":true}}"#;
    let e = JournalEntry::from_json_line(json).unwrap();
    let mut extra = e.extra_fields.clone();
    extra.sort();
    assert_eq!(
        extra,
        vec![
            ("CODE_LINE".to_string(), "12".to_string()),
            ("NOTHING".to_string(), "null".to_string()),
            ("OBJ".to_string(), "{\"k\":true}".to_string()),
            ("RAW".to_string(), "hi".to_string()),
            ("_TRANSPORT".to_string(), "journal".to_string()),
        ]
    );
}

#[test]
fn unparsable_numbers_fall_back() {
    let json = r#"{"__CURSOR":"c","__REALTIME_TIMESTAMP":"soon","__MONOTONIC_TIMESTAMP":"x","PRIORITY":"high"}"#;
    let e = JournalEntry::from_json_line(json).unwrap();
    assert_eq!(e.realtime_timestamp, 0);
    assert_eq!(e.monotonic_timestamp, None);
    assert_eq!(e.priority, None);
    let json = r#"{"__CURSOR":"c","__REALTIME_TIMESTAMP":"+5","PRIORITY":"300"}"#;
    let e = JournalEntry::from_json_line(json).unwrap();
    assert_eq!(e.realtime_timestamp, 5);
    assert_eq!(e.priority, None);
}

#[test]
fn malformed_records_are_refused() {
    assert!(JournalEntry::from_json_line("not json").is_none());
    assert!(JournalEntry::from_json_line("[1,2]").is_none());
    assert!(JournalEntry::from_json_line(r#"{"__REALTIME_TIMESTAMP":"1"}"#).is_none());
    assert!(JournalEntry::from_json_line(r#"{"__CURSOR":null,"__REALTIME_TIMESTAMP":"1"}"#).is_none());
    assert!(JournalEntry::from_json_line(r#"{"__CURSOR":"c","__REALTIME_TIMESTAMP":"1","_PID":5}"#).is_none());
    let ok = JournalEntry::from_json_line(r#"{"__CURSOR":"c","__REALTIME_TIMESTAMP":"1","_PID":null}"#);
    assert_eq!(ok.unwrap().pid, None);
}

#[test]
fn malformed_line_is_dropped_from_response() {
    let body = format!(
        "{}\n{}\n{}\n",
        r#"{"__CURSOR":"c1","__REALTIME_TIMESTAMP":"1","MESSAGE":"one"}"#,
        r#"{"__CURSOR":"c2","__REALTIME_TIMESTAMP":"#,
        r#"{"__CURSOR":"c3","__REALTIME_TIMESTAMP":"3","MESSAGE":"three"}"#
    );
    let body = body.as_str();
    let entries = parse_entries(body);
    assert_eq!(entries.len(), 2);
    assert_eq!(entries[0].cursor, "c1");
    assert_eq!(entries[1].cursor, "c3");
    let r = decode_response(200, body).unwrap();
    assert_eq!(r.len(), 2);
}

#[test]
fn blank_and_crlf_lines_are_handled() {
    let body = "\r\n  \n{\"__CURSOR\":\"a\",\"__REALTIME_TIMESTAMP\":\"1\"}\r\n\n{\"__CURSOR\":\"b\",\"__REALTIME_TIMESTAMP\":\"2\"}";
    let entries = parse_entries(body);
    assert_eq!(entries.len(), 2);
    assert_eq!(entries[0].cursor, "a");
    assert_eq!(entries[1].cursor, "b");
    assert!(parse_entries("").is_empty());
}

#[test]
fn response_statuses_are_classified() {
    assert!(decode_response(204, "").unwrap().is_empty());
    assert!(matches!(decode_response(410, ""), Err(JournalError::InvalidCursor)));
    assert!(matches!(decode_response(500, ""), Err(JournalError::ServerError { status: 500 })));
    assert!(matches!(decode_response(404, ""), Err(JournalError::ServerError { status: 404 })));
}

#[test]
fn query_after_checkpoint_skips_it() {
    let c = JournalClient::new("http://host:19531//", vec!["a b.service".to_string(), "x.service".to_string()]);
    assert_eq!(
        c.entries_url(Some("s=abc;i=1")),
        "http://host:19531/entries?cursor=s%3Dabc%3Bi%3D1&skip=1&_SYSTEMD_UNIT=a%20b.service&_SYSTEMD_UNIT=x.service"
    );
}

#[test]
fn query_without_checkpoint_reads_current_boot() {
    let c = JournalClient::new("http://host:19531", Vec::new());
    assert_eq!(c.entries_url(None), "http://host:19531/entries?boot");
    let c = JournalClient::new("http://h/", vec!["u".to_string()]);
    assert_eq!(c.entries_url(None), "http://h/entries?boot&_SYSTEMD_UNIT=u");
}

#[test]
fn range_header_caps_the_batch() {
    assert_eq!(range_header(500), "entries=:500");
    assert_eq!(range_header(0), "entries=:0");
}
