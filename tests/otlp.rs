use otel_journal_gatewayd_forwarder::journal::JournalEntry;
use otel_journal_gatewayd_forwarder::otlp::{
    attribute_key_of, build_log_record, build_otlp_payload, build_otlp_payload_at, export_request,
    map_priority, publish_outcome, KeyValue, OtlpClient, OtlpError,
};

fn entry(cursor: &str, unit: Option<&str>) -> JournalEntry {
    JournalEntry {
        cursor: cursor.to_string(),
        realtime_timestamp: 1703456789000000,
        monotonic_timestamp: None,
        boot_id: None,
        message: format!("message {}", cursor),
        priority: Some(6),
        systemd_unit: unit.map(|u| u.to_string()),
        syslog_identifier: None,
        pid: None,
        uid: None,
        gid: None,
        comm: None,
        exe: None,
        machine_id: None,
        hostname: None,
        extra_fields: Vec::new(),
    }
}

fn attr<'a>(attrs: &'a [KeyValue], key: &str) -> Option<&'a str> {
    attrs
        .iter()
        .find(|kv| kv.key == key)
        .and_then(|kv| kv.value.string_value.as_deref())
}

#[test]
fn test_priority_mapping() {
    assert_eq!(map_priority(Some(0)), (21, "FATAL"));
    assert_eq!(map_priority(Some(3)), (17, "ERROR"));
    assert_eq!(map_priority(Some(4)), (13, "WARN"));
    assert_eq!(map_priority(Some(6)), (9, "INFO"));
    assert_eq!(map_priority(Some(7)), (5, "DEBUG"));
    assert_eq!(map_priority(None), (0, "UNSPECIFIED"));
}

#[test]
fn priority_table_is_complete() {
    let expected = [
        (21, "FATAL"),
        (21, "FATAL"),
        (17, "ERROR"),
        (17, "ERROR"),
        (13, "WARN"),
        (9, "INFO"),
        (9, "INFO"),
        (5, "DEBUG"),
    ];
    for (p, e) in expected.iter().enumerate() {
        assert_eq!(map_priority(Some(p as u8)), *e);
    }
    assert_eq!(map_priority(Some(8)), (0, "UNSPECIFIED"));
    assert_eq!(map_priority(Some(255)), (0, "UNSPECIFIED"));
}

#[test]
fn test_build_payload() {
    let entries = vec![JournalEntry {
        cursor: "s=abc;i=1".to_string(),
        realtime_timestamp: 1703456789000000,
        monotonic_timestamp: None,
        boot_id: Some("boot123".to_string()),
        message: "Test message".to_string(),
        priority: Some(6),
        systemd_unit: Some("test.service".to_string()),
        syslog_identifier: None,
        pid: Some("1234".to_string()),
        uid: None,
        gid: None,
        comm: None,
        exe: None,
        machine_id: None,
        hostname: None,
        extra_fields: Vec::new(),
    }];

    let labels = vec![("env".to_string(), "test".to_string())];
    let payload = build_otlp_payload("test-host", &entries, &labels);

    assert_eq!(payload.resource_logs.len(), 1);
    let resource = &payload.resource_logs[0];
    assert_eq!(resource.scope_logs.len(), 1);
    assert_eq!(resource.scope_logs[0].log_records.len(), 1);

    let record = &resource.scope_logs[0].log_records[0];
    assert_eq!(record.body.string_value, "Test message");
    assert_eq!(record.severity_number, 9);
    assert_eq!(record.severity_text, "INFO");
}

#[test]
fn record_carries_times_and_attributes_in_order() {
    let mut e = entry("s=abc;i=1", Some("test.service"));
    e.pid = Some("1234".to_string());
    e.uid = Some("0".to_string());
    e.comm = Some("cat".to_string());
    e.exe = Some("/bin/cat".to_string());
    e.syslog_identifier = Some("cat".to_string());
    e.boot_id = Some("boot123".to_string());
    e.extra_fields = vec![
        ("_SYSTEMD_SLICE".to_string(), "system.slice".to_string()),
        ("CODE_FILE".to_string(), "main.c".to_string()),
    ];
    let r = build_log_record(&e, 42);
    assert_eq!(r.time_unix_nano, "1703456789000000000");
    assert_eq!(r.observed_time_unix_nano, "42");
    let keys: Vec<&str> = r.attributes.iter().map(|kv| kv.key.as_str()).collect();
    assert_eq!(
        keys,
        vec![
            "process.pid",
            "process.owner",
            "process.command",
            "process.executable.path",
            "syslog.identifier",
            "systemd.boot_id",
            "systemd.cursor",
            ".systemd.slice",
            "code.file",
        ]
    );
    assert_eq!(attr(&r.attributes, "systemd.cursor"), Some("s=abc;i=1"));
    assert_eq!(attr(&r.attributes, "code.file"), Some("main.c"));
    assert!(r.attributes.iter().all(|kv| kv.value.int_value.is_none()));
}

#[test]
fn record_omits_absent_fields_but_keeps_cursor() {
    let mut e = entry("c1", None);
    e.priority = None;
    e.realtime_timestamp = 0;
    let r = build_log_record(&e, 0);
    assert_eq!(r.attributes.len(), 1);
    assert_eq!(r.attributes[0].key, "systemd.cursor");
    assert_eq!(r.time_unix_nano, "0");
    assert_eq!(r.severity_number, 0);
    assert_eq!(r.severity_text, "UNSPECIFIED");
}

#[test]
fn large_timestamps_do_not_overflow() {
    let mut e = entry("c", None);
    e.realtime_timestamp = u64::MAX;
    let r = build_log_record(&e, u64::MAX);
    assert_eq!(r.time_unix_nano, "18446744073709551615000");
    assert_eq!(r.observed_time_unix_nano, "18446744073709551615");
}

#[test]
fn attribute_keys_are_lower_case_and_dotted() {
    assert_eq!(attribute_key_of("_SYSTEMD_USER_UNIT"), ".systemd.user.unit");
    assert_eq!(attribute_key_of("CODE_FUNC"), "code.func");
    assert_eq!(attribute_key_of("ÄB_C"), "äb.c");
}

#[test]
fn five_entries_of_two_services_make_two_blocks() {
    let entries = vec![
        entry("c1", Some("a.service")),
        entry("c2", Some("b.service")),
        entry("c3", Some("a.service")),
        entry("c4", Some("b.service")),
        entry("c5", Some("a.service")),
    ];
    let labels = vec![
        ("env".to_string(), "prod".to_string()),
        ("team".to_string(), "ops".to_string()),
    ];
    let payload = build_otlp_payload_at("host-1", &entries, &labels, 7);
    assert_eq!(payload.resource_logs.len(), 2);
    for (rl, (service, cursors)) in payload
        .resource_logs
        .iter()
        .zip([("a.service", vec!["c1", "c3", "c5"]), ("b.service", vec!["c2", "c4"])])
    {
        let attrs = &rl.resource.attributes;
        assert_eq!(attr(attrs, "host.name"), Some("host-1"));
        assert_eq!(attr(attrs, "service.name"), Some(service));
        assert_eq!(attr(attrs, "os.type"), Some("linux"));
        assert_eq!(attr(attrs, "env"), Some("prod"));
        assert_eq!(attr(attrs, "team"), Some("ops"));
        assert_eq!(attrs.len(), 5);
        assert_eq!(rl.scope_logs.len(), 1);
        assert_eq!(rl.scope_logs[0].scope.name, "otel-journal-gatewayd-forwarder");
        let got: Vec<&str> = rl.scope_logs[0]
            .log_records
            .iter()
            .map(|r| attr(&r.attributes, "systemd.cursor").unwrap())
            .collect();
        assert_eq!(got, cursors);
    }
}

#[test]
fn entries_without_unit_go_to_unknown() {
    let entries = vec![entry("c1", None), entry("c2", Some("x.service"))];
    let payload = build_otlp_payload_at("h", &entries, &Vec::new(), 1);
    assert_eq!(payload.resource_logs.len(), 2);
    assert_eq!(attr(&payload.resource_logs[0].resource.attributes, "service.name"), Some("unknown"));
}

#[test]
fn empty_batch_is_not_sent() {
    assert!(export_request("h", &[], &Vec::new()).is_none());
    let p = export_request("h", &[entry("c", None)], &Vec::new()).unwrap();
    assert_eq!(p.resource_logs.len(), 1);
}

#[test]
fn publish_status_decides_the_outcome() {
    assert!(publish_outcome(200, String::new()).is_ok());
    assert!(publish_outcome(204, String::new()).is_ok());
    match publish_outcome(503, "busy".to_string()) {
        Err(OtlpError::ServerError { status, body }) => {
            assert_eq!(status, 503);
            assert_eq!(body, "busy");
        }
        other => panic!("unexpected {:?}", other),
    }
    assert!(publish_outcome(302, String::new()).is_err());
}

#[test]
fn logs_endpoint_is_normalized() {
    assert_eq!(OtlpClient::new("http://localhost:4318/").endpoint(), "http://localhost:4318/v1/logs");
    assert_eq!(OtlpClient::new("http://c").endpoint(), "http://c/v1/logs");
}
