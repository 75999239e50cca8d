use otel_journal_gatewayd_forwarder::metrics::{escape_label, MetricsState};
use std::time::Duration;

#[test]
fn test_metrics_render() {
    let mut state = MetricsState::new();
    state.record_forwarded("host-01", 100);
    state.record_error("host-01", "timeout");
    state.record_poll("host-01", Duration::from_millis(234));

    let output = state.render();
    assert!(output.contains("ojgf_entries_forwarded_total{source=\"host-01\"} 100"));
    assert!(output.contains("ojgf_poll_errors_total{source=\"host-01\",error=\"timeout\"} 1"));
}

#[test]
fn test_escape_label() {
    assert_eq!(escape_label("simple"), "simple");
    assert_eq!(escape_label("with\"quote"), "with\\\"quote");
    assert_eq!(escape_label("with\\backslash"), "with\\\\backslash");
}

#[test]
fn newlines_are_escaped() {
    assert_eq!(escape_label("a\nb"), "a\\nb");
    assert_eq!(escape_label(""), "");
}

#[test]
fn exposition_is_exact() {
    let mut state = MetricsState::new();
    state.record_forwarded("a", 3);
    state.record_forwarded("b\"x", 1);
    state.record_forwarded("a", 4);
    state.record_error("a", "otlp");
    state.record_error("a", "http");
    state.record_error("a", "otlp");
    state.record_poll_at("a", 1_700_000_000_123_456_789, 234_500_000);
    let expected = concat_lines(&[
        "# HELP ojgf_entries_forwarded_total Total journal entries forwarded",
        "# TYPE ojgf_entries_forwarded_total counter",
        "ojgf_entries_forwarded_total{source=\"a\"} 7",
        "ojgf_entries_forwarded_total{source=\"b\\\"x\"} 1",
        "# HELP ojgf_poll_errors_total Total poll errors",
        "# TYPE ojgf_poll_errors_total counter",
        "ojgf_poll_errors_total{source=\"a\",error=\"otlp\"} 2",
        "ojgf_poll_errors_total{source=\"a\",error=\"http\"} 1",
        "# HELP ojgf_last_poll_timestamp_seconds Timestamp of last successful poll",
        "# TYPE ojgf_last_poll_timestamp_seconds gauge",
        "ojgf_last_poll_timestamp_seconds{source=\"a\"} 1700000000.123",
        "# HELP ojgf_poll_duration_seconds Duration of last poll cycle",
        "# TYPE ojgf_poll_duration_seconds gauge",
        "ojgf_poll_duration_seconds{source=\"a\"} 0.235",
    ]);
    assert_eq!(state.render(), expected);
}

#[test]
fn counters_saturate() {
    let mut state = MetricsState::new();
    state.record_forwarded("s", u64::MAX);
    state.record_forwarded("s", 5);
    assert!(state.render().contains(&format!("ojgf_entries_forwarded_total{{source=\"s\"}} {}", u64::MAX)));
}

#[test]
fn empty_state_renders_headers_only() {
    let out = MetricsState::new().render();
    assert_eq!(out.lines().count(), 8);
    assert!(out.lines().all(|l| l.starts_with('#')));
}

fn concat_lines(lines: &[&str]) -> String {
    let mut s = String::new();
    for l in lines {
        s.push_str(l);
        s.push('\n');
    }
    s
}
