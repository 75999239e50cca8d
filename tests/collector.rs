use otel_journal_gatewayd_forwarder::collector::{CollectorError, PollAction, PollCycle};
use otel_journal_gatewayd_forwarder::journal::{JournalEntry, JournalError};
use otel_journal_gatewayd_forwarder::otlp::OtlpError;

fn entry(cursor: &str) -> JournalEntry {
    JournalEntry::from_json_line(&format!(
        "{{\"__CURSOR\":\"{}\",\"__REALTIME_TIMESTAMP\":\"1\",\"MESSAGE\":\"m\"}}",
        cursor
    ))
    .unwrap()
}

#[test]
fn acknowledged_batch_advances_checkpoint_to_last_cursor() {
    let (mut cycle, action) = PollCycle::start(Some("c0".to_string()));
    assert!(matches!(action, PollAction::Fetch { cursor: Some(ref c) } if c == "c0"));
    let action = cycle.on_fetched(Ok(vec![entry("c1"), entry("c2"), entry("c3")]));
    match action {
        PollAction::Publish { entries } => assert_eq!(entries.len(), 3),
        other => panic!("unexpected {:?}", other),
    }
    let action = cycle.on_published(Ok(()));
    assert!(matches!(action, PollAction::SaveCheckpoint { ref cursor } if cursor == "c3"));
    let action = cycle.on_saved(Ok(()));
    assert!(matches!(action, PollAction::Finish { outcome: Ok(3) }));
    assert!(cycle.is_done());
    assert!(cycle.errors().is_empty());
}

#[test]
fn rejected_batch_leaves_checkpoint_untouched() {
    let (mut cycle, _) = PollCycle::start(Some("c0".to_string()));
    let action = cycle.on_fetched(Ok(vec![entry("c1"), entry("c2")]));
    assert!(matches!(action, PollAction::Publish { .. }));
    let action = cycle.on_published(Err(OtlpError::ServerError {
        status: 500,
        body: "boom".to_string(),
    }));
    assert!(matches!(
        action,
        PollAction::Finish { outcome: Err(CollectorError::Otlp(OtlpError::ServerError { status: 500, .. })) }
    ));
    assert!(cycle.is_done());
    assert_eq!(cycle.errors(), &vec!["otlp"]);
}

#[test]
fn gone_checkpoint_is_reset_and_fetched_once_from_boot() {
    let (mut cycle, _) = PollCycle::start(Some("old".to_string()));
    let action = cycle.on_fetched(Err(JournalError::InvalidCursor));
    assert!(matches!(action, PollAction::ResetCheckpoint));
    let action = cycle.on_reset(Ok(()));
    assert!(matches!(action, PollAction::Fetch { cursor: None }));
    // The retry's own failure gets no special handling: no second reset.
    let action = cycle.on_fetched(Err(JournalError::InvalidCursor));
    assert!(matches!(
        action,
        PollAction::Finish { outcome: Err(CollectorError::Journal(JournalError::InvalidCursor)) }
    ));
    assert_eq!(cycle.errors(), &vec!["invalid_cursor"]);
}

#[test]
fn gone_checkpoint_then_successful_retry() {
    let (mut cycle, _) = PollCycle::start(Some("old".to_string()));
    assert!(matches!(cycle.on_fetched(Err(JournalError::InvalidCursor)), PollAction::ResetCheckpoint));
    assert!(matches!(cycle.on_reset(Ok(())), PollAction::Fetch { cursor: None }));
    assert!(matches!(cycle.on_fetched(Ok(vec![entry("n1")])), PollAction::Publish { .. }));
    assert!(matches!(cycle.on_published(Ok(())), PollAction::SaveCheckpoint { ref cursor } if cursor == "n1"));
    assert!(matches!(cycle.on_saved(Ok(())), PollAction::Finish { outcome: Ok(1) }));
}

#[test]
fn empty_fetch_ends_cycle_with_nothing_forwarded() {
    let (mut cycle, action) = PollCycle::start(None);
    assert!(matches!(action, PollAction::Fetch { cursor: None }));
    assert!(matches!(cycle.on_fetched(Ok(Vec::new())), PollAction::Finish { outcome: Ok(0) }));
    assert!(cycle.is_done());
}

#[test]
fn fetch_failure_is_reported_with_its_kind() {
    let (mut cycle, _) = PollCycle::start(None);
    let action = cycle.on_fetched(Err(JournalError::ServerError { status: 503 }));
    assert!(matches!(
        action,
        PollAction::Finish { outcome: Err(CollectorError::Journal(JournalError::ServerError { status: 503 })) }
    ));
    assert_eq!(cycle.errors(), &vec!["server"]);
    let (mut cycle, _) = PollCycle::start(None);
    cycle.on_fetched(Err(JournalError::Http("refused".to_string())));
    assert_eq!(cycle.errors(), &vec!["http"]);
}

#[test]
fn failed_reset_ends_cycle() {
    let (mut cycle, _) = PollCycle::start(Some("old".to_string()));
    cycle.on_fetched(Err(JournalError::InvalidCursor));
    let err = otel_journal_gatewayd_forwarder::cursor::CursorError::Write(std::io::Error::new(
        std::io::ErrorKind::PermissionDenied,
        "denied",
    ));
    let action = cycle.on_reset(Err(err));
    assert!(matches!(action, PollAction::Finish { outcome: Err(CollectorError::Cursor(_)) }));
    assert!(cycle.is_done());
}

#[test]
fn failed_save_ends_cycle_with_error() {
    let (mut cycle, _) = PollCycle::start(None);
    cycle.on_fetched(Ok(vec![entry("c1")]));
    cycle.on_published(Ok(()));
    let err = otel_journal_gatewayd_forwarder::cursor::CursorError::Rename(std::io::Error::new(
        std::io::ErrorKind::Other,
        "rename",
    ));
    let action = cycle.on_saved(Err(err));
    assert!(matches!(action, PollAction::Finish { outcome: Err(CollectorError::Cursor(_)) }));
}
