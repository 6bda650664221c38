use broker_ingest::events::{collect_decoded, enrich, enrich_batch, prepare_batch,
    prepare_batch_now, DecodeStep, LogEvent};
use broker_ingest::internal_events::{ErrorCode, ErrorStage, ErrorType, PulsarErrorEvent,
    PulsarErrorEventData, PulsarErrorEventType, PulsarPropertyExtractionError, PulsarSendingError};

fn event(payload: &str) -> LogEvent {
    LogEvent {
        payload: payload.as_bytes().to_vec(),
        timestamp_millis: None,
        source_type: None,
    }
}

fn payloads(events: &[LogEvent]) -> Vec<&[u8]> {
    events.iter().map(|e| e.payload.as_slice()).collect()
}

#[test]
fn continuable_failure_resumes_same_message() {
    let steps = vec![
        DecodeStep::Records(vec![event("a")]),
        DecodeStep::Failure { continuable: true },
        DecodeStep::Records(vec![event("b"), event("c")]),
    ];
    let events = collect_decoded(steps);
    assert_eq!(payloads(&events), vec![b"a" as &[u8], b"b", b"c"]);
}

#[test]
fn terminal_failure_abandons_remainder() {
    let steps = vec![
        DecodeStep::Records(vec![event("a")]),
        DecodeStep::Failure { continuable: false },
        DecodeStep::Records(vec![event("b")]),
    ];
    let events = collect_decoded(steps);
    assert_eq!(payloads(&events), vec![b"a" as &[u8]]);
}

#[test]
fn next_message_decodes_normally_after_terminal_failure() {
    // The cut applies to one message only: a fresh message's steps are
    // unaffected by the previous message's terminal failure.
    let first = collect_decoded(vec![DecodeStep::Failure { continuable: false }]);
    assert!(first.is_empty());
    let second = collect_decoded(vec![DecodeStep::Records(vec![event("fresh")])]);
    assert_eq!(payloads(&second), vec![b"fresh" as &[u8]]);
}

#[test]
fn empty_message_yields_no_events() {
    let events = collect_decoded(Vec::new());
    assert!(events.is_empty());
}

#[test]
fn enrich_inserts_timestamp_only_if_empty() {
    let mut fresh = event("x");
    enrich(&mut fresh, 1000);
    assert_eq!(fresh.timestamp_millis, Some(1000));
    assert_eq!(fresh.source_type.as_deref(), Some("pulsar"));
    assert_eq!(fresh.payload, b"x");

    let mut stamped = LogEvent {
        payload: b"y".to_vec(),
        timestamp_millis: Some(5),
        source_type: None,
    };
    enrich(&mut stamped, 1000);
    assert_eq!(stamped.timestamp_millis, Some(5));
    assert_eq!(stamped.source_type.as_deref(), Some("pulsar"));
}

#[test]
fn enrich_batch_keeps_order() {
    let batch = enrich_batch(vec![event("a"), event("b")], 42);
    assert_eq!(payloads(&batch), vec![b"a" as &[u8], b"b"]);
    assert!(batch.iter().all(|e| e.timestamp_millis == Some(42)));
    assert!(batch.iter().all(|e| e.source_type.as_deref() == Some("pulsar")));
}

#[test]
fn prepare_batch_decodes_and_enriches() {
    let steps = vec![
        DecodeStep::Records(vec![event("a")]),
        DecodeStep::Failure { continuable: false },
        DecodeStep::Records(vec![event("b")]),
    ];
    let batch = prepare_batch(steps, 7);
    assert_eq!(payloads(&batch), vec![b"a" as &[u8]]);
    assert_eq!(batch[0].timestamp_millis, Some(7));
}

#[test]
fn prepare_batch_now_stamps_current_time() {
    let steps = vec![DecodeStep::Records(vec![event("a")])];
    let (batch, now) = prepare_batch_now(steps);
    assert_eq!(batch.len(), 1);
    assert_eq!(batch[0].timestamp_millis, Some(now));
    // The reading comes from the wall clock, well after the epoch.
    assert!(now > 0);
}

#[test]
fn sending_error_report() {
    let report = PulsarSendingError { count: 3, error: "broker gone".to_string() }.emit();
    assert_eq!(report.message, "A Pulsar sink generated an error.");
    assert_eq!(report.error.as_deref(), Some("broker gone"));
    assert!(report.code.is_none());
    assert_eq!(report.error_type, ErrorType::RequestFailed);
    assert_eq!(report.stage, ErrorStage::Sending);
    assert_eq!(report.dropped_events, 3);
}

#[test]
fn property_extraction_error_report() {
    let report =
        PulsarPropertyExtractionError { property_field: "properties.key".to_string() }.emit();
    assert_eq!(
        report.message,
        "Failed to extract properties. Value should be a map of String -> Bytes."
    );
    assert_eq!(report.error.as_deref(), Some("properties.key"));
    assert_eq!(report.code, Some(ErrorCode::ExtractingProperty));
    assert_eq!(report.error_type, ErrorType::ParserFailed);
    assert_eq!(report.stage, ErrorStage::Processing);
    assert_eq!(report.dropped_events, 0);
}

#[test]
fn broker_error_reports() {
    let handle = PulsarErrorEvent::new();

    let read = handle.emit(PulsarErrorEventData {
        msg: "read failed".to_string(),
        error_type: PulsarErrorEventType::ReadError,
    });
    assert_eq!(read.message, "Failed to read message.");
    assert_eq!(read.code, Some(ErrorCode::ReadingMessage));
    assert_eq!(read.error_type, ErrorType::ReaderFailed);
    assert_eq!(read.stage, ErrorStage::Receiving);
    assert_eq!(read.error.as_deref(), Some("read failed"));

    let ack = handle.emit(PulsarErrorEventData {
        msg: "ack failed".to_string(),
        error_type: PulsarErrorEventType::AckError,
    });
    assert_eq!(ack.message, "Failed to acknowledge message.");
    assert_eq!(ack.code, Some(ErrorCode::AcknowledgeMessage));
    assert_eq!(ack.error_type, ErrorType::AcknowledgmentFailed);

    let nack = handle.emit(PulsarErrorEventData {
        msg: "nack failed".to_string(),
        error_type: PulsarErrorEventType::NAckError,
    });
    assert_eq!(nack.message, "Failed to negatively acknowledge message.");
    assert_eq!(nack.code, Some(ErrorCode::NegativeAcknowledgeMessage));
    assert_eq!(nack.error_type, ErrorType::AcknowledgmentFailed);
}
