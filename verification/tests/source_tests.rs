use broker_ingest::events::LogEvent;
use broker_ingest::finalization::{BatchNotifier, BatchStatus, DeliveryToken, FinalizerEntry,
    OrderedFinalizer};
use broker_ingest::source::{handle_ack, pulsar_source, Dispatcher, Report, SourceAction,
    SourceEvent};

fn token(topic: &str, id: u64) -> DeliveryToken {
    DeliveryToken { topic: topic.to_string(), message_id: id }
}

fn event(payload: &str) -> LogEvent {
    LogEvent {
        payload: payload.as_bytes().to_vec(),
        timestamp_millis: None,
        source_type: None,
    }
}

fn received(topic: &str, id: u64, accepted: bool) -> SourceEvent {
    SourceEvent::Received {
        token: token(topic, id),
        batch: vec![event("one event")],
        handoff_accepted: accepted,
    }
}

fn ack_token(action: &SourceAction) -> &DeliveryToken {
    match action {
        SourceAction::Ack(t) => t,
        other => panic!("expected an ack, got {:?}", other),
    }
}

#[test]
fn ordered_ack_three_messages() {
    // M1, M2, M3 arrive in order; M2's completion resolves before M1's.
    let events = vec![
        received("m1", 1, true),
        received("m2", 2, true),
        received("m3", 3, true),
        SourceEvent::Resolved { seq: 1, status: BatchStatus::Delivered },
        SourceEvent::Resolved { seq: 0, status: BatchStatus::Delivered },
        SourceEvent::Resolved { seq: 2, status: BatchStatus::Delivered },
    ];
    let (_, actions) = pulsar_source(true, events);
    assert_eq!(actions.len(), 3);
    assert_eq!(ack_token(&actions[0]).topic, "m1");
    assert_eq!(ack_token(&actions[1]).topic, "m2");
    assert_eq!(ack_token(&actions[2]).topic, "m3");
}

#[test]
fn handoff_failure_drops_without_ack() {
    // M1's handoff fails; M2 flows normally afterwards.
    let events = vec![
        received("m1", 1, false),
        received("m2", 2, true),
        SourceEvent::Resolved { seq: 0, status: BatchStatus::Delivered },
    ];
    let (_, actions) = pulsar_source(true, events);
    assert_eq!(actions.len(), 2);
    match &actions[0] {
        SourceAction::Report(r) => assert_eq!(*r, Report::EventsDropped { count: 1 }),
        other => panic!("expected a dropped-event report, got {:?}", other),
    }
    assert_eq!(ack_token(&actions[1]).topic, "m2");
    assert_eq!(ack_token(&actions[1]).message_id, 2);
}

#[test]
fn immediate_ack_when_acks_disabled() {
    let events = vec![received("m1", 7, true)];
    let (_, actions) = pulsar_source(false, events);
    assert_eq!(actions.len(), 1);
    assert_eq!(ack_token(&actions[0]).topic, "m1");
    assert_eq!(ack_token(&actions[0]).message_id, 7);
}

#[test]
fn no_ack_on_failed_handoff_when_acks_disabled() {
    let events = vec![received("m1", 7, false)];
    let (_, actions) = pulsar_source(false, events);
    assert_eq!(actions.len(), 1);
    assert!(matches!(actions[0], SourceAction::Report(Report::EventsDropped { count: 1 })));
}

#[test]
fn shutdown_stops_reading() {
    // Events after shutdown are never processed, and pending entries are
    // abandoned without an ack or a nack.
    let events = vec![
        received("m1", 1, true),
        SourceEvent::Shutdown,
        received("m2", 2, true),
        SourceEvent::Resolved { seq: 0, status: BatchStatus::Delivered },
    ];
    let (dispatcher, actions) = pulsar_source(true, events);
    assert!(dispatcher.is_shutdown());
    assert!(actions.is_empty());
}

#[test]
fn outcome_mapping() {
    assert!(matches!(
        handle_ack(BatchStatus::Delivered, token("t", 1)),
        SourceAction::Ack(_)
    ));
    assert!(matches!(
        handle_ack(BatchStatus::Errored, token("t", 2)),
        SourceAction::Nack(_)
    ));
    assert!(matches!(
        handle_ack(BatchStatus::Rejected, token("t", 3)),
        SourceAction::Nack(_)
    ));
}

#[test]
fn rejected_and_errored_are_nacked_in_order() {
    let events = vec![
        received("m1", 1, true),
        received("m2", 2, true),
        SourceEvent::Resolved { seq: 0, status: BatchStatus::Errored },
        SourceEvent::Resolved { seq: 1, status: BatchStatus::Rejected },
    ];
    let (_, actions) = pulsar_source(true, events);
    assert_eq!(actions.len(), 2);
    match (&actions[0], &actions[1]) {
        (SourceAction::Nack(t1), SourceAction::Nack(t2)) => {
            assert_eq!(t1.topic, "m1");
            assert_eq!(t2.topic, "m2");
        }
        other => panic!("expected two nacks, got {:?}", other),
    }
}

#[test]
fn completion_signal_is_single_assignment() {
    // The first resolution of a batch wins; a second attempt changes nothing.
    let events = vec![
        received("m1", 1, true),
        received("m2", 2, true),
        SourceEvent::Resolved { seq: 1, status: BatchStatus::Errored },
        SourceEvent::Resolved { seq: 1, status: BatchStatus::Delivered },
        SourceEvent::Resolved { seq: 0, status: BatchStatus::Delivered },
    ];
    let (_, actions) = pulsar_source(true, events);
    assert_eq!(actions.len(), 2);
    assert!(matches!(&actions[0], SourceAction::Ack(t) if t.topic == "m1"));
    assert!(matches!(&actions[1], SourceAction::Nack(t) if t.topic == "m2"));
}

#[test]
fn unknown_sequence_resolution_is_ignored() {
    let events = vec![
        received("m1", 1, true),
        SourceEvent::Resolved { seq: 9, status: BatchStatus::Delivered },
    ];
    let (_, actions) = pulsar_source(true, events);
    assert!(actions.is_empty());
}

#[test]
fn failure_reports() {
    let events = vec![
        SourceEvent::ReceiveFailed,
        SourceEvent::AckFailed,
        SourceEvent::NackFailed,
    ];
    let (_, actions) = pulsar_source(true, events);
    assert_eq!(actions.len(), 3);
    assert!(matches!(actions[0], SourceAction::Report(Report::TransportReceiveError)));
    assert!(matches!(actions[1], SourceAction::Report(Report::AcknowledgeError)));
    assert!(matches!(actions[2], SourceAction::Report(Report::NegativeAcknowledgeError)));
}

#[test]
fn step_by_step_drain() {
    let mut dispatcher = Dispatcher::new(true);
    assert!(dispatcher.step(received("m1", 1, true)).is_empty());
    assert!(dispatcher.step(received("m2", 2, true)).is_empty());
    // Resolving the tail entry surfaces nothing while the head is pending.
    let actions = dispatcher.step(SourceEvent::Resolved {
        seq: 1,
        status: BatchStatus::Delivered,
    });
    assert!(actions.is_empty());
    // Resolving the head drains both entries, in insertion order.
    let actions = dispatcher.step(SourceEvent::Resolved {
        seq: 0,
        status: BatchStatus::Delivered,
    });
    assert_eq!(actions.len(), 2);
    assert_eq!(ack_token(&actions[0]).topic, "m1");
    assert_eq!(ack_token(&actions[1]).topic, "m2");
}

#[test]
fn finalizer_surfaces_in_insertion_order() {
    let mut finalizer = OrderedFinalizer::new();
    finalizer.add(FinalizerEntry { seq: 0, token: token("a", 1), notifier: BatchNotifier::new() });
    finalizer.add(FinalizerEntry { seq: 1, token: token("b", 2), notifier: BatchNotifier::new() });
    assert_eq!(finalizer.len(), 2);
    assert!(!finalizer.head_resolved());

    finalizer.resolve(1, BatchStatus::Delivered);
    assert!(!finalizer.head_resolved());
    assert!(finalizer.next_resolved().is_none());

    finalizer.resolve(0, BatchStatus::Errored);
    assert!(finalizer.head_resolved());
    let (status, t) = finalizer.next_resolved().expect("head resolved");
    assert_eq!(status, BatchStatus::Errored);
    assert_eq!(t.topic, "a");
    let (status, t) = finalizer.next_resolved().expect("next head resolved");
    assert_eq!(status, BatchStatus::Delivered);
    assert_eq!(t.topic, "b");
    assert!(finalizer.next_resolved().is_none());
    assert_eq!(finalizer.len(), 0);
}

#[test]
fn notifier_resolves_once() {
    let mut notifier = BatchNotifier::new();
    assert!(notifier.status().is_none());
    notifier.resolve(BatchStatus::Rejected);
    assert_eq!(notifier.status(), Some(BatchStatus::Rejected));
}
