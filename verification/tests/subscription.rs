use oplog::bson::Bson;
use oplog::bson::Document;
use oplog::operation::Operation;
use oplog::subscription::event_payload;
use oplog::subscription::make_event;
use oplog::subscription::namespace_filter;
use oplog::subscription::namespace_of;
use oplog::subscription::op_filter;
use oplog::subscription::worker_step;
use oplog::subscription::EventKind;
use oplog::subscription::Subscription;
use oplog::subscription::WorkerAction;
use oplog::subscription::WorkerInput;
use oplog::subscription::WorkerState;
use oplog::Error;
use oplog::Event;

/// Builds a document from field pairs, in order.
fn record_of(fields: Vec<(&str, Bson)>) -> Document {
    Document { fields: fields.into_iter().map(|(k, v)| (k.to_string(), v)).collect() }
}

fn text(s: &str) -> Bson {
    Bson::Str(s.to_string())
}

fn insert_record() -> Document {
    record_of(vec![
        ("ts", Bson::Timestamp { time: 10, increment: 0 }),
        ("op", text("i")),
        ("ns", text("foo.bar")),
        ("o", Bson::Doc(record_of(vec![("foo", text("bar"))]))),
    ])
}

#[test]
fn queue_applies_backpressure_and_drops_nothing() {
    let mut sub: Subscription<u32> = Subscription::new(2);

    assert!(sub.offer(1));
    assert!(sub.offer(2));
    // The queue is full: the producer must wait; the event is not dropped
    // but offered again once a slot frees up.
    assert!(!sub.offer(3));
    assert_eq!(sub.pending_len(), 2);

    assert_eq!(sub.take(), Some(1));
    assert!(sub.offer(3));

    // Drained in exactly the order produced, and nothing was lost.
    assert_eq!(sub.take(), Some(2));
    assert_eq!(sub.take(), Some(3));
    assert_eq!(sub.take(), None);
}

#[test]
fn queue_observes_every_event_once_drained() {
    let mut sub: Subscription<u32> = Subscription::new(4);
    let mut seen: Vec<u32> = Vec::new();
    let mut next: u32 = 0;

    // Produce 10 events faster than the consumer drains: whenever the queue
    // refuses one, drain a slot and offer the same event again.
    while next < 10 {
        if sub.offer(next) {
            next += 1;
        } else if let Some(v) = sub.take() {
            seen.push(v);
        }
    }
    while let Some(v) = sub.take() {
        seen.push(v);
    }

    assert_eq!(seen, (0..10).collect::<Vec<u32>>());
}

#[test]
fn queue_delivers_nothing_new_after_cancellation() {
    let mut sub: Subscription<&str> = Subscription::new(4);
    assert!(sub.offer("before"));
    sub.cancel();
    assert!(!sub.is_running());

    // Nothing enters the queue after the cancellation signal.
    assert!(!sub.offer("after"));

    // What was pending at cancellation can still be taken; nothing more.
    assert_eq!(sub.take(), Some("before"));
    assert_eq!(sub.take(), None);
}

#[test]
fn queue_closes_for_good_on_reader_fault() {
    let mut sub: Subscription<u32> = Subscription::new(1);
    sub.close();
    assert!(!sub.is_running());
    assert!(!sub.offer(1));
    // Cancellation does not revive a closed subscription.
    sub.cancel();
    assert!(!sub.offer(1));
    assert_eq!(sub.take(), None);
}

#[test]
fn worker_publishes_mutations_and_ignores_the_rest() {
    let (state, action) = worker_step(WorkerState::Running, WorkerInput::Record(insert_record()));
    assert_eq!(state, WorkerState::Running);
    match action {
        WorkerAction::Publish(kind, payload) => {
            assert_eq!(kind, EventKind::Added);
            assert_eq!(payload, record_of(vec![("foo", text("bar"))]));
        }
        other => panic!("Expected a publish, got {:?}", other),
    }

    let noop = record_of(vec![
        ("ts", Bson::Timestamp { time: 10, increment: 0 }),
        ("op", text("n")),
        ("o", Bson::Doc(record_of(vec![("msg", text("hello"))]))),
    ]);
    let (state, action) = worker_step(WorkerState::Running, WorkerInput::Record(noop));
    assert_eq!(state, WorkerState::Running);
    assert!(matches!(action, WorkerAction::Ignore));
}

#[test]
fn worker_skips_undecodable_records_and_goes_on() {
    let bad = record_of(vec![("op", text("x"))]);
    let (state, action) = worker_step(WorkerState::Running, WorkerInput::Record(bad));
    assert_eq!(state, WorkerState::Running);
    match action {
        WorkerAction::Skip(Error::UnknownOperation(code)) => assert_eq!(code, "x"),
        other => panic!("Expected a skip, got {:?}", other),
    }
}

#[test]
fn worker_stops_on_cancellation_and_reader_faults() {
    let (state, action) = worker_step(WorkerState::Running, WorkerInput::Cancel);
    assert_eq!(state, WorkerState::Cancelled);
    assert!(matches!(action, WorkerAction::Stop));

    let (state, action) = worker_step(
        WorkerState::Running,
        WorkerInput::ReaderFault("connection reset".to_string()),
    );
    assert_eq!(state, WorkerState::Closed);
    assert!(matches!(action, WorkerAction::Stop));

    // Terminal states absorb every input.
    let (state, action) = worker_step(WorkerState::Cancelled, WorkerInput::Record(insert_record()));
    assert_eq!(state, WorkerState::Cancelled);
    assert!(matches!(action, WorkerAction::Stop));
    let (state, action) = worker_step(WorkerState::Closed, WorkerInput::Cancel);
    assert_eq!(state, WorkerState::Closed);
    assert!(matches!(action, WorkerAction::Stop));
}

#[test]
fn events_wrap_payloads_by_kind() {
    let doc = record_of(vec![("foo", text("bar"))]);
    let (kind, payload) = event_payload(Operation::Insert {
        timestamp: 1,
        namespace: "foo.bar".into(),
        document: doc.clone(),
    })
    .unwrap();
    assert_eq!(kind, EventKind::Added);
    assert_eq!(payload, doc);

    assert_eq!(make_event::<u32>(EventKind::Added, Ok(7)), Event::Added(7));
    assert_eq!(make_event::<u32>(EventKind::Updated, Ok(8)), Event::Updated(8));
    assert_eq!(make_event::<u32>(EventKind::Deleted, Ok(9)), Event::Deleted(9));
    assert_eq!(
        make_event::<u32>(EventKind::Added, Err("bad shape".to_string())),
        Event::Error("bad shape".to_string())
    );
}

#[test]
fn heartbeats_and_commands_produce_no_event() {
    assert!(event_payload(Operation::Noop { timestamp: 1, message: "hi".into() }).is_none());
    assert!(event_payload(Operation::Command {
        timestamp: 1,
        namespace: "foo.$cmd".into(),
        command: record_of(vec![]),
    })
    .is_none());
    assert!(event_payload(Operation::ApplyOps {
        timestamp: 1,
        namespace: "foo.$cmd".into(),
        operations: vec![],
    })
    .is_none());
}

#[test]
fn namespaces_join_database_and_collection() {
    assert_eq!(namespace_of("foo", "bar"), "foo.bar");
    assert_eq!(namespace_of("", "bar"), ".bar");
}

#[test]
fn filters_inject_the_namespace_last() {
    let ns = namespace_of("foo", "bar");
    let filter = namespace_filter(None, ns);
    assert_eq!(
        filter.get(&"ns".to_string()),
        Some(&Bson::Str("foo.bar".to_string()))
    );

    // Caller keys survive; a caller-supplied ns does not.
    let caller = record_of(vec![("x", Bson::Int32(1)), ("ns", text("other.ns"))]);
    let filter = namespace_filter(Some(caller), namespace_of("foo", "bar"));
    assert_eq!(filter.get(&"x".to_string()), Some(&Bson::Int32(1)));
    assert_eq!(
        filter.get(&"ns".to_string()),
        Some(&Bson::Str("foo.bar".to_string()))
    );
}

#[test]
fn filters_restrict_to_mutating_operations() {
    let filter = op_filter(Some(record_of(vec![("ns", text("foo.bar"))])));
    assert_eq!(filter.get(&"ns".to_string()), Some(&Bson::Str("foo.bar".to_string())));
    let restriction = record_of(vec![(
        "$in",
        Bson::Array(vec![text("d"), text("u"), text("i")]),
    )]);
    assert_eq!(filter.get(&"op".to_string()), Some(&Bson::Doc(restriction)));
}
