use oplog::bson::Bson;
use oplog::bson::Document;
use oplog::bson::FieldErrorKind;
use oplog::operation::Operation;
use oplog::operation::UpdateShape;
use oplog::Error;

/// Builds a document from field pairs, in order.
fn doc_of(fields: Vec<(&str, Bson)>) -> Document {
    Document { fields: fields.into_iter().map(|(k, v)| (k.to_string(), v)).collect() }
}

fn str_val(s: &str) -> Bson {
    Bson::Str(s.to_string())
}

#[test]
fn operation_converts_inserts() {
    let doc = doc_of(vec![
        ("ts", Bson::Timestamp { time: 1479419534, increment: 0 }),
        ("op", str_val("i")),
        ("ns", str_val("foo.bar")),
        ("o", Bson::Doc(doc_of(vec![("foo", str_val("bar"))]))),
    ]);
    let operation = Operation::new(&doc).unwrap();

    assert_eq!(
        operation,
        Operation::Insert {
            timestamp: 1479419534,
            namespace: "foo.bar".into(),
            document: doc_of(vec![("foo", str_val("bar"))]),
        }
    );
}

#[test]
fn operation_converts_updates() {
    let doc = doc_of(vec![
        ("ts", Bson::Timestamp { time: 1479561033, increment: 0 }),
        ("op", str_val("u")),
        ("ns", str_val("foo.bar")),
        ("o2", Bson::Doc(doc_of(vec![("_id", Bson::Int32(1))]))),
        (
            "o",
            Bson::Doc(doc_of(vec![(
                "data",
                Bson::Doc(doc_of(vec![("foo", str_val("baz"))])),
            )])),
        ),
    ]);
    let operation = Operation::new(&doc).unwrap();

    assert_eq!(
        operation,
        Operation::Update {
            timestamp: 1479561033,
            namespace: "foo.bar".into(),
            document: doc_of(vec![(
                "data",
                Bson::Doc(doc_of(vec![("foo", str_val("baz"))])),
            )]),
        }
    );
}

#[test]
fn operation_converts_deletes() {
    let doc = doc_of(vec![
        ("ts", Bson::Timestamp { time: 1661330782, increment: 0 }),
        ("op", str_val("d")),
        ("ns", str_val("foo.bar")),
        ("o", Bson::Doc(doc_of(vec![("_id", Bson::Int32(1))]))),
    ]);
    let operation = Operation::new(&doc).unwrap();

    assert_eq!(
        operation,
        Operation::Delete {
            timestamp: 1661330782,
            namespace: "foo.bar".into(),
            query: doc_of(vec![("_id", Bson::Int32(1))]),
        }
    );
}

#[test]
fn operation_returns_unknown_operations() {
    let doc = doc_of(vec![("op", str_val("x"))]);
    let operation = Operation::new(&doc);

    match operation {
        Err(Error::UnknownOperation(op)) => assert_eq!(op, "x"),
        _ => panic!("Expected unknown operation."),
    }
}

#[test]
fn operation_returns_missing_fields() {
    let doc = doc_of(vec![("foo", str_val("bar"))]);
    let operation = Operation::new(&doc);

    match operation {
        Err(Error::MissingField(err)) => assert_eq!(err.kind, FieldErrorKind::NotPresent),
        _ => panic!("Expected missing field."),
    }
}

#[test]
fn operation_converts_legacy_updates() {
    let doc = doc_of(vec![
        ("ts", Bson::Timestamp { time: 1479561033, increment: 0 }),
        ("op", str_val("u")),
        ("ns", str_val("foo.bar")),
        ("o2", Bson::Doc(doc_of(vec![("_id", Bson::Int32(1))]))),
        (
            "o",
            Bson::Doc(doc_of(vec![(
                "$set",
                Bson::Doc(doc_of(vec![("foo", str_val("baz"))])),
            )])),
        ),
    ]);
    let operation = Operation::decode(&doc, UpdateShape::Legacy).unwrap();

    assert_eq!(
        operation,
        Operation::LegacyUpdate {
            timestamp: 1479561033,
            namespace: "foo.bar".into(),
            query: doc_of(vec![("_id", Bson::Int32(1))]),
            update: doc_of(vec![(
                "$set",
                Bson::Doc(doc_of(vec![("foo", str_val("baz"))])),
            )]),
        }
    );
}

#[test]
fn operation_converts_noops() {
    let doc = doc_of(vec![
        ("ts", Bson::Timestamp { time: 100, increment: 3 }),
        ("op", str_val("n")),
        ("o", Bson::Doc(doc_of(vec![("msg", str_val("periodic noop"))]))),
    ]);
    let operation = Operation::new(&doc).unwrap();

    assert_eq!(
        operation,
        Operation::Noop { timestamp: 103, message: "periodic noop".into() }
    );
}

#[test]
fn operation_converts_commands() {
    let payload = doc_of(vec![("create", str_val("bar"))]);
    let doc = doc_of(vec![
        ("ts", Bson::Timestamp { time: 200, increment: 0 }),
        ("op", str_val("c")),
        ("ns", str_val("foo.$cmd")),
        ("o", Bson::Doc(payload.clone())),
    ]);
    let operation = Operation::new(&doc).unwrap();

    assert_eq!(
        operation,
        Operation::Command { timestamp: 200, namespace: "foo.$cmd".into(), command: payload }
    );
}

#[test]
fn operation_converts_apply_ops_batches() {
    let nested = doc_of(vec![
        ("ts", Bson::Timestamp { time: 1479419535, increment: 0 }),
        ("op", str_val("i")),
        ("ns", str_val("foo.bar")),
        ("o", Bson::Doc(doc_of(vec![("foo", str_val("bar"))]))),
    ]);
    let doc = doc_of(vec![
        ("ts", Bson::Timestamp { time: 1479419535, increment: 0 }),
        ("op", str_val("c")),
        ("ns", str_val("foo.$cmd")),
        (
            "o",
            Bson::Doc(doc_of(vec![(
                "applyOps",
                Bson::Array(vec![Bson::Doc(nested)]),
            )])),
        ),
    ]);
    let operation = Operation::new(&doc).unwrap();

    match operation {
        Operation::ApplyOps { timestamp, namespace, operations } => {
            assert_eq!(timestamp, 1479419535);
            assert_eq!(namespace, "foo.$cmd".to_string());
            assert_eq!(operations.len(), 1);
            assert_eq!(
                operations[0],
                Operation::Insert {
                    timestamp: 1479419535,
                    namespace: "foo.bar".into(),
                    document: doc_of(vec![("foo", str_val("bar"))]),
                }
            );
        }
        other => panic!("Expected an ApplyOps batch, got {:?}", other),
    }
}

#[test]
fn operation_rejects_non_record_batch_entries() {
    let doc = doc_of(vec![
        ("ts", Bson::Timestamp { time: 300, increment: 0 }),
        ("op", str_val("c")),
        ("ns", str_val("foo.$cmd")),
        (
            "o",
            Bson::Doc(doc_of(vec![("applyOps", Bson::Array(vec![Bson::Int32(7)]))])),
        ),
    ]);
    let operation = Operation::new(&doc);

    assert!(matches!(operation, Err(Error::InvalidOperation)));
}

#[test]
fn operation_propagates_nested_decode_errors() {
    // The nested record is a document but lacks the fields an insert needs.
    let nested = doc_of(vec![("op", str_val("i"))]);
    let doc = doc_of(vec![
        ("ts", Bson::Timestamp { time: 300, increment: 0 }),
        ("op", str_val("c")),
        ("ns", str_val("foo.$cmd")),
        (
            "o",
            Bson::Doc(doc_of(vec![(
                "applyOps",
                Bson::Array(vec![Bson::Doc(nested)]),
            )])),
        ),
    ]);
    let operation = Operation::new(&doc);

    match operation {
        Err(Error::MissingField(err)) => {
            assert_eq!(err.field, "ts".to_string());
            assert_eq!(err.kind, FieldErrorKind::NotPresent);
        }
        other => panic!("Expected the nested missing field, got {:?}", other),
    }
}

#[test]
fn operation_rejects_batches_nested_past_the_depth_bound() {
    // A chain of batch records nested one level deeper than the decoder
    // follows.
    let mut record = doc_of(vec![
        ("ts", Bson::Timestamp { time: 1, increment: 0 }),
        ("op", str_val("i")),
        ("ns", str_val("foo.bar")),
        ("o", Bson::Doc(doc_of(vec![("foo", str_val("bar"))]))),
    ]);
    for _ in 0..(oplog::operation::DEPTH_LIMIT + 1) {
        record = doc_of(vec![
            ("ts", Bson::Timestamp { time: 1, increment: 0 }),
            ("op", str_val("c")),
            ("ns", str_val("foo.$cmd")),
            (
                "o",
                Bson::Doc(doc_of(vec![(
                    "applyOps",
                    Bson::Array(vec![Bson::Doc(record)]),
                )])),
            ),
        ]);
    }
    assert!(matches!(Operation::new(&record), Err(Error::InvalidOperation)));

    // One level fewer decodes fine.
    let mut record = doc_of(vec![
        ("ts", Bson::Timestamp { time: 1, increment: 0 }),
        ("op", str_val("i")),
        ("ns", str_val("foo.bar")),
        ("o", Bson::Doc(doc_of(vec![("foo", str_val("bar"))]))),
    ]);
    for _ in 0..oplog::operation::DEPTH_LIMIT {
        record = doc_of(vec![
            ("ts", Bson::Timestamp { time: 1, increment: 0 }),
            ("op", str_val("c")),
            ("ns", str_val("foo.$cmd")),
            (
                "o",
                Bson::Doc(doc_of(vec![(
                    "applyOps",
                    Bson::Array(vec![Bson::Doc(record)]),
                )])),
            ),
        ]);
    }
    assert!(Operation::new(&record).is_ok());
}

#[test]
fn operation_reports_mistyped_fields() {
    // `op` is present but not a string.
    let doc = doc_of(vec![("op", Bson::Int32(1))]);
    match Operation::new(&doc) {
        Err(Error::MissingField(err)) => {
            assert_eq!(err.field, "op".to_string());
            assert_eq!(err.kind, FieldErrorKind::UnexpectedType);
        }
        other => panic!("Expected a mistyped op field, got {:?}", other),
    }

    // `ts` is present but not a timestamp.
    let doc = doc_of(vec![("op", str_val("i")), ("ts", Bson::Int64(5))]);
    match Operation::new(&doc) {
        Err(Error::MissingField(err)) => {
            assert_eq!(err.field, "ts".to_string());
            assert_eq!(err.kind, FieldErrorKind::UnexpectedType);
        }
        other => panic!("Expected a mistyped ts field, got {:?}", other),
    }
}

#[test]
fn operation_decoding_is_idempotent() {
    let doc = doc_of(vec![
        ("ts", Bson::Timestamp { time: 1479419534, increment: 2 }),
        ("op", str_val("i")),
        ("ns", str_val("foo.bar")),
        ("o", Bson::Doc(doc_of(vec![("foo", str_val("bar"))]))),
    ]);
    let first = Operation::new(&doc).unwrap();
    let second = Operation::new(&doc).unwrap();
    assert_eq!(first, second);

    let bad = doc_of(vec![("op", str_val("x"))]);
    let first = Operation::new(&bad);
    let second = Operation::new(&bad);
    assert!(matches!(
        (first, second),
        (Err(Error::UnknownOperation(a)), Err(Error::UnknownOperation(b))) if a == b
    ));
}

#[test]
fn operations_clone_deeply() {
    let op = Operation::ApplyOps {
        timestamp: 7,
        namespace: "foo.$cmd".into(),
        operations: vec![Operation::Insert {
            timestamp: 7,
            namespace: "foo.bar".into(),
            document: doc_of(vec![("foo", str_val("bar"))]),
        }],
    };
    assert_eq!(op.clone(), op);

    let doc = doc_of(vec![("o", Bson::Doc(doc_of(vec![("k", Bson::Int64(1))])))]);
    assert_eq!(doc.clone(), doc);
}

#[test]
fn error_messages_are_exact() {
    assert_eq!(
        Error::UnknownOperation("x".to_string()).message(),
        "Unknown operation type found: x"
    );
    assert_eq!(Error::InvalidOperation.message(), "Invalid operation");
    assert_eq!(
        Error::Database("connection reset".to_string()).message(),
        "connection reset"
    );
    let doc = doc_of(vec![("foo", str_val("bar"))]);
    match Operation::new(&doc) {
        Err(e) => assert_eq!(e.message(), "missing field: op"),
        Ok(_) => panic!("Expected an error."),
    }
}
