//! Decoding raw change-log records into typed operations.
//!
//! A raw record is an untyped [`Document`]. Its `op` field selects one of a
//! closed set of operation kinds; the decoder then reads the fields that kind
//! requires and either builds the whole variant or fails with a single
//! [`Error`] — no partially populated operation ever escapes. A command
//! record whose payload carries a batch of nested records decodes
//! recursively into [`Operation::ApplyOps`]; nesting is bounded by a
//! defensive depth limit.
use crate::bson::array_items_model;
use crate::bson::doc_field;
use crate::bson::doc_get_model;
use crate::bson::str_field;
use crate::bson::timestamp_field;
use crate::bson::Bson;
use crate::bson::BsonModel;
use crate::bson::DocModel;
use crate::bson::Document;
use crate::bson::FieldErrorKind;
use crate::Error;
use crate::ErrorModel;
use crate::FieldError;
use vstd::prelude::*;

verus! {

/// How many levels of nested batch records the decoder will follow before
/// rejecting a record as invalid. The record format documents no limit, so
/// pathological nesting is cut off defensively.
pub const DEPTH_LIMIT: u32 = 32;

/// Which of the two update-record schemas the decoder expects: the reduced
/// shape used by the live-subscription path, whose `o` field carries the
/// update document alone, or the legacy shape, whose `o2` field carries the
/// selection criteria beside the update in `o`.
#[derive(Clone, Copy, Debug, PartialEq, Eq, Structural)]
pub enum UpdateShape {
    Reduced,
    Legacy,
}

/// What an [`Operation`] denotes.
pub enum OperationModel {
    Noop { timestamp: int, message: Seq<char> },
    Insert { timestamp: int, namespace: Seq<char>, document: DocModel },
    Update { timestamp: int, namespace: Seq<char>, document: DocModel },
    LegacyUpdate { timestamp: int, namespace: Seq<char>, query: DocModel, update: DocModel },
    Delete { timestamp: int, namespace: Seq<char>, query: DocModel },
    Command { timestamp: int, namespace: Seq<char>, command: DocModel },
    ApplyOps { timestamp: int, namespace: Seq<char>, operations: Seq<OperationModel> },
}

/// A change-log operation: the typed form of one raw record.
///
/// `timestamp` is the record's log sequence time, its seconds plus the
/// monotonic increment within that second. `namespace` is always
/// `"<database>.<collection>"`.
#[derive(Debug, PartialEq)]
pub enum Operation {
    /// A heartbeat or administrative entry that mutates no data.
    Noop { timestamp: i64, message: String },
    /// An insert of `document` into `namespace`.
    Insert { timestamp: i64, namespace: String, document: Document },
    /// An update in `namespace`, reduced shape: only the update document.
    Update { timestamp: i64, namespace: String, document: Document },
    /// An update in `namespace`, legacy shape: selection criteria and update.
    LegacyUpdate { timestamp: i64, namespace: String, query: Document, update: Document },
    /// A deletion in `namespace` of the documents matching `query`.
    Delete { timestamp: i64, namespace: String, query: Document },
    /// An administrative command, carried as its raw document.
    Command { timestamp: i64, namespace: String, command: Document },
    /// A batch of operations applied together, each fully decoded.
    ApplyOps { timestamp: i64, namespace: String, operations: Vec<Operation> },
}

/// What a sequence of operations denotes.
pub open spec fn operations_model(ops: Seq<Operation>) -> Seq<OperationModel>
    decreases ops,
{
    Seq::new(
        ops.len(),
        |i: int|
            if 0 <= i < ops.len() {
                operation_model(ops[i])
            } else {
                OperationModel::Noop { timestamp: 0, message: Seq::empty() }
            },
    )
}

/// What an [`Operation`] denotes.
pub open spec fn operation_model(op: Operation) -> OperationModel
    decreases op,
{
    match op {
        Operation::Noop { timestamp, message } => OperationModel::Noop {
            timestamp: timestamp as int,
            message: message@,
        },
        Operation::Insert { timestamp, namespace, document } => OperationModel::Insert {
            timestamp: timestamp as int,
            namespace: namespace@,
            document: document@,
        },
        Operation::Update { timestamp, namespace, document } => OperationModel::Update {
            timestamp: timestamp as int,
            namespace: namespace@,
            document: document@,
        },
        Operation::LegacyUpdate { timestamp, namespace, query, update } => OperationModel::LegacyUpdate {
            timestamp: timestamp as int,
            namespace: namespace@,
            query: query@,
            update: update@,
        },
        Operation::Delete { timestamp, namespace, query } => OperationModel::Delete {
            timestamp: timestamp as int,
            namespace: namespace@,
            query: query@,
        },
        Operation::Command { timestamp, namespace, command } => OperationModel::Command {
            timestamp: timestamp as int,
            namespace: namespace@,
            command: command@,
        },
        Operation::ApplyOps { timestamp, namespace, operations } => OperationModel::ApplyOps {
            timestamp: timestamp as int,
            namespace: namespace@,
            operations: operations_model(operations@),
        },
    }
}

impl View for Operation {
    type V = OperationModel;

    open spec fn view(&self) -> OperationModel {
        operation_model(*self)
    }
}

impl Clone for Operation {
    /// A deep copy that denotes the same operation.
    #[verifier::loop_isolation(false)]
    fn clone(&self) -> (res: Operation)
        ensures
            res@ == self@,
        decreases self@,
    {
        match self {
            Operation::Noop { timestamp, message } => Operation::Noop {
                timestamp: *timestamp,
                message: message.clone(),
            },
            Operation::Insert { timestamp, namespace, document } => Operation::Insert {
                timestamp: *timestamp,
                namespace: namespace.clone(),
                document: document.clone(),
            },
            Operation::Update { timestamp, namespace, document } => Operation::Update {
                timestamp: *timestamp,
                namespace: namespace.clone(),
                document: document.clone(),
            },
            Operation::LegacyUpdate { timestamp, namespace, query, update } => Operation::LegacyUpdate {
                timestamp: *timestamp,
                namespace: namespace.clone(),
                query: query.clone(),
                update: update.clone(),
            },
            Operation::Delete { timestamp, namespace, query } => Operation::Delete {
                timestamp: *timestamp,
                namespace: namespace.clone(),
                query: query.clone(),
            },
            Operation::Command { timestamp, namespace, command } => Operation::Command {
                timestamp: *timestamp,
                namespace: namespace.clone(),
                command: command.clone(),
            },
            Operation::ApplyOps { timestamp, namespace, operations } => {
                let n = operations.len();
                let mut ops: Vec<Operation> = Vec::new();
                let mut i: usize = 0;
                while i < n
                    invariant
                        n == operations.len(),
                        i <= n,
                        ops@.len() == i,
                        forall|j: int|
                            0 <= j < i ==> operation_model(#[trigger] ops@[j]) == operation_model(
                                operations@[j],
                            ),
                    decreases n - i,
                {
                    proof {
                        let m = self@;
                        assert(m == OperationModel::ApplyOps {
                            timestamp: *timestamp as int,
                            namespace: namespace@,
                            operations: operations_model(operations@),
                        });
                        assert(decreases_to!(m => m->ApplyOps_operations));
                        assert(m->ApplyOps_operations[i as int] == operation_model(
                            operations@[i as int],
                        ));
                        assert(decreases_to!(m->ApplyOps_operations
                            => m->ApplyOps_operations[i as int]));
                        assert(decreases_to!(m => operations@[i as int]@));
                    }
                    let op = operations[i].clone();
                    ops.push(op);
                    i = i + 1;
                }
                proof {
                    assert(operations_model(ops@) =~= operations_model(operations@));
                }
                Operation::ApplyOps {
                    timestamp: *timestamp,
                    namespace: namespace.clone(),
                    operations: ops,
                }
            },
        }
    }
}

/// A failed access to the field `key`, as a decode error.
pub open spec fn field_error(key: Seq<char>, kind: FieldErrorKind) -> ErrorModel {
    ErrorModel::MissingField { field: key, kind }
}

/// What decoding a record with operation code `n` yields: a [`Noop`] built
/// from the `ts` field and the message in the payload's `msg` field. The
/// namespace is not required for heartbeats.
pub open spec fn noop_model(d: DocModel) -> Result<OperationModel, ErrorModel> {
    match timestamp_field(d, "ts"@) {
        Err(k) => Err(field_error("ts"@, k)),
        Ok(ts) => match doc_field(d, "o"@) {
            Err(k) => Err(field_error("o"@, k)),
            Ok(o) => match str_field(o, "msg"@) {
                Err(k) => Err(field_error("msg"@, k)),
                Ok(msg) => Ok(
                    OperationModel::Noop { timestamp: ts.0 + ts.1, message: msg },
                ),
            },
        },
    }
}

/// What decoding a record with operation code `i` yields: an [`Insert`] of
/// the payload document `o` into the namespace `ns` at time `ts`.
pub open spec fn insert_model(d: DocModel) -> Result<OperationModel, ErrorModel> {
    match timestamp_field(d, "ts"@) {
        Err(k) => Err(field_error("ts"@, k)),
        Ok(ts) => match str_field(d, "ns"@) {
            Err(k) => Err(field_error("ns"@, k)),
            Ok(ns) => match doc_field(d, "o"@) {
                Err(k) => Err(field_error("o"@, k)),
                Ok(o) => Ok(
                    OperationModel::Insert { timestamp: ts.0 + ts.1, namespace: ns, document: o },
                ),
            },
        },
    }
}

/// What decoding a record with operation code `u` yields. In the reduced
/// shape, the update document `o` alone; in the legacy shape, the selection
/// criteria `o2` beside the update `o`.
pub open spec fn update_model(d: DocModel, shape: UpdateShape) -> Result<
    OperationModel,
    ErrorModel,
> {
    match timestamp_field(d, "ts"@) {
        Err(k) => Err(field_error("ts"@, k)),
        Ok(ts) => match str_field(d, "ns"@) {
            Err(k) => Err(field_error("ns"@, k)),
            Ok(ns) => match shape {
                UpdateShape::Reduced => match doc_field(d, "o"@) {
                    Err(k) => Err(field_error("o"@, k)),
                    Ok(o) => Ok(
                        OperationModel::Update {
                            timestamp: ts.0 + ts.1,
                            namespace: ns,
                            document: o,
                        },
                    ),
                },
                UpdateShape::Legacy => match doc_field(d, "o2"@) {
                    Err(k) => Err(field_error("o2"@, k)),
                    Ok(o2) => match doc_field(d, "o"@) {
                        Err(k) => Err(field_error("o"@, k)),
                        Ok(o) => Ok(
                            OperationModel::LegacyUpdate {
                                timestamp: ts.0 + ts.1,
                                namespace: ns,
                                query: o2,
                                update: o,
                            },
                        ),
                    },
                },
            },
        },
    }
}

/// What decoding a record with operation code `d` yields: a [`Delete`] in
/// namespace `ns` of the documents matching the payload `o`.
pub open spec fn delete_model(d: DocModel) -> Result<OperationModel, ErrorModel> {
    match timestamp_field(d, "ts"@) {
        Err(k) => Err(field_error("ts"@, k)),
        Ok(ts) => match str_field(d, "ns"@) {
            Err(k) => Err(field_error("ns"@, k)),
            Ok(ns) => match doc_field(d, "o"@) {
                Err(k) => Err(field_error("o"@, k)),
                Ok(o) => Ok(
                    OperationModel::Delete { timestamp: ts.0 + ts.1, namespace: ns, query: o },
                ),
            },
        },
    }
}

/// What decoding a record with operation code `c` yields. If the payload's
/// `applyOps` field holds an array, each element must itself be a record and
/// the result is an [`ApplyOps`] batch of their decodings, followed to at
/// most `depth` further levels; otherwise the payload is carried whole as a
/// [`Command`].
pub open spec fn command_model(d: DocModel, shape: UpdateShape, depth: nat) -> Result<
    OperationModel,
    ErrorModel,
>
    decreases depth, 1int, 0int,
{
    match timestamp_field(d, "ts"@) {
        Err(k) => Err(field_error("ts"@, k)),
        Ok(ts) => match str_field(d, "ns"@) {
            Err(k) => Err(field_error("ns"@, k)),
            Ok(ns) => match doc_field(d, "o"@) {
                Err(k) => Err(field_error("o"@, k)),
                Ok(o) => match doc_get_model(o, "applyOps"@) {
                    Some(BsonModel::Array(items)) => if depth == 0 {
                        Err(ErrorModel::InvalidOperation)
                    } else {
                        match apply_ops_model(items, shape, (depth - 1) as nat) {
                            Err(e) => Err(e),
                            Ok(ops) => Ok(
                                OperationModel::ApplyOps {
                                    timestamp: ts.0 + ts.1,
                                    namespace: ns,
                                    operations: ops,
                                },
                            ),
                        }
                    },
                    _ => Ok(
                        OperationModel::Command {
                            timestamp: ts.0 + ts.1,
                            namespace: ns,
                            command: o,
                        },
                    ),
                },
            },
        },
    }
}

/// What decoding the entries of a batch yields: each entry must be a record
/// and decode under the same schema; a non-record entry fails the whole
/// batch as invalid, and any entry's decode error fails it verbatim.
pub open spec fn apply_ops_model(items: Seq<BsonModel>, shape: UpdateShape, depth: nat) -> Result<
    Seq<OperationModel>,
    ErrorModel,
>
    decreases depth, 3int, items.len(),
{
    if items.len() == 0 {
        Ok(Seq::empty())
    } else {
        match items[0] {
            BsonModel::Doc(sub) => match decode_doc_model(sub, shape, depth) {
                Err(e) => Err(e),
                Ok(op) => match apply_ops_model(items.drop_first(), shape, depth) {
                    Err(e) => Err(e),
                    Ok(rest) => Ok(Seq::empty().push(op) + rest),
                },
            },
            _ => Err(ErrorModel::InvalidOperation),
        }
    }
}

/// What decoding a raw record yields: the record's `op` code selects the
/// operation kind, an unknown code is preserved verbatim in the error, and
/// a missing or mistyped `op` fails before anything else is read.
pub open spec fn decode_doc_model(d: DocModel, shape: UpdateShape, depth: nat) -> Result<
    OperationModel,
    ErrorModel,
>
    decreases depth, 2int, 0int,
{
    match str_field(d, "op"@) {
        Err(k) => Err(field_error("op"@, k)),
        Ok(code) => if code == "n"@ {
            noop_model(d)
        } else if code == "i"@ {
            insert_model(d)
        } else if code == "u"@ {
            update_model(d, shape)
        } else if code == "d"@ {
            delete_model(d)
        } else if code == "c"@ {
            command_model(d, shape, depth)
        } else {
            Err(ErrorModel::UnknownOperation(code))
        },
    }
}

/// What decoding a record with the default, reduced schema and the default
/// depth bound yields.
pub open spec fn decode_model(d: DocModel) -> Result<OperationModel, ErrorModel> {
    decode_doc_model(d, UpdateShape::Reduced, DEPTH_LIMIT as nat)
}

impl Operation {
    /// Decodes a raw record with the reduced update schema and the default
    /// depth bound — the form the live-subscription path uses.
    pub fn new(document: &Document) -> (r: Result<Operation, Error>)
        ensures
            decode_result_model(r) == decode_model(document@),
    {
        Self::decode(document, UpdateShape::Reduced)
    }

    /// Decodes a raw record under the given update schema.
    pub fn decode(document: &Document, shape: UpdateShape) -> (r: Result<Operation, Error>)
        ensures
            decode_result_model(r) == decode_doc_model(document@, shape, DEPTH_LIMIT as nat),
    {
        Self::decode_at(document, shape, DEPTH_LIMIT)
    }

    /// Decodes a raw record, following batches at most `depth` levels down.
    fn decode_at(document: &Document, shape: UpdateShape, depth: u32) -> (r: Result<
        Operation,
        Error,
    >)
        ensures
            decode_result_model(r) == decode_doc_model(document@, shape, depth as nat),
        decreases depth, 2int, 0int,
    {
        let key_op = String::from_str("op");
        let code = match document.get_str(&key_op) {
            Err(k) => {
                return Err(Error::MissingField(FieldError { field: key_op, kind: k }));
            },
            Ok(c) => c,
        };
        if *code == String::from_str("n") {
            Self::from_noop(document)
        } else if *code == String::from_str("i") {
            Self::from_insert(document)
        } else if *code == String::from_str("u") {
            Self::from_update(document, shape)
        } else if *code == String::from_str("d") {
            Self::from_delete(document)
        } else if *code == String::from_str("c") {
            Self::from_command(document, shape, depth)
        } else {
            Err(Error::UnknownOperation(code.clone()))
        }
    }

    /// Reads the fields a heartbeat requires: `ts`, and the message in the
    /// payload's `msg`.
    fn from_noop(document: &Document) -> (r: Result<Operation, Error>)
        ensures
            decode_result_model(r) == noop_model(document@),
    {
        let key_ts = String::from_str("ts");
        let ts = match document.get_timestamp(&key_ts) {
            Err(k) => {
                return Err(Error::MissingField(FieldError { field: key_ts, kind: k }));
            },
            Ok(t) => t,
        };
        let key_o = String::from_str("o");
        let o = match document.get_document(&key_o) {
            Err(k) => {
                return Err(Error::MissingField(FieldError { field: key_o, kind: k }));
            },
            Ok(d) => d,
        };
        let key_msg = String::from_str("msg");
        let msg = match o.get_str(&key_msg) {
            Err(k) => {
                return Err(Error::MissingField(FieldError { field: key_msg, kind: k }));
            },
            Ok(s) => s,
        };
        let timestamp: i64 = ts.0 as i64 + ts.1 as i64;
        Ok(Operation::Noop { timestamp, message: msg.clone() })
    }

    /// Reads the fields an insert requires: `ts`, `ns` and the inserted
    /// document `o`.
    fn from_insert(document: &Document) -> (r: Result<Operation, Error>)
        ensures
            decode_result_model(r) == insert_model(document@),
    {
        let key_ts = String::from_str("ts");
        let ts = match document.get_timestamp(&key_ts) {
            Err(k) => {
                return Err(Error::MissingField(FieldError { field: key_ts, kind: k }));
            },
            Ok(t) => t,
        };
        let key_ns = String::from_str("ns");
        let ns = match document.get_str(&key_ns) {
            Err(k) => {
                return Err(Error::MissingField(FieldError { field: key_ns, kind: k }));
            },
            Ok(s) => s,
        };
        let key_o = String::from_str("o");
        let o = match document.get_document(&key_o) {
            Err(k) => {
                return Err(Error::MissingField(FieldError { field: key_o, kind: k }));
            },
            Ok(d) => d,
        };
        let timestamp: i64 = ts.0 as i64 + ts.1 as i64;
        Ok(Operation::Insert { timestamp, namespace: ns.clone(), document: o.clone() })
    }

    /// Reads the fields an update requires: `ts`, `ns` and the update in
    /// `o`, with the selection criteria in `o2` under the legacy schema.
    fn from_update(document: &Document, shape: UpdateShape) -> (r: Result<Operation, Error>)
        ensures
            decode_result_model(r) == update_model(document@, shape),
    {
        let key_ts = String::from_str("ts");
        let ts = match document.get_timestamp(&key_ts) {
            Err(k) => {
                return Err(Error::MissingField(FieldError { field: key_ts, kind: k }));
            },
            Ok(t) => t,
        };
        let key_ns = String::from_str("ns");
        let ns = match document.get_str(&key_ns) {
            Err(k) => {
                return Err(Error::MissingField(FieldError { field: key_ns, kind: k }));
            },
            Ok(s) => s,
        };
        let timestamp: i64 = ts.0 as i64 + ts.1 as i64;
        match shape {
            UpdateShape::Reduced => {
                let key_o = String::from_str("o");
                let o = match document.get_document(&key_o) {
                    Err(k) => {
                        return Err(Error::MissingField(FieldError { field: key_o, kind: k }));
                    },
                    Ok(d) => d,
                };
                Ok(Operation::Update { timestamp, namespace: ns.clone(), document: o.clone() })
            },
            UpdateShape::Legacy => {
                let key_o2 = String::from_str("o2");
                let o2 = match document.get_document(&key_o2) {
                    Err(k) => {
                        return Err(Error::MissingField(FieldError { field: key_o2, kind: k }));
                    },
                    Ok(d) => d,
                };
                let key_o = String::from_str("o");
                let o = match document.get_document(&key_o) {
                    Err(k) => {
                        return Err(Error::MissingField(FieldError { field: key_o, kind: k }));
                    },
                    Ok(d) => d,
                };
                Ok(
                    Operation::LegacyUpdate {
                        timestamp,
                        namespace: ns.clone(),
                        query: o2.clone(),
                        update: o.clone(),
                    },
                )
            },
        }
    }

    /// Reads the fields a delete requires: `ts`, `ns` and the selection
    /// criteria `o`.
    fn from_delete(document: &Document) -> (r: Result<Operation, Error>)
        ensures
            decode_result_model(r) == delete_model(document@),
    {
        let key_ts = String::from_str("ts");
        let ts = match document.get_timestamp(&key_ts) {
            Err(k) => {
                return Err(Error::MissingField(FieldError { field: key_ts, kind: k }));
            },
            Ok(t) => t,
        };
        let key_ns = String::from_str("ns");
        let ns = match document.get_str(&key_ns) {
            Err(k) => {
                return Err(Error::MissingField(FieldError { field: key_ns, kind: k }));
            },
            Ok(s) => s,
        };
        let key_o = String::from_str("o");
        let o = match document.get_document(&key_o) {
            Err(k) => {
                return Err(Error::MissingField(FieldError { field: key_o, kind: k }));
            },
            Ok(d) => d,
        };
        let timestamp: i64 = ts.0 as i64 + ts.1 as i64;
        Ok(Operation::Delete { timestamp, namespace: ns.clone(), query: o.clone() })
    }

    /// Reads the fields a command requires, and decodes its `applyOps`
    /// batch recursively when the payload carries one.
    fn from_command(document: &Document, shape: UpdateShape, depth: u32) -> (r: Result<
        Operation,
        Error,
    >)
        ensures
            decode_result_model(r) == command_model(document@, shape, depth as nat),
        decreases depth, 1int, 0int,
    {
        let key_ts = String::from_str("ts");
        let ts = match document.get_timestamp(&key_ts) {
            Err(k) => {
                return Err(Error::MissingField(FieldError { field: key_ts, kind: k }));
            },
            Ok(t) => t,
        };
        let key_ns = String::from_str("ns");
        let ns = match document.get_str(&key_ns) {
            Err(k) => {
                return Err(Error::MissingField(FieldError { field: key_ns, kind: k }));
            },
            Ok(s) => s,
        };
        let key_o = String::from_str("o");
        let o = match document.get_document(&key_o) {
            Err(k) => {
                return Err(Error::MissingField(FieldError { field: key_o, kind: k }));
            },
            Ok(d) => d,
        };
        let timestamp: i64 = ts.0 as i64 + ts.1 as i64;
        let key_batch = String::from_str("applyOps");
        match o.get(&key_batch) {
            Some(Bson::Array(items)) => {
                proof {
                    assert(array_items_model(items@).skip(0) =~= array_items_model(items@));
                }
                if depth == 0 {
                    Err(Error::InvalidOperation)
                } else {
                    match Self::decode_batch(items, 0, shape, depth - 1) {
                        Err(e) => Err(e),
                        Ok(ops) => Ok(
                            Operation::ApplyOps { timestamp, namespace: ns.clone(), operations: ops },
                        ),
                    }
                }
            },
            _ => Ok(Operation::Command { timestamp, namespace: ns.clone(), command: o.clone() }),
        }
    }

    /// Decodes the batch entries from `start` on, in order.
    fn decode_batch(items: &Vec<Bson>, start: usize, shape: UpdateShape, depth: u32) -> (r: Result<
        Vec<Operation>,
        Error,
    >)
        requires
            start <= items@.len(),
        ensures
            batch_result_model(r) == apply_ops_model(
                array_items_model(items@).skip(start as int),
                shape,
                depth as nat,
            ),
        decreases depth, 3int, items@.len() - start,
    {
        let ghost s = array_items_model(items@).skip(start as int);
        if start == items.len() {
            let ops: Vec<Operation> = Vec::new();
            proof {
                assert(s =~= Seq::<BsonModel>::empty());
                assert(operations_model(ops@) =~= Seq::<OperationModel>::empty());
            }
            Ok(ops)
        } else {
            proof {
                assert(s[0] == array_items_model(items@)[start as int]);
            }
            match &items[start] {
                Bson::Doc(sub) => {
                    proof {
                        assert(s[0] == BsonModel::Doc(sub@));
                        assert(s.drop_first() =~= array_items_model(items@).skip(start as int + 1));
                    }
                    match Self::decode_at(sub, shape, depth) {
                        Err(e) => Err(e),
                        Ok(op) => {
                            match Self::decode_batch(items, start + 1, shape, depth) {
                                Err(e) => Err(e),
                                Ok(rest) => {
                                    let ghost grest = rest@;
                                    let mut ops: Vec<Operation> = Vec::new();
                                    ops.push(op);
                                    let mut tail = rest;
                                    ops.append(&mut tail);
                                    proof {
                                        assert(ops@ =~= Seq::<Operation>::empty().push(
                                            ops@[0],
                                        ) + grest);
                                        assert(operations_model(ops@) =~= Seq::<
                                            OperationModel,
                                        >::empty().push(operation_model(ops@[0]))
                                            + operations_model(grest));
                                    }
                                    Ok(ops)
                                },
                            }
                        },
                    }
                },
                _ => Err(Error::InvalidOperation),
            }
        }
    }
}

/// Decoding is pure: the same raw record always denotes the same result,
/// so two decodes of one record yield structurally equal operations (or the
/// same error). [`Operation::new`] ensures its result denotes
/// [`decode_model`] of its input, which this law pins to a single value.
pub proof fn lemma_decode_idempotent(
    d: DocModel,
    r1: Result<OperationModel, ErrorModel>,
    r2: Result<OperationModel, ErrorModel>,
)
    requires
        r1 == decode_model(d),
        r2 == decode_model(d),
    ensures
        r1 == r2,
{
}

/// What an exec decode result denotes.
pub open spec fn decode_result_model(r: Result<Operation, Error>) -> Result<
    OperationModel,
    ErrorModel,
> {
    match r {
        Ok(op) => Ok(operation_model(op)),
        Err(e) => Err(e@),
    }
}

/// What an exec batch-decode result denotes.
pub open spec fn batch_result_model(r: Result<Vec<Operation>, Error>) -> Result<
    Seq<OperationModel>,
    ErrorModel,
> {
    match r {
        Ok(ops) => Ok(operations_model(ops@)),
        Err(e) => Err(e@),
    }
}

} // verus!
