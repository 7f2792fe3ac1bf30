//! The subscription engine's decisions, and the bounded delivery queue.
//!
//! A subscription tails the change log for one namespace: a background
//! worker pulls raw records, decodes them, turns inserts, updates and
//! deletes into change events, and delivers the events through a bounded
//! queue to the consumer. Everything the worker decides — which records
//! produce events, what each step does to the worker's state, and what may
//! enter or leave the queue — is here, as verified functions; the shell
//! around the library only performs the waiting the decisions call for.
use crate::bson::doc_get_model;
use crate::bson::Bson;
use crate::bson::BsonModel;
use crate::bson::DocModel;
use crate::bson::Document;
use crate::operation::decode_model;
use crate::operation::Operation;
use crate::operation::OperationModel;
use crate::Error;
use crate::Event;
use vstd::prelude::*;

verus! {

/// How many events the delivery queue of a subscription holds before the
/// producer must wait for the consumer: a tunable default, not a hard
/// constant.
pub const DEFAULT_QUEUE_CAPACITY: usize = 4;

/// Which kind of change event an operation produces.
#[derive(Clone, Copy, Debug, PartialEq, Eq, Structural)]
pub enum EventKind {
    Added,
    Updated,
    Deleted,
}

/// The lifecycle of a subscription's worker. `Cancelled` and `Closed` are
/// terminal: no step leads out of them.
#[derive(Clone, Copy, Debug, PartialEq, Eq, Structural)]
pub enum WorkerState {
    /// Pulling records and delivering events.
    Running,
    /// The caller asked the subscription to stop.
    Cancelled,
    /// The log reader reported an unrecoverable fault.
    Closed,
}

/// What a worker reacts to in one step.
#[derive(Debug)]
pub enum WorkerInput {
    /// The cancellation signal fired.
    Cancel,
    /// The log reader reported an unrecoverable fault, with its message.
    ReaderFault(String),
    /// The log reader produced one raw record.
    Record(Document),
}

/// What one worker step asks the surrounding loop to do.
#[derive(Debug)]
pub enum WorkerAction {
    /// Exit: drop the queue's sending side, which ends the stream.
    Stop,
    /// Re-type this payload and deliver it as an event of this kind.
    Publish(EventKind, Document),
    /// Skip a record that did not decode; the error says why.
    Skip(Error),
    /// Consume a record that produces no event (a heartbeat, command or
    /// batch entry).
    Ignore,
}

/// Which event kind and payload an operation yields, if any. Inserts,
/// updates and deletes produce events carrying their payload document;
/// heartbeats, commands and batches produce none.
pub open spec fn event_payload_model(m: OperationModel) -> Option<(EventKind, DocModel)> {
    match m {
        OperationModel::Insert { document, .. } => Some((EventKind::Added, document)),
        OperationModel::Update { document, .. } => Some((EventKind::Updated, document)),
        OperationModel::LegacyUpdate { update, .. } => Some((EventKind::Updated, update)),
        OperationModel::Delete { query, .. } => Some((EventKind::Deleted, query)),
        OperationModel::Noop { .. } => None,
        OperationModel::Command { .. } => None,
        OperationModel::ApplyOps { .. } => None,
    }
}

/// Splits an operation into the kind of event it produces and the payload
/// document to re-type, or nothing for the kinds that produce no event.
pub fn event_payload(op: Operation) -> (r: Option<(EventKind, Document)>)
    ensures
        match r {
            Some(p) => event_payload_model(op@) == Some((p.0, p.1@)),
            None => event_payload_model(op@) is None,
        },
{
    match op {
        Operation::Insert { document, .. } => Some((EventKind::Added, document)),
        Operation::Update { document, .. } => Some((EventKind::Updated, document)),
        Operation::LegacyUpdate { update, .. } => Some((EventKind::Updated, update)),
        Operation::Delete { query, .. } => Some((EventKind::Deleted, query)),
        Operation::Noop { .. } => None,
        Operation::Command { .. } => None,
        Operation::ApplyOps { .. } => None,
    }
}

/// Wraps a re-typed payload in the event its operation kind calls for; a
/// payload that did not fit the caller's shape becomes an error event
/// carrying the message, and the subscription goes on.
pub fn make_event<T>(kind: EventKind, decoded: Result<T, String>) -> (e: Event<T>)
    ensures
        match decoded {
            Ok(t) => e == (match kind {
                EventKind::Added => Event::Added(t),
                EventKind::Updated => Event::Updated(t),
                EventKind::Deleted => Event::Deleted(t),
            }),
            Err(m) => e == Event::<T>::Error(m),
        },
{
    match decoded {
        Ok(t) => match kind {
            EventKind::Added => Event::Added(t),
            EventKind::Updated => Event::Updated(t),
            EventKind::Deleted => Event::Deleted(t),
        },
        Err(m) => Event::Error(m),
    }
}

/// One step of the worker's state machine. A worker that is no longer
/// running stops whatever arrives; a running worker stops on cancellation
/// or a reader fault, skips records that do not decode (a single bad record
/// never ends the subscription), ignores records that produce no event, and
/// asks for every insert, update or delete to be published.
pub fn worker_step(state: WorkerState, input: WorkerInput) -> (r: (WorkerState, WorkerAction))
    ensures
        state != WorkerState::Running ==> r == (state, WorkerAction::Stop),
        state == WorkerState::Running ==> match input {
            WorkerInput::Cancel => r == (WorkerState::Cancelled, WorkerAction::Stop),
            WorkerInput::ReaderFault(_) => r == (WorkerState::Closed, WorkerAction::Stop),
            WorkerInput::Record(d) => r.0 == WorkerState::Running && (match decode_model(d@) {
                Err(e) => r.1 matches WorkerAction::Skip(err) && err@ == e,
                Ok(m) => match event_payload_model(m) {
                    Some(p) => r.1 matches WorkerAction::Publish(k, payload) && k == p.0
                        && payload@ == p.1,
                    None => r.1 matches WorkerAction::Ignore,
                },
            }),
        },
{
    if !matches!(state, WorkerState::Running) {
        return (state, WorkerAction::Stop);
    }
    match input {
        WorkerInput::Cancel => (WorkerState::Cancelled, WorkerAction::Stop),
        WorkerInput::ReaderFault(_) => (WorkerState::Closed, WorkerAction::Stop),
        WorkerInput::Record(d) => {
            match Operation::new(&d) {
                Err(e) => (WorkerState::Running, WorkerAction::Skip(e)),
                Ok(op) => match event_payload(op) {
                    Some((kind, payload)) => (
                        WorkerState::Running,
                        WorkerAction::Publish(kind, payload),
                    ),
                    None => (WorkerState::Running, WorkerAction::Ignore),
                },
            }
        },
    }
}

/// Joins a database and a collection name into the namespace that scopes a
/// subscription.
pub fn namespace_of(database: &str, collection: &str) -> (ns: String)
    ensures
        ns@ == database@ + "."@ + collection@,
{
    let mut ns = String::from_str(database);
    ns.append(".");
    ns.append(collection);
    ns
}

/// Injects the namespace into a caller-supplied selection filter (or an
/// empty one): the `ns` key is always bound to the subscription's own
/// namespace and cannot be overridden, while every other key keeps the
/// caller's binding.
pub fn namespace_filter(filter: Option<Document>, ns: String) -> (r: Document)
    ensures
        doc_get_model(r@, "ns"@) == Some(BsonModel::Str(ns@)),
        forall|k: Seq<char>|
            k != "ns"@ ==> #[trigger] doc_get_model(r@, k) == (match filter {
                Some(f) => doc_get_model(f@, k),
                None => None,
            }),
{
    let mut base = match filter {
        Some(f) => f,
        None => Document::new(),
    };
    base.insert(String::from_str("ns"), Bson::Str(ns));
    base
}

/// The restriction a subscription's log reader is opened with: only
/// records whose operation code is a delete, update or insert.
pub open spec fn op_restriction_model() -> BsonModel {
    BsonModel::Doc(
        seq![
            (
                "$in"@,
                BsonModel::Array(
                    seq![BsonModel::Str("d"@), BsonModel::Str("u"@), BsonModel::Str("i"@)],
                ),
            ),
        ],
    )
}

/// Restricts a selection filter (or an empty one) to the records that
/// mutate data: binds the `op` key to the delete/update/insert restriction,
/// keeping every other key's binding.
pub fn op_filter(filter: Option<Document>) -> (r: Document)
    ensures
        doc_get_model(r@, "op"@) == Some(op_restriction_model()),
        forall|k: Seq<char>|
            k != "op"@ ==> #[trigger] doc_get_model(r@, k) == (match filter {
                Some(f) => doc_get_model(f@, k),
                None => None,
            }),
{
    let mut codes: Vec<Bson> = Vec::new();
    codes.push(Bson::Str(String::from_str("d")));
    codes.push(Bson::Str(String::from_str("u")));
    codes.push(Bson::Str(String::from_str("i")));
    proof {
        assert(crate::bson::array_items_model(codes@) =~= seq![
            BsonModel::Str("d"@),
            BsonModel::Str("u"@),
            BsonModel::Str("i"@),
        ]);
    }
    let mut restriction = Document::new();
    restriction.insert(String::from_str("$in"), Bson::Array(codes));
    let ghost rm = restriction@;
    let mut base = match filter {
        Some(f) => f,
        None => Document::new(),
    };
    base.insert(String::from_str("op"), Bson::Doc(restriction));
    proof {
        assert(rm =~= op_restriction_model()->Doc_0);
    }
    base
}

/// The delivery side of one subscription: a bounded queue between the
/// single producing worker and the single consumer, together with the
/// worker's lifecycle state.
///
/// The ghost `produced` and `delivered` sequences record every event that
/// ever entered the queue and every event the consumer took out; the
/// well-formedness invariant ties them to the queue's contents, so no event
/// is ever dropped or reordered.
pub struct Subscription<T> {
    queue: Vec<T>,
    capacity: usize,
    state: WorkerState,
    produced: Ghost<Seq<T>>,
    delivered: Ghost<Seq<T>>,
}

impl<T> Subscription<T> {
    /// The events waiting in the queue, oldest first.
    pub closed spec fn pending(self) -> Seq<T> {
        self.queue@
    }

    /// How many events the queue holds before the producer must wait.
    pub closed spec fn capacity(self) -> nat {
        self.capacity as nat
    }

    /// The worker's lifecycle state.
    pub closed spec fn state(self) -> WorkerState {
        self.state
    }

    /// Every event that ever entered the queue, in order.
    pub closed spec fn produced(self) -> Seq<T> {
        self.produced@
    }

    /// Every event the consumer took out, in order.
    pub closed spec fn delivered(self) -> Seq<T> {
        self.delivered@
    }

    /// The subscription's invariant: the queue never exceeds its capacity,
    /// and what was produced is exactly what was delivered followed by what
    /// is still pending.
    pub open spec fn wf(self) -> bool {
        1 <= self.capacity() && self.pending().len() <= self.capacity() && self.produced()
            == self.delivered() + self.pending()
    }

    /// A fresh subscription: running, with nothing produced or delivered.
    pub fn new(capacity: usize) -> (s: Subscription<T>)
        requires
            capacity >= 1,
        ensures
            s.wf(),
            s.capacity() == capacity,
            s.state() == WorkerState::Running,
            s.pending() == Seq::<T>::empty(),
            s.produced() == Seq::<T>::empty(),
            s.delivered() == Seq::<T>::empty(),
    {
        let s = Subscription {
            queue: Vec::new(),
            capacity,
            state: WorkerState::Running,
            produced: Ghost(Seq::empty()),
            delivered: Ghost(Seq::empty()),
        };
        proof {
            assert(s.delivered() + s.pending() =~= Seq::<T>::empty());
        }
        s
    }

    /// The producer offers one event. It enters the queue only while the
    /// worker is running and a slot is free; a full queue refuses it, which
    /// is the backpressure that makes the producer wait and slows the whole
    /// pipeline — no event is ever dropped instead. After cancellation or
    /// closure nothing enters the queue at all.
    pub fn offer(&mut self, event: T) -> (accepted: bool)
        requires
            old(self).wf(),
        ensures
            final(self).wf(),
            final(self).capacity() == old(self).capacity(),
            final(self).state() == old(self).state(),
            final(self).delivered() == old(self).delivered(),
            accepted <==> (old(self).state() == WorkerState::Running && old(self).pending().len()
                < old(self).capacity()),
            accepted ==> final(self).pending() == old(self).pending().push(event)
                && final(self).produced() == old(self).produced().push(event),
            !accepted ==> final(self).pending() == old(self).pending() && final(self).produced()
                == old(self).produced(),
    {
        if !matches!(self.state, WorkerState::Running) {
            return false;
        }
        if self.queue.len() >= self.capacity {
            return false;
        }
        proof {
            assert(self.delivered@ + self.queue@.push(event) =~= (self.delivered@ + self.queue@)
                .push(event));
        }
        self.queue.push(event);
        self.produced = Ghost(self.produced@.push(event));
        true
    }

    /// The consumer takes the oldest pending event, if there is one.
    /// Events leave in exactly the order they entered.
    pub fn take(&mut self) -> (r: Option<T>)
        requires
            old(self).wf(),
        ensures
            final(self).wf(),
            final(self).capacity() == old(self).capacity(),
            final(self).state() == old(self).state(),
            final(self).produced() == old(self).produced(),
            match r {
                Some(_) => old(self).pending().len() > 0 && r == Some(old(self).pending()[0])
                    && final(self).pending() == old(self).pending().drop_first()
                    && final(self).delivered() == old(self).delivered().push(
                    old(self).pending()[0],
                ),
                None => old(self).pending().len() == 0
                    && final(self).pending() == old(self).pending()
                    && final(self).delivered() == old(self).delivered(),
            },
    {
        if self.queue.len() == 0 {
            return None;
        }
        let event = self.queue.remove(0);
        proof {
            assert(self.queue@ =~= old(self).queue@.drop_first());
            assert(self.delivered@.push(event) + self.queue@ =~= self.delivered@
                + old(self).queue@);
        }
        self.delivered = Ghost(self.delivered@.push(event));
        Some(event)
    }

    /// The caller asks the subscription to stop. A running worker becomes
    /// cancelled, for good; a worker already stopped stays as it is. The
    /// queue and the delivery records are untouched: events already pending
    /// may still be taken, but nothing further will ever be produced.
    pub fn cancel(&mut self)
        requires
            old(self).wf(),
        ensures
            final(self).wf(),
            final(self).capacity() == old(self).capacity(),
            final(self).pending() == old(self).pending(),
            final(self).produced() == old(self).produced(),
            final(self).delivered() == old(self).delivered(),
            old(self).state() == WorkerState::Running ==> final(self).state()
                == WorkerState::Cancelled,
            old(self).state() != WorkerState::Running ==> final(self).state() == old(self).state(),
    {
        if matches!(self.state, WorkerState::Running) {
            self.state = WorkerState::Cancelled;
        }
    }

    /// The log reader reported an unrecoverable fault: a running worker
    /// closes, for good; a worker already stopped stays as it is.
    pub fn close(&mut self)
        requires
            old(self).wf(),
        ensures
            final(self).wf(),
            final(self).capacity() == old(self).capacity(),
            final(self).pending() == old(self).pending(),
            final(self).produced() == old(self).produced(),
            final(self).delivered() == old(self).delivered(),
            old(self).state() == WorkerState::Running ==> final(self).state()
                == WorkerState::Closed,
            old(self).state() != WorkerState::Running ==> final(self).state() == old(self).state(),
    {
        if matches!(self.state, WorkerState::Running) {
            self.state = WorkerState::Closed;
        }
    }

    /// How many events are pending, for the consumer's bookkeeping.
    pub fn pending_len(&self) -> (n: usize)
        ensures
            n == self.pending().len(),
    {
        self.queue.len()
    }

    /// Whether the worker is still running.
    pub fn is_running(&self) -> (b: bool)
        ensures
            b == (self.state() == WorkerState::Running),
    {
        matches!(self.state, WorkerState::Running)
    }
}

/// Once the consumer has drained the queue, it has seen every event the
/// worker ever produced — none was dropped on the way.
pub proof fn lemma_drained_queue_delivered_everything<T>(s: Subscription<T>)
    requires
        s.wf(),
        s.pending().len() == 0,
    ensures
        s.delivered() == s.produced(),
{
    assert(s.delivered() + s.pending() =~= s.delivered());
}

/// At every moment, what the consumer has seen is a prefix of what the
/// worker produced, in the same order: delivery neither reorders nor skips.
pub proof fn lemma_delivery_preserves_order<T>(s: Subscription<T>)
    requires
        s.wf(),
    ensures
        s.delivered() == s.produced().take(s.delivered().len() as int),
{
    assert(s.produced().take(s.delivered().len() as int) =~= s.delivered());
}

} // verus!
