//! The ingestion dispatcher: one event loop multiplexing shutdown, resolved
//! finalization outcomes, and newly received raw messages.
//!
//! The dispatcher owns the upstream client exclusively. Each call of `step`
//! reacts to one observed event and returns the actions the surrounding loop
//! must perform against the broker client and the observability layer. The
//! deferred-acknowledgment path runs through the ordered finalizer, so
//! acknowledgments reach the broker strictly in message-arrival order.

use crate::events::{LogEvent, LogEventModel};
use crate::finalization::{
    queue_tokens, resolve_in, BatchNotifier, BatchStatus, DeliveryToken, EntryModel,
    FinalizerEntry, OrderedFinalizer, TokenModel,
};
use vstd::prelude::*;

verus! {

/// One event observed by the dispatcher's multiplexed wait.
#[derive(Debug)]
pub enum SourceEvent {
    /// The shutdown signal fired.
    Shutdown,
    /// A downstream consumer resolved the completion signal of the batch
    /// queued under `seq`.
    Resolved {
        /// Sequence number handed out when the batch was enqueued.
        seq: u64,
        /// The outcome the downstream consumer wrote.
        status: BatchStatus,
    },
    /// A raw message was received, decoded and handed to the downstream
    /// sender; `handoff_accepted` says whether the sender took the batch or
    /// is permanently closed.
    Received {
        /// The message's delivery token.
        token: DeliveryToken,
        /// The enriched events decoded from the message.
        batch: Vec<LogEvent>,
        /// Whether the downstream sender accepted the batch.
        handoff_accepted: bool,
    },
    /// The upstream receive call failed at the transport level.
    ReceiveFailed,
    /// An earlier acknowledge call against the broker failed.
    AckFailed,
    /// An earlier negative-acknowledge call against the broker failed.
    NackFailed,
}

/// Mathematical model of a `SourceEvent`.
#[verifier::ext_equal]
pub ghost enum SourceEventModel {
    Shutdown,
    Resolved { seq: u64, status: BatchStatus },
    Received { token: TokenModel, batch: Seq<LogEventModel>, handoff_accepted: bool },
    ReceiveFailed,
    AckFailed,
    NackFailed,
}

impl View for SourceEvent {
    type V = SourceEventModel;

    open spec fn view(&self) -> SourceEventModel {
        match self {
            SourceEvent::Shutdown => SourceEventModel::Shutdown,
            SourceEvent::Resolved { seq, status } => SourceEventModel::Resolved {
                seq: *seq,
                status: *status,
            },
            SourceEvent::Received { token, batch, handoff_accepted } => {
                SourceEventModel::Received {
                    token: token@,
                    batch: batch.deep_view(),
                    handoff_accepted: *handoff_accepted,
                }
            },
            SourceEvent::ReceiveFailed => SourceEventModel::ReceiveFailed,
            SourceEvent::AckFailed => SourceEventModel::AckFailed,
            SourceEvent::NackFailed => SourceEventModel::NackFailed,
        }
    }
}

impl DeepView for SourceEvent {
    type V = SourceEventModel;

    open spec fn deep_view(&self) -> SourceEventModel {
        self.view()
    }
}

/// A structured report handed to the observability layer. None of these is
/// fatal to the loop.
#[derive(Clone, Copy, Debug, PartialEq, Eq, Structural)]
pub enum Report {
    /// A transport-level receive failure; the lost message has no token and
    /// cannot be retried here.
    TransportReceiveError,
    /// The downstream sender is permanently closed; this many events were
    /// dropped and their message stays unacknowledged.
    EventsDropped {
        /// Number of events in the dropped batch.
        count: usize,
    },
    /// An acknowledge call failed; the entry is not retried.
    AcknowledgeError,
    /// A negative-acknowledge call failed; the entry is not retried.
    NegativeAcknowledgeError,
}

/// One action the surrounding loop must perform.
#[derive(Debug)]
pub enum SourceAction {
    /// Acknowledge this token to the origin broker.
    Ack(DeliveryToken),
    /// Negatively acknowledge this token to the origin broker.
    Nack(DeliveryToken),
    /// Emit this report to the observability layer.
    Report(Report),
}

/// Mathematical model of a `SourceAction`.
#[verifier::ext_equal]
pub ghost enum SourceActionModel {
    Ack(TokenModel),
    Nack(TokenModel),
    Report(Report),
}

impl View for SourceAction {
    type V = SourceActionModel;

    open spec fn view(&self) -> SourceActionModel {
        match self {
            SourceAction::Ack(t) => SourceActionModel::Ack(t@),
            SourceAction::Nack(t) => SourceActionModel::Nack(t@),
            SourceAction::Report(r) => SourceActionModel::Report(*r),
        }
    }
}

impl DeepView for SourceAction {
    type V = SourceActionModel;

    open spec fn deep_view(&self) -> SourceActionModel {
        self.view()
    }
}

/// The acknowledgment a resolved outcome maps to: `Delivered` is acknowledged,
/// `Errored` and `Rejected` are negatively acknowledged; there is no other
/// mapping.
pub open spec fn ack_action_of(status: BatchStatus, token: TokenModel) -> SourceActionModel {
    match status {
        BatchStatus::Delivered => SourceActionModel::Ack(token),
        BatchStatus::Errored => SourceActionModel::Nack(token),
        BatchStatus::Rejected => SourceActionModel::Nack(token),
    }
}

/// Map one resolved finalization outcome to the acknowledgment it owes.
pub fn handle_ack(status: BatchStatus, token: DeliveryToken) -> (action: SourceAction)
    ensures
        action@ == ack_action_of(status, token@),
{
    match status {
        BatchStatus::Delivered => SourceAction::Ack(token),
        BatchStatus::Errored => SourceAction::Nack(token),
        BatchStatus::Rejected => SourceAction::Nack(token),
    }
}

/// The acknowledgments owed by draining every resolved entry at the head of
/// the queue, in queue order.
pub open spec fn drain_actions(q: Seq<EntryModel>) -> Seq<SourceActionModel>
    decreases q.len(),
{
    if q.len() > 0 && q[0].status is Some {
        seq![ack_action_of(q[0].status->Some_0, q[0].token)] + drain_actions(q.skip(1))
    } else {
        Seq::empty()
    }
}

/// What remains of the queue once every resolved entry at the head has been
/// drained. An entry behind an unresolved head stays queued, resolved or not.
pub open spec fn drain_queue(q: Seq<EntryModel>) -> Seq<EntryModel>
    decreases q.len(),
{
    if q.len() > 0 && q[0].status is Some {
        drain_queue(q.skip(1))
    } else {
        q
    }
}

/// Mathematical model of the dispatcher state.
#[verifier::ext_equal]
pub ghost struct DispatcherModel {
    /// Whether end-to-end acknowledgements are enabled for this source.
    pub acknowledgements: bool,
    /// Whether the shutdown signal has been observed.
    pub shutdown: bool,
    /// Sequence number the next enqueued batch will carry.
    pub next_seq: u64,
    /// Pending finalization entries, oldest first.
    pub queue: Seq<EntryModel>,
}

/// The dispatcher state fresh at source startup.
pub open spec fn initial_model(acknowledgements: bool) -> DispatcherModel {
    DispatcherModel {
        acknowledgements,
        shutdown: false,
        next_seq: 0,
        queue: Seq::empty(),
    }
}

/// What one observed event does to the dispatcher: the successor state and
/// the actions owed to the broker client and the observability layer.
///
/// Once shutdown has been observed nothing further happens: outstanding
/// entries are abandoned without acknowledgment, and no event is processed.
pub open spec fn step_spec(s: DispatcherModel, e: SourceEventModel) -> (DispatcherModel, Seq<
    SourceActionModel,
>) {
    if s.shutdown {
        (s, Seq::empty())
    } else {
        match e {
            SourceEventModel::Shutdown => (
                DispatcherModel { shutdown: true, ..s },
                Seq::empty(),
            ),
            SourceEventModel::Resolved { seq, status } => {
                let resolved = resolve_in(s.queue, seq, status);
                (DispatcherModel { queue: drain_queue(resolved), ..s }, drain_actions(resolved))
            },
            SourceEventModel::Received { token, batch, handoff_accepted } => {
                if !handoff_accepted {
                    (
                        s,
                        seq![
                            SourceActionModel::Report(
                                Report::EventsDropped { count: batch.len() as usize },
                            )
                        ],
                    )
                } else if !s.acknowledgements {
                    (s, seq![SourceActionModel::Ack(token)])
                } else {
                    (
                        DispatcherModel {
                            queue: s.queue.push(
                                EntryModel { seq: s.next_seq, token, status: None },
                            ),
                            next_seq: (s.next_seq + 1) as u64,
                            ..s
                        },
                        Seq::empty(),
                    )
                }
            },
            SourceEventModel::ReceiveFailed => (
                s,
                seq![SourceActionModel::Report(Report::TransportReceiveError)],
            ),
            SourceEventModel::AckFailed => (
                s,
                seq![SourceActionModel::Report(Report::AcknowledgeError)],
            ),
            SourceEventModel::NackFailed => (
                s,
                seq![SourceActionModel::Report(Report::NegativeAcknowledgeError)],
            ),
        }
    }
}

/// The ingestion dispatcher.
///
/// The ordered finalizer exists exactly when acknowledgements are enabled;
/// with acknowledgements disabled the dispatcher takes the immediate-ack path
/// and never constructs one.
pub struct Dispatcher {
    acknowledgements: bool,
    shutdown: bool,
    next_seq: u64,
    finalizer: Option<OrderedFinalizer>,
}

impl View for Dispatcher {
    type V = DispatcherModel;

    closed spec fn view(&self) -> DispatcherModel {
        DispatcherModel {
            acknowledgements: self.acknowledgements,
            shutdown: self.shutdown,
            next_seq: self.next_seq,
            queue: match self.finalizer {
                Some(f) => f@,
                None => Seq::empty(),
            },
        }
    }
}

impl Dispatcher {
    /// Whether an ordered finalizer instance has been constructed.
    pub closed spec fn has_finalizer(&self) -> bool {
        self.finalizer is Some
    }

    /// The finalizer exists if and only if acknowledgements are enabled.
    pub open spec fn wf(&self) -> bool {
        self.has_finalizer() <==> self@.acknowledgements
    }

    /// A dispatcher fresh at source startup. The ordered finalizer is
    /// constructed only if acknowledgements are enabled.
    pub fn new(acknowledgements: bool) -> (r: Dispatcher)
        ensures
            r.wf(),
            r@ == initial_model(acknowledgements),
            r.has_finalizer() == acknowledgements,
    {
        let finalizer = if acknowledgements {
            Some(OrderedFinalizer::new())
        } else {
            None
        };
        let r = Dispatcher { acknowledgements, shutdown: false, next_seq: 0, finalizer };
        proof {
            assert(r@ =~= initial_model(acknowledgements));
        }
        r
    }

    /// React to one observed event, returning the actions the surrounding
    /// loop owes the broker client and the observability layer.
    pub fn step(&mut self, event: SourceEvent) -> (actions: Vec<SourceAction>)
        requires
            old(self).wf(),
            old(self)@.next_seq < u64::MAX,
        ensures
            final(self).wf(),
            final(self).has_finalizer() == old(self).has_finalizer(),
            final(self)@ == step_spec(old(self)@, event@).0,
            actions.deep_view() == step_spec(old(self)@, event@).1,
    {
        if self.shutdown {
            let actions: Vec<SourceAction> = Vec::new();
            proof {
                assert(actions.deep_view() =~= step_spec(old(self)@, event@).1);
            }
            return actions;
        }
        match event {
            SourceEvent::Shutdown => {
                self.shutdown = true;
                let actions: Vec<SourceAction> = Vec::new();
                proof {
                    assert(final(self)@ =~= step_spec(old(self)@, SourceEventModel::Shutdown).0);
                    assert(actions.deep_view() =~= step_spec(
                        old(self)@,
                        SourceEventModel::Shutdown,
                    ).1);
                }
                actions
            },
            SourceEvent::Resolved { seq, status } => {
                let ghost pre = self@;
                let mut actions: Vec<SourceAction> = Vec::new();
                match &mut self.finalizer {
                    Some(f) => {
                        f.resolve(seq, status);
                        let ghost resolved = f@;
                        loop
                            invariant
                                actions.deep_view() + drain_actions(f@) == drain_actions(resolved),
                                drain_queue(f@) == drain_queue(resolved),
                            ensures
                                actions.deep_view() == drain_actions(resolved),
                                f@ == drain_queue(resolved),
                            decreases f@.len(),
                        {
                            let ghost q_before = f@;
                            let ghost acts_before = actions.deep_view();
                            let next = f.next_resolved();
                            match next {
                                Some((st, token)) => {
                                    proof {
                                        assert(q_before.len() > 0 && q_before[0].status is Some);
                                        assert(drain_actions(q_before) == seq![
                                            ack_action_of(
                                                q_before[0].status->Some_0,
                                                q_before[0].token,
                                            )
                                        ] + drain_actions(q_before.skip(1)));
                                        assert(f@ == q_before.skip(1));
                                    }
                                    actions.push(handle_ack(st, token));
                                    proof {
                                        assert(actions.deep_view() =~= acts_before.push(
                                            ack_action_of(
                                                q_before[0].status->Some_0,
                                                q_before[0].token,
                                            ),
                                        ));
                                        assert(actions.deep_view() + drain_actions(f@)
                                            =~= acts_before + drain_actions(q_before));
                                    }
                                },
                                None => {
                                    proof {
                                        assert(drain_actions(f@)
                                            =~= Seq::<SourceActionModel>::empty());
                                        assert(drain_queue(f@) == f@);
                                        assert(actions.deep_view() =~= actions.deep_view()
                                            + drain_actions(f@));
                                    }
                                    break;
                                },
                            }
                        }
                    },
                    None => {},
                }
                proof {
                    let e = SourceEventModel::Resolved { seq, status };
                    if pre.queue.len() == 0 {
                        assert(resolve_in(pre.queue, seq, status) =~= pre.queue);
                    }
                    assert(final(self)@ =~= step_spec(pre, e).0);
                    assert(actions.deep_view() =~= step_spec(pre, e).1);
                }
                actions
            },
            SourceEvent::Received { token, batch, handoff_accepted } => {
                let ghost pre = self@;
                let ghost e = SourceEventModel::Received {
                    token: token@,
                    batch: batch.deep_view(),
                    handoff_accepted,
                };
                if !handoff_accepted {
                    let actions = vec![
                        SourceAction::Report(Report::EventsDropped { count: batch.len() }),
                    ];
                    proof {
                        assert(actions.deep_view() =~= step_spec(pre, e).1);
                    }
                    actions
                } else {
                    match &mut self.finalizer {
                        Some(f) => {
                            let ghost token_model = token@;
                            let notifier = BatchNotifier::new();
                            let entry = FinalizerEntry { seq: self.next_seq, token, notifier };
                            let ghost entry_model = entry@;
                            f.add(entry);
                            self.next_seq = self.next_seq + 1;
                            let actions: Vec<SourceAction> = Vec::new();
                            proof {
                                assert(entry_model.seq == pre.next_seq);
                                assert(entry_model.token == token_model);
                                assert(entry_model.status is None);
                                assert(entry_model =~= EntryModel {
                                    seq: pre.next_seq,
                                    token: token_model,
                                    status: None,
                                });
                                assert(final(self)@ =~= step_spec(pre, e).0);
                                assert(actions.deep_view() =~= step_spec(pre, e).1);
                            }
                            actions
                        },
                        None => {
                            let actions = vec![SourceAction::Ack(token)];
                            proof {
                                assert(actions.deep_view() =~= step_spec(pre, e).1);
                            }
                            actions
                        },
                    }
                }
            },
            SourceEvent::ReceiveFailed => {
                let actions = vec![SourceAction::Report(Report::TransportReceiveError)];
                proof {
                    assert(actions.deep_view() =~= step_spec(
                        old(self)@,
                        SourceEventModel::ReceiveFailed,
                    ).1);
                }
                actions
            },
            SourceEvent::AckFailed => {
                let actions = vec![SourceAction::Report(Report::AcknowledgeError)];
                proof {
                    assert(actions.deep_view() =~= step_spec(
                        old(self)@,
                        SourceEventModel::AckFailed,
                    ).1);
                }
                actions
            },
            SourceEvent::NackFailed => {
                let actions = vec![SourceAction::Report(Report::NegativeAcknowledgeError)];
                proof {
                    assert(actions.deep_view() =~= step_spec(
                        old(self)@,
                        SourceEventModel::NackFailed,
                    ).1);
                }
                actions
            },
        }
    }
}

/// The dispatcher's whole run over a sequence of observed events: the final
/// state, and every action issued, in order.
pub open spec fn run_spec(s: DispatcherModel, events: Seq<SourceEventModel>) -> (DispatcherModel,
    Seq<SourceActionModel>,
)
    decreases events.len(),
{
    if events.len() == 0 {
        (s, Seq::empty())
    } else {
        let first = step_spec(s, events[0]);
        let rest = run_spec(first.0, events.skip(1));
        (rest.0, first.1 + rest.1)
    }
}

/// One step moves the sequence counter forward by at most one and never
/// changes the acknowledgement mode.
proof fn lemma_step_frame(s: DispatcherModel, e: SourceEventModel)
    ensures
        step_spec(s, e).0.next_seq <= s.next_seq + 1,
        step_spec(s, e).0.acknowledgements == s.acknowledgements,
        s.shutdown ==> step_spec(s, e).0 == s,
{
}

/// Shutdown cutoff, state side: a dispatcher that has observed shutdown
/// processes nothing further, whatever else is already available.
pub proof fn lemma_run_after_shutdown(s: DispatcherModel, events: Seq<SourceEventModel>)
    requires
        s.shutdown,
    ensures
        run_spec(s, events).0 == s,
        run_spec(s, events).1 == Seq::<SourceActionModel>::empty(),
    decreases events.len(),
{
    if events.len() > 0 {
        lemma_run_after_shutdown(s, events.skip(1));
        assert(run_spec(s, events).1 =~= Seq::<SourceActionModel>::empty());
    }
}

/// Shutdown cutoff: the whole run is decided by the events up to and
/// including the first shutdown; no raw message, resolution or failure
/// observed later has any effect.
pub proof fn lemma_shutdown_cutoff(s: DispatcherModel, events: Seq<SourceEventModel>, i: int)
    requires
        0 <= i < events.len(),
        events[i] is Shutdown,
    ensures
        run_spec(s, events).0 == run_spec(s, events.take(i + 1)).0,
        run_spec(s, events).1 == run_spec(s, events.take(i + 1)).1,
    decreases i,
{
    let cut = events.take(i + 1);
    if s.shutdown {
        lemma_run_after_shutdown(s, events);
        lemma_run_after_shutdown(s, cut);
    } else {
        let first = step_spec(s, events[0]);
        assert(cut.len() == i + 1);
        assert(cut[0] == events[0]);
        if i == 0 {
            assert(first.0.shutdown);
            lemma_run_after_shutdown(first.0, events.skip(1));
            lemma_run_after_shutdown(first.0, cut.skip(1));
            assert(run_spec(s, events).1 =~= run_spec(s, cut).1);
        } else {
            assert(events.skip(1)[i - 1] == events[i]);
            lemma_shutdown_cutoff(first.0, events.skip(1), i - 1);
            assert(cut.skip(1) =~= events.skip(1).take(i));
            assert(run_spec(s, events).1 =~= run_spec(s, cut).1);
        }
    }
}

/// Outcome mapping over a whole drain: the action at each position of a
/// drain is exactly the acknowledgment its own entry's resolved outcome maps
/// to; no other mapping is ever produced.
pub proof fn lemma_drain_mapping(q: Seq<EntryModel>, i: int)
    requires
        0 <= i < drain_actions(q).len(),
    ensures
        i < q.len(),
        q[i].status is Some,
        drain_actions(q)[i] == ack_action_of(q[i].status->Some_0, q[i].token),
    decreases q.len(),
{
    if q.len() > 0 && q[0].status is Some {
        if i > 0 {
            assert(drain_actions(q)[i] == drain_actions(q.skip(1))[i - 1]);
            lemma_drain_mapping(q.skip(1), i - 1);
            assert(q.skip(1)[i - 1] == q[i]);
        }
    }
}

/// The tokens acknowledged by a sequence of actions, positively or
/// negatively, in issue order.
pub open spec fn acknowledged_tokens(actions: Seq<SourceActionModel>) -> Seq<TokenModel>
    decreases actions.len(),
{
    if actions.len() == 0 {
        Seq::empty()
    } else {
        let rest = acknowledged_tokens(actions.skip(1));
        match actions[0] {
            SourceActionModel::Ack(t) => seq![t] + rest,
            SourceActionModel::Nack(t) => seq![t] + rest,
            SourceActionModel::Report(_) => rest,
        }
    }
}

proof fn lemma_acknowledged_tokens_concat(a: Seq<SourceActionModel>, b: Seq<SourceActionModel>)
    ensures
        acknowledged_tokens(a + b) == acknowledged_tokens(a) + acknowledged_tokens(b),
    decreases a.len(),
{
    if a.len() == 0 {
        assert(a + b =~= b);
        assert(acknowledged_tokens(a) + acknowledged_tokens(b) =~= acknowledged_tokens(b));
    } else {
        lemma_acknowledged_tokens_concat(a.skip(1), b);
        assert((a + b).skip(1) =~= a.skip(1) + b);
        assert((a + b)[0] == a[0]);
        match a[0] {
            SourceActionModel::Ack(t) => {
                assert(acknowledged_tokens(a + b) =~= acknowledged_tokens(a)
                    + acknowledged_tokens(b));
            },
            SourceActionModel::Nack(t) => {
                assert(acknowledged_tokens(a + b) =~= acknowledged_tokens(a)
                    + acknowledged_tokens(b));
            },
            SourceActionModel::Report(r) => {
                assert(acknowledged_tokens(a + b) =~= acknowledged_tokens(a)
                    + acknowledged_tokens(b));
            },
        }
    }
}

/// Draining accounts for every token once: the tokens acknowledged, followed
/// by the tokens still queued, are exactly the tokens that were queued.
proof fn lemma_drain_tokens(q: Seq<EntryModel>)
    ensures
        acknowledged_tokens(drain_actions(q)) + queue_tokens(drain_queue(q)) == queue_tokens(q),
    decreases q.len(),
{
    if q.len() > 0 && q[0].status is Some {
        lemma_drain_tokens(q.skip(1));
        let a0 = ack_action_of(q[0].status->Some_0, q[0].token);
        let t0 = q[0].token;
        lemma_acknowledged_tokens_concat(seq![a0], drain_actions(q.skip(1)));
        assert(acknowledged_tokens(seq![a0]) =~= seq![t0]) by {
            assert(seq![a0].skip(1) =~= Seq::<SourceActionModel>::empty());
            assert(acknowledged_tokens(seq![a0].skip(1)) =~= Seq::<TokenModel>::empty());
            assert(seq![t0] + Seq::<TokenModel>::empty() =~= seq![t0]);
            match q[0].status->Some_0 {
                BatchStatus::Delivered => {
                    assert(a0 == SourceActionModel::Ack(t0));
                },
                BatchStatus::Errored => {
                    assert(a0 == SourceActionModel::Nack(t0));
                },
                BatchStatus::Rejected => {
                    assert(a0 == SourceActionModel::Nack(t0));
                },
            }
        }
        let acked_rest = acknowledged_tokens(drain_actions(q.skip(1)));
        let queued_rest = queue_tokens(drain_queue(q.skip(1)));
        assert(acknowledged_tokens(drain_actions(q)) =~= seq![t0] + acked_rest);
        assert(seq![t0] + queue_tokens(q.skip(1)) =~= queue_tokens(q)) by {
            assert forall|j: int| 0 <= j < queue_tokens(q.skip(1)).len() implies queue_tokens(
                q.skip(1),
            )[j] == queue_tokens(q)[j + 1] by {
                assert(q.skip(1)[j] == q[j + 1]);
            }
        }
        assert((seq![t0] + acked_rest) + queued_rest =~= seq![t0] + (acked_rest + queued_rest));
    } else {
        assert(acknowledged_tokens(drain_actions(q)) + queue_tokens(drain_queue(q))
            =~= queue_tokens(q));
    }
}

/// The tokens of the messages a run enqueues for deferred acknowledgment: one
/// per raw message whose handoff the downstream sender accepted while
/// acknowledgements are enabled and shutdown has not fired, in arrival order.
pub open spec fn enqueued_tokens(s: DispatcherModel, events: Seq<SourceEventModel>) -> Seq<
    TokenModel,
>
    decreases events.len(),
{
    if events.len() == 0 || s.shutdown {
        Seq::empty()
    } else {
        let head: Seq<TokenModel> = match events[0] {
            SourceEventModel::Received { token, batch, handoff_accepted } => {
                if handoff_accepted && s.acknowledgements {
                    seq![token]
                } else {
                    Seq::empty()
                }
            },
            _ => Seq::empty(),
        };
        head + enqueued_tokens(step_spec(s, events[0]).0, events.skip(1))
    }
}

/// Token accounting across a whole run: the tokens acknowledged, followed by
/// the tokens still queued at the end, are exactly the tokens queued at the
/// start followed by the tokens enqueued during the run, in order.
pub proof fn lemma_run_account(s: DispatcherModel, events: Seq<SourceEventModel>)
    requires
        s.acknowledgements,
    ensures
        acknowledged_tokens(run_spec(s, events).1) + queue_tokens(run_spec(s, events).0.queue)
            == queue_tokens(s.queue) + enqueued_tokens(s, events),
    decreases events.len(),
{
    if events.len() == 0 {
        assert(acknowledged_tokens(run_spec(s, events).1) + queue_tokens(s.queue)
            =~= queue_tokens(s.queue) + enqueued_tokens(s, events));
    } else if s.shutdown {
        lemma_run_after_shutdown(s, events);
        assert(acknowledged_tokens(run_spec(s, events).1) + queue_tokens(s.queue)
            =~= queue_tokens(s.queue) + enqueued_tokens(s, events));
    } else {
        let e = events[0];
        let first = step_spec(s, e);
        let rest = run_spec(first.0, events.skip(1));
        lemma_step_frame(s, e);
        lemma_run_account(first.0, events.skip(1));
        lemma_acknowledged_tokens_concat(first.1, rest.1);
        let acked1 = acknowledged_tokens(first.1);
        let acked2 = acknowledged_tokens(rest.1);
        let enq2 = enqueued_tokens(first.0, events.skip(1));
        assert(acked2 + queue_tokens(rest.0.queue) == queue_tokens(first.0.queue) + enq2);
        match e {
            SourceEventModel::Resolved { seq, status } => {
                let resolved = resolve_in(s.queue, seq, status);
                crate::finalization::lemma_resolve_in_tokens(s.queue, seq, status);
                lemma_drain_tokens(resolved);
                assert(acked1 + queue_tokens(first.0.queue) == queue_tokens(s.queue));
                assert(enqueued_tokens(s, events) =~= enq2);
                assert((acked1 + acked2) + queue_tokens(rest.0.queue) =~= acked1 + (acked2
                    + queue_tokens(rest.0.queue)));
                assert(acked1 + (queue_tokens(first.0.queue) + enq2) =~= (acked1 + queue_tokens(
                    first.0.queue,
                )) + enq2);
            },
            SourceEventModel::Received { token, batch, handoff_accepted } => {
                if handoff_accepted {
                    assert(acked1 =~= Seq::<TokenModel>::empty());
                    assert(queue_tokens(first.0.queue) =~= queue_tokens(s.queue).push(token)) by {
                        assert forall|j: int|
                            0 <= j < first.0.queue.len() implies queue_tokens(first.0.queue)[j]
                            == queue_tokens(s.queue).push(token)[j] by {
                            if j < s.queue.len() {
                                assert(first.0.queue[j] == s.queue[j]);
                            }
                        }
                    }
                    assert(enqueued_tokens(s, events) =~= seq![token] + enq2);
                    assert((acked1 + acked2) + queue_tokens(rest.0.queue) =~= acked2
                        + queue_tokens(rest.0.queue));
                    assert((queue_tokens(s.queue).push(token)) + enq2 =~= queue_tokens(s.queue) + (
                    seq![token] + enq2));
                } else {
                    assert(first.1.skip(1) =~= Seq::<SourceActionModel>::empty());
                    assert(acknowledged_tokens(first.1.skip(1))
                        =~= Seq::<TokenModel>::empty());
                    assert(acked1 =~= Seq::<TokenModel>::empty());
                    assert(enqueued_tokens(s, events) =~= enq2);
                    assert((acked1 + acked2) + queue_tokens(rest.0.queue) =~= acked2
                        + queue_tokens(rest.0.queue));
                }
            },
            _ => {
                assert(first.1.len() <= 1);
                if first.1.len() == 1 {
                    assert(first.1.skip(1) =~= Seq::<SourceActionModel>::empty());
                    assert(acknowledged_tokens(first.1.skip(1))
                        =~= Seq::<TokenModel>::empty());
                    assert(first.1[0] is Report);
                }
                assert(acked1 =~= Seq::<TokenModel>::empty());
                assert(first.0.queue == s.queue);
                assert(enqueued_tokens(s, events) =~= enq2);
                assert((acked1 + acked2) + queue_tokens(rest.0.queue) =~= acked2 + queue_tokens(
                    rest.0.queue,
                ));
            },
        }
    }
}

/// The tokens of the raw messages whose handoff the downstream sender
/// accepted before shutdown fired, in arrival order, whatever the
/// acknowledgement mode.
pub open spec fn accepted_tokens(s: DispatcherModel, events: Seq<SourceEventModel>) -> Seq<
    TokenModel,
>
    decreases events.len(),
{
    if events.len() == 0 || s.shutdown {
        Seq::empty()
    } else {
        let head: Seq<TokenModel> = match events[0] {
            SourceEventModel::Received { token, batch, handoff_accepted } => {
                if handoff_accepted {
                    seq![token]
                } else {
                    Seq::empty()
                }
            },
            _ => Seq::empty(),
        };
        head + accepted_tokens(step_spec(s, events[0]).0, events.skip(1))
    }
}

/// Immediate-ack mode over a whole run: with acknowledgements disabled and
/// nothing queued, every accepted message is acknowledged in its own step —
/// independent of any completion signal — and the tokens acknowledged are
/// exactly those of the accepted messages, in arrival order.
pub proof fn lemma_immediate_ack_run(s: DispatcherModel, events: Seq<SourceEventModel>)
    requires
        !s.acknowledgements,
        s.queue.len() == 0,
    ensures
        acknowledged_tokens(run_spec(s, events).1) == accepted_tokens(s, events),
        run_spec(s, events).0.queue.len() == 0,
    decreases events.len(),
{
    if events.len() == 0 {
    } else if s.shutdown {
        lemma_run_after_shutdown(s, events);
    } else {
        let e = events[0];
        let first = step_spec(s, e);
        let rest = run_spec(first.0, events.skip(1));
        lemma_step_frame(s, e);
        assert(first.0.queue.len() == 0) by {
            match e {
                SourceEventModel::Resolved { seq, status } => {
                    assert(resolve_in(s.queue, seq, status) =~= s.queue);
                },
                _ => {},
            }
        }
        lemma_immediate_ack_run(first.0, events.skip(1));
        lemma_acknowledged_tokens_concat(first.1, rest.1);
        let acked1 = acknowledged_tokens(first.1);
        match e {
            SourceEventModel::Received { token, batch, handoff_accepted } => {
                if handoff_accepted {
                    assert(first.1 == seq![SourceActionModel::Ack(token)]);
                    assert(first.1.skip(1) =~= Seq::<SourceActionModel>::empty());
                    assert(acknowledged_tokens(first.1.skip(1)) =~= Seq::<TokenModel>::empty());
                    assert(acked1 =~= seq![token]);
                } else {
                    assert(first.1.skip(1) =~= Seq::<SourceActionModel>::empty());
                    assert(acknowledged_tokens(first.1.skip(1)) =~= Seq::<TokenModel>::empty());
                    assert(acked1 =~= Seq::<TokenModel>::empty());
                }
            },
            _ => {
                assert(first.1.len() <= 1);
                if first.1.len() == 1 {
                    assert(first.1.skip(1) =~= Seq::<SourceActionModel>::empty());
                    assert(acknowledged_tokens(first.1.skip(1)) =~= Seq::<TokenModel>::empty());
                    assert(first.1[0] is Report);
                }
                assert(acked1 =~= Seq::<TokenModel>::empty());
            },
        }
        assert(acknowledged_tokens(run_spec(s, events).1) =~= accepted_tokens(s, events));
    }
}

/// Order preservation: with acknowledgements enabled, whatever the real-time
/// order in which completion signals resolve, the tokens acknowledged over a
/// whole run are exactly the first acknowledged-count tokens of the messages
/// enqueued, in the order those messages were received.
pub proof fn lemma_acknowledgment_order(events: Seq<SourceEventModel>)
    ensures
        ({
            let s = initial_model(true);
            let acked = acknowledged_tokens(run_spec(s, events).1);
            let enqueued = enqueued_tokens(s, events);
            acked == enqueued.take(acked.len() as int)
        }),
{
    let s = initial_model(true);
    let acked = acknowledged_tokens(run_spec(s, events).1);
    let left = queue_tokens(run_spec(s, events).0.queue);
    let enqueued = enqueued_tokens(s, events);
    lemma_run_account(s, events);
    assert(queue_tokens(s.queue) =~= Seq::<TokenModel>::empty());
    assert(queue_tokens(s.queue) + enqueued =~= enqueued);
    assert(acked + left == enqueued);
    assert(acked =~= enqueued.take(acked.len() as int)) by {
        assert forall|j: int| 0 <= j < acked.len() implies acked[j] == enqueued[j] by {
            assert(enqueued[j] == (acked + left)[j]);
        }
    }
}

/// Outcome mapping: a `Delivered` outcome is acknowledged, an `Errored` or
/// `Rejected` outcome is negatively acknowledged, and no other mapping is
/// ever produced.
pub proof fn lemma_outcome_mapping(status: BatchStatus, token: TokenModel)
    ensures
        ack_action_of(BatchStatus::Delivered, token) == SourceActionModel::Ack(token),
        ack_action_of(BatchStatus::Errored, token) == SourceActionModel::Nack(token),
        ack_action_of(BatchStatus::Rejected, token) == SourceActionModel::Nack(token),
        ack_action_of(status, token) == SourceActionModel::Ack(token) <==> status
            == BatchStatus::Delivered,
{
}

/// Immediate-ack mode: with acknowledgements disabled, a successful handoff
/// is acknowledged at once, independent of any completion signal, and the
/// dispatcher state does not change.
pub proof fn lemma_immediate_ack(
    s: DispatcherModel,
    token: TokenModel,
    batch: Seq<LogEventModel>,
)
    requires
        !s.acknowledgements,
        !s.shutdown,
    ensures
        ({
            let r = step_spec(
                s,
                SourceEventModel::Received { token, batch, handoff_accepted: true },
            );
            r.0 == s && r.1 == seq![SourceActionModel::Ack(token)]
        }),
{
}

/// Drop without ack: when the downstream sender refuses the handoff, the one
/// action is a dropped-event report counting the whole batch; no token is
/// acknowledged, negatively or positively, and nothing is enqueued.
pub proof fn lemma_drop_without_ack(
    s: DispatcherModel,
    token: TokenModel,
    batch: Seq<LogEventModel>,
)
    requires
        !s.shutdown,
    ensures
        ({
            let r = step_spec(
                s,
                SourceEventModel::Received { token, batch, handoff_accepted: false },
            );
            &&& r.0 == s
            &&& r.1 == seq![
                SourceActionModel::Report(Report::EventsDropped { count: batch.len() as usize }),
            ]
            &&& acknowledged_tokens(r.1) == Seq::<TokenModel>::empty()
        }),
{
    let r = step_spec(s, SourceEventModel::Received { token, batch, handoff_accepted: false });
    assert(r.1.skip(1) =~= Seq::<SourceActionModel>::empty());
    assert(r.1[0] is Report);
    assert(acknowledged_tokens(r.1.skip(1)) =~= Seq::<TokenModel>::empty());
    assert(acknowledged_tokens(r.1) =~= Seq::<TokenModel>::empty());
}

impl Dispatcher {
    /// Whether the shutdown signal has been observed.
    pub fn is_shutdown(&self) -> (b: bool)
        ensures
            b == self@.shutdown,
    {
        self.shutdown
    }
}

/// Run the ingestion loop over a sequence of observed events, from source
/// startup until the events are exhausted or shutdown fires: the counterpart
/// of the dispatcher's event loop, with the outside world's replies scripted
/// as values.
#[verifier::loop_isolation(false)]
pub fn pulsar_source(acknowledgements: bool, events: Vec<SourceEvent>) -> (r: (
    Dispatcher,
    Vec<SourceAction>,
))
    requires
        events@.len() < u64::MAX,
    ensures
        r.0.wf(),
        r.0.has_finalizer() == acknowledgements,
        r.0@ == run_spec(initial_model(acknowledgements), events.deep_view()).0,
        r.1.deep_view() == run_spec(initial_model(acknowledgements), events.deep_view()).1,
{
    let ghost init = initial_model(acknowledgements);
    let mut dispatcher = Dispatcher::new(acknowledgements);
    let mut actions: Vec<SourceAction> = Vec::new();
    let mut rest = events;
    proof {
        assert(actions.deep_view() + run_spec(dispatcher@, rest.deep_view()).1 =~= run_spec(
            init,
            events.deep_view(),
        ).1);
    }
    loop
        invariant
            dispatcher.wf(),
            dispatcher.has_finalizer() == acknowledgements,
            events@.len() < u64::MAX,
            dispatcher@.next_seq + rest@.len() <= events@.len(),
            run_spec(init, events.deep_view()).0 == run_spec(dispatcher@, rest.deep_view()).0,
            run_spec(init, events.deep_view()).1 == actions.deep_view() + run_spec(
                dispatcher@,
                rest.deep_view(),
            ).1,
        decreases rest.len(),
    {
        if rest.len() == 0 {
            proof {
                assert(rest.deep_view().len() == 0);
                assert(run_spec(dispatcher@, rest.deep_view()).0 == dispatcher@);
                assert(run_spec(dispatcher@, rest.deep_view()).1
                    == Seq::<SourceActionModel>::empty());
                assert(actions.deep_view() + run_spec(dispatcher@, rest.deep_view()).1
                    =~= actions.deep_view());
                assert(dispatcher@ == run_spec(init, events.deep_view()).0);
                assert(actions.deep_view() == run_spec(init, events.deep_view()).1);
            }
            return (dispatcher, actions);
        }
        let ghost pre_rest = rest.deep_view();
        let ghost pre_state = dispatcher@;
        let ghost pre_actions = actions.deep_view();
        let e = rest.remove(0);
        proof {
            assert(rest.deep_view() =~= pre_rest.skip(1));
            assert(e.deep_view() == pre_rest[0]);
            lemma_step_frame(pre_state, e@);
        }
        let mut acts = dispatcher.step(e);
        actions.append(&mut acts);
        proof {
            let first = step_spec(pre_state, pre_rest[0]);
            let rest_run = run_spec(first.0, pre_rest.skip(1));
            assert(run_spec(pre_state, pre_rest).0 == rest_run.0);
            assert(run_spec(pre_state, pre_rest).1 == first.1 + rest_run.1);
            assert(dispatcher@ == first.0);
            assert(actions.deep_view() =~= pre_actions + first.1);
            assert(pre_actions + (first.1 + rest_run.1) =~= (pre_actions + first.1)
                + rest_run.1);
        }
        if dispatcher.is_shutdown() {
            proof {
                let first = step_spec(pre_state, pre_rest[0]);
                let rest_run = run_spec(first.0, pre_rest.skip(1));
                lemma_run_after_shutdown(dispatcher@, rest.deep_view());
                assert(rest_run.0 == run_spec(dispatcher@, rest.deep_view()).0);
                assert(rest_run.1 == run_spec(dispatcher@, rest.deep_view()).1);
                assert(run_spec(init, events.deep_view()).0 == dispatcher@);
                assert(run_spec(init, events.deep_view()).1 == pre_actions + (first.1
                    + rest_run.1));
                assert(pre_actions + (first.1 + Seq::<SourceActionModel>::empty())
                    =~= pre_actions + first.1);
                assert(actions.deep_view() == run_spec(init, events.deep_view()).1);
            }
            return (dispatcher, actions);
        }
    }
}

} // verus!
