//! Batch completion tracking and the ordered finalizer.
//!
//! A `BatchNotifier` is the single-assignment completion signal shared by all
//! events decoded from one raw message. The `OrderedFinalizer` is a FIFO queue
//! of pending finalization entries; it surfaces completion outcomes strictly
//! in insertion order, no matter in which real-time order the individual
//! signals resolve.

use vstd::prelude::*;

verus! {

/// Outcome of delivering one batch to the downstream consumers.
#[derive(Clone, Copy, Debug, PartialEq, Eq, Structural)]
pub enum BatchStatus {
    /// All downstream consumers accepted the batch durably.
    Delivered,
    /// A downstream consumer failed while processing the batch.
    Errored,
    /// A downstream consumer explicitly declined the batch.
    Rejected,
}

/// Single-assignment tri-state completion signal for one batch.
///
/// The writable side resolves the signal exactly once; the ordered finalizer
/// observes it. A resolved signal never changes again.
pub struct BatchNotifier {
    status: Option<BatchStatus>,
}

impl BatchNotifier {
    /// The outcome written so far, if any.
    pub closed spec fn outcome(&self) -> Option<BatchStatus> {
        self.status
    }

    /// A fresh, unresolved signal.
    pub fn new() -> (r: Self)
        ensures
            r.outcome() is None,
    {
        BatchNotifier { status: None }
    }

    /// Resolve the signal. May be called exactly once.
    pub fn resolve(&mut self, status: BatchStatus)
        requires
            old(self).outcome() is None,
        ensures
            final(self).outcome() == Some(status),
    {
        self.status = Some(status);
    }

    /// Observe the signal without consuming it.
    pub fn status(&self) -> (r: Option<BatchStatus>)
        ensures
            r == self.outcome(),
    {
        self.status
    }
}

/// Opaque handle identifying one raw inbound message to its origin broker.
///
/// The coordinator never inspects the contents; it only hands the token back
/// to the broker client when acknowledging.
#[derive(Debug)]
pub struct DeliveryToken {
    /// Topic the message was read from.
    pub topic: String,
    /// Broker-assigned message identifier.
    pub message_id: u64,
}

/// Mathematical model of a `DeliveryToken`.
#[verifier::ext_equal]
pub ghost struct TokenModel {
    pub topic: Seq<char>,
    pub message_id: u64,
}

impl View for DeliveryToken {
    type V = TokenModel;

    open spec fn view(&self) -> TokenModel {
        TokenModel { topic: self.topic@, message_id: self.message_id }
    }
}

/// One pending finalization: a delivery token paired with the observable side
/// of its batch's completion signal, tagged with the sequence number that the
/// writable side resolves it under.
pub struct FinalizerEntry {
    /// Sequence number identifying this batch to its resolver.
    pub seq: u64,
    /// Token to acknowledge once the outcome surfaces.
    pub token: DeliveryToken,
    /// Observable side of the batch's completion signal.
    pub notifier: BatchNotifier,
}

/// Mathematical model of a `FinalizerEntry`.
#[verifier::ext_equal]
pub ghost struct EntryModel {
    pub seq: u64,
    pub token: TokenModel,
    pub status: Option<BatchStatus>,
}

impl View for FinalizerEntry {
    type V = EntryModel;

    open spec fn view(&self) -> EntryModel {
        EntryModel { seq: self.seq, token: self.token@, status: self.notifier.outcome() }
    }
}

/// The delivery tokens of a queue, in queue order.
pub open spec fn queue_tokens(q: Seq<EntryModel>) -> Seq<TokenModel> {
    q.map_values(|e: EntryModel| e.token)
}

/// Resolving sequence number `seq` to `status` in a queue: the first entry
/// carrying `seq` receives the outcome if it is still unresolved; a second
/// resolution attempt, or one naming no queued entry, changes nothing.
pub open spec fn resolve_in(q: Seq<EntryModel>, seq: u64, status: BatchStatus) -> Seq<EntryModel>
    decreases q.len(),
{
    if q.len() == 0 {
        q
    } else if q[0].seq == seq {
        if q[0].status is None {
            seq![EntryModel { status: Some(status), ..q[0] }] + q.skip(1)
        } else {
            q
        }
    } else {
        seq![q[0]] + resolve_in(q.skip(1), seq, status)
    }
}

/// Resolution never reorders, adds or removes entries: the tokens are kept.
pub proof fn lemma_resolve_in_tokens(q: Seq<EntryModel>, seq: u64, status: BatchStatus)
    ensures
        queue_tokens(resolve_in(q, seq, status)) == queue_tokens(q),
    decreases q.len(),
{
    if q.len() == 0 {
    } else if q[0].seq == seq {
        if q[0].status is None {
            assert(queue_tokens(resolve_in(q, seq, status)) =~= queue_tokens(q));
        }
    } else {
        lemma_resolve_in_tokens(q.skip(1), seq, status);
        let r = resolve_in(q, seq, status);
        let rest = resolve_in(q.skip(1), seq, status);
        assert(r == seq![q[0]] + rest);
        assert forall|i: int| 0 <= i < queue_tokens(r).len() implies queue_tokens(r)[i]
            == queue_tokens(q)[i] by {
            if i > 0 {
                assert(queue_tokens(rest).len() == queue_tokens(q.skip(1)).len());
                assert(r[i] == rest[i - 1]);
                assert(queue_tokens(rest)[i - 1] == rest[i - 1].token);
                assert(q.skip(1)[i - 1] == q[i - 1 + 1]);
                assert(queue_tokens(q.skip(1))[i - 1] == q.skip(1)[i - 1].token);
            }
        }
        assert(rest.len() == q.skip(1).len()) by {
            assert(queue_tokens(rest).len() == queue_tokens(q.skip(1)).len());
        }
        assert(queue_tokens(r).len() == queue_tokens(q).len());
        assert(queue_tokens(r) =~= queue_tokens(q));
    }
}

/// Single assignment: once a sequence number's entry has received its
/// outcome, a later resolution attempt under the same number changes
/// nothing, whatever outcome it carries.
pub proof fn lemma_resolve_in_single_assignment(
    q: Seq<EntryModel>,
    seq: u64,
    st1: BatchStatus,
    st2: BatchStatus,
)
    ensures
        resolve_in(resolve_in(q, seq, st1), seq, st2) == resolve_in(q, seq, st1),
    decreases q.len(),
{
    if q.len() == 0 {
    } else if q[0].seq == seq {
        if q[0].status is None {
            let r = resolve_in(q, seq, st1);
            assert(r[0].seq == seq && r[0].status is Some);
        }
    } else {
        lemma_resolve_in_single_assignment(q.skip(1), seq, st1, st2);
        let r = resolve_in(q, seq, st1);
        assert(r[0] == q[0]);
        assert(r.skip(1) =~= resolve_in(q.skip(1), seq, st1));
        assert(resolve_in(r, seq, st2) =~= r);
    }
}

proof fn lemma_resolve_in_not_found(q: Seq<EntryModel>, seq: u64, status: BatchStatus)
    requires
        forall|j: int| 0 <= j < q.len() ==> q[j].seq != seq,
    ensures
        resolve_in(q, seq, status) == q,
    decreases q.len(),
{
    if q.len() > 0 {
        lemma_resolve_in_not_found(q.skip(1), seq, status);
        assert(resolve_in(q, seq, status) =~= q);
    }
}

proof fn lemma_resolve_in_at(q: Seq<EntryModel>, seq: u64, status: BatchStatus, i: int)
    requires
        0 <= i < q.len(),
        q[i].seq == seq,
        forall|j: int| 0 <= j < i ==> q[j].seq != seq,
    ensures
        resolve_in(q, seq, status) == (if q[i].status is None {
            q.update(i, EntryModel { status: Some(status), ..q[i] })
        } else {
            q
        }),
    decreases i,
{
    if i == 0 {
        if q[0].status is None {
            assert(resolve_in(q, seq, status) =~= q.update(
                0,
                EntryModel { status: Some(status), ..q[0] },
            ));
        }
    } else {
        lemma_resolve_in_at(q.skip(1), seq, status, i - 1);
        if q[i].status is None {
            assert(q.skip(1)[i - 1] == q[i]);
            assert(resolve_in(q, seq, status) =~= q.update(
                i,
                EntryModel { status: Some(status), ..q[i] },
            ));
        } else {
            assert(resolve_in(q, seq, status) =~= q);
        }
    }
}

/// FIFO queue of pending finalization entries.
///
/// Single-writer, single-reader: the ingestion dispatcher alone appends and
/// drains. The ordering guarantee of `next_resolved` is that an entry is only
/// surfaced once every entry inserted before it has been surfaced, even if its
/// own signal resolved first in real time.
pub struct OrderedFinalizer {
    entries: Vec<FinalizerEntry>,
}

impl View for OrderedFinalizer {
    type V = Seq<EntryModel>;

    closed spec fn view(&self) -> Seq<EntryModel> {
        self.entries@.map_values(|e: FinalizerEntry| e@)
    }
}

impl OrderedFinalizer {
    /// An empty queue.
    pub fn new() -> (r: Self)
        ensures
            r@ == Seq::<EntryModel>::empty(),
    {
        let r = OrderedFinalizer { entries: Vec::new() };
        proof {
            assert(r@ =~= Seq::<EntryModel>::empty());
        }
        r
    }

    /// Number of pending entries.
    pub fn len(&self) -> (n: usize)
        ensures
            n == self@.len(),
    {
        self.entries.len()
    }

    /// Append an entry at the tail. Always succeeds; unbounded by design.
    pub fn add(&mut self, entry: FinalizerEntry)
        ensures
            final(self)@ == old(self)@.push(entry@),
    {
        let ghost ghost_entry = entry@;
        self.entries.push(entry);
        proof {
            assert(final(self)@ =~= old(self)@.push(ghost_entry));
        }
    }

    /// Write `status` into the signal of the first entry queued under `seq`.
    ///
    /// An already-resolved entry, or a sequence number naming no queued entry,
    /// is left untouched: the signal is single-assignment.
    pub fn resolve(&mut self, seq: u64, status: BatchStatus)
        ensures
            final(self)@ == resolve_in(old(self)@, seq, status),
    {
        let n = self.entries.len();
        let mut i: usize = 0;
        while i < n
            invariant
                n == self.entries.len(),
                i <= n,
                self@ == old(self)@,
                forall|j: int| 0 <= j < i ==> self@[j].seq != seq,
            decreases n - i,
        {
            if self.entries[i].seq == seq {
                let mut e = self.entries.remove(i);
                if e.notifier.status().is_none() {
                    e.notifier.resolve(status);
                }
                let ghost new_entry = e@;
                self.entries.insert(i, e);
                proof {
                    assert(self@ =~= old(self)@.update(i as int, new_entry));
                    lemma_resolve_in_at(old(self)@, seq, status, i as int);
                    if old(self)@[i as int].status is Some {
                        assert(self@ =~= old(self)@);
                    }
                }
                return ;
            }
            i = i + 1;
        }
        proof {
            lemma_resolve_in_not_found(old(self)@, seq, status);
            assert(self@ =~= old(self)@);
        }
    }

    /// Whether the entry at the head exists and its signal has resolved.
    pub fn head_resolved(&self) -> (b: bool)
        ensures
            b == (self@.len() > 0 && self@[0].status is Some),
    {
        if self.entries.len() == 0 {
            false
        } else {
            self.entries[0].notifier.status().is_some()
        }
    }

    /// Remove and return the head's outcome and token, if the head's signal
    /// has resolved; entries behind an unresolved head are never surfaced.
    pub fn next_resolved(&mut self) -> (r: Option<(BatchStatus, DeliveryToken)>)
        ensures
            old(self)@.len() > 0 && old(self)@[0].status is Some ==> {
                &&& r is Some
                &&& r->Some_0.0 == old(self)@[0].status->Some_0
                &&& r->Some_0.1@ == old(self)@[0].token
                &&& final(self)@ == old(self)@.skip(1)
            },
            !(old(self)@.len() > 0 && old(self)@[0].status is Some) ==> {
                &&& r is None
                &&& final(self)@ == old(self)@
            },
    {
        if self.entries.len() == 0 {
            return None;
        }
        let resolved = self.entries[0].notifier.status();
        match resolved {
            Some(status) => {
                let entry = self.entries.remove(0);
                proof {
                    assert(final(self)@ =~= old(self)@.skip(1));
                }
                Some((status, entry.token))
            },
            None => None,
        }
    }
}

} // verus!
