//! The notification pump and the delivery worker, as one event
//! pipeline over the bounded queue.
//!
//! The pump side takes what the notification mechanism reports — a
//! raw notification or a mechanism error — encodes and serializes a
//! notification, and appends the text entry to the queue; mechanism
//! errors are dropped and a full queue makes the producer wait. The
//! worker side takes entries out one at a time, strictly in queue
//! order, and hands each to the consumer callback exactly once; a
//! dispatch must complete before the next may start, and a callback
//! failure never stops the following deliveries.
//!
//! Two ghost logs — everything ever enqueued and everything ever
//! delivered — tie the two sides together: delivered entries plus
//! waiting entries are always exactly the enqueued entries, so nothing
//! is lost, duplicated, or reordered on the way to the consumer.

use vstd::prelude::*;

use crate::codec::FsEvent;
use crate::codec::NotifyEvent;
use crate::codec::Timestamp;
use crate::codec::encode_at;
use crate::codec::notify_event_json;
use crate::queue::BoundedQueue;

verus! {

/// An internal error the notification mechanism reported in place of
/// a notification. The pipeline drops it; monitoring goes on.
pub struct MechanismError {
    pub message: String,
}

/// What became of one report from the notification mechanism.
#[derive(Clone, Copy, Debug, PartialEq, Eq, Structural)]
pub enum PumpOutcome {
    /// The notification was encoded, serialized and enqueued.
    Enqueued,
    /// The mechanism reported an error; it was dropped.
    DroppedMechanismError,
    /// The queue stands at capacity; the producer must wait for the
    /// worker to drain space and offer the notification again.
    WouldBlock,
}

/// The delivery worker's state: parked, with one callback invocation
/// in flight, or exited for good.
#[derive(Clone, Copy, Debug, PartialEq, Eq, Structural)]
pub enum WorkerState {
    Idle,
    Dispatching,
    Shutdown,
}

/// The pump, the bounded queue, and the delivery worker of one
/// watcher instance.
pub struct EventPipeline {
    queue: BoundedQueue,
    worker: WorkerState,
    enqueued: Ghost<Seq<Seq<char>>>,
    delivered: Ghost<Seq<Seq<char>>>,
}

impl EventPipeline {
    /// Everything ever enqueued, oldest first.
    pub closed spec fn enqueued_log(&self) -> Seq<Seq<char>> {
        self.enqueued@
    }

    /// Everything ever handed to the consumer, oldest first.
    pub closed spec fn delivered_log(&self) -> Seq<Seq<char>> {
        self.delivered@
    }

    /// The entries enqueued and not yet delivered, oldest first.
    pub closed spec fn pending(&self) -> Seq<Seq<char>> {
        self.queue@
    }

    /// The fixed queue capacity.
    pub closed spec fn capacity(&self) -> nat {
        self.queue.cap()
    }

    /// The worker's state.
    pub closed spec fn worker_state(&self) -> WorkerState {
        self.worker
    }

    /// A new dispatch may start only while no other is in flight.
    pub open spec fn can_dispatch(&self) -> bool {
        self.worker_state() is Idle
    }

    /// The pipeline invariant: the queue respects its bound, and the
    /// delivered entries followed by the waiting entries are exactly
    /// the enqueued entries.
    pub open spec fn wf(&self) -> bool {
        &&& self.pending().len() <= self.capacity()
        &&& 1 <= self.capacity()
        &&& self.delivered_log() + self.pending() == self.enqueued_log()
    }

    /// A fresh pipeline: nothing enqueued, nothing delivered, the
    /// worker parked.
    pub fn new(capacity: usize) -> (p: EventPipeline)
        requires
            capacity >= 1,
        ensures
            p.wf(),
            p.capacity() == capacity,
            p.enqueued_log() == Seq::<Seq<char>>::empty(),
            p.delivered_log() == Seq::<Seq<char>>::empty(),
            p.pending() == Seq::<Seq<char>>::empty(),
            p.worker_state() is Idle,
    {
        let p = EventPipeline {
            queue: BoundedQueue::new(capacity),
            worker: WorkerState::Idle,
            enqueued: Ghost(Seq::empty()),
            delivered: Ghost(Seq::empty()),
        };
        proof {
            assert(p.delivered@ + p.queue@ =~= p.enqueued@);
        }
        p
    }

    /// The pump's step: encode and enqueue one report from the
    /// notification mechanism, captured at the given time. A
    /// mechanism error is dropped; a notification meeting a full
    /// queue leaves everything unchanged and asks the producer to
    /// wait. An accepted notification is enqueued whole — never
    /// partially delivered — and nothing after it is transformed.
    pub fn offer(&mut self, note: Result<FsEvent, MechanismError>, ts: Timestamp) -> (o:
        PumpOutcome)
        requires
            old(self).wf(),
        ensures
            final(self).wf(),
            final(self).capacity() == old(self).capacity(),
            final(self).worker_state() == old(self).worker_state(),
            final(self).delivered_log() == old(self).delivered_log(),
            match note {
                Ok(ev) => {
                    if old(self).pending().len() < old(self).capacity() {
                        &&& o is Enqueued
                        &&& final(self).enqueued_log() == old(self).enqueued_log().push(
                            notify_event_json((NotifyEvent { event: ev, timestamp: ts })),
                        )
                        &&& final(self).pending() == old(self).pending().push(
                            notify_event_json((NotifyEvent { event: ev, timestamp: ts })),
                        )
                    } else {
                        &&& o is WouldBlock
                        &&& final(self).enqueued_log() == old(self).enqueued_log()
                        &&& final(self).pending() == old(self).pending()
                    }
                },
                Err(_) => {
                    &&& o is DroppedMechanismError
                    &&& final(self).enqueued_log() == old(self).enqueued_log()
                    &&& final(self).pending() == old(self).pending()
                },
            },
    {
        match note {
            Ok(event) => {
                if self.queue.is_full() {
                    PumpOutcome::WouldBlock
                } else {
                    let structured = encode_at(event, ts);
                    let entry = structured.serialize();
                    proof {
                        self.enqueued@ = self.enqueued@.push(entry@);
                    }
                    self.queue.push(entry);
                    proof {
                        assert(final(self).delivered@ + final(self).queue@ =~= final(self).enqueued@);
                    }
                    PumpOutcome::Enqueued
                }
            },
            Err(_) => PumpOutcome::DroppedMechanismError,
        }
    }

    /// The worker's step from idle: take the oldest waiting entry and
    /// start its delivery. The entry returned is the one — the only
    /// one — the consumer is now invoked with; an empty queue leaves
    /// the worker parked.
    pub fn dispatch(&mut self) -> (r: Option<String>)
        requires
            old(self).wf(),
            old(self).can_dispatch(),
        ensures
            final(self).wf(),
            final(self).capacity() == old(self).capacity(),
            final(self).enqueued_log() == old(self).enqueued_log(),
            old(self).pending().len() == 0 ==> {
                &&& r is None
                &&& final(self).pending() == old(self).pending()
                &&& final(self).delivered_log() == old(self).delivered_log()
                &&& final(self).worker_state() == old(self).worker_state()
            },
            old(self).pending().len() > 0 ==> (match r {
                Some(e) => {
                    &&& e@ == old(self).pending()[0]
                    &&& final(self).pending() == old(self).pending().drop_first()
                    &&& final(self).delivered_log() == old(self).delivered_log().push(e@)
                    &&& final(self).worker_state() is Dispatching
                },
                None => false,
            }),
    {
        let popped = self.queue.pop();
        match popped {
            Some(entry) => {
                proof {
                    self.delivered@ = self.delivered@.push(entry@);
                }
                self.worker = WorkerState::Dispatching;
                let cloned = entry.clone();
                proof {
                    assert(final(self).delivered@ + final(self).queue@ =~= final(self).enqueued@);
                }
                Some(cloned)
            },
            None => None,
        }
    }

    /// The worker's step back to idle once the dispatch mechanism has
    /// accepted the invocation. Whether the callback itself succeeded
    /// or failed, the worker is ready for the next entry: a failing
    /// consumer invocation never halts the pipeline.
    pub fn complete_delivery(&mut self, callback_ok: bool)
        requires
            old(self).wf(),
            old(self).worker_state() is Dispatching,
        ensures
            final(self).wf(),
            final(self).capacity() == old(self).capacity(),
            final(self).enqueued_log() == old(self).enqueued_log(),
            final(self).delivered_log() == old(self).delivered_log(),
            final(self).pending() == old(self).pending(),
            final(self).worker_state() is Idle,
    {
        let _ = callback_ok;
        self.worker = WorkerState::Idle;
    }

    /// How many entries wait between pump and worker.
    pub fn pending_len(&self) -> (n: usize)
        ensures
            n == self.pending().len(),
    {
        self.queue.len()
    }

    /// Whether the worker is parked, ready for the next dispatch.
    pub fn worker_idle(&self) -> (b: bool)
        ensures
            b == (self.worker_state() is Idle),
    {
        match self.worker {
            WorkerState::Idle => true,
            WorkerState::Dispatching => false,
            WorkerState::Shutdown => false,
        }
    }

    /// The worker's exit, taken when the producer side is closed for
    /// good and nothing waits: the terminal state.
    pub fn shutdown(&mut self)
        requires
            old(self).wf(),
            old(self).worker_state() is Idle,
            old(self).pending().len() == 0,
        ensures
            final(self).wf(),
            final(self).enqueued_log() == old(self).enqueued_log(),
            final(self).delivered_log() == old(self).delivered_log(),
            final(self).pending() == old(self).pending(),
            final(self).worker_state() is Shutdown,
    {
        self.worker = WorkerState::Shutdown;
    }
}

/// Law: deliveries neither drop, duplicate nor reorder events — what
/// has been delivered is exactly the oldest enqueued entries, in
/// enqueue order, and together with the waiting entries accounts for
/// every enqueued entry.
pub proof fn lemma_delivered_prefix_of_enqueued(p: &EventPipeline)
    requires
        p.wf(),
    ensures
        p.delivered_log() == p.enqueued_log().take(p.delivered_log().len() as int),
        p.delivered_log().len() + p.pending().len() == p.enqueued_log().len(),
{
    assert(p.delivered_log() =~= p.enqueued_log().take(p.delivered_log().len() as int));
}

/// Law: once the queue has drained, the consumer has been handed
/// every enqueued event — N notifications make exactly N deliveries,
/// in the same relative order.
pub proof fn lemma_drained_delivers_all(p: &EventPipeline)
    requires
        p.wf(),
        p.pending().len() == 0,
    ensures
        p.delivered_log() == p.enqueued_log(),
{
    assert(p.delivered_log() =~= p.enqueued_log());
}

/// Law: no two callback invocations are ever in flight at once —
/// while one dispatch is outstanding, no further dispatch can start
/// until its completion returns the worker to idle.
pub proof fn lemma_dispatch_serialized(p: &EventPipeline)
    requires
        p.worker_state() is Dispatching,
    ensures
        !p.can_dispatch(),
{
}

} // verus!
