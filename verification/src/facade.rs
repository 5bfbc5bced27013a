//! The bridge facade: one watcher instance, wiring the watch registry
//! and the event pipeline behind a small watch/unwatch/list surface.
//!
//! The facade does not talk to the operating system itself: the
//! caller registers a path with the notification mechanism and hands
//! the facade the outcome, and likewise feeds in what the mechanism
//! reports. Everything the facade then does — bookkeeping of watched
//! paths, encoding, queueing, ordered delivery — is verified here.

use vstd::prelude::*;

use crate::codec::FsEvent;
use crate::codec::NotifyEvent;
use crate::codec::Timestamp;
use crate::codec::notify_event_json;
use crate::pipeline::EventPipeline;
use crate::pipeline::MechanismError;
use crate::pipeline::lemma_delivered_prefix_of_enqueued;
use crate::pipeline::lemma_drained_delivers_all;
use crate::pipeline::PumpOutcome;
use crate::pipeline::WorkerState;
use crate::registry::WatchRegistry;

verus! {

/// The capacity of the internal event queue a watcher is built with.
pub const DEFAULT_QUEUE_CAPACITY: usize = 32;

/// The notification mechanism rejected a watch registration: the path
/// does not exist, is inaccessible, or the mechanism refused it.
#[derive(Debug)]
pub struct WatchError {
    pub message: String,
}

/// The notification mechanism rejected the removal of a watch: the
/// path was never watched or the removal failed.
#[derive(Debug)]
pub struct UnwatchError {
    pub message: String,
}

/// A directory watcher: the registry of watched paths together with
/// the pipeline that carries encoded events to the consumer.
pub struct DirectoryWatcher {
    registry: WatchRegistry,
    pipeline: EventPipeline,
}

impl DirectoryWatcher {
    /// The set of currently watched paths.
    pub closed spec fn watched(&self) -> Set<Seq<char>> {
        self.registry@
    }

    /// Everything ever enqueued, oldest first.
    pub closed spec fn enqueued_log(&self) -> Seq<Seq<char>> {
        self.pipeline.enqueued_log()
    }

    /// Everything ever handed to the consumer, oldest first.
    pub closed spec fn delivered_log(&self) -> Seq<Seq<char>> {
        self.pipeline.delivered_log()
    }

    /// The entries enqueued and not yet delivered, oldest first.
    pub closed spec fn pending(&self) -> Seq<Seq<char>> {
        self.pipeline.pending()
    }

    /// The fixed capacity of the internal queue.
    pub closed spec fn capacity(&self) -> nat {
        self.pipeline.capacity()
    }

    /// The delivery worker's state.
    pub closed spec fn worker_state(&self) -> WorkerState {
        self.pipeline.worker_state()
    }

    /// A new dispatch may start only while no other is in flight.
    pub open spec fn can_dispatch(&self) -> bool {
        self.worker_state() is Idle
    }

    /// The watcher invariant: the registry holds no duplicates and
    /// the pipeline accounts for every enqueued event.
    pub closed spec fn wf(&self) -> bool {
        self.registry.wf() && self.pipeline.wf()
    }

    /// A fresh watcher: nothing watched, nothing enqueued, nothing
    /// delivered, the worker parked, the queue at the default
    /// capacity.
    pub fn new() -> (w: DirectoryWatcher)
        ensures
            w.wf(),
            w.watched() == Set::<Seq<char>>::empty(),
            w.enqueued_log() == Seq::<Seq<char>>::empty(),
            w.delivered_log() == Seq::<Seq<char>>::empty(),
            w.pending() == Seq::<Seq<char>>::empty(),
            w.capacity() == DEFAULT_QUEUE_CAPACITY,
            w.worker_state() is Idle,
    {
        DirectoryWatcher {
            registry: WatchRegistry::new(),
            pipeline: EventPipeline::new(DEFAULT_QUEUE_CAPACITY),
        }
    }

    /// A fresh watcher with a chosen queue capacity.
    pub fn with_capacity(capacity: usize) -> (w: DirectoryWatcher)
        requires
            capacity >= 1,
        ensures
            w.wf(),
            w.watched() == Set::<Seq<char>>::empty(),
            w.enqueued_log() == Seq::<Seq<char>>::empty(),
            w.delivered_log() == Seq::<Seq<char>>::empty(),
            w.pending() == Seq::<Seq<char>>::empty(),
            w.capacity() == capacity,
            w.worker_state() is Idle,
    {
        DirectoryWatcher {
            registry: WatchRegistry::new(),
            pipeline: EventPipeline::new(capacity),
        }
    }

    /// Record the outcome of registering `path` with the notification
    /// mechanism. On acceptance the path joins the watched set —
    /// idempotently, so watching a path twice leaves one entry. On
    /// rejection nothing changes and the rejection is surfaced as a
    /// `WatchError`.
    pub fn watch(&mut self, path: String, mechanism_accepted: bool) -> (r: Result<
        (),
        WatchError,
    >)
        requires
            old(self).wf(),
        ensures
            final(self).wf(),
            final(self).pipeline_unchanged(*old(self)),
            mechanism_accepted ==> r is Ok && final(self).watched() == old(self).watched().insert(
                path@,
            ),
            !mechanism_accepted ==> r is Err && final(self).watched() == old(self).watched(),
    {
        if mechanism_accepted {
            self.registry.insert(path);
            Ok(())
        } else {
            Err(WatchError { message: String::from_str("the notification mechanism rejected the path") })
        }
    }

    /// Record the outcome of removing the watch on `path`. On
    /// acceptance the path leaves the watched set (removing an absent
    /// path is a no-op); on rejection nothing changes and the
    /// rejection is surfaced as an `UnwatchError`.
    pub fn unwatch(&mut self, path: &String, mechanism_accepted: bool) -> (r: Result<
        (),
        UnwatchError,
    >)
        requires
            old(self).wf(),
        ensures
            final(self).wf(),
            final(self).pipeline_unchanged(*old(self)),
            mechanism_accepted ==> r is Ok && final(self).watched() == old(self).watched().remove(
                path@,
            ),
            !mechanism_accepted ==> r is Err && final(self).watched() == old(self).watched(),
    {
        if mechanism_accepted {
            self.registry.remove(path);
            Ok(())
        } else {
            Err(UnwatchError { message: String::from_str("the notification mechanism rejected the removal") })
        }
    }

    /// A snapshot of the watched paths: every watched path exactly
    /// once, nothing else, in no promised order.
    pub fn get_watched_paths(&self) -> (r: Vec<String>)
        requires
            self.wf(),
        ensures
            forall|i: int, j: int| 0 <= i < j < r@.len() ==> r@[i]@ != r@[j]@,
            forall|i: int| 0 <= i < r@.len() ==> self.watched().contains(#[trigger] r@[i]@),
            forall|p: Seq<char>|
                self.watched().contains(p) ==> exists|i: int| 0 <= i < r@.len() && r@[i]@ == p,
    {
        self.registry.snapshot()
    }

    /// Feed one report from the notification mechanism into the pump:
    /// a notification is encoded, serialized and enqueued whole; a
    /// mechanism error is dropped; a full queue changes nothing and
    /// asks the producer to wait.
    pub fn handle_notification(
        &mut self,
        note: Result<FsEvent, MechanismError>,
        ts: Timestamp,
    ) -> (o: PumpOutcome)
        requires
            old(self).wf(),
        ensures
            final(self).wf(),
            final(self).watched() == old(self).watched(),
            final(self).capacity() == old(self).capacity(),
            final(self).worker_state() == old(self).worker_state(),
            final(self).delivered_log() == old(self).delivered_log(),
            match note {
                Ok(ev) => {
                    if old(self).pending().len() < old(self).capacity() {
                        &&& o is Enqueued
                        &&& final(self).enqueued_log() == old(self).enqueued_log().push(
                            notify_event_json((NotifyEvent { event: ev, timestamp: ts })),
                        )
                        &&& final(self).pending() == old(self).pending().push(
                            notify_event_json((NotifyEvent { event: ev, timestamp: ts })),
                        )
                    } else {
                        &&& o is WouldBlock
                        &&& final(self).enqueued_log() == old(self).enqueued_log()
                        &&& final(self).pending() == old(self).pending()
                    }
                },
                Err(_) => {
                    &&& o is DroppedMechanismError
                    &&& final(self).enqueued_log() == old(self).enqueued_log()
                    &&& final(self).pending() == old(self).pending()
                },
            },
    {
        self.pipeline.offer(note, ts)
    }

    /// The worker takes the oldest waiting entry and starts its
    /// delivery; the returned text is what the consumer is invoked
    /// with, exactly once.
    pub fn dispatch(&mut self) -> (r: Option<String>)
        requires
            old(self).wf(),
            old(self).can_dispatch(),
        ensures
            final(self).wf(),
            final(self).watched() == old(self).watched(),
            final(self).capacity() == old(self).capacity(),
            final(self).enqueued_log() == old(self).enqueued_log(),
            old(self).pending().len() == 0 ==> {
                &&& r is None
                &&& final(self).pending() == old(self).pending()
                &&& final(self).delivered_log() == old(self).delivered_log()
                &&& final(self).worker_state() == old(self).worker_state()
            },
            old(self).pending().len() > 0 ==> (match r {
                Some(e) => {
                    &&& e@ == old(self).pending()[0]
                    &&& final(self).pending() == old(self).pending().drop_first()
                    &&& final(self).delivered_log() == old(self).delivered_log().push(e@)
                    &&& final(self).worker_state() is Dispatching
                },
                None => false,
            }),
    {
        self.pipeline.dispatch()
    }

    /// The worker returns to idle once the invocation was handed off;
    /// whether the callback succeeded or failed, the next delivery
    /// can proceed.
    pub fn complete_delivery(&mut self, callback_ok: bool)
        requires
            old(self).wf(),
            old(self).worker_state() is Dispatching,
        ensures
            final(self).wf(),
            final(self).watched() == old(self).watched(),
            final(self).capacity() == old(self).capacity(),
            final(self).enqueued_log() == old(self).enqueued_log(),
            final(self).delivered_log() == old(self).delivered_log(),
            final(self).pending() == old(self).pending(),
            final(self).worker_state() is Idle,
    {
        self.pipeline.complete_delivery(callback_ok)
    }

    /// Teardown, drain-then-stop: once every queued event has been
    /// delivered and no invocation is in flight, the worker exits for
    /// good.
    pub fn shutdown(&mut self)
        requires
            old(self).wf(),
            old(self).worker_state() is Idle,
            old(self).pending().len() == 0,
        ensures
            final(self).wf(),
            final(self).watched() == old(self).watched(),
            final(self).enqueued_log() == old(self).enqueued_log(),
            final(self).delivered_log() == old(self).delivered_log(),
            final(self).pending() == old(self).pending(),
            final(self).worker_state() is Shutdown,
    {
        self.pipeline.shutdown()
    }

    /// How many events wait between pump and worker.
    pub fn pending_len(&self) -> (n: usize)
        ensures
            n == self.pending().len(),
    {
        self.pipeline.pending_len()
    }

    /// Whether the worker is parked, ready for the next dispatch.
    pub fn worker_idle(&self) -> (b: bool)
        ensures
            b == (self.worker_state() is Idle),
    {
        self.pipeline.worker_idle()
    }

    /// Whether the pipeline state is untouched (the watch and unwatch
    /// operations never reach into it).
    pub open spec fn pipeline_unchanged(&self, other: DirectoryWatcher) -> bool {
        &&& self.enqueued_log() == other.enqueued_log()
        &&& self.delivered_log() == other.delivered_log()
        &&& self.pending() == other.pending()
        &&& self.capacity() == other.capacity()
        &&& self.worker_state() == other.worker_state()
    }
}

/// Law: what the watcher has delivered is exactly the oldest enqueued
/// entries, in enqueue order — no event is lost, duplicated or
/// reordered between the pump and the consumer.
pub proof fn lemma_watcher_delivery_order(w: &DirectoryWatcher)
    requires
        w.wf(),
    ensures
        w.delivered_log() == w.enqueued_log().take(w.delivered_log().len() as int),
        w.delivered_log().len() + w.pending().len() == w.enqueued_log().len(),
{
    lemma_delivered_prefix_of_enqueued(&w.pipeline);
}

/// Law: once nothing waits in the queue, the consumer has been handed
/// every enqueued event — N accepted notifications make exactly N
/// deliveries, in the same relative order.
pub proof fn lemma_watcher_drained_delivers_all(w: &DirectoryWatcher)
    requires
        w.wf(),
        w.pending().len() == 0,
    ensures
        w.delivered_log() == w.enqueued_log(),
{
    lemma_drained_delivers_all(&w.pipeline);
}

} // verus!
