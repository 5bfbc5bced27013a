//! The bounded internal queue between the notification pump and the
//! delivery worker.
//!
//! Entries are serialized events (text). The queue is first-in
//! first-out and holds at most its fixed capacity; a full queue
//! refuses nothing here — the caller sees fullness and waits, which is
//! the backpressure contract.

use vstd::prelude::*;

verus! {

/// A first-in first-out queue of serialized events with a fixed
/// capacity.
pub struct BoundedQueue {
    entries: Vec<String>,
    capacity: usize,
}

impl View for BoundedQueue {
    type V = Seq<Seq<char>>;

    closed spec fn view(&self) -> Seq<Seq<char>> {
        self.entries@.map_values(|s: String| s@)
    }
}

impl BoundedQueue {
    /// The fixed capacity the queue was made with.
    pub closed spec fn cap(&self) -> nat {
        self.capacity as nat
    }

    /// The queue never holds more than its capacity, and the capacity
    /// is at least one.
    pub open spec fn wf(&self) -> bool {
        self@.len() <= self.cap() && 1 <= self.cap()
    }

    /// A fresh, empty queue of the given capacity.
    pub fn new(capacity: usize) -> (q: BoundedQueue)
        requires
            capacity >= 1,
        ensures
            q.wf(),
            q.cap() == capacity,
            q@ == Seq::<Seq<char>>::empty(),
    {
        let q = BoundedQueue { entries: Vec::new(), capacity };
        proof {
            assert(q@ =~= Seq::<Seq<char>>::empty());
        }
        q
    }

    /// How many entries wait in the queue.
    pub fn len(&self) -> (n: usize)
        ensures
            n == self@.len(),
    {
        self.entries.len()
    }

    /// Whether the queue stands at its capacity.
    pub fn is_full(&self) -> (b: bool)
        ensures
            b == (self@.len() == self.cap()),
    {
        self.entries.len() == self.capacity
    }

    /// Whether the queue holds nothing.
    pub fn is_empty(&self) -> (b: bool)
        ensures
            b == (self@.len() == 0),
    {
        self.entries.is_empty()
    }

    /// Append an entry at the back. Only callable while space is
    /// free; a producer that finds the queue full waits instead.
    pub fn push(&mut self, entry: String)
        requires
            old(self).wf(),
            old(self)@.len() < old(self).cap(),
        ensures
            final(self).wf(),
            final(self).cap() == old(self).cap(),
            final(self)@ == old(self)@.push(entry@),
    {
        self.entries.push(entry);
        proof {
            assert(final(self)@ =~= old(self)@.push(entry@));
        }
    }

    /// Take the oldest entry, or nothing from an empty queue.
    pub fn pop(&mut self) -> (r: Option<String>)
        requires
            old(self).wf(),
        ensures
            final(self).wf(),
            final(self).cap() == old(self).cap(),
            old(self)@.len() == 0 ==> r is None && final(self)@ == old(self)@,
            old(self)@.len() > 0 ==> (match r {
                Some(e) => e@ == old(self)@[0] && final(self)@ == old(self)@.drop_first(),
                None => false,
            }),
    {
        if self.entries.is_empty() {
            None
        } else {
            let e = self.entries.remove(0);
            proof {
                assert(final(self)@ =~= old(self)@.drop_first());
            }
            Some(e)
        }
    }
}

} // verus!
