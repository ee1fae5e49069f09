//! The bounded measurement queue and the batch hand-off.
//!
//! The queue is the system's only backpressure mechanism: a single producer
//! enqueues, a single consumer dequeues, capacity is fixed. The non-blocking
//! operations here report "full" and "empty" to their caller, which is what
//! a cooperative task turns into a suspension: retry after yielding.
//!
//! The queue carries a ghost record of every measurement ever enqueued and a
//! ghost count of how many were dequeued; its well-formedness ties the live
//! contents to that record, which makes first-in-first-out order a stated,
//! proved property rather than a convention.

use crate::measurement::Measurement;
use vstd::prelude::*;

verus! {

/// A bounded first-in-first-out queue of measurements, shared between
/// exactly one producer and one consumer.
pub struct BatchQueue {
    items: Vec<Measurement>,
    capacity: usize,
    history: Ghost<Seq<Measurement>>,
    dequeued: Ghost<int>,
}

impl BatchQueue {
    /// The measurements currently buffered, oldest first.
    pub closed spec fn contents(self) -> Seq<Measurement> {
        self.items@
    }

    /// The fixed capacity.
    pub closed spec fn cap(self) -> int {
        self.capacity as int
    }

    /// Every measurement ever enqueued, in enqueue order.
    pub closed spec fn history(self) -> Seq<Measurement> {
        self.history@
    }

    /// How many measurements have been dequeued so far.
    pub closed spec fn dequeued_count(self) -> int {
        self.dequeued@
    }

    /// Well-formedness: the capacity is positive, the buffer never exceeds
    /// it, and the buffered contents are exactly the enqueued measurements
    /// not yet dequeued, in order.
    pub open spec fn wf(self) -> bool {
        &&& 1 <= self.cap()
        &&& self.contents().len() <= self.cap()
        &&& 0 <= self.dequeued_count() <= self.history().len()
        &&& self.contents() == self.history().skip(self.dequeued_count())
    }

    /// Whether one more measurement fits right now.
    pub open spec fn can_enqueue(self) -> bool {
        self.contents().len() < self.cap()
    }

    /// An empty queue of the given capacity.
    pub fn new(capacity: usize) -> (q: Self)
        requires
            capacity >= 1,
        ensures
            q.wf(),
            q.cap() == capacity,
            q.contents() == Seq::<Measurement>::empty(),
            q.history() == Seq::<Measurement>::empty(),
            q.dequeued_count() == 0,
    {
        let q = BatchQueue {
            items: Vec::new(),
            capacity,
            history: Ghost(Seq::empty()),
            dequeued: Ghost(0int),
        };
        proof {
            assert(q.contents() =~= q.history().skip(0));
        }
        q
    }

    /// How many measurements are buffered right now.
    pub fn len(&self) -> (n: usize)
        ensures
            n == self.contents().len(),
    {
        self.items.len()
    }

    /// Whether the queue is empty.
    pub fn is_empty(&self) -> (r: bool)
        ensures
            r == (self.contents().len() == 0),
    {
        self.items.len() == 0
    }

    /// Whether the queue is full: the point at which a producer suspends.
    pub fn is_full(&self) -> (r: bool)
        requires
            self.wf(),
        ensures
            r == !self.can_enqueue(),
    {
        self.items.len() == self.capacity
    }

    /// Enqueue a measurement unless the queue is full. Acceptance is exactly
    /// "not full"; a rejected enqueue leaves the queue untouched, and the
    /// producer suspends until a dequeue makes room.
    pub fn try_enqueue(&mut self, m: Measurement) -> (accepted: bool)
        requires
            old(self).wf(),
        ensures
            final(self).wf(),
            final(self).cap() == old(self).cap(),
            accepted == old(self).can_enqueue(),
            accepted ==> {
                &&& final(self).contents() == old(self).contents().push(m)
                &&& final(self).history() == old(self).history().push(m)
                &&& final(self).dequeued_count() == old(self).dequeued_count()
            },
            !accepted ==> *final(self) == *old(self),
    {
        if self.items.len() == self.capacity {
            return false;
        }
        self.items.push(m);
        proof {
            self.history@ = self.history@.push(m);
            assert(final(self).contents() =~= final(self).history().skip(
                final(self).dequeued_count(),
            ));
        }
        true
    }

    /// Dequeue the oldest measurement, or report the queue empty: the point
    /// at which a consumer suspends. What comes out is exactly the next
    /// measurement of the enqueue record — first in, first out.
    pub fn try_dequeue(&mut self) -> (r: Option<Measurement>)
        requires
            old(self).wf(),
        ensures
            final(self).wf(),
            final(self).cap() == old(self).cap(),
            final(self).history() == old(self).history(),
            old(self).contents().len() == 0 ==> r is None && *final(self) == *old(self),
            old(self).contents().len() > 0 ==> {
                &&& r == Some(old(self).contents()[0])
                &&& r == Some(old(self).history()[old(self).dequeued_count()])
                &&& final(self).contents() == old(self).contents().drop_first()
                &&& final(self).dequeued_count() == old(self).dequeued_count() + 1
            },
    {
        if self.items.len() == 0 {
            return None;
        }
        let m = self.items.remove(0);
        proof {
            self.dequeued@ = self.dequeued@ + 1;
            assert(old(self).contents()[0] == old(self).history()[old(self).dequeued_count()]);
            assert(final(self).contents() =~= final(self).history().skip(
                final(self).dequeued_count(),
            ));
        }
        Some(m)
    }
}

/// Failure of the batch hand-off.
#[derive(Clone, Copy, Debug, PartialEq, Eq, Structural)]
pub enum TransmitError {
    /// The transport boundary rejects a batch with no measurements.
    EmptyBatch,
}

/// The consumer's batch assembly: collects dequeued measurements one by one
/// and hands them out only as a complete batch of exactly the fixed size —
/// never partially, even across restarts of the assembly.
pub struct BatchCollector {
    batch: Vec<Measurement>,
    size: usize,
}

impl BatchCollector {
    /// The measurements collected towards the current batch, oldest first.
    pub closed spec fn pending(self) -> Seq<Measurement> {
        self.batch@
    }

    /// The fixed batch size.
    pub closed spec fn batch_size(self) -> int {
        self.size as int
    }

    /// Well-formedness: the batch size is positive and a complete batch is
    /// never left pending.
    pub open spec fn wf(self) -> bool {
        &&& 1 <= self.batch_size()
        &&& self.pending().len() < self.batch_size()
    }

    /// An empty collector for batches of the given size.
    pub fn new(size: usize) -> (c: Self)
        requires
            size >= 1,
        ensures
            c.wf(),
            c.batch_size() == size,
            c.pending() == Seq::<Measurement>::empty(),
    {
        BatchCollector { batch: Vec::new(), size }
    }

    /// Collect one measurement. Exactly when it completes the batch, the
    /// whole batch — the collected measurements in collection order — is
    /// handed out and the assembly restarts empty; otherwise nothing leaves.
    pub fn add(&mut self, m: Measurement) -> (r: Option<Vec<Measurement>>)
        requires
            old(self).wf(),
        ensures
            final(self).wf(),
            final(self).batch_size() == old(self).batch_size(),
            match r {
                Some(batch) => {
                    &&& old(self).pending().len() + 1 == old(self).batch_size()
                    &&& batch@ == old(self).pending().push(m)
                    &&& batch@.len() == old(self).batch_size()
                    &&& final(self).pending() == Seq::<Measurement>::empty()
                },
                None => {
                    &&& old(self).pending().len() + 1 < old(self).batch_size()
                    &&& final(self).pending() == old(self).pending().push(m)
                },
            },
    {
        self.batch.push(m);
        if self.batch.len() < self.size {
            return None;
        }
        let mut full: Vec<Measurement> = Vec::new();
        let n = self.batch.len();
        for i in 0..n
            invariant
                n == self.batch.len(),
                full@ == self.batch@.subrange(0, i as int),
        {
            full.push(self.batch[i]);
        }
        proof {
            assert(full@ =~= self.batch@);
        }
        self.batch = Vec::new();
        Some(full)
    }
}

/// What the transport boundary accepts: any batch with at least one
/// measurement, as one atomic unit.
pub open spec fn spec_batch_accepted(batch: Seq<Measurement>) -> bool {
    batch.len() > 0
}

/// Validate a batch for the transport boundary, which rejects an empty
/// batch and otherwise accepts the whole batch atomically.
pub fn check_batch(batch: &Vec<Measurement>) -> (r: Result<(), TransmitError>)
    ensures
        r is Ok <==> spec_batch_accepted(batch@),
        r is Err ==> r->Err_0 == TransmitError::EmptyBatch,
{
    if batch.len() == 0 {
        return Err(TransmitError::EmptyBatch);
    }
    Ok(())
}

/// Law: batch atomicity. Every batch the collector hands out has exactly
/// the fixed batch size — never fewer, never more — and since the size is
/// positive, no batch handed out is empty, so the transport boundary
/// accepts every one of them.
pub proof fn lemma_batch_atomicity(c: BatchCollector, handed: Seq<Measurement>)
    requires
        c.wf(),
        handed.len() == c.batch_size(),
    ensures
        handed.len() >= 1,
        spec_batch_accepted(handed),
{
}

/// Law: dequeue order equals enqueue order. In a well-formed queue the
/// `i`-th buffered measurement is the `dequeued + i`-th ever enqueued, so
/// successive dequeues return the enqueued measurements in their original
/// order, without gaps.
pub proof fn lemma_queue_fifo(q: BatchQueue)
    requires
        q.wf(),
    ensures
        forall|i: int|
            0 <= i < q.contents().len() ==> q.contents()[i] == q.history()[q.dequeued_count() + i],
{
}

/// Law: backpressure. A full queue accepts nothing, and one dequeue from a
/// full queue always makes the next enqueue possible.
pub proof fn lemma_queue_backpressure(q: BatchQueue)
    requires
        q.wf(),
        q.contents().len() == q.cap(),
    ensures
        !q.can_enqueue(),
        q.contents().drop_first().len() < q.cap(),
{
}

} // verus!
