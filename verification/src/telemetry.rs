use vstd::prelude::*;

use crate::kalval::KalVal;

verus! {

/// Whether a hub with contents `s` and capacity `cap` has room for one more
/// sample.
pub open spec fn send_accepted(s: Seq<KalVal>, cap: nat) -> bool {
    s.len() < cap
}

/// The hub contents after an enqueue attempt: appended when there is room,
/// untouched when the hub is full (the producer keeps its sample and blocks).
pub open spec fn after_send(s: Seq<KalVal>, cap: nat, v: KalVal) -> Seq<KalVal> {
    if send_accepted(s, cap) {
        s.push(v)
    } else {
        s
    }
}

/// The hub contents after a dequeue attempt: the oldest sample leaves, an
/// empty hub is untouched.
pub open spec fn after_recv(s: Seq<KalVal>) -> Seq<KalVal> {
    if s.len() > 0 {
        s.drop_first()
    } else {
        s
    }
}

/// What a dequeue attempt returns: the oldest sample, if any.
pub open spec fn recv_result(s: Seq<KalVal>) -> Option<KalVal> {
    if s.len() > 0 {
        Some(s[0])
    } else {
        None
    }
}

/// The single bounded queue that funnels every producer's samples to the one
/// consumer task.  Enqueueing never drops a sample: when the hub is full the
/// sample is handed back and the producer suspends until the consumer drains
/// an entry.
#[derive(Debug)]
pub struct TelemetryHub {
    capacity: usize,
    items: Vec<KalVal>,
}

impl View for TelemetryHub {
    type V = Seq<KalVal>;

    closed spec fn view(&self) -> Seq<KalVal> {
        self.items@
    }
}

impl TelemetryHub {
    /// The hub's fixed capacity.
    pub closed spec fn cap(&self) -> nat {
        self.capacity as nat
    }

    /// The hub never holds more than its capacity, and a hub of capacity
    /// zero could make no progress at all.
    pub open spec fn wf(&self) -> bool {
        self@.len() <= self.cap() && self.cap() >= 1
    }

    /// An empty hub with the given capacity.
    pub fn new(capacity: usize) -> (r: TelemetryHub)
        requires
            capacity >= 1,
        ensures
            r.wf(),
            r.cap() == capacity,
            r@ == Seq::<KalVal>::empty(),
    {
        TelemetryHub { capacity, items: Vec::new() }
    }

    /// One enqueue attempt.  With room the sample is appended in arrival
    /// order; on a full hub nothing changes and the sample comes back to its
    /// producer, which blocks and retries after the consumer drains.
    pub fn try_send(&mut self, v: KalVal) -> (r: Result<(), KalVal>)
        requires
            old(self).wf(),
        ensures
            final(self).wf(),
            final(self).cap() == old(self).cap(),
            final(self)@ == after_send(old(self)@, old(self).cap(), v),
            r is Ok <==> send_accepted(old(self)@, old(self).cap()),
            r is Err ==> r == Err::<(), KalVal>(v),
    {
        if self.items.len() < self.capacity {
            self.items.push(v);
            Ok(())
        } else {
            Err(v)
        }
    }

    /// One dequeue attempt by the consumer: the oldest sample, in FIFO
    /// order, or nothing from an empty hub.
    pub fn recv(&mut self) -> (r: Option<KalVal>)
        requires
            old(self).wf(),
        ensures
            final(self).wf(),
            final(self).cap() == old(self).cap(),
            final(self)@ == after_recv(old(self)@),
            r == recv_result(old(self)@),
    {
        if self.items.len() > 0 {
            Some(self.items.remove(0))
        } else {
            None
        }
    }

    /// How many samples wait in the hub.
    pub fn len(&self) -> (r: usize)
        ensures
            r == self@.len(),
    {
        self.items.len()
    }

    /// The hub's capacity.
    pub fn capacity(&self) -> (r: usize)
        ensures
            r == self.cap(),
    {
        self.capacity
    }
}

/// A producer that meets a full hub is blocked, never silently dropped: the
/// refused enqueue leaves the hub exactly as it was, a single drain by the
/// consumer makes room, and the retried enqueue then appends the very sample
/// behind what was already queued.
pub proof fn lemma_blocking_backpressure(s: Seq<KalVal>, cap: nat, v: KalVal)
    requires
        s.len() == cap,
        cap >= 1,
    ensures
        !send_accepted(s, cap),
        after_send(s, cap, v) == s,
        send_accepted(after_recv(s), cap),
        after_send(after_recv(s), cap, v) == s.drop_first().push(v),
{
}

/// The values returned by `k` successive dequeues from contents `s`.
pub open spec fn drained(s: Seq<KalVal>, k: nat) -> Seq<KalVal>
    decreases k,
{
    if k == 0 || s.len() == 0 {
        seq![]
    } else {
        seq![s[0]] + drained(after_recv(s), (k - 1) as nat)
    }
}

/// Dequeue order matches enqueue order: draining the hub returns exactly its
/// contents, oldest first, with nothing reordered or lost.
pub proof fn lemma_dequeue_order(s: Seq<KalVal>)
    ensures
        drained(s, s.len()) == s,
    decreases s.len(),
{
    if s.len() > 0 {
        lemma_dequeue_order(s.drop_first());
        assert(seq![s[0]] + s.drop_first() =~= s);
    } else {
        assert(drained(s, 0) =~= s);
    }
}

} // verus!
