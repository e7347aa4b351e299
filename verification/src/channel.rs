//! The dispatch channel: a bounded FIFO, one per event class, that carries
//! events out of the restricted hook-invocation context.
//!
//! The producer side never blocks: a send is attempted exactly once and
//! fails silently when the queue is full. That is the explicit backpressure
//! policy — the hook callback must never stall waiting for the consumer.

use vstd::math::min;
use vstd::prelude::*;

verus! {

/// Default capacity of a dispatch channel: at most this many events are
/// outstanding between the hook callback and the consumer.
pub const DEFAULT_CAPACITY: usize = 10;

/// A bounded FIFO queue of events. Capacity is fixed at construction;
/// `try_send` refuses (rather than waits) when the queue is full.
pub struct DispatchChannel<T> {
    items: Vec<T>,
    capacity: usize,
}

/// The queue contents that result from offering `items`, in order, to a
/// bounded queue that starts as `q` and is never drained: each item is
/// appended when there is room and lost when there is not.
pub open spec fn offer_all<T>(q: Seq<T>, cap: nat, items: Seq<T>) -> Seq<T>
    decreases items.len(),
{
    if items.len() == 0 {
        q
    } else {
        let q2 = if q.len() < cap {
            q.push(items[0])
        } else {
            q
        };
        offer_all(q2, cap, items.drop_first())
    }
}

impl<T> DispatchChannel<T> {
    /// The events currently queued, oldest first.
    pub closed spec fn queued(self) -> Seq<T> {
        self.items@
    }

    /// The capacity fixed at construction.
    pub closed spec fn cap(self) -> nat {
        self.capacity as nat
    }

    /// A channel never holds more events than its capacity.
    pub closed spec fn wf(self) -> bool {
        self.items@.len() <= self.capacity
    }

    /// Construct an empty channel of the given capacity.
    pub fn new(capacity: usize) -> (c: Self)
        ensures
            c.wf(),
            c.cap() == capacity,
            c.queued() == Seq::<T>::empty(),
    {
        DispatchChannel { items: Vec::new(), capacity }
    }

    /// How many events are queued right now.
    pub fn len(&self) -> (n: usize)
        ensures
            n == self.queued().len(),
    {
        self.items.len()
    }

    /// Non-blocking send: append the event if there is room, report failure
    /// (and lose the event) if the channel is full. Never waits.
    pub fn try_send(&mut self, item: T) -> (ok: bool)
        requires
            old(self).wf(),
        ensures
            final(self).wf(),
            final(self).cap() == old(self).cap(),
            ok == (old(self).queued().len() < old(self).cap()),
            ok ==> final(self).queued() == old(self).queued().push(item),
            !ok ==> final(self).queued() == old(self).queued(),
    {
        if self.items.len() < self.capacity {
            self.items.push(item);
            true
        } else {
            false
        }
    }

    /// Offer each event in turn, never waiting; events that arrive while
    /// the channel is full are lost. Returns how many were accepted.
    pub fn try_send_all(&mut self, items: Vec<T>) -> (accepted: usize)
        requires
            old(self).wf(),
        ensures
            final(self).wf(),
            final(self).cap() == old(self).cap(),
            final(self).queued() == offer_all(
                old(self).queued(),
                old(self).cap(),
                items@,
            ),
            accepted == final(self).queued().len() - old(self).queued().len(),
    {
        let ghost start = self.queued();
        let ghost all = items@;
        let before: usize = self.items.len();
        let mut rest = items;
        while rest.len() > 0
            invariant
                self.wf(),
                self.cap() == old(self).cap(),
                start.len() <= self.queued().len(),
                before == start.len(),
                offer_all(start, self.cap(), all) == offer_all(
                    self.queued(),
                    self.cap(),
                    rest@,
                ),
            decreases rest@.len(),
        {
            let ghost pending = rest@;
            let item = rest.remove(0);
            proof {
                assert(rest@ =~= pending.drop_first());
            }
            self.try_send(item);
        }
        self.items.len() - before
    }

    /// Take the oldest queued event, or `None` when the queue is empty.
    /// (The real consumer blocks here on its own schedule; emptiness stands
    /// for "nothing has arrived yet".)
    pub fn try_recv(&mut self) -> (r: Option<T>)
        requires
            old(self).wf(),
        ensures
            final(self).wf(),
            final(self).cap() == old(self).cap(),
            old(self).queued().len() == 0 ==> r is None && final(self).queued()
                == old(self).queued(),
            old(self).queued().len() > 0 ==> r == Some(old(self).queued()[0])
                && final(self).queued() == old(self).queued().drop_first(),
    {
        if self.items.len() > 0 {
            let head = self.items.remove(0);
            proof {
                assert(self.items@ =~= old(self).queued().drop_first());
            }
            Some(head)
        } else {
            None
        }
    }
}

/// Offering a run of items to a queue with spare room appends the prefix
/// that fits and loses the rest.
proof fn lemma_offer_all_fills<T>(q: Seq<T>, cap: nat, items: Seq<T>)
    requires
        q.len() <= cap,
    ensures
        offer_all(q, cap, items) == q + items.take(min(
            items.len() as int,
            cap - q.len(),
        )),
    decreases items.len(),
{
    if items.len() == 0 {
        assert(offer_all(q, cap, items) =~= q + items.take(0));
    } else if q.len() < cap {
        lemma_offer_all_fills(q.push(items[0]), cap, items.drop_first());
        let keep = min(items.len() as int, cap - q.len());
        assert(q.push(items[0]) + items.drop_first().take(keep - 1) =~= q
            + items.take(keep));
    } else {
        lemma_offer_all_fills(q, cap, items.drop_first());
        assert(q + items.drop_first().take(0) =~= q + items.take(0));
    }
}

/// Backpressure: when one more event than the capacity is offered to an
/// empty, undrained channel, exactly the first `cap` events are queued —
/// the last offer finds the channel full and fails, and the producer is
/// never made to wait for the consumer.
pub proof fn lemma_backpressure<T>(cap: nat, items: Seq<T>)
    requires
        items.len() == cap + 1,
    ensures
        offer_all(Seq::<T>::empty(), cap, items) == items.take(cap as int),
        offer_all(Seq::<T>::empty(), cap, items).len() == cap,
{
    lemma_offer_all_fills(Seq::<T>::empty(), cap, items);
    assert(Seq::<T>::empty() + items.take(cap as int) =~= items.take(cap as int));
}

} // verus!
