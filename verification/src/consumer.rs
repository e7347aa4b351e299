//! Consumer workers: one per event class, each draining its dispatch
//! channel on its own schedule.
//!
//! The keyboard consumer applies the staleness filter: it tracks the last
//! accepted timestamp, discards any event whose timestamp is smaller (an
//! out-of-order or duplicate delivery from the platform layer), and hands
//! every other event on to the downstream collaborator. The mouse consumer
//! is currently a sink: it drains its channel and forwards nothing, but the
//! forwarding step is kept as an explicit decision point so a collaborator
//! can be attached without changing the channel contract.

use vstd::prelude::*;
use crate::channel::DispatchChannel;
use crate::event::KeyboardEvent;
use crate::event::MouseEvent;

verus! {

/// The events a keyboard consumer forwards downstream out of `events`,
/// in order, when its last accepted timestamp starts at `last`: an event
/// with `time < last` is dropped and leaves `last` unchanged; any other
/// event is forwarded and `last` becomes its own timestamp.
pub open spec fn forwarded_events(events: Seq<KeyboardEvent>, last: u32) -> Seq<
    KeyboardEvent,
>
    decreases events.len(),
{
    if events.len() == 0 {
        Seq::empty()
    } else if events[0].time < last {
        forwarded_events(events.drop_first(), last)
    } else {
        seq![events[0]] + forwarded_events(events.drop_first(), events[0].time)
    }
}

/// The keyboard consumer: drains the keyboard channel and filters stale
/// events by timestamp before forwarding.
pub struct KeyboardConsumer {
    last_time: u32,
}

impl KeyboardConsumer {
    /// The last accepted timestamp; events older than this are stale.
    pub closed spec fn last_time(self) -> u32 {
        self.last_time
    }

    /// A fresh consumer accepts every event: its tracked timestamp starts
    /// at zero, the smallest platform time value.
    pub fn new() -> (c: Self)
        ensures
            c.last_time() == 0,
    {
        KeyboardConsumer { last_time: 0 }
    }

    /// The staleness filter on one incoming event. A stale event (timestamp
    /// below the tracked value) is dropped and the tracked value stands; any
    /// other event is accepted and the tracked value becomes its timestamp.
    pub fn filter_event(&mut self, event: &KeyboardEvent) -> (accepted: bool)
        ensures
            accepted == (event.time >= old(self).last_time()),
            accepted ==> final(self).last_time() == event.time,
            !accepted ==> final(self).last_time() == old(self).last_time(),
    {
        if event.time < self.last_time {
            false
        } else {
            self.last_time = event.time;
            true
        }
    }

    /// Drain every event queued in the channel, in arrival order, and
    /// return those that pass the staleness filter, in the same order.
    /// (The running worker repeats this each time it wakes; emptiness of
    /// the channel stands for "nothing has arrived yet".)
    pub fn drain(
        &mut self,
        channel: &mut DispatchChannel<KeyboardEvent>,
    ) -> (forwarded: Vec<KeyboardEvent>)
        requires
            old(channel).wf(),
        ensures
            final(channel).wf(),
            final(channel).cap() == old(channel).cap(),
            final(channel).queued() == Seq::<KeyboardEvent>::empty(),
            forwarded@ == forwarded_events(
                old(channel).queued(),
                old(self).last_time(),
            ),
    {
        let mut forwarded: Vec<KeyboardEvent> = Vec::new();
        loop
            invariant
                channel.wf(),
                channel.cap() == old(channel).cap(),
                forwarded_events(old(channel).queued(), old(self).last_time())
                    == forwarded@ + forwarded_events(
                    channel.queued(),
                    self.last_time(),
                ),
            ensures
                channel.wf(),
                channel.cap() == old(channel).cap(),
                channel.queued().len() == 0,
                forwarded@ == forwarded_events(
                    old(channel).queued(),
                    old(self).last_time(),
                ),
            decreases channel.queued().len(),
        {
            let ghost pending = channel.queued();
            match channel.try_recv() {
                None => {
                    proof {
                        assert(forwarded@ + forwarded_events(
                            channel.queued(),
                            self.last_time(),
                        ) =~= forwarded@);
                    }
                    break;
                },
                Some(event) => {
                    let ghost mid = forwarded@;
                    if self.filter_event(&event) {
                        forwarded.push(event);
                        proof {
                            assert(mid + (seq![pending[0]] + forwarded_events(
                                pending.drop_first(),
                                pending[0].time,
                            )) =~= forwarded@ + forwarded_events(
                                channel.queued(),
                                self.last_time(),
                            ));
                        }
                    }
                },
            }
        }
        forwarded
    }
}

/// The mouse consumer: the current behavior forwards nothing — it drains
/// its channel and discards every event. `drain` is the pluggable
/// forwarding point for a future downstream collaborator.
pub struct MouseConsumer {}

impl MouseConsumer {
    pub fn new() -> (c: Self) {
        MouseConsumer {  }
    }

    /// Drain and discard every queued mouse event, returning how many were
    /// received.
    pub fn drain(
        &mut self,
        channel: &mut DispatchChannel<MouseEvent>,
    ) -> (received: usize)
        requires
            old(channel).wf(),
        ensures
            final(channel).wf(),
            final(channel).cap() == old(channel).cap(),
            final(channel).queued() == Seq::<MouseEvent>::empty(),
            received == old(channel).queued().len(),
    {
        let received = channel.len();
        loop
            invariant
                channel.wf(),
                channel.cap() == old(channel).cap(),
            ensures
                channel.wf(),
                channel.cap() == old(channel).cap(),
                channel.queued().len() == 0,
            decreases channel.queued().len(),
        {
            match channel.try_recv() {
                None => {
                    break;
                },
                Some(_) => {},
            }
        }
        received
    }
}

/// Ordering: a run of events whose timestamps never decrease, starting at
/// or above the consumer's last accepted time, is forwarded in full and in
/// its original order — the staleness filter drops nothing from it.
pub proof fn lemma_ordering(events: Seq<KeyboardEvent>, last: u32)
    requires
        forall|i: int, j: int|
            0 <= i <= j < events.len() ==> #[trigger] events[i].time
                <= #[trigger] events[j].time,
        events.len() > 0 ==> events[0].time >= last,
    ensures
        forwarded_events(events, last) == events,
    decreases events.len(),
{
    if events.len() == 0 {
        assert(forwarded_events(events, last) =~= events);
    } else {
        lemma_ordering(events.drop_first(), events[0].time);
        assert(seq![events[0]] + events.drop_first() =~= events);
    }
}

} // verus!
