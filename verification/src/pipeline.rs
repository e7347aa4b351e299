//! End-to-end guarantees of the hand-off pipeline: what the consumer
//! forwards, as a function of the raw deliveries the hook callback saw.

use vstd::prelude::*;
use crate::callback::RawKeyboardData;
use crate::callback::keyboard_queue_after;
use crate::consumer::forwarded_events;
use crate::event::KeyboardEvent;
use crate::event::keyboard_kind_of;

verus! {

/// The normalized event a recognized keyboard delivery turns into. A
/// delivery is the pair the callback received: the message code and the
/// raw data copied out of the platform structure.
pub open spec fn delivered_event(delivery: (u32, RawKeyboardData)) -> KeyboardEvent {
    KeyboardEvent { code: delivery.1.vk_code, time: delivery.1.time }
}

/// The keyboard channel contents after the callback has handled each of
/// `deliveries` in order, with no consumer draining in between.
pub open spec fn queue_after_deliveries(
    q: Seq<KeyboardEvent>,
    cap: nat,
    deliveries: Seq<(u32, RawKeyboardData)>,
) -> Seq<KeyboardEvent>
    decreases deliveries.len(),
{
    if deliveries.len() == 0 {
        q
    } else {
        queue_after_deliveries(
            keyboard_queue_after(q, cap, deliveries[0].0, deliveries[0].1),
            cap,
            deliveries.drop_first(),
        )
    }
}

/// While the channel has room, recognized deliveries are queued one for
/// one, in order, after whatever was already queued.
proof fn lemma_deliveries_fill(
    q: Seq<KeyboardEvent>,
    cap: nat,
    deliveries: Seq<(u32, RawKeyboardData)>,
)
    requires
        q.len() + deliveries.len() <= cap,
        forall|i: int|
            0 <= i < deliveries.len() ==> keyboard_kind_of(
                #[trigger] deliveries[i].0,
            ) is Some,
    ensures
        queue_after_deliveries(q, cap, deliveries) == q + deliveries.map_values(
            |d: (u32, RawKeyboardData)| delivered_event(d),
        ),
    decreases deliveries.len(),
{
    let to_event = |d: (u32, RawKeyboardData)| delivered_event(d);
    if deliveries.len() == 0 {
        assert(q + deliveries.map_values(to_event) =~= q);
    } else {
        let first = delivered_event(deliveries[0]);
        lemma_deliveries_fill(q.push(first), cap, deliveries.drop_first());
        assert(q.push(first) + deliveries.drop_first().map_values(to_event) =~= q
            + deliveries.map_values(to_event));
    }
}

/// Ordering, end to end: when N keyboard deliveries reach the callback in
/// timestamp order, all recognized, all at or after the consumer's last
/// accepted time, and the channel has room for them, the consumer forwards
/// exactly those N events, normalized, in the same relative order.
pub proof fn lemma_pipeline_ordering(
    cap: nat,
    deliveries: Seq<(u32, RawKeyboardData)>,
    last: u32,
)
    requires
        deliveries.len() <= cap,
        forall|i: int|
            0 <= i < deliveries.len() ==> keyboard_kind_of(
                #[trigger] deliveries[i].0,
            ) is Some,
        forall|i: int, j: int|
            0 <= i <= j < deliveries.len() ==> #[trigger] deliveries[i].1.time
                <= #[trigger] deliveries[j].1.time,
        deliveries.len() > 0 ==> deliveries[0].1.time >= last,
    ensures
        forwarded_events(
            queue_after_deliveries(Seq::empty(), cap, deliveries),
            last,
        ) == deliveries.map_values(|d: (u32, RawKeyboardData)| delivered_event(d)),
{
    let to_event = |d: (u32, RawKeyboardData)| delivered_event(d);
    let events = deliveries.map_values(to_event);
    lemma_deliveries_fill(Seq::empty(), cap, deliveries);
    assert(Seq::empty() + events =~= events);
    assert forall|i: int, j: int| 0 <= i <= j < events.len() implies #[trigger] events[
        i
    ].time <= #[trigger] events[j].time by {
        assert(events[i] == to_event(deliveries[i]));
        assert(events[j] == to_event(deliveries[j]));
    }
    crate::consumer::lemma_ordering(events, last);
}

} // verus!
