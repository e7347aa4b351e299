use rkvm::callback::keyboard_handler;
use rkvm::callback::mouse_handler;
use rkvm::callback::native_keyboard_handler;
use rkvm::callback::native_mouse_handler;
use rkvm::callback::HookDecision;
use rkvm::callback::RawKeyboardData;
use rkvm::callback::RawMouseData;
use rkvm::channel::DispatchChannel;
use rkvm::channel::DEFAULT_CAPACITY;
use rkvm::consumer::KeyboardConsumer;
use rkvm::consumer::MouseConsumer;
use rkvm::event::KeyboardEvent;
use rkvm::event::MouseEventKind;
use rkvm::event::WM_KEYDOWN;
use rkvm::event::WM_KEYUP;
use rkvm::event::WM_MOUSEMOVE;

#[test]
fn channel_is_fifo() {
    let mut chan: DispatchChannel<u32> = DispatchChannel::new(DEFAULT_CAPACITY);
    assert!(chan.try_send(1));
    assert!(chan.try_send(2));
    assert!(chan.try_send(3));
    assert_eq!(chan.try_recv(), Some(1));
    assert_eq!(chan.try_recv(), Some(2));
    assert_eq!(chan.try_recv(), Some(3));
    assert_eq!(chan.try_recv(), None);
}

#[test]
fn backpressure_drops_overflow_send() {
    // Capacity C; the first C sends succeed, the (C+1)-th fails and the
    // consumer sees exactly C events.
    let capacity: usize = 10;
    let mut chan: DispatchChannel<u32> = DispatchChannel::new(capacity);
    for i in 0..capacity as u32 {
        assert!(chan.try_send(i));
    }
    assert!(!chan.try_send(999));
    let mut seen = 0;
    while let Some(v) = chan.try_recv() {
        assert_eq!(v, seen);
        seen += 1;
    }
    assert_eq!(seen, capacity as u32);
}

#[test]
fn zero_capacity_channel_refuses_everything() {
    let mut chan: DispatchChannel<u32> = DispatchChannel::new(0);
    assert!(!chan.try_send(1));
    assert_eq!(chan.try_recv(), None);
}

#[test]
fn try_send_all_reports_accepted_count() {
    let mut chan: DispatchChannel<u32> = DispatchChannel::new(2);
    let accepted = chan.try_send_all(vec![7, 8, 9]);
    assert_eq!(accepted, 2);
    assert_eq!(chan.try_recv(), Some(7));
    assert_eq!(chan.try_recv(), Some(8));
    assert_eq!(chan.try_recv(), None);
}

#[test]
fn staleness_filter_drops_old_event_and_keeps_time() {
    let mut consumer = KeyboardConsumer::new();
    assert!(consumer.filter_event(&KeyboardEvent { code: 30, time: 100 }));
    // Older than the accepted time: dropped, tracked time unchanged.
    assert!(!consumer.filter_event(&KeyboardEvent { code: 31, time: 99 }));
    // Equal to the accepted time: forwarded.
    assert!(consumer.filter_event(&KeyboardEvent { code: 32, time: 100 }));
    // Newer: forwarded.
    assert!(consumer.filter_event(&KeyboardEvent { code: 33, time: 101 }));
}

#[test]
fn ordered_events_are_all_forwarded_in_order() {
    // Strictly increasing timestamps: the consumer forwards every event,
    // in the order the channel delivered them.
    let mut chan: DispatchChannel<KeyboardEvent> = DispatchChannel::new(10);
    let mut consumer = KeyboardConsumer::new();
    for (code, time) in [(10u32, 1u32), (11, 2), (12, 3), (13, 4)] {
        assert!(chan.try_send(KeyboardEvent { code, time }));
    }
    let forwarded = consumer.drain(&mut chan);
    let codes: Vec<u32> = forwarded.iter().map(|e| e.code).collect();
    assert_eq!(codes, vec![10, 11, 12, 13]);
}

#[test]
fn drain_filters_stale_events() {
    let mut chan: DispatchChannel<KeyboardEvent> = DispatchChannel::new(10);
    let mut consumer = KeyboardConsumer::new();
    for (code, time) in [(1u32, 5u32), (2, 3), (3, 5), (4, 9), (5, 8)] {
        assert!(chan.try_send(KeyboardEvent { code, time }));
    }
    let forwarded = consumer.drain(&mut chan);
    let codes: Vec<u32> = forwarded.iter().map(|e| e.code).collect();
    // The events with times 3 and 8 arrive after later times were accepted.
    assert_eq!(codes, vec![1, 3, 4]);
    // The channel is fully drained.
    assert_eq!(chan.try_recv(), None);
}

#[test]
fn mouse_consumer_is_a_sink() {
    let mut chan: DispatchChannel<rkvm::event::MouseEvent> = DispatchChannel::new(10);
    let raw = RawMouseData { x: 4, y: -2 };
    assert!(!mouse_handler(WM_MOUSEMOVE, raw, &mut chan));
    let mut consumer = MouseConsumer::new();
    let received = consumer.drain(&mut chan);
    assert_eq!(received, 1);
    assert_eq!(chan.try_recv(), None);
}

#[test]
fn keyboard_handler_enqueues_normalized_event() {
    let mut chan: DispatchChannel<KeyboardEvent> = DispatchChannel::new(10);
    let eat = keyboard_handler(
        WM_KEYDOWN,
        RawKeyboardData { vk_code: 65, time: 12 },
        &mut chan,
    );
    assert!(!eat);
    assert_eq!(chan.try_recv(), Some(KeyboardEvent { code: 65, time: 12 }));
}

#[test]
fn keyboard_handler_ignores_unrecognized_subtype() {
    let mut chan: DispatchChannel<KeyboardEvent> = DispatchChannel::new(10);
    let eat = keyboard_handler(
        0x0104,
        RawKeyboardData { vk_code: 65, time: 12 },
        &mut chan,
    );
    assert!(!eat);
    assert_eq!(chan.try_recv(), None);
}

#[test]
fn mouse_handler_enqueues_position() {
    let mut chan: DispatchChannel<rkvm::event::MouseEvent> = DispatchChannel::new(10);
    let eat = mouse_handler(WM_MOUSEMOVE, RawMouseData { x: -7, y: 19 }, &mut chan);
    assert!(!eat);
    let event = chan.try_recv().unwrap();
    assert_eq!(event.kind, MouseEventKind::Move);
    assert_eq!(event.x, -7);
    assert_eq!(event.y, 19);
}

#[test]
fn negative_prefilter_code_forwards_without_decoding() {
    let mut chan: DispatchChannel<KeyboardEvent> = DispatchChannel::new(10);
    let decision = native_keyboard_handler(
        -1,
        WM_KEYDOWN,
        Some(RawKeyboardData { vk_code: 65, time: 12 }),
        &mut chan,
    );
    assert_eq!(decision, HookDecision::Forward);
    assert_eq!(chan.try_recv(), None);
}

#[test]
fn malformed_pointer_forwards_without_enqueue() {
    let mut chan: DispatchChannel<KeyboardEvent> = DispatchChannel::new(10);
    let decision = native_keyboard_handler(0, WM_KEYDOWN, None, &mut chan);
    assert_eq!(decision, HookDecision::Forward);
    assert_eq!(chan.try_recv(), None);

    let mut mouse_chan: DispatchChannel<rkvm::event::MouseEvent> =
        DispatchChannel::new(10);
    let decision = native_mouse_handler(0, WM_MOUSEMOVE, None, &mut mouse_chan);
    assert_eq!(decision, HookDecision::Forward);
    assert_eq!(mouse_chan.try_recv(), None);
}

#[test]
fn valid_keyboard_event_is_forwarded_to_next_hook() {
    // The current eat policy never suppresses: the decision is always
    // to forward, and the event is still enqueued for the consumer.
    let mut chan: DispatchChannel<KeyboardEvent> = DispatchChannel::new(10);
    let decision = native_keyboard_handler(
        0,
        WM_KEYUP,
        Some(RawKeyboardData { vk_code: 65, time: 12 }),
        &mut chan,
    );
    assert_eq!(decision, HookDecision::Forward);
    assert_eq!(chan.try_recv(), Some(KeyboardEvent { code: 65, time: 12 }));
}

#[test]
fn callback_to_consumer_preserves_order_end_to_end() {
    // N deliveries in timestamp order reach the callback; the consumer
    // forwards exactly N normalized events in the same relative order.
    let mut chan: DispatchChannel<KeyboardEvent> = DispatchChannel::new(DEFAULT_CAPACITY);
    let mut consumer = KeyboardConsumer::new();
    for (vk_code, time) in [(65u32, 10u32), (66, 11), (67, 12), (68, 13)] {
        let decision = native_keyboard_handler(
            0,
            WM_KEYDOWN,
            Some(RawKeyboardData { vk_code, time }),
            &mut chan,
        );
        assert_eq!(decision, HookDecision::Forward);
    }
    let forwarded = consumer.drain(&mut chan);
    assert_eq!(
        forwarded,
        vec![
            KeyboardEvent { code: 65, time: 10 },
            KeyboardEvent { code: 66, time: 11 },
            KeyboardEvent { code: 67, time: 12 },
            KeyboardEvent { code: 68, time: 13 },
        ]
    );
}

#[test]
fn full_channel_drops_event_but_still_forwards() {
    let mut chan: DispatchChannel<KeyboardEvent> = DispatchChannel::new(1);
    assert!(chan.try_send(KeyboardEvent { code: 1, time: 1 }));
    let decision = native_keyboard_handler(
        0,
        WM_KEYDOWN,
        Some(RawKeyboardData { vk_code: 2, time: 2 }),
        &mut chan,
    );
    assert_eq!(decision, HookDecision::Forward);
    // Only the first event is visible; the overflow event was lost.
    assert_eq!(chan.try_recv(), Some(KeyboardEvent { code: 1, time: 1 }));
    assert_eq!(chan.try_recv(), None);
}
