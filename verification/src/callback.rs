//! The hook callback adapter: the decision logic that runs, once per input
//! event, inside the restricted hook-invocation context.
//!
//! The platform hands the callback a pre-filter code, a message code and a
//! raw pointer. The unsafe boundary validates the pointer and copies the
//! needed fields into an owned raw-data value before this module is
//! reached; an unreadable pointer becomes `None`. Everything after that
//! validation is decided here: pre-filter, classification, the non-blocking
//! enqueue, and the eat/forward decision. Nothing here blocks, and nothing
//! here can panic.

use vstd::prelude::*;
use crate::channel::DispatchChannel;
use crate::event::KeyboardEvent;
use crate::event::MouseEvent;
use crate::event::keyboard_kind_of;
use crate::event::mouse_kind_of;
use crate::event::classify_keyboard_message;
use crate::event::classify_mouse_message;

verus! {

/// The binary decision a hook callback returns to the platform.
#[derive(Clone, Copy, Debug, PartialEq, Eq, Structural)]
pub enum HookDecision {
    /// Consume the event: suppress its propagation to other applications.
    Eat,
    /// Forward the event: call the platform's pass-to-next-hook primitive
    /// and propagate that primitive's own return value unchanged.
    Forward,
}

/// The keyboard fields copied out of the raw platform structure while its
/// memory is still valid. Built at the unsafe boundary, never by reference.
#[derive(Clone, Copy, Debug, PartialEq, Eq, Structural)]
pub struct RawKeyboardData {
    /// Platform virtual key identifier.
    pub vk_code: u32,
    /// Producer-assigned timestamp of the event.
    pub time: u32,
}

/// The mouse fields copied out of the raw platform structure while its
/// memory is still valid. Built at the unsafe boundary, never by reference.
#[derive(Clone, Copy, Debug, PartialEq, Eq, Structural)]
pub struct RawMouseData {
    /// Cursor x position.
    pub x: i32,
    /// Cursor y position.
    pub y: i32,
}

/// The keyboard channel contents after the handler has seen message code
/// `wparam` with raw data `raw`: a recognized subtype enqueues the
/// normalized event when there is room and loses it when the channel is
/// full; an unrecognized subtype enqueues nothing.
pub open spec fn keyboard_queue_after(
    q: Seq<KeyboardEvent>,
    cap: nat,
    wparam: u32,
    raw: RawKeyboardData,
) -> Seq<KeyboardEvent> {
    match keyboard_kind_of(wparam) {
        Some(_) => {
            let event = KeyboardEvent { code: raw.vk_code, time: raw.time };
            if q.len() < cap {
                q.push(event)
            } else {
                q
            }
        },
        None => q,
    }
}

/// The mouse channel contents after the handler has seen message code
/// `wparam` with raw data `raw`; as for the keyboard, but the normalized
/// event carries the recognized kind and the cursor position.
pub open spec fn mouse_queue_after(
    q: Seq<MouseEvent>,
    cap: nat,
    wparam: u32,
    raw: RawMouseData,
) -> Seq<MouseEvent> {
    match mouse_kind_of(wparam) {
        Some(kind) => {
            let event = MouseEvent { kind, x: raw.x, y: raw.y };
            if q.len() < cap {
                q.push(event)
            } else {
                q
            }
        },
        None => q,
    }
}

/// The eat policy for keyboard events: the current policy never
/// suppresses. This is the one decision point a future remapping policy
/// would change.
pub fn should_eat_keyboard(event: &KeyboardEvent) -> (eat: bool)
    ensures
        !eat,
{
    false
}

/// The eat policy for mouse events: the current policy never
/// suppresses. This is the one decision point a future remapping policy
/// would change.
pub fn should_eat_mouse(event: &MouseEvent) -> (eat: bool)
    ensures
        !eat,
{
    false
}

/// Handle one qualifying keyboard event: classify the message code,
/// construct the normalized event, attempt the non-blocking enqueue, and
/// report whether the event should be eaten.
pub fn keyboard_handler(
    wparam: u32,
    raw: RawKeyboardData,
    channel: &mut DispatchChannel<KeyboardEvent>,
) -> (eat: bool)
    requires
        old(channel).wf(),
    ensures
        final(channel).wf(),
        final(channel).cap() == old(channel).cap(),
        final(channel).queued() == keyboard_queue_after(
            old(channel).queued(),
            old(channel).cap(),
            wparam,
            raw,
        ),
        !eat,
{
    match classify_keyboard_message(wparam) {
        Some(_) => {
            let event = KeyboardEvent { code: raw.vk_code, time: raw.time };
            channel.try_send(event);
            should_eat_keyboard(&event)
        },
        None => false,
    }
}

/// Handle one qualifying mouse event: classify the message code, construct
/// the normalized event, attempt the non-blocking enqueue, and report
/// whether the event should be eaten.
pub fn mouse_handler(
    wparam: u32,
    raw: RawMouseData,
    channel: &mut DispatchChannel<MouseEvent>,
) -> (eat: bool)
    requires
        old(channel).wf(),
    ensures
        final(channel).wf(),
        final(channel).cap() == old(channel).cap(),
        final(channel).queued() == mouse_queue_after(
            old(channel).queued(),
            old(channel).cap(),
            wparam,
            raw,
        ),
        !eat,
{
    match classify_mouse_message(wparam) {
        Some(kind) => {
            let event = MouseEvent { kind, x: raw.x, y: raw.y };
            channel.try_send(event);
            should_eat_mouse(&event)
        },
        None => false,
    }
}

/// The full keyboard callback decision, from the values the platform hands
/// the hook: the pre-filter code, the message code, and the raw data (or
/// `None` for a null or unreadable pointer). A negative pre-filter code or
/// a missing pointer forwards immediately with no channel interaction;
/// otherwise the event is handled and the eat policy decides.
pub fn native_keyboard_handler(
    code: i32,
    wparam: u32,
    raw: Option<RawKeyboardData>,
    channel: &mut DispatchChannel<KeyboardEvent>,
) -> (decision: HookDecision)
    requires
        old(channel).wf(),
    ensures
        final(channel).wf(),
        final(channel).cap() == old(channel).cap(),
        code < 0 ==> decision == HookDecision::Forward && final(channel).queued()
            == old(channel).queued(),
        code >= 0 && raw is None ==> decision == HookDecision::Forward
            && final(channel).queued() == old(channel).queued(),
        code >= 0 && raw is Some ==> final(channel).queued()
            == keyboard_queue_after(
            old(channel).queued(),
            old(channel).cap(),
            wparam,
            raw->0,
        ) && decision == HookDecision::Forward,
{
    if code < 0 {
        return HookDecision::Forward;
    }
    match raw {
        None => HookDecision::Forward,
        Some(data) => {
            if keyboard_handler(wparam, data, channel) {
                HookDecision::Eat
            } else {
                HookDecision::Forward
            }
        },
    }
}

/// The full mouse callback decision, from the values the platform hands
/// the hook; as for the keyboard callback.
pub fn native_mouse_handler(
    code: i32,
    wparam: u32,
    raw: Option<RawMouseData>,
    channel: &mut DispatchChannel<MouseEvent>,
) -> (decision: HookDecision)
    requires
        old(channel).wf(),
    ensures
        final(channel).wf(),
        final(channel).cap() == old(channel).cap(),
        code < 0 ==> decision == HookDecision::Forward && final(channel).queued()
            == old(channel).queued(),
        code >= 0 && raw is None ==> decision == HookDecision::Forward
            && final(channel).queued() == old(channel).queued(),
        code >= 0 && raw is Some ==> final(channel).queued() == mouse_queue_after(
            old(channel).queued(),
            old(channel).cap(),
            wparam,
            raw->0,
        ) && decision == HookDecision::Forward,
{
    if code < 0 {
        return HookDecision::Forward;
    }
    match raw {
        None => HookDecision::Forward,
        Some(data) => {
            if mouse_handler(wparam, data, channel) {
                HookDecision::Eat
            } else {
                HookDecision::Forward
            }
        },
    }
}

} // verus!
