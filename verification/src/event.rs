//! Normalized, platform-independent event model, and the classification of
//! raw platform message codes into event kinds.
//!
//! Events are pure values: they copy out of the raw platform structure only
//! the fields the pipeline needs, and never retain a reference to it.

use vstd::prelude::*;

verus! {

/// Platform message code for a mouse move.
pub const WM_MOUSEMOVE: u32 = 0x0200;
/// Platform message code for a vertical mouse wheel turn.
pub const WM_MOUSEWHEEL: u32 = 0x020A;
/// Platform message code for a horizontal mouse wheel turn.
pub const WM_MOUSEHWHEEL: u32 = 0x020E;
/// Platform message code for the left mouse button going down.
pub const WM_LBUTTONDOWN: u32 = 0x0201;
/// Platform message code for the left mouse button going up.
pub const WM_LBUTTONUP: u32 = 0x0202;
/// Platform message code for the right mouse button going down.
pub const WM_RBUTTONDOWN: u32 = 0x0204;
/// Platform message code for the right mouse button going up.
pub const WM_RBUTTONUP: u32 = 0x0205;
/// Platform message code for the middle mouse button going down.
pub const WM_MBUTTONDOWN: u32 = 0x0207;
/// Platform message code for the middle mouse button going up.
pub const WM_MBUTTONUP: u32 = 0x0208;
/// Platform message code for a key press.
pub const WM_KEYDOWN: u32 = 0x0100;
/// Platform message code for a key release.
pub const WM_KEYUP: u32 = 0x0101;

/// A normalized keyboard event: the platform virtual-key identifier and the
/// producer-assigned timestamp, in platform time units.
#[derive(Clone, Copy, Debug, PartialEq, Eq, Structural)]
pub struct KeyboardEvent {
    /// Platform virtual key identifier (opaque integer).
    pub code: u32,
    /// Producer-assigned timestamp; not guaranteed strictly increasing
    /// across the raw stream, so consumers filter stale values.
    pub time: u32,
}

/// The kind of a keyboard event the hook recognizes.
#[derive(Clone, Copy, Debug, PartialEq, Eq, Structural)]
pub enum KeyboardEventKind {
    KeyDown,
    KeyUp,
}

/// The kind of a mouse event the hook recognizes.
#[derive(Clone, Copy, Debug, PartialEq, Eq, Structural)]
pub enum MouseEventKind {
    Move,
    WheelVertical,
    WheelHorizontal,
    ButtonLeftDown,
    ButtonLeftUp,
    ButtonRightDown,
    ButtonRightUp,
    ButtonMiddleDown,
    ButtonMiddleUp,
}

/// A normalized mouse event: its kind and the cursor position at the time
/// of the event. The structure is reserved for future payload fields; the
/// hand-off contract does not change when fields are added.
#[derive(Clone, Copy, Debug, PartialEq, Eq, Structural)]
pub struct MouseEvent {
    pub kind: MouseEventKind,
    /// Cursor x position, signed platform screen coordinates.
    pub x: i32,
    /// Cursor y position, signed platform screen coordinates.
    pub y: i32,
}

/// What kind of mouse event a raw platform message code denotes, or `None`
/// for a subtype this hook does not recognize.
pub open spec fn mouse_kind_of(wparam: u32) -> Option<MouseEventKind> {
    if wparam == WM_MOUSEMOVE {
        Some(MouseEventKind::Move)
    } else if wparam == WM_MOUSEWHEEL {
        Some(MouseEventKind::WheelVertical)
    } else if wparam == WM_MOUSEHWHEEL {
        Some(MouseEventKind::WheelHorizontal)
    } else if wparam == WM_LBUTTONDOWN {
        Some(MouseEventKind::ButtonLeftDown)
    } else if wparam == WM_LBUTTONUP {
        Some(MouseEventKind::ButtonLeftUp)
    } else if wparam == WM_RBUTTONDOWN {
        Some(MouseEventKind::ButtonRightDown)
    } else if wparam == WM_RBUTTONUP {
        Some(MouseEventKind::ButtonRightUp)
    } else if wparam == WM_MBUTTONDOWN {
        Some(MouseEventKind::ButtonMiddleDown)
    } else if wparam == WM_MBUTTONUP {
        Some(MouseEventKind::ButtonMiddleUp)
    } else {
        None
    }
}

/// What kind of keyboard event a raw platform message code denotes, or
/// `None` for a subtype this hook does not recognize.
pub open spec fn keyboard_kind_of(wparam: u32) -> Option<KeyboardEventKind> {
    if wparam == WM_KEYDOWN {
        Some(KeyboardEventKind::KeyDown)
    } else if wparam == WM_KEYUP {
        Some(KeyboardEventKind::KeyUp)
    } else {
        None
    }
}

/// Classify a raw mouse message code into a recognized event kind.
pub fn classify_mouse_message(wparam: u32) -> (r: Option<MouseEventKind>)
    ensures
        r == mouse_kind_of(wparam),
{
    if wparam == WM_MOUSEMOVE {
        Some(MouseEventKind::Move)
    } else if wparam == WM_MOUSEWHEEL {
        Some(MouseEventKind::WheelVertical)
    } else if wparam == WM_MOUSEHWHEEL {
        Some(MouseEventKind::WheelHorizontal)
    } else if wparam == WM_LBUTTONDOWN {
        Some(MouseEventKind::ButtonLeftDown)
    } else if wparam == WM_LBUTTONUP {
        Some(MouseEventKind::ButtonLeftUp)
    } else if wparam == WM_RBUTTONDOWN {
        Some(MouseEventKind::ButtonRightDown)
    } else if wparam == WM_RBUTTONUP {
        Some(MouseEventKind::ButtonRightUp)
    } else if wparam == WM_MBUTTONDOWN {
        Some(MouseEventKind::ButtonMiddleDown)
    } else if wparam == WM_MBUTTONUP {
        Some(MouseEventKind::ButtonMiddleUp)
    } else {
        None
    }
}

/// Classify a raw keyboard message code into a recognized event kind.
pub fn classify_keyboard_message(wparam: u32) -> (r: Option<KeyboardEventKind>)
    ensures
        r == keyboard_kind_of(wparam),
{
    if wparam == WM_KEYDOWN {
        Some(KeyboardEventKind::KeyDown)
    } else if wparam == WM_KEYUP {
        Some(KeyboardEventKind::KeyUp)
    } else {
        None
    }
}

} // verus!
