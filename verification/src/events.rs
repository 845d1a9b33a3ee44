//! The event model: what the adapter hands to application code, the fields
//! it reads from a native mouse-event record, and the exact translation of
//! native codes into events.

use vstd::prelude::*;

verus! {

/// Whether a pointer button was pressed or released.
#[derive(Clone, Copy, PartialEq, Eq, Structural, Debug)]
pub enum ElementState {
    /// The button went down.
    Pressed,
    /// The button went up.
    Released,
}

/// A pointer button, identified by its native button code.
#[derive(Clone, Copy, PartialEq, Eq, Structural, Debug)]
pub enum MouseButton {
    /// The primary button (native code 0).
    Left,
    /// The middle button (native code 1).
    Middle,
    /// The secondary button (native code 2).
    Right,
    /// Any other code, preserved exactly.
    Other(u16),
}

/// One user-input or window notification, as the consumer sees it.
#[derive(Clone, Copy, PartialEq, Eq, Structural, Debug)]
pub enum Event {
    /// The pointer moved to these absolute coordinates.
    MouseMoved(i32, i32),
    /// A pointer button changed state.
    MouseInput(ElementState, MouseButton),
    /// The window was closed.
    Closed,
}

/// Native notification kind: a pointer button went down.
pub const NOTIFY_MOUSE_DOWN: i32 = 5;

/// Native notification kind: a pointer button went up.
pub const NOTIFY_MOUSE_UP: i32 = 6;

/// Native notification kind: the pointer moved.
pub const NOTIFY_MOUSE_MOVE: i32 = 8;

/// The fields of a native mouse-event record that the adapter reads.
#[derive(Clone, Copy, PartialEq, Eq, Structural, Debug)]
pub struct MouseEvent {
    /// Absolute x coordinate, in pixels.
    pub client_x: i32,
    /// Absolute y coordinate, in pixels.
    pub client_y: i32,
    /// The native button code.
    pub button: u16,
}

/// The button that a native button code stands for: 0, 1 and 2 name the
/// primary, middle and secondary buttons; every other code is kept as it is.
pub open spec fn spec_button_of_code(code: u16) -> MouseButton {
    if code == 0 {
        MouseButton::Left
    } else if code == 1 {
        MouseButton::Middle
    } else if code == 2 {
        MouseButton::Right
    } else {
        MouseButton::Other(code)
    }
}

/// Translates a native button code, preserving unrecognized codes exactly.
pub fn button_of_code(code: u16) -> (b: MouseButton)
    ensures
        b == spec_button_of_code(code),
{
    match code {
        0 => MouseButton::Left,
        1 => MouseButton::Middle,
        2 => MouseButton::Right,
        other => MouseButton::Other(other),
    }
}

/// Whether the adapter handles this native notification kind.
pub open spec fn is_recognized(kind: i32) -> bool {
    kind == NOTIFY_MOUSE_MOVE || kind == NOTIFY_MOUSE_DOWN || kind == NOTIFY_MOUSE_UP
}

/// The queue entries that one native notification contributes: exactly one
/// event for a recognized kind, none for any other kind.
pub open spec fn events_of_notification(kind: i32, ev: MouseEvent) -> Seq<Event> {
    if kind == NOTIFY_MOUSE_MOVE {
        seq![Event::MouseMoved(ev.client_x, ev.client_y)]
    } else if kind == NOTIFY_MOUSE_DOWN {
        seq![Event::MouseInput(ElementState::Pressed, spec_button_of_code(ev.button))]
    } else if kind == NOTIFY_MOUSE_UP {
        seq![Event::MouseInput(ElementState::Released, spec_button_of_code(ev.button))]
    } else {
        Seq::empty()
    }
}

/// No loss, no duplication, no error: a recognized notification contributes
/// exactly one queue entry, and an unrecognized one contributes none.
pub proof fn lemma_translation_cardinality(kind: i32, ev: MouseEvent)
    ensures
        is_recognized(kind) ==> events_of_notification(kind, ev).len() == 1,
        !is_recognized(kind) ==> events_of_notification(kind, ev) =~= Seq::<Event>::empty(),
{
}

} // verus!
