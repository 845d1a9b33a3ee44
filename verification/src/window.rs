//! The window: owner of the event queue and of the native context handle.
//! Construction decides success from the handle that native context creation
//! returned; the callback path translates and appends notifications; the
//! poll step drains the queue one head event at a time, without blocking,
//! and the wait step decides when the host must run instead. The native calls
//! themselves (context creation, canvas sizing, teardown) are issued by the
//! embedding shell, which hands their results in as plain values.

use vstd::prelude::*;
use vstd::string::StringExecFns;
use crate::errors::error_message;
use crate::errors::error_to_str;
use crate::errors::Api;
use crate::errors::ContextError;
use crate::errors::CreationError;
use crate::events::button_of_code;
use crate::events::events_of_notification;
use crate::events::ElementState;
use crate::events::Event;
use crate::events::MouseEvent;
use crate::events::NOTIFY_MOUSE_DOWN;
use crate::events::NOTIFY_MOUSE_MOVE;
use crate::events::NOTIFY_MOUSE_UP;
use crate::laws::delivered;
use crate::laws::poll_step_rest;
use crate::laws::poll_step_yield;
use crate::queue::EventQueue;

verus! {

/// The cursor appearance a caller may request. The embedding environment
/// does not support changing it, so requests are accepted and ignored.
#[derive(Clone, Copy, PartialEq, Eq, Structural, Debug)]
pub enum MouseCursor {
    /// The platform-dependent default cursor.
    Default,
    /// A crosshair.
    Crosshair,
    /// A pointing hand.
    Hand,
    /// An arrow.
    Arrow,
    /// A move indicator.
    Move,
    /// A text caret.
    Text,
    /// A busy indicator.
    Wait,
    /// A help indicator.
    Help,
    /// A progress indicator.
    Progress,
    /// A not-allowed indicator.
    NotAllowed,
    /// A context-menu indicator.
    ContextMenu,
    /// No cursor at all.
    NoneCursor,
    /// A cell-selection cursor.
    Cell,
    /// A vertical text caret.
    VerticalText,
    /// An alias indicator.
    Alias,
    /// A copy indicator.
    Copy,
    /// A no-drop indicator.
    NoDrop,
    /// An open-hand grab cursor.
    Grab,
    /// A closed-hand grabbing cursor.
    Grabbing,
    /// An all-directions scroll cursor.
    AllScroll,
    /// A zoom-in cursor.
    ZoomIn,
    /// A zoom-out cursor.
    ZoomOut,
    /// An east-edge resize cursor.
    EResize,
    /// A north-edge resize cursor.
    NResize,
    /// A north-east resize cursor.
    NeResize,
    /// A north-west resize cursor.
    NwResize,
    /// A south-edge resize cursor.
    SResize,
    /// A south-east resize cursor.
    SeResize,
    /// A south-west resize cursor.
    SwResize,
    /// A west-edge resize cursor.
    WResize,
    /// An east-west resize cursor.
    EwResize,
    /// A north-south resize cursor.
    NsResize,
    /// A north-east/south-west resize cursor.
    NeswResize,
    /// A north-west/south-east resize cursor.
    NwseResize,
    /// A column resize cursor.
    ColResize,
    /// A row resize cursor.
    RowResize,
}

/// The grab or visibility state a caller may request for the cursor. The
/// embedding environment does not support it, so requests succeed and are
/// ignored.
#[derive(Clone, Copy, PartialEq, Eq, Structural, Debug)]
pub enum CursorState {
    /// The cursor behaves normally.
    Normal,
    /// The cursor is hidden while over the window.
    Hide,
    /// The cursor is grabbed by the window.
    Grab,
}

/// One native mouse notification arrives: translate it and append at most
/// one event at the tail of the queue. Recognized kinds contribute exactly
/// one event; any other kind leaves the queue untouched. The returned status
/// is handed back to the native dispatcher and is always success, since this
/// adapter suppresses no default handling.
pub fn mouse_callback(queue: &mut EventQueue, event_type: i32, event: &MouseEvent) -> (handled: bool)
    ensures
        final(queue)@ == delivered(old(queue)@, event_type, *event),
        handled,
{
    if event_type == NOTIFY_MOUSE_MOVE {
        let e = Event::MouseMoved(event.client_x, event.client_y);
        queue.push_back(e);
        proof {
            assert(old(queue)@.push(e) =~= old(queue)@ + events_of_notification(
                event_type,
                *event,
            ));
        }
    } else if event_type == NOTIFY_MOUSE_DOWN {
        let e = Event::MouseInput(ElementState::Pressed, button_of_code(event.button));
        queue.push_back(e);
        proof {
            assert(old(queue)@.push(e) =~= old(queue)@ + events_of_notification(
                event_type,
                *event,
            ));
        }
    } else if event_type == NOTIFY_MOUSE_UP {
        let e = Event::MouseInput(ElementState::Released, button_of_code(event.button));
        queue.push_back(e);
        proof {
            assert(old(queue)@.push(e) =~= old(queue)@ + events_of_notification(
                event_type,
                *event,
            ));
        }
    } else {
        // an unrecognized kind appends nothing, deliberately
        proof {
            assert(old(queue)@ + events_of_notification(event_type, *event) =~= old(queue)@);
        }
    }
    true
}

/// A window with a GL-capable surface: owns the event queue, the native
/// context handle, and the record of whether its callbacks are still
/// registered with the native layer.
pub struct Window {
    context: i32,
    events: EventQueue,
    registered: bool,
}

impl View for Window {
    type V = Seq<Event>;

    /// The pending events, head first.
    closed spec fn view(&self) -> Seq<Event> {
        self.events@
    }
}

/// The message carried by the error that construction returns when native
/// context creation hands back the non-positive value `context`, which is
/// the native failure code.
pub open spec fn creation_error_message(context: i32) -> Seq<char> {
    "Error while calling emscripten_webgl_create_context: "@ + error_message(context)
}

impl Window {
    /// The native GL-context handle.
    pub closed spec fn spec_context(&self) -> i32 {
        self.context
    }

    /// Whether the native callback registration is still active.
    pub closed spec fn spec_registered(&self) -> bool {
        self.registered
    }

    /// A well-formed window holds a valid (positive) context handle.
    pub closed spec fn wf(&self) -> bool {
        self.context > 0
    }

    /// Decides construction from the handle that native context creation
    /// returned. A positive handle yields a window that owns it, with an
    /// empty queue and its callbacks registered; a non-positive handle is
    /// the native failure code, translated through the fixed message table.
    pub fn new(context: i32) -> (r: Result<Window, CreationError>)
        ensures
            context > 0 <==> r is Ok,
            r matches Ok(w) ==> {
                &&& w.spec_context() == context
                &&& w@ =~= Seq::<Event>::empty()
                &&& w.spec_registered()
                &&& w.wf()
            },
            r matches Err(e) ==> e.message_view() == creation_error_message(context),
    {
        if context <= 0 {
            let mut msg = "Error while calling emscripten_webgl_create_context: ".to_owned();
            msg.append(error_to_str(context));
            Err(CreationError::OsError(msg))
        } else {
            Ok(Window { context, events: EventQueue::new(), registered: true })
        }
    }

    /// The native GL-context handle, for the shell's context calls.
    pub fn context(&self) -> (h: i32)
        ensures
            h == self.spec_context(),
    {
        self.context
    }

    /// Whether the native callback registration is still active.
    pub fn is_registered(&self) -> (b: bool)
        ensures
            b == self.spec_registered(),
    {
        self.registered
    }

    /// The callback entry at window level: translates one native mouse
    /// notification into the owned queue. Everything else about the window
    /// is untouched.
    pub fn on_mouse_notification(&mut self, event_type: i32, event: &MouseEvent) -> (handled: bool)
        ensures
            final(self)@ == delivered(old(self)@, event_type, *event),
            final(self).spec_context() == old(self).spec_context(),
            final(self).spec_registered() == old(self).spec_registered(),
            final(self).wf() == old(self).wf(),
            handled,
    {
        mouse_callback(&mut self.events, event_type, event)
    }

    /// One step of the poll-mode drain: removes and yields the head event,
    /// or yields nothing on an empty queue, which it leaves as it is. Never
    /// blocks, and removes an event only when it is yielded, so a drain
    /// abandoned midway loses nothing. The shell's poll iterator calls this
    /// until it yields nothing.
    pub fn poll_next(&mut self) -> (e: Option<Event>)
        ensures
            e == poll_step_yield(old(self)@),
            final(self)@ == poll_step_rest(old(self)@),
            final(self).spec_context() == old(self).spec_context(),
            final(self).spec_registered() == old(self).spec_registered(),
            final(self).wf() == old(self).wf(),
    {
        self.events.pop_front()
    }

    /// One step of the wait-mode drain: yields the head event exactly as a
    /// poll step does while one is pending — events already pending at wait
    /// entry are yielded first — and otherwise decides that the caller must
    /// wait. The window cannot suspend the calling thread itself; the shell
    /// lets the host run until new notifications arrive, then asks again.
    pub fn wait_step(&mut self) -> (d: WaitDecision)
        ensures
            old(self)@.len() == 0 <==> d == WaitDecision::MustWait,
            old(self)@.len() == 0 ==> final(self)@ == old(self)@,
            old(self)@.len() > 0 ==> {
                &&& d == WaitDecision::Ready(old(self)@[0])
                &&& final(self)@ == poll_step_rest(old(self)@)
            },
            final(self).spec_context() == old(self).spec_context(),
            final(self).spec_registered() == old(self).spec_registered(),
            final(self).wf() == old(self).wf(),
    {
        match self.events.pop_front() {
            Some(e) => WaitDecision::Ready(e),
            None => WaitDecision::MustWait,
        }
    }

    /// Ends the native callback registration. The shell calls this, and then
    /// unhooks the native callbacks, before the window and its queue are
    /// destroyed, so that no callback can reach a dead queue.
    pub fn deregister(&mut self)
        ensures
            !final(self).spec_registered(),
            final(self)@ == old(self)@,
            final(self).spec_context() == old(self).spec_context(),
            final(self).wf() == old(self).wf(),
    {
        self.registered = false;
    }

    /// The embedding environment has no window title; the request is
    /// accepted and ignored.
    pub fn set_title(&self, _title: &str) {
    }

    /// The canvas always reports the origin as its position.
    pub fn get_position(&self) -> (p: Option<(i32, i32)>)
        ensures
            p == Some((0i32, 0i32)),
    {
        Some((0, 0))
    }

    /// The canvas cannot be moved; the request is accepted and ignored.
    pub fn set_position(&self, _x: i32, _y: i32) {
    }

    /// The canvas is always shown; the request is accepted and ignored.
    pub fn show(&self) {
    }

    /// The canvas cannot be hidden; the request is accepted and ignored.
    pub fn hide_window(&self) {
    }

    /// The embedding environment draws its own cursor; the request is
    /// accepted and ignored.
    pub fn set_cursor(&self, _cursor: MouseCursor) {
    }

    /// Cursor grab and visibility are not under this backend's control; the
    /// request always reports success.
    pub fn set_cursor_state(&self, _state: CursorState) -> (r: Result<(), String>)
        ensures
            r is Ok,
    {
        Ok(())
    }

    /// The cursor cannot be warped; the request always reports success.
    pub fn set_cursor_position(&self, _x: i32, _y: i32) -> (r: Result<(), ()>)
        ensures
            r is Ok,
    {
        Ok(())
    }

    /// This backend creates WebGL contexts only.
    pub fn get_api(&self) -> (a: Api)
        ensures
            a == Api::WebGl,
    {
        Api::WebGl
    }

    /// The one context of the canvas is taken to be current at all times.
    pub fn is_current(&self) -> (b: bool)
        ensures
            b,
    {
        true
    }

    /// The embedding environment swaps buffers itself at the end of each
    /// host event-processing step, so the request always reports success.
    pub fn swap_buffers(&self) -> (r: Result<(), ContextError>)
        ensures
            r is Ok,
    {
        Ok(())
    }
}

/// What one wait-mode step decides: either the head event is ready, or the
/// queue is empty and the caller must let the host run before asking again.
#[derive(Clone, Copy, PartialEq, Eq, Structural, Debug)]
pub enum WaitDecision {
    /// The head event, removed from the queue and ready to be yielded.
    Ready(Event),
    /// Nothing is pending: wait for the host to deliver notifications.
    MustWait,
}

} // verus!
