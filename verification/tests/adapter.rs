use glutin::events::NOTIFY_MOUSE_DOWN;
use glutin::events::NOTIFY_MOUSE_MOVE;
use glutin::events::NOTIFY_MOUSE_UP;
use glutin::mouse_callback;
use glutin::ElementState;
use glutin::Event;
use glutin::EventQueue;
use glutin::MouseButton;
use glutin::MouseEvent;
use glutin::Window;

fn mouse(x: i32, y: i32, button: u16) -> MouseEvent {
    MouseEvent { client_x: x, client_y: y, button }
}

fn drain(w: &mut Window) -> Vec<Event> {
    let mut out = Vec::new();
    while let Some(e) = w.poll_next() {
        out.push(e);
    }
    out
}

#[test]
fn fifo_preserves_order_and_count() {
    let mut w = Window::new(1).unwrap();
    let deliveries = [
        (NOTIFY_MOUSE_MOVE, mouse(1, 2, 0)),
        (NOTIFY_MOUSE_DOWN, mouse(1, 2, 1)),
        (NOTIFY_MOUSE_MOVE, mouse(3, 4, 1)),
        (NOTIFY_MOUSE_UP, mouse(3, 4, 1)),
        (NOTIFY_MOUSE_MOVE, mouse(5, 6, 2)),
        (NOTIFY_MOUSE_DOWN, mouse(5, 6, 2)),
    ];
    for (kind, ev) in deliveries.iter() {
        assert!(w.on_mouse_notification(*kind, ev));
    }
    let polled = drain(&mut w);
    assert_eq!(polled.len(), deliveries.len());
    assert_eq!(
        polled,
        vec![
            Event::MouseMoved(1, 2),
            Event::MouseInput(ElementState::Pressed, MouseButton::Middle),
            Event::MouseMoved(3, 4),
            Event::MouseInput(ElementState::Released, MouseButton::Middle),
            Event::MouseMoved(5, 6),
            Event::MouseInput(ElementState::Pressed, MouseButton::Right),
        ]
    );
}

#[test]
fn polling_empty_queue_yields_nothing() {
    let mut w = Window::new(1).unwrap();
    assert_eq!(w.poll_next(), None);
    assert_eq!(w.poll_next(), None);
}

#[test]
fn poll_removes_only_what_it_yields() {
    let mut w = Window::new(1).unwrap();
    w.on_mouse_notification(NOTIFY_MOUSE_MOVE, &mouse(1, 1, 0));
    w.on_mouse_notification(NOTIFY_MOUSE_DOWN, &mouse(1, 1, 0));
    w.on_mouse_notification(NOTIFY_MOUSE_UP, &mouse(1, 1, 0));
    // a drain abandoned after one event loses nothing
    assert_eq!(w.poll_next(), Some(Event::MouseMoved(1, 1)));
    let rest = drain(&mut w);
    assert_eq!(
        rest,
        vec![
            Event::MouseInput(ElementState::Pressed, MouseButton::Left),
            Event::MouseInput(ElementState::Released, MouseButton::Left),
        ]
    );
}

#[test]
fn drain_is_destructive() {
    let mut w = Window::new(1).unwrap();
    w.on_mouse_notification(NOTIFY_MOUSE_MOVE, &mouse(7, 8, 0));
    w.on_mouse_notification(NOTIFY_MOUSE_DOWN, &mouse(7, 8, 0));
    let first = drain(&mut w);
    assert_eq!(first.len(), 2);
    let second = drain(&mut w);
    assert_eq!(second, Vec::new());
    w.on_mouse_notification(NOTIFY_MOUSE_UP, &mouse(7, 8, 0));
    let third = drain(&mut w);
    assert_eq!(
        third,
        vec![Event::MouseInput(ElementState::Released, MouseButton::Left)]
    );
}

#[test]
fn button_codes_translate_exactly() {
    assert_eq!(glutin::events::button_of_code(0), MouseButton::Left);
    assert_eq!(glutin::events::button_of_code(1), MouseButton::Middle);
    assert_eq!(glutin::events::button_of_code(2), MouseButton::Right);
    assert_eq!(glutin::events::button_of_code(3), MouseButton::Other(3));
    assert_eq!(glutin::events::button_of_code(5), MouseButton::Other(5));
    assert_eq!(glutin::events::button_of_code(65535), MouseButton::Other(65535));
}

#[test]
fn unrecognized_kinds_append_nothing() {
    let mut q = EventQueue::new();
    assert!(mouse_callback(&mut q, 0, &mouse(1, 1, 0)));
    assert!(mouse_callback(&mut q, 7, &mouse(1, 1, 0)));
    assert!(mouse_callback(&mut q, 99, &mouse(1, 1, 0)));
    assert!(mouse_callback(&mut q, -3, &mouse(1, 1, 0)));
    assert!(q.is_empty());
    assert_eq!(q.len(), 0);
    assert_eq!(q.pop_front(), None);
}

#[test]
fn scenario_move_down_up_move() {
    let mut w = Window::new(1).unwrap();
    w.on_mouse_notification(NOTIFY_MOUSE_MOVE, &mouse(10, 20, 0));
    w.on_mouse_notification(NOTIFY_MOUSE_DOWN, &mouse(10, 20, 0));
    w.on_mouse_notification(NOTIFY_MOUSE_UP, &mouse(10, 20, 0));
    w.on_mouse_notification(NOTIFY_MOUSE_MOVE, &mouse(30, 40, 0));
    let polled = drain(&mut w);
    assert_eq!(
        polled,
        vec![
            Event::MouseMoved(10, 20),
            Event::MouseInput(ElementState::Pressed, MouseButton::Left),
            Event::MouseInput(ElementState::Released, MouseButton::Left),
            Event::MouseMoved(30, 40),
        ]
    );
}

#[test]
fn scenario_unrecognized_button_code() {
    let mut w = Window::new(1).unwrap();
    w.on_mouse_notification(NOTIFY_MOUSE_DOWN, &mouse(0, 0, 5));
    let polled = drain(&mut w);
    assert_eq!(
        polled,
        vec![Event::MouseInput(ElementState::Pressed, MouseButton::Other(5))]
    );
}

#[test]
fn teardown_without_polling() {
    let mut w = Window::new(42).unwrap();
    assert!(w.is_registered());
    w.on_mouse_notification(NOTIFY_MOUSE_MOVE, &mouse(1, 2, 0));
    w.deregister();
    assert!(!w.is_registered());
    assert_eq!(w.context(), 42);
    drop(w);
}

#[test]
fn queue_pops_in_insertion_order() {
    let mut q = EventQueue::new();
    q.push_back(Event::MouseMoved(1, 1));
    q.push_back(Event::Closed);
    assert_eq!(q.len(), 2);
    assert!(!q.is_empty());
    assert_eq!(q.pop_front(), Some(Event::MouseMoved(1, 1)));
    assert_eq!(q.pop_front(), Some(Event::Closed));
    assert_eq!(q.pop_front(), None);
}

#[test]
fn callback_reports_success_for_every_kind() {
    let mut q = EventQueue::new();
    assert!(mouse_callback(&mut q, NOTIFY_MOUSE_MOVE, &mouse(9, 9, 0)));
    assert!(mouse_callback(&mut q, NOTIFY_MOUSE_DOWN, &mouse(9, 9, 7)));
    assert!(mouse_callback(&mut q, NOTIFY_MOUSE_UP, &mouse(9, 9, 7)));
    assert!(mouse_callback(&mut q, 1234, &mouse(9, 9, 7)));
    assert_eq!(q.len(), 3);
}
