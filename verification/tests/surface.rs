use glutin::Api;
use glutin::WaitDecision;
use glutin::CursorState;
use glutin::MouseCursor;
use glutin::Window;

#[test]
fn fixed_accessors_report_the_canvas() {
    let w = Window::new(1).unwrap();
    assert_eq!(w.get_position(), Some((0, 0)));
    assert_eq!(w.get_api(), Api::WebGl);
    assert!(w.is_current());
}

#[test]
fn ignored_requests_are_accepted() {
    let w = Window::new(1).unwrap();
    w.set_title("canvas");
    w.set_position(10, 10);
    w.show();
    w.hide_window();
    w.set_cursor(MouseCursor::Hand);
    w.set_cursor(MouseCursor::Default);
    assert!(w.set_cursor_state(CursorState::Normal).is_ok());
    assert!(w.set_cursor_state(CursorState::Grab).is_ok());
    assert!(w.set_cursor_position(5, 5).is_ok());
    assert!(w.swap_buffers().is_ok());
}

#[test]
fn wait_mode_yields_pending_events_head_first() {
    let mut w = Window::new(1).unwrap();
    w.on_mouse_notification(
        glutin::events::NOTIFY_MOUSE_MOVE,
        &glutin::MouseEvent { client_x: 1, client_y: 2, button: 0 },
    );
    w.on_mouse_notification(
        glutin::events::NOTIFY_MOUSE_MOVE,
        &glutin::MouseEvent { client_x: 3, client_y: 4, button: 0 },
    );
    assert_eq!(
        w.wait_step(),
        WaitDecision::Ready(glutin::Event::MouseMoved(1, 2))
    );
    assert_eq!(
        w.wait_step(),
        WaitDecision::Ready(glutin::Event::MouseMoved(3, 4))
    );
}

#[test]
fn wait_mode_asks_the_host_to_run_when_empty() {
    let mut w = Window::new(1).unwrap();
    assert_eq!(w.wait_step(), WaitDecision::MustWait);
    // waiting mutates nothing: a notification delivered afterwards is yielded
    w.on_mouse_notification(
        glutin::events::NOTIFY_MOUSE_DOWN,
        &glutin::MouseEvent { client_x: 0, client_y: 0, button: 2 },
    );
    assert_eq!(
        w.wait_step(),
        WaitDecision::Ready(glutin::Event::MouseInput(
            glutin::ElementState::Pressed,
            glutin::MouseButton::Right,
        ))
    );
}
