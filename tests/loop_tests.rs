use winit::event_loop::{EventsLoop, FrameAction};
use winit::events::{ControlFlow, Event, WindowEvent};
use winit::monitor::MonitorId;
use winit::store::Change;
use winit::types::{
    CreationError, LogicalPosition, LogicalSize, MouseCursor, RawWindowParts, WindowAttributes, WindowBuilder,
    WindowId,
};
use winit::window::{FrameRequest, FrameSetup, Window};

fn wev(surface: u64, event: WindowEvent) -> Event {
    Event::WindowEvent { window_id: WindowId { surface }, event }
}

#[test]
fn run_forever_stops_on_break() {
    let mut el = EventsLoop::new();
    el.send_event(Event::Awakened);
    el.send_event(wev(1, WindowEvent::Refresh));
    el.send_event(wev(1, WindowEvent::CloseRequested));
    let mut calls = 0;
    let (flow, _) = el.run_forever(false, |_e| {
        calls += 1;
        if calls == 2 { ControlFlow::Break } else { ControlFlow::Continue }
    });
    assert_eq!(calls, 2);
    assert_eq!(flow, ControlFlow::Break);
    assert!(el.sink.is_empty());
}

#[test]
fn run_forever_continues_when_events_run_out() {
    let mut el = EventsLoop::new();
    let mut calls = 0;
    let (flow, actions) = el.run_forever(true, |e| {
        assert_eq!(e, Event::Awakened);
        calls += 1;
        ControlFlow::Continue
    });
    assert_eq!(calls, 1);
    assert_eq!(flow, ControlFlow::Continue);
    assert!(actions.is_empty());
}

#[test]
fn poll_events_delivers_in_fixed_order() {
    let mut el = EventsLoop::new();
    let (w, _) = Window::new(&mut el, 1, &WindowAttributes::default());
    let (_w2, _) = Window::new(&mut el, 2, &WindowAttributes::default());
    el.store.apply(1, Change::Close);
    el.store.apply(1, Change::Configure(Some((640, 480))));
    el.store.dpi_change(1, 2);
    el.send_event(wev(9, WindowEvent::Refresh));
    let mut seen = Vec::new();
    let actions = el.poll_events(true, |e| seen.push(e));
    assert_eq!(
        seen,
        vec![
            wev(9, WindowEvent::Refresh),
            Event::Awakened,
            wev(1, WindowEvent::Resized(LogicalSize { width: 640, height: 480 })),
            wev(1, WindowEvent::HiDpiFactorChanged(2)),
            wev(1, WindowEvent::Refresh),
            wev(1, WindowEvent::CloseRequested),
        ]
    );
    assert_eq!(
        actions,
        vec![
            FrameAction::Resize { window_id: WindowId { surface: 1 }, width: 640, height: 480 },
            FrameAction::Refresh { window_id: WindowId { surface: 2 }, commit: true },
        ]
    );
    assert_eq!(w.get_inner_size(&el), Some(LogicalSize { width: 640, height: 480 }));
    let mut again = Vec::new();
    let actions = el.poll_events(false, |e| again.push(e));
    assert!(again.is_empty());
    assert!(actions.is_empty());
}

#[test]
fn dropped_window_is_destroyed_once() {
    let mut el = EventsLoop::new();
    let (w, _) = Window::new(&mut el, 1, &WindowAttributes::default());
    let (_w2, _) = Window::new(&mut el, 2, &WindowAttributes::default());
    el.poll_events(false, |_| {});
    w.teardown(&mut el);
    let mut seen = Vec::new();
    let actions = el.poll_events(false, |e| seen.push(e));
    assert_eq!(seen, vec![wev(1, WindowEvent::Destroyed)]);
    assert_eq!(actions, vec![FrameAction::Destroy { window_id: WindowId { surface: 1 } }]);
    assert_eq!(el.store.find_wid(1), None);
    let mut later = Vec::new();
    el.poll_events(false, |e| later.push(e));
    assert!(later.is_empty());
}

#[test]
fn raw_parts_window_survives_teardown() {
    let mut el = EventsLoop::new();
    let w = Window::new_from_raw_parts(&mut el, &RawWindowParts { surface: 4, width: 10, height: 20 });
    assert_eq!(w.get_raw_parts(&el), RawWindowParts { surface: 4, width: 10, height: 20 });
    w.teardown(&mut el);
    assert!(!el.cleanup_needed);
    let mut seen = Vec::new();
    let actions = el.poll_events(false, |e| seen.push(e));
    assert!(seen.is_empty());
    assert!(actions.is_empty());
    assert_eq!(el.store.find_wid(4), Some(WindowId { surface: 4 }));
}

#[test]
fn unsupported_cursor_position_is_reported() {
    let mut el = EventsLoop::new();
    let (mut w, _) = Window::new(&mut el, 1, &WindowAttributes::default());
    let r = w.set_cursor_position(LogicalPosition { x: 3, y: 4 });
    assert_eq!(r, Err("Setting the cursor position is not yet possible on Wayland.".to_string()));
    assert_eq!(w.grab_cursor(true), Err("Cursor grabbing is not yet possible on Wayland.".to_string()));
    assert_eq!(w.id(), WindowId { surface: 1 });
    assert_eq!(w.surface_enter(&mut el, MonitorId { output: 1, hidpi_factor: 2 }, 3), Some(2));
    assert_eq!(w.hidpi_factor(), 2);
    assert_eq!(
        w.set_inner_size(&mut el, LogicalSize { width: 5, height: 6 }),
        FrameRequest::Resize { width: 5, height: 6 }
    );
    assert_eq!(w.get_outer_size(&el), Some(LogicalSize { width: 5, height: 6 }));
    assert_eq!(w.get_position(), None);
    assert_eq!(w.get_inner_position(), None);
    w.show();
    w.hide_window();
    w.set_position(LogicalPosition { x: 0, y: 0 });
    w.set_cursor(MouseCursor::Hand);
    w.hide_cursor(true);
}

#[test]
fn window_new_uses_defaults_and_attributes() {
    let mut el = EventsLoop::new();
    let (_, setup) = Window::new(&mut el, 1, &WindowAttributes::default());
    assert_eq!(
        setup,
        FrameSetup {
            width: 800,
            height: 600,
            fullscreen: None,
            maximized: false,
            resizable: true,
            decorations: true,
            min_size: None,
            max_size: None,
        }
    );
    let mut attrs = WindowAttributes::default();
    attrs.dimensions = Some(LogicalSize { width: 300, height: 200 });
    attrs.maximized = true;
    attrs.fullscreen = Some(MonitorId { output: 7, hidpi_factor: 1 });
    attrs.min_dimensions = Some(LogicalSize { width: 10, height: 10 });
    let (w, setup) = Window::new(&mut el, 2, &attrs);
    assert_eq!(setup.fullscreen, Some(7));
    assert!(!setup.maximized);
    assert_eq!(setup.min_size, Some(LogicalSize { width: 10, height: 10 }));
    assert_eq!(w.get_inner_size(&el), Some(LogicalSize { width: 300, height: 200 }));
    assert!(el.store.windows[1].need_frame_refresh);
}

#[test]
fn scale_change_needs_a_scale_aware_surface() {
    let mut el = EventsLoop::new();
    let (mut w, _) = Window::new(&mut el, 1, &WindowAttributes::default());
    assert_eq!(w.surface_enter(&mut el, MonitorId { output: 1, hidpi_factor: 2 }, 2), None);
    assert_eq!(w.hidpi_factor(), 2);
    assert_eq!(el.store.windows[0].new_dpi, None);
    assert_eq!(w.surface_enter(&mut el, MonitorId { output: 2, hidpi_factor: 3 }, 3), Some(3));
    assert_eq!(w.get_current_monitor(), MonitorId { output: 2, hidpi_factor: 3 });
    assert_eq!(w.surface_leave(&mut el, 2, 3), Some(2));
    let mut seen = Vec::new();
    el.poll_events(false, |e| seen.push(e));
    assert_eq!(seen, vec![wev(1, WindowEvent::HiDpiFactorChanged(2))]);
}

#[test]
fn monitor_queries_use_the_output_table() {
    let mut el = EventsLoop::new();
    el.output_added(MonitorId { output: 1, hidpi_factor: 1 });
    el.output_added(MonitorId { output: 2, hidpi_factor: 2 });
    assert_eq!(el.get_primary_monitor(), MonitorId { output: 1, hidpi_factor: 1 });
    assert_eq!(el.get_available_monitors().len(), 2);
}

#[test]
fn value_types_defaults_and_messages() {
    assert_eq!(MouseCursor::default(), MouseCursor::Default);
    let a = WindowAttributes::default();
    assert_eq!(a.title, "winit window");
    assert!(a.resizable && a.visible && a.decorations);
    assert!(!a.maximized && !a.transparent && !a.always_on_top && !a.multitouch);
    assert!(a.dimensions.is_none() && a.window_icon.is_none());
    assert_eq!(WindowBuilder::new().window.title, "winit window");
    assert_eq!(CreationError::NotSupported.to_string(), "Some of the requested attributes are not supported");
    assert_eq!(CreationError::OsError("boom".to_string()).to_string(), "boom");
}

#[test]
fn frame_requests_follow_the_calls() {
    let mut el = EventsLoop::new();
    let (w, _) = Window::new(&mut el, 1, &WindowAttributes::default());
    el.poll_events(false, |_| {});
    assert_eq!(w.set_title("hello"), FrameRequest::SetTitle("hello".to_string()));
    assert_eq!(w.set_maximized(true), FrameRequest::Maximize);
    assert_eq!(w.set_maximized(false), FrameRequest::Unmaximize);
    assert_eq!(w.set_fullscreen(Some(MonitorId { output: 3, hidpi_factor: 1 })), FrameRequest::Fullscreen(3));
    assert_eq!(w.set_fullscreen(None), FrameRequest::UnsetFullscreen);
    assert_eq!(w.set_resizable(false), FrameRequest::SetResizable(false));
    let min = Some(LogicalSize { width: 1, height: 2 });
    assert_eq!(w.set_min_dimensions(min), FrameRequest::SetMinSize(min));
    assert_eq!(w.set_max_dimensions(None), FrameRequest::SetMaxSize(None));
    assert_eq!(w.set_decorations(&mut el, false), FrameRequest::SetDecorate(false));
    let actions = el.poll_events(false, |_| {});
    assert_eq!(actions, vec![FrameAction::Refresh { window_id: WindowId { surface: 1 }, commit: true }]);
}

#[test]
fn new_seat_reaches_framed_windows_only() {
    let mut el = EventsLoop::new();
    let (_a, _) = Window::new(&mut el, 1, &WindowAttributes::default());
    let _b = Window::new_from_raw_parts(&mut el, &RawWindowParts { surface: 2, width: 1, height: 1 });
    let (_c, _) = Window::new(&mut el, 3, &WindowAttributes::default());
    el.store.apply(3, Change::FrameGone);
    assert_eq!(el.store.new_seat(), vec![WindowId { surface: 1 }]);
}

#[test]
fn poll_events_with_nothing_pending_calls_nothing() {
    let mut el = EventsLoop::new();
    let mut calls = 0;
    let actions = el.poll_events(false, |_| calls += 1);
    assert_eq!(calls, 0);
    assert!(actions.is_empty());
}

#[test]
fn run_forever_breaks_on_first_event() {
    let mut el = EventsLoop::new();
    el.send_event(wev(1, WindowEvent::Refresh));
    el.send_event(wev(2, WindowEvent::Refresh));
    let mut seen = Vec::new();
    let (flow, _) = el.run_forever(true, |e| {
        seen.push(e);
        ControlFlow::Break
    });
    assert_eq!(flow, ControlFlow::Break);
    assert_eq!(seen, vec![wev(1, WindowEvent::Refresh)]);
    assert!(el.sink.is_empty());
}
