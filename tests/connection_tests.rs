use winit::backend::{select_backend, Backend, BackendChoice};
use winit::proxy::{EventsLoopClosed, WakeupState};
use winit::xconnection::{XConnection, XError};

fn err(code: u8) -> XError {
    XError { description: format!("error {}", code), error_code: code, request_code: 1, minor_code: 0 }
}

#[test]
fn error_slot_is_last_write_wins() {
    let mut conn = XConnection::new(5);
    conn.record_error(err(1));
    conn.record_error(err(2));
    match conn.check_errors() {
        Err(e) => {
            assert_eq!(e.error_code, 2);
            assert_eq!(e.description, "error 2");
        }
        Ok(()) => panic!("the second error must be reported"),
    }
    assert!(conn.check_errors().is_ok());
    conn.record_error(err(3));
    conn.ignore_error();
    assert!(conn.check_errors().is_ok());
    assert_eq!(conn.x11_fd, 5);
}

#[test]
fn wakeup_on_closed_loop_fails() {
    let mut state = WakeupState::new();
    state.close();
    assert_eq!(state.wakeup(), Err(EventsLoopClosed));
    assert_eq!(state.wakeup(), Err(EventsLoopClosed));
    assert!(!state.take_pending());
    assert_eq!(EventsLoopClosed.description(), "Tried to wake up a closed `EventsLoop`");
}

#[test]
fn wakeups_coalesce_until_taken() {
    let mut state = WakeupState::new();
    assert_eq!(state.wakeup(), Ok(()));
    assert_eq!(state.wakeup(), Ok(()));
    assert!(state.take_pending());
    assert!(!state.take_pending());
}

#[test]
fn backend_variable_values() {
    assert_eq!(select_backend(None), Ok(BackendChoice::WaylandThenX11));
    assert_eq!(select_backend(Some("x11".to_string())), Ok(BackendChoice::Only(Backend::X11)));
    assert_eq!(select_backend(Some("wayland".to_string())), Ok(BackendChoice::Only(Backend::Wayland)));
    assert!(select_backend(Some("X11".to_string())).is_err());
}
