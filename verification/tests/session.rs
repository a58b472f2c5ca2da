use serial_tool::controls::{controls, Controls};
use serial_tool::serial_port::{
    clear, close, get_ports, open, open_request, read, stop_read, written, Session, SessionError,
    SessionState, READ_TIMEOUT_MS,
};

fn connected(handle: u32) -> Session<u32> {
    let mut s: Session<u32> = Session::new();
    assert_eq!(open(&mut s, Some(handle)), Ok(()));
    s
}

fn reading(handle: u32, clone: u32) -> Session<u32> {
    let mut s = connected(handle);
    assert_eq!(read(&mut s, Some(clone)), Ok(clone));
    s
}

fn assert_idle(s: &Session<u32>) {
    assert_eq!(s.state(), SessionState::Idle);
    assert!(!s.has_handle());
    assert!(!s.run_flag());
    assert!(s.handle().is_none());
}

#[test]
fn new_session_is_idle() {
    let s: Session<u32> = Session::new();
    assert_idle(&s);
}

#[test]
fn enumerate_returns_the_listing() {
    let mut s: Session<u32> = Session::new();
    let listing = vec!["COM3".to_string(), "COM5".to_string()];
    let ports = get_ports(&mut s, Some(listing));
    assert_eq!(ports, Ok(vec!["COM3".to_string(), "COM5".to_string()]));
    assert_idle(&s);
}

#[test]
fn enumerate_failure_is_reported() {
    let mut s = connected(1);
    assert_eq!(get_ports(&mut s, None), Err(SessionError::EnumerationFailed));
    assert_eq!(s.state(), SessionState::Connected);
    assert_eq!(s.handle(), Some(&1));
    let mut s = reading(1, 2);
    assert_eq!(get_ports(&mut s, None), Err(SessionError::EnumerationFailed));
    assert_eq!(s.state(), SessionState::Reading);
    assert!(s.run_flag());
    let mut s: Session<u32> = Session::new();
    assert_eq!(get_ports(&mut s, None), Err(SessionError::EnumerationFailed));
    assert_idle(&s);
}

#[test]
fn enumerate_resets_a_reading_session() {
    let mut s = reading(1, 2);
    assert_eq!(s.state(), SessionState::Reading);
    let ports = get_ports(&mut s, Some(vec!["COM3".to_string()]));
    assert_eq!(ports, Ok(vec!["COM3".to_string()]));
    assert_idle(&s);
}

#[test]
fn enumerate_yields_idle_from_every_state() {
    let mut a: Session<u32> = Session::new();
    let mut b = connected(1);
    let mut c = reading(1, 2);
    assert!(get_ports(&mut a, Some(vec![])).is_ok());
    assert!(get_ports(&mut b, Some(vec![])).is_ok());
    assert!(get_ports(&mut c, Some(vec![])).is_ok());
    assert_idle(&a);
    assert_idle(&b);
    assert_idle(&c);
}

#[test]
fn selection_gives_the_request() {
    let mut s: Session<u32> = Session::new();
    let req = open_request(&mut s, Some("COM3".to_string()), Some("9600")).ok().unwrap();
    assert_eq!(req.port_name, "COM3");
    assert_eq!(req.baud_rate, 9600);
    assert_eq!(req.timeout_ms, 10);
    assert_eq!(READ_TIMEOUT_MS, 10);
    assert_idle(&s);
}

#[test]
fn missing_port_is_rejected() {
    let mut s: Session<u32> = Session::new();
    let r = open_request(&mut s, None, Some("9600"));
    assert_eq!(r.err(), Some(SessionError::SelectionMissing));
    assert_idle(&s);
}

#[test]
fn missing_baud_is_rejected() {
    let mut s: Session<u32> = Session::new();
    let r = open_request(&mut s, Some("COM3".to_string()), None);
    assert_eq!(r.err(), Some(SessionError::SelectionMissing));
    assert_idle(&s);
}

#[test]
fn unusable_baud_is_rejected() {
    let mut s: Session<u32> = Session::new();
    for text in ["", "0", "fast", "96 00", "-9600", "4294967296"] {
        let r = open_request(&mut s, Some("COM3".to_string()), Some(text));
        assert_eq!(r.err(), Some(SessionError::SelectionMissing));
        assert_idle(&s);
    }
}

#[test]
fn missing_selection_releases_the_port() {
    let mut s = reading(1, 2);
    let r = open_request(&mut s, None, None);
    assert_eq!(r.err(), Some(SessionError::SelectionMissing));
    assert_idle(&s);
}

#[test]
fn open_success_connects() {
    let mut s: Session<u32> = Session::new();
    assert_eq!(open(&mut s, Some(42)), Ok(()));
    assert_eq!(s.state(), SessionState::Connected);
    assert!(s.has_handle());
    assert_eq!(s.handle(), Some(&42));
    assert!(!s.run_flag());
}

#[test]
fn open_failure_stays_idle() {
    let mut s: Session<u32> = Session::new();
    let req = open_request(&mut s, Some("COM99".to_string()), Some("115200")).ok().unwrap();
    assert_eq!(req.port_name, "COM99");
    assert_eq!(req.baud_rate, 115200);
    assert_eq!(open(&mut s, None), Err(SessionError::OpenFailed));
    assert_idle(&s);
}

#[test]
fn open_replaces_the_handle() {
    let mut s = reading(1, 2);
    assert_eq!(open(&mut s, Some(3)), Ok(()));
    assert_eq!(s.state(), SessionState::Connected);
    assert_eq!(s.handle(), Some(&3));
    assert!(!s.run_flag());
}

#[test]
fn open_failure_releases_the_handle() {
    let mut s = connected(1);
    assert_eq!(open(&mut s, None), Err(SessionError::OpenFailed));
    assert_idle(&s);
}

#[test]
fn close_is_idempotent_from_every_state() {
    let mut a: Session<u32> = Session::new();
    let mut b = connected(1);
    let mut c = reading(1, 2);
    close(&mut a);
    close(&mut b);
    close(&mut c);
    assert_idle(&a);
    assert_idle(&b);
    assert_idle(&c);
    close(&mut a);
    close(&mut b);
    close(&mut c);
    assert_idle(&a);
    assert_idle(&b);
    assert_idle(&c);
}

#[test]
fn open_then_close_returns_to_idle() {
    let mut s: Session<u32> = Session::new();
    assert!(open_request(&mut s, Some("COM3".to_string()), Some("9600")).is_ok());
    assert_eq!(open(&mut s, Some(5)), Ok(()));
    close(&mut s);
    assert_idle(&s);
}

#[test]
fn start_read_needs_a_connection() {
    let mut s: Session<u32> = Session::new();
    assert_eq!(read(&mut s, Some(9)), Err(SessionError::NotConnected));
    assert_eq!(read(&mut s, None), Err(SessionError::NotConnected));
    assert_idle(&s);
}

#[test]
fn start_read_sets_the_run_flag() {
    let mut s = connected(1);
    assert_eq!(read(&mut s, Some(2)), Ok(2));
    assert_eq!(s.state(), SessionState::Reading);
    assert!(s.run_flag());
    assert_eq!(s.handle(), Some(&1));
}

#[test]
fn clone_failure_leaves_the_session_connected() {
    let mut s = connected(1);
    assert_eq!(read(&mut s, None), Err(SessionError::CloneFailed));
    assert_eq!(s.state(), SessionState::Connected);
    assert!(!s.run_flag());
    assert_eq!(s.handle(), Some(&1));
}

#[test]
fn second_reader_is_refused() {
    let mut s = reading(1, 2);
    assert_eq!(read(&mut s, Some(3)), Err(SessionError::NotConnected));
    assert_eq!(s.state(), SessionState::Reading);
    assert!(s.run_flag());
}

#[test]
fn start_then_stop_returns_to_connected() {
    let mut s = connected(1);
    assert_eq!(read(&mut s, Some(2)), Ok(2));
    assert_eq!(stop_read(&mut s), Ok(()));
    assert_eq!(s.state(), SessionState::Connected);
    assert!(!s.run_flag());
    assert_eq!(s.handle(), Some(&1));
}

#[test]
fn stop_read_is_idempotent_when_connected() {
    let mut s = connected(1);
    assert_eq!(stop_read(&mut s), Ok(()));
    assert_eq!(stop_read(&mut s), Ok(()));
    assert_eq!(s.state(), SessionState::Connected);
}

#[test]
fn stop_read_needs_a_connection() {
    let mut s: Session<u32> = Session::new();
    assert_eq!(stop_read(&mut s), Err(SessionError::NotConnected));
    assert_idle(&s);
}

#[test]
fn write_guard() {
    let s = connected(1);
    assert_eq!(serial_tool::serial_port::write(&s, ""), Err(SessionError::EmptyPayload));
    assert_eq!(
        serial_tool::serial_port::write(&s, "ping"),
        Ok(vec![0x70, 0x69, 0x6e, 0x67])
    );
    assert_eq!(s.state(), SessionState::Connected);
}

#[test]
fn write_while_reading() {
    let s = reading(1, 2);
    assert_eq!(serial_tool::serial_port::write(&s, "é\n"), Ok(vec![0xc3, 0xa9, 0x0a]));
    assert_eq!(s.state(), SessionState::Reading);
}

#[test]
fn write_needs_a_connection() {
    let s: Session<u32> = Session::new();
    assert_eq!(serial_tool::serial_port::write(&s, "ping"), Err(SessionError::NotConnected));
    assert_eq!(serial_tool::serial_port::write(&s, ""), Err(SessionError::EmptyPayload));
}

#[test]
fn write_outcome() {
    assert_eq!(written(Some(4)), Ok(4));
    assert_eq!(written(Some(0)), Ok(0));
    assert_eq!(written(None), Err(SessionError::WriteError));
}

#[test]
fn clear_screen_bytes() {
    assert_eq!(clear(), b"\x1b[2J\x1b[H\n\x1b[H".to_vec());
    assert_eq!(clear().len(), 11);
}

#[test]
fn controls_follow_the_state() {
    assert_eq!(
        controls(SessionState::Idle),
        Controls { open: true, close: false, start_read: false, stop_read: false, write: false }
    );
    assert_eq!(
        controls(SessionState::Connected),
        Controls { open: false, close: true, start_read: true, stop_read: false, write: true }
    );
    assert_eq!(
        controls(SessionState::Reading),
        Controls { open: false, close: true, start_read: false, stop_read: true, write: true }
    );
}

#[test]
fn handle_matches_state_along_a_run() {
    let mut s: Session<u32> = Session::new();
    let check = |s: &Session<u32>| {
        assert_eq!(s.has_handle(), s.state() != SessionState::Idle);
        assert_eq!(s.run_flag(), s.state() == SessionState::Reading);
    };
    check(&s);
    let _ = read(&mut s, Some(1));
    check(&s);
    let _ = open(&mut s, Some(2));
    check(&s);
    let _ = stop_read(&mut s);
    check(&s);
    let _ = read(&mut s, None);
    check(&s);
    let _ = read(&mut s, Some(3));
    check(&s);
    let _ = get_ports(&mut s, None);
    check(&s);
    let _ = open(&mut s, None);
    check(&s);
    close(&mut s);
    check(&s);
}
