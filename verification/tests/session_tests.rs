use bytes::Bytes;
use kv_server::command::Response;
use kv_server::session::{ReadOutcome, Session};
use kv_server::store::Store;
use mini_redis::frame::Frame;

fn set_frame(key: &'static str, value: &'static str) -> Frame {
    Frame::Array(vec![
        Frame::Bulk(Bytes::from("SET")),
        Frame::Bulk(Bytes::from(key)),
        Frame::Bulk(Bytes::from(value)),
    ])
}

fn get_frame(key: &'static str) -> Frame {
    Frame::Array(vec![
        Frame::Bulk(Bytes::from("GET")),
        Frame::Bulk(Bytes::from(key)),
    ])
}

/// Drives one full request/response exchange on an open session.
fn exchange(session: &mut Session, frame: Frame, store: &mut Store) -> Response {
    assert!(session.is_awaiting());
    let op = session.on_read(ReadOutcome::Frame(frame)).expect("a well-formed request");
    let response = session.on_execute(op, store);
    session.on_sent(true);
    response
}

#[test]
fn clean_close_ends_the_session() {
    let mut s = Session::new();
    assert!(s.is_awaiting());
    assert_eq!(s.on_read(ReadOutcome::CleanClose), None);
    assert!(s.is_closed());
}

#[test]
fn framing_failure_ends_the_session() {
    let mut s = Session::new();
    assert_eq!(s.on_read(ReadOutcome::Failed), None);
    assert!(s.is_closed());
}

#[test]
fn grammar_failure_ends_the_session() {
    let mut s = Session::new();
    assert_eq!(s.on_read(ReadOutcome::Frame(Frame::Simple("nonsense".to_string()))), None);
    assert!(s.is_closed());
}

#[test]
fn send_failure_ends_the_session() {
    let mut st = Store::new();
    let mut s = Session::new();
    let op = s.on_read(ReadOutcome::Frame(get_frame("x"))).expect("well-formed");
    let _ = s.on_execute(op, &mut st);
    s.on_sent(false);
    assert!(s.is_closed());
}

#[test]
fn full_session_set_then_get() {
    let mut st = Store::new();
    let mut s = Session::new();
    assert_eq!(
        exchange(&mut s, set_frame("foo", "123"), &mut st),
        Response::Simple("OK".to_string())
    );
    assert_eq!(
        exchange(&mut s, get_frame("foo"), &mut st),
        Response::Bulk(b"123".to_vec())
    );
    assert_eq!(s.on_read(ReadOutcome::CleanClose), None);
    assert!(s.is_closed());
}

#[test]
fn unsupported_operation_keeps_the_session_open() {
    let mut st = Store::new();
    let mut s = Session::new();
    let unknown = Frame::Array(vec![Frame::Bulk(Bytes::from("FLUSHALL"))]);
    assert_eq!(
        exchange(&mut s, unknown, &mut st),
        Response::Error("unsupported operation: unknown".to_string())
    );
    assert!(s.is_awaiting());
    assert_eq!(
        exchange(&mut s, get_frame("missing"), &mut st),
        Response::Null
    );
}

#[test]
fn malformed_connection_leaves_another_unaffected() {
    // Connection A sends a malformed request and closes; connection B,
    // interleaved with it on the same store, completes a set and a get
    // exactly as it would alone.
    let mut st = Store::new();
    let mut a = Session::new();
    let mut b = Session::new();

    let b_op = b.on_read(ReadOutcome::Frame(set_frame("foo", "123"))).expect("well-formed");
    assert_eq!(a.on_read(ReadOutcome::Frame(Frame::Integer(7))), None);
    assert!(a.is_closed());
    assert_eq!(b.on_execute(b_op, &mut st), Response::Simple("OK".to_string()));
    b.on_sent(true);
    assert_eq!(
        exchange(&mut b, get_frame("foo"), &mut st),
        Response::Bulk(b"123".to_vec())
    );
    assert!(!b.is_closed());
}
