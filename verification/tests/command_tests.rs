use kv_server::command::{execute, Operation, Response};
use kv_server::store::Store;

#[test]
fn scenario_set_then_get() {
    let mut st = Store::new();
    let r = execute(
        Operation::Put { key: "foo".to_string(), value: b"123".to_vec() },
        &mut st,
    );
    assert_eq!(r, Response::Simple("OK".to_string()));
    let r = execute(Operation::Get { key: "foo".to_string() }, &mut st);
    assert_eq!(r, Response::Bulk(b"123".to_vec()));
}

#[test]
fn scenario_get_missing_is_null() {
    let mut st = Store::new();
    let r = execute(Operation::Get { key: "missing".to_string() }, &mut st);
    assert_eq!(r, Response::Null);
}

#[test]
fn scenario_second_set_wins() {
    let mut st = Store::new();
    execute(Operation::Put { key: "foo".to_string(), value: b"1".to_vec() }, &mut st);
    execute(Operation::Put { key: "foo".to_string(), value: b"2".to_vec() }, &mut st);
    let r = execute(Operation::Get { key: "foo".to_string() }, &mut st);
    assert_eq!(r, Response::Bulk(b"2".to_vec()));
}

#[test]
fn unsupported_operation_is_error_and_store_untouched() {
    let mut st = Store::new();
    execute(Operation::Put { key: "k".to_string(), value: b"v".to_vec() }, &mut st);
    let r = execute(Operation::Other { name: "publish".to_string() }, &mut st);
    assert_eq!(
        r,
        Response::Error("unsupported operation: publish".to_string())
    );
    let r = execute(Operation::Get { key: "k".to_string() }, &mut st);
    assert_eq!(r, Response::Bulk(b"v".to_vec()));
}

#[test]
fn overlapping_get_sees_nothing_or_the_whole_value() {
    // Client A sends `SET x 1` while client B sends `GET x`. The store
    // linearizes them in one of two orders; in both, B sees either the
    // absence indicator or the whole value, never a torn one.
    let mut before = Store::new();
    let b_first = execute(Operation::Get { key: "x".to_string() }, &mut before);
    execute(Operation::Put { key: "x".to_string(), value: b"1".to_vec() }, &mut before);
    assert_eq!(b_first, Response::Null);

    let mut after = Store::new();
    execute(Operation::Put { key: "x".to_string(), value: b"1".to_vec() }, &mut after);
    let b_second = execute(Operation::Get { key: "x".to_string() }, &mut after);
    assert_eq!(b_second, Response::Bulk(b"1".to_vec()));

    for outcome in [b_first, b_second] {
        assert!(outcome == Response::Null || outcome == Response::Bulk(b"1".to_vec()));
    }
}
