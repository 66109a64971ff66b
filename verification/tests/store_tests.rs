use kv_server::store::Store;

#[test]
fn set_then_get_returns_value() {
    let mut st = Store::new();
    st.set("foo".to_string(), b"123".to_vec());
    assert_eq!(st.get(&"foo".to_string()), Some(b"123".to_vec()));
}

#[test]
fn get_never_written_is_none() {
    let st = Store::new();
    assert_eq!(st.get(&"missing".to_string()), None);
}

#[test]
fn overwrite_replaces_whole_value() {
    let mut st = Store::new();
    st.set("foo".to_string(), b"1".to_vec());
    st.set("foo".to_string(), b"2".to_vec());
    assert_eq!(st.get(&"foo".to_string()), Some(b"2".to_vec()));
}

#[test]
fn distinct_keys_are_independent() {
    let mut st = Store::new();
    st.set("a".to_string(), b"1".to_vec());
    st.set("b".to_string(), b"2".to_vec());
    assert_eq!(st.get(&"a".to_string()), Some(b"1".to_vec()));
    assert_eq!(st.get(&"b".to_string()), Some(b"2".to_vec()));

    let mut other = Store::new();
    other.set("b".to_string(), b"2".to_vec());
    other.set("a".to_string(), b"1".to_vec());
    assert_eq!(other.get(&"a".to_string()), st.get(&"a".to_string()));
    assert_eq!(other.get(&"b".to_string()), st.get(&"b".to_string()));
}

#[test]
fn empty_key_and_empty_value_round_trip() {
    let mut st = Store::new();
    st.set(String::new(), Vec::new());
    assert_eq!(st.get(&String::new()), Some(Vec::new()));
}
