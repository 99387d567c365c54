//! Storage-contract behaviour of the in-memory backend.

use kv::{KvPair, MemTable, Storage, Value};

#[test]
fn memtable_basic_interface_should_work() {
    let store = MemTable::new();
    test_basic_interface(store);
}

#[test]
fn memtable_get_all_should_work() {
    let store = MemTable::new();
    test_get_all(store);
}

#[test]
fn mod_memtable_mget_should_work() {
    let store = MemTable::new();
    test_mget(store);
}

fn test_basic_interface(mut store: impl Storage) {
    // The first set creates the table, inserts the key and returns None.
    let v = store.set("table1", "hello".into(), "world".into());
    assert!(v.unwrap().is_none());
    // A second set of the same key updates it and returns the previous value.
    let v1 = store.set("table1", "hello".into(), "world1".into());
    assert_eq!(v1, Ok(Some("world".into())));

    // A get of a present key sees the latest value.
    let v = store.get("table1", "hello");
    assert_eq!(v, Ok(Some("world1".into())));

    // A get of an absent key or an absent table sees None.
    assert_eq!(Ok(None), store.get("table1", "hello1"));
    assert!(store.get("table2", "hello1").unwrap().is_none());

    // contains is true exactly of present keys.
    assert_eq!(store.contains("table1", "hello"), Ok(true));
    assert_eq!(store.contains("table1", "hello1"), Ok(false));
    assert_eq!(store.contains("table2", "hello"), Ok(false));

    // del of a present key returns the removed value.
    let v = store.del("table1", "hello");
    assert_eq!(v, Ok(Some("world1".into())));

    // del of an absent key or table returns None.
    assert_eq!(Ok(None), store.del("table1", "hello1"));
    assert_eq!(Ok(None), store.del("table2", "hello"));
}

fn test_get_all(mut store: impl Storage) {
    store.set("table2", "k1".into(), "v1".into()).unwrap();
    store.set("table2", "k2".into(), "v2".into()).unwrap();
    let mut data = store.get_all("table2").unwrap();
    // The backend enumerates in no particular order: sort before comparing.
    data.sort_by(|a, b| a.partial_cmp(b).unwrap());
    assert_eq!(
        data,
        vec![
            KvPair::new("k1".to_string(), "v1".into()),
            KvPair::new("k2".to_string(), "v2".into())
        ]
    );
}

fn test_mget(mut store: impl Storage) {
    store.set("table2", "k1".into(), "v1".into()).unwrap();
    store.set("table2", "k2".into(), "v2".into()).unwrap();
    let k_vec = vec!["k1".to_string(), "k2".to_string()];
    let mut data = store.m_get("table2", k_vec).unwrap().unwrap();
    data.sort_by(|a, b| a.partial_cmp(b).unwrap());
    assert_eq!(data, vec!["v1".into(), "v2".into()]);
}

#[test]
fn memtable_mget_substitutes_empty_for_missing_keys() {
    let mut store = MemTable::new();
    store.set("t", "k1".into(), 1.into()).unwrap();
    let got = store
        .m_get("t", vec!["k0".into(), "k1".into(), "k2".into()])
        .unwrap()
        .unwrap();
    assert_eq!(got, vec![Value::Empty, 1.into(), Value::Empty]);
}

#[test]
fn unwritten_keys_read_absent_and_tables_are_independent() {
    let mut store = MemTable::new();
    // Nothing was ever written: every read is absent.
    assert_eq!(store.get("t", "k"), Ok(None));
    assert_eq!(store.contains("t", "k"), Ok(false));
    assert_eq!(store.get_all("t").unwrap(), vec![]);

    // A write into one table affects no other table.
    store.set("t1", "k".into(), 1.into()).unwrap();
    assert_eq!(store.get("t2", "k"), Ok(None));
    assert_eq!(store.contains("t2", "k"), Ok(false));
    assert_eq!(store.get_all("t2").unwrap(), vec![]);
}

#[test]
fn set_returns_pre_update_value_and_last_write_wins() {
    let mut store = MemTable::new();
    assert_eq!(store.set("t", "k".into(), 1.into()), Ok(None));
    assert_eq!(store.set("t", "k".into(), 2.into()), Ok(Some(1.into())));
    assert_eq!(store.set("t", "k".into(), 3.into()), Ok(Some(2.into())));
    assert_eq!(store.get("t", "k"), Ok(Some(3.into())));
}

#[test]
fn del_of_present_key_removes_it_and_absent_is_not_an_error() {
    let mut store = MemTable::new();
    store.set("t", "k".into(), "v".into()).unwrap();
    assert_eq!(store.del("t", "k"), Ok(Some("v".into())));
    assert_eq!(store.get("t", "k"), Ok(None));
    assert_eq!(store.del("t", "k"), Ok(None));
}

#[test]
fn get_all_is_exactly_the_live_pairs() {
    let mut store = MemTable::new();
    store.set("t", "a".into(), 1.into()).unwrap();
    store.set("t", "b".into(), 2.into()).unwrap();
    store.set("t", "a".into(), 3.into()).unwrap();
    store.del("t", "b").unwrap();
    let mut data = store.get_all("t").unwrap();
    data.sort_by(|a, b| a.partial_cmp(b).unwrap());
    assert_eq!(data, vec![KvPair::new("a".to_string(), 3.into())]);
}
