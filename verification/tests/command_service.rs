//! Dispatch-level behaviour: one test per command policy, plus the error
//! responses.

use kv::{dispatch, CommandRequest, CommandResponse, KvPair, MemTable, Storage, Value};

fn assert_res_ok(mut res: CommandResponse, values: &[Value], pairs: &[KvPair]) {
    res.pairs.sort_by(|a, b| a.partial_cmp(b).unwrap());
    assert_eq!(res.status, 200);
    assert_eq!(res.message, "");
    assert_eq!(res.values, values);
    assert_eq!(res.pairs, pairs);
}

fn assert_res_error(res: CommandResponse, code: u32, msg: &str) {
    assert_eq!(res.status, code);
    assert!(res.message.contains(msg));
    assert_eq!(res.values, &[]);
    assert_eq!(res.pairs, &[]);
}

fn set_key_pairs<T: Into<Value>>(table: &str, pairs: Vec<(&str, T)>, store: &mut MemTable) {
    for (k, v) in pairs {
        let cmd = CommandRequest::new_hset(table.to_string(), k.to_string(), v.into());
        dispatch(cmd, store);
    }
}

#[test]
fn hset_should_work() {
    let mut store = MemTable::new();
    let cmd = CommandRequest::new_hset("table1".to_string(), "hello".to_string(), "world".into());
    let res = dispatch(cmd.clone(), &mut store);
    assert_res_ok(res, &[Value::default()], &[]);

    let res = dispatch(cmd, &mut store);
    assert_res_ok(res, &["world".into()], &[]);
}

#[test]
fn hget_should_work() {
    let mut store = MemTable::new();
    let cmd = CommandRequest::new_hset("score".to_string(), "u1".to_string(), 10.into());
    dispatch(cmd, &mut store);
    let cmd = CommandRequest::new_hget("score".to_string(), "u1".to_string());
    let res = dispatch(cmd, &mut store);
    assert_res_ok(res, &[10.into()], &[]);
}

#[test]
fn hget_with_non_exist_key_should_return_404() {
    let mut store = MemTable::new();
    let cmd = CommandRequest::new_hget("score".to_string(), "u1".to_string());
    let res = dispatch(cmd, &mut store);
    assert_res_error(res, 404, "Not found");
}

#[test]
fn hgetall_should_work() {
    let mut store = MemTable::new();
    let cmds = vec![
        CommandRequest::new_hset("score".to_string(), "u1".to_string(), 10.into()),
        CommandRequest::new_hset("score".to_string(), "u2".to_string(), 8.into()),
        CommandRequest::new_hset("score".to_string(), "u3".to_string(), 11.into()),
        CommandRequest::new_hset("score".to_string(), "u1".to_string(), 6.into()),
    ];
    for cmd in cmds {
        dispatch(cmd, &mut store);
    }

    let cmd = CommandRequest::new_hgetall("score".to_string());
    let res = dispatch(cmd, &mut store);
    let pairs = &[
        KvPair::new("u1".to_string(), 6.into()),
        KvPair::new("u2".to_string(), 8.into()),
        KvPair::new("u3".to_string(), 11.into()),
    ];
    assert_res_ok(res, &[], pairs);
}

#[test]
fn command_service_memtable_mget_should_work() {
    let mut store = MemTable::new();
    set_key_pairs(
        "user",
        vec![("u1", "Tyr"), ("u2", "Lindsey"), ("u3", "Rosie")],
        &mut store,
    );

    let cmd = CommandRequest::new_hmget(
        "user".to_string(),
        vec!["u1".into(), "u4".into(), "u3".into()],
    );
    let res = dispatch(cmd, &mut store);
    let values = &["Tyr".into(), Value::default(), "Rosie".into()];
    assert_res_ok(res, values, &[]);
}

#[test]
fn mset_should_work() {
    let mut store = MemTable::new();
    set_key_pairs("t1", vec![("u1", "world")], &mut store);

    let pairs = vec![
        KvPair::new("u1".to_string(), Value::FloatBits((10.1f64).to_bits())),
        KvPair::new("u2".to_string(), Value::FloatBits((8.1f64).to_bits())),
    ];
    let cmd = CommandRequest::new_hmset("t1".to_string(), pairs);
    let res = dispatch(cmd, &mut store);
    assert_res_ok(res, &["world".into(), Value::default()], &[]);
}

#[test]
fn hdel_should_work() {
    let mut store = MemTable::new();
    set_key_pairs("t1", vec![("u1", "hello")], &mut store);

    let cmd = CommandRequest::new_hdel("t1".to_string(), "u2".to_string());
    let res = dispatch(cmd, &mut store);
    assert_res_ok(res, &[Value::default()], &[]);

    let cmd = CommandRequest::new_hdel("t1".to_string(), "u1".to_string());
    let res = dispatch(cmd, &mut store);
    assert_res_ok(res, &["hello".into()], &[]);
}

#[test]
fn hmdel_should_work() {
    let mut store = MemTable::new();
    set_key_pairs("t1", vec![("u1", "v1"), ("u2", "v2")], &mut store);

    let cmd = CommandRequest::new_hmdel("t1".to_string(), vec!["u1".into(), "u3".into()]);
    let res = dispatch(cmd, &mut store);
    assert_res_ok(res, &["v1".into(), Value::default()], &[]);
}

#[test]
fn hexist_should_work() {
    let mut store = MemTable::new();
    set_key_pairs("t1", vec![("u1", "v1"), ("u2", "v2")], &mut store);

    let cmd = CommandRequest::new_hexist("t1".to_string(), "u1".to_string());
    let res = dispatch(cmd, &mut store);
    assert_res_ok(res, &[true.into()], &[]);

    let cmd = CommandRequest::new_hexist("t1".to_string(), "u3".to_string());
    let res = dispatch(cmd, &mut store);
    assert_res_ok(res, &[false.into()], &[]);
}

#[test]
fn hmexist_should_work() {
    let mut store = MemTable::new();
    set_key_pairs("t1", vec![("u1", "v1"), ("u2", "v2")], &mut store);

    let cmd = CommandRequest::new_hmexist("t1".to_string(), vec!["u1".into(), "u3".into()]);
    let res = dispatch(cmd, &mut store);
    assert_res_ok(res, &[true.into(), false.into()], &[]);
}

#[test]
fn empty_request_should_return_400() {
    let mut store = MemTable::new();
    let cmd = CommandRequest { request_data: None };
    let res = dispatch(cmd, &mut store);
    assert_res_error(res, 400, "Invalid command");
    // The empty request changed nothing.
    assert!(store.get("any", "any").unwrap().is_none());
}

#[test]
fn hmget_empty_key_list_yields_empty_values() {
    let mut store = MemTable::new();
    set_key_pairs("t1", vec![("u1", "v1")], &mut store);
    let cmd = CommandRequest::new_hmget("t1".to_string(), vec![]);
    let res = dispatch(cmd, &mut store);
    assert_res_ok(res, &[], &[]);
}

#[test]
fn hmget_preserves_input_order_and_length() {
    let mut store = MemTable::new();
    set_key_pairs("t1", vec![("a", 1i64), ("b", 2i64)], &mut store);
    let cmd = CommandRequest::new_hmget(
        "t1".to_string(),
        vec!["b".into(), "missing".into(), "a".into(), "b".into()],
    );
    let res = dispatch(cmd, &mut store);
    assert_eq!(res.values.len(), 4);
    assert_res_ok(
        res,
        &[2.into(), Value::default(), 1.into(), 2.into()],
        &[],
    );
}

#[test]
fn hexist_matches_contains_at_call_time() {
    let mut store = MemTable::new();
    set_key_pairs("t1", vec![("u1", "v1")], &mut store);
    for key in ["u1", "u2"] {
        let expected = store.contains("t1", key).unwrap();
        let cmd = CommandRequest::new_hexist("t1".to_string(), key.to_string());
        let res = dispatch(cmd, &mut store);
        assert_res_ok(res, &[expected.into()], &[]);
    }
}

#[test]
fn hmexist_matches_contains_at_call_time() {
    let mut store = MemTable::new();
    set_key_pairs("t1", vec![("u1", "v1"), ("u3", "v3")], &mut store);
    let keys = ["u1", "u2", "u3"];
    let expected: Vec<Value> = keys
        .iter()
        .map(|k| store.contains("t1", k).unwrap().into())
        .collect();
    let cmd = CommandRequest::new_hmexist(
        "t1".to_string(),
        keys.iter().map(|k| k.to_string()).collect(),
    );
    let res = dispatch(cmd, &mut store);
    assert_res_ok(res, &expected, &[]);
}

#[test]
fn hgetall_is_insertion_order_independent() {
    let mut store1 = MemTable::new();
    set_key_pairs("t", vec![("a", 1i64), ("b", 2i64), ("c", 3i64)], &mut store1);
    let mut store2 = MemTable::new();
    set_key_pairs("t", vec![("c", 3i64), ("a", 1i64), ("b", 2i64)], &mut store2);

    let mut p1 = dispatch(CommandRequest::new_hgetall("t".to_string()), &mut store1).pairs;
    let mut p2 = dispatch(CommandRequest::new_hgetall("t".to_string()), &mut store2).pairs;
    p1.sort_by(|a, b| a.partial_cmp(b).unwrap());
    p2.sort_by(|a, b| a.partial_cmp(b).unwrap());
    assert_eq!(p1, p2);
    assert_eq!(p1.len(), 3);
}

#[test]
fn hmset_returns_previous_values_in_order() {
    let mut store = MemTable::new();
    // Two writes to the same key inside one batch: the second sees the first.
    let pairs = vec![
        KvPair::new("k".to_string(), 1.into()),
        KvPair::new("k".to_string(), 2.into()),
    ];
    let cmd = CommandRequest::new_hmset("t".to_string(), pairs);
    let res = dispatch(cmd, &mut store);
    assert_res_ok(res, &[Value::default(), 1.into()], &[]);

    let res = dispatch(
        CommandRequest::new_hget("t".to_string(), "k".to_string()),
        &mut store,
    );
    assert_res_ok(res, &[2.into()], &[]);
}

#[test]
fn hset_with_no_pair_is_a_success_with_empty_value() {
    let mut store = MemTable::new();
    let cmd = CommandRequest {
        request_data: Some(kv::RequestData::Hset(kv::Hset {
            table: "t".to_string(),
            pair: None,
        })),
    };
    let res = dispatch(cmd, &mut store);
    assert_res_ok(res, &[Value::default()], &[]);
}

#[test]
fn hgetall_of_an_absent_table_is_an_empty_success() {
    let mut store = MemTable::new();
    let res = dispatch(CommandRequest::new_hgetall("nowhere".to_string()), &mut store);
    assert_res_ok(res, &[], &[]);
}
