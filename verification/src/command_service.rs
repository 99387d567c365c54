//! The handler of each command kind: what it asks of the storage backend and
//! the response it produces.
//!
//! Multi-element commands run one storage call per element, in input order;
//! they are deliberately not atomic as a batch, so their semantics here is
//! the sequential composition of the per-element calls.

use vstd::prelude::*;

use crate::errors::KvError;
use crate::pb::{
    resp_error, resp_ok_pairs, resp_ok_values, CommandResponse, Hdel, Hexist, Hget, Hgetall,
    Hmdel, Hmexist, Hmget, Hmset, Hset, RespView, Value, ValueView, STATUS_OK,
};
use crate::service::CommandService;
use crate::storage::{
    mget_view, store_contains, store_del, store_get, store_set, table_snapshot, value_or_empty,
    Storage, StoreView,
};

verus! {

/// The store after writing `pairs` into `table` of `s`, in order.
pub open spec fn hmset_store(
    s: StoreView,
    table: Seq<char>,
    pairs: Seq<(Seq<char>, ValueView)>,
) -> StoreView
    decreases pairs.len(),
{
    if pairs.len() == 0 {
        s
    } else {
        store_set(hmset_store(s, table, pairs.drop_last()), table, pairs.last().0, pairs.last().1)
    }
}

/// The values the writes of `pairs` into `table` of `s` replace, in order:
/// at each position, the value that key held just before its own write, or
/// the empty sentinel if it held none.
pub open spec fn hmset_prev_vals(
    s: StoreView,
    table: Seq<char>,
    pairs: Seq<(Seq<char>, ValueView)>,
) -> Seq<ValueView>
    decreases pairs.len(),
{
    if pairs.len() == 0 {
        Seq::empty()
    } else {
        hmset_prev_vals(s, table, pairs.drop_last()).push(
            value_or_empty(
                store_get(hmset_store(s, table, pairs.drop_last()), table, pairs.last().0),
            ),
        )
    }
}

/// The store after removing `keys` from `table` of `s`, in order.
pub open spec fn hmdel_store(s: StoreView, table: Seq<char>, keys: Seq<Seq<char>>) -> StoreView
    decreases keys.len(),
{
    if keys.len() == 0 {
        s
    } else {
        store_del(hmdel_store(s, table, keys.drop_last()), table, keys.last())
    }
}

/// The values the removals of `keys` from `table` of `s` return, in order:
/// at each position, the value that key held just before its own removal, or
/// the empty sentinel if it held none.
pub open spec fn hmdel_vals(s: StoreView, table: Seq<char>, keys: Seq<Seq<char>>) -> Seq<
    ValueView,
>
    decreases keys.len(),
{
    if keys.len() == 0 {
        Seq::empty()
    } else {
        hmdel_vals(s, table, keys.drop_last()).push(
            value_or_empty(store_get(hmdel_store(s, table, keys.drop_last()), table, keys.last())),
        )
    }
}

/// One boolean value per key of `keys`, in order: whether `table` of `s`
/// holds that key.
pub open spec fn hmexist_vals(s: StoreView, table: Seq<char>, keys: Seq<Seq<char>>) -> Seq<
    ValueView,
> {
    Seq::new(keys.len(), |i: int| ValueView::Bool(store_contains(s, table, keys[i])))
}

impl CommandService for Hset {
    open spec fn next_store(self, s: StoreView) -> StoreView {
        match self.pair {
            Some(p) => store_set(s, self.table@, p.key@, p.value@),
            None => s,
        }
    }

    open spec fn resp_ok(self, s: StoreView, r: RespView) -> bool {
        match self.pair {
            Some(p) => r == resp_ok_values(
                seq![value_or_empty(store_get(s, self.table@, p.key@))],
            ),
            None => r == resp_ok_values(seq![ValueView::Empty]),
        }
    }

    fn execute<S: Storage>(self, store: &mut S) -> (r: CommandResponse) {
        match self.pair {
            Some(p) => match store.set(self.table.as_str(), p.key, p.value) {
                Ok(Some(v)) => CommandResponse::ok_single(v),
                Ok(None) => CommandResponse::ok_single(Value::Empty),
                Err(e) => CommandResponse::from_error(e),
            },
            None => CommandResponse::ok_single(Value::Empty),
        }
    }
}

impl CommandService for Hget {
    open spec fn next_store(self, s: StoreView) -> StoreView {
        s
    }

    open spec fn resp_ok(self, s: StoreView, r: RespView) -> bool {
        match store_get(s, self.table@, self.key@) {
            Some(v) => r == resp_ok_values(seq![v]),
            None => r == resp_error(KvError::NotFound(self.table, self.key)),
        }
    }

    fn execute<S: Storage>(self, store: &mut S) -> (r: CommandResponse) {
        match store.get(self.table.as_str(), self.key.as_str()) {
            Ok(Some(v)) => CommandResponse::ok_single(v),
            Ok(None) => CommandResponse::from_error(KvError::NotFound(self.table, self.key)),
            Err(e) => CommandResponse::from_error(e),
        }
    }
}

impl CommandService for Hgetall {
    open spec fn next_store(self, s: StoreView) -> StoreView {
        s
    }

    open spec fn resp_ok(self, s: StoreView, r: RespView) -> bool {
        &&& r.status == STATUS_OK
        &&& r.message == Seq::<char>::empty()
        &&& r.values == Seq::<ValueView>::empty()
        &&& table_snapshot(s, self.table@, r.pairs)
    }

    fn execute<S: Storage>(self, store: &mut S) -> (r: CommandResponse) {
        match store.get_all(self.table.as_str()) {
            Ok(pairs) => CommandResponse::ok_pairs(pairs),
            Err(e) => CommandResponse::from_error(e),
        }
    }
}

impl CommandService for Hmget {
    open spec fn next_store(self, s: StoreView) -> StoreView {
        s
    }

    open spec fn resp_ok(self, s: StoreView, r: RespView) -> bool {
        r == resp_ok_values(mget_view(s, self.table@, self.keys.deep_view()))
    }

    fn execute<S: Storage>(self, store: &mut S) -> (r: CommandResponse) {
        let Hmget { table, keys } = self;
        let mut vals: Vec<Value> = Vec::new();
        let mut i: usize = 0;
        while i < keys.len()
            invariant
                i <= keys.len(),
                vals.deep_view().len() == i as int,
                forall|j: int|
                    0 <= j < i as int ==> vals.deep_view()[j] == value_or_empty(
                        store_get(store.contents(), table@, keys.deep_view()[j]),
                    ),
            decreases keys.len() - i,
        {
            let got = match store.get(table.as_str(), keys[i].as_str()) {
                Ok(Some(v)) => v,
                Ok(None) => Value::Empty,
                Err(_) => Value::Empty,
            };
            proof {
                assert(got.deep_view() == value_or_empty(
                    store_get(store.contents(), table@, keys.deep_view()[i as int]),
                ));
            }
            let ghost prev = vals.deep_view();
            vals.push(got);
            proof {
                assert(vals.deep_view() =~= prev.push(got.deep_view()));
            }
            i = i + 1;
        }
        proof {
            assert(vals.deep_view() =~= mget_view(store.contents(), table@, keys.deep_view()));
        }
        CommandResponse::ok_values(vals)
    }
}

impl CommandService for Hmset {
    open spec fn next_store(self, s: StoreView) -> StoreView {
        hmset_store(s, self.table@, self.pairs.deep_view())
    }

    open spec fn resp_ok(self, s: StoreView, r: RespView) -> bool {
        r == resp_ok_values(hmset_prev_vals(s, self.table@, self.pairs.deep_view()))
    }

    fn execute<S: Storage>(self, store: &mut S) -> (r: CommandResponse) {
        let Hmset { table, pairs } = self;
        let ghost s0 = store.contents();
        let ghost pv = pairs.deep_view();
        let mut vals: Vec<Value> = Vec::new();
        let mut i: usize = 0;
        while i < pairs.len()
            invariant
                i <= pairs.len(),
                pairs.deep_view() == pv,
                pv.len() == pairs.len(),
                store.contents() == hmset_store(s0, table@, pv.take(i as int)),
                vals.deep_view() == hmset_prev_vals(s0, table@, pv.take(i as int)),
            decreases pairs.len() - i,
        {
            let p = pairs[i].clone();
            let got = match store.set(table.as_str(), p.key, p.value) {
                Ok(Some(v)) => v,
                Ok(None) => Value::Empty,
                Err(_) => Value::Empty,
            };
            let ghost prev_vals = vals.deep_view();
            vals.push(got);
            proof {
                assert(pv.take(i as int + 1).drop_last() =~= pv.take(i as int));
                assert(pv.take(i as int + 1).last() == pv[i as int]);
                assert(store.contents() == hmset_store(s0, table@, pv.take(i as int + 1)));
                assert(vals.deep_view() =~= prev_vals.push(got.deep_view()));
                assert(vals.deep_view() =~= hmset_prev_vals(s0, table@, pv.take(i as int + 1)));
            }
            i = i + 1;
        }
        proof {
            assert(pv.take(pairs.len() as int) =~= pv);
        }
        CommandResponse::ok_values(vals)
    }
}

impl CommandService for Hdel {
    open spec fn next_store(self, s: StoreView) -> StoreView {
        store_del(s, self.table@, self.key@)
    }

    open spec fn resp_ok(self, s: StoreView, r: RespView) -> bool {
        r == resp_ok_values(seq![value_or_empty(store_get(s, self.table@, self.key@))])
    }

    fn execute<S: Storage>(self, store: &mut S) -> (r: CommandResponse) {
        match store.del(self.table.as_str(), self.key.as_str()) {
            Ok(Some(v)) => CommandResponse::ok_single(v),
            Ok(None) => CommandResponse::ok_single(Value::Empty),
            Err(e) => CommandResponse::from_error(e),
        }
    }
}

impl CommandService for Hmdel {
    open spec fn next_store(self, s: StoreView) -> StoreView {
        hmdel_store(s, self.table@, self.keys.deep_view())
    }

    open spec fn resp_ok(self, s: StoreView, r: RespView) -> bool {
        r == resp_ok_values(hmdel_vals(s, self.table@, self.keys.deep_view()))
    }

    fn execute<S: Storage>(self, store: &mut S) -> (r: CommandResponse) {
        let Hmdel { table, keys } = self;
        let ghost s0 = store.contents();
        let ghost kv = keys.deep_view();
        let mut vals: Vec<Value> = Vec::new();
        let mut i: usize = 0;
        while i < keys.len()
            invariant
                i <= keys.len(),
                keys.deep_view() == kv,
                kv.len() == keys.len(),
                store.contents() == hmdel_store(s0, table@, kv.take(i as int)),
                vals.deep_view() == hmdel_vals(s0, table@, kv.take(i as int)),
            decreases keys.len() - i,
        {
            let got = match store.del(table.as_str(), keys[i].as_str()) {
                Ok(Some(v)) => v,
                Ok(None) => Value::Empty,
                Err(_) => Value::Empty,
            };
            let ghost prev_vals = vals.deep_view();
            vals.push(got);
            proof {
                assert(kv.take(i as int + 1).drop_last() =~= kv.take(i as int));
                assert(kv.take(i as int + 1).last() == kv[i as int]);
                assert(store.contents() == hmdel_store(s0, table@, kv.take(i as int + 1)));
                assert(vals.deep_view() =~= prev_vals.push(got.deep_view()));
                assert(vals.deep_view() =~= hmdel_vals(s0, table@, kv.take(i as int + 1)));
            }
            i = i + 1;
        }
        proof {
            assert(kv.take(keys.len() as int) =~= kv);
        }
        CommandResponse::ok_values(vals)
    }
}

impl CommandService for Hexist {
    open spec fn next_store(self, s: StoreView) -> StoreView {
        s
    }

    open spec fn resp_ok(self, s: StoreView, r: RespView) -> bool {
        r == resp_ok_values(seq![ValueView::Bool(store_contains(s, self.table@, self.key@))])
    }

    fn execute<S: Storage>(self, store: &mut S) -> (r: CommandResponse) {
        match store.contains(self.table.as_str(), self.key.as_str()) {
            Ok(b) => CommandResponse::ok_single(Value::Bool(b)),
            Err(e) => CommandResponse::from_error(e),
        }
    }
}

impl CommandService for Hmexist {
    open spec fn next_store(self, s: StoreView) -> StoreView {
        s
    }

    open spec fn resp_ok(self, s: StoreView, r: RespView) -> bool {
        r == resp_ok_values(hmexist_vals(s, self.table@, self.keys.deep_view()))
    }

    fn execute<S: Storage>(self, store: &mut S) -> (r: CommandResponse) {
        let Hmexist { table, keys } = self;
        let mut vals: Vec<Value> = Vec::new();
        let mut i: usize = 0;
        while i < keys.len()
            invariant
                i <= keys.len(),
                vals.deep_view().len() == i as int,
                forall|j: int|
                    0 <= j < i as int ==> vals.deep_view()[j] == ValueView::Bool(
                        store_contains(store.contents(), table@, keys.deep_view()[j]),
                    ),
            decreases keys.len() - i,
        {
            let got = match store.contains(table.as_str(), keys[i].as_str()) {
                Ok(b) => Value::Bool(b),
                Err(_) => Value::Empty,
            };
            proof {
                assert(got.deep_view() == ValueView::Bool(
                    store_contains(store.contents(), table@, keys.deep_view()[i as int]),
                ));
            }
            let ghost prev = vals.deep_view();
            vals.push(got);
            proof {
                assert(vals.deep_view() =~= prev.push(got.deep_view()));
            }
            i = i + 1;
        }
        proof {
            assert(vals.deep_view() =~= hmexist_vals(store.contents(), table@, keys.deep_view()));
        }
        CommandResponse::ok_values(vals)
    }
}

} // verus!
