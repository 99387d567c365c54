//! The storage contract: the interface every backend must satisfy, together
//! with the mathematical model that its operations are specified against.
//!
//! A store is modelled as a map from (table name, key) to the stored value.
//! Every operation is table-scoped; operations on one (table, key) pair never
//! touch any other pair.

use vstd::prelude::*;

use crate::errors::KvError;
use crate::pb::{KvPair, Value, ValueView};

verus! {

/// The model of a whole store: one flat map keyed by (table name, key).
/// A table exists exactly as far as it holds keys; an empty table and an
/// absent table are indistinguishable through the contract, so the model
/// does not track bare table creation.
pub type StoreView = Map<(Seq<char>, Seq<char>), ValueView>;

/// The model of a store that holds nothing.
pub open spec fn store_empty() -> StoreView {
    Map::empty()
}

/// The value at `key` of `table`, or `None` if it was never written.
pub open spec fn store_get(s: StoreView, table: Seq<char>, key: Seq<char>) -> Option<ValueView> {
    if s.dom().contains((table, key)) {
        Some(s[(table, key)])
    } else {
        None
    }
}

/// Whether `table` holds `key`.
pub open spec fn store_contains(s: StoreView, table: Seq<char>, key: Seq<char>) -> bool {
    s.dom().contains((table, key))
}

/// The store after writing `value` under `key` of `table`.
pub open spec fn store_set(
    s: StoreView,
    table: Seq<char>,
    key: Seq<char>,
    value: ValueView,
) -> StoreView {
    s.insert((table, key), value)
}

/// The store after removing `key` from `table`.
pub open spec fn store_del(s: StoreView, table: Seq<char>, key: Seq<char>) -> StoreView {
    s.remove((table, key))
}

/// The value of an optional lookup result, with the empty sentinel for a
/// missing key.
pub open spec fn value_or_empty(o: Option<ValueView>) -> ValueView {
    match o {
        Some(v) => v,
        None => ValueView::Empty,
    }
}

/// The positional result of a batch read: one value per requested key, in
/// request order, with the empty sentinel at the position of a missing key.
pub open spec fn mget_view(s: StoreView, table: Seq<char>, keys: Seq<Seq<char>>) -> Seq<
    ValueView,
> {
    Seq::new(keys.len(), |i: int| value_or_empty(store_get(s, table, keys[i])))
}

/// Whether `pairs` is a snapshot of `table` in `s`: every listed pair is
/// live in the table, every live key of the table is listed, and no key is
/// listed twice. The order of the pairs is not constrained.
pub open spec fn table_snapshot(
    s: StoreView,
    table: Seq<char>,
    pairs: Seq<(Seq<char>, ValueView)>,
) -> bool {
    &&& forall|i: int|
        0 <= i < pairs.len() ==> store_get(s, table, (#[trigger] pairs[i]).0) == Some(pairs[i].1)
    &&& forall|k: Seq<char>|
        #[trigger] store_contains(s, table, k) ==> exists|i: int|
            0 <= i < pairs.len() && (#[trigger] pairs[i]).0 == k
    &&& forall|i: int, j: int|
        0 <= i < pairs.len() && 0 <= j < pairs.len() && i != j ==> (#[trigger] pairs[i]).0 != (
        #[trigger] pairs[j]).0
}

/// The interface a storage backend must satisfy to be usable by dispatch.
/// Backends satisfying it are interchangeable with no change to the dispatch
/// logic. Every operation is total: the `Result` in each signature is the
/// shape the response conversion consumes, and a conforming backend always
/// returns `Ok`.
pub trait Storage: Sized {
    /// The model of the data this backend currently holds.
    spec fn contents(&self) -> StoreView;

    /// Returns the current value under `key` of `table`, or `None` if it is
    /// absent. Absence of the key or of the whole table is not a failure.
    fn get(&self, table: &str, key: &str) -> (r: Result<Option<Value>, KvError>)
        ensures
            r matches Ok(o) && o.deep_view() == store_get(self.contents(), table@, key@),
    ;

    /// Inserts or overwrites the value under `key` of `table`, creating the
    /// table if it does not exist, and returns the value previously stored
    /// there, or `None` on the first write.
    fn set(&mut self, table: &str, key: String, value: Value) -> (r: Result<
        Option<Value>,
        KvError,
    >)
        ensures
            final(self).contents() == store_set(old(self).contents(), table@, key@, value@),
            r matches Ok(o) && o.deep_view() == store_get(old(self).contents(), table@, key@),
    ;

    /// Reports whether `table` holds `key`.
    fn contains(&self, table: &str, key: &str) -> (r: Result<bool, KvError>)
        ensures
            r matches Ok(b) && b == store_contains(self.contents(), table@, key@),
    ;

    /// Removes `key` from `table` and returns the removed value, or `None`
    /// if it did not exist; absence is not a failure.
    fn del(&mut self, table: &str, key: &str) -> (r: Result<Option<Value>, KvError>)
        ensures
            final(self).contents() == store_del(old(self).contents(), table@, key@),
            r matches Ok(o) && o.deep_view() == store_get(old(self).contents(), table@, key@),
    ;

    /// Returns a snapshot of all live pairs of `table`, in no particular
    /// order.
    fn get_all(&self, table: &str) -> (r: Result<Vec<KvPair>, KvError>)
        ensures
            r matches Ok(ps) && table_snapshot(self.contents(), table@, ps.deep_view()),
    ;

    /// Reads a batch of keys from `table`: one value per key, in request
    /// order, with the empty sentinel at the position of each missing key.
    fn m_get(&self, table: &str, keys: Vec<String>) -> (r: Result<Option<Vec<Value>>, KvError>)
        ensures
            r matches Ok(o) && o matches Some(vals) && vals.deep_view() == mget_view(
                self.contents(),
                table@,
                keys.deep_view(),
            ),
    ;
}

} // verus!
