//! The in-memory backend: a concurrent two-level map (table name to key to
//! value) from the `dashmap` crate, held behind trusted wrappers whose
//! contracts state what each map operation does to the backend's contents.
//!
//! The reference point of every contract is `mem_contents`, the name given to
//! what the two-level map currently holds, flattened to the store model.
//! Read operations here do not create the table they read from: an empty
//! table and an absent one are indistinguishable through the contract, so
//! reads are kept free of mutation.

use vstd::prelude::*;

use dashmap::DashMap;

use crate::errors::KvError;
use crate::pb::{KvPair, Value, ValueView};
use crate::storage::{
    mget_view, store_contains, store_del, store_empty, store_get, store_set, table_snapshot,
    value_or_empty, Storage, StoreView,
};

verus! {

/// Declares `dashmap::DashMap` to the verifier. Values of the type are
/// opaque: everything stated about what a map holds goes through
/// `mem_contents` and the trusted wrappers below.
#[verifier::external_type_specification]
#[verifier::external_body]
#[verifier::reject_recursive_types(K)]
#[verifier::reject_recursive_types(V)]
#[verifier::reject_recursive_types(S)]
pub struct ExDashMap<K, V, S>(DashMap<K, V, S>);

/// The in-memory backend: a map from table name to that table's own map from
/// key to value. Lookup-or-create of a table and the per-key operations of
/// each table are race-safe inside `dashmap`.
pub struct MemTable {
    tables: DashMap<String, DashMap<String, Value>>,
}

/// What the two-level map holds, flattened to the store model: the pair
/// (table name, key) maps to the value stored under that key of that table.
pub uninterp spec fn mem_contents(m: MemTable) -> StoreView;

impl MemTable {
    /// Creates an empty backend.
    ///
    /// Relies on `dashmap::DashMap::new`: the new map holds no entries.
    #[verifier::external_body]
    pub fn new() -> (r: MemTable)
        ensures
            r.contents() == store_empty(),
    {
        MemTable { tables: DashMap::new() }
    }

    /// Relies on `dashmap::DashMap::get` on the outer and the inner map: the
    /// returned reference is the value stored under the key, or `None` if
    /// the key (or the whole table) is absent.
    #[verifier::external_body]
    fn raw_get(&self, table: &str, key: &str) -> (r: Option<Value>)
        ensures
            r.deep_view() == store_get(mem_contents(*self), table@, key@),
    {
        match self.tables.get(table) {
            Some(t) => match t.get(key) {
                Some(v) => Some(v.value().clone()),
                None => None,
            },
            None => None,
        }
    }

    /// Relies on `dashmap::DashMap::entry` with `Entry::or_default` to look
    /// up or create the named table, and on `dashmap::DashMap::insert` on
    /// it: `insert` stores the value under the key and returns the value
    /// previously stored there, if any.
    #[verifier::external_body]
    fn raw_set(&mut self, table: &str, key: String, value: Value) -> (r: Option<Value>)
        ensures
            mem_contents(*final(self)) == store_set(mem_contents(*old(self)), table@, key@, value@),
            r.deep_view() == store_get(mem_contents(*old(self)), table@, key@),
    {
        let t = self.tables.entry(table.to_string()).or_default();
        t.insert(key, value)
    }

    /// Relies on `dashmap::DashMap::contains_key` on the table's map; an
    /// absent table holds no keys.
    #[verifier::external_body]
    fn raw_contains(&self, table: &str, key: &str) -> (r: bool)
        ensures
            r == store_contains(mem_contents(*self), table@, key@),
    {
        match self.tables.get(table) {
            Some(t) => t.contains_key(key),
            None => false,
        }
    }

    /// Relies on `dashmap::DashMap::remove` on the table's map: it removes
    /// the entry and returns it if it existed, and returns `None` otherwise.
    #[verifier::external_body]
    fn raw_del(&mut self, table: &str, key: &str) -> (r: Option<Value>)
        ensures
            mem_contents(*final(self)) == store_del(mem_contents(*old(self)), table@, key@),
            r.deep_view() == store_get(mem_contents(*old(self)), table@, key@),
    {
        match self.tables.get(table) {
            Some(t) => match t.remove(key) {
                Some((_, v)) => Some(v),
                None => None,
            },
            None => None,
        }
    }

    /// Relies on `dashmap::DashMap::iter` on the table's map: it yields
    /// every entry the table holds, each key once.
    #[verifier::external_body]
    fn raw_get_all(&self, table: &str) -> (r: Vec<KvPair>)
        ensures
            table_snapshot(mem_contents(*self), table@, r.deep_view()),
    {
        let mut out = Vec::new();
        if let Some(t) = self.tables.get(table) {
            for p in t.iter() {
                out.push(KvPair { key: p.key().clone(), value: p.value().clone() });
            }
        }
        out
    }
}

impl Storage for MemTable {
    closed spec fn contents(&self) -> StoreView {
        mem_contents(*self)
    }

    fn get(&self, table: &str, key: &str) -> Result<Option<Value>, KvError> {
        Ok(self.raw_get(table, key))
    }

    fn set(&mut self, table: &str, key: String, value: Value) -> Result<Option<Value>, KvError> {
        Ok(self.raw_set(table, key, value))
    }

    fn contains(&self, table: &str, key: &str) -> Result<bool, KvError> {
        Ok(self.raw_contains(table, key))
    }

    fn del(&mut self, table: &str, key: &str) -> Result<Option<Value>, KvError> {
        Ok(self.raw_del(table, key))
    }

    fn get_all(&self, table: &str) -> Result<Vec<KvPair>, KvError> {
        Ok(self.raw_get_all(table))
    }

    fn m_get(&self, table: &str, keys: Vec<String>) -> Result<Option<Vec<Value>>, KvError> {
        let mut vals: Vec<Value> = Vec::new();
        let mut i: usize = 0;
        while i < keys.len()
            invariant
                i <= keys.len(),
                vals.deep_view().len() == i as int,
                forall|j: int|
                    0 <= j < i as int ==> vals.deep_view()[j] == value_or_empty(
                        store_get(self.contents(), table@, keys.deep_view()[j]),
                    ),
            decreases keys.len() - i,
        {
            let got = match self.raw_get(table, keys[i].as_str()) {
                Some(v) => v,
                None => Value::Empty,
            };
            proof {
                assert(got.deep_view() == value_or_empty(
                    store_get(self.contents(), table@, keys.deep_view()[i as int]),
                ));
            }
            let ghost prev = vals.deep_view();
            vals.push(got);
            proof {
                assert(vals.deep_view() =~= prev.push(got.deep_view()));
            }
            i = i + 1;
        }
        proof {
            assert(vals.deep_view() =~= mget_view(self.contents(), table@, keys.deep_view()));
        }
        Ok(Some(vals))
    }
}

} // verus!
