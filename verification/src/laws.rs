//! Laws of the storage model, stated as public proof functions over the
//! spec functions that the storage and handler contracts are written in.

use vstd::prelude::*;

use crate::command_service::hmexist_vals;
use crate::pb::ValueView;
use crate::storage::{
    mget_view, store_contains, store_del, store_get, store_set, table_snapshot, value_or_empty,
    StoreView,
};

verus! {

/// A (table, key) pair never written reads as absent: a lookup finds
/// nothing and a containment test is false.
pub proof fn lemma_unwritten_key_reads_absent(s: StoreView, table: Seq<char>, key: Seq<char>)
    requires
        !s.dom().contains((table, key)),
    ensures
        store_get(s, table, key) is None,
        !store_contains(s, table, key),
{
}

/// A write to one (table, key) pair leaves every other pair unchanged; in
/// particular, writing into one table does not affect any other table.
pub proof fn lemma_set_preserves_others(
    s: StoreView,
    table: Seq<char>,
    key: Seq<char>,
    value: ValueView,
    table2: Seq<char>,
    key2: Seq<char>,
)
    requires
        (table2, key2) != (table, key),
    ensures
        store_get(store_set(s, table, key, value), table2, key2) == store_get(s, table2, key2),
        store_contains(store_set(s, table, key, value), table2, key2) == store_contains(
            s,
            table2,
            key2,
        ),
{
}

/// After a write, the written key reads back exactly the written value. So
/// a second write to the same key is handed back exactly what the first
/// write stored, and of any sequence of writes to one key the last wins.
pub proof fn lemma_set_then_get(s: StoreView, table: Seq<char>, key: Seq<char>, value: ValueView)
    ensures
        store_get(store_set(s, table, key, value), table, key) == Some(value),
{
}

/// A removal erases exactly the removed key: a subsequent lookup of it
/// finds nothing, every other pair is unchanged, and removing a key that
/// was absent leaves the store exactly as it was.
pub proof fn lemma_del_then_get(s: StoreView, table: Seq<char>, key: Seq<char>)
    ensures
        store_get(store_del(s, table, key), table, key) is None,
        forall|table2: Seq<char>, key2: Seq<char>|
            (table2, key2) != (table, key) ==> store_get(
                store_del(s, table, key),
                table2,
                key2,
            ) == store_get(s, table2, key2),
        store_get(s, table, key) is None ==> store_del(s, table, key) == s,
{
    if store_get(s, table, key) is None {
        assert(store_del(s, table, key) =~= s);
    }
}

/// Writes to two distinct keys commute: the store contents after both do
/// not depend on the order of the writes, so what a table holds is
/// independent of insertion order.
pub proof fn lemma_set_commutes(
    s: StoreView,
    table: Seq<char>,
    key1: Seq<char>,
    value1: ValueView,
    key2: Seq<char>,
    value2: ValueView,
)
    requires
        key1 != key2,
    ensures
        store_set(store_set(s, table, key1, value1), table, key2, value2) == store_set(
            store_set(s, table, key2, value2),
            table,
            key1,
            value1,
        ),
{
    assert(store_set(store_set(s, table, key1, value1), table, key2, value2) =~= store_set(
        store_set(s, table, key2, value2),
        table,
        key1,
        value1,
    ));
}

/// Any two snapshots of the same table hold exactly the same pairs as sets:
/// a snapshot is the table's live pairs, independent of the order the
/// backend enumerated them in.
pub proof fn lemma_snapshot_pairs_determined(
    s: StoreView,
    table: Seq<char>,
    pairs1: Seq<(Seq<char>, ValueView)>,
    pairs2: Seq<(Seq<char>, ValueView)>,
)
    requires
        table_snapshot(s, table, pairs1),
        table_snapshot(s, table, pairs2),
    ensures
        pairs1.to_set() == pairs2.to_set(),
{
    assert forall|p: (Seq<char>, ValueView)| pairs1.to_set().contains(p) implies pairs2.to_set()
        .contains(p) by {
        lemma_snapshot_subset(s, table, pairs1, pairs2, p);
    }
    assert forall|p: (Seq<char>, ValueView)| pairs2.to_set().contains(p) implies pairs1.to_set()
        .contains(p) by {
        lemma_snapshot_subset(s, table, pairs2, pairs1, p);
    }
    assert(pairs1.to_set() =~= pairs2.to_set());
}

/// A pair listed by one snapshot of a table is listed by every other
/// snapshot of the same table.
proof fn lemma_snapshot_subset(
    s: StoreView,
    table: Seq<char>,
    pairs1: Seq<(Seq<char>, ValueView)>,
    pairs2: Seq<(Seq<char>, ValueView)>,
    p: (Seq<char>, ValueView),
)
    requires
        table_snapshot(s, table, pairs1),
        table_snapshot(s, table, pairs2),
        pairs1.to_set().contains(p),
    ensures
        pairs2.to_set().contains(p),
{
    let i = choose|i: int| 0 <= i < pairs1.len() && pairs1[i] == p;
    assert(store_get(s, table, p.0) == Some(p.1));
    assert(store_contains(s, table, p.0));
    let j = choose|j: int| 0 <= j < pairs2.len() && pairs2[j].0 == p.0;
    assert(store_get(s, table, pairs2[j].0) == Some(pairs2[j].1));
    assert(pairs2[j] == p);
    assert(pairs2.to_set().contains(p));
}

/// A batch read answers positionally: its result has one value per
/// requested key, in request order, the key's value where it is live and
/// the empty sentinel where it is not.
pub proof fn lemma_mget_positional(s: StoreView, table: Seq<char>, keys: Seq<Seq<char>>)
    ensures
        mget_view(s, table, keys).len() == keys.len(),
        forall|i: int|
            0 <= i < keys.len() ==> mget_view(s, table, keys)[i] == value_or_empty(
                store_get(s, table, #[trigger] keys[i]),
            ),
{
}

/// A batch containment test answers positionally: at each position exactly
/// the boolean that a single containment test of that key gives against the
/// same contents.
pub proof fn lemma_mexist_matches_contains(s: StoreView, table: Seq<char>, keys: Seq<Seq<char>>)
    ensures
        hmexist_vals(s, table, keys).len() == keys.len(),
        forall|i: int|
            0 <= i < keys.len() ==> hmexist_vals(s, table, keys)[i] == ValueView::Bool(
                store_contains(s, table, #[trigger] keys[i]),
            ),
{
}

} // verus!
