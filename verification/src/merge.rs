//! The shallow, right-biased merge of two configuration tables.

use vstd::prelude::*;
use crate::value::{
    has_key, is_first, lemma_first_is_unique, lookup, key_set, unique_keys, ConfigTable,
    ConfigValue, TableModel,
};

verus! {

/// The merge of `primary` with `over`: the entries of `primary`, in their
/// order, each with the value that `over` gives to its key where it gives one.
/// A nested table is replaced whole, never descended into, and a key that only
/// `over` defines is dropped.
pub open spec fn merged(primary: TableModel, over: TableModel) -> TableModel {
    Seq::new(
        primary.len(),
        |i: int|
            (
                primary[i].0,
                match lookup(over, primary[i].0) {
                    Some(v) => v,
                    None => primary[i].1,
                },
            ),
    )
}

/// The table after an optional overlay: merged where one is given, unchanged
/// where none is.
pub open spec fn overlaid(current: TableModel, over: Option<TableModel>) -> TableModel {
    match over {
        Some(t) => merged(current, t),
        None => current,
    }
}

/// The view of an optional table.
pub open spec fn optional_view(over: Option<ConfigTable>) -> Option<TableModel> {
    match over {
        Some(t) => Some(t@),
        None => None,
    }
}

/// A merge defines exactly the keys of its primary table, at the same
/// positions: the key set never grows and never shrinks.
pub proof fn merge_keeps_keys(primary: TableModel, over: TableModel)
    ensures
        merged(primary, over).len() == primary.len(),
        forall|i: int| 0 <= i < primary.len() ==> (#[trigger] merged(primary, over)[i]).0 == primary[i].0,
        key_set(merged(primary, over)) == key_set(primary),
        unique_keys(primary) ==> unique_keys(merged(primary, over)),
{
    let m = merged(primary, over);
    assert forall|k: Seq<char>| has_key(m, k) == has_key(primary, k) by {
        if has_key(primary, k) {
            let i = choose|i: int| is_first(primary, k, i);
            assert forall|j: int| 0 <= j < i implies (#[trigger] m[j]).0 != k by {
                assert(primary[j].0 != k);
            }
            assert(is_first(m, k, i));
        }
        if has_key(m, k) {
            let i = choose|i: int| is_first(m, k, i);
            assert forall|j: int| 0 <= j < i implies (#[trigger] primary[j]).0 != k by {
                assert(m[j].0 != k);
            }
            assert(is_first(primary, k, i));
        }
    }
    assert(key_set(m) =~= key_set(primary));
    if unique_keys(primary) {
        assert forall|i: int, j: int| 0 <= i < j < m.len() implies (#[trigger] m[i]).0 != (
        #[trigger] m[j]).0 by {
            assert(primary[i].0 != primary[j].0);
        }
    }
}

/// For a key of the primary table, a merge gives the override's value where
/// the override defines the key, and the primary's value where it does not.
pub proof fn merge_prefers_override(primary: TableModel, over: TableModel, key: Seq<char>)
    requires
        has_key(primary, key),
    ensures
        has_key(merged(primary, over), key),
        lookup(merged(primary, over), key) == if has_key(over, key) {
            lookup(over, key)
        } else {
            lookup(primary, key)
        },
{
    let m = merged(primary, over);
    let i = choose|i: int| is_first(primary, key, i);
    assert forall|j: int| 0 <= j < i implies (#[trigger] m[j]).0 != key by {
        assert(primary[j].0 != key);
    }
    assert(is_first(m, key, i));
    lemma_first_is_unique(m, key, i);
    lemma_first_is_unique(primary, key, i);
}

/// A key that the primary table lacks stays undefined, whatever the override
/// says of it.
pub proof fn merge_drops_new_keys(primary: TableModel, over: TableModel, key: Seq<char>)
    requires
        !has_key(primary, key),
    ensures
        lookup(merged(primary, over), key) is None,
{
    merge_keeps_keys(primary, over);
    assert(key_set(primary).contains(key) == has_key(primary, key));
    assert(key_set(merged(primary, over)).contains(key) == has_key(merged(primary, over), key));
}

/// With no overlay the table stays as it is.
pub proof fn absent_overlay_is_identity(current: TableModel)
    ensures
        overlaid(current, None) == current,
{
}

/// Merges `right` over `left`. The result is a new table with the keys of
/// `left`; neither input is changed.
pub fn toml_merge(left: ConfigTable, right: ConfigTable) -> (out: ConfigTable)
    ensures
        out@ == merged(left@, right@),
        key_set(out@) == key_set(left@),
        left.well_formed() ==> out.well_formed(),
{
    let mut entries: Vec<(String, ConfigValue)> = Vec::new();
    let mut i: usize = 0;
    while i < left.entries.len()
        invariant
            0 <= i <= left.entries.len(),
            left@.len() == left.entries@.len(),
            entries@.len() == i,
            forall|j: int|
                0 <= j < i ==> (#[trigger] entries@[j]).0@ == left@[j].0 && entries@[j].1@
                    == merged(left@, right@)[j].1,
        decreases left.entries.len() - i,
    {
        let key = left.entries[i].0.clone();
        assert(key@ == left@[i as int].0);
        let value = match right.get(&key) {
            Some(v) => v.duplicate(),
            None => left.entries[i].1.duplicate(),
        };
        assert(value@ == merged(left@, right@)[i as int].1);
        entries.push((key, value));
        i += 1;
    }
    let out = ConfigTable { entries };
    assert(out@ =~= merged(left@, right@));
    proof {
        merge_keeps_keys(left@, right@);
    }
    out
}

/// Applies an optional overlay to `current`: the merge where an overlay is
/// given, `current` itself where none is.
pub fn overlay(current: ConfigTable, over: Option<ConfigTable>) -> (out: ConfigTable)
    ensures
        out@ == overlaid(current@, optional_view(over)),
        over is None ==> out@ == current@,
        current.well_formed() ==> out.well_formed(),
{
    match over {
        Some(table) => toml_merge(current, table),
        None => current,
    }
}

} // verus!
